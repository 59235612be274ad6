//! Small keyed collections that keep their keys in insertion order.

use vstd::prelude::*;

use crate::ids::Id;

verus! {

/// The value that `pairs` holds under `key`.
pub open spec fn pairs_value<K, V>(pairs: Seq<(K, V)>, key: K) -> V {
    pairs[choose|i: int| 0 <= i < pairs.len() && (#[trigger] pairs[i]).0 == key].1
}

/// Whether some pair has the key.
pub open spec fn pairs_has<K, V>(pairs: Seq<(K, V)>, key: K) -> bool {
    exists|i: int| 0 <= i < pairs.len() && (#[trigger] pairs[i]).0 == key
}

/// A sequence without an element that stands in it once.
pub open spec fn order_without<K>(order: Seq<K>, key: K) -> Seq<K> {
    if order.contains(key) {
        order.remove(order.index_of(key))
    } else {
        order
    }
}

/// Whether `i` is the first position whose element passes.
pub open spec fn first_at<A>(s: Seq<A>, pred: spec_fn(A) -> bool, i: int) -> bool {
    0 <= i < s.len() && pred(s[i]) && forall|j: int| 0 <= j < i ==> !pred(#[trigger] s[j])
}

/// The first position whose element passes.
pub open spec fn first_index<A>(s: Seq<A>, pred: spec_fn(A) -> bool) -> Option<int> {
    if exists|i: int| first_at(s, pred, i) {
        Some(choose|i: int| first_at(s, pred, i))
    } else {
        None
    }
}

/// The first element that passes.
pub open spec fn first_match<A>(s: Seq<A>, pred: spec_fn(A) -> bool) -> Option<A> {
    match first_index(s, pred) {
        Some(i) => Some(s[i]),
        None => None,
    }
}

pub proof fn lemma_first_index<A>(s: Seq<A>, pred: spec_fn(A) -> bool, i: int)
    requires
        first_at(s, pred, i),
    ensures
        first_index(s, pred) == Some(i),
        first_match(s, pred) == Some(s[i]),
{
    let k = choose|k: int| first_at(s, pred, k);
    assert(first_at(s, pred, k));
    if k < i {
        assert(!pred(s[k]));
    } else if i < k {
        assert(!pred(s[i]));
    }
}

pub proof fn lemma_no_match<A>(s: Seq<A>, pred: spec_fn(A) -> bool)
    requires
        forall|j: int| 0 <= j < s.len() ==> !pred(#[trigger] s[j]),
    ensures
        first_index(s, pred) is None,
        first_match(s, pred) is None,
{
}

/// What the first match is: one that passes with none before it, or none at
/// all.
pub proof fn lemma_first<A>(s: Seq<A>, pred: spec_fn(A) -> bool)
    ensures
        match first_index(s, pred) {
            Some(k) => first_at(s, pred, k) && first_match(s, pred) == Some(s[k]),
            None => first_match(s, pred) is None && forall|j: int|
                0 <= j < s.len() ==> !pred(#[trigger] s[j]),
        },
{
    if first_index(s, pred) is None {
        assert forall|j: int| 0 <= j < s.len() implies !pred(#[trigger] s[j]) by {
            if pred(s[j]) {
                lemma_passes_first(s, pred, j);
            }
        }
    }
}

/// Where something passes, something passes first.
proof fn lemma_passes_first<A>(s: Seq<A>, pred: spec_fn(A) -> bool, i: int)
    requires
        0 <= i < s.len(),
        pred(s[i]),
    ensures
        exists|k: int| first_at(s, pred, k),
    decreases i,
{
    if exists|j: int| 0 <= j < i && pred(#[trigger] s[j]) {
        let j = choose|j: int| 0 <= j < i && pred(#[trigger] s[j]);
        lemma_passes_first(s, pred, j);
    } else {
        assert(first_at(s, pred, i));
    }
}

/// Whether two lists are the same.
pub fn same_list<T: Id>(a: &Vec<T>, b: &Vec<T>) -> (r: bool)
    ensures
        r == (a@ == b@),
{
    if a.len() != b.len() {
        return false;
    }
    let mut i: usize = 0;
    while i < a.len()
        invariant
            i <= a@.len(),
            a@.len() == b@.len(),
            forall|j: int| 0 <= j < i ==> #[trigger] a@[j] == b@[j],
        decreases a@.len() - i,
    {
        if !a[i].same(b[i]) {
            return false;
        }
        i += 1;
    }
    assert(a@ =~= b@);
    true
}

/// The same list once more.
pub fn copy_list<T: Copy>(v: &Vec<T>) -> (r: Vec<T>)
    ensures
        r@ == v@,
{
    let mut r: Vec<T> = Vec::new();
    let mut i: usize = 0;
    while i < v.len()
        invariant
            i <= v@.len(),
            r@ == v@.take(i as int),
        decreases v@.len() - i,
    {
        r.push(v[i]);
        assert(r@ =~= v@.take(i + 1));
        i += 1;
    }
    assert(v@.take(i as int) =~= v@);
    r
}

/// A filtered sequence holds the members that pass, in no greater number.
pub proof fn lemma_filter_members<A>(s: Seq<A>, pred: spec_fn(A) -> bool)
    ensures
        forall|x: A| #[trigger] s.filter(pred).contains(x) <==> s.contains(x) && pred(x),
        s.no_duplicates() ==> s.filter(pred).no_duplicates(),
        s.filter(pred).len() <= s.len(),
    decreases s.len(),
{
    reveal(Seq::filter);
    if s.len() > 0 {
        let rest = s.drop_last();
        let out = s.filter(pred);
        lemma_filter_members(rest, pred);
        assert forall|x: A| #[trigger] out.contains(x) <==> s.contains(x) && pred(x) by {
            if out.contains(x) {
                let i = choose|i: int| 0 <= i < out.len() && out[i] == x;
                if i < rest.filter(pred).len() {
                    assert(rest.filter(pred)[i] == x);
                    assert(rest.filter(pred).contains(x));
                    let k = choose|k: int| 0 <= k < rest.len() && rest[k] == x;
                    assert(s[k] == x);
                } else {
                    assert(s[s.len() - 1] == x);
                }
            }
            if s.contains(x) && pred(x) {
                let k = choose|k: int| 0 <= k < s.len() && s[k] == x;
                if k < rest.len() {
                    assert(rest[k] == x);
                    assert(rest.filter(pred).contains(x));
                    let i = choose|i: int|
                        0 <= i < rest.filter(pred).len() && rest.filter(pred)[i] == x;
                    assert(out[i] == x);
                } else {
                    assert(out[out.len() - 1] == x);
                }
            }
        }
        if s.no_duplicates() {
            assert(rest.no_duplicates());
            assert(!rest.contains(s.last())) by {
                if rest.contains(s.last()) {
                    let k = choose|k: int| 0 <= k < rest.len() && rest[k] == s.last();
                    assert(s[k] == s[s.len() - 1]);
                }
            }
            assert(!rest.filter(pred).contains(s.last()));
            assert forall|i: int, j: int|
                0 <= i < out.len() && 0 <= j < out.len() && i != j implies out[i] != out[j] by {
                let n = rest.filter(pred).len();
                if i < n && j < n {
                    assert(rest.filter(pred)[i] != rest.filter(pred)[j]);
                } else if i < n {
                    assert(rest.filter(pred).contains(out[i]));
                } else if j < n {
                    assert(rest.filter(pred).contains(out[j]));
                }
            }
        }
    }
}

/// Filtering changes nothing where every member passes.
pub proof fn lemma_filter_keeps_all<A>(s: Seq<A>, pred: spec_fn(A) -> bool)
    requires
        forall|x: A| #[trigger] s.contains(x) ==> pred(x),
    ensures
        s.filter(pred) == s,
    decreases s.len(),
{
    reveal(Seq::filter);
    if s.len() > 0 {
        let rest = s.drop_last();
        assert forall|x: A| #[trigger] rest.contains(x) implies pred(x) by {
            let k = choose|k: int| 0 <= k < rest.len() && rest[k] == x;
            assert(s[k] == x);
            assert(s.contains(x));
        }
        lemma_filter_keeps_all(rest, pred);
        assert(s.contains(s[s.len() - 1]));
        assert(s.filter(pred) =~= s);
    }
}

/// A map from identifiers to values.
pub struct IdMap<K: Id, V> {
    entries: Vec<(K, V)>,
}

impl<K: Id, V> View for IdMap<K, V> {
    type V = Map<K, V>;

    closed spec fn view(&self) -> Map<K, V> {
        Map::new(
            |k: K| pairs_has(self.entries@, k),
            |k: K| pairs_value(self.entries@, k),
        )
    }
}

impl<K: Id, V> IdMap<K, V> {
    #[verifier::type_invariant]
    spec fn keys_are_distinct(self) -> bool {
        forall|i: int, j: int|
            0 <= i < j < self.entries@.len() ==> (#[trigger] self.entries@[i]).0 != (
            #[trigger] self.entries@[j]).0
    }

    /// The keys in the order in which they were first inserted.
    pub closed spec fn order(&self) -> Seq<K> {
        self.entries@.map_values(|p: (K, V)| p.0)
    }

    proof fn lemma_value(&self, i: int)
        requires
            self.keys_are_distinct(),
            0 <= i < self.entries@.len(),
        ensures
            self@.contains_key(self.entries@[i].0),
            self@[self.entries@[i].0] == self.entries@[i].1,
    {
        let k = self.entries@[i].0;
        assert(pairs_has(self.entries@, k));
        let j = choose|j: int| 0 <= j < self.entries@.len() && (#[trigger] self.entries@[j]).0 == k;
        assert(i == j) by {
            if i < j {
                assert(self.entries@[i].0 != self.entries@[j].0);
            } else if j < i {
                assert(self.entries@[j].0 != self.entries@[i].0);
            }
        }
    }

    proof fn lemma_order(&self)
        requires
            self.keys_are_distinct(),
        ensures
            self.order().no_duplicates(),
            forall|k: K| #[trigger] self.order().contains(k) <==> self@.contains_key(k),
    {
        assert forall|i: int, j: int|
            0 <= i < self.order().len() && 0 <= j < self.order().len() && i
                != j implies self.order()[i] != self.order()[j] by {
            if i < j {
                assert(self.entries@[i].0 != self.entries@[j].0);
            } else {
                assert(self.entries@[j].0 != self.entries@[i].0);
            }
        }
        assert forall|k: K| #[trigger] self.order().contains(k) <==> self@.contains_key(k) by {
            if self.order().contains(k) {
                let i = choose|i: int| 0 <= i < self.order().len() && self.order()[i] == k;
                assert(self.entries@[i].0 == k);
            }
            if pairs_has(self.entries@, k) {
                let i = choose|i: int|
                    0 <= i < self.entries@.len() && (#[trigger] self.entries@[i]).0 == k;
                assert(self.order()[i] == k);
            }
        }
    }

    pub fn new() -> (r: Self)
        ensures
            r@ == Map::<K, V>::empty(),
            r.order() == Seq::<K>::empty(),
    {
        let r = IdMap { entries: Vec::new() };
        assert(r@ =~= Map::<K, V>::empty());
        assert(r.order() =~= Seq::<K>::empty());
        r
    }

    fn take_entries(&mut self) -> (r: Vec<(K, V)>)
        ensures
            r@ == old(self).entries@,
    {
        let mut entries: Vec<(K, V)> = Vec::new();
        std::mem::swap(&mut self.entries, &mut entries);
        entries
    }

    fn index_of(&self, key: K) -> (r: Option<usize>)
        ensures
            match r {
                Some(i) => i < self.entries@.len() && self.entries@[i as int].0 == key,
                None => !self@.contains_key(key),
            },
    {
        let mut i: usize = 0;
        while i < self.entries.len()
            invariant
                i <= self.entries@.len(),
                forall|j: int| 0 <= j < i ==> (#[trigger] self.entries@[j]).0 != key,
            decreases self.entries@.len() - i,
        {
            if self.entries[i].0.same(key) {
                return Some(i);
            }
            i += 1;
        }
        None
    }

    pub fn get(&self, key: K) -> (r: Option<&V>)
        ensures
            match r {
                Some(v) => self@.contains_key(key) && *v == self@[key],
                None => !self@.contains_key(key),
            },
    {
        proof {
            use_type_invariant(self);
        }
        match self.index_of(key) {
            Some(i) => {
                proof {
                    self.lemma_value(i as int);
                }
                Some(&self.entries[i].1)
            },
            None => None,
        }
    }

    pub fn contains_key(&self, key: K) -> (r: bool)
        ensures
            r == self@.contains_key(key),
    {
        self.get(key).is_some()
    }

    pub fn insert(&mut self, key: K, value: V) -> (r: Option<V>)
        ensures
            final(self)@ == old(self)@.insert(key, value),
            match r {
                Some(v) => old(self)@.contains_key(key) && v == old(self)@[key],
                None => !old(self)@.contains_key(key),
            },
            final(self).order() == if old(self)@.contains_key(key) {
                old(self).order()
            } else {
                old(self).order().push(key)
            },
    {
        proof {
            use_type_invariant(&*self);
        }
        let ghost before = *self;
        match self.index_of(key) {
            Some(i) => {
                proof {
                    self.lemma_value(i as int);
                }
                let mut entries = self.take_entries();
                let mut pair = (key, value);
                std::mem::swap(&mut entries[i], &mut pair);
                assert(entries@ == before.entries@.update(i as int, (key, value)));
                self.entries = entries;
                proof {
                    assert(self.entries@ == before.entries@.update(i as int, (key, value)));
                    assert(self.order() =~= before.order());
                    assert(self@ =~= before@.insert(key, value)) by {
                        lemma_update(before, *self, i as int);
                    }
                }
                Some(pair.1)
            },
            None => {
                let mut entries = self.take_entries();
                entries.push((key, value));
                proof {
                    assert forall|j: int| 0 <= j < before.entries@.len() implies (
                    #[trigger] before.entries@[j]).0 != key by {
                        before.lemma_value(j);
                    }
                }
                self.entries = entries;
                proof {
                    assert(self.entries@ == before.entries@.push((key, value)));
                    assert(self.order() =~= before.order().push(key));
                    assert(self@ =~= before@.insert(key, value)) by {
                        lemma_push(before, *self);
                    }
                }
                None
            },
        }
    }

    pub fn remove(&mut self, key: K) -> (r: Option<V>)
        ensures
            final(self)@ == old(self)@.remove(key),
            match r {
                Some(v) => old(self)@.contains_key(key) && v == old(self)@[key],
                None => !old(self)@.contains_key(key) && *final(self) == *old(self),
            },
            final(self).order() == order_without(old(self).order(), key),
    {
        proof {
            use_type_invariant(&*self);
            self.lemma_order();
        }
        let ghost before = *self;
        match self.index_of(key) {
            Some(i) => {
                proof {
                    self.lemma_value(i as int);
                }
                let mut entries = self.take_entries();
                let pair = entries.remove(i);
                self.entries = entries;
                proof {
                    assert(self.entries@ == before.entries@.remove(i as int));
                    assert(self.order() =~= before.order().remove(i as int));
                    assert(self@ =~= before@.remove(key)) by {
                        lemma_remove(before, *self, i as int);
                    }
                    assert(before.order()[i as int] == key);
                    assert(before.order().contains(key));
                    assert(before.order().index_of(key) == i);
                }
                Some(pair.1)
            },
            None => {
                proof {
                    assert(self@.remove(key) =~= self@);
                    assert(!before.order().contains(key));
                }
                None
            },
        }
    }

    pub fn len(&self) -> (r: usize)
        ensures
            r == self.order().len(),
            self@.dom().finite(),
            r == self@.dom().len(),
            r == 0 <==> self@ == Map::<K, V>::empty(),
    {
        proof {
            use_type_invariant(self);
            self.lemma_order();
            self.order().unique_seq_to_set();
            assert(self@.dom() =~= self.order().to_set());
            if self.order().len() == 0 {
                assert(self@ =~= Map::<K, V>::empty()) by {
                    assert forall|k: K| !self@.contains_key(k) by {
                        assert(!self.order().contains(k));
                    }
                }
            } else {
                assert(self.order().contains(self.order()[0]));
            }
        }
        self.entries.len()
    }

    pub fn is_empty(&self) -> (r: bool)
        ensures
            r <==> self@ == Map::<K, V>::empty(),
            r <==> self.order().len() == 0,
    {
        self.len() == 0
    }

    /// All keys, in insertion order.
    pub fn keys(&self) -> (r: Vec<K>)
        ensures
            r@ == self.order(),
            r@.no_duplicates(),
            forall|k: K| #[trigger] r@.contains(k) <==> self@.contains_key(k),
    {
        proof {
            use_type_invariant(self);
            self.lemma_order();
        }
        let mut r: Vec<K> = Vec::new();
        let mut i: usize = 0;
        while i < self.entries.len()
            invariant
                i <= self.entries@.len(),
                r@ == self.order().take(i as int),
            decreases self.entries@.len() - i,
        {
            r.push(self.entries[i].0);
            assert(r@ =~= self.order().take(i + 1));
            i += 1;
        }
        assert(self.order().take(i as int) =~= self.order());
        r
    }

    pub fn clear(&mut self)
        ensures
            final(self)@ == Map::<K, V>::empty(),
            final(self).order() == Seq::<K>::empty(),
    {
        self.entries = Vec::new();
        assert(self@ =~= Map::<K, V>::empty());
        assert(self.order() =~= Seq::<K>::empty());
    }
}

proof fn lemma_update<K: Id, V>(before: IdMap<K, V>, after: IdMap<K, V>, i: int)
    requires
        before.keys_are_distinct(),
        after.keys_are_distinct(),
        0 <= i < before.entries@.len(),
        after.entries@ == before.entries@.update(i, after.entries@[i]),
        after.entries@[i].0 == before.entries@[i].0,
    ensures
        after@ =~= before@.insert(after.entries@[i].0, after.entries@[i].1),
{
    let key = after.entries@[i].0;
    let target = before@.insert(key, after.entries@[i].1);
    assert forall|k: K| #[trigger] after@.contains_key(k) <==> target.contains_key(k) by {
        if pairs_has(after.entries@, k) {
            let j = choose|j: int|
                0 <= j < after.entries@.len() && (#[trigger] after.entries@[j]).0 == k;
            before.lemma_value(j);
        }
        if pairs_has(before.entries@, k) {
            let j = choose|j: int|
                0 <= j < before.entries@.len() && (#[trigger] before.entries@[j]).0 == k;
            assert(after.entries@[j].0 == k);
        }
        if k == key {
            assert(after.entries@[i].0 == k);
        }
    }
    assert forall|k: K| #[trigger] after@.contains_key(k) implies after@[k] == target[k] by {
        let j = choose|j: int|
            0 <= j < after.entries@.len() && (#[trigger] after.entries@[j]).0 == k;
        after.lemma_value(j);
        after.lemma_value(i);
        before.lemma_value(j);
    }
}

proof fn lemma_push<K: Id, V>(before: IdMap<K, V>, after: IdMap<K, V>)
    requires
        before.keys_are_distinct(),
        after.keys_are_distinct(),
        after.entries@.len() == before.entries@.len() + 1,
        after.entries@ == before.entries@.push(after.entries@.last()),
    ensures
        after@ =~= before@.insert(after.entries@.last().0, after.entries@.last().1),
{
    let last = before.entries@.len() as int;
    let key = after.entries@.last().0;
    let target = before@.insert(key, after.entries@.last().1);
    assert forall|k: K| #[trigger] after@.contains_key(k) <==> target.contains_key(k) by {
        if pairs_has(after.entries@, k) {
            let j = choose|j: int|
                0 <= j < after.entries@.len() && (#[trigger] after.entries@[j]).0 == k;
            if j < last {
                before.lemma_value(j);
            }
        }
        if pairs_has(before.entries@, k) {
            let j = choose|j: int|
                0 <= j < before.entries@.len() && (#[trigger] before.entries@[j]).0 == k;
            assert(after.entries@[j].0 == k);
        }
        if k == key {
            assert(after.entries@[last].0 == k);
        }
    }
    assert forall|k: K| #[trigger] after@.contains_key(k) implies after@[k] == target[k] by {
        let j = choose|j: int|
            0 <= j < after.entries@.len() && (#[trigger] after.entries@[j]).0 == k;
        after.lemma_value(j);
        if j < last {
            before.lemma_value(j);
            assert(after.entries@[j].0 != after.entries@[last].0);
        }
    }
}

proof fn lemma_remove<K: Id, V>(before: IdMap<K, V>, after: IdMap<K, V>, i: int)
    requires
        before.keys_are_distinct(),
        after.keys_are_distinct(),
        0 <= i < before.entries@.len(),
        after.entries@ == before.entries@.remove(i),
    ensures
        after@ =~= before@.remove(before.entries@[i].0),
{
    let key = before.entries@[i].0;
    let target = before@.remove(key);
    assert forall|k: K| #[trigger] after@.contains_key(k) <==> target.contains_key(k) by {
        if pairs_has(after.entries@, k) {
            let j = choose|j: int|
                0 <= j < after.entries@.len() && (#[trigger] after.entries@[j]).0 == k;
            let b = if j < i {
                j
            } else {
                j + 1
            };
            before.lemma_value(b);
            if b < i {
                assert(before.entries@[b].0 != before.entries@[i].0);
            } else {
                assert(before.entries@[i].0 != before.entries@[b].0);
            }
        }
        if pairs_has(before.entries@, k) && k != key {
            let j = choose|j: int|
                0 <= j < before.entries@.len() && (#[trigger] before.entries@[j]).0 == k;
            let a = if j < i {
                j
            } else {
                j - 1
            };
            assert(after.entries@[a].0 == k);
        }
    }
    assert forall|k: K| #[trigger] after@.contains_key(k) implies after@[k] == target[k] by {
        let j = choose|j: int|
            0 <= j < after.entries@.len() && (#[trigger] after.entries@[j]).0 == k;
        let b = if j < i {
            j
        } else {
            j + 1
        };
        after.lemma_value(j);
        before.lemma_value(b);
        assert(target.contains_key(k));
    }
}

/// A set of identifiers.
pub struct IdSet<K: Id> {
    members: IdMap<K, ()>,
}

impl<K: Id> View for IdSet<K> {
    type V = Set<K>;

    closed spec fn view(&self) -> Set<K> {
        self.members@.dom()
    }
}

impl<K: Id> IdSet<K> {
    /// The members in the order in which they were inserted.
    pub closed spec fn order(&self) -> Seq<K> {
        self.members.order()
    }

    pub fn new() -> (r: Self)
        ensures
            r@ == Set::<K>::empty(),
            r.order() == Seq::<K>::empty(),
    {
        let r = IdSet { members: IdMap::new() };
        assert(r@ =~= Set::<K>::empty());
        r
    }

    pub fn contains(&self, key: K) -> (r: bool)
        ensures
            r == self@.contains(key),
    {
        self.members.contains_key(key)
    }

    pub fn insert(&mut self, key: K) -> (r: bool)
        ensures
            final(self)@ == old(self)@.insert(key),
            r == !old(self)@.contains(key),
            final(self).order() == if old(self)@.contains(key) {
                old(self).order()
            } else {
                old(self).order().push(key)
            },
    {
        let replaced = self.members.insert(key, ());
        assert(self@ =~= old(self)@.insert(key));
        replaced.is_none()
    }

    pub fn remove(&mut self, key: K) -> (r: bool)
        ensures
            final(self)@ == old(self)@.remove(key),
            r == old(self)@.contains(key),
            !r ==> *final(self) == *old(self),
            final(self).order() == order_without(old(self).order(), key),
    {
        let removed = self.members.remove(key);
        assert(self@ =~= old(self)@.remove(key));
        removed.is_some()
    }

    pub fn is_empty(&self) -> (r: bool)
        ensures
            r <==> self@ == Set::<K>::empty(),
            r <==> self.order().len() == 0,
    {
        let r = self.members.is_empty();
        proof {
            if self@ == Set::<K>::empty() {
                assert(self.members@ =~= Map::<K, ()>::empty());
            }
        }
        r
    }

    /// A set with the same members.
    pub fn copy(&self) -> (r: Self)
        ensures
            r@ == self@,
            r.order() == self.order(),
    {
        let items: Vec<K> = self.items();
        let mut r: IdSet<K> = IdSet::new();
        let mut i: usize = 0;
        proof {
            assert(items@.take(0) =~= Seq::<K>::empty());
        }
        while i < items.len()
            invariant
                i <= items@.len(),
                items@ == self.order(),
                items@.no_duplicates(),
                r.order() == items@.take(i as int),
                forall|k: K| #[trigger] r@.contains(k) <==> items@.take(i as int).contains(k),
            decreases items@.len() - i,
        {
            let ghost next = items@.take(i + 1);
            proof {
                assert(next =~= items@.take(i as int).push(items@[i as int]));
                assert(!items@.take(i as int).contains(items@[i as int])) by {
                    if items@.take(i as int).contains(items@[i as int]) {
                        let k = choose|k: int|
                            0 <= k < i && items@.take(i as int)[k] == items@[i as int];
                        assert(items@[k] == items@[i as int]);
                    }
                }
                assert forall|k: K| #[trigger] next.contains(k) <==> items@.take(i as int).contains(
                    k,
                ) || k == items@[i as int] by {
                    if items@.take(i as int).contains(k) {
                        let q = choose|q: int| 0 <= q < i && items@.take(i as int)[q] == k;
                        assert(next[q] == k);
                    }
                    if next.contains(k) {
                        let q = choose|q: int| 0 <= q < next.len() && next[q] == k;
                        if q < i {
                            assert(items@.take(i as int)[q] == k);
                        }
                    }
                    assert(next[i as int] == items@[i as int]);
                }
            }
            let _ = r.insert(items[i]);
            i += 1;
        }
        proof {
            assert(items@.take(i as int) =~= items@);
            assert(r@ =~= self@);
        }
        r
    }

    /// All members, in insertion order.
    pub fn items(&self) -> (r: Vec<K>)
        ensures
            r@ == self.order(),
            r@.no_duplicates(),
            forall|k: K| #[trigger] r@.contains(k) <==> self@.contains(k),
    {
        self.members.keys()
    }

    pub fn clear(&mut self)
        ensures
            final(self)@ == Set::<K>::empty(),
            final(self).order() == Seq::<K>::empty(),
    {
        self.members.clear();
        assert(self@ =~= Set::<K>::empty());
    }
}

} // verus!
