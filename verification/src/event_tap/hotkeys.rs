//! The hotkey table of the current keyboard layout.

use vstd::prelude::*;

use crate::collections::IdMap;
use crate::event_tap::Hotkey;
use crate::ids::Id;
use crate::wm_controller::{same_command, WmCommand};

verus! {

impl Id for Hotkey {
    fn same(self, other: Self) -> (r: bool) {
        self == other
    }
}

/// The commands of every hotkey, as positions in the list of bindings.
pub struct HotkeyTable {
    pub commands: IdMap<Hotkey, Vec<usize>>,
}

/// Whether a command of the list is the same as one at the given positions.
pub open spec fn listed(commands: Seq<WmCommand>, at: Seq<usize>, n: int) -> bool {
    exists|j: int| 0 <= j < at.len() && same_command(commands[#[trigger] at[j] as int], commands[n])
}

/// The commands that a hotkey gives among the first `n` bindings: each binding
/// that resolves to the hotkey, unless the same command is there already.
pub open spec fn bound(
    commands: Seq<WmCommand>,
    resolved: Seq<Seq<Hotkey>>,
    n: int,
    hotkey: Hotkey,
) -> Seq<usize>
    decreases n,
{
    if n <= 0 {
        Seq::empty()
    } else {
        let rest = bound(commands, resolved, n - 1, hotkey);
        if resolved[n - 1].contains(hotkey) && !listed(commands, rest, n - 1) {
            rest.push((n - 1) as usize)
        } else {
            rest
        }
    }
}

pub open spec fn hotkey_lists(resolved: Seq<Vec<Hotkey>>) -> Seq<Seq<Hotkey>> {
    resolved.map_values(|v: Vec<Hotkey>| v@)
}

pub open spec fn command_list(specs: Seq<(String, WmCommand)>) -> Seq<WmCommand> {
    specs.map_values(|p: (String, WmCommand)| p.1)
}

proof fn lemma_bound_below(
    commands: Seq<WmCommand>,
    resolved: Seq<Seq<Hotkey>>,
    n: int,
    hotkey: Hotkey,
)
    requires
        n <= usize::MAX,
    ensures
        forall|j: int|
            0 <= j < bound(commands, resolved, n, hotkey).len() ==> (#[trigger] bound(
                commands,
                resolved,
                n,
                hotkey,
            )[j]) < n,
    decreases n,
{
    if n > 0 {
        lemma_bound_below(commands, resolved, n - 1, hotkey);
        let rest = bound(commands, resolved, n - 1, hotkey);
        let all = bound(commands, resolved, n, hotkey);
        assert forall|j: int| 0 <= j < all.len() implies (#[trigger] all[j]) < n by {
            if j < rest.len() {
                assert(all[j] == rest[j]);
            }
        }
    }
}

impl HotkeyTable {
    /// The commands of a hotkey.
    pub open spec fn of(&self, hotkey: Hotkey) -> Seq<usize> {
        if self.commands@.contains_key(hotkey) {
            self.commands@[hotkey]@
        } else {
            Seq::empty()
        }
    }

    pub fn empty() -> (r: HotkeyTable)
        ensures
            forall|h: Hotkey| #[trigger] r.of(h) == Seq::<usize>::empty(),
            r.commands@ == Map::<Hotkey, Vec<usize>>::empty(),
    {
        HotkeyTable { commands: IdMap::new() }
    }

    pub fn is_empty(&self) -> (r: bool)
        ensures
            r <==> self.commands@ == Map::<Hotkey, Vec<usize>>::empty(),
    {
        self.commands.is_empty()
    }

    /// Resolves the bindings anew. `resolved` holds for each binding the
    /// hotkeys, with left and right modifiers told apart, that its
    /// description stands for on the current layout; none if it no longer
    /// resolves.
    pub fn rebuild_hotkeys_for_current_layout(
        specs: &Vec<(String, WmCommand)>,
        resolved: &Vec<Vec<Hotkey>>,
    ) -> (r: HotkeyTable)
        requires
            specs@.len() == resolved@.len(),
        ensures
            forall|h: Hotkey| #[trigger]
                r.of(h) == bound(
                    command_list(specs@),
                    hotkey_lists(resolved@),
                    specs@.len() as int,
                    h,
                ),
            forall|h: Hotkey| #[trigger]
                r.commands@.contains_key(h) <==> exists|i: int|
                    0 <= i < resolved@.len() && (#[trigger] resolved@[i])@.contains(h),
    {
        let ghost commands = command_list(specs@);
        let ghost lists = hotkey_lists(resolved@);
        let mut table = HotkeyTable::empty();
        let n: usize = specs.len();
        let mut i: usize = 0;
        while i < n
            invariant
                i <= n,
                n == specs@.len(),
                n == resolved@.len(),
                commands == command_list(specs@),
                lists == hotkey_lists(resolved@),
                forall|h: Hotkey| #[trigger] table.of(h) == bound(commands, lists, i as int, h),
                forall|h: Hotkey| #[trigger]
                    table.commands@.contains_key(h) <==> exists|j: int|
                        0 <= j < i && (#[trigger] resolved@[j])@.contains(h),
            decreases n - i,
        {
            let hotkeys: &Vec<Hotkey> = &resolved[i];
            assert(lists[i as int] == hotkeys@);
            let mut k: usize = 0;
            while k < hotkeys.len()
                invariant
                    i < n,
                    k <= hotkeys@.len(),
                    n == specs@.len(),
                    n == resolved@.len(),
                    commands == command_list(specs@),
                    lists == hotkey_lists(resolved@),
                    lists[i as int] == hotkeys@,
                    hotkeys == resolved@[i as int],
                    forall|h: Hotkey| #[trigger]
                        table.of(h) == bound(
                            commands,
                            lists,
                            if hotkeys@.take(k as int).contains(h) {
                                i + 1
                            } else {
                                i as int
                            },
                            h,
                        ),
                    forall|h: Hotkey| #[trigger]
                        table.commands@.contains_key(h) <==> hotkeys@.take(k as int).contains(h)
                            || exists|j: int|
                            0 <= j < i && (#[trigger] resolved@[j])@.contains(h),
                decreases hotkeys@.len() - k,
            {
                let ghost before = table;
                let hotkey: Hotkey = hotkeys[k];
                proof {
                    assert(hotkeys@.contains(hotkey));
                    lemma_bound_below(commands, lists, i as int, hotkey);
                    lemma_bound_below(commands, lists, i + 1, hotkey);
                }
                table.bind(specs, hotkey, i);
                proof {
                    let next = hotkeys@.take(k + 1);
                    assert(next =~= hotkeys@.take(k as int).push(hotkey));
                    assert forall|h: Hotkey| #[trigger]
                        next.contains(h) <==> hotkeys@.take(k as int).contains(h) || h
                            == hotkey by {
                        if hotkeys@.take(k as int).contains(h) {
                            let q = choose|q: int|
                                0 <= q < k && hotkeys@.take(k as int)[q] == h;
                            assert(next[q] == h);
                        }
                        if next.contains(h) && h != hotkey {
                            let q = choose|q: int| 0 <= q < next.len() && next[q] == h;
                            assert(hotkeys@.take(k as int)[q] == h);
                        }
                        assert(next[k as int] == hotkey);
                    }
                    lemma_same_is_reflexive(commands[i as int]);
                    let whole = bound(commands, lists, i + 1, hotkey);
                    let rest = bound(commands, lists, i as int, hotkey);
                    if hotkeys@.take(k as int).contains(hotkey) {
                        assert(before.of(hotkey) == whole);
                        if !listed(commands, rest, i as int) {
                            assert(whole[whole.len() - 1] == i);
                        } else {
                            assert(whole == rest);
                        }
                        assert(listed(commands, whole, i as int));
                    }
                    assert forall|h: Hotkey| #[trigger]
                        table.of(h) == bound(
                            commands,
                            lists,
                            if next.contains(h) {
                                i + 1
                            } else {
                                i as int
                            },
                            h,
                        ) by {
                        if h != hotkey {
                            assert(table.of(h) == before.of(h));
                        }
                    }
                }
                k += 1;
            }
            proof {
                assert(hotkeys@.take(k as int) =~= hotkeys@);
                assert forall|h: Hotkey| #[trigger]
                    table.of(h) == bound(commands, lists, i + 1, h) by {}
                assert forall|h: Hotkey| #[trigger]
                    table.commands@.contains_key(h) <==> exists|j: int|
                        0 <= j < i + 1 && (#[trigger] resolved@[j])@.contains(h) by {
                    if hotkeys@.contains(h) {
                        assert(resolved@[i as int]@.contains(h));
                    }
                }
            }
            i += 1;
        }
        table
    }

    /// Adds the command of a binding to a hotkey unless it has it.
    fn bind(&mut self, specs: &Vec<(String, WmCommand)>, hotkey: Hotkey, n: usize)
        requires
            n < specs@.len(),
            forall|j: int|
                0 <= j < old(self).of(hotkey).len() ==> (#[trigger] old(self).of(hotkey)[j])
                    < specs@.len(),
        ensures
            final(self).of(hotkey) == if listed(
                command_list(specs@),
                old(self).of(hotkey),
                n as int,
            ) {
                old(self).of(hotkey)
            } else {
                old(self).of(hotkey).push(n)
            },
            forall|h: Hotkey| h != hotkey ==> #[trigger] final(self).of(h) == old(self).of(h),
            forall|h: Hotkey| #[trigger]
                final(self).commands@.contains_key(h) <==> old(self).commands@.contains_key(h) || h
                    == hotkey,
    {
        let ghost before = *self;
        let mut entry: Vec<usize> = match self.commands.remove(hotkey) {
            Some(v) => v,
            None => Vec::new(),
        };
        assert(entry@ =~= before.of(hotkey));
        let mut found: bool = false;
        let mut j: usize = 0;
        while j < entry.len() && !found
            invariant
                j <= entry@.len(),
                n < specs@.len(),
                forall|q: int| 0 <= q < entry@.len() ==> (#[trigger] entry@[q]) < specs@.len(),
                found ==> listed(command_list(specs@), entry@, n as int),
                !found ==> forall|q: int|
                    0 <= q < j ==> !same_command(
                        command_list(specs@)[#[trigger] entry@[q] as int],
                        command_list(specs@)[n as int],
                    ),
            decreases entry@.len() - j + (if found {
                0int
            } else {
                1
            }),
        {
            let other: usize = entry[j];
            if specs[other].1.same(&specs[n].1) {
                assert(same_command(
                    command_list(specs@)[entry@[j as int] as int],
                    command_list(specs@)[n as int],
                ));
                found = true;
            } else {
                j += 1;
            }
        }
        if !found {
            entry.push(n);
        }
        let ghost result = entry@;
        let _ = self.commands.insert(hotkey, entry);
        proof {
            assert(self.of(hotkey) == result);
            assert forall|h: Hotkey| h != hotkey implies #[trigger] self.of(h) == before.of(h) by {}
        }
    }

    /// The commands of a hotkey.
    pub fn get(&self, hotkey: Hotkey) -> (r: Option<&Vec<usize>>)
        ensures
            match r {
                Some(v) => self.commands@.contains_key(hotkey) && v@ == self.of(hotkey),
                None => !self.commands@.contains_key(hotkey),
            },
    {
        self.commands.get(hotkey)
    }
}

proof fn lemma_same_is_reflexive(c: WmCommand)
    ensures
        same_command(c, c),
{
}

/// Every binding that resolves to a hotkey is among its commands, itself or
/// as the same command of an earlier binding; a binding that does not is not.
pub proof fn law_hotkey_gives_every_command_bound_to_it(
    commands: Seq<WmCommand>,
    resolved: Seq<Seq<Hotkey>>,
    n: int,
    hotkey: Hotkey,
    i: int,
)
    requires
        n <= resolved.len(),
        n <= usize::MAX,
    ensures
        0 <= i < n && resolved[i].contains(hotkey) ==> exists|j: int|
            0 <= j < bound(commands, resolved, n, hotkey).len() && same_command(
                commands[#[trigger] bound(commands, resolved, n, hotkey)[j] as int],
                commands[i],
            ),
        forall|j: int|
            0 <= j < bound(commands, resolved, n, hotkey).len() ==> resolved[#[trigger] bound(
                commands,
                resolved,
                n,
                hotkey,
            )[j] as int].contains(hotkey),
        forall|j: int, k: int|
            0 <= j < k < bound(commands, resolved, n, hotkey).len() ==> (#[trigger] bound(
                commands,
                resolved,
                n,
                hotkey,
            )[j]) < (#[trigger] bound(commands, resolved, n, hotkey)[k]),
    decreases n,
{
    if n > 0 {
        law_hotkey_gives_every_command_bound_to_it(commands, resolved, n - 1, hotkey, i);
        lemma_bound_below(commands, resolved, n - 1, hotkey);
        let rest = bound(commands, resolved, n - 1, hotkey);
        let all = bound(commands, resolved, n, hotkey);
        if 0 <= i < n && resolved[i].contains(hotkey) {
            if i < n - 1 {
                let j = choose|j: int|
                    0 <= j < rest.len() && same_command(
                        commands[#[trigger] rest[j] as int],
                        commands[i],
                    );
                assert(all[j] == rest[j]);
            } else if listed(commands, rest, n - 1) {
                let j = choose|j: int|
                    0 <= j < rest.len() && same_command(
                        commands[#[trigger] rest[j] as int],
                        commands[n - 1],
                    );
                assert(all[j] == rest[j]);
            } else {
                lemma_same_is_reflexive(commands[i]);
                assert(all[all.len() - 1] as int == i);
            }
        }
        assert forall|j: int| 0 <= j < all.len() implies resolved[#[trigger] all[j] as int].contains(
            hotkey,
        ) by {
            if j < rest.len() {
                assert(all[j] == rest[j]);
            }
        }
        assert forall|j: int, k: int| 0 <= j < k < all.len() implies (#[trigger] all[j]) < (
        #[trigger] all[k]) by {
            assert(all[j] == rest[j]);
            if k < rest.len() {
                assert(all[k] == rest[k]);
            }
        }
    }
}

} // verus!
