//! Sorting numbers.

use vstd::prelude::*;
use vstd::relations::*;
use vstd::seq_lib::*;

verus! {

/// Numbers from the lowest to the highest.
pub open spec fn ascending(numbers: Seq<u32>) -> Seq<u32> {
    numbers.sort_by(|a: u32, b: u32| a <= b)
}

proof fn lemma_order_is_total()
    ensures
        total_ordering(|a: u32, b: u32| a <= b),
{
    let leq = |a: u32, b: u32| a <= b;
    assert(reflexive(leq));
    assert(antisymmetric(leq));
    assert(transitive(leq));
    assert(strongly_connected(leq));
}

/// Sorting keeps the numbers and their count.
pub proof fn lemma_ascending(numbers: Seq<u32>)
    ensures
        ascending(numbers).to_multiset() == numbers.to_multiset(),
        ascending(numbers).len() == numbers.len(),
        forall|i: int, j: int|
            0 <= i < j < ascending(numbers).len() ==> ascending(numbers)[i] <= ascending(
                numbers,
            )[j],
        forall|x: u32| #[trigger] ascending(numbers).contains(x) ==> numbers.contains(x),
{
    broadcast use group_to_multiset_ensures;

    lemma_order_is_total();
    let leq = |a: u32, b: u32| a <= b;
    numbers.lemma_sort_by_ensures(leq);
    assert(numbers.to_multiset().len() == ascending(numbers).to_multiset().len());
    assert forall|i: int, j: int| 0 <= i < j < ascending(numbers).len() implies ascending(
        numbers,
    )[i] <= ascending(numbers)[j] by {
        assert(leq(ascending(numbers)[i], ascending(numbers)[j]));
    }
}

fn place_for(sorted: &Vec<u32>, number: u32) -> (r: usize)
    ensures
        r <= sorted@.len(),
        forall|i: int| 0 <= i < r ==> #[trigger] sorted@[i] <= number,
        r < sorted@.len() ==> number < sorted@[r as int],
{
    let mut k: usize = 0;
    while k < sorted.len()
        invariant
            k <= sorted@.len(),
            forall|i: int| 0 <= i < k ==> #[trigger] sorted@[i] <= number,
        decreases sorted@.len() - k,
    {
        if number < sorted[k] {
            return k;
        }
        k += 1;
    }
    k
}

pub fn sort_ascending(numbers: &Vec<u32>) -> (r: Vec<u32>)
    ensures
        r@ == ascending(numbers@),
        r@.len() == numbers@.len(),
        forall|x: u32| #[trigger] r@.contains(x) ==> numbers@.contains(x),
{
    broadcast use group_to_multiset_ensures;

    let mut sorted: Vec<u32> = Vec::new();
    let mut i: usize = 0;
    assert(sorted@ =~= numbers@.take(0));
    while i < numbers.len()
        invariant
            i <= numbers@.len(),
            sorted@.to_multiset() == numbers@.take(i as int).to_multiset(),
            forall|a: int, b: int| 0 <= a < b < sorted@.len() ==> sorted@[a] <= sorted@[b],
        decreases numbers@.len() - i,
    {
        let number: u32 = numbers[i];
        let place: usize = place_for(&sorted, number);
        let ghost before = sorted@;
        sorted.insert(place, number);
        proof {
            assert(sorted@ == before.insert(place as int, number));
            to_multiset_insert(before, place as int, number);
            assert(numbers@.take(i + 1) =~= numbers@.take(i as int).push(number));
            numbers@.take(i as int).to_multiset_ensures();
            assert forall|a: int, b: int| 0 <= a < b < sorted@.len() implies sorted@[a]
                <= sorted@[b] by {
                if b < place {
                    assert(sorted@[a] == before[a] && sorted@[b] == before[b]);
                } else if b == place {
                    assert(sorted@[a] == before[a]);
                } else {
                    assert(sorted@[b] == before[b - 1]);
                    if a < place {
                        assert(sorted@[a] == before[a]);
                    } else if a > place {
                        assert(sorted@[a] == before[a - 1]);
                    } else {
                        assert(number < before[place as int]);
                        if place < b - 1 {
                            assert(before[place as int] <= before[b - 1]);
                        }
                    }
                }
            }
        }
        i += 1;
    }
    proof {
        assert(numbers@.take(i as int) =~= numbers@);
        lemma_order_is_total();
        lemma_ascending(numbers@);
        let leq = |a: u32, b: u32| a <= b;
        numbers@.lemma_sort_by_ensures(leq);
        assert(sorted_by(sorted@, leq));
        lemma_sorted_unique(sorted@, ascending(numbers@), leq);
    }
    sorted
}

} // verus!
