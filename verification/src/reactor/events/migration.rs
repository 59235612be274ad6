//! Which display takes over the workspaces of one that is gone.

use vstd::prelude::*;

use crate::collections::{
    first_at, first_index, lemma_first, lemma_first_index, lemma_no_match, IdSet,
};
use crate::event::ScreenInfo;
use crate::geometry::Size;
use crate::ids::SpaceId;
use crate::text::{chars_of, comes_before, lemma_text_order, text_before};

verus! {

pub struct MigrationReceiver {
    pub display_uuid: String,
    pub space: SpaceId,
    pub size: Size,
}

/// Whether a screen shows a space of the user's.
pub open spec fn eligible(screen: ScreenInfo, user_spaces: Set<SpaceId>) -> bool {
    screen.space matches Some(space) && user_spaces.contains(space)
}

fn is_eligible(screen: &ScreenInfo, user_spaces: &IdSet<SpaceId>) -> (r: bool)
    ensures
        r == eligible(*screen, user_spaces@),
{
    match screen.space {
        Some(space) => user_spaces.contains(space),
        None => false,
    }
}

/// The first eligible screen with an identity.
pub open spec fn eligible_named(
    screens: Seq<ScreenInfo>,
    uuid: Seq<char>,
    user_spaces: Set<SpaceId>,
) -> Option<int> {
    first_index(screens, |s: ScreenInfo| eligible(s, user_spaces) && s.display_uuid@ == uuid)
}

/// The eligible screen that comes first in an order of preference.
pub open spec fn preferred_screen(
    screens: Seq<ScreenInfo>,
    priority: Seq<String>,
    user_spaces: Set<SpaceId>,
) -> Option<int>
    decreases priority.len(),
{
    if priority.len() == 0 {
        None
    } else {
        match eligible_named(screens, priority[0]@, user_spaces) {
            Some(i) => Some(i),
            None => preferred_screen(screens, priority.drop_first(), user_spaces),
        }
    }
}

/// Whether an eligible screen is the first of those whose identity comes
/// first.
pub open spec fn is_least(screens: Seq<ScreenInfo>, user_spaces: Set<SpaceId>, i: int) -> bool {
    &&& 0 <= i < screens.len()
    &&& eligible(screens[i], user_spaces)
    &&& forall|j: int|
        0 <= j < screens.len() && eligible(#[trigger] screens[j], user_spaces) ==> !text_before(
            screens[j].display_uuid@,
            screens[i].display_uuid@,
        )
    &&& forall|j: int|
        0 <= j < i && eligible(#[trigger] screens[j], user_spaces) ==> text_before(
            screens[i].display_uuid@,
            screens[j].display_uuid@,
        )
}

/// The eligible screen whose identity comes first.
pub open spec fn least_screen(screens: Seq<ScreenInfo>, user_spaces: Set<SpaceId>) -> Option<int> {
    if exists|i: int| is_least(screens, user_spaces, i) {
        Some(choose|i: int| is_least(screens, user_spaces, i))
    } else {
        None
    }
}

/// The screen that takes over: the first eligible one in the order of
/// preference, or else the main one, or else the one whose identity comes
/// first.
pub open spec fn receiver(
    screens: Seq<ScreenInfo>,
    priority: Seq<String>,
    user_spaces: Set<SpaceId>,
) -> Option<int> {
    match preferred_screen(screens, priority, user_spaces) {
        Some(i) => Some(i),
        None => if screens.len() > 0 && eligible(screens[0], user_spaces) {
            Some(0)
        } else {
            least_screen(screens, user_spaces)
        },
    }
}

fn find_eligible_named(
    screens: &Vec<ScreenInfo>,
    uuid: &String,
    user_spaces: &IdSet<SpaceId>,
) -> (r: Option<usize>)
    ensures
        match r {
            Some(i) => i < screens@.len() && eligible(screens@[i as int], user_spaces@)
                && eligible_named(screens@, uuid@, user_spaces@) == Some(i as int),
            None => eligible_named(screens@, uuid@, user_spaces@) is None,
        },
{
    let ghost pred = |s: ScreenInfo| eligible(s, user_spaces@) && s.display_uuid@ == uuid@;
    let mut i: usize = 0;
    while i < screens.len()
        invariant
            i <= screens@.len(),
            pred == (|s: ScreenInfo| eligible(s, user_spaces@) && s.display_uuid@ == uuid@),
            forall|j: int| 0 <= j < i ==> !pred(#[trigger] screens@[j]),
        decreases screens@.len() - i,
    {
        if is_eligible(&screens[i], user_spaces) && screens[i].display_uuid == *uuid {
            proof {
                lemma_first_index(screens@, pred, i as int);
            }
            return Some(i);
        }
        i += 1;
    }
    proof {
        lemma_no_match(screens@, pred);
    }
    None
}

fn find_preferred(
    screens: &Vec<ScreenInfo>,
    priority: &Vec<String>,
    user_spaces: &IdSet<SpaceId>,
) -> (r: Option<usize>)
    ensures
        match r {
            Some(i) => i < screens@.len() && eligible(screens@[i as int], user_spaces@)
                && preferred_screen(screens@, priority@, user_spaces@) == Some(i as int),
            None => preferred_screen(screens@, priority@, user_spaces@) is None,
        },
{
    let mut k: usize = 0;
    assert(priority@.skip(0) =~= priority@);
    while k < priority.len()
        invariant
            k <= priority@.len(),
            preferred_screen(screens@, priority@, user_spaces@) == preferred_screen(
                screens@,
                priority@.skip(k as int),
                user_spaces@,
            ),
        decreases priority@.len() - k,
    {
        assert(priority@.skip(k as int).drop_first() =~= priority@.skip(k + 1));
        if let Some(i) = find_eligible_named(screens, &priority[k], user_spaces) {
            return Some(i);
        }
        k += 1;
    }
    None
}

fn find_least(screens: &Vec<ScreenInfo>, user_spaces: &IdSet<SpaceId>) -> (r: Option<usize>)
    ensures
        match r {
            Some(i) => i < screens@.len() && is_least(screens@, user_spaces@, i as int)
                && least_screen(screens@, user_spaces@) == Some(i as int),
            None => least_screen(screens@, user_spaces@) is None,
        },
{
    let mut best: Option<usize> = None;
    let mut i: usize = 0;
    while i < screens.len()
        invariant
            i <= screens@.len(),
            match best {
                Some(b) => {
                    &&& b < i
                    &&& eligible(screens@[b as int], user_spaces@)
                    &&& forall|j: int|
                        0 <= j < i && eligible(#[trigger] screens@[j], user_spaces@)
                            ==> !text_before(
                            screens@[j].display_uuid@,
                            screens@[b as int].display_uuid@,
                        )
                    &&& forall|j: int|
                        0 <= j < b && eligible(#[trigger] screens@[j], user_spaces@)
                            ==> text_before(
                            screens@[b as int].display_uuid@,
                            screens@[j].display_uuid@,
                        )
                },
                None => forall|j: int|
                    0 <= j < i ==> !eligible(#[trigger] screens@[j], user_spaces@),
            },
        decreases screens@.len() - i,
    {
        if is_eligible(&screens[i], user_spaces) {
            let earlier: bool = match best {
                Some(b) => comes_before(
                    &chars_of(screens[i].display_uuid.as_str()),
                    &chars_of(screens[b].display_uuid.as_str()),
                ),
                None => true,
            };
            proof {
                let x = screens@[i as int].display_uuid@;
                lemma_text_order(x, x, x);
                if let Some(b) = best {
                    let y = screens@[b as int].display_uuid@;
                    assert forall|j: int|
                        0 <= j < i && eligible(#[trigger] screens@[j], user_spaces@)
                            && text_before(x, y) implies text_before(
                        x,
                        screens@[j].display_uuid@,
                    ) && !text_before(screens@[j].display_uuid@, x) by {
                        let z = screens@[j].display_uuid@;
                        lemma_text_order(x, y, z);
                        lemma_text_order(x, z, y);
                        lemma_text_order(z, x, y);
                        lemma_text_order(z, y, x);
                    }
                }
            }
            if earlier {
                best = Some(i);
            }
        }
        i += 1;
    }
    match best {
        Some(b) => {
            proof {
                assert(is_least(screens@, user_spaces@, b as int));
                let k = choose|k: int| is_least(screens@, user_spaces@, k);
                assert(is_least(screens@, user_spaces@, k));
                if k < b {
                    assert(text_before(
                        screens@[b as int].display_uuid@,
                        screens@[k].display_uuid@,
                    ));
                    assert(!text_before(
                        screens@[b as int].display_uuid@,
                        screens@[k].display_uuid@,
                    ));
                } else if b < k {
                    assert(text_before(
                        screens@[k].display_uuid@,
                        screens@[b as int].display_uuid@,
                    ));
                    assert(!text_before(
                        screens@[k].display_uuid@,
                        screens@[b as int].display_uuid@,
                    ));
                }
            }
            Some(b)
        },
        None => {
            proof {
                assert forall|k: int| !is_least(screens@, user_spaces@, k) by {
                    if 0 <= k < screens@.len() {
                        assert(!eligible(screens@[k], user_spaces@));
                    }
                }
            }
            None
        },
    }
}

/// Chooses the display that takes over the workspaces of one that is gone.
pub fn select_display_migration_receiver(
    screens: &Vec<ScreenInfo>,
    priority: &Vec<String>,
    user_spaces: &IdSet<SpaceId>,
) -> (r: Option<MigrationReceiver>)
    ensures
        match receiver(screens@, priority@, user_spaces@) {
            Some(i) => r matches Some(chosen) && 0 <= i < screens@.len() && chosen.display_uuid
                == screens@[i].display_uuid && screens@[i].space == Some(chosen.space)
                && chosen.size == screens@[i].frame.size,
            None => r is None,
        },
{
    let i: usize = match find_preferred(screens, priority, user_spaces) {
        Some(i) => i,
        None => if screens.len() > 0 && is_eligible(&screens[0], user_spaces) {
            0
        } else {
            match find_least(screens, user_spaces) {
                Some(i) => i,
                None => {
                    return None;
                },
            }
        },
    };
    match screens[i].space {
        Some(space) => Some(
            MigrationReceiver {
                display_uuid: screens[i].display_uuid.clone(),
                space,
                size: screens[i].frame.size,
            },
        ),
        None => None,
    }
}

/// The display that takes over shows a space of the user's.
pub proof fn law_receiver_is_eligible(
    screens: Seq<ScreenInfo>,
    priority: Seq<String>,
    user_spaces: Set<SpaceId>,
)
    ensures
        receiver(screens, priority, user_spaces) matches Some(i) ==> 0 <= i < screens.len()
            && eligible(screens[i], user_spaces),
{
    lemma_preferred_is_eligible(screens, priority, user_spaces);
    if exists|i: int| is_least(screens, user_spaces, i) {
        let i = choose|i: int| is_least(screens, user_spaces, i);
        assert(is_least(screens, user_spaces, i));
    }
}

proof fn lemma_preferred_is_eligible(
    screens: Seq<ScreenInfo>,
    priority: Seq<String>,
    user_spaces: Set<SpaceId>,
)
    ensures
        preferred_screen(screens, priority, user_spaces) matches Some(i) ==> 0 <= i < screens.len()
            && eligible(screens[i], user_spaces),
    decreases priority.len(),
{
    if priority.len() > 0 {
        lemma_preferred_is_eligible(screens, priority.drop_first(), user_spaces);
        let pred = |s: ScreenInfo| eligible(s, user_spaces) && s.display_uuid@ == priority[0]@;
        if let Some(i) = first_index(screens, pred) {
            assert(first_at(screens, pred, i));
        }
    }
}

/// An eligible display that comes first in the order of preference takes
/// over, whatever the main display is.
pub proof fn law_preference_overrides_the_main_display(
    screens: Seq<ScreenInfo>,
    priority: Seq<String>,
    user_spaces: Set<SpaceId>,
    i: int,
)
    requires
        priority.len() > 0,
        eligible_named(screens, priority[0]@, user_spaces) == Some(i),
    ensures
        receiver(screens, priority, user_spaces) == Some(i),
{
}

/// Without a preferred display, the main one takes over if it shows a space
/// of the user's; otherwise the one whose identity comes first among those
/// that do.
pub proof fn law_main_display_takes_over_without_a_preference(
    screens: Seq<ScreenInfo>,
    user_spaces: Set<SpaceId>,
    space: SpaceId,
    j: int,
)
    ensures
        screens.len() > 0 && screens[0].space == Some(space) && user_spaces.contains(space)
            ==> receiver(screens, Seq::empty(), user_spaces) == Some(0int),
        receiver(screens, Seq::empty(), user_spaces) matches Some(i) && i > 0 && 0 <= j
            < screens.len() && screens[j].space == Some(space) && user_spaces.contains(space)
            ==> !text_before(
            screens[j].display_uuid@,
            screens[receiver(screens, Seq::empty(), user_spaces)->0].display_uuid@,
        ),
        (forall|k: int|
            0 <= k < screens.len() ==> !((#[trigger] screens[k]).space matches Some(s)
                && user_spaces.contains(s))) ==> receiver(screens, Seq::empty(), user_spaces)
            is None,
{
    if exists|i: int| is_least(screens, user_spaces, i) {
        let i = choose|i: int| is_least(screens, user_spaces, i);
        assert(is_least(screens, user_spaces, i));
        if 0 <= j < screens.len() && screens[j].space == Some(space) && user_spaces.contains(
            space,
        ) {
            assert(eligible(screens[j], user_spaces));
        }
    }
}

/// A preferred display that shows no space of the user's is passed over for
/// the next one.
pub proof fn law_ineligible_preference_is_passed_over(
    screens: Seq<ScreenInfo>,
    first: String,
    priority: Seq<String>,
    user_spaces: Set<SpaceId>,
)
    requires
        forall|k: int|
            0 <= k < screens.len() && (#[trigger] screens[k]).display_uuid@ == first@ ==> !(
            screens[k].space matches Some(s) && user_spaces.contains(s)),
    ensures
        receiver(screens, seq![first] + priority, user_spaces) == receiver(
            screens,
            priority,
            user_spaces,
        ),
{
    let all = seq![first] + priority;
    assert(all.drop_first() =~= priority);
    assert(all[0] == first);
    let pred = |s: ScreenInfo| eligible(s, user_spaces) && s.display_uuid@ == first@;
    assert forall|k: int| 0 <= k < screens.len() implies !pred(#[trigger] screens[k]) by {}
    lemma_no_match(screens, pred);
    assert(eligible_named(screens, first@, user_spaces) is None);
}

/// An eligible display that the order of preference names takes over before
/// any display that it does not name.
pub proof fn law_preferred_display_takes_over(
    screens: Seq<ScreenInfo>,
    first: String,
    rest: Seq<String>,
    user_spaces: Set<SpaceId>,
    i: int,
    space: SpaceId,
)
    requires
        0 <= i < screens.len(),
        screens[i].display_uuid@ == first@,
        screens[i].space == Some(space),
        user_spaces.contains(space),
    ensures
        receiver(screens, seq![first] + rest, user_spaces) matches Some(k) && 0 <= k < screens.len()
            && screens[k].display_uuid@ == first@,
{
    let all = seq![first] + rest;
    assert(all[0] == first);
    let pred = |s: ScreenInfo| eligible(s, user_spaces) && s.display_uuid@ == first@;
    lemma_first(screens, pred);
    assert(pred(screens[i]));
    assert(eligible_named(screens, first@, user_spaces) == first_index(screens, pred));
}

} // verus!
