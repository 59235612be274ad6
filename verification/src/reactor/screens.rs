//! Finding a screen: under a point, nearest to it, in a direction, by number
//! or by name.

use vstd::prelude::*;

use crate::collections::{first_at, first_index, lemma_first, lemma_first_index, lemma_no_match};
use crate::event::{Direction, ScreenInfo};
use crate::geometry::{
    distance_sq_to, interval_gap, interval_gap_spec, overlap, Point, Rect, LIMIT,
};
use crate::ids::SpaceId;

verus! {

pub open spec fn screens_in_range(screens: Seq<ScreenInfo>) -> bool {
    forall|i: int| 0 <= i < screens.len() ==> (#[trigger] screens[i]).frame.is_screen()
}

/// The first screen that holds a point.
pub open spec fn screen_holding(screens: Seq<ScreenInfo>, p: Point) -> Option<int> {
    first_index(screens, |s: ScreenInfo| s.frame.holds(p))
}

pub fn screen_for_point(screens: &Vec<ScreenInfo>, p: Point) -> (r: Option<usize>)
    requires
        screens_in_range(screens@),
    ensures
        match r {
            Some(i) => i < screens@.len() && screen_holding(screens@, p) == Some(i as int)
                && screens@[i as int].frame.holds(p),
            None => screen_holding(screens@, p) is None,
        },
{
    let ghost pred = |s: ScreenInfo| s.frame.holds(p);
    let mut i: usize = 0;
    while i < screens.len()
        invariant
            screens_in_range(screens@),
            i <= screens@.len(),
            pred == (|s: ScreenInfo| s.frame.holds(p)),
            forall|j: int| 0 <= j < i ==> !pred(#[trigger] screens@[j]),
        decreases screens@.len() - i,
    {
        if screens[i].frame.contains(p) {
            proof {
                lemma_first_index(screens@, pred, i as int);
            }
            return Some(i);
        }
        i += 1;
    }
    proof {
        lemma_no_match(screens@, pred);
    }
    None
}

/// Whether a screen is nearer to a point than those before it and at least as
/// near as all.
pub open spec fn is_closest(screens: Seq<ScreenInfo>, p: Point, i: int) -> bool {
    &&& 0 <= i < screens.len()
    &&& forall|j: int|
        0 <= j < screens.len() ==> distance_sq_to(screens[i].frame, p) <= distance_sq_to(
            (#[trigger] screens[j]).frame,
            p,
        )
    &&& forall|j: int|
        0 <= j < i ==> distance_sq_to(screens[i].frame, p) < distance_sq_to(
            (#[trigger] screens[j]).frame,
            p,
        )
}

/// The first of the nearest screens.
pub open spec fn closest_screen(screens: Seq<ScreenInfo>, p: Point) -> Option<int> {
    if screens.len() == 0 {
        None
    } else {
        Some(choose|i: int| is_closest(screens, p, i))
    }
}

proof fn lemma_closest_is_unique(screens: Seq<ScreenInfo>, p: Point, i: int)
    requires
        is_closest(screens, p, i),
    ensures
        closest_screen(screens, p) == Some(i),
{
    let k = choose|k: int| is_closest(screens, p, k);
    assert(is_closest(screens, p, k));
    if k < i {
        assert(distance_sq_to(screens[i].frame, p) < distance_sq_to(screens[k].frame, p));
        assert(distance_sq_to(screens[k].frame, p) <= distance_sq_to(screens[i].frame, p));
    } else if i < k {
        assert(distance_sq_to(screens[k].frame, p) < distance_sq_to(screens[i].frame, p));
        assert(distance_sq_to(screens[i].frame, p) <= distance_sq_to(screens[k].frame, p));
    }
}

pub fn closest_screen_to_point(screens: &Vec<ScreenInfo>, p: Point) -> (r: Option<usize>)
    requires
        screens_in_range(screens@),
        p.in_range(),
    ensures
        match r {
            Some(i) => i < screens@.len() && closest_screen(screens@, p) == Some(i as int)
                && is_closest(screens@, p, i as int),
            None => closest_screen(screens@, p) is None,
        },
{
    if screens.len() == 0 {
        return None;
    }
    let mut best: usize = 0;
    let mut best_distance: i128 = screens[0].frame.distance_sq(p);
    let mut i: usize = 1;
    while i < screens.len()
        invariant
            screens_in_range(screens@),
            p.in_range(),
            best < i <= screens@.len(),
            best_distance == distance_sq_to(screens@[best as int].frame, p),
            forall|j: int|
                0 <= j < i ==> best_distance <= distance_sq_to((#[trigger] screens@[j]).frame, p),
            forall|j: int|
                0 <= j < best ==> best_distance < distance_sq_to((#[trigger] screens@[j]).frame, p),
        decreases screens@.len() - i,
    {
        let distance: i128 = screens[i].frame.distance_sq(p);
        if distance < best_distance {
            best = i;
            best_distance = distance;
        }
        i += 1;
    }
    proof {
        assert(is_closest(screens@, p, best as int));
        lemma_closest_is_unique(screens@, p, best as int);
    }
    Some(best)
}

/// The space of the screen that holds a point, or else of the nearest screen.
pub open spec fn space_at(screens: Seq<ScreenInfo>, p: Point) -> Option<SpaceId> {
    match screen_holding(screens, p) {
        Some(i) => screens[i].space,
        None => match closest_screen(screens, p) {
            Some(i) => screens[i].space,
            None => None,
        },
    }
}

pub fn space_for_point(screens: &Vec<ScreenInfo>, p: Point) -> (r: Option<SpaceId>)
    requires
        screens_in_range(screens@),
        p.in_range(),
    ensures
        r == space_at(screens@, p),
{
    match screen_for_point(screens, p) {
        Some(i) => screens[i].space,
        None => match closest_screen_to_point(screens, p) {
            Some(i) => screens[i].space,
            None => None,
        },
    }
}

/// Whether a screen lies in a direction from a point: it does not hold the
/// point and begins no nearer than where the point is.
pub open spec fn lies_towards(frame: Rect, origin: Point, direction: Direction) -> bool {
    !frame.holds(origin) && match direction {
        Direction::Left => frame.right() <= origin.x,
        Direction::Right => frame.origin.x >= origin.x,
        Direction::Up => frame.bottom() <= origin.y,
        Direction::Down => frame.origin.y >= origin.y,
    }
}

/// How far away along the direction.
pub open spec fn distance_along(frame: Rect, origin: Point, direction: Direction) -> int {
    match direction {
        Direction::Left => origin.x - frame.right(),
        Direction::Right => frame.origin.x - origin.x,
        Direction::Up => origin.y - frame.bottom(),
        Direction::Down => frame.origin.y - origin.y,
    }
}

/// How far off to the side.
pub open spec fn distance_across(frame: Rect, origin: Point, direction: Direction) -> int {
    match direction {
        Direction::Left | Direction::Right => interval_gap_spec(
            frame.origin.y as int,
            frame.bottom(),
            origin.y as int,
            origin.y as int,
        ),
        Direction::Up | Direction::Down => interval_gap_spec(
            frame.origin.x as int,
            frame.right(),
            origin.x as int,
            origin.x as int,
        ),
    }
}

/// Whether one screen is strictly nearer in a direction than another.
pub open spec fn nearer(a: Rect, b: Rect, origin: Point, direction: Direction) -> bool {
    ||| distance_along(a, origin, direction) < distance_along(b, origin, direction)
    ||| distance_along(a, origin, direction) == distance_along(b, origin, direction)
        && distance_across(a, origin, direction) < distance_across(b, origin, direction)
}

/// Whether a screen is the first of the nearest in a direction.
pub open spec fn is_next_towards(
    screens: Seq<ScreenInfo>,
    origin: Point,
    direction: Direction,
    i: int,
) -> bool {
    &&& 0 <= i < screens.len()
    &&& lies_towards(screens[i].frame, origin, direction)
    &&& forall|j: int|
        0 <= j < screens.len() && lies_towards((#[trigger] screens[j]).frame, origin, direction)
            ==> !nearer(screens[j].frame, screens[i].frame, origin, direction)
    &&& forall|j: int|
        0 <= j < i && lies_towards((#[trigger] screens[j]).frame, origin, direction) ==> nearer(
            screens[i].frame,
            screens[j].frame,
            origin,
            direction,
        )
}

/// The nearest screen in a direction.
pub open spec fn next_towards(
    screens: Seq<ScreenInfo>,
    origin: Point,
    direction: Direction,
) -> Option<int> {
    if exists|i: int| is_next_towards(screens, origin, direction, i) {
        Some(choose|i: int| is_next_towards(screens, origin, direction, i))
    } else {
        None
    }
}

proof fn lemma_next_is_unique(
    screens: Seq<ScreenInfo>,
    origin: Point,
    direction: Direction,
    i: int,
)
    requires
        is_next_towards(screens, origin, direction, i),
    ensures
        next_towards(screens, origin, direction) == Some(i),
{
    let k = choose|k: int| is_next_towards(screens, origin, direction, k);
    assert(is_next_towards(screens, origin, direction, k));
    if k < i {
        assert(nearer(screens[i].frame, screens[k].frame, origin, direction));
        assert(!nearer(screens[i].frame, screens[k].frame, origin, direction));
    } else if i < k {
        assert(nearer(screens[k].frame, screens[i].frame, origin, direction));
        assert(!nearer(screens[k].frame, screens[i].frame, origin, direction));
    }
}

/// The distances along and across a direction, if the frame lies there.
fn direction_distances(frame: Rect, origin: Point, direction: Direction) -> (r: Option<(i64, i64)>)
    requires
        frame.in_range(),
        -2 * LIMIT <= origin.x <= 2 * LIMIT,
        -2 * LIMIT <= origin.y <= 2 * LIMIT,
    ensures
        match r {
            Some(d) => lies_towards(frame, origin, direction) && d.0 == distance_along(
                frame,
                origin,
                direction,
            ) && d.1 == distance_across(frame, origin, direction),
            None => !lies_towards(frame, origin, direction),
        },
{
    if frame.contains(origin) {
        return None;
    }
    let min: Point = frame.origin;
    let max: Point = frame.max();
    match direction {
        Direction::Left => {
            if max.x > origin.x {
                return None;
            }
            Some((origin.x - max.x, interval_gap(min.y, max.y, origin.y, origin.y)))
        },
        Direction::Right => {
            if min.x < origin.x {
                return None;
            }
            Some((min.x - origin.x, interval_gap(min.y, max.y, origin.y, origin.y)))
        },
        Direction::Up => {
            if max.y > origin.y {
                return None;
            }
            Some((origin.y - max.y, interval_gap(min.x, max.x, origin.x, origin.x)))
        },
        Direction::Down => {
            if min.y < origin.y {
                return None;
            }
            Some((min.y - origin.y, interval_gap(min.x, max.x, origin.x, origin.x)))
        },
    }
}

pub fn screen_for_direction_from_point(
    screens: &Vec<ScreenInfo>,
    origin: Point,
    direction: Direction,
) -> (r: Option<usize>)
    requires
        screens_in_range(screens@),
        -2 * LIMIT <= origin.x <= 2 * LIMIT,
        -2 * LIMIT <= origin.y <= 2 * LIMIT,
    ensures
        match r {
            Some(i) => i < screens@.len() && next_towards(screens@, origin, direction) == Some(
                i as int,
            ) && lies_towards(screens@[i as int].frame, origin, direction),
            None => next_towards(screens@, origin, direction) is None,
        },
{
    let mut best: Option<(i64, i64, usize)> = None;
    let mut i: usize = 0;
    while i < screens.len()
        invariant
            screens_in_range(screens@),
            -2 * LIMIT <= origin.x <= 2 * LIMIT,
            -2 * LIMIT <= origin.y <= 2 * LIMIT,
            i <= screens@.len(),
            match best {
                Some(b) => {
                    &&& b.2 < i
                    &&& lies_towards(screens@[b.2 as int].frame, origin, direction)
                    &&& b.0 == distance_along(screens@[b.2 as int].frame, origin, direction)
                    &&& b.1 == distance_across(screens@[b.2 as int].frame, origin, direction)
                    &&& forall|j: int|
                        0 <= j < i && lies_towards(
                            (#[trigger] screens@[j]).frame,
                            origin,
                            direction,
                        ) ==> !nearer(
                            screens@[j].frame,
                            screens@[b.2 as int].frame,
                            origin,
                            direction,
                        )
                    &&& forall|j: int|
                        0 <= j < b.2 && lies_towards(
                            (#[trigger] screens@[j]).frame,
                            origin,
                            direction,
                        ) ==> nearer(
                            screens@[b.2 as int].frame,
                            screens@[j].frame,
                            origin,
                            direction,
                        )
                },
                None => forall|j: int|
                    0 <= j < i ==> !lies_towards(
                        (#[trigger] screens@[j]).frame,
                        origin,
                        direction,
                    ),
            },
        decreases screens@.len() - i,
    {
        if let Some((along, across)) = direction_distances(screens[i].frame, origin, direction) {
            let replace: bool = match best {
                Some((best_along, best_across, _)) => along < best_along || (along == best_along
                    && across < best_across),
                None => true,
            };
            if replace {
                best = Some((along, across, i));
            }
        }
        i += 1;
    }
    match best {
        Some((_, _, k)) => {
            proof {
                assert(is_next_towards(screens@, origin, direction, k as int));
                lemma_next_is_unique(screens@, origin, direction, k as int);
            }
            Some(k)
        },
        None => {
            proof {
                assert forall|k: int| !is_next_towards(screens@, origin, direction, k) by {
                    if 0 <= k < screens@.len() {
                        assert(!lies_towards(screens@[k].frame, origin, direction));
                    }
                }
            }
            None
        },
    }
}

/// Left to right, then top to bottom, then as reported.
pub open spec fn physically_before(screens: Seq<ScreenInfo>, a: int, b: int) -> bool {
    let p = screens[a].frame.origin;
    let q = screens[b].frame.origin;
    ||| p.x < q.x
    ||| p.x == q.x && p.y < q.y
    ||| p.x == q.x && p.y == q.y && a <= b
}

/// Whether `order` lists every screen once, from left to right and top to
/// bottom.
pub open spec fn is_physical_order(screens: Seq<ScreenInfo>, order: Seq<int>) -> bool {
    &&& order.len() == screens.len()
    &&& forall|i: int| 0 <= i < order.len() ==> 0 <= #[trigger] order[i] < screens.len()
    &&& forall|i: int, j: int|
        0 <= i < j < order.len() ==> #[trigger] order[i] != #[trigger] order[j]
            && physically_before(screens, order[i], order[j])
}

/// The screens from left to right, then from top to bottom.
pub open spec fn physical_order(screens: Seq<ScreenInfo>) -> Seq<int> {
    choose|order: Seq<int>| is_physical_order(screens, order)
}

/// Two orders agree: a screen's place is the number of screens before it.
proof fn lemma_physical_order_is_unique(screens: Seq<ScreenInfo>, a: Seq<int>, b: Seq<int>)
    requires
        is_physical_order(screens, a),
        is_physical_order(screens, b),
    ensures
        a == b,
{
    lemma_order_covers(screens, a);
    lemma_order_covers(screens, b);
    assert forall|k: int| 0 <= k < a.len() implies a[k] == b[k] by {
        lemma_order_agrees(screens, a, b, k);
    }
    assert(a =~= b);
}

/// An order without repetition names every screen.
proof fn lemma_order_covers(screens: Seq<ScreenInfo>, a: Seq<int>)
    requires
        is_physical_order(screens, a),
    ensures
        forall|s: int| 0 <= s < screens.len() ==> #[trigger] a.contains(s),
{
    let n = screens.len() as int;
    let all = vstd::set_lib::set_int_range(0, n);
    assert(a.no_duplicates());
    a.unique_seq_to_set();
    vstd::set_lib::lemma_int_range(0, n);
    assert(a.to_set().subset_of(all)) by {
        assert forall|s: int| a.to_set().contains(s) implies all.contains(s) by {
            let i = choose|i: int| 0 <= i < a.len() && a[i] == s;
            assert(0 <= a[i] < screens.len());
        }
    }
    vstd::set_lib::lemma_subset_equality(a.to_set(), all);
    assert forall|s: int| 0 <= s < screens.len() implies #[trigger] a.contains(s) by {
        assert(all.contains(s));
        assert(a.to_set().contains(s));
    }
}

proof fn lemma_order_agrees(screens: Seq<ScreenInfo>, a: Seq<int>, b: Seq<int>, k: int)
    requires
        is_physical_order(screens, a),
        is_physical_order(screens, b),
        forall|s: int| 0 <= s < screens.len() ==> #[trigger] a.contains(s),
        forall|s: int| 0 <= s < screens.len() ==> #[trigger] b.contains(s),
        0 <= k < a.len(),
    ensures
        a[k] == b[k],
    decreases k,
{
    assert forall|j: int| 0 <= j < k implies a[j] == b[j] by {
        lemma_order_agrees(screens, a, b, j);
    }
    assert(a.contains(b[k]));
    assert(b.contains(a[k]));
    let i = choose|i: int| 0 <= i < a.len() && a[i] == b[k];
    let j = choose|j: int| 0 <= j < b.len() && b[j] == a[k];
    if i < k {
        assert(a[i] == b[i]);
        assert(b[i] != b[k]);
    }
    if j < k {
        assert(a[j] == b[j]);
        assert(a[j] != a[k]);
    }
    if i != k && j != k {
        assert(a[k] != a[i] && physically_before(screens, a[k], a[i]));
        assert(b[k] != b[j] && physically_before(screens, b[k], b[j]));
    }
}

/// Where a screen goes in a list of screens before it: behind those that
/// come first.
fn insertion_place(screens: &Vec<ScreenInfo>, order: &Vec<usize>, screen: usize) -> (r: usize)
    requires
        screen < screens@.len(),
        forall|i: int| 0 <= i < order@.len() ==> (#[trigger] order@[i]) < screen,
        forall|i: int, j: int|
            0 <= i < j < order@.len() ==> physically_before(
                screens@,
                #[trigger] order@[i] as int,
                #[trigger] order@[j] as int,
            ),
    ensures
        r <= order@.len(),
        forall|i: int|
            0 <= i < r ==> physically_before(
                screens@,
                #[trigger] order@[i] as int,
                screen as int,
            ),
        forall|i: int|
            r <= i < order@.len() ==> physically_before(
                screens@,
                screen as int,
                #[trigger] order@[i] as int,
            ),
{
    let p: Point = screens[screen].frame.origin;
    let mut k: usize = order.len();
    while k > 0
        invariant
            k <= order@.len(),
            screen < screens@.len(),
            p == screens@[screen as int].frame.origin,
            forall|i: int| 0 <= i < order@.len() ==> (#[trigger] order@[i]) < screen,
            forall|i: int, j: int|
                0 <= i < j < order@.len() ==> physically_before(
                    screens@,
                    #[trigger] order@[i] as int,
                    #[trigger] order@[j] as int,
                ),
            forall|i: int|
                k <= i < order@.len() ==> physically_before(
                    screens@,
                    screen as int,
                    #[trigger] order@[i] as int,
                ),
        decreases k,
    {
        let q: Point = screens[order[k - 1]].frame.origin;
        if q.x < p.x || (q.x == p.x && q.y <= p.y) {
            assert(physically_before(screens@, order@[k - 1] as int, screen as int));
            return k;
        }
        k -= 1;
    }
    0
}

/// The screens' numbers from left to right, then from top to bottom.
pub fn screens_in_physical_order(screens: &Vec<ScreenInfo>) -> (r: Vec<usize>)
    ensures
        r@.map_values(|i: usize| i as int) == physical_order(screens@),
        is_physical_order(screens@, physical_order(screens@)),
{
    let mut order: Vec<usize> = Vec::new();
    let mut i: usize = 0;
    while i < screens.len()
        invariant
            i <= screens@.len(),
            order@.len() == i,
            forall|k: int| 0 <= k < order@.len() ==> (#[trigger] order@[k]) < i,
            forall|k: int, j: int|
                0 <= k < j < order@.len() ==> #[trigger] order@[k] != #[trigger] order@[j]
                    && physically_before(screens@, order@[k] as int, order@[j] as int),
        decreases screens@.len() - i,
    {
        let place: usize = insertion_place(screens, &order, i);
        let ghost before = order@;
        order.insert(place, i);
        proof {
            assert(order@ == before.insert(place as int, i));
            assert forall|k: int, j: int|
                0 <= k < j < order@.len() implies #[trigger] order@[k] != #[trigger] order@[j]
                && physically_before(screens@, order@[k] as int, order@[j] as int) by {
                if j < place {
                    assert(order@[k] == before[k] && order@[j] == before[j]);
                } else if j == place {
                    assert(order@[k] == before[k]);
                } else if k < place {
                    assert(order@[k] == before[k] && order@[j] == before[j - 1]);
                } else if k == place {
                    assert(order@[j] == before[j - 1]);
                } else {
                    assert(order@[k] == before[k - 1] && order@[j] == before[j - 1]);
                }
            }
            assert forall|k: int| 0 <= k < order@.len() implies (#[trigger] order@[k]) < i + 1 by {
                if k < place {
                    assert(order@[k] == before[k]);
                } else if k > place {
                    assert(order@[k] == before[k - 1]);
                }
            }
        }
        i += 1;
    }
    proof {
        let found = order@.map_values(|k: usize| k as int);
        assert forall|k: int, j: int| 0 <= k < j < found.len() implies #[trigger] found[k]
            != #[trigger] found[j] && physically_before(screens@, found[k], found[j]) by {
            assert(order@[k] != order@[j]);
        }
        assert(is_physical_order(screens@, found));
        let chosen = physical_order(screens@);
        assert(is_physical_order(screens@, chosen));
        lemma_physical_order_is_unique(screens@, found, chosen);
    }
    order
}

/// The first screen with an identity.
pub open spec fn screen_named(screens: Seq<ScreenInfo>, uuid: Seq<char>) -> Option<int> {
    first_index(screens, |s: ScreenInfo| s.display_uuid@ == uuid)
}

pub fn screen_for_uuid(screens: &Vec<ScreenInfo>, uuid: &String) -> (r: Option<usize>)
    ensures
        match r {
            Some(i) => i < screens@.len() && screen_named(screens@, uuid@) == Some(i as int)
                && screens@[i as int].display_uuid@ == uuid@,
            None => screen_named(screens@, uuid@) is None,
        },
{
    let ghost pred = |s: ScreenInfo| s.display_uuid@ == uuid@;
    let mut i: usize = 0;
    while i < screens.len()
        invariant
            i <= screens@.len(),
            pred == (|s: ScreenInfo| s.display_uuid@ == uuid@),
            forall|j: int| 0 <= j < i ==> !pred(#[trigger] screens@[j]),
        decreases screens@.len() - i,
    {
        if screens[i].display_uuid == *uuid {
            proof {
                lemma_first_index(screens@, pred, i as int);
            }
            return Some(i);
        }
        i += 1;
    }
    proof {
        lemma_no_match(screens@, pred);
    }
    None
}

/// Square sub-points in a square point.
pub const AREA_UNIT: i128 = 65536;

/// The whole square points that a frame has in common with a screen that
/// shows a space.
pub open spec fn shared_area(screen: ScreenInfo, frame: Rect) -> int {
    if screen.space is Some {
        overlap(screen.frame, frame) / (AREA_UNIT as int)
    } else {
        0
    }
}

/// Whether a screen is the last of those that share most of a frame.
pub open spec fn is_largest_share(screens: Seq<ScreenInfo>, frame: Rect, i: int) -> bool {
    &&& 0 <= i < screens.len()
    &&& shared_area(screens[i], frame) > 0
    &&& forall|j: int|
        0 <= j < screens.len() ==> shared_area(#[trigger] screens[j], frame) <= shared_area(
            screens[i],
            frame,
        )
    &&& forall|j: int|
        i < j < screens.len() ==> shared_area(#[trigger] screens[j], frame) < shared_area(
            screens[i],
            frame,
        )
}

/// The space that shows most of a frame.
pub open spec fn largest_share(screens: Seq<ScreenInfo>, frame: Rect) -> Option<SpaceId> {
    if exists|i: int| is_largest_share(screens, frame, i) {
        screens[choose|i: int| is_largest_share(screens, frame, i)].space
    } else {
        None
    }
}

/// The space of the screen that holds a frame's middle.
pub open spec fn space_of_middle(screens: Seq<ScreenInfo>, frame: Rect) -> Option<SpaceId> {
    match screen_holding(screens, frame.middle()) {
        Some(i) => screens[i].space,
        None => None,
    }
}

/// The space that a frame belongs to: that of its middle, or else the one
/// that shows most of it.
pub open spec fn space_of_frame(screens: Seq<ScreenInfo>, frame: Rect) -> Option<SpaceId> {
    match space_of_middle(screens, frame) {
        Some(space) => Some(space),
        None => largest_share(screens, frame),
    }
}

fn shared_area_of(screen: &ScreenInfo, frame: &Rect) -> (r: i128)
    requires
        screen.frame.in_range(),
        frame.in_range(),
    ensures
        r == shared_area(*screen, *frame),
        0 <= r,
{
    if screen.space.is_some() {
        screen.frame.overlap_area(frame) / AREA_UNIT
    } else {
        0
    }
}

fn space_with_largest_share(screens: &Vec<ScreenInfo>, frame: &Rect) -> (r: Option<SpaceId>)
    requires
        screens_in_range(screens@),
        frame.in_range(),
    ensures
        r == largest_share(screens@, *frame),
{
    let mut best: Option<usize> = None;
    let mut best_area: i128 = 0;
    let mut i: usize = 0;
    while i < screens.len()
        invariant
            screens_in_range(screens@),
            frame.in_range(),
            i <= screens@.len(),
            match best {
                Some(b) => {
                    &&& b < i
                    &&& best_area > 0
                    &&& best_area == shared_area(screens@[b as int], *frame)
                    &&& forall|j: int|
                        0 <= j < i ==> shared_area(#[trigger] screens@[j], *frame) <= best_area
                    &&& forall|j: int|
                        b < j < i ==> shared_area(#[trigger] screens@[j], *frame) < best_area
                },
                None => best_area == 0 && forall|j: int|
                    0 <= j < i ==> shared_area(#[trigger] screens@[j], *frame) <= 0,
            },
        decreases screens@.len() - i,
    {
        let area: i128 = shared_area_of(&screens[i], frame);
        if area > 0 && area >= best_area {
            best = Some(i);
            best_area = area;
        }
        i += 1;
    }
    match best {
        Some(b) => {
            proof {
                assert(is_largest_share(screens@, *frame, b as int));
                let k = choose|k: int| is_largest_share(screens@, *frame, k);
                assert(is_largest_share(screens@, *frame, k));
                if k < b {
                    assert(shared_area(screens@[b as int], *frame) < shared_area(
                        screens@[k],
                        *frame,
                    ));
                } else if b < k {
                    assert(shared_area(screens@[k], *frame) < shared_area(
                        screens@[b as int],
                        *frame,
                    ));
                }
            }
            screens[b].space
        },
        None => {
            proof {
                assert forall|k: int| !is_largest_share(screens@, *frame, k) by {
                    if 0 <= k < screens@.len() {
                        assert(shared_area(screens@[k], *frame) <= 0);
                    }
                }
            }
            None
        },
    }
}

/// The space of the screen under a frame's middle.
pub fn drag_space_candidate(screens: &Vec<ScreenInfo>, frame: &Rect) -> (r: Option<SpaceId>)
    requires
        screens_in_range(screens@),
        frame.in_range(),
    ensures
        r == space_of_middle(screens@, *frame),
{
    match screen_for_point(screens, frame.mid()) {
        Some(i) => screens[i].space,
        None => None,
    }
}

pub fn best_space_for_frame(screens: &Vec<ScreenInfo>, frame: &Rect) -> (r: Option<SpaceId>)
    requires
        screens_in_range(screens@),
        frame.in_range(),
    ensures
        r == space_of_frame(screens@, *frame),
{
    match drag_space_candidate(screens, frame) {
        Some(space) => Some(space),
        None => space_with_largest_share(screens, frame),
    }
}

/// A frame that lies within a screen belongs to a screen that holds its
/// middle.
pub proof fn law_enclosed_frame_is_on_a_screen(screens: Seq<ScreenInfo>, frame: Rect, i: int)
    requires
        screens_in_range(screens),
        frame.in_range(),
        0 <= i < screens.len(),
        screens[i].frame.encloses(frame),
    ensures
        screen_holding(screens, frame.middle()) matches Some(k) && 0 <= k < screens.len()
            && screens[k].frame.holds(frame.middle()),
{
    let pred = |s: ScreenInfo| s.frame.holds(frame.middle());
    assert(pred(screens[i]));
    lemma_some_first(screens, pred, i);
}

/// Where something passes, something passes first.
proof fn lemma_some_first(screens: Seq<ScreenInfo>, pred: spec_fn(ScreenInfo) -> bool, i: int)
    requires
        0 <= i < screens.len(),
        pred(screens[i]),
    ensures
        first_index(screens, pred) matches Some(k) && 0 <= k <= i && pred(screens[k]),
    decreases i,
{
    if exists|j: int| 0 <= j < i && pred(screens[j]) {
        let j = choose|j: int| 0 <= j < i && pred(screens[j]);
        lemma_some_first(screens, pred, j);
    } else {
        assert(first_at(screens, pred, i));
        lemma_first_index(screens, pred, i);
    }
}

/// The screen at a point is the first that holds it; where none does, the
/// space at the point is that of the first screen that is nearest.
pub proof fn law_space_at_a_point(screens: Seq<ScreenInfo>, p: Point, i: int)
    requires
        0 <= i < screens.len(),
    ensures
        screens[i].frame.holds(p) && (forall|j: int|
            0 <= j < i ==> !(#[trigger] screens[j]).frame.holds(p)) ==> screen_holding(screens, p)
            == Some(i) && space_at(screens, p) == screens[i].space,
        (forall|j: int| 0 <= j < screens.len() ==> !(#[trigger] screens[j]).frame.holds(p)) && (
        forall|j: int|
            0 <= j < screens.len() ==> distance_sq_to(screens[i].frame, p) <= distance_sq_to(
                (#[trigger] screens[j]).frame,
                p,
            )) && (forall|j: int|
            0 <= j < i ==> distance_sq_to(screens[i].frame, p) < distance_sq_to(
                (#[trigger] screens[j]).frame,
                p,
            )) ==> screen_holding(screens, p) is None && closest_screen(screens, p) == Some(i)
            && space_at(screens, p) == screens[i].space,
{
    let pred = |s: ScreenInfo| s.frame.holds(p);
    if screens[i].frame.holds(p) && (forall|j: int|
        0 <= j < i ==> !(#[trigger] screens[j]).frame.holds(p)) {
        assert forall|j: int| 0 <= j < i implies !pred(#[trigger] screens[j]) by {}
        lemma_first_index(screens, pred, i);
    }
    if forall|j: int| 0 <= j < screens.len() ==> !(#[trigger] screens[j]).frame.holds(p) {
        lemma_no_match(screens, pred);
        if is_closest(screens, p, i) {
            lemma_closest_is_unique(screens, p, i);
        }
    }
}

/// Without screens there is no space at any point.
pub proof fn law_no_space_without_screens(p: Point, frame: Rect)
    ensures
        space_at(Seq::empty(), p) is None,
        space_of_frame(Seq::empty(), frame) is None,
{
    lemma_no_match(Seq::<ScreenInfo>::empty(), |s: ScreenInfo| s.frame.holds(p));
    lemma_no_match(Seq::<ScreenInfo>::empty(), |s: ScreenInfo| s.frame.holds(frame.middle()));
    assert(!exists|i: int| is_largest_share(Seq::<ScreenInfo>::empty(), frame, i));
}

/// The space of a frame is that of the first screen that holds its middle,
/// if that screen shows one. Otherwise it is the space of the screen that
/// shares most of the frame, among those that show a space and share at
/// least a whole unit of area; of equals, of the last.
pub proof fn law_space_of_a_frame(screens: Seq<ScreenInfo>, frame: Rect, i: int, space: SpaceId)
    requires
        0 <= i < screens.len(),
        screens[i].space == Some(space),
    ensures
        screens[i].frame.holds(frame.middle()) && (forall|j: int|
            0 <= j < i ==> !(#[trigger] screens[j]).frame.holds(frame.middle())) ==> space_of_frame(
            screens,
            frame,
        ) == Some(space) && space_of_middle(screens, frame) == Some(space),
        (forall|j: int|
            0 <= j < screens.len() ==> !(#[trigger] screens[j]).frame.holds(frame.middle())) && (
        overlap(screens[i].frame, frame) >= 65536) && (forall|j: int|
            0 <= j < screens.len() && j != i && (#[trigger] screens[j]).space is Some ==> overlap(
                screens[j].frame,
                frame,
            ) / 65536 < overlap(screens[i].frame, frame) / 65536) ==> space_of_frame(screens, frame)
            == Some(space),
        (forall|j: int|
            0 <= j < screens.len() ==> !(#[trigger] screens[j]).frame.holds(frame.middle())) && (
        forall|j: int|
            0 <= j < screens.len() && (#[trigger] screens[j]).space is Some ==> 0 <= overlap(
                screens[j].frame,
                frame,
            ) < 65536) ==> space_of_frame(screens, frame) is None,
{
    let pred = |s: ScreenInfo| s.frame.holds(frame.middle());
    if screens[i].frame.holds(frame.middle()) && (forall|j: int|
        0 <= j < i ==> !(#[trigger] screens[j]).frame.holds(frame.middle())) {
        assert forall|j: int| 0 <= j < i implies !pred(#[trigger] screens[j]) by {}
        lemma_first_index(screens, pred, i);
    }
    if forall|j: int|
        0 <= j < screens.len() ==> !(#[trigger] screens[j]).frame.holds(frame.middle()) {
        lemma_no_match(screens, pred);
        if overlap(screens[i].frame, frame) >= 65536 && (forall|j: int|
            0 <= j < screens.len() && j != i && (#[trigger] screens[j]).space is Some ==> overlap(
                screens[j].frame,
                frame,
            ) / 65536 < overlap(screens[i].frame, frame) / 65536) {
            assert(shared_area(screens[i], frame) > 0);
            assert(is_largest_share(screens, frame, i));
            let k = choose|k: int| is_largest_share(screens, frame, k);
            assert(is_largest_share(screens, frame, k));
            assert(shared_area(screens[i], frame) <= shared_area(screens[k], frame));
            assert(k == i);
        }
        if forall|j: int|
            0 <= j < screens.len() && (#[trigger] screens[j]).space is Some ==> 0 <= overlap(
                screens[j].frame,
                frame,
            ) < 65536 {
            assert(!exists|k: int| is_largest_share(screens, frame, k)) by {
                if exists|k: int| is_largest_share(screens, frame, k) {
                    let k = choose|k: int| is_largest_share(screens, frame, k);
                    assert(is_largest_share(screens, frame, k));
                    assert(screens[k].space is Some ==> overlap(screens[k].frame, frame) < 65536);
                }
            }
        }
    }
}

/// The screen next in a direction lies wholly on that side of the point, and
/// no other that does is nearer that way, or as near and less far aside.
/// There is one whenever some screen lies on that side.
pub proof fn law_next_screen_lies_in_the_direction(
    screens: Seq<ScreenInfo>,
    origin: Point,
    direction: Direction,
    j: int,
)
    requires
        0 <= j < screens.len(),
        ({
            let f = screens[j].frame;
            !f.holds(origin) && match direction {
                Direction::Left => f.origin.x + f.size.width <= origin.x,
                Direction::Right => f.origin.x >= origin.x,
                Direction::Up => f.origin.y + f.size.height <= origin.y,
                Direction::Down => f.origin.y >= origin.y,
            }
        }),
    ensures
        next_towards(screens, origin, direction) matches Some(i) && {
            let a = screens[i].frame;
            let b = screens[j].frame;
            &&& 0 <= i < screens.len()
            &&& !a.holds(origin)
            &&& match direction {
                Direction::Left => a.origin.x + a.size.width <= origin.x && b.origin.x
                    + b.size.width <= a.origin.x + a.size.width,
                Direction::Right => origin.x <= a.origin.x <= b.origin.x,
                Direction::Up => a.origin.y + a.size.height <= origin.y && b.origin.y
                    + b.size.height <= a.origin.y + a.size.height,
                Direction::Down => origin.y <= a.origin.y <= b.origin.y,
            }
        },
    decreases screens.len(),
{
    lemma_some_next(screens, origin, direction, j, screens.len() as int);
    let i = choose|i: int| is_next_towards(screens, origin, direction, i);
    assert(is_next_towards(screens, origin, direction, i));
    assert(!nearer(screens[j].frame, screens[i].frame, origin, direction));
}

/// Whether a screen is the first of the nearest in a direction among the
/// first `n`.
spec fn is_next_among(
    screens: Seq<ScreenInfo>,
    origin: Point,
    direction: Direction,
    i: int,
    n: int,
) -> bool {
    &&& 0 <= i < n
    &&& lies_towards(screens[i].frame, origin, direction)
    &&& forall|j: int|
        0 <= j < n && lies_towards((#[trigger] screens[j]).frame, origin, direction) ==> !nearer(
            screens[j].frame,
            screens[i].frame,
            origin,
            direction,
        )
    &&& forall|j: int|
        0 <= j < i && lies_towards((#[trigger] screens[j]).frame, origin, direction) ==> nearer(
            screens[i].frame,
            screens[j].frame,
            origin,
            direction,
        )
}

/// Where some screen lies in a direction, one is next.
proof fn lemma_some_next(
    screens: Seq<ScreenInfo>,
    origin: Point,
    direction: Direction,
    j: int,
    n: int,
)
    requires
        0 <= j < n <= screens.len(),
        lies_towards(screens[j].frame, origin, direction),
    ensures
        exists|i: int| is_next_among(screens, origin, direction, i, n),
        n == screens.len() ==> exists|i: int| is_next_towards(screens, origin, direction, i),
    decreases n,
{
    if exists|k: int|
        0 <= k < n - 1 && lies_towards((#[trigger] screens[k]).frame, origin, direction) {
        let k = choose|k: int|
            0 <= k < n - 1 && lies_towards((#[trigger] screens[k]).frame, origin, direction);
        lemma_some_next(screens, origin, direction, k, n - 1);
        let m: int = n - 1;
        let i = choose|i: int| is_next_among(screens, origin, direction, i, m);
        assert(is_next_among(screens, origin, direction, i, m));
        let last = screens[n - 1].frame;
        if lies_towards(last, origin, direction) && nearer(
            last,
            screens[i].frame,
            origin,
            direction,
        ) {
            assert(is_next_among(screens, origin, direction, n - 1, n));
        } else {
            assert(is_next_among(screens, origin, direction, i, n));
        }
    } else {
        assert(is_next_among(screens, origin, direction, n - 1, n));
    }
    if n == screens.len() {
        let i = choose|i: int| is_next_among(screens, origin, direction, i, n);
        assert(is_next_among(screens, origin, direction, i, n));
        assert(is_next_towards(screens, origin, direction, i));
    }
}

/// Where no screen lies in a direction, none is next.
pub proof fn law_no_next_screen_where_none_lies(
    screens: Seq<ScreenInfo>,
    origin: Point,
    direction: Direction,
)
    requires
        forall|j: int|
            0 <= j < screens.len() ==> {
                let f = (#[trigger] screens[j]).frame;
                f.holds(origin) || match direction {
                    Direction::Left => f.origin.x + f.size.width > origin.x,
                    Direction::Right => f.origin.x < origin.x,
                    Direction::Up => f.origin.y + f.size.height > origin.y,
                    Direction::Down => f.origin.y < origin.y,
                }
            },
    ensures
        next_towards(screens, origin, direction) is None,
{
}

/// Screens in physical order run from left to right, and from top to bottom
/// where they begin at the same place, and each is listed once.
pub proof fn law_physical_order_runs_left_to_right(
    screens: Seq<ScreenInfo>,
    order: Seq<int>,
    a: int,
    b: int,
)
    requires
        is_physical_order(screens, order),
        0 <= a < b < screens.len(),
    ensures
        physical_order(screens) == order,
        order[a] != order[b],
        0 <= order[a] < screens.len(),
        ({
            let p = screens[order[a]].frame.origin;
            let q = screens[order[b]].frame.origin;
            p.x < q.x || (p.x == q.x && p.y <= q.y)
        }),
{
    let other = physical_order(screens);
    assert(is_physical_order(screens, other));
    lemma_physical_order_is_unique(screens, order, other);
}

/// There is one physical order.
pub proof fn law_physical_order_is_the_order(screens: Seq<ScreenInfo>, order: Seq<int>)
    requires
        is_physical_order(screens, order),
    ensures
        physical_order(screens) == order,
{
    lemma_physical_order_is_unique(screens, order, physical_order(screens));
}

/// The screen of a name is the first that has it.
pub proof fn law_screen_by_name(screens: Seq<ScreenInfo>, uuid: String, i: int)
    ensures
        screen_named(screens, uuid@) == Some(i) <==> 0 <= i < screens.len()
            && screens[i].display_uuid@ == uuid@ && forall|j: int|
            0 <= j < i ==> (#[trigger] screens[j]).display_uuid@ != uuid@,
{
    let pred = |s: ScreenInfo| s.display_uuid@ == uuid@;
    lemma_first(screens, pred);
    if 0 <= i < screens.len() && screens[i].display_uuid@ == uuid@ && (forall|j: int|
        0 <= j < i ==> (#[trigger] screens[j]).display_uuid@ != uuid@) {
        assert forall|j: int| 0 <= j < i implies !pred(#[trigger] screens[j]) by {}
        lemma_first_index(screens, pred, i);
    }
    assert(screen_named(screens, uuid@) == first_index(screens, pred));
    if screen_named(screens, uuid@) == Some(i) {
        assert(pred(screens[i]));
        assert forall|j: int| 0 <= j < i implies (#[trigger] screens[j]).display_uuid@ != uuid@ by {
            assert(!pred(screens[j]));
        }
    }
}

} // verus!
