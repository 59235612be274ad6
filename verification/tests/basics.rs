//! Texts, geometry, collections and numbers.

use lift::collections::{IdMap, IdSet};
use lift::geometry::{centre_on, Point, Rect, Size, GRID, HALF_LIMIT, LIMIT};
use lift::model::{CoreError, WorkspaceNumber};
use lift::sorting::sort_ascending;
use lift::text::{append_i32, append_u64, chars_of, comes_before, find, parse_i32, parse_u32};

fn rect(x: i64, y: i64, width: i64, height: i64) -> Rect {
    Rect {
        origin: Point { x: x * GRID, y: y * GRID },
        size: Size { width: width * GRID, height: height * GRID },
    }
}

#[test]
fn maps_keep_the_order_of_insertion() {
    let mut map: IdMap<u32, u32> = IdMap::new();
    assert_eq!(map.insert(5, 50), None);
    assert_eq!(map.insert(3, 30), None);
    assert_eq!(map.insert(5, 55), Some(50));
    assert_eq!(map.keys(), vec![5, 3]);
    assert_eq!(map.get(5), Some(&55));
    assert_eq!(map.remove(5), Some(55));
    assert_eq!(map.remove(5), None);
    assert_eq!(map.len(), 1);
    map.clear();
    assert!(map.is_empty());

    let mut set: IdSet<u32> = IdSet::new();
    assert!(set.insert(2));
    assert!(!set.insert(2));
    assert!(set.contains(2));
    assert!(set.remove(2));
    assert!(set.is_empty());
}

#[test]
fn numbers_are_read_and_written() {
    let read = |s: &str| {
        let c = chars_of(s);
        parse_i32(&c, 0, c.len())
    };
    assert_eq!(read("-2147483648"), Some(i32::MIN));
    assert_eq!(read("+7"), Some(7));
    assert_eq!(read("2147483648"), None);
    assert_eq!(read("-"), None);
    assert_eq!(read(""), None);
    let c = chars_of("x42y");
    assert_eq!(parse_u32(&c, 1, 3), Some(42));
    let mut out = String::new();
    append_i32(&mut out, i32::MIN);
    append_u64(&mut out, u64::MAX);
    assert_eq!(out, "-214748364818446744073709551615");
}

#[test]
fn texts_are_searched_and_ordered() {
    assert_eq!(find(&chars_of("abcabc"), &chars_of("ca")), Some(2));
    assert_eq!(find(&chars_of("abc"), &chars_of("cab")), None);
    assert!(comes_before(&chars_of("ab"), &chars_of("abc")));
    assert!(!comes_before(&chars_of("abc"), &chars_of("abc")));
    assert!(comes_before(&chars_of("abc"), &chars_of("abd")));
    assert_eq!(sort_ascending(&vec![3, 1, 2, 1]), vec![1, 1, 2, 3]);
}

#[test]
fn rectangles_are_measured() {
    let r = rect(0, 0, 10, 20);
    assert!(r.contains(Point { x: 0, y: 0 }));
    assert!(r.contains(Point { x: 10 * GRID, y: 20 * GRID }));
    assert!(!r.contains(Point { x: 10 * GRID + 1, y: 0 }));
    assert_eq!(r.mid(), Point { x: 5 * GRID, y: 10 * GRID });
    assert_eq!(r.area(), 200 * (GRID as i128) * (GRID as i128));
    assert_eq!(r.overlap_area(&rect(5, 5, 10, 10)), 50 * (GRID as i128) * (GRID as i128));
    assert_eq!(r.overlap_area(&rect(10, 0, 5, 5)), 0);
    assert!(r.contains_rect(&rect(1, 1, 2, 2)));
    assert_eq!(r.distance_sq(Point { x: 13 * GRID, y: 24 * GRID }), 25 * 256 * 256);
}

#[test]
fn frames_are_compared_and_rounded_like_points() {
    let r = rect(1, 1, 10, 10);
    let mut near = r;
    near.origin.x += 25;
    assert!(r.same_as(&near));
    near.origin.x += 1;
    assert!(!r.same_as(&near));
    let rough = Rect {
        origin: Point { x: GRID / 2, y: -GRID / 2 },
        size: Size { width: 10 * GRID, height: 10 * GRID },
    };
    assert_eq!(rough.round(), rect(1, -1, 10, 11));
}

#[test]
fn windows_are_centred_on_screens() {
    let screen = rect(0, 0, 100, 100);
    assert_eq!(
        centre_on(&screen, Size { width: 50 * GRID, height: 20 * GRID }),
        rect(25, 40, 50, 20)
    );
    let far = Rect {
        origin: Point { x: -HALF_LIMIT, y: HALF_LIMIT },
        size: Size { width: 0, height: HALF_LIMIT },
    };
    assert_eq!(
        centre_on(&far, Size { width: HALF_LIMIT, height: 2 * GRID }).origin,
        Point { x: -LIMIT, y: HALF_LIMIT + HALF_LIMIT / 2 - GRID }
    );
}

#[test]
fn workspace_numbers_are_digits() {
    assert_eq!(WorkspaceNumber::try_from(0).map(|n| n.get()), Some(0));
    assert_eq!(WorkspaceNumber::try_from(9).map(|n| n.get()), Some(9));
    assert!(WorkspaceNumber::try_from(10).is_none());
}

#[test]
fn boundaries_are_told_by_their_message() {
    assert!(CoreError::InvalidCommand("focus reached a boundary".to_string()).is_boundary());
    assert!(!CoreError::InvalidCommand("no window".to_string()).is_boundary());
    assert!(!CoreError::UnsupportedCommand("reached a boundary".to_string()).is_boundary());
}
