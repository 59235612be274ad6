//! The app actor's identifiers, requests and notification encoding.
//!
//! The app actor talks to one application through the accessibility APIs.
//! What it decides about its windows stands in [`actor`].

pub mod actor;
pub mod focus;
pub mod lifecycle;
pub mod notifications;
pub mod register;
pub mod requests;
pub mod raise;
pub mod refresh;

use vstd::prelude::*;
use vstd::string::*;

use crate::geometry::{Point, Rect};
use crate::ids::{pid_t, Id, TransactionId};
use crate::text::{
    append_i32, append_u32, begins_with, chars_of, decimal, ends_with, find, finishes_with,
    first_occurrence, is_digit, lemma_decimal_round_trip, occurs, occurs_at, parse_i32, parse_u32,
    signed_decimal, signed_number, starts_with, unsigned_number,
};

verus! {

/// An identifier representing a window.
///
/// This identifier is only valid for the lifetime of the process that owns it.
/// It is not stable across restarts of the window manager.
#[derive(Copy, Clone, Debug, PartialEq, Eq, Hash, PartialOrd, Ord, Structural)]
pub struct WindowId {
    pub pid: pid_t,
    pub idx: u32,
}

impl Id for WindowId {
    fn same(self, other: Self) -> (r: bool) {
        self == other
    }
}

/// The first position at which `pattern` stands in `s`, if any.
pub open spec fn find_spec(s: Seq<char>, pattern: Seq<char>) -> Option<int> {
    if occurs(s, pattern) {
        Some(choose|at: int| first_occurrence(s, pattern, at))
    } else {
        None
    }
}

/// The text in front of a window's process id.
pub open spec fn debug_prefix() -> Seq<char> {
    "WindowId { pid: "@
}

/// The text between a window's process id and its index.
pub open spec fn debug_separator() -> Seq<char> {
    ", idx: "@
}

/// The text behind a window's index.
pub open spec fn debug_suffix() -> Seq<char> {
    " }"@
}

/// The window that a debug string denotes: a prefix, a process id up to the
/// first separator, a nonzero index, and a suffix.
pub open spec fn window_of_debug_string(s: Seq<char>) -> Option<WindowId> {
    if !begins_with(s, debug_prefix()) {
        None
    } else {
        let body = s.skip(debug_prefix().len() as int);
        match find_spec(body, debug_separator()) {
            None => None,
            Some(at) => {
                let tail = body.skip(at + debug_separator().len());
                if !finishes_with(tail, debug_suffix()) {
                    None
                } else {
                    let index = tail.take(tail.len() - debug_suffix().len());
                    match (signed_number(body.take(at)), unsigned_number(index, u32::MAX as int)) {
                        (Some(p), Some(i)) => if i == 0 {
                            None
                        } else {
                            Some(WindowId { pid: p as i32, idx: i as u32 })
                        },
                        _ => None,
                    }
                }
            },
        }
    }
}

proof fn lemma_first_is_unique(s: Seq<char>, pattern: Seq<char>, at: int)
    requires
        first_occurrence(s, pattern, at),
    ensures
        find_spec(s, pattern) == Some(at),
{
    assert(occurs_at(s, pattern, at));
    let other = choose|i: int| first_occurrence(s, pattern, i);
    assert(first_occurrence(s, pattern, other));
    if other < at {
        assert(occurs_at(s, pattern, other));
    } else if at < other {
        assert(occurs_at(s, pattern, at));
    }
}

impl WindowId {
    /// Window indices are never zero.
    pub open spec fn valid(self) -> bool {
        self.idx != 0
    }

    /// The text that `to_debug_string` writes.
    pub open spec fn debug_text(self) -> Seq<char> {
        debug_prefix() + signed_decimal(self.pid as int) + debug_separator() + decimal(
            self.idx as nat,
        ) + debug_suffix()
    }

    pub fn new(pid: pid_t, idx: u32) -> (r: WindowId)
        requires
            idx != 0,
        ensures
            r == (WindowId { pid, idx }),
            r.valid(),
    {
        WindowId { pid, idx }
    }

    /// Parse a WindowId from its string representation (format: "WindowId { pid: 123, idx: 456 }")
    pub fn from_debug_string(s: &str) -> (r: Option<WindowId>)
        ensures
            r == window_of_debug_string(s@),
            r matches Some(w) ==> w.valid(),
    {
        let text: Vec<char> = chars_of(s);
        if !starts_with(&text, "WindowId { pid: ") {
            return None;
        }
        let prefix: Vec<char> = chars_of("WindowId { pid: ");
        let mut body: Vec<char> = text;
        let body = body.split_off(prefix.len());
        assert(body@ =~= s@.skip(debug_prefix().len() as int));
        let separator: Vec<char> = chars_of(", idx: ");
        match find(&body, &separator) {
            None => None,
            Some(at) => {
                proof {
                    lemma_first_is_unique(body@, separator@, at as int);
                }
                let mut rest: Vec<char> = body.clone();
                let tail = rest.split_off(at + separator.len());
                assert(tail@ =~= body@.skip(at + separator@.len()));
                if !ends_with(&tail, " }") {
                    return None;
                }
                let suffix: Vec<char> = chars_of(" }");
                let end: usize = tail.len() - suffix.len();
                let pid = parse_i32(&body, 0, at);
                let idx = parse_u32(&tail, 0, end);
                assert(body@.subrange(0, at as int) =~= body@.take(at as int));
                assert(tail@.subrange(0, end as int) =~= tail@.take(end as int));
                match (pid, idx) {
                    (Some(p), Some(i)) => if i == 0 {
                        None
                    } else {
                        Some(WindowId { pid: p, idx: i })
                    },
                    _ => None,
                }
            },
        }
    }

    pub fn to_debug_string(&self) -> (r: String)
        ensures
            r@ == self.debug_text(),
    {
        let mut out: String = "WindowId { pid: ".to_owned();
        append_i32(&mut out, self.pid);
        out.append(", idx: ");
        append_u32(&mut out, self.idx);
        out.append(" }");
        out
    }
}

proof fn lemma_signed_number_of_text(n: int)
    requires
        i32::MIN <= n <= i32::MAX,
    ensures
        signed_number(signed_decimal(n)) == Some(n),
        forall|i: int|
            0 <= i < signed_decimal(n).len() ==> {
                let c = #[trigger] signed_decimal(n)[i];
                is_digit(c) || c == '-'
            },
{
    if n < 0 {
        let d = decimal((-n) as nat);
        lemma_decimal_round_trip((-n) as nat);
        assert(signed_decimal(n).skip(1) =~= d);
        assert(signed_decimal(n)[0] == '-');
        assert forall|i: int| 0 <= i < signed_decimal(n).len() implies ({
            let c = #[trigger] signed_decimal(n)[i];
            is_digit(c) || c == '-'
        }) by {
            if i > 0 {
                assert(signed_decimal(n)[i] == d[i - 1]);
            }
        }
    } else {
        let d = decimal(n as nat);
        lemma_decimal_round_trip(n as nat);
        assert(signed_decimal(n) == d);
        assert(is_digit(d[0]));
    }
}

/// Reading back what `to_debug_string` wrote gives the window that was written.
pub proof fn law_debug_string_round_trip(w: WindowId)
    requires
        w.valid(),
    ensures
        window_of_debug_string(w.debug_text()) == Some(w),
{
    reveal_strlit("WindowId { pid: ");
    reveal_strlit(", idx: ");
    reveal_strlit(" }");
    let s = w.debug_text();
    let pre = debug_prefix();
    let sep = debug_separator();
    let suf = debug_suffix();
    let p = signed_decimal(w.pid as int);
    let d = decimal(w.idx as nat);
    lemma_signed_number_of_text(w.pid as int);
    lemma_decimal_round_trip(w.idx as nat);
    assert(s.subrange(0, pre.len() as int) =~= pre);
    let body = s.skip(pre.len() as int);
    assert(body =~= p + sep + d + suf);
    let at = p.len() as int;
    assert(body.subrange(at, at + sep.len()) =~= sep);
    assert forall|j: int| 0 <= j < at implies !#[trigger] occurs_at(body, sep, j) by {
        assert(body[j] == p[j]);
        if occurs_at(body, sep, j) {
            assert(body.subrange(j, j + sep.len())[0] == sep[0]);
            assert(sep[0] == ',');
        }
    }
    assert(first_occurrence(body, sep, at));
    lemma_first_is_unique(body, sep, at);
    assert(body.take(at) =~= p);
    let tail = body.skip(at + sep.len());
    assert(tail =~= d + suf);
    assert(tail.subrange(tail.len() - suf.len(), tail.len() as int) =~= suf);
    assert(tail.take(tail.len() - suf.len()) =~= d);
    assert(is_digit(d[0]));
    assert(unsigned_number(d, u32::MAX as int) == Some(w.idx as int));
}

/// The accessibility notifications that the app actor listens to.
#[derive(Copy, Clone, Debug, PartialEq, Eq, Structural)]
pub enum AxNotificationKind {
    ApplicationActivated,
    ApplicationDeactivated,
    ApplicationHidden,
    ApplicationShown,
    MainWindowChanged,
    WindowCreated,
    MenuOpened,
    MenuClosed,
    WindowDestroyed,
    WindowMoved,
    WindowResized,
    WindowMiniaturized,
    WindowDeminiaturized,
    TitleChanged,
}

/// The tag under which a notification travels.
pub open spec fn tag_of(kind: AxNotificationKind) -> u8 {
    match kind {
        AxNotificationKind::ApplicationActivated => 1,
        AxNotificationKind::ApplicationDeactivated => 2,
        AxNotificationKind::ApplicationHidden => 3,
        AxNotificationKind::ApplicationShown => 4,
        AxNotificationKind::MainWindowChanged => 5,
        AxNotificationKind::WindowCreated => 6,
        AxNotificationKind::MenuOpened => 7,
        AxNotificationKind::MenuClosed => 8,
        AxNotificationKind::WindowDestroyed => 9,
        AxNotificationKind::WindowMoved => 10,
        AxNotificationKind::WindowResized => 11,
        AxNotificationKind::WindowMiniaturized => 12,
        AxNotificationKind::WindowDeminiaturized => 13,
        AxNotificationKind::TitleChanged => 14,
    }
}

/// The name under which the system delivers a notification.
pub open spec fn notification_name(kind: AxNotificationKind) -> Seq<char> {
    match kind {
        AxNotificationKind::ApplicationActivated => "AXApplicationActivated"@,
        AxNotificationKind::ApplicationDeactivated => "AXApplicationDeactivated"@,
        AxNotificationKind::ApplicationHidden => "AXApplicationHidden"@,
        AxNotificationKind::ApplicationShown => "AXApplicationShown"@,
        AxNotificationKind::MainWindowChanged => "AXMainWindowChanged"@,
        AxNotificationKind::WindowCreated => "AXWindowCreated"@,
        AxNotificationKind::MenuOpened => "AXMenuOpened"@,
        AxNotificationKind::MenuClosed => "AXMenuClosed"@,
        AxNotificationKind::WindowDestroyed => "AXUIElementDestroyed"@,
        AxNotificationKind::WindowMoved => "AXWindowMoved"@,
        AxNotificationKind::WindowResized => "AXWindowResized"@,
        AxNotificationKind::WindowMiniaturized => "AXWindowMiniaturized"@,
        AxNotificationKind::WindowDeminiaturized => "AXWindowDeminiaturized"@,
        AxNotificationKind::TitleChanged => "AXTitleChanged"@,
    }
}

impl AxNotificationKind {
    pub fn tag(self) -> (r: u8)
        ensures
            r == tag_of(self),
            1 <= r <= 14,
    {
        match self {
            AxNotificationKind::ApplicationActivated => 1,
            AxNotificationKind::ApplicationDeactivated => 2,
            AxNotificationKind::ApplicationHidden => 3,
            AxNotificationKind::ApplicationShown => 4,
            AxNotificationKind::MainWindowChanged => 5,
            AxNotificationKind::WindowCreated => 6,
            AxNotificationKind::MenuOpened => 7,
            AxNotificationKind::MenuClosed => 8,
            AxNotificationKind::WindowDestroyed => 9,
            AxNotificationKind::WindowMoved => 10,
            AxNotificationKind::WindowResized => 11,
            AxNotificationKind::WindowMiniaturized => 12,
            AxNotificationKind::WindowDeminiaturized => 13,
            AxNotificationKind::TitleChanged => 14,
        }
    }

    pub fn from_tag(tag: u8) -> (r: Option<Self>)
        ensures
            match r {
                Some(kind) => tag_of(kind) == tag,
                None => forall|kind: AxNotificationKind| tag_of(kind) != tag,
            },
    {
        Some(
            match tag {
                1 => AxNotificationKind::ApplicationActivated,
                2 => AxNotificationKind::ApplicationDeactivated,
                3 => AxNotificationKind::ApplicationHidden,
                4 => AxNotificationKind::ApplicationShown,
                5 => AxNotificationKind::MainWindowChanged,
                6 => AxNotificationKind::WindowCreated,
                7 => AxNotificationKind::MenuOpened,
                8 => AxNotificationKind::MenuClosed,
                9 => AxNotificationKind::WindowDestroyed,
                10 => AxNotificationKind::WindowMoved,
                11 => AxNotificationKind::WindowResized,
                12 => AxNotificationKind::WindowMiniaturized,
                13 => AxNotificationKind::WindowDeminiaturized,
                14 => AxNotificationKind::TitleChanged,
                _ => {
                    return None;
                },
            },
        )
    }

    pub fn name(self) -> (r: &'static str)
        ensures
            r@ == notification_name(self),
    {
        match self {
            AxNotificationKind::ApplicationActivated => "AXApplicationActivated",
            AxNotificationKind::ApplicationDeactivated => "AXApplicationDeactivated",
            AxNotificationKind::ApplicationHidden => "AXApplicationHidden",
            AxNotificationKind::ApplicationShown => "AXApplicationShown",
            AxNotificationKind::MainWindowChanged => "AXMainWindowChanged",
            AxNotificationKind::WindowCreated => "AXWindowCreated",
            AxNotificationKind::MenuOpened => "AXMenuOpened",
            AxNotificationKind::MenuClosed => "AXMenuClosed",
            AxNotificationKind::WindowDestroyed => "AXUIElementDestroyed",
            AxNotificationKind::WindowMoved => "AXWindowMoved",
            AxNotificationKind::WindowResized => "AXWindowResized",
            AxNotificationKind::WindowMiniaturized => "AXWindowMiniaturized",
            AxNotificationKind::WindowDeminiaturized => "AXWindowDeminiaturized",
            AxNotificationKind::TitleChanged => "AXTitleChanged",
        }
    }
}

/// The notifications that are watched on the application itself.
pub fn app_notifications() -> (r: Vec<AxNotificationKind>)
    ensures
        r@ == seq![
            AxNotificationKind::ApplicationActivated,
            AxNotificationKind::ApplicationDeactivated,
            AxNotificationKind::ApplicationHidden,
            AxNotificationKind::ApplicationShown,
            AxNotificationKind::MainWindowChanged,
            AxNotificationKind::WindowCreated,
            AxNotificationKind::MenuOpened,
            AxNotificationKind::MenuClosed,
            AxNotificationKind::TitleChanged,
        ],
{
    vec![
        AxNotificationKind::ApplicationActivated,
        AxNotificationKind::ApplicationDeactivated,
        AxNotificationKind::ApplicationHidden,
        AxNotificationKind::ApplicationShown,
        AxNotificationKind::MainWindowChanged,
        AxNotificationKind::WindowCreated,
        AxNotificationKind::MenuOpened,
        AxNotificationKind::MenuClosed,
        AxNotificationKind::TitleChanged,
    ]
}

/// The notifications that are watched on every window.
pub fn window_notifications() -> (r: Vec<AxNotificationKind>)
    ensures
        r@ == seq![
            AxNotificationKind::WindowDestroyed,
            AxNotificationKind::WindowMoved,
            AxNotificationKind::WindowResized,
            AxNotificationKind::WindowMiniaturized,
            AxNotificationKind::WindowDeminiaturized,
        ],
{
    vec![
        AxNotificationKind::WindowDestroyed,
        AxNotificationKind::WindowMoved,
        AxNotificationKind::WindowResized,
        AxNotificationKind::WindowMiniaturized,
        AxNotificationKind::WindowDeminiaturized,
    ]
}

/// The notifications that are switched off while a window is animated.
pub fn window_animation_notifications() -> (r: Vec<AxNotificationKind>)
    ensures
        r@ == seq![AxNotificationKind::WindowMoved, AxNotificationKind::WindowResized],
{
    vec![AxNotificationKind::WindowMoved, AxNotificationKind::WindowResized]
}

/// The context word of a notification: the window's index above the tag byte.
pub open spec fn notification_word(kind: AxNotificationKind, wid: Option<WindowId>) -> int {
    let idx = match wid {
        Some(w) => w.idx as int,
        None => 0,
    };
    idx * 256 + tag_of(kind)
}

/// What a context word says to the actor of process `pid`.
pub open spec fn decoded_word(pid: pid_t, data: u64) -> Option<
    (AxNotificationKind, Option<WindowId>),
> {
    if exists|kind: AxNotificationKind| tag_of(kind) == data % 256 {
        let kind = choose|kind: AxNotificationKind| tag_of(kind) == data % 256;
        let idx = (data as int / 256) % 0x1_0000_0000;
        Some(
            (
                kind,
                if idx == 0 {
                    None
                } else {
                    Some(WindowId { pid, idx: idx as u32 })
                },
            ),
        )
    } else {
        None
    }
}

/// Packs a notification and the window it is watched on into a context word.
pub fn encode_notification_data(kind: AxNotificationKind, wid: Option<WindowId>) -> (r: u64)
    ensures
        r == notification_word(kind, wid),
{
    let idx: u64 = match wid {
        Some(w) => w.idx as u64,
        None => 0,
    };
    let tag: u64 = kind.tag() as u64;
    assert((idx << 8) | tag == idx * 256 + tag) by (bit_vector)
        requires
            idx <= 0xffff_ffff,
            tag <= 14,
    ;
    (idx << 8) | tag
}

/// Unpacks a context word.
pub fn decode_notification_data(pid: pid_t, data: u64) -> (r: Option<
    (AxNotificationKind, Option<WindowId>),
>)
    ensures
        r == decoded_word(pid, data),
{
    assert(data & 0xff == data % 256 && data & 0xff <= 255) by (bit_vector);
    let high: u64 = data >> 8;
    assert(high == data / 256) by (bit_vector)
        requires
            high == data >> 8,
    ;
    assert(high as u32 == high % 0x1_0000_0000) by (bit_vector);
    match AxNotificationKind::from_tag((data & 0xff) as u8) {
        None => None,
        Some(kind) => {
            proof {
                assert(tag_of(kind) == data % 256);
                let other = choose|k: AxNotificationKind| tag_of(k) == data % 256;
                lemma_tags_differ(kind, other);
            }
            let idx: u32 = high as u32;
            let wid = if idx == 0 {
                None
            } else {
                Some(WindowId { pid, idx })
            };
            Some((kind, wid))
        },
    }
}

proof fn lemma_tags_differ(a: AxNotificationKind, b: AxNotificationKind)
    ensures
        tag_of(a) == tag_of(b) ==> a == b,
{
}

/// A context word gives back what was packed into it, to the actor of the
/// process that owns the window.
pub proof fn law_notification_data_round_trip(
    pid: pid_t,
    kind: AxNotificationKind,
    wid: Option<WindowId>,
    data: u64,
)
    requires
        wid matches Some(w) ==> w.valid() && w.pid == pid,
        data == notification_word(kind, wid),
    ensures
        decoded_word(pid, data) == Some((kind, wid)),
{
    let tag = tag_of(kind) as int;
    assert(data as int % 256 == tag);
    assert(tag_of(kind) == data % 256);
    let other = choose|k: AxNotificationKind| tag_of(k) == data % 256;
    lemma_tags_differ(kind, other);
    assert(data as int / 256 == (data - tag) / 256);
}

/// Whether an activation or main-window change was asked for by the window manager.
#[derive(Copy, Clone, Debug, PartialEq, Eq, Structural)]
pub enum Quiet {
    Yes,
    No,
}

/// What the reactor asks of an app actor.
pub enum Request {
    Terminate,
    GetVisibleWindows,
    WindowMaybeDestroyed(WindowId),
    CloseWindow(WindowId),
    SetWindowFrame(WindowId, Rect, TransactionId, bool),
    SetBatchWindowFrame(Vec<(WindowId, Rect)>, TransactionId, bool),
    SetWindowPos(WindowId, Point, TransactionId, bool),
    AnimationFrame { wid: WindowId, frame: Rect, set_size: bool, txid: TransactionId },
    BeginWindowAnimation(WindowId),
    EndWindowAnimation(WindowId),
    /// Raise the windows within a single space, in the given order. All windows must be
    /// in the same space, or they will not be raised correctly. The two numbers are
    /// the cancellation handle and the raise sequence.
    ///
    /// Events attributed to this request will use the provided [`Quiet`]
    /// parameter for the last window only. Events for other windows will be
    /// marked `Quiet::Yes` automatically.
    Raise(Vec<WindowId>, u64, u64, Quiet),
}

impl Default for Quiet {
    fn default() -> (r: Self)
        ensures
            r == Quiet::No,
    {
        Quiet::No
    }
}

} // verus!
