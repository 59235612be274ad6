//! What refused commands are answered.

use vstd::prelude::*;

use crate::event::{Direction, LayoutCommand};
use crate::ids::SpaceId;
use crate::text::{append_u32, append_u64, decimal};

verus! {

/// How std writes a text for debugging: in double quotes, and escaped.
pub uninterp spec fn debug_text(text: Seq<char>) -> Seq<char>;

/// `Debug` of `str`, through `format!`. The contract names what comes out;
/// it depends on the text alone.
#[verifier::external_body]
fn write_debug(text: &str) -> (r: String)
    ensures
        r@ == debug_text(text@),
{
    format!("{:?}", text)
}

/// Of a slot that no workspace has.
pub open spec fn slot_error(slot: usize) -> Seq<char> {
    "workspace slot "@ + decimal(slot as nat) + " is out of range"@
}

pub fn slot_error_text(slot: usize) -> (r: String)
    ensures
        r@ == slot_error(slot),
{
    let mut out: String = "workspace slot ".to_string();
    append_u64(&mut out, slot as u64);
    out.append(" is out of range");
    out
}

/// Of a space on no known display.
pub open spec fn space_error(space: SpaceId) -> Seq<char> {
    "workspace command Space SpaceId("@ + decimal(space.0 as nat) + ") has no display identity"@
}

pub fn space_error_text(space: SpaceId) -> (r: String)
    ensures
        r@ == space_error(space),
{
    let mut out: String = "workspace command Space SpaceId(".to_string();
    append_u64(&mut out, space.0);
    out.append(") has no display identity");
    out
}

/// Of an index beyond a display's workspaces; the display is given as it is
/// written for debugging.
pub open spec fn index_error(display: Seq<char>, index: usize) -> Seq<char> {
    "display DisplayId("@ + display + ") has no workspace at index "@ + decimal(index as nat)
}

pub fn index_error_text(display: &str, index: usize) -> (r: String)
    ensures
        r@ == index_error(display@, index),
{
    let mut out: String = "display DisplayId(".to_string();
    out.append(display);
    out.append(") has no workspace at index ");
    append_u64(&mut out, index as u64);
    out
}

/// The same, given the display itself.
pub fn display_index_error_text(display: &str, index: usize) -> (r: String)
    ensures
        r@ == index_error(debug_text(display@), index),
{
    let written: String = write_debug(display);
    index_error_text(written.as_str(), index)
}

pub open spec fn direction_name(direction: Direction) -> Seq<char> {
    match direction {
        Direction::Left => "Left"@,
        Direction::Right => "Right"@,
        Direction::Up => "Up"@,
        Direction::Down => "Down"@,
    }
}

fn append_direction(out: &mut String, direction: Direction)
    ensures
        final(out)@ == old(out)@ + direction_name(direction),
{
    match direction {
        Direction::Left => out.append("Left"),
        Direction::Right => out.append("Right"),
        Direction::Up => out.append("Up"),
        Direction::Down => out.append("Down"),
    }
}

pub open spec fn flag_name(flag: Option<bool>) -> Seq<char> {
    match flag {
        Some(true) => "Some(true)"@,
        Some(false) => "Some(false)"@,
        None => "None"@,
    }
}

fn append_flag(out: &mut String, flag: Option<bool>)
    ensures
        final(out)@ == old(out)@ + flag_name(flag),
{
    match flag {
        Some(set) => if set {
            out.append("Some(true)")
        } else {
            out.append("Some(false)")
        },
        None => out.append("None"),
    }
}

pub open spec fn index_name(index: Option<u32>) -> Seq<char> {
    match index {
        Some(n) => "Some("@ + decimal(n as nat) + ")"@,
        None => "None"@,
    }
}

fn append_index(out: &mut String, index: Option<u32>)
    ensures
        final(out)@ == old(out)@ + index_name(index),
{
    match index {
        Some(n) => {
            out.append("Some(");
            append_u32(out, n);
            out.append(")");
            assert(out@ =~= old(out)@ + index_name(index));
        },
        None => out.append("None"),
    }
}

/// Ten-thousandths behind the point, without zeros at the end but for the
/// first digit.
pub open spec fn fraction_name(f: nat) -> Seq<char> {
    let first = decimal(f / 1000);
    let second = decimal(f / 100 % 10);
    let third = decimal(f / 10 % 10);
    if f % 1000 == 0 {
        first
    } else if f % 100 == 0 {
        first + second
    } else if f % 10 == 0 {
        first + second + third
    } else {
        first + second + third + decimal(f % 10)
    }
}

/// A number of ten-thousandths as a decimal fraction.
pub open spec fn amount_name(amount: i32) -> Seq<char> {
    let n: nat = if amount < 0 {
        (-amount) as nat
    } else {
        amount as nat
    };
    (if amount < 0 {
        "-"@
    } else {
        ""@
    }) + decimal(n / 10000) + "."@ + fraction_name(n % 10000)
}

fn append_fraction(out: &mut String, f: u32)
    ensures
        final(out)@ == old(out)@ + fraction_name(f as nat),
{
    append_u32(out, f / 1000);
    if f % 1000 != 0 {
        append_u32(out, f / 100 % 10);
        if f % 100 != 0 {
            append_u32(out, f / 10 % 10);
            if f % 10 != 0 {
                append_u32(out, f % 10);
            }
        }
    }
    assert(out@ =~= old(out)@ + fraction_name(f as nat));
}

fn append_amount(out: &mut String, amount: i32)
    ensures
        final(out)@ == old(out)@ + amount_name(amount),
{
    let n: u32 = if amount < 0 {
        (0 - (amount as i64)) as u32
    } else {
        amount as u32
    };
    if amount < 0 {
        out.append("-");
    } else {
        out.append("");
    }
    append_u32(out, n / 10000);
    out.append(".");
    append_fraction(out, n % 10000);
    assert(out@ =~= old(out)@ + amount_name(amount));
}

/// A layout command as it is written for debugging.
pub open spec fn command_name(command: LayoutCommand) -> Seq<char> {
    match command {
        LayoutCommand::NextWindow => "NextWindow"@,
        LayoutCommand::PrevWindow => "PrevWindow"@,
        LayoutCommand::MoveFocus(d) => "MoveFocus("@ + direction_name(d) + ")"@,
        LayoutCommand::MoveNode(d) => "MoveNode("@ + direction_name(d) + ")"@,
        LayoutCommand::JoinWindow(d) => "JoinWindow("@ + direction_name(d) + ")"@,
        LayoutCommand::UnjoinWindows => "UnjoinWindows"@,
        LayoutCommand::ToggleOrientation => "ToggleOrientation"@,
        LayoutCommand::SwapWindows(a, b) => "SwapWindows("@ + a.debug_text() + ", "@
            + b.debug_text() + ")"@,
        LayoutCommand::ToggleWindowFloating => "ToggleWindowFloating"@,
        LayoutCommand::ToggleFocusFloating => "ToggleFocusFloating"@,
        LayoutCommand::ToggleFullscreen => "ToggleFullscreen"@,
        LayoutCommand::ToggleFullscreenWithinGaps => "ToggleFullscreenWithinGaps"@,
        LayoutCommand::ResizeWindowGrow => "ResizeWindowGrow"@,
        LayoutCommand::ResizeWindowShrink => "ResizeWindowShrink"@,
        LayoutCommand::ResizeWindowBy { amount } => "ResizeWindowBy { amount: "@ + amount_name(
            amount,
        ) + " }"@,
        LayoutCommand::ResizeWindowDirectional(d) => "ResizeWindowDirectional("@ + direction_name(d)
            + ")"@,
        LayoutCommand::NextWorkspace(flag) => "NextWorkspace("@ + flag_name(flag) + ")"@,
        LayoutCommand::PrevWorkspace(flag) => "PrevWorkspace("@ + flag_name(flag) + ")"@,
        LayoutCommand::SwitchToWorkspace(n) => "SwitchToWorkspace("@ + decimal(n as nat) + ")"@,
        LayoutCommand::SwitchToGlobalSlot(n) => "SwitchToGlobalSlot("@ + decimal(n as nat) + ")"@,
        LayoutCommand::MoveWindowToWorkspace { workspace, window_id } =>
            "MoveWindowToWorkspace { workspace: "@ + decimal(workspace as nat) + ", window_id: "@
            + index_name(window_id) + " }"@,
        LayoutCommand::MoveWindowToHiddenWorkspace { window_id } =>
            "MoveWindowToHiddenWorkspace { window_id: "@ + index_name(window_id) + " }"@,
        LayoutCommand::ToggleHiddenWorkspace => "ToggleHiddenWorkspace"@,
        LayoutCommand::CreateWorkspace => "CreateWorkspace"@,
        LayoutCommand::SwitchToLastWorkspace => "SwitchToLastWorkspace"@,
    }
}

/// A variant that holds a direction.
fn directed(name: &str, direction: Direction) -> (r: String)
    ensures
        r@ == name@ + direction_name(direction) + ")"@,
{
    let mut out: String = name.to_string();
    append_direction(&mut out, direction);
    out.append(")");
    out
}

/// A variant that holds a flag.
fn flagged(name: &str, flag: Option<bool>) -> (r: String)
    ensures
        r@ == name@ + flag_name(flag) + ")"@,
{
    let mut out: String = name.to_string();
    append_flag(&mut out, flag);
    out.append(")");
    out
}

/// A variant that holds a number.
fn numbered(name: &str, n: usize) -> (r: String)
    ensures
        r@ == name@ + decimal(n as nat) + ")"@,
{
    let mut out: String = name.to_string();
    append_u64(&mut out, n as u64);
    out.append(")");
    out
}

pub fn command_text(command: LayoutCommand) -> (r: String)
    ensures
        r@ == command_name(command),
{
    match command {
        LayoutCommand::NextWindow => "NextWindow".to_string(),
        LayoutCommand::PrevWindow => "PrevWindow".to_string(),
        LayoutCommand::MoveFocus(d) => directed("MoveFocus(", d),
        LayoutCommand::MoveNode(d) => directed("MoveNode(", d),
        LayoutCommand::JoinWindow(d) => directed("JoinWindow(", d),
        LayoutCommand::UnjoinWindows => "UnjoinWindows".to_string(),
        LayoutCommand::ToggleOrientation => "ToggleOrientation".to_string(),
        LayoutCommand::SwapWindows(a, b) => {
            let mut out: String = "SwapWindows(".to_string();
            out.append(a.to_debug_string().as_str());
            out.append(", ");
            out.append(b.to_debug_string().as_str());
            out.append(")");
            out
        },
        LayoutCommand::ToggleWindowFloating => "ToggleWindowFloating".to_string(),
        LayoutCommand::ToggleFocusFloating => "ToggleFocusFloating".to_string(),
        LayoutCommand::ToggleFullscreen => "ToggleFullscreen".to_string(),
        LayoutCommand::ToggleFullscreenWithinGaps => "ToggleFullscreenWithinGaps".to_string(),
        LayoutCommand::ResizeWindowGrow => "ResizeWindowGrow".to_string(),
        LayoutCommand::ResizeWindowShrink => "ResizeWindowShrink".to_string(),
        LayoutCommand::ResizeWindowBy { amount } => {
            let mut out: String = "ResizeWindowBy { amount: ".to_string();
            append_amount(&mut out, amount);
            out.append(" }");
            out
        },
        LayoutCommand::ResizeWindowDirectional(d) => directed("ResizeWindowDirectional(", d),
        LayoutCommand::NextWorkspace(flag) => flagged("NextWorkspace(", flag),
        LayoutCommand::PrevWorkspace(flag) => flagged("PrevWorkspace(", flag),
        LayoutCommand::SwitchToWorkspace(n) => numbered("SwitchToWorkspace(", n),
        LayoutCommand::SwitchToGlobalSlot(n) => numbered("SwitchToGlobalSlot(", n),
        LayoutCommand::MoveWindowToWorkspace { workspace, window_id } => {
            let mut out: String = "MoveWindowToWorkspace { workspace: ".to_string();
            append_u64(&mut out, workspace as u64);
            out.append(", window_id: ");
            append_index(&mut out, window_id);
            out.append(" }");
            out
        },
        LayoutCommand::MoveWindowToHiddenWorkspace { window_id } => {
            let mut out: String = "MoveWindowToHiddenWorkspace { window_id: ".to_string();
            append_index(&mut out, window_id);
            out.append(" }");
            out
        },
        LayoutCommand::ToggleHiddenWorkspace => "ToggleHiddenWorkspace".to_string(),
        LayoutCommand::CreateWorkspace => "CreateWorkspace".to_string(),
        LayoutCommand::SwitchToLastWorkspace => "SwitchToLastWorkspace".to_string(),
    }
}

/// Of a command that is not about workspaces.
pub open spec fn unsupported_error(command: LayoutCommand) -> Seq<char> {
    command_name(command) + " is not a workspace reducer command"@
}

pub fn unsupported_error_text(command: LayoutCommand) -> (r: String)
    ensures
        r@ == unsupported_error(command),
{
    let mut out: String = command_text(command);
    out.append(" is not a workspace reducer command");
    out
}

} // verus!
