//! The settings that the actors read.

use vstd::prelude::*;

use crate::event_tap::Hotkey;
use crate::wm_controller::{copy_texts, same_command, texts_of, WmCommand};

verus! {

/// General settings. Durations count milliseconds.
pub struct Settings {
    pub animate: bool,
    pub animation_duration: u64,
    /// Frames per second of an animation.
    pub animation_fps: u32,
    pub default_disable: bool,
    pub mouse_follows_focus: bool,
    pub mouse_hides_on_focus: bool,
    pub focus_follows_mouse: bool,
    pub stack_line_enabled: bool,
    pub mission_control_enabled: bool,
    /// Applications, by bundle, whose activation switches no workspace.
    pub auto_focus_blacklist: Vec<String>,
}

pub struct VirtualWorkspaceSettings {
    pub reapply_app_rules_on_title_change: bool,
    pub workspace_auto_back_and_forth: bool,
    /// Display identities in the order in which they are to be numbered.
    pub display_order: Vec<String>,
}

pub struct Config {
    pub settings: Settings,
    pub virtual_workspaces: VirtualWorkspaceSettings,
    /// Hotkeys with the command that each gives.
    pub keys: Vec<(Hotkey, WmCommand)>,
    /// The same as they are described, for other keyboard layouts.
    pub key_specs: Vec<(String, WmCommand)>,
}

/// Whether two lists of hotkeys are the same.
pub open spec fn same_keys(a: Seq<(Hotkey, WmCommand)>, b: Seq<(Hotkey, WmCommand)>) -> bool {
    a.len() == b.len() && forall|i: int|
        0 <= i < a.len() ==> (#[trigger] a[i]).0 == b[i].0 && same_command(a[i].1, b[i].1)
}

/// Whether two lists of described hotkeys are the same.
pub open spec fn same_specs(a: Seq<(String, WmCommand)>, b: Seq<(String, WmCommand)>) -> bool {
    a.len() == b.len() && forall|i: int|
        0 <= i < a.len() ==> (#[trigger] a[i]).0@ == b[i].0@ && same_command(a[i].1, b[i].1)
}

/// Whether two configurations are the same, texts compared by their
/// characters.
pub open spec fn same_config(a: Config, b: Config) -> bool {
    &&& a.settings == (Settings {
        auto_focus_blacklist: a.settings.auto_focus_blacklist,
        ..b.settings
    })
    &&& texts_of(a.settings.auto_focus_blacklist@) == texts_of(b.settings.auto_focus_blacklist@)
    &&& a.virtual_workspaces == (VirtualWorkspaceSettings {
        display_order: a.virtual_workspaces.display_order,
        ..b.virtual_workspaces
    })
    &&& texts_of(a.virtual_workspaces.display_order@) == texts_of(
        b.virtual_workspaces.display_order@,
    )
    &&& same_keys(a.keys@, b.keys@)
    &&& same_specs(a.key_specs@, b.key_specs@)
}

pub fn keys_are_same(a: &Vec<(Hotkey, WmCommand)>, b: &Vec<(Hotkey, WmCommand)>) -> (r: bool)
    ensures
        r == same_keys(a@, b@),
{
    if a.len() != b.len() {
        return false;
    }
    let mut i: usize = 0;
    while i < a.len()
        invariant
            i <= a@.len(),
            a@.len() == b@.len(),
            forall|j: int|
                0 <= j < i ==> (#[trigger] a@[j]).0 == b@[j].0 && same_command(a@[j].1, b@[j].1),
        decreases a@.len() - i,
    {
        if !(a[i].0 == b[i].0 && a[i].1.same(&b[i].1)) {
            assert(!(a@[i as int].0 == b@[i as int].0 && same_command(
                a@[i as int].1,
                b@[i as int].1,
            )));
            return false;
        }
        i += 1;
    }
    true
}

fn copy_keys(v: &Vec<(Hotkey, WmCommand)>) -> (r: Vec<(Hotkey, WmCommand)>)
    ensures
        same_keys(r@, v@),
{
    let mut r: Vec<(Hotkey, WmCommand)> = Vec::new();
    let mut i: usize = 0;
    while i < v.len()
        invariant
            i <= v@.len(),
            r@.len() == i,
            forall|j: int|
                0 <= j < i ==> (#[trigger] r@[j]).0 == v@[j].0 && same_command(r@[j].1, v@[j].1),
        decreases v@.len() - i,
    {
        r.push((v[i].0, v[i].1.copy()));
        i += 1;
    }
    r
}

fn copy_specs(v: &Vec<(String, WmCommand)>) -> (r: Vec<(String, WmCommand)>)
    ensures
        same_specs(r@, v@),
{
    let mut r: Vec<(String, WmCommand)> = Vec::new();
    let mut i: usize = 0;
    while i < v.len()
        invariant
            i <= v@.len(),
            r@.len() == i,
            forall|j: int|
                0 <= j < i ==> (#[trigger] r@[j]).0@ == v@[j].0@ && same_command(r@[j].1, v@[j].1),
        decreases v@.len() - i,
    {
        r.push((v[i].0.clone(), v[i].1.copy()));
        i += 1;
    }
    r
}

impl Config {
    /// The same configuration once more.
    pub fn copy(&self) -> (r: Config)
        ensures
            same_config(r, *self),
    {
        let s: &Settings = &self.settings;
        let v: &VirtualWorkspaceSettings = &self.virtual_workspaces;
        Config {
            settings: Settings {
                animate: s.animate,
                animation_duration: s.animation_duration,
                animation_fps: s.animation_fps,
                default_disable: s.default_disable,
                mouse_follows_focus: s.mouse_follows_focus,
                mouse_hides_on_focus: s.mouse_hides_on_focus,
                focus_follows_mouse: s.focus_follows_mouse,
                stack_line_enabled: s.stack_line_enabled,
                mission_control_enabled: s.mission_control_enabled,
                auto_focus_blacklist: copy_texts(&s.auto_focus_blacklist),
            },
            virtual_workspaces: VirtualWorkspaceSettings {
                reapply_app_rules_on_title_change: v.reapply_app_rules_on_title_change,
                workspace_auto_back_and_forth: v.workspace_auto_back_and_forth,
                display_order: copy_texts(&v.display_order),
            },
            keys: copy_keys(&self.keys),
            key_specs: copy_specs(&self.key_specs),
        }
    }
}

} // verus!
