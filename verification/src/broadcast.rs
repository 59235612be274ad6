//! What subscribers are told.

use vstd::prelude::*;

use crate::app::WindowId;
use crate::ids::SpaceId;
use crate::model::{LayoutKind, WorkspaceId};

verus! {

/// A stack of windows, by their debug strings.
pub struct StackInfo {
    pub container_kind: LayoutKind,
    pub total_count: usize,
    pub selected_index: usize,
    pub windows: Vec<String>,
}

/// A workspace's layout as subscribers see it.
pub struct LayoutState {
    pub mode: String,
    pub tiled_windows: Vec<WindowId>,
    pub floating_windows: Vec<WindowId>,
    pub focused_window: Option<WindowId>,
}

pub enum BroadcastEvent {
    WorkspaceChanged {
        space_id: SpaceId,
        workspace_id: WorkspaceId,
        workspace_name: String,
        display_uuid: Option<String>,
    },
    WindowsChanged {
        workspace_id: WorkspaceId,
        workspace_name: String,
        windows: Vec<String>,
        space_id: SpaceId,
        display_uuid: Option<String>,
    },
    LayoutChanged {
        workspace_id: WorkspaceId,
        workspace_index: Option<u64>,
        workspace_name: String,
        layout: LayoutState,
        space_id: SpaceId,
        display_uuid: Option<String>,
    },
    WindowTitleChanged {
        window_id: WindowId,
        workspace_id: WorkspaceId,
        workspace_index: Option<u64>,
        workspace_name: String,
        previous_title: String,
        new_title: String,
        space_id: SpaceId,
        display_uuid: Option<String>,
    },
    StacksChanged {
        workspace_id: WorkspaceId,
        workspace_index: Option<u64>,
        workspace_name: String,
        stacks: Vec<StackInfo>,
        active_workspace_has_fullscreen: bool,
        space_id: SpaceId,
        display_uuid: Option<String>,
    },
}

} // verus!
