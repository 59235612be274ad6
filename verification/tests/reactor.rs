//! The reactor with a small workspace model and simulated applications.

use std::collections::BTreeMap;
use std::rc::Rc;

use lift::app::{Quiet, Request, WindowId};
use lift::broadcast::{BroadcastEvent, LayoutState};
use lift::collections::{IdMap, IdSet};
use lift::config::{Config, Settings, VirtualWorkspaceSettings};
use lift::event::{
    AppInfo, Command, Direction, DisplaySelector, Event, LayoutCommand, MouseState,
    ReactorCommand, Requested, ScreenInfo, TracedInput, UserInputTrace, WindowInfo,
    WindowServerInfo,
};
use lift::event_tap::{Hotkey, KeyCode, Modifiers};
use lift::geometry::{Point, Rect, Size, GRID};
use lift::ids::{SpaceId, TransactionId, WindowServerId};
use lift::model::{
    Axis, CoreCommand, CoreDisplay, CoreError, CoreGroup, CoreSnapshot, CoreWindow, CoreWorkspace,
    DomainEvent, DragSnapshot, Effect, EventResponse, GroupId, Transition, WindowCommand,
    WorkspaceCommand, WorkspaceId, WorkspaceNumber,
};
use lift::reactor::classify::lifecycle_activation_suppression;
use lift::reactor::diagnostics::{DiagnosticNote, MoveResult};
use lift::reactor::dispatch::Reconfiguration;
use lift::reactor::events::app::AppEventHandler;
use lift::reactor::events::command::CommandEventHandler;
use lift::reactor::events::display_command::ExitStep;
use lift::reactor::events::drag::DragEventHandler;
use lift::reactor::events::error_text::{command_text, index_error_text};
use lift::reactor::events::hover::Stacking;
use lift::reactor::events::space::SpaceEventHandler;
use lift::reactor::events::window::WindowEventHandler;
use lift::reactor::events::window_discovery::{Sightings, WindowDiscoveryHandler};
use lift::reactor::instant_layout::update_layout;
use lift::reactor::layout::DisplayLayout;
use lift::reactor::layout_response::untracked_window_is_focusable;
use lift::reactor::managers::{MenuState, RefocusState, WorkspaceSwitchOrigin};
use lift::reactor::observation::PlatformObservation;
use lift::reactor::screens::{
    best_space_for_frame, closest_screen_to_point, screen_for_direction_from_point,
    screen_for_point, screen_for_uuid, screens_in_physical_order,
};
use lift::reactor::spaces::number_for_slot;
use lift::reactor::surroundings::Surroundings;
use lift::reactor::task::{
    CoreInput, LayoutEvent, Message, PolicyNote, Question, RaiseRequest, RuleDecision,
    SpaceActivationConfig, Task, Work,
};
use lift::reactor::transactions::TransactionManager;
use lift::reactor::transition::{layout_response_for_transition, response_for_effects};
use lift::reactor::Reactor;
use lift::wm_controller::WmCommand;

fn points(v: f64) -> i64 {
    (v * GRID as f64) as i64
}

fn point(x: f64, y: f64) -> Point {
    Point { x: points(x), y: points(y) }
}

fn rect(x: f64, y: f64, width: f64, height: f64) -> Rect {
    Rect {
        origin: point(x, y),
        size: Size { width: points(width), height: points(height) },
    }
}

fn screen(x: f64) -> Rect {
    rect(x, 0.0, 1000.0, 1000.0)
}

// ---------------------------------------------------------------------------
// A workspace model with one row or column of windows per workspace.

#[derive(Clone, Debug)]
struct DeskDisplay {
    id: String,
    frame: Rect,
    space: Option<SpaceId>,
    active: Option<WorkspaceId>,
    last: Option<WorkspaceId>,
}

#[derive(Clone, Debug)]
struct DeskWorkspace {
    id: WorkspaceId,
    number: Option<u8>,
    name: String,
    display: String,
    tiled: Vec<WindowId>,
    last_tiled: Option<WindowId>,
    vertical: bool,
    /// How wide the first window is, where that was set by hand.
    first_width: Option<i64>,
}

#[derive(Clone, Debug)]
struct DeskWindow {
    id: WindowId,
    frame: Rect,
    workspace: WorkspaceId,
    minimized: bool,
    fullscreen: bool,
}

#[derive(Clone, Debug)]
struct Rule {
    app_id: String,
    workspace: u8,
    focus: bool,
}

#[derive(Default)]
struct Desk {
    displays: Vec<DeskDisplay>,
    workspaces: Vec<DeskWorkspace>,
    windows: Vec<DeskWindow>,
    focused: Option<WindowId>,
    active_display: Option<String>,
    last_id: u64,
    rules: Vec<Rule>,
    dragged: Option<(WindowId, Rect)>,
    mission_control: bool,
}

const NUMBERS: [u8; 10] = [1, 2, 3, 4, 5, 6, 7, 8, 9, 0];

impl Desk {
    fn snapshot(&self) -> CoreSnapshot {
        CoreSnapshot {
            displays: self
                .displays
                .iter()
                .map(|d| CoreDisplay {
                    id: d.id.clone(),
                    frame: d.frame,
                    space: d.space,
                    is_active_context: self.active_display.as_ref() == Some(&d.id),
                    active_workspace: d.active,
                    last_workspace: d.last,
                })
                .collect(),
            workspaces: self
                .workspaces
                .iter()
                .map(|w| {
                    let mut layout_frames = IdMap::new();
                    if let Some(display) = self.displays.iter().find(|d| d.id == w.display) {
                        for (wid, frame) in self.frames_on(w, display) {
                            layout_frames.insert(wid, frame);
                        }
                    }
                    CoreWorkspace {
                        id: w.id,
                        number: w.number.and_then(WorkspaceNumber::try_from),
                        name: w.name.clone(),
                        display: w.display.clone(),
                        groups: w
                            .tiled
                            .iter()
                            .enumerate()
                            .map(|(i, wid)| CoreGroup {
                                id: GroupId(w.id.0 * 100 + i as u64),
                                axis: Axis::Horizontal,
                                windows: vec![*wid],
                                selected: 0,
                            })
                            .collect(),
                        floating_windows: vec![],
                        last_tiled_window: w
                            .last_tiled
                            .filter(|t| w.tiled.contains(t))
                            .or(w.tiled.last().copied()),
                        last_floating_window: None,
                        layout_frames,
                    }
                })
                .collect(),
            windows: self
                .windows
                .iter()
                .map(|w| CoreWindow {
                    id: w.id,
                    workspace: Some(w.workspace),
                    frame: w.frame,
                    floating: false,
                    minimized: w.minimized,
                    fullscreen: w.fullscreen,
                })
                .collect(),
            focused_window: self.focused,
            drag: DragSnapshot {
                window: self.dragged.map(|(w, _)| w),
                target: None,
                origin_frame: self.dragged.map(|(_, f)| f),
            },
            mission_control_active: self.mission_control,
            ..CoreSnapshot::default()
        }
    }

    fn transition(&self, effects: Vec<Effect>, events: Vec<DomainEvent>) -> Transition {
        Transition { effects, events, snapshot: self.snapshot() }
    }

    fn workspace(&self, id: WorkspaceId) -> &DeskWorkspace {
        self.workspaces.iter().find(|w| w.id == id).unwrap()
    }

    fn workspace_mut(&mut self, id: WorkspaceId) -> &mut DeskWorkspace {
        self.workspaces.iter_mut().find(|w| w.id == id).unwrap()
    }

    fn workspace_of(&self, window: WindowId) -> Option<WorkspaceId> {
        self.windows.iter().find(|w| w.id == window).map(|w| w.workspace)
    }

    fn create(&mut self, display: &str, number: Option<u8>) -> WorkspaceId {
        self.last_id += 1;
        let id = WorkspaceId(self.last_id);
        let name = match number {
            Some(n) => format!("Workspace {n}"),
            None => "Hidden".to_string(),
        };
        self.workspaces.push(DeskWorkspace {
            id,
            number,
            name,
            display: display.to_string(),
            tiled: vec![],
            last_tiled: None,
            vertical: false,
            first_width: None,
        });
        id
    }

    fn free_number(&self) -> u8 {
        *NUMBERS
            .iter()
            .find(|n| !self.workspaces.iter().any(|w| w.number == Some(**n)))
            .unwrap()
    }

    fn observe_displays(&mut self, displays: Vec<(String, Rect, Option<SpaceId>)>) {
        let before = std::mem::take(&mut self.displays);
        for (id, frame, space) in displays {
            let known = before.iter().find(|d| d.id == id);
            let (active, last) = match known {
                Some(d) => (d.active, d.last),
                None => {
                    let number = self.free_number();
                    (Some(self.create(&id, Some(number))), None)
                }
            };
            self.displays.push(DeskDisplay { id, frame, space, active, last });
        }
        if let Some(first) = self.displays.first().map(|d| d.id.clone()) {
            let left: Vec<String> = self.displays.iter().map(|d| d.id.clone()).collect();
            for w in &mut self.workspaces {
                if !left.contains(&w.display) {
                    w.display = first.clone();
                }
            }
        }
    }

    fn observe(&mut self, o: PlatformObservation) -> Result<Transition, CoreError> {
        if o.displays.is_empty() {
            return Err(CoreError::IncompleteObservation("no displays".to_string()));
        }
        self.observe_displays(o.displays.into_iter().map(|d| (d.id, d.frame, d.space)).collect());
        self.active_display = o.active_display;
        self.windows.retain(|w| o.windows.iter().any(|x| x.id == w.id));
        for w in o.windows {
            let known = self.windows.iter().position(|x| x.id == w.id);
            match known {
                Some(i) => {
                    self.note_resize(w.id, self.windows[i].frame, w.frame);
                    self.windows[i].frame = w.frame;
                    self.windows[i].minimized = w.minimized;
                    if w.minimized {
                        self.windows[i].fullscreen = false;
                    }
                }
                None => {
                    let rule = self
                        .rules
                        .iter()
                        .find(|r| w.app_id.as_ref() == Some(&r.app_id))
                        .map(|r| r.workspace);
                    let display = w
                        .display
                        .clone()
                        .or(self.active_display.clone())
                        .unwrap_or(self.displays[0].id.clone());
                    let workspace = match rule {
                        Some(number) => self.numbered(number, &display),
                        None => self
                            .displays
                            .iter()
                            .find(|d| d.id == display)
                            .and_then(|d| d.active)
                            .unwrap(),
                    };
                    self.windows.push(DeskWindow {
                        id: w.id,
                        frame: w.frame,
                        workspace,
                        minimized: w.minimized,
                        fullscreen: w.fullscreen,
                    });
                }
            }
        }
        self.retile();
        if let Some(f) = o.focused_window {
            self.focus(f);
        } else if let Some(f) = self.focused {
            if !self.windows.iter().any(|w| w.id == f && !w.minimized) {
                self.focused = None;
            }
        }
        Ok(self.transition(vec![], vec![]))
    }

    /// Brings the rows of windows up to date with where windows belong.
    fn retile(&mut self) {
        let windows = self.windows.clone();
        for ws in &mut self.workspaces {
            let before = ws.tiled.clone();
            ws.tiled.retain(|t| {
                windows.iter().any(|w| w.id == *t && w.workspace == ws.id && !w.minimized)
            });
            for w in &windows {
                if w.workspace == ws.id && !w.minimized && !ws.tiled.contains(&w.id) {
                    ws.tiled.push(w.id);
                }
            }
            if ws.tiled != before {
                ws.first_width = None;
            }
        }
    }

    fn focus(&mut self, window: WindowId) {
        self.focused = Some(window);
        if let Some(ws) = self.workspace_of(window) {
            self.workspace_mut(ws).last_tiled = Some(window);
        }
    }

    fn numbered(&mut self, number: u8, display: &str) -> WorkspaceId {
        match self.workspaces.iter().find(|w| w.number == Some(number)) {
            Some(w) => w.id,
            None => self.create(display, Some(number)),
        }
    }

    fn activate(&mut self, id: WorkspaceId) -> Transition {
        let display = self.workspace(id).display.clone();
        for d in &mut self.displays {
            if d.id == display && d.active != Some(id) {
                d.last = d.active;
                d.active = Some(id);
            }
        }
        self.active_display = Some(display);
        self.transition(vec![], vec![DomainEvent::WorkspaceChanged { workspace: id }])
    }

    fn move_to(&mut self, window: WindowId, workspace: WorkspaceId) -> Transition {
        for w in &mut self.windows {
            if w.id == window {
                w.workspace = workspace;
            }
        }
        self.retile();
        self.transition(vec![], vec![])
    }

    fn display_of(&self, window: WindowId) -> Option<String> {
        self.workspace_of(window).map(|w| self.workspace(w).display.clone())
    }

    fn put(&mut self, input: CoreInput) -> Result<Transition, CoreError> {
        let refuse = |m: &str| Err(CoreError::InvalidCommand(m.to_string()));
        match input {
            CoreInput::FocusChanged(w) => {
                if self.windows.iter().any(|x| x.id == w) {
                    self.focus(w);
                }
                Ok(self.transition(vec![], vec![]))
            }
            CoreInput::MissionControl { active } => {
                self.mission_control = active;
                Ok(self.transition(vec![], vec![]))
            }
            CoreInput::DragUpdated { window, frame, .. } => {
                self.dragged = Some((window, frame));
                Ok(self.transition(vec![], vec![]))
            }
            CoreInput::DragCommitted(_) | CoreInput::DragCancelled => {
                self.dragged = None;
                Ok(self.transition(vec![], vec![]))
            }
            CoreInput::Command(CoreCommand::Window(c)) => match c {
                WindowCommand::Focus { direction, window } => {
                    match self.neighbour(window.or(self.focused), direction) {
                        Some(target) => {
                            self.focus(target);
                            self.active_display = self.display_of(target);
                            Ok(self.transition(vec![Effect::FocusWindow(target)], vec![]))
                        }
                        None => refuse("focus reached a boundary"),
                    }
                }
                WindowCommand::ToggleOrientation { window } => {
                    let ws = self.workspace_of(window.or(self.focused).unwrap()).unwrap();
                    let ws = self.workspace_mut(ws);
                    ws.vertical = !ws.vertical;
                    Ok(self.transition(vec![], vec![]))
                }
                WindowCommand::Move { direction, window } => {
                    let ws = self.workspace_of(window.or(self.focused).unwrap()).unwrap();
                    let ws = self.workspace_mut(ws);
                    ws.vertical = matches!(direction, Direction::Up | Direction::Down);
                    Ok(self.transition(vec![], vec![]))
                }
                WindowCommand::ToggleFullscreen { window, .. } => {
                    let wid = window.or(self.focused).unwrap();
                    for w in &mut self.windows {
                        if w.id == wid {
                            w.fullscreen = !w.fullscreen;
                        }
                    }
                    Ok(self.transition(vec![], vec![]))
                }
                WindowCommand::Activate { window } => {
                    self.focus(window);
                    Ok(self.transition(vec![Effect::FocusWindow(window)], vec![]))
                }
                _ => refuse("not simulated"),
            },
            CoreInput::Command(CoreCommand::Workspace(c)) => match c {
                WorkspaceCommand::Activate(n) => {
                    match self.workspaces.iter().find(|w| w.number == Some(n.get())) {
                        Some(w) => {
                            let id = w.id;
                            Ok(self.activate(id))
                        }
                        None => refuse("no such workspace"),
                    }
                }
                WorkspaceCommand::ActivateOrCreate { workspace, display } => {
                    let id = self.numbered(workspace.get(), &display);
                    Ok(self.activate(id))
                }
                WorkspaceCommand::Last { display } => {
                    match self.displays.iter().find(|d| d.id == display).and_then(|d| d.last) {
                        Some(id) => Ok(self.activate(id)),
                        None => refuse("no last workspace"),
                    }
                }
                WorkspaceCommand::MoveWindow { workspace, window } => {
                    let wid = match window.or(self.focused) {
                        Some(w) => w,
                        None => return refuse("no window"),
                    };
                    let display = self.display_of(wid).unwrap();
                    let id = self.numbered(workspace.get(), &display);
                    Ok(self.move_to(wid, id))
                }
                WorkspaceCommand::MoveWindowToHidden { window } => {
                    let wid = match window.or(self.focused) {
                        Some(w) => w,
                        None => return refuse("no window"),
                    };
                    let display = self.display_of(wid).unwrap();
                    let id = self.hidden(&display);
                    Ok(self.move_to(wid, id))
                }
                WorkspaceCommand::ToggleHidden { display } => {
                    let id = self.hidden(&display);
                    Ok(self.activate(id))
                }
                _ => refuse("not simulated"),
            },
            CoreInput::Command(CoreCommand::MoveWindowToDisplay { display, window }) => {
                let wid = match window.or(self.focused) {
                    Some(w) => w,
                    None => return refuse("no window"),
                };
                match self.displays.iter().find(|d| d.id == display).and_then(|d| d.active) {
                    Some(id) => Ok(self.move_to(wid, id)),
                    None => refuse("no such display"),
                }
            }
            CoreInput::Command(_) => refuse("not simulated"),
        }
    }

    fn hidden(&mut self, display: &str) -> WorkspaceId {
        match self.workspaces.iter().find(|w| w.number.is_none() && w.display == display) {
            Some(w) => w.id,
            None => self.create(display, None),
        }
    }

    /// The window next to another: in its row, or on the next display.
    fn neighbour(&self, source: Option<WindowId>, direction: Direction) -> Option<WindowId> {
        let ws = self.workspace(self.workspace_of(source?)?);
        let at = ws.tiled.iter().position(|w| Some(*w) == source)?;
        let step = |v: &Vec<WindowId>, at: usize| match direction {
            Direction::Left | Direction::Up => at.checked_sub(1).map(|i| v[i]),
            Direction::Right | Direction::Down => v.get(at + 1).copied(),
        };
        if let Some(w) = step(&ws.tiled, at) {
            return Some(w);
        }
        let here = self.displays.iter().find(|d| d.id == ws.display)?;
        let there = self.displays.iter().find(|d| match direction {
            Direction::Left => d.frame.origin.x < here.frame.origin.x,
            Direction::Right => d.frame.origin.x > here.frame.origin.x,
            _ => false,
        })?;
        let other = self.workspace(there.active?);
        match direction {
            Direction::Left => other.tiled.last().copied(),
            _ => other.tiled.first().copied(),
        }
    }

    fn frames_on(&self, ws: &DeskWorkspace, display: &DeskDisplay) -> Vec<(WindowId, Rect)> {
        let n = ws.tiled.len() as i64;
        let f = display.frame;
        let mut frames = vec![];
        let mut x = f.origin.x;
        for (i, wid) in ws.tiled.iter().enumerate() {
            let full = self.windows.iter().any(|w| w.id == *wid && w.fullscreen);
            let frame = if full {
                f
            } else if ws.vertical {
                let height = f.size.height / n;
                Rect {
                    origin: Point { x: f.origin.x, y: f.origin.y + height * i as i64 },
                    size: Size { width: f.size.width, height },
                }
            } else {
                let width = match (ws.first_width, i) {
                    (Some(w), 0) => w,
                    (Some(w), _) => (f.size.width - w) / (n - 1),
                    (None, _) => f.size.width / n,
                };
                let r = Rect {
                    origin: Point { x, y: f.origin.y },
                    size: Size { width, height: f.size.height },
                };
                x += width;
                r
            };
            frames.push((*wid, frame));
        }
        frames
    }

    /// Takes a width for the second window of two, if the window was in its
    /// place and is far from it now.
    fn note_resize(&mut self, window: WindowId, before: Rect, after: Rect) {
        if let Some(id) = self.workspace_of(window) {
            let ws = self.workspace(id);
            let display = self.displays.iter().find(|d| d.id == ws.display).unwrap();
            let width = display.frame.size.width;
            let in_place = self
                .frames_on(ws, display)
                .iter()
                .any(|(w, f)| *w == window && f.same_as(&before));
            let far = (after.size.width - before.size.width).abs() > points(10.0);
            let ws = self.workspace_mut(id);
            if in_place && far && ws.tiled.len() == 2 && ws.tiled[1] == window {
                ws.first_width = Some(width - after.size.width);
            }
        }
    }

    fn layout(&self) -> Vec<DisplayLayout> {
        self.displays
            .iter()
            .map(|d| {
                let mut frames = vec![];
                for ws in &self.workspaces {
                    if ws.display != d.id {
                        continue;
                    }
                    if d.active == Some(ws.id) {
                        frames.extend(self.frames_on(ws, d));
                    } else {
                        for wid in &ws.tiled {
                            let size =
                                self.windows.iter().find(|w| w.id == *wid).unwrap().frame.size;
                            let origin = Point {
                                x: d.frame.origin.x + d.frame.size.width - GRID,
                                y: d.frame.origin.y + d.frame.size.height - GRID,
                            };
                            frames.push((*wid, Rect { origin, size }));
                        }
                    }
                }
                DisplayLayout { display: d.id.clone(), frames }
            })
            .collect()
    }
}

// ---------------------------------------------------------------------------
// The reactor with everything around it.

#[derive(Clone, Copy, Debug)]
struct TestWindow {
    frame: Rect,
    last_seen: TransactionId,
    animating: bool,
    sys_id: WindowServerId,
}

struct Bench {
    reactor: Reactor,
    desk: Desk,
    now: u64,
    windows: BTreeMap<WindowId, TestWindow>,
    requests: Vec<Request>,
    raises: Vec<RaiseRequest>,
    broadcasts: Vec<BroadcastEvent>,
    /// Animations, each with whether it goes at once.
    animations: Vec<bool>,
    published: Rc<CoreSnapshot>,
    notes: Vec<DiagnosticNote>,
    policy: Vec<(SpaceActivationConfig, Vec<Option<String>>)>,
    refuses_config: bool,
    configured: Vec<Config>,
    told: Vec<Message>,
    published_layouts: Vec<LayoutState>,
}

/// What a question was answered with.
enum Answer {
    Nothing,
    Core(Result<Transition, CoreError>),
    Made(bool),
    Rules(Vec<RuleDecision>),
    Stacking(Stacking),
    Spaces(Vec<Option<SpaceId>>),
    Windows(Vec<WindowServerInfo>, IdSet<WindowServerId>),
    Pids(Vec<i32>),
    Sightings(Sightings),
    At(Option<WindowServerId>),
    Layout(Result<Transition, CoreError>, Vec<DisplayLayout>),
    Configured(Result<(), CoreError>),
}

impl Answer {
    fn reply(self) -> Result<Transition, CoreError> {
        match self {
            Answer::Core(reply) => reply,
            _ => panic!("the workspace model was not asked"),
        }
    }

    fn spaces(self) -> Vec<Option<SpaceId>> {
        match self {
            Answer::Spaces(s) => s,
            _ => panic!("no spaces were asked for"),
        }
    }

    fn windows(self) -> (Vec<WindowServerInfo>, IdSet<WindowServerId>) {
        match self {
            Answer::Windows(w, managed) => (w, managed),
            _ => panic!("no windows were asked for"),
        }
    }
}

fn config() -> Config {
    Config {
        settings: Settings {
            animate: false,
            animation_duration: 300,
            animation_fps: 100,
            default_disable: false,
            mouse_follows_focus: false,
            mouse_hides_on_focus: false,
            focus_follows_mouse: false,
            stack_line_enabled: false,
            mission_control_enabled: false,
            auto_focus_blacklist: vec![],
        },
        virtual_workspaces: VirtualWorkspaceSettings {
            reapply_app_rules_on_title_change: false,
            workspace_auto_back_and_forth: false,
            display_order: vec![],
        },
        keys: vec![],
        key_specs: vec![],
    }
}

fn make_screens(frames: &[Rect], spaces: &[Option<SpaceId>]) -> Vec<ScreenInfo> {
    assert_eq!(frames.len(), spaces.len());
    frames
        .iter()
        .zip(spaces)
        .enumerate()
        .map(|(idx, (frame, space))| ScreenInfo {
            id: idx as u32,
            frame: *frame,
            space: *space,
            display_uuid: format!("test-display-{idx}"),
            name: None,
        })
        .collect()
}

fn make_window(idx: usize) -> WindowInfo {
    WindowInfo {
        is_standard: true,
        is_root: true,
        is_minimized: false,
        is_resizable: true,
        min_size: None,
        max_size: None,
        title: format!("Window{idx}"),
        frame: rect(100.0 * idx as f64, 100.0, 50.0, 50.0),
        sys_id: Some(WindowServerId::new(idx as u32)),
        bundle_id: None,
        path: None,
        ax_role: None,
        ax_subrole: None,
    }
}

fn make_windows(count: usize) -> Vec<WindowInfo> {
    (1..=count).map(make_window).collect()
}

impl Bench {
    fn new() -> Bench {
        Bench {
            reactor: Reactor::new(config(), false),
            desk: Desk::default(),
            now: 1_000_000,
            windows: BTreeMap::new(),
            requests: vec![],
            raises: vec![],
            broadcasts: vec![],
            animations: vec![],
            published: Rc::new(CoreSnapshot::default()),
            notes: vec![],
            policy: vec![],
            refuses_config: false,
            configured: vec![],
            told: vec![],
            published_layouts: vec![],
        }
    }

    fn with_screens(frames: &[Rect], spaces: &[u64]) -> Bench {
        let mut bench = Bench::new();
        let spaces: Vec<Option<SpaceId>> = spaces.iter().map(|s| Some(SpaceId::new(*s))).collect();
        bench.event(Event::ScreenParametersChanged(make_screens(frames, &spaces)));
        bench
    }

    fn with_one_screen() -> Bench {
        Bench::with_screens(&[screen(0.0)], &[1])
    }

    fn with_two_windows(pid: i32, focused: WindowId) -> Bench {
        let mut bench = Bench::with_one_screen();
        bench.app(pid, make_windows(2), Some(focused), true);
        bench.event(Event::ApplicationGloballyActivated(pid));
        bench.settle();
        bench.raises.clear();
        bench
    }

    /// Launches an application.
    fn app(&mut self, pid: i32, windows: Vec<WindowInfo>, main: Option<WindowId>, front: bool) {
        let event = self.launch(pid, windows, main, front);
        self.event(event);
    }

    fn launch(
        &mut self,
        pid: i32,
        windows: Vec<WindowInfo>,
        main_window: Option<WindowId>,
        is_frontmost: bool,
    ) -> Event {
        let mut visible_windows = vec![];
        let mut window_server_info = vec![];
        for (i, mut info) in windows.into_iter().enumerate() {
            let wid = WindowId::new(pid, i as u32 + 1);
            let sys_id = WindowServerId::new(pid as u32 * 10_000 + i as u32 + 1);
            info.sys_id = Some(sys_id);
            window_server_info.push(WindowServerInfo {
                pid,
                id: sys_id,
                layer: 0,
                frame: info.frame,
                min_frame: Size { width: 0, height: 0 },
                max_frame: Size { width: 0, height: 0 },
            });
            self.windows.insert(
                wid,
                TestWindow {
                    frame: info.frame,
                    last_seen: TransactionId::default(),
                    animating: false,
                    sys_id,
                },
            );
            visible_windows.push((wid, info));
        }
        Event::ApplicationLaunched {
            pid,
            info: AppInfo {
                bundle_id: Some(format!("com.testapp{pid}")),
                localized_name: Some(format!("TestApp{pid}")),
            },
            is_frontmost,
            main_window,
            visible_windows,
            window_server_info,
        }
    }

    fn event(&mut self, event: Event) {
        let c = Reconfiguration { epoch: 1, flags: 0, completed_flags: 0 };
        let tasks = self.reactor.handle_event(event, c, self.now);
        self.run(tasks);
    }

    fn command(&mut self, command: LayoutCommand) {
        self.event(Event::Command(Command::Layout(command)));
    }

    fn respond(&mut self, focus_window: WindowId) {
        let response =
            EventResponse { focus_window: Some(focus_window), ..EventResponse::default() };
        self.run(vec![Task::Go(Work::Respond(response, None))]);
    }

    fn surroundings(&self) -> Surroundings {
        let mut user_spaces = IdSet::new();
        for s in &self.reactor.space_manager.screens {
            if let Some(space) = s.space {
                user_spaces.insert(space);
            }
        }
        Surroundings {
            now: self.now,
            cursor: None,
            window_under_cursor: None,
            active_space: self.reactor.space_manager.screens.first().and_then(|s| s.space),
            window_spaces: IdMap::new(),
            every_space: IdMap::new(),
            user_spaces,
            fullscreen_spaces: IdSet::new(),
            server_windows: IdMap::new(),
            mouse: None,
            display_epoch: 1,
        }
    }

    fn run(&mut self, tasks: Vec<Task>) {
        for task in tasks {
            let next = match task {
                Task::Tell(message) => self.tell(message),
                Task::Ask(question, work) => {
                    let answer = self.answer(question);
                    self.perform(work, answer)
                }
                Task::Go(work) => self.perform(work, Answer::Nothing),
            };
            self.run(next);
        }
    }

    fn tell(&mut self, message: Message) -> Vec<Task> {
        match message {
            Message::App(_, request) => self.requests.push(request),
            Message::Broadcast(event) => self.broadcasts.push(event),
            Message::Raise(request) => self.raises.push(request),
            Message::Animate { animation, at_once } => {
                self.animations.push(at_once);
                for w in &animation.windows {
                    self.requests.push(Request::SetWindowFrame(w.wid, w.finish, w.txid, true));
                }
            }
            Message::Requeue(event) => self.event(event),
            Message::Diagnostics(note) => self.notes.push(note),
            message => self.told.push(message),
        }
        vec![]
    }

    fn observe(&mut self) -> Result<Transition, CoreError> {
        let sur = self.surroundings();
        let o = self.reactor.platform_observation(&sur);
        self.desk.observe(o)
    }

    fn wsids(&self) -> IdSet<WindowServerId> {
        let mut ids = IdSet::new();
        for w in self.windows.values() {
            ids.insert(w.sys_id);
        }
        ids
    }

    fn answer(&mut self, question: Question) -> Answer {
        match question {
            Question::Core(input) => {
                Answer::Core(self.desk.put(input))
            }
            Question::Observe => Answer::Core(self.observe()),
            Question::KeyWindow { .. } => Answer::Made(false),
            Question::Raise(request) => {
                self.raises.push(request);
                Answer::Made(true)
            }
            Question::Rules(windows) => Answer::Rules(
                windows
                    .iter()
                    .map(|w| {
                        let identity = self.reactor.window_identity(*w);
                        let focus = self
                            .desk
                            .rules
                            .iter()
                            .any(|r| identity.app_id == Some(&r.app_id) && r.focus);
                        RuleDecision::Managed { focus }
                    })
                    .collect(),
            ),
            Question::Stacking(_) => {
                Answer::Stacking(Stacking { order: vec![], levels: IdMap::new() })
            }
            Question::ActiveSpaces { config, spaces, displays } => {
                self.policy.push((config, displays));
                Answer::Spaces(spaces)
            }
            Question::Configure(config) => {
                if self.refuses_config {
                    Answer::Configured(Err(CoreError::InvalidCommand("no".to_string())))
                } else {
                    self.configured.push(config);
                    Answer::Configured(Ok(()))
                }
            }
            Question::VisibleWindows => {
                let infos = self
                    .windows
                    .iter()
                    .map(|(wid, w)| WindowServerInfo {
                        pid: wid.pid,
                        id: w.sys_id,
                        layer: 0,
                        frame: w.frame,
                        min_frame: Size { width: 0, height: 0 },
                        max_frame: Size { width: 0, height: 0 },
                    })
                    .collect();
                Answer::Windows(infos, self.wsids())
            }
            Question::RefreshApps(pids) => {
                for _ in &pids {
                    self.requests.push(Request::GetVisibleWindows);
                }
                Answer::Pids(pids)
            }
            Question::CurrentSpaces => Answer::Spaces(
                self.reactor.space_manager.screens.iter().map(|s| s.space).collect(),
            ),
            Question::Sightings => Answer::Sightings(Sightings {
                on_managed: self.wsids(),
                suitable: self.wsids(),
                ordered_in: self.wsids(),
            }),
            Question::WindowAt(_) => Answer::At(None),
            Question::Layout => {
                let reply = self.observe();
                Answer::Layout(reply, self.desk.layout())
            }
        }
    }

    fn perform(&mut self, work: Work, answer: Answer) -> Vec<Task> {
        let sur = self.surroundings();
        let now = self.now;
        let r = &mut self.reactor;
        match work {
            Work::Done => {
                if let Answer::Core(reply) = answer {
                    r.core_replied(reply);
                }
                vec![]
            }
            Work::LayoutEvent(event) => Reactor::send_layout_event(event),
            Work::LayoutEventObserved(event) => {
                r.core_replied(answer.reply());
                r.layout_event_observed(event)
            }
            Work::Respond(response, space) => r.respond(response, space, &sur),
            Work::RespondNothing(space) => r.respond(EventResponse::default(), space, &sur),
            Work::KeyWindowTried(response, space) => {
                let made = matches!(answer, Answer::Made(true));
                r.handle_layout_response(response, space, made, &sur)
            }
            Work::RaiseSent { quiet, focus } => {
                if matches!(answer, Answer::Made(true)) {
                    r.raise_sent(quiet, focus, now);
                }
                vec![]
            }
            Work::UpdateLayout { is_resize, is_workspace_switch } => {
                update_layout(is_resize, is_workspace_switch)
            }
            Work::ApplyLayout { is_resize, is_workspace_switch } => match answer {
                Answer::Layout(reply, displays) => {
                    let layouts = r.calculate_layout(reply, &displays);
                    r.apply_layout(layouts, is_resize, is_workspace_switch)
                }
                _ => panic!("no layout was asked for"),
            },
            Work::LayoutSpace { space, frames, is_resize, instant, skip } => {
                r.layout_space(space, &frames, is_resize, instant, skip, false)
            }
            Work::RecomputeSpaces => r.recompute_from_current_screens(),
            Work::LayoutCommand(c) => CommandEventHandler::handle_command_layout(r, c, &sur),
            Work::ReactorCommand(c) => CommandEventHandler::handle_command_reactor(c),
            Work::WorkspaceCommand { command, space } => {
                CommandEventHandler::workspace_command_due(r, command, space)
            }
            Work::WorkspaceCommanded { is_switch, space } => {
                CommandEventHandler::workspace_commanded(r, answer.reply(), is_switch, space)
            }
            Work::CurrentWindowMoved { window, layout_focus, noted } => {
                CommandEventHandler::current_window_moved(
                    r,
                    answer.reply(),
                    window,
                    layout_focus,
                    noted,
                    &sur,
                )
            }
            Work::NoteMoveAccepted(window) => r.note_move_accepted(window),
            Work::WindowMoved { window } => {
                CommandEventHandler::window_moved(r, answer.reply(), window, now)
            }
            Work::RememberTarget(window) => {
                r.remember_recent_workspace_target(window, now);
                vec![]
            }
            Work::LayoutCommanded { direction } => {
                CommandEventHandler::layout_commanded(r, answer.reply(), direction)
            }
            Work::SwitchToGlobalSlot(slot) => {
                CommandEventHandler::handle_command_switch_to_global_slot(r, slot, &sur)
            }
            Work::SlotSwitched { space } => {
                CommandEventHandler::slot_switched(r, answer.reply(), space)
            }
            Work::RaiseFocused { window, follow } => r.raise_focused(window, follow),
            Work::ToggleSpaceActivated => {
                CommandEventHandler::handle_command_reactor_toggle_space_activated(r, &sur)
            }
            Work::FocusWindow { window, window_server_id } => {
                CommandEventHandler::handle_command_reactor_focus_window(
                    r,
                    window,
                    window_server_id,
                    &sur,
                )
            }
            Work::FocusAccepted { window } => {
                CommandEventHandler::focus_accepted(r, answer.reply(), window)
            }
            Work::FocusNextWindow => {
                r.request_focus_next_window(&sur);
                vec![]
            }
            Work::CancelFocusNextWindow => {
                r.cancel_focus_next_window();
                vec![]
            }
            Work::MoveMouseToDisplay(selector) => {
                CommandEventHandler::handle_command_reactor_move_mouse_to_display(
                    r, &selector, &sur,
                )
            }
            Work::FocusDisplay(selector) => {
                CommandEventHandler::handle_command_reactor_focus_display(r, &selector, &sur)
            }
            Work::MoveWindowToDisplay { selector, window_id } => {
                CommandEventHandler::handle_command_reactor_move_window_to_display(
                    r, &selector, window_id, &sur,
                )
            }
            Work::MovedToDisplay { window } => {
                CommandEventHandler::moved_to_display(r, answer.reply(), window, now)
            }
            Work::CloseWindow { window_server_id } => {
                CommandEventHandler::handle_command_reactor_close_window(r, window_server_id, &sur)
            }
            Work::CloseReplied { window } => {
                CommandEventHandler::close_replied(r, answer.reply(), window)
            }
            Work::ExitReplied => vec![],
            Work::MissionControlCommanded(c) => {
                CommandEventHandler::mission_control_commanded(r, answer.reply(), c)
            }
            Work::MissionControlObserved => r.mission_control_observed(answer.reply()),
            Work::Activation { pid, global } => r.handle_activation(pid, global, now),
            Work::AuxiliaryMoved { pid, global } => r.auxiliary_moved(answer.reply(), pid, global),
            Work::Activated { pid, global } => r.handle_plain_activation(pid, global, &sur),
            Work::AutoSwitched { window, space } => {
                r.auto_switched(answer.reply(), window, space)
            }
            Work::RulesDecided(windows) => match answer {
                Answer::Rules(decisions) => r.rules_decided(windows, decisions),
                _ => panic!("no rules were asked for"),
            },
            Work::RulesObserved { windows, focus } => {
                let reply = answer.reply();
                let accepted = reply.is_ok();
                r.core_replied(reply);
                Reactor::rules_observed(accepted, windows, focus)
            }
            Work::RuleTarget(window) => r.apply_rule_target(window, now),
            Work::FocusRuleWindow(window) => r.focus_new_rule_window(window, &sur),
            Work::AwaitedWindow { windows } => Reactor::consume_focus_next_window_from(windows),
            Work::AwaitedWindowObserved { window, rest } => {
                let reply = answer.reply();
                let accepted = reply.is_ok();
                r.core_replied(reply);
                r.awaited_window_observed(accepted, window, rest, &sur)
            }
            Work::AwaitedWindowMoved { window, rest } => {
                r.awaited_window_moved(answer.reply(), window, rest, &sur)
            }
            Work::SwapOnDrag { window, frame } => r.maybe_swap_on_drag(window, frame, &sur),
            Work::DragUpdated { window } => {
                r.drag_updated(answer.reply(), window);
                vec![]
            }
            Work::MouseUp => DragEventHandler::handle_mouse_up(r),
            Work::DragCommitted { pending } => {
                DragEventHandler::drag_committed(r, answer.reply(), pending)
            }
            Work::DragReleased { pending } => DragEventHandler::drag_released(r, pending, &sur),
            Work::AssignToSpace { window, space } => r.assign_to_space(window, space),
            Work::AssignedToSpace { window, space, workspace } => {
                r.assigned_to_space(answer.reply(), window, space, workspace, now);
                vec![]
            }
            Work::DragLayout { needed } => DragEventHandler::drag_layout(r, needed),
            Work::ClearSkippedWindow => {
                DragEventHandler::clear_skipped_window(r);
                vec![]
            }
            Work::MouseUpIfNeeded => WindowEventHandler::handle_mouse_up_if_needed(r),
            Work::AddedInSpace { window, space } => {
                r.maybe_dispatch_window_added_in_space(window, space)
            }
            Work::WindowGone(window) => WindowEventHandler::window_gone(r, window),
            Work::MouseOver(wsid) => match answer {
                Answer::Stacking(stacking) => {
                    WindowEventHandler::handle_mouse_moved_over_window(r, wsid, &stacking, &sur)
                }
                _ => panic!("no stacking was asked for"),
            },
            Work::RestoreFromFullscreen(space) => r.restore_from_fullscreen(space),
            Work::RestoreWindow { window, space } => r.restore_window(window, space, &sur),
            Work::RefocusOn(space) => {
                r.refocus_on(space);
                vec![]
            }
            Work::UpdateFocusFollowsMouse => vec![r.update_focus_follows_mouse_state()],
            Work::ActiveSpacesKnown => r.active_spaces_known(&answer.spaces()),
            Work::ServerSnapshot => {
                let (infos, managed) = answer.windows();
                r.server_snapshot(&infos, &managed);
                vec![]
            }
            Work::CheckForNewWindows => r.check_for_new_windows(),
            Work::CheckUnlessRelayout => r.check_unless_relayout(),
            Work::ForceRefresh => r.force_refresh_all_windows(),
            Work::AppsRefreshed => match answer {
                Answer::Pids(pids) => {
                    r.apps_refreshed(&pids);
                    vec![]
                }
                _ => panic!("no applications were asked"),
            },
            Work::RulesForSpaces(spaces) => {
                r.apply_app_rules_for_activated_spaces(&spaces, &sur)
            }
            Work::FocusMainWindow => r.focus_main_window(&sur),
            Work::AnnounceWorkspace(spaces) => r.announce_workspace(&spaces),
            Work::SnapshotAppeared { info, space } => {
                SpaceEventHandler::handle_window_server_snapshot_appeared(r, info, space, &sur)
            }
            Work::ServerWindowDestroyed { window, space } => {
                SpaceEventHandler::handle_window_server_destroyed(r, window, space, &sur)
            }
            Work::NothingInSight => {
                SpaceEventHandler::nothing_in_sight(r);
                vec![]
            }
            Work::ExposeResized(spaces) => SpaceEventHandler::expose_resized(r, &spaces),
            Work::ShowSpaces(spaces) => SpaceEventHandler::show_spaces(r, spaces),
            Work::SpacesShown(spaces) => r.finalize_space_change(spaces),
            Work::SpaceChangeDue(spaces) => SpaceEventHandler::space_change_due(r, spaces),
            Work::ApplyPendingSpaceChange => {
                SpaceEventHandler::apply_pending_space_change(r, &sur)
            }
            Work::CommitTopologyIfReady => r.maybe_commit_display_topology_snapshot(),
            Work::CommitTopology => {
                let (infos, managed) = answer.windows();
                r.reconcile_windows_after_topology_commit(&infos, &managed, &sur)
            }
            Work::TopologyCommitted => {
                r.topology_committed();
                vec![]
            }
            Work::ArmRelayout => {
                SpaceEventHandler::arm_relayout(r);
                vec![]
            }
            Work::RelayoutIfPending => SpaceEventHandler::relayout_if_pending(r),
            Work::RepairSpaces => SpaceEventHandler::repair_spaces_after_mission_control(r),
            Work::CurrentSpacesKnown => {
                SpaceEventHandler::current_spaces_known(r, &answer.spaces())
            }
            Work::RefreshAfterMissionControl => {
                SpaceEventHandler::refresh_windows_after_mission_control(&sur)
            }
            Work::MissionControlWindows => {
                let (infos, _) = answer.windows();
                SpaceEventHandler::mission_control_windows(r, &infos)
            }
            Work::Discovered { pid, new, known_visible } => match answer {
                Answer::Sightings(sightings) => WindowDiscoveryHandler::windows_discovered(
                    r,
                    pid,
                    &new,
                    known_visible,
                    &sightings,
                    &sur,
                ),
                _ => panic!("no sightings were asked for"),
            },
            Work::StaleWindow(window) => {
                let c = Reconfiguration { epoch: 1, flags: 0, completed_flags: 0 };
                r.handle_event(Event::WindowDestroyed(window), c, now)
            }
            Work::SyncWindow { window, info } => {
                WindowDiscoveryHandler::sync_existing_window_state(r, window, &info)
            }
            Work::MapWindow { window, window_server_id } => {
                WindowDiscoveryHandler::map_window(r, window, window_server_id);
                vec![]
            }
            Work::InsertWindow { window, info } => {
                WindowDiscoveryHandler::insert_window(r, window, &info);
                vec![]
            }
            Work::WindowMinimized(window) => {
                WindowEventHandler::handle_window_minimized(r, window, &sur)
            }
            Work::WindowDeminiaturized(window) => {
                WindowEventHandler::handle_window_deminiaturized(r, window, &sur)
            }
            Work::EmitDiscovered { pid, known_visible } => {
                r.emit_layout_events(pid, &known_visible, &sur)
            }
            Work::FocusMainIfManaged => r.focus_main_if_managed(&sur),
            Work::AppLaunched { pid, info, visible_windows, window_server_info } => {
                AppEventHandler::handle_application_launched(
                    r,
                    pid,
                    info,
                    visible_windows,
                    &window_server_info,
                )
            }
            Work::AppTerminated(pid) => AppEventHandler::handle_application_terminated(r, pid),
            Work::AppThreadTerminated(pid) => {
                AppEventHandler::handle_application_thread_terminated(r, pid)
            }
            Work::ResyncApp(wsid) => AppEventHandler::handle_resync_app_for_window(r, wsid, &sur),
            Work::CloseMenuOf(pid) => r.clear_menu_state_for_pid(pid),
            Work::CloseMenuOfOthers(pid) => r.clear_menu_state_for_non_owner(pid),
            Work::SetLoginWindow(active) => r.set_login_window_active(active),
            Work::WindowCreated { window, info, server_info } => {
                WindowEventHandler::handle_window_created(r, window, info, server_info, &sur)
            }
            Work::WindowDestroyed(window) => {
                WindowEventHandler::handle_window_destroyed(r, window, &sur)
            }
            Work::ServerWindowAppeared { window, space } => {
                SpaceEventHandler::handle_window_server_appeared(r, window, space, &sur)
            }
            Work::FrameChanged { window, frame, last_seen, requested, mouse } => {
                WindowEventHandler::handle_window_frame_changed(
                    r, window, frame, last_seen, requested, mouse, &sur,
                )
            }
            Work::TitleChanged { window, title } => {
                WindowEventHandler::handle_window_title_changed(r, window, title, &sur)
            }
            Work::ScreensChanged(screens) => {
                SpaceEventHandler::handle_screen_parameters_changed(r, screens, &sur)
            }
            Work::SpacesChanged(spaces) => {
                SpaceEventHandler::handle_space_changed(r, spaces, &sur)
            }
            Work::MouseDown { info, point } => {
                r.capture_auxiliary_window_workspace_target(info, point, &sur);
                vec![]
            }
            Work::FocusUnderCursor => r.focus_under_cursor(&sur),
            Work::MouseAt => match answer {
                Answer::At(found) => r.mouse_at(found, &sur),
                _ => panic!("no window was asked for"),
            },
            Work::MenuOpened(pid) => r.handle_menu_opened(pid),
            Work::MenuClosed(_) => r.handle_menu_closed(),
            Work::MissionControlEntered => {
                SpaceEventHandler::handle_mission_control_native_entered(r)
            }
            Work::MissionControlExited => {
                SpaceEventHandler::handle_mission_control_native_exited(r)
            }
            Work::ConfigUpdated(config) => CommandEventHandler::handle_config_updated(r, config),
            Work::Configured(config) => match answer {
                Answer::Configured(reply) => CommandEventHandler::configured(r, reply, config),
                _ => panic!("no configuration was put to the model"),
            },
            Work::Command(c) => CommandEventHandler::handle_command(c),
            Work::RegisterWm => {
                r.handle_register_wm_sender();
                vec![]
            }
            Work::Finalize { outer } => r.finalize_event_processing(outer, &sur),
            Work::FinalizeLayout => r.finalize_layout(),
            Work::FinalizeRest { outer } => r.finalize_rest(outer),
            Work::Publish => {
                if answer.reply().is_ok() {
                    self.publish();
                }
                vec![]
            }
        }
    }

    /// What subscribers see of each display's layout.
    fn layout_states(&self) -> Vec<LayoutState> {
        self.desk
            .displays
            .iter()
            .map(|d| LayoutState {
                mode: "bsp".to_string(),
                tiled_windows: d
                    .active
                    .map(|id| self.desk.workspace(id).tiled.clone())
                    .unwrap_or_default(),
                floating_windows: vec![],
                focused_window: self.desk.focused,
            })
            .collect()
    }

    /// Shows readers how things are.
    fn publish(&mut self) {
        let snapshot = self.desk.snapshot();
        let layouts = self.layout_states();
        let (published, tasks) = self.reactor.publish_core_snapshot(
            &self.published,
            snapshot,
            &self.published_layouts,
            &layouts,
        );
        self.published = Rc::new(published);
        self.published_layouts = layouts;
        self.run(tasks);
    }

    /// Looks at the system and shows readers how things are.
    fn observe_and_publish(&mut self) {
        let reply = self.observe();
        assert!(reply.is_ok());
        self.reactor.core_replied(reply);
        self.publish();
    }

    /// Lets applications do what they were asked until nothing is left.
    fn settle(&mut self) {
        while !self.requests.is_empty() {
            let requests = std::mem::take(&mut self.requests);
            for event in self.echo(requests) {
                self.event(event);
            }
        }
    }

    fn frame_event(&mut self, wid: WindowId, frame: Rect, txid: TransactionId) -> Option<Event> {
        let w = self.windows.get_mut(&wid)?;
        w.last_seen = txid;
        let before = w.frame;
        w.frame = frame;
        if w.animating || before.same_as(&frame) {
            return None;
        }
        Some(Event::WindowFrameChanged(wid, frame, Some(txid), Requested(true), None))
    }

    fn echo(&mut self, requests: Vec<Request>) -> Vec<Event> {
        let mut events = vec![];
        let mut listed = false;
        for request in requests {
            match request {
                Request::GetVisibleWindows => {
                    if listed {
                        continue;
                    }
                    listed = true;
                    let mut by_app = BTreeMap::<i32, Vec<WindowId>>::new();
                    for wid in self.windows.keys() {
                        by_app.entry(wid.pid).or_default().push(*wid);
                    }
                    for (pid, known_visible) in by_app {
                        events.push(Event::WindowsDiscovered { pid, new: vec![], known_visible });
                    }
                }
                Request::SetWindowFrame(wid, frame, txid, _) => {
                    events.extend(self.frame_event(wid, frame, txid));
                }
                Request::SetBatchWindowFrame(frames, txid, _) => {
                    for (wid, frame) in frames {
                        events.extend(self.frame_event(wid, frame, txid));
                    }
                }
                _ => {}
            }
        }
        events
    }

    fn focus_request(&mut self) -> Option<WindowId> {
        std::mem::take(&mut self.raises)
            .into_iter()
            .find_map(|r| r.focus_window.map(|(w, _)| w))
    }

    fn raise_request(&mut self) -> Option<RaiseRequest> {
        if self.raises.is_empty() {
            None
        } else {
            Some(self.raises.remove(0))
        }
    }

    fn frame(&self, wid: WindowId) -> Rect {
        self.windows[&wid].frame
    }

    fn info(&self, pid: i32, idx: u32) -> WindowServerInfo {
        self.reactor
            .window_manager
            .get_window_server_info(WindowServerId::new(pid as u32 * 10_000 + idx))
            .unwrap()
    }
}

// ---------------------------------------------------------------------------
// Focus.

#[test]
fn directional_focus_across_displays_is_an_authoritative_quiet_raise() {
    let mut bench = Bench::with_screens(&[screen(0.0), screen(1000.0)], &[1, 2]);
    let target = WindowId::new(8, 1);
    let source = WindowId::new(7, 1);
    let target_window = make_window(1);
    let mut source_window = make_window(1);
    source_window.frame.origin.x += points(1000.0);
    bench.app(target.pid, vec![target_window], Some(target), false);
    bench.app(source.pid, vec![source_window], Some(source), true);
    bench.event(Event::ApplicationGloballyActivated(source.pid));
    bench.settle();
    bench.raises.clear();
    assert_eq!(bench.reactor.core.focused_window, Some(source));

    bench.command(LayoutCommand::MoveFocus(Direction::Left));

    let request = bench.raise_request().expect("cross-display focus request");
    assert_eq!(request.focus_window.map(|(window, _)| window), Some(target));
    assert_eq!(request.focus_quiet, Quiet::Yes);
    let now = bench.now;
    assert!(bench
        .reactor
        .workspace_switch_manager
        .should_suppress_global_activation(target.pid, now));
}

#[test]
fn directional_focus_overrides_the_same_apps_activation_preference() {
    let mut bench = Bench::with_screens(&[screen(0.0), screen(1000.0)], &[1, 2]);
    let pid = 7;
    let target = WindowId::new(pid, 1);
    let source = WindowId::new(pid, 2);
    let target_window = make_window(1);
    let mut source_window = make_window(2);
    source_window.frame.origin.x += points(1000.0);
    bench.app(pid, vec![target_window, source_window], Some(source), true);
    bench.event(Event::ApplicationGloballyActivated(pid));
    bench.settle();

    bench.event(Event::ApplicationGloballyDeactivated(pid));
    bench.event(Event::ApplicationDeactivated(pid));
    bench.event(Event::ApplicationGloballyActivated(pid));
    bench.event(Event::ApplicationActivated(pid, Quiet::No));
    bench.settle();
    bench.raises.clear();

    bench.command(LayoutCommand::MoveFocus(Direction::Left));

    let request = bench.raise_request().expect("cross-display focus request");
    assert_eq!(request.focus_window.map(|(window, _)| window), Some(target));
    bench.event(Event::ApplicationMainWindowChanged(pid, Some(target), request.focus_quiet));

    assert_eq!(bench.reactor.main_window(), Some(target));
    assert_eq!(bench.reactor.core.focused_window, Some(target));
}

#[test]
fn directional_focus_target_survives_stale_main_window_from_other_display() {
    let mut bench = Bench::with_screens(&[screen(0.0), screen(1000.0)], &[1, 2]);
    let chrome_pid = 7;
    let stale_left = WindowId::new(chrome_pid, 1);
    let target_right = WindowId::new(chrome_pid, 2);
    let mut target_window = make_window(2);
    target_window.frame.origin.x += points(1000.0);
    bench.app(chrome_pid, vec![make_window(1), target_window], Some(stale_left), true);
    bench.event(Event::ApplicationGloballyActivated(chrome_pid));
    bench.settle();
    bench.event(Event::ApplicationGloballyDeactivated(chrome_pid));
    bench.event(Event::ApplicationDeactivated(chrome_pid));

    let codex = WindowId::new(8, 1);
    let mut codex_window = make_window(1);
    codex_window.frame.origin.x += points(1000.0);
    bench.app(codex.pid, vec![codex_window], Some(codex), true);
    bench.event(Event::ApplicationGloballyActivated(codex.pid));
    bench.settle();
    bench.raises.clear();

    bench.respond(target_right);
    let request = bench.raise_request().expect("directional focus request");
    assert_eq!(request.focus_window.map(|(window, _)| window), Some(target_right));
    assert_eq!(request.focus_quiet, Quiet::Yes);

    bench.event(Event::ApplicationMainWindowChanged(chrome_pid, Some(stale_left), Quiet::No));
    bench.event(Event::ApplicationGloballyActivated(chrome_pid));
    bench.event(Event::ApplicationActivated(chrome_pid, Quiet::Yes));
    bench.event(Event::ApplicationMainWindowChanged(chrome_pid, Some(stale_left), Quiet::No));
    bench.settle();

    assert_eq!(bench.reactor.main_window(), Some(target_right));
    assert_eq!(bench.reactor.core.focused_window, Some(target_right));
}

#[test]
fn click_to_activate_overrides_a_pending_authoritative_focus() {
    let pid = 7;
    let clicked = WindowId::new(pid, 1);
    let target = WindowId::new(pid, 2);
    let mut bench = Bench::with_two_windows(pid, clicked);

    bench.event(Event::ApplicationGloballyDeactivated(pid));
    bench.event(Event::ApplicationDeactivated(pid));
    bench.respond(target);
    let request = bench.raise_request().expect("authoritative focus request");
    assert_eq!(request.focus_window.map(|(window, _)| window), Some(target));

    let clicked_info = bench.info(pid, 1);
    bench.event(Event::MouseDown(Some(clicked_info), point(50.0, 50.0)));
    bench.event(Event::ApplicationGloballyActivated(pid));
    bench.event(Event::ApplicationMainWindowChanged(pid, Some(clicked), Quiet::No));
    bench.event(Event::ApplicationActivated(pid, Quiet::No));
    bench.settle();

    assert_eq!(bench.reactor.main_window(), Some(clicked));
    assert_eq!(bench.reactor.core.focused_window, Some(clicked));
}

#[test]
fn untracked_focus_fallback_rejects_system_surfaces() {
    let info = |layer| WindowServerInfo {
        pid: 1,
        id: WindowServerId::new(1),
        layer,
        frame: screen(0.0),
        min_frame: Size { width: 0, height: 0 },
        max_frame: Size { width: 0, height: 0 },
    };

    assert!(untracked_window_is_focusable(&info(0)));
    assert!(!untracked_window_is_focusable(&info(-1)));
    assert!(!untracked_window_is_focusable(&info(25)));
}

#[test]
fn lifecycle_events_control_activation_suppression() {
    assert_eq!(lifecycle_activation_suppression(&Event::SystemWoke), Some(true));
    assert_eq!(
        lifecycle_activation_suppression(&Event::SessionDidBecomeActive),
        Some(true)
    );
    assert_eq!(
        lifecycle_activation_suppression(&Event::MouseDown(None, point(0.0, 0.0))),
        Some(false)
    );
    assert_eq!(lifecycle_activation_suppression(&Event::MouseUp), Some(false));
    assert_eq!(
        lifecycle_activation_suppression(&Event::ApplicationGloballyActivated(7)),
        None
    );
}

#[test]
fn lifecycle_restored_activation_waits_for_user_input() {
    let pid = 7;
    let window = WindowId::new(pid, 1);
    let space = SpaceId::new(1);
    let mut bench = Bench::with_one_screen();
    bench.app(pid, make_windows(1), Some(window), true);
    bench.settle();
    let original = bench.reactor.active_workspace_for_space(space).unwrap();

    bench.command(LayoutCommand::MoveWindowToWorkspace {
        workspace: 1,
        window_id: Some(window.idx),
    });
    let target = bench.reactor.workspace_for_window(window).unwrap();
    assert_ne!(target, original);
    assert_eq!(bench.reactor.active_workspace_for_space(space), Some(original));

    bench.event(Event::SessionDidBecomeActive);
    bench.event(Event::ApplicationGloballyActivated(pid));
    bench.settle();
    assert_eq!(
        bench.reactor.active_workspace_for_space(space),
        Some(original),
        "lifecycle-restored activation must not switch workspaces"
    );

    bench.event(Event::MouseUp);
    assert!(!bench.reactor.workspace_switch_manager.suppress_auto_workspace_switch_until_input);
}

#[test]
fn focus_app_rule_activates_the_new_windows_workspace() {
    let mut bench = Bench::new();
    bench.desk.rules =
        vec![Rule { app_id: "com.testapp7".to_string(), workspace: 2, focus: true }];
    let window = WindowId::new(7, 1);
    let space = SpaceId::new(1);
    bench.event(Event::ScreenParametersChanged(make_screens(&[screen(0.0)], &[Some(space)])));
    bench.app(7, make_windows(1), Some(window), true);
    bench.settle();

    let workspace = bench.reactor.workspace_for_window(window).unwrap();
    assert_eq!(bench.reactor.active_workspace_for_space(space), Some(workspace));
    assert_eq!(bench.reactor.workspace_number(workspace).unwrap().get(), 2);
}

#[test]
fn publishes_stable_immutable_core_snapshots() {
    let mut bench = Bench::with_one_screen();
    bench.app(1, make_windows(2), Some(WindowId::new(1, 1)), false);
    bench.settle();

    bench.observe_and_publish();
    let first = bench.published.clone();
    assert_eq!(first.displays.len(), 1);
    assert_eq!(first.workspaces.len(), 1);
    assert_eq!(first.windows.len(), 2);
    assert!(first.windows.iter().all(|window| window.workspace == Some(first.workspaces[0].id)));

    bench.observe_and_publish();
    let second = bench.published.clone();
    assert_eq!(second.revision, first.revision + 1);
    assert_eq!(second.workspaces[0].id, first.workspaces[0].id);
    assert_eq!(first.revision, 1, "existing readers retain their snapshot");
}

#[test]
fn layout_resize_commands_are_classified_as_interactive() {
    for command in [
        LayoutCommand::ResizeWindowGrow,
        LayoutCommand::ResizeWindowShrink,
        LayoutCommand::ResizeWindowBy { amount: 500 },
        LayoutCommand::ResizeWindowDirectional(Direction::Right),
    ] {
        assert!(Reactor::is_interactive_resize_event(&Event::Command(Command::Layout(command))));
    }
    assert!(!Reactor::is_interactive_resize_event(&Event::Command(Command::Layout(
        LayoutCommand::MoveNode(Direction::Right)
    ))));
}

// ---------------------------------------------------------------------------
// Layout.

#[test]
fn newly_managed_windows_suppress_the_first_layout_animation() {
    let mut bench = Bench::with_one_screen();
    bench.reactor.config.settings.animate = true;
    bench.reactor.config.settings.animation_duration = 200;
    bench.animations.clear();

    let launched = bench.launch(7, make_windows(1), Some(WindowId::new(7, 1)), false);
    assert!(Reactor::should_suppress_layout_animation(&launched));
    bench.event(launched);
    assert_eq!(bench.animations.first(), Some(&true));

    let mut windows = make_windows(1);
    let created = Event::WindowCreated(
        WindowId::new(8, 1),
        windows.pop().unwrap(),
        None,
        Some(MouseState::Up),
    );
    assert!(Reactor::should_suppress_layout_animation(&created));

    assert!(!Reactor::should_suppress_layout_animation(&Event::MouseUp));
}

#[test]
fn perpendicular_move_node_uses_the_regular_layout_animation() {
    let mut bench = Bench::with_one_screen();
    bench.reactor.config.settings.animate = true;
    bench.reactor.config.settings.animation_duration = 200;
    let focused = WindowId::new(1, 1);
    bench.app(1, make_windows(2), Some(focused), true);
    bench.settle();
    bench.animations.clear();

    let reply = bench.desk.put(CoreInput::Command(CoreCommand::Window(
        WindowCommand::ToggleOrientation { window: Some(focused) },
    )));
    bench.reactor.core_replied(reply);
    bench.reactor.turn.layout_changed = false;
    bench.run(update_layout(false, false));
    assert!(bench.reactor.turn.layout_changed);
    assert_eq!(bench.animations.first(), Some(&false));
    bench.animations.clear();

    let reply = bench.desk.put(CoreInput::FocusChanged(focused));
    bench.reactor.core_replied(reply);
    bench
        .reactor
        .workspace_switch_manager
        .start_workspace_switch(WorkspaceSwitchOrigin::Manual);
    bench.reactor.workspace_switch_manager.mark_workspace_switch_inactive();
    assert!(bench.reactor.workspace_switch_manager.active_workspace_switch.is_some());

    bench.command(LayoutCommand::MoveNode(Direction::Right));
    assert!(bench.reactor.workspace_switch_manager.active_workspace_switch.is_none());
    assert_eq!(bench.animations.first(), Some(&false));
}

#[test]
fn publishing_window_membership_changes_broadcasts_once_for_the_display() {
    let mut bench = Bench::with_one_screen();
    bench.observe_and_publish();
    bench.broadcasts.clear();

    bench.app(1, make_windows(2), Some(WindowId::new(1, 1)), false);
    bench.settle();
    bench.observe_and_publish();

    let mut broadcasts = std::mem::take(&mut bench.broadcasts).into_iter();
    match broadcasts.next().expect("windows_changed broadcast") {
        BroadcastEvent::WindowsChanged { windows, space_id, display_uuid, .. } => {
            assert_eq!(windows.len(), 2);
            assert_eq!(windows[0], WindowId::new(1, 1).to_debug_string());
            assert_eq!(space_id, SpaceId::new(1));
            assert_eq!(display_uuid.as_deref(), Some("test-display-0"));
        }
        _ => panic!("expected windows_changed broadcast"),
    }
    match broadcasts.next().expect("layout_changed broadcast") {
        BroadcastEvent::LayoutChanged { layout, .. } => {
            assert_eq!(layout.mode, "bsp");
            assert_eq!(layout.tiled_windows.len(), 2);
        }
        _ => panic!("expected layout_changed broadcast"),
    }

    bench.observe_and_publish();
    assert!(
        bench.broadcasts.is_empty(),
        "an unchanged snapshot must not trigger another update"
    );
}

#[test]
fn destroyed_window_is_removed_before_the_same_event_reflows_layout() {
    let mut bench = Bench::with_one_screen();
    bench.app(1, make_windows(2), Some(WindowId::new(1, 1)), false);
    bench.settle();
    assert_eq!(bench.reactor.core.windows.len(), 2);

    bench.event(Event::WindowDestroyed(WindowId::new(1, 1)));

    assert_eq!(bench.reactor.window_manager.tracked_window_count(), 1);
    assert_eq!(bench.reactor.core.windows.len(), 1);
    assert_eq!(bench.reactor.core.windows[0].id.idx, 2);
}

#[test]
fn destroying_the_focused_main_window_reflows_and_refocuses_the_remaining_window() {
    let pid = 7;
    let destroyed = WindowId::new(pid, 1);
    let remaining = WindowId::new(pid, 2);
    let mut bench = Bench::with_two_windows(pid, destroyed);
    let before = bench.frame(remaining);

    bench.event(Event::WindowDestroyed(destroyed));
    bench.settle();

    let after = bench.frame(remaining);
    assert_eq!(bench.reactor.core.windows.len(), 1);
    assert_eq!(bench.focus_request(), Some(remaining));
    assert!(after.size.width > before.size.width);
    assert!(after.size.height >= before.size.height);
}

#[test]
fn minimizing_the_focused_fullscreen_window_refocuses_the_remaining_window() {
    let pid = 7;
    let minimized = WindowId::new(pid, 1);
    let remaining = WindowId::new(pid, 2);
    let mut bench = Bench::with_two_windows(pid, minimized);

    bench.command(LayoutCommand::ToggleFullscreen);
    bench.settle();
    bench.raises.clear();
    let before = bench.frame(remaining);

    bench.event(Event::WindowMinimized(minimized));
    bench.settle();

    let after = bench.frame(remaining);
    assert_eq!(bench.focus_request(), Some(remaining));
    assert!(after.size.width > before.size.width);
    assert!(after.size.height >= before.size.height);

    bench.event(Event::ApplicationMainWindowChanged(pid, Some(remaining), Quiet::No));
    bench.settle();
    bench.raises.clear();
    bench.event(Event::WindowDeminiaturized(minimized));
    bench.settle();

    assert_eq!(
        bench.focus_request(),
        None,
        "restoring a minimized window must not steal focus"
    );
}

#[test]
fn minimizing_an_unfocused_window_does_not_request_refocus() {
    let pid = 7;
    let focused = WindowId::new(pid, 1);
    let minimized = WindowId::new(pid, 2);
    let mut bench = Bench::with_two_windows(pid, focused);

    bench.event(Event::WindowMinimized(minimized));
    bench.settle();

    assert_eq!(bench.focus_request(), None);
    assert_eq!(bench.reactor.core.focused_window, Some(focused));
}

#[test]
fn focus_triggered_tiled_resize_is_restored_without_moving_neighbors() {
    let first = WindowId::new(7, 1);
    let second = WindowId::new(7, 2);
    let mut bench = Bench::with_one_screen();
    bench.app(7, make_windows(2), Some(first), true);
    bench.settle();
    let first_tiled = bench.frame(first);
    let second_tiled = bench.frame(second);

    bench.run(Reactor::send_layout_event(LayoutEvent::WindowFocused(first)));
    let self_resized = Rect {
        origin: first_tiled.origin,
        size: Size {
            width: first_tiled.size.width + points(2.0),
            height: first_tiled.size.height + points(1.0),
        },
    };
    bench.windows.get_mut(&first).unwrap().frame = self_resized;
    bench.event(Event::WindowFrameChanged(
        first,
        self_resized,
        None,
        Requested(false),
        Some(MouseState::Up),
    ));
    bench.settle();

    assert_eq!(bench.frame(first), first_tiled);
    assert_eq!(bench.frame(second), second_tiled);
}

#[test]
fn mouse_dragged_resize_persists_after_mouse_up() {
    let first = WindowId::new(7, 1);
    let second = WindowId::new(7, 2);
    let mut bench = Bench::with_one_screen();
    bench.app(7, make_windows(2), Some(second), true);
    bench.settle();
    let first_tiled = bench.frame(first);
    let second_tiled = bench.frame(second);
    let dragged = Rect {
        origin: Point { x: second_tiled.origin.x - points(200.0), y: second_tiled.origin.y },
        size: Size {
            width: second_tiled.size.width + points(200.0),
            height: second_tiled.size.height,
        },
    };
    bench.windows.get_mut(&second).unwrap().frame = dragged;

    bench.event(Event::WindowFrameChanged(
        second,
        dragged,
        None,
        Requested(false),
        Some(MouseState::Down),
    ));
    bench.event(Event::MouseUp);
    bench.settle();

    assert!(bench.frame(second).size.width > second_tiled.size.width);
    assert!(bench.frame(first).size.width < first_tiled.size.width);
    assert!(bench.frame(second).same_as(&dragged));
}

#[test]
fn terminated_application_removes_all_windows_before_reflow() {
    let mut bench = Bench::with_one_screen();
    bench.app(7, make_windows(2), Some(WindowId::new(7, 1)), false);
    bench.settle();
    assert_eq!(bench.reactor.core.windows.len(), 2);

    bench.event(Event::ApplicationThreadTerminated(7));

    assert_eq!(bench.reactor.window_manager.tracked_window_count(), 0);
    assert!(bench.reactor.core.windows.is_empty());
}

// ---------------------------------------------------------------------------
// Workspaces.

#[test]
fn workspace_move_command_changes_the_authoritative_assignment() {
    let window = WindowId::new(7, 1);
    let mut bench = Bench::with_one_screen();
    bench.app(7, make_windows(1), Some(window), true);
    bench.settle();

    bench.command(LayoutCommand::MoveWindowToWorkspace { workspace: 1, window_id: None });

    let target = bench
        .reactor
        .core
        .workspaces
        .iter()
        .find(|workspace| workspace.number.map(|number| number.get()) == Some(2))
        .unwrap()
        .id;
    assert_eq!(bench.reactor.workspace_for_window(window), Some(target));
}

#[test]
fn frontmost_main_window_change_without_auxiliary_click_does_not_switch_workspaces() {
    let pid = 7;
    let first = WindowId::new(pid, 1);
    let expanded = WindowId::new(pid, 2);
    let space = SpaceId::new(1);
    let mut bench = Bench::with_one_screen();
    bench.app(pid, make_windows(2), Some(first), true);
    bench.event(Event::ApplicationGloballyActivated(pid));
    bench.settle();
    let original = bench.reactor.active_workspace_for_space(space).unwrap();

    bench.command(LayoutCommand::MoveWindowToWorkspace {
        workspace: 1,
        window_id: Some(expanded.idx),
    });
    let target = bench.reactor.workspace_for_window(expanded).unwrap();
    assert_ne!(target, original);
    assert_eq!(bench.reactor.active_workspace_for_space(space), Some(original));

    bench.event(Event::ApplicationMainWindowChanged(pid, Some(expanded), Quiet::No));
    bench.settle();

    assert_eq!(bench.reactor.active_workspace_for_space(space), Some(original));
    assert_eq!(bench.reactor.workspace_for_window(expanded), Some(target));
    assert_eq!(bench.reactor.core.focused_window, Some(expanded));
}

#[test]
fn external_reactivation_keeps_the_apps_last_used_window() {
    let pid = 7;
    let first = WindowId::new(pid, 1);
    let last_used = WindowId::new(pid, 2);
    let mut bench = Bench::with_one_screen();
    bench.app(pid, make_windows(2), Some(first), true);
    bench.event(Event::ApplicationGloballyActivated(pid));
    bench.settle();

    let last_used_info = bench.info(pid, 2);
    bench.event(Event::MouseDown(Some(last_used_info), point(150.0, 150.0)));
    bench.event(Event::ApplicationMainWindowChanged(pid, Some(last_used), Quiet::No));
    assert_eq!(bench.reactor.core.focused_window, Some(last_used));

    bench.event(Event::ApplicationGloballyDeactivated(pid));
    bench.event(Event::ApplicationDeactivated(pid));

    bench.event(Event::ApplicationMainWindowChanged(pid, Some(first), Quiet::No));
    bench.event(Event::ApplicationGloballyActivated(pid));
    bench.event(Event::ApplicationActivated(pid, Quiet::No));
    bench.settle();

    assert_eq!(bench.reactor.core.focused_window, Some(last_used));
    assert_eq!(bench.reactor.main_window(), Some(last_used));
}

#[test]
fn quiet_workspace_raise_becomes_the_apps_last_used_window() {
    let pid = 7;
    let previous = WindowId::new(pid, 1);
    let workspace_target = WindowId::new(pid, 2);
    let mut bench = Bench::with_one_screen();
    bench.app(pid, make_windows(2), Some(previous), true);
    bench.event(Event::ApplicationGloballyActivated(pid));
    bench.settle();

    bench.event(Event::ApplicationGloballyDeactivated(pid));
    bench.event(Event::ApplicationDeactivated(pid));
    bench.event(Event::ApplicationGloballyActivated(pid));
    bench.event(Event::ApplicationActivated(pid, Quiet::No));

    bench.event(Event::ApplicationMainWindowChanged(
        pid,
        Some(workspace_target),
        Quiet::Yes,
    ));
    assert_eq!(bench.reactor.main_window(), Some(workspace_target));

    bench.event(Event::ApplicationGloballyDeactivated(pid));
    bench.event(Event::ApplicationDeactivated(pid));

    bench.event(Event::ApplicationMainWindowChanged(pid, Some(previous), Quiet::No));
    bench.event(Event::ApplicationGloballyActivated(pid));
    bench.event(Event::ApplicationActivated(pid, Quiet::No));
    bench.settle();

    assert_eq!(bench.reactor.main_window(), Some(workspace_target));
}

#[test]
fn direct_click_overrides_the_pre_deactivation_window() {
    let pid = 7;
    let first = WindowId::new(pid, 1);
    let previous = WindowId::new(pid, 2);
    let mut bench = Bench::with_one_screen();
    bench.app(pid, make_windows(2), Some(previous), true);
    bench.event(Event::ApplicationGloballyActivated(pid));
    bench.settle();
    bench.event(Event::ApplicationGloballyDeactivated(pid));
    bench.event(Event::ApplicationDeactivated(pid));

    let clicked_info = bench.info(pid, 1);
    bench.event(Event::MouseDown(Some(clicked_info), point(50.0, 50.0)));
    bench.event(Event::ApplicationMainWindowChanged(pid, Some(first), Quiet::No));
    bench.event(Event::ApplicationGloballyActivated(pid));
    bench.event(Event::ApplicationActivated(pid, Quiet::No));
    bench.settle();

    assert_eq!(bench.reactor.core.focused_window, Some(first));
    assert_eq!(bench.reactor.main_window(), Some(first));
}

#[test]
fn quiet_main_window_change_does_not_switch_workspaces() {
    let pid = 7;
    let first = WindowId::new(pid, 1);
    let background = WindowId::new(pid, 2);
    let space = SpaceId::new(1);
    let mut bench = Bench::with_one_screen();
    bench.app(pid, make_windows(2), Some(first), true);
    bench.event(Event::ApplicationGloballyActivated(pid));
    bench.settle();
    let original = bench.reactor.active_workspace_for_space(space).unwrap();

    bench.command(LayoutCommand::MoveWindowToWorkspace {
        workspace: 1,
        window_id: Some(background.idx),
    });
    assert_ne!(bench.reactor.workspace_for_window(background), Some(original));

    bench.event(Event::ApplicationMainWindowChanged(pid, Some(background), Quiet::Yes));
    bench.settle();

    assert_eq!(bench.reactor.active_workspace_for_space(space), Some(original));
}

#[test]
fn inactive_manageable_window_allows_unmanageable_controller_activation() {
    let pid = 7;
    let window = WindowId::new(pid, 1);
    let space = SpaceId::new(1);
    let mut bench = Bench::with_one_screen();
    bench.app(pid, make_windows(1), Some(window), true);
    bench.settle();

    bench.command(LayoutCommand::MoveWindowToWorkspace {
        workspace: 1,
        window_id: Some(window.idx),
    });
    let target = bench.reactor.workspace_for_window(window).unwrap();
    assert_ne!(bench.reactor.active_workspace_for_space(space), Some(target));
    let sur = bench.surroundings();
    assert!(bench.reactor.has_manageable_window_on_inactive_workspace(pid, &sur));

    bench.command(LayoutCommand::SwitchToWorkspace(1));

    assert_eq!(bench.reactor.active_workspace_for_space(space), Some(target));
    let sur = bench.surroundings();
    assert!(!bench.reactor.has_manageable_window_on_inactive_workspace(pid, &sur));
}

#[test]
fn auxiliary_window_global_activation_moves_main_window_to_click_workspace() {
    let pid = 7;
    let window = WindowId::new(pid, 1);
    let space = SpaceId::new(1);
    let mut controller = make_window(2);
    controller.is_standard = false;
    let mut bench = Bench::with_one_screen();
    bench.app(pid, vec![make_window(1), controller], Some(window), true);
    bench.settle();

    bench.command(LayoutCommand::MoveWindowToWorkspace {
        workspace: 1,
        window_id: Some(window.idx),
    });
    let target = bench.reactor.workspace_for_window(window).unwrap();
    let origin = bench.reactor.active_workspace_for_space(space).unwrap();
    assert_ne!(origin, target);

    let controller_info = bench.info(pid, 2);
    bench.event(Event::MouseDown(Some(controller_info), point(10.0, 10.0)));
    bench.event(Event::ApplicationGloballyActivated(pid));
    bench.settle();

    assert_eq!(bench.reactor.active_workspace_for_space(space), Some(origin));
    assert_eq!(bench.reactor.workspace_for_window(window), Some(origin));
}

fn elevated(pid: i32) -> WindowServerInfo {
    WindowServerInfo {
        pid,
        id: WindowServerId::new(99_999),
        layer: 3,
        frame: rect(700.0, 50.0, 250.0, 180.0),
        min_frame: Size { width: 0, height: 0 },
        max_frame: Size { width: 0, height: 0 },
    }
}

#[test]
fn auxiliary_window_activation_moves_main_window_without_main_window_change() {
    let pid = 7;
    let window = WindowId::new(pid, 1);
    let space = SpaceId::new(1);
    let mut bench = Bench::with_one_screen();
    bench.app(pid, make_windows(1), Some(window), true);
    bench.settle();

    bench.command(LayoutCommand::MoveWindowToWorkspace {
        workspace: 1,
        window_id: Some(window.idx),
    });
    let hidden = bench.reactor.workspace_for_window(window).unwrap();
    let origin = bench.reactor.active_workspace_for_space(space).unwrap();
    assert_ne!(origin, hidden);

    bench.event(Event::MouseDown(Some(elevated(pid)), point(800.0, 100.0)));
    bench.event(Event::ApplicationActivated(pid, Quiet::No));
    bench.settle();

    assert_eq!(bench.reactor.active_workspace_for_space(space), Some(origin));
    assert_eq!(bench.reactor.workspace_for_window(window), Some(origin));
}

#[test]
fn elevated_untracked_surface_without_hidden_main_window_is_ignored() {
    let pid = 7;
    let window = WindowId::new(pid, 1);
    let mut bench = Bench::with_one_screen();
    bench.app(pid, make_windows(1), Some(window), true);
    bench.settle();

    bench.reactor.window_manager.update_partial_window_server_info(&vec![elevated(pid)]);
    bench.event(Event::MouseDown(Some(elevated(pid)), point(800.0, 100.0)));

    assert!(bench.reactor.refocus_manager.auxiliary_window_workspace_target.is_none());
}

#[test]
fn hidden_workspace_move_command_moves_without_switching() {
    let space = SpaceId::new(1);
    let window = WindowId::new(7, 1);
    let mut bench = Bench::with_one_screen();
    bench.app(7, make_windows(1), Some(window), true);
    bench.settle();
    let regular = bench.reactor.active_workspace_for_space(space).unwrap();

    bench.command(LayoutCommand::MoveWindowToHiddenWorkspace { window_id: None });

    let hidden = bench.reactor.workspace_for_window(window).unwrap();
    assert_ne!(hidden, regular);
    assert_eq!(bench.reactor.active_workspace_for_space(space), Some(regular));
    assert_eq!(bench.reactor.workspace_number(hidden), None);

    bench.command(LayoutCommand::ToggleHiddenWorkspace);
    assert_eq!(bench.reactor.active_workspace_for_space(space), Some(hidden));
}

#[test]
fn cross_display_workspace_move_survives_the_next_platform_observation() {
    let mut bench = Bench::with_screens(&[screen(0.0), screen(1000.0)], &[1, 2]);
    let window = WindowId::new(7, 1);
    bench.app(7, make_windows(1), Some(window), true);
    bench.settle();

    bench.command(LayoutCommand::MoveWindowToWorkspace { workspace: 1, window_id: None });
    let target = bench
        .reactor
        .core
        .workspaces
        .iter()
        .find(|workspace| workspace.number.map(|number| number.get()) == Some(2))
        .unwrap()
        .id;
    assert_eq!(bench.reactor.workspace_for_window(window), Some(target));

    let reply = bench.observe();
    bench.reactor.core_replied(reply);
    assert_eq!(bench.reactor.workspace_for_window(window), Some(target));
}

#[test]
fn global_slot_command_creates_and_activates_the_requested_workspace() {
    let space = SpaceId::new(1);
    let mut bench = Bench::with_one_screen();

    bench.command(LayoutCommand::SwitchToGlobalSlot(7));

    let find = |bench: &Bench, n: u8| {
        bench
            .reactor
            .core
            .workspaces
            .iter()
            .find(|workspace| workspace.number.map(|number| number.get()) == Some(n))
            .map(|workspace| (workspace.id, workspace.name.clone()))
            .unwrap()
    };
    let (target, _) = find(&bench, 8);
    assert_eq!(bench.reactor.active_workspace_for_space(space), Some(target));

    bench.command(LayoutCommand::SwitchToGlobalSlot(9));
    let (zero, name) = find(&bench, 0);
    assert_eq!(name, "Workspace 0");
    assert_eq!(bench.reactor.active_workspace_for_space(space), Some(zero));
}

#[test]
fn removing_a_display_migrates_workspaces_by_display_identity() {
    let mut bench = Bench::with_screens(&[screen(0.0), screen(1000.0)], &[1, 2]);
    assert_eq!(bench.reactor.core.workspaces.len(), 2);

    bench.reactor.space_manager.screens =
        make_screens(&[screen(0.0)], &[Some(SpaceId::new(1))]);
    let sur = bench.surroundings();
    let o = bench.reactor.topology_observation(&sur);
    assert_eq!(o.generation, 1);
    bench
        .desk
        .observe_displays(o.displays.into_iter().map(|d| (d.id, d.frame, d.space)).collect());
    bench.desk.active_display = o.active_display;
    let reply = Ok(bench.desk.transition(vec![], vec![]));
    bench.reactor.core_replied(reply);
    assert_eq!(bench.reactor.core.workspaces.len(), 2);
    assert!(bench
        .reactor
        .core
        .workspaces
        .iter()
        .all(|workspace| workspace.display == "test-display-0"));
}

#[test]
fn losing_the_focused_window_asks_for_a_refocus_on_its_space() {
    let pid = 7;
    let lost = WindowId::new(pid, 1);
    let bench = Bench::with_two_windows(pid, lost);
    let sur = bench.surroundings();
    assert_eq!(
        bench.reactor.refocus_state_after_loss(lost, &sur),
        RefocusState::Pending(SpaceId::new(1))
    );
    assert_eq!(
        bench.reactor.refocus_state_after_loss(WindowId::new(pid, 2), &sur),
        RefocusState::Idle
    );
}

// ---------------------------------------------------------------------------
// Everything else.

#[test]
fn a_layout_that_was_applied_moves_nothing_again() {
    let mut bench = Bench::with_two_windows(7, WindowId::new(7, 1));
    bench.reactor.turn.layout_changed = true;
    bench.run(update_layout(false, true));
    assert!(!bench.reactor.turn.layout_changed);
    assert!(bench.requests.is_empty());
}

#[test]
fn a_workspace_switch_writes_one_batch_per_application() {
    let pid = 7;
    let mut bench = Bench::with_two_windows(pid, WindowId::new(pid, 1));
    bench.app(8, make_windows(1), Some(WindowId::new(8, 1)), false);
    bench.settle();
    let displays = bench.desk.layout();
    let reply = bench.observe();
    let mut frames = bench.reactor.calculate_layout(reply, &displays).remove(0).frames;
    for (_, frame) in &mut frames {
        frame.origin.y += points(10.0);
    }
    let (changed, tasks) = bench.reactor.instant_layout(&frames, Some(WindowId::new(8, 1)));
    assert!(changed);
    assert_eq!(tasks.len(), 1);
    match &tasks[0] {
        Task::Tell(Message::App(p, Request::SetBatchWindowFrame(batch, txid, eui))) => {
            assert_eq!(*p, pid);
            assert_eq!(batch.len(), 2);
            assert_ne!(*txid, TransactionId::default());
            assert!(*eui);
            let sent = bench
                .reactor
                .transaction_manager
                .get_last_sent_txid(WindowServerId::new(pid as u32 * 10_000 + 2));
            assert_eq!(sent, *txid);
        }
        _ => panic!("expected a batch"),
    }
    let (again, tasks) = bench.reactor.instant_layout(&frames, Some(WindowId::new(8, 1)));
    assert!(!again);
    assert!(tasks.is_empty());
}

#[test]
fn window_noise_is_dropped_during_a_reconfiguration() {
    let mut bench = Bench::with_two_windows(7, WindowId::new(7, 1));
    bench.event(Event::DisplayChurnBegin);
    let c = Reconfiguration { epoch: 1, flags: 0, completed_flags: 0 };
    let now = bench.now;
    let wsid = WindowServerId::new(70_001);
    let tasks = bench.reactor.handle_loop_event(
        Event::WindowServerDestroyed(wsid, SpaceId::new(1)),
        c,
        now,
    );
    assert_eq!(tasks.len(), 1);
    assert!(matches!(tasks[0], Task::Tell(Message::WindowActivity(70_001))));
    assert_eq!(
        bench.reactor.display_topology_manager.quarantine_stats.destroyed_dropped,
        1
    );
    assert_eq!(bench.reactor.window_manager.tracked_window_count(), 2);

    let tasks = bench.reactor.handle_loop_event(Event::SystemWoke, c, now);
    assert!(matches!(
        tasks.last(),
        Some(Task::Ask(Question::Observe, Work::Publish))
    ));
    bench.event(Event::DisplayChurnEnd);
    assert!(bench.reactor.display_topology_manager.is_churning_or_awaiting_commit());
}

#[test]
fn published_snapshots_list_applications_by_id() {
    let mut bench = Bench::with_one_screen();
    bench.app(9, make_windows(1), Some(WindowId::new(9, 1)), false);
    bench.app(4, make_windows(2), Some(WindowId::new(4, 1)), true);
    bench.event(Event::ApplicationGloballyActivated(4));
    bench.settle();
    let apps = bench.reactor.application_snapshots();
    assert_eq!(apps.len(), 2);
    assert_eq!(apps[0].id, 4);
    assert!(apps[0].frontmost);
    assert_eq!(apps[0].window_count, 2);
    assert_eq!(apps[0].name, "TestApp4");
    assert_eq!(apps[1].id, 9);
    assert!(!apps[1].frontmost);
}

#[test]
fn nameless_applications_are_unknown() {
    let mut bench = Bench::with_one_screen();
    bench.event(Event::ApplicationLaunched {
        pid: 3,
        info: AppInfo { bundle_id: None, localized_name: None },
        is_frontmost: false,
        main_window: None,
        visible_windows: vec![],
        window_server_info: vec![],
    });
    assert_eq!(bench.reactor.application_snapshots()[0].name, "Unknown");
}

#[test]
fn an_expected_window_is_focused_once() {
    let pid = 7;
    let mut bench = Bench::with_two_windows(pid, WindowId::new(pid, 1));
    let sur = bench.surroundings();
    bench.reactor.request_focus_next_window(&sur);
    assert!(bench.reactor.refocus_manager.focus_next_window_deadline.is_some());
    let new = WindowId::new(9, 1);
    bench.app(9, make_windows(1), Some(new), false);
    bench.settle();
    assert_eq!(bench.focus_request(), Some(new));
    assert!(bench.reactor.refocus_manager.focus_next_window_deadline.is_none());

    bench.app(10, make_windows(1), Some(WindowId::new(10, 1)), false);
    bench.settle();
    assert_eq!(bench.focus_request(), None);
}

#[test]
fn a_cancelled_wait_focuses_nothing() {
    let mut bench = Bench::with_two_windows(7, WindowId::new(7, 1));
    let sur = bench.surroundings();
    bench.reactor.request_focus_next_window(&sur);
    bench.reactor.cancel_focus_next_window();
    bench.app(9, make_windows(1), Some(WindowId::new(9, 1)), false);
    bench.settle();
    assert_eq!(bench.focus_request(), None);
}

#[test]
fn title_changes_are_broadcast_once() {
    let wid = WindowId::new(7, 1);
    let mut bench = Bench::with_two_windows(7, wid);
    bench.broadcasts.clear();
    bench.event(Event::WindowTitleChanged(wid, "Inbox".to_string()));
    bench.event(Event::WindowTitleChanged(wid, "Inbox".to_string()));
    let titles: Vec<(String, String)> = std::mem::take(&mut bench.broadcasts)
        .into_iter()
        .filter_map(|b| match b {
            BroadcastEvent::WindowTitleChanged { previous_title, new_title, .. } => {
                Some((previous_title, new_title))
            }
            _ => None,
        })
        .collect();
    assert_eq!(titles, vec![("Window1".to_string(), "Inbox".to_string())]);
}

#[test]
fn a_moved_window_swaps_only_with_its_neighbours() {
    let pid = 7;
    let dragged = WindowId::new(pid, 1);
    let bench = Bench::with_two_windows(pid, dragged);
    let sur = bench.surroundings();
    let candidates =
        bench.reactor.collect_drag_swap_candidates(dragged, SpaceId::new(1), &sur);
    assert_eq!(candidates.len(), 1);
    assert_eq!(candidates[0].0, WindowId::new(pid, 2));
}

#[test]
fn a_menu_is_closed_with_its_application() {
    let mut bench = Bench::with_two_windows(7, WindowId::new(7, 1));
    bench.event(Event::MenuOpened(7));
    assert_eq!(bench.reactor.menu_manager.menu_state, MenuState::Open(7));
    bench.event(Event::MenuClosed(7));
    assert_eq!(bench.reactor.menu_manager.menu_state, MenuState::Closed);
    bench.event(Event::MenuOpened(7));
    bench.event(Event::ApplicationGloballyActivated(8));
    assert_eq!(bench.reactor.menu_manager.menu_state, MenuState::Closed);
    bench.event(Event::MenuOpened(7));
    bench.event(Event::ApplicationThreadTerminated(7));
    assert_eq!(bench.reactor.menu_manager.menu_state, MenuState::Closed);
}

#[test]
fn repeated_reports_of_spaces_change_nothing() {
    let mut bench = Bench::with_two_windows(7, WindowId::new(7, 1));
    let before = bench.reactor.active_workspace_for_space(SpaceId::new(1));
    bench.requests.clear();
    bench.event(Event::SpaceChanged(vec![Some(SpaceId::new(1))]));
    bench.settle();
    assert_eq!(bench.reactor.active_workspace_for_space(SpaceId::new(1)), before);
    assert_eq!(
        bench.reactor.space_manager.first_known_space(),
        Some(SpaceId::new(1))
    );
}

#[test]
fn mission_control_holds_frame_changes_back() {
    let wid = WindowId::new(7, 1);
    let mut bench = Bench::with_two_windows(7, wid);
    bench.event(Event::MissionControlNativeEntered);
    assert!(bench.reactor.core.mission_control_active);
    let before = bench.reactor.window_manager.window(wid).unwrap().frame_monotonic;
    bench.event(Event::WindowFrameChanged(
        wid,
        rect(5.0, 5.0, 10.0, 10.0),
        None,
        Requested(false),
        Some(MouseState::Up),
    ));
    assert_eq!(
        bench.reactor.window_manager.window(wid).unwrap().frame_monotonic,
        before
    );
    bench.event(Event::MissionControlNativeExited);
    assert!(!bench.reactor.core.mission_control_active);
}

#[test]
fn a_snapshot_of_the_displays_knows_their_windows() {
    let bench = Bench::with_two_windows(7, WindowId::new(7, 1));
    let sur = bench.surroundings();
    let infos = vec![bench.info(7, 1), bench.info(7, 2)];
    let snapshot = bench.reactor.build_display_snapshot(&infos, &sur);
    assert_eq!(snapshot.ordered_screens.len(), 1);
    assert!(snapshot.active_spaces.contains(SpaceId::new(1)));
    assert!(snapshot.inactive_spaces.is_empty());
    assert_eq!(snapshot.windows.len(), 2);
}

#[test]
fn a_command_means_the_layout_focus_within_an_application() {
    let pid = 7;
    let main = WindowId::new(pid, 1);
    let layout = WindowId::new(pid, 2);
    let bench = Bench::with_two_windows(pid, main);
    let sur = bench.surroundings();
    let space = Some(SpaceId::new(1));
    let r = &bench.reactor;
    assert_eq!(
        r.resolve_current_window_for_command(space, false, Some(layout), &sur),
        Some(layout)
    );
    // A window that no workspace holds yet leaves the main window its place.
    assert_eq!(
        r.resolve_current_window_for_command(space, false, Some(WindowId::new(pid, 9)), &sur),
        Some(main)
    );
    assert_eq!(
        r.resolve_current_window_for_command(space, false, Some(WindowId::new(8, 1)), &sur),
        Some(main)
    );
}

#[test]
fn an_echo_of_an_earlier_write_is_ignored() {
    let wid = WindowId::new(7, 1);
    let wsid = WindowServerId::new(70_001);
    let mut bench = Bench::with_two_windows(7, wid);
    let before = bench.reactor.window_manager.window(wid).unwrap().frame_monotonic;
    let txid = bench.reactor.transaction_manager.generate_next_txid(wsid);
    bench.reactor.transaction_manager.store_txid(wsid, txid, rect(0.0, 0.0, 300.0, 300.0));
    let stale = TransactionId(txid.0 - 1);
    bench.event(Event::WindowFrameChanged(
        wid,
        rect(9.0, 9.0, 90.0, 90.0),
        Some(stale),
        Requested(true),
        None,
    ));
    assert_eq!(
        bench.reactor.window_manager.window(wid).unwrap().frame_monotonic,
        before
    );
    // The mouse takes the window over, echo or not.
    bench.event(Event::WindowFrameChanged(
        wid,
        rect(9.0, 9.0, 90.0, 90.0),
        Some(txid),
        Requested(false),
        Some(MouseState::Down),
    ));
    assert!(bench.reactor.transaction_manager.get_target_frame(wsid).is_none());
    assert_eq!(
        bench.reactor.window_manager.window(wid).unwrap().frame_monotonic,
        rect(9.0, 9.0, 90.0, 90.0)
    );
}

#[test]
fn nothing_is_raised_during_a_drag() {
    let wid = WindowId::new(7, 1);
    let mut bench = Bench::with_two_windows(7, wid);
    let frame = bench.frame(wid);
    let mut moved = frame;
    moved.origin.x += points(30.0);
    bench.event(Event::WindowFrameChanged(
        wid,
        moved,
        None,
        Requested(false),
        Some(MouseState::Down),
    ));
    assert!(bench.reactor.is_in_drag());
    bench.raises.clear();
    bench.respond(WindowId::new(7, 2));
    assert!(bench.raise_request().is_none());
    bench.event(Event::MouseUp);
    assert!(!bench.reactor.is_in_drag());
}

#[test]
fn windows_that_rules_leave_alone_are_not_laid_out() {
    let wid = WindowId::new(7, 1);
    let mut bench = Bench::with_two_windows(7, wid);
    bench.reactor.rules_decided(vec![wid], vec![RuleDecision::Unmanaged]);
    assert!(!bench.reactor.window_is_standard(wid));
    assert!(bench.reactor.window_is_standard(WindowId::new(7, 2)));
}

#[test]
fn indexes_find_windows_where_the_command_is_meant() {
    let mut bench = Bench::with_one_screen();
    bench.app(7, make_windows(2), Some(WindowId::new(7, 1)), true);
    bench.app(8, make_windows(2), Some(WindowId::new(8, 1)), false);
    bench.event(Event::ApplicationGloballyActivated(7));
    bench.settle();
    let sur = bench.surroundings();
    let space = Some(SpaceId::new(1));
    assert_eq!(
        bench.reactor.resolve_window_index(2, space, &sur),
        Some(WindowId::new(7, 2))
    );
    assert_eq!(bench.reactor.resolve_window_index(9, space, &sur), None);
}

#[test]
fn an_open_menu_keeps_the_focus() {
    let wid = WindowId::new(7, 2);
    let mut bench = Bench::with_two_windows(7, WindowId::new(7, 1));
    let sur = bench.surroundings();
    let stacking = Stacking { order: vec![], levels: IdMap::new() };
    assert!(bench.reactor.should_raise_on_mouse_over(wid, &stacking, &sur));
    bench.event(Event::MenuOpened(7));
    assert!(!bench.reactor.should_raise_on_mouse_over(wid, &stacking, &sur));
}

#[test]
fn entering_fullscreen_keeps_the_other_screens() {
    let mut bench = Bench::with_screens(&[screen(0.0), screen(1000.0)], &[1, 2]);
    let mut sur = bench.surroundings();
    let full = SpaceId::new(50);
    sur.fullscreen_spaces.insert(full);
    let two = SpaceId::new(2);
    let kept = bench
        .reactor
        .preserve_user_spaces_during_fullscreen_transition(vec![Some(full), Some(two)], &sur);
    assert_eq!(kept, vec![Some(full), Some(two)]);
    assert!(bench.reactor.is_fullscreen_space(full, &sur));
    assert!(!bench.reactor.is_fullscreen_space(two, &sur));

    let wid = WindowId::new(7, 1);
    bench.reactor.record_fullscreen_window(full, 7, Some(wid), Some(SpaceId::new(1)));
    assert!(bench
        .reactor
        .has_fullscreen_windows_for_spaces(&vec![Some(SpaceId::new(1))]));
    assert!(!bench.reactor.has_fullscreen_windows_for_spaces(&vec![Some(two)]));
    let tasks = bench.reactor.restore_from_fullscreen(full);
    assert!(tasks.iter().any(
        |t| matches!(t, Task::Go(Work::RestoreWindow { window, .. }) if *window == wid)
    ));
}

#[test]
fn a_window_that_was_sent_is_meant_for_its_target() {
    let wid = WindowId::new(7, 1);
    let mut bench = Bench::with_screens(&[screen(0.0), screen(1000.0)], &[1, 2]);
    bench.app(7, make_windows(1), Some(wid), true);
    bench.settle();
    let sur = bench.surroundings();
    assert_eq!(
        bench.reactor.intended_space_for_window_id(wid, &sur),
        Some(SpaceId::new(1))
    );
    let space = SpaceId::new(2);
    let workspace = bench.reactor.active_workspace_for_space(space).unwrap();
    let now = bench.now;
    bench.reactor.remember_recent_workspace_target_for(wid, space, workspace, now);
    assert_eq!(bench.reactor.intended_space_for_window_id(wid, &sur), Some(space));
    assert!(bench.reactor.recent_workspace_target_for(wid, now + 30_000).is_some());
    assert!(bench.reactor.recent_workspace_target_for(wid, now + 30_001).is_none());
}

#[test]
fn expected_activations_are_recognised_per_application_and_in_time() {
    let mut bench = Bench::new();
    let switches = &mut bench.reactor.workspace_switch_manager;
    switches.expect_quiet_activation(7, 1_000);
    assert!(!switches.should_suppress_global_activation(8, 1_100));
    assert!(switches.should_suppress_global_activation(7, 1_100));
    switches.expect_quiet_activation(7, 1_000);
    assert!(!switches.should_suppress_global_activation(7, 10_000));
    switches.start_workspace_switch(WorkspaceSwitchOrigin::Manual);
    assert!(switches.manual_switch_in_progress());
    let generation = switches.active_workspace_switch;
    switches.mark_workspace_switch_inactive();
    assert!(!switches.manual_switch_in_progress());
    switches.start_workspace_switch(WorkspaceSwitchOrigin::Auto);
    assert!(!switches.manual_switch_in_progress());
    assert_ne!(switches.active_workspace_switch, generation);
}

#[test]
fn a_click_on_an_auxiliary_window_is_used_once() {
    let pid = 7;
    let window = WindowId::new(pid, 1);
    let mut bench = Bench::with_one_screen();
    bench.app(pid, make_windows(1), Some(window), true);
    bench.settle();
    bench.command(LayoutCommand::MoveWindowToWorkspace {
        workspace: 1,
        window_id: Some(window.idx),
    });
    bench.event(Event::MouseDown(Some(elevated(pid)), point(800.0, 100.0)));
    let now = bench.now;
    assert!(bench
        .reactor
        .take_auxiliary_window_workspace_target(8, now)
        .is_none());
    assert!(bench
        .reactor
        .take_auxiliary_window_workspace_target(pid, now)
        .is_some());
    assert!(bench
        .reactor
        .take_auxiliary_window_workspace_target(pid, now)
        .is_none());
    bench.event(Event::MouseDown(Some(elevated(pid)), point(800.0, 100.0)));
    assert!(bench
        .reactor
        .take_auxiliary_window_workspace_target(pid, now + 3_001)
        .is_none());
}

#[test]
fn an_activated_application_out_of_view_comes_into_view() {
    let pid = 7;
    let window = WindowId::new(pid, 1);
    let space = SpaceId::new(1);
    let mut bench = Bench::with_one_screen();
    bench.app(pid, make_windows(1), Some(window), true);
    bench.settle();
    bench.command(LayoutCommand::MoveWindowToWorkspace {
        workspace: 1,
        window_id: Some(window.idx),
    });
    let target = bench.reactor.workspace_for_window(window);
    bench.event(Event::ApplicationDeactivated(pid));
    bench.event(Event::ApplicationGloballyDeactivated(pid));
    bench.event(Event::ApplicationGloballyActivated(pid));
    bench.settle();
    assert_eq!(bench.reactor.active_workspace_for_space(space), target);
}

#[test]
fn a_blacklisted_application_does_not_come_into_view() {
    let pid = 7;
    let window = WindowId::new(pid, 1);
    let space = SpaceId::new(1);
    let mut bench = Bench::with_one_screen();
    bench.reactor.config.settings.auto_focus_blacklist = vec!["com.testapp7".to_string()];
    bench.app(pid, make_windows(1), Some(window), true);
    bench.settle();
    let original = bench.reactor.active_workspace_for_space(space);
    bench.command(LayoutCommand::MoveWindowToWorkspace {
        workspace: 1,
        window_id: Some(window.idx),
    });
    bench.event(Event::ApplicationDeactivated(pid));
    bench.event(Event::ApplicationGloballyDeactivated(pid));
    bench.event(Event::ApplicationGloballyActivated(pid));
    bench.settle();
    assert_eq!(bench.reactor.active_workspace_for_space(space), original);
}

#[test]
fn effects_raise_each_window_once_and_workspaces_override_them() {
    let a = WindowId::new(1, 1);
    let b = WindowId::new(1, 2);
    let effects =
        vec![Effect::RaiseWindow(a), Effect::FocusWindow(b), Effect::RaiseWindow(a), Effect::Other];
    let response = response_for_effects(&effects);
    assert_eq!(response.raise_windows, vec![a]);
    assert_eq!(response.focus_window, Some(b));

    let mut bench = Bench::with_two_windows(7, WindowId::new(7, 1));
    let id = bench.reactor.core.workspaces[0].id;
    bench.desk.focus(WindowId::new(7, 2));
    let transition =
        bench.desk.transition(effects, vec![DomainEvent::WorkspaceChanged { workspace: id }]);
    let response = layout_response_for_transition(&transition);
    assert_eq!(response.raise_windows.len(), 2);
    assert_eq!(response.focus_window, Some(WindowId::new(7, 2)));
}

#[test]
fn a_forgotten_window_is_unknown() {
    let wid = WindowId::new(7, 1);
    let wsid = WindowServerId::new(70_001);
    let mut bench = Bench::with_two_windows(7, wid);
    assert!(bench.reactor.window_manager.knows_window_server_id(wsid));
    assert_eq!(bench.reactor.window_manager.remove_window_server_state(wsid), Some(wid));
    assert!(!bench.reactor.window_manager.knows_window_server_id(wsid));
    assert_eq!(bench.reactor.window_manager.tracked_window_id(wsid), None);
}

#[test]
fn screens_are_found_by_points_frames_and_directions() {
    let screens = make_screens(
        &[screen(0.0), screen(1000.0)],
        &[Some(SpaceId::new(1)), Some(SpaceId::new(2))],
    );
    assert_eq!(screen_for_point(&screens, point(10.0, 10.0)), Some(0));
    assert_eq!(screen_for_point(&screens, point(-10.0, 10.0)), None);
    assert_eq!(closest_screen_to_point(&screens, point(2500.0, 10.0)), Some(1));
    assert_eq!(
        best_space_for_frame(&screens, &rect(900.0, 0.0, 300.0, 300.0)),
        Some(SpaceId::new(2))
    );
    assert_eq!(
        screen_for_direction_from_point(&screens, point(500.0, 500.0), Direction::Right),
        Some(1)
    );
    assert_eq!(
        screen_for_direction_from_point(&screens, point(500.0, 500.0), Direction::Left),
        None
    );
    assert_eq!(screens_in_physical_order(&screens), vec![0, 1]);
    assert_eq!(screen_for_uuid(&screens, &"test-display-1".to_string()), Some(1));
}

#[test]
fn a_report_without_a_display_that_was_not_removed_is_ignored() {
    let mut bench = Bench::with_screens(&[screen(0.0), screen(1000.0)], &[1, 2]);
    bench.event(Event::ScreenParametersChanged(make_screens(
        &[screen(0.0)],
        &[Some(SpaceId::new(1))],
    )));
    assert_eq!(bench.reactor.space_manager.screens.len(), 2);
}

#[test]
fn displays_are_committed_after_a_reconfiguration() {
    let wid = WindowId::new(7, 1);
    let mut bench = Bench::with_screens(&[screen(0.0), screen(1000.0)], &[1, 2]);
    bench.app(7, make_windows(1), Some(wid), true);
    bench.settle();
    let c = Reconfiguration { epoch: 2, flags: 1 << 5, completed_flags: 1 << 5 };
    let now = bench.now;
    let tasks = bench.reactor.handle_event(Event::DisplayChurnBegin, c, now);
    assert!(tasks.is_empty());
    let tasks = bench.reactor.handle_event(Event::DisplayChurnEnd, c, now);
    assert!(tasks.is_empty());
    bench.event(Event::ScreenParametersChanged(make_screens(
        &[screen(0.0)],
        &[Some(SpaceId::new(1))],
    )));
    bench.settle();
    assert_eq!(bench.reactor.space_manager.screens.len(), 1);
    assert!(!bench.reactor.display_topology_manager.is_churning_or_awaiting_commit());
    assert_eq!(bench.reactor.window_manager.tracked_window_count(), 1);
}

#[test]
fn numbers_of_writes_are_never_zero() {
    let wsid = WindowServerId::new(1);
    let mut writes = TransactionManager::new();
    assert_eq!(writes.generate_next_txid(wsid), TransactionId(1));
    writes.set_last_sent_txid(wsid, TransactionId(u32::MAX));
    assert_eq!(writes.generate_next_txid(wsid), TransactionId(1));
    writes.store_txid(wsid, TransactionId(5), screen(0.0));
    assert_eq!(writes.get_target_frame(wsid), Some(screen(0.0)));
    writes.clear_target_for_window(wsid);
    assert_eq!(writes.get_target_frame(wsid), None);
    assert_eq!(writes.get_last_sent_txid(wsid), TransactionId(5));
    writes.remove_for_window(wsid);
    assert_eq!(writes.get_last_sent_txid(wsid), TransactionId(0));
}

#[test]
fn windows_move_between_displays() {
    let wid = WindowId::new(7, 1);
    let mut bench = Bench::with_screens(&[screen(0.0), screen(1000.0)], &[1, 2]);
    bench.app(7, make_windows(1), Some(wid), true);
    bench.event(Event::ApplicationGloballyActivated(7));
    bench.settle();
    bench.event(Event::Command(Command::Reactor(ReactorCommand::MoveWindowToDisplay {
        selector: DisplaySelector::Direction(Direction::Right),
        window_id: None,
    })));
    bench.settle();
    let target = bench.reactor.active_workspace_for_space(SpaceId::new(2));
    assert_eq!(bench.reactor.workspace_for_window(wid), target);
    assert!(screen(1000.0).contains_rect(&bench.frame(wid)));
}

#[test]
fn a_space_that_is_given_up_is_told_to_the_policy() {
    let mut bench = Bench::with_two_windows(7, WindowId::new(7, 1));
    let sur = bench.surroundings();
    let tasks = CommandEventHandler::handle_command_reactor_toggle_space_activated(
        &bench.reactor,
        &sur,
    );
    assert!(matches!(
        tasks[0],
        Task::Tell(Message::Policy(PolicyNote::Toggled { space, .. })) if space == SpaceId::new(1)
    ));
    bench.run(tasks);
    assert!(bench.reactor.is_space_active(SpaceId::new(1)));
}

#[test]
fn exits_save_first() {
    let desk = Desk::default();
    let reply = Ok(desk.transition(vec![Effect::Save, Effect::Other, Effect::Shutdown], vec![]));
    assert_eq!(
        CommandEventHandler::handle_command_reactor_save_and_exit(&reply),
        vec![ExitStep::Save, ExitStep::Shutdown]
    );
    let refused = Err(CoreError::InvalidCommand("no".to_string()));
    assert!(CommandEventHandler::handle_command_reactor_save_and_exit(&refused).is_empty());
}

#[test]
fn slots_follow_the_number_row() {
    assert_eq!(number_for_slot(0).map(|n| n.get()), Some(1));
    assert_eq!(number_for_slot(8).map(|n| n.get()), Some(9));
    assert_eq!(number_for_slot(9).map(|n| n.get()), Some(0));
    assert!(number_for_slot(10).is_none());
    assert!(matches!(
        CommandEventHandler::core_workspace_number(300),
        Err(CoreError::InvalidCommand(text)) if text == "workspace slot 300 is out of range"
    ));
}

// ---------------------------------------------------------------------------
// The diagnostic log.

fn trace() -> UserInputTrace {
    UserInputTrace {
        source: "resize_mode".to_string(),
        input: TracedInput::Key(KeyCode::ArrowUp),
        command: WmCommand::ReactorCommand(Command::Layout(
            LayoutCommand::ResizeWindowDirectional(Direction::Up),
        )),
    }
}

#[test]
fn user_inputs_are_noted() {
    let mut bench = Bench::with_one_screen();
    bench.notes.clear();
    bench.event(Event::UserInput(trace()));
    assert_eq!(bench.notes.len(), 1);
    match &bench.notes[0] {
        DiagnosticNote::Input(input) => {
            assert_eq!(input.source, "resize_mode");
            assert_eq!(input.input, TracedInput::Key(KeyCode::ArrowUp));
            assert!(input.command.same(&trace().command));
        }
        _ => panic!("no input was noted"),
    }
}

#[test]
fn commands_are_noted_from_begin_to_end() {
    let mut bench = Bench::with_two_windows(7, WindowId::new(7, 1));
    bench.notes.clear();
    bench.command(LayoutCommand::NextWindow);
    assert!(matches!(
        bench.notes.first(),
        Some(DiagnosticNote::OperationBegun(Command::Layout(LayoutCommand::NextWindow)))
    ));
    assert!(matches!(bench.notes.last(), Some(DiagnosticNote::OperationFinished)));
}

#[test]
fn the_end_of_a_command_is_noted_during_a_reconfiguration() {
    let mut bench = Bench::with_one_screen();
    let c = Reconfiguration { epoch: 2, flags: 0, completed_flags: 0 };
    let now = bench.now;
    assert!(bench.reactor.handle_event(Event::DisplayChurnBegin, c, now).is_empty());
    bench.notes.clear();
    bench.command(LayoutCommand::NextWindow);
    assert_eq!(bench.notes.len(), 2);
    assert!(matches!(bench.notes[1], DiagnosticNote::OperationFinished));
}

#[test]
fn moves_to_workspaces_are_noted() {
    let window = WindowId::new(7, 1);
    let mut bench = Bench::with_two_windows(7, window);
    bench.notes.clear();
    bench.command(LayoutCommand::MoveWindowToWorkspace { workspace: 1, window_id: None });
    assert_eq!(bench.notes.len(), 4);
    match &bench.notes[1] {
        DiagnosticNote::MoveWindowResolution(resolution) => {
            assert_eq!(resolution.requested_slot_zero_based, 1);
            assert_eq!(resolution.requested_workspace_number, Some(2));
            assert_eq!(resolution.resolved_window, Some(window));
            assert!(resolution.resolved_window_workspace.is_some());
        }
        _ => panic!("no resolution was noted"),
    }
    let target = bench.reactor.workspace_for_window(window);
    assert!(matches!(
        bench.notes[2],
        DiagnosticNote::MoveWindowResult(MoveResult::Accepted { window: moved, actual_workspace })
            if moved == window && actual_workspace == target
    ));

    bench.notes.clear();
    bench.command(LayoutCommand::MoveWindowToWorkspace { workspace: 20, window_id: None });
    assert!(matches!(
        bench.notes[2],
        DiagnosticNote::MoveWindowResult(MoveResult::NoSuchSlot(20))
    ));
}

#[test]
fn moves_without_a_window_are_noted() {
    let mut bench = Bench::with_one_screen();
    bench.notes.clear();
    bench.command(LayoutCommand::MoveWindowToWorkspace { workspace: 1, window_id: None });
    assert!(matches!(
        bench.notes[2],
        DiagnosticNote::MoveWindowResult(MoveResult::IgnoredWithoutCurrentWindow)
    ));
}

#[test]
fn refused_moves_are_noted_where_asked() {
    let window = WindowId::new(7, 1);
    for noted in [true, false] {
        let mut bench = Bench::with_two_windows(7, window);
        let sur = bench.surroundings();
        let tasks = CommandEventHandler::current_window_moved(
            &mut bench.reactor,
            Err(CoreError::InvalidCommand("no".to_string())),
            window,
            Some(window),
            noted,
            &sur,
        );
        bench.notes.clear();
        bench.run(tasks);
        let rejected = bench.notes.iter().any(|note| {
            matches!(
                note,
                DiagnosticNote::MoveWindowResult(MoveResult::Rejected(
                    CoreError::InvalidCommand(text)
                )) if text == "no"
            )
        });
        assert_eq!(rejected, noted);
    }
}

#[test]
fn snapshots_and_new_settings_are_noted() {
    let mut bench = Bench::with_one_screen();
    bench.notes.clear();
    bench.observe_and_publish();
    assert_eq!(bench.notes.len(), 1);
    assert!(matches!(bench.notes[0], DiagnosticNote::Snapshot));

    bench.notes.clear();
    bench.event(Event::ConfigUpdated(config()));
    assert!(matches!(bench.notes[0], DiagnosticNote::Reconfigured));
}

// ---------------------------------------------------------------------------
// What is listed twice.

fn doubled(frames: &[Rect]) -> Vec<ScreenInfo> {
    frames
        .iter()
        .map(|frame| ScreenInfo {
            id: 5,
            frame: *frame,
            space: Some(SpaceId::new(1)),
            display_uuid: "twice".to_string(),
            name: None,
        })
        .collect()
}

#[test]
fn displays_that_are_listed_twice_are_pruned_and_migrated_once() {
    let mut bench = Bench::new();
    bench.event(Event::ScreenParametersChanged(doubled(&[screen(0.0), screen(0.0)])));
    let pruned: Vec<&Vec<String>> = bench
        .told
        .iter()
        .filter_map(|m| match m {
            Message::PruneDisplays(list) => Some(list),
            _ => None,
        })
        .collect();
    assert_eq!(pruned, vec![&vec!["twice".to_string()]]);

    let c = Reconfiguration { epoch: 2, flags: 1 << 5, completed_flags: 1 << 5 };
    let now = bench.now;
    bench.reactor.handle_event(Event::DisplayChurnBegin, c, now);
    bench.told.clear();
    bench.event(Event::ScreenParametersChanged(make_screens(
        &[screen(0.0)],
        &[Some(SpaceId::new(1))],
    )));
    let moved = bench
        .told
        .iter()
        .filter(|m| {
            matches!(m, Message::MigrateWorkspaces { from, to }
                if from == "twice" && to == "test-display-0")
        })
        .count();
    assert_eq!(moved, 1);
}

fn resized(before: Vec<ScreenInfo>, after: Vec<ScreenInfo>) -> Vec<SpaceId> {
    let mut bench = Bench::new();
    bench.event(Event::ScreenParametersChanged(before));
    let sur = bench.surroundings();
    let tasks =
        SpaceEventHandler::handle_screen_parameters_changed(&mut bench.reactor, after, &sur);
    for task in tasks {
        if let Task::Go(Work::ExposeResized(spaces)) = task {
            return spaces;
        }
    }
    panic!("no screens were compared");
}

#[test]
fn the_last_of_two_screens_with_one_id_is_compared() {
    let small = rect(0.0, 0.0, 500.0, 500.0);
    let large = rect(0.0, 0.0, 800.0, 800.0);
    let space = SpaceId::new(1);
    assert_eq!(resized(doubled(&[small, large]), doubled(&[large])), vec![]);
    assert_eq!(resized(doubled(&[small, large]), doubled(&[small])), vec![space]);
    assert_eq!(resized(doubled(&[large]), doubled(&[large, small])), vec![space, space]);
}

#[test]
fn windows_that_are_listed_twice_appear_once() {
    let mut bench = Bench::with_one_screen();
    let c = Reconfiguration { epoch: 2, flags: 0, completed_flags: 0 };
    let now = bench.now;
    bench.reactor.handle_event(Event::DisplayChurnBegin, c, now);
    bench.reactor.handle_event(Event::DisplayChurnEnd, c, now);
    let wsid = WindowServerId::new(90);
    let info = |x: f64| WindowServerInfo {
        pid: 9,
        id: wsid,
        layer: 0,
        frame: rect(x, 0.0, 100.0, 100.0),
        min_frame: Size { width: 0, height: 0 },
        max_frame: Size { width: 0, height: 0 },
    };
    let mut sur = bench.surroundings();
    sur.window_spaces.insert(wsid, SpaceId::new(1));
    let mut managed = IdSet::new();
    managed.insert(wsid);
    let infos = vec![info(0.0), info(50.0)];
    let snapshot = bench.reactor.build_display_snapshot(&infos, &sur);
    assert_eq!(snapshot.windows.get(wsid).map(|w| w.info.frame), Some(info(50.0).frame));
    let tasks = bench.reactor.reconcile_windows_after_topology_commit(&infos, &managed, &sur);
    let appeared: Vec<Rect> = tasks
        .iter()
        .filter_map(|task| match task {
            Task::Go(Work::SnapshotAppeared { info, .. }) => Some(info.frame),
            _ => None,
        })
        .collect();
    assert_eq!(appeared, vec![info(50.0).frame]);
}

// ---------------------------------------------------------------------------
// Discovery.

#[test]
fn marks_of_applied_rules_expire() {
    let mut bench = Bench::with_two_windows(7, WindowId::new(7, 1));
    let old = WindowServerId::new(501);
    let young = WindowServerId::new(502);
    let manager = &mut bench.reactor.window_manager;
    manager.mark_wsid_recent(old, bench.now - 1_000);
    manager.mark_wsid_recent(young, bench.now - 999);
    bench.event(Event::WindowsDiscovered {
        pid: 7,
        new: vec![],
        known_visible: vec![WindowId::new(7, 1), WindowId::new(7, 2)],
    });
    assert!(!bench.reactor.window_manager.recent_wsids.contains_key(old));
    assert!(bench.reactor.window_manager.recent_wsids.contains_key(young));
}

#[test]
fn the_sign_of_an_extent_does_not_make_a_window_tiny() {
    let listed = WindowId::new(7, 1);
    let unlisted = WindowId::new(7, 2);
    for (extent, stale) in [(-500.0, false), (-1.0, true), (1.0, true), (500.0, false)] {
        let mut bench = Bench::with_two_windows(7, listed);
        let wsid = bench.windows[&unlisted].sys_id;
        let mut info = bench.info(7, 2);
        info.frame.size.width = points(extent);
        bench.reactor.window_manager.window_server_info.insert(wsid, info);
        bench.reactor.window_manager.visible_windows.remove(wsid);
        let sightings =
            Sightings { on_managed: bench.wsids(), suitable: bench.wsids(), ordered_in: bench.wsids() };
        let sur = bench.surroundings();
        let tasks = WindowDiscoveryHandler::windows_discovered(
            &mut bench.reactor,
            7,
            &vec![],
            vec![listed],
            &sightings,
            &sur,
        );
        let gone =
            tasks.iter().any(|t| matches!(t, Task::Go(Work::StaleWindow(w)) if *w == unlisted));
        assert_eq!(gone, stale, "{extent}");
    }
}

// ---------------------------------------------------------------------------
// Texts.

#[test]
fn refused_workspace_commands_say_what_they_were_about() {
    let bench = Bench::with_one_screen();
    let refused = |space: Option<SpaceId>, command: LayoutCommand| {
        match CommandEventHandler::workspace_command(&bench.reactor, space, command) {
            Ok(_) => panic!("the command was taken"),
            Err(CoreError::IncompleteObservation(text)) => text,
            Err(CoreError::InvalidCommand(text)) => text,
            Err(CoreError::UnsupportedCommand(text)) => text,
            Err(CoreError::InvariantViolation(text)) => text,
        }
    };
    assert_eq!(
        refused(None, LayoutCommand::CreateWorkspace),
        "workspace command has no active native Space"
    );
    assert_eq!(
        refused(Some(SpaceId::new(77)), LayoutCommand::CreateWorkspace),
        "workspace command Space SpaceId(77) has no display identity"
    );
    assert_eq!(
        refused(Some(SpaceId::new(1)), LayoutCommand::SwitchToWorkspace(40)),
        "display DisplayId(\"test-display-0\") has no workspace at index 40"
    );
    assert_eq!(
        refused(Some(SpaceId::new(1)), LayoutCommand::MoveFocus(Direction::Left)),
        "MoveFocus(Left) is not a workspace reducer command"
    );
    assert_eq!(index_error_text("x", 3), "display DisplayId(x) has no workspace at index 3");
}

#[test]
fn commands_are_written_as_for_debugging() {
    let commands = [
        LayoutCommand::NextWindow,
        LayoutCommand::MoveNode(Direction::Down),
        LayoutCommand::SwapWindows(WindowId::new(-3, 1), WindowId::new(4, 20)),
        LayoutCommand::ResizeWindowDirectional(Direction::Up),
        LayoutCommand::NextWorkspace(Some(true)),
        LayoutCommand::PrevWorkspace(Option::None),
        LayoutCommand::SwitchToGlobalSlot(12),
        LayoutCommand::MoveWindowToWorkspace { workspace: 2, window_id: Some(7) },
        LayoutCommand::MoveWindowToHiddenWorkspace { window_id: Option::None },
    ];
    for command in commands {
        assert_eq!(command_text(command), format!("{command:?}"));
    }
    for (amount, text) in
        [(500, 0.05), (-10_000, -1.0), (12_340, 1.234), (1, 0.0001), (0, 0.0), (-25_001, -2.5001)]
    {
        assert_eq!(
            command_text(LayoutCommand::ResizeWindowBy { amount }),
            format!("ResizeWindowBy {{ amount: {text:?} }}")
        );
    }
}

#[test]
fn moves_of_windows_without_a_workspace_are_noted_as_deferred() {
    let window = WindowId::new(7, 9);
    let mut bench = Bench::with_two_windows(7, WindowId::new(7, 1));
    bench.event(Event::ApplicationMainWindowChanged(7, Some(window), Quiet::No));
    assert_eq!(bench.reactor.main_window(), Some(window));
    bench.notes.clear();
    bench.command(LayoutCommand::MoveWindowToWorkspace { workspace: 1, window_id: Option::None });
    assert!(matches!(
        bench.notes[2],
        DiagnosticNote::MoveWindowResult(MoveResult::DeferredUntilWindowAssignment(w))
            if w == window
    ));
    assert!(bench.reactor.workspace_for_window(window).is_none());
}

// ---------------------------------------------------------------------------
// Configuration.

const NO_MODIFIERS: Modifiers = Modifiers {
    shift_left: false,
    shift_right: false,
    control_left: false,
    control_right: false,
    alt_left: false,
    alt_right: false,
    meta_left: false,
    meta_right: false,
};

fn bound_config(key: u16, spelling: &str) -> Config {
    let command =
        || WmCommand::ReactorCommand(Command::Layout(LayoutCommand::MoveFocus(Direction::Left)));
    let hotkey = Hotkey { modifiers: NO_MODIFIERS, key_code: KeyCode::Other(key) };
    Config {
        keys: vec![(hotkey, command())],
        key_specs: vec![(spelling.to_string(), command())],
        ..config()
    }
}

fn hears_of_hotkeys(bench: &Bench) -> bool {
    bench.told.iter().any(|m| matches!(m, Message::WmConfigUpdated))
}

#[test]
fn refused_configurations_change_nothing() {
    let mut bench = Bench::with_one_screen();
    bench.event(Event::RegisterWmSender);
    bench.refuses_config = true;
    bench.notes.clear();
    bench.told.clear();
    let mut refused = bound_config(1, "a");
    refused.settings.animate = true;
    bench.event(Event::ConfigUpdated(refused));
    assert!(!bench.reactor.config.settings.animate);
    assert!(bench.reactor.config.keys.is_empty());
    assert!(bench.configured.is_empty());
    assert!(bench.notes.is_empty());
    assert!(!hears_of_hotkeys(&bench));
    assert!(!bench.told.iter().any(|m| {
        matches!(m, Message::StackLineConfigUpdated | Message::MenuConfigUpdated)
    }));
}

#[test]
fn accepted_configurations_reach_the_model_and_the_others() {
    let mut bench = Bench::with_one_screen();
    bench.event(Event::RegisterWmSender);
    bench.told.clear();
    let mut accepted = bound_config(1, "a");
    accepted.settings.animate = true;
    bench.event(Event::ConfigUpdated(accepted));
    assert!(bench.reactor.config.settings.animate);
    assert_eq!(bench.configured.len(), 1);
    assert!(bench.configured[0].settings.animate);
    assert_eq!(bench.configured[0].key_specs[0].0, "a");
    assert!(bench.told.iter().any(|m| matches!(m, Message::StackLineConfigUpdated)));
    assert!(bench.told.iter().any(|m| matches!(m, Message::MenuConfigUpdated)));
    assert!(hears_of_hotkeys(&bench));
}

#[test]
fn hotkeys_are_compared_by_their_keys() {
    let mut bench = Bench::with_one_screen();
    bench.event(Event::RegisterWmSender);
    bench.event(Event::ConfigUpdated(bound_config(1, "cmd - a")));
    bench.told.clear();
    bench.event(Event::ConfigUpdated(bound_config(1, "Cmd-A")));
    assert!(!hears_of_hotkeys(&bench));
    bench.event(Event::ConfigUpdated(bound_config(2, "Cmd-A")));
    assert!(hears_of_hotkeys(&bench));
}

// ---------------------------------------------------------------------------
// What the policy and the model are told.

#[test]
fn the_policy_gets_the_settings_and_the_displays() {
    let mut bench = Bench::new();
    bench.reactor.config.settings.default_disable = true;
    bench.reactor.one_space = true;
    let settings = SpaceActivationConfig { default_disable: true, one_space: true };
    let mut screens = make_screens(&[screen(0.0), screen(1000.0)], &[Some(SpaceId::new(1)), None]);
    screens[1].display_uuid = String::new();
    bench.event(Event::ScreenParametersChanged(screens));
    assert_eq!(
        bench.policy.last(),
        Some(&(settings, vec![Some("test-display-0".to_string()), None]))
    );
    assert!(bench.told.iter().any(|m| {
        matches!(m, Message::Policy(PolicyNote::SpacesUpdated { config, screens })
            if *config == settings
                && screens.len() == 2
                && screens[0].display_uuid == "test-display-0"
                && screens[0].space == Some(SpaceId::new(1)))
    }));
}

#[test]
fn discovered_windows_are_told_on_their_spaces() {
    let mut bench = Bench::with_screens(&[screen(0.0), screen(1000.0)], &[1, 2]);
    bench.app(7, make_windows(2), Some(WindowId::new(7, 1)), true);
    bench.settle();
    bench.told.clear();
    let sur = bench.surroundings();
    let known = vec![WindowId::new(7, 1), WindowId::new(7, 2)];
    let tasks = bench.reactor.emit_layout_events(7, &known, &sur);
    let told: Vec<(SpaceId, usize)> = tasks
        .iter()
        .filter_map(|task| match task {
            Task::Tell(Message::WindowsOnScreen { space, pid: 7, windows }) => {
                Some((*space, windows.len()))
            }
            _ => None,
        })
        .collect();
    assert_eq!(told, vec![(SpaceId::new(1), 2), (SpaceId::new(2), 0)]);
}

#[test]
fn a_refused_observation_lays_nothing_out() {
    let mut bench = Bench::with_two_windows(7, WindowId::new(7, 1));
    let displays = bench.desk.layout();
    let refused = Err(CoreError::IncompleteObservation("no".to_string()));
    let layouts = bench.reactor.calculate_layout(refused, &displays);
    assert_eq!(layouts.len(), 1);
    assert!(layouts[0].frames.is_empty());
    let reply = bench.observe();
    assert_eq!(bench.reactor.calculate_layout(reply, &displays)[0].frames.len(), 2);
}

#[test]
fn a_destroyed_window_gets_no_requested_focus() {
    let kept = WindowId::new(7, 1);
    let gone = WindowId::new(7, 2);
    let mut bench = Bench::with_two_windows(7, kept);
    let now = bench.now;
    bench.reactor.raise_sent(None, Some(gone), now);
    bench.event(Event::WindowDestroyed(gone));
    bench.event(Event::ApplicationGloballyActivated(7));
    assert_eq!(bench.reactor.main_window(), Some(kept));
}
