//! The window manager's state as the bar receives it: monitors, workspaces,
//! containers and windows, held as plain values.
//!
//! Each type has a view, its mathematical content; the rest of the crate
//! states its contracts over those views.

use std::collections::HashMap;
use vstd::prelude::*;

use crate::text::opt_str_view;

verus! {

/// A rectangle in screen coordinates.
#[derive(Clone, Copy, Debug, PartialEq, Eq, Structural)]
pub struct Rect {
    pub left: i32,
    pub top: i32,
    pub right: i32,
    pub bottom: i32,
}

/// The layer of a workspace that takes input.
#[derive(Clone, Copy, Debug, PartialEq, Eq, Structural)]
pub enum WorkspaceLayer {
    Tiling,
    Floating,
}

impl WorkspaceLayer {
    /// The name of the layer, as written on the bar.
    pub open spec fn name(self) -> Seq<char> {
        match self {
            WorkspaceLayer::Tiling => "Tiling"@,
            WorkspaceLayer::Floating => "Floating"@,
        }
    }

    /// The name of the layer.
    pub fn to_string(&self) -> (s: String)
        ensures
            s@ == self.name(),
    {
        match self {
            WorkspaceLayer::Tiling => "Tiling".to_owned(),
            WorkspaceLayer::Floating => "Floating".to_owned(),
        }
    }
}

/// The tiling algorithms that the window manager ships.
#[derive(Clone, Copy, Debug, PartialEq, Eq, Structural)]
pub enum DefaultLayout {
    BSP,
    Columns,
    Rows,
    VerticalStack,
    HorizontalStack,
    UltrawideVerticalStack,
    Grid,
    RightMainVerticalStack,
}

/// The tiling algorithm of a workspace: a shipped one, or a user's own,
/// of which the bar only knows that it is custom.
#[derive(Clone, Copy, Debug, PartialEq, Eq, Structural)]
pub enum Layout {
    Default(DefaultLayout),
    Custom,
}

/// One window of the snapshot.
#[derive(Clone, Debug, PartialEq, Eq)]
pub struct Window {
    /// Native identifier of the window.
    pub hwnd: isize,
    /// Title, where the window manager could read one.
    pub title: Option<String>,
    /// Whether an icon is loaded for this window.
    pub has_icon: bool,
    /// Whether this window has the input focus.
    pub is_focused: bool,
}

/// View of a [`Window`].
pub struct WindowSnapshot {
    pub hwnd: isize,
    pub title: Option<Seq<char>>,
    pub has_icon: bool,
    pub is_focused: bool,
}

impl View for Window {
    type V = WindowSnapshot;

    open spec fn view(&self) -> WindowSnapshot {
        WindowSnapshot {
            hwnd: self.hwnd,
            title: opt_str_view(self.title),
            has_icon: self.has_icon,
            is_focused: self.is_focused,
        }
    }
}

/// The views of a sequence of windows, in order.
pub open spec fn window_views(windows: Seq<Window>) -> Seq<WindowSnapshot> {
    Seq::new(windows.len(), |i: int| windows[i]@)
}

/// A stack of windows that share one tile.
#[derive(Clone, Debug, PartialEq, Eq)]
pub struct Container {
    pub windows: Vec<Window>,
    /// Index of the focused window, as the window manager recorded it.
    pub focused_window_idx: usize,
    pub locked: bool,
}

/// View of a [`Container`].
pub struct ContainerSnapshot {
    pub windows: Seq<WindowSnapshot>,
    pub focused_window_idx: usize,
    pub locked: bool,
}

impl View for Container {
    type V = ContainerSnapshot;

    open spec fn view(&self) -> ContainerSnapshot {
        ContainerSnapshot {
            windows: window_views(self.windows@),
            focused_window_idx: self.focused_window_idx,
            locked: self.locked,
        }
    }
}

/// The views of a sequence of containers, in order.
pub open spec fn container_views(containers: Seq<Container>) -> Seq<ContainerSnapshot> {
    Seq::new(containers.len(), |i: int| containers[i]@)
}

/// The view of an optional container.
pub open spec fn opt_container_view(container: Option<Container>) -> Option<ContainerSnapshot> {
    match container {
        Some(c) => Some(c@),
        None => None,
    }
}

/// The view of an optional window.
pub open spec fn opt_window_view(window: Option<Window>) -> Option<WindowSnapshot> {
    match window {
        Some(w) => Some(w@),
        None => None,
    }
}

/// One workspace of the snapshot.
#[derive(Clone, Debug, PartialEq, Eq)]
pub struct Workspace {
    pub name: Option<String>,
    /// The tiled containers, in tiling order.
    pub containers: Vec<Container>,
    /// Index of the focused tiled container, as the window manager
    /// recorded it.
    pub focused_container_idx: usize,
    /// The container that fills the workspace, if one does.
    pub monocle_container: Option<Container>,
    /// The maximized window, if there is one.
    pub maximized_window: Option<Window>,
    pub floating_windows: Vec<Window>,
    pub layout: Layout,
    /// Whether the workspace tiles its containers.
    pub tile: bool,
    pub layer: WorkspaceLayer,
}

/// View of a [`Workspace`].
pub struct WorkspaceSnapshot {
    pub name: Option<Seq<char>>,
    pub containers: Seq<ContainerSnapshot>,
    pub focused_container_idx: usize,
    pub monocle_container: Option<ContainerSnapshot>,
    pub maximized_window: Option<WindowSnapshot>,
    pub floating_windows: Seq<WindowSnapshot>,
    pub layout: Layout,
    pub tile: bool,
    pub layer: WorkspaceLayer,
}

impl View for Workspace {
    type V = WorkspaceSnapshot;

    open spec fn view(&self) -> WorkspaceSnapshot {
        WorkspaceSnapshot {
            name: opt_str_view(self.name),
            containers: container_views(self.containers@),
            focused_container_idx: self.focused_container_idx,
            monocle_container: opt_container_view(self.monocle_container),
            maximized_window: opt_window_view(self.maximized_window),
            floating_windows: window_views(self.floating_windows@),
            layout: self.layout,
            tile: self.tile,
            layer: self.layer,
        }
    }
}

impl WorkspaceSnapshot {
    /// A workspace is empty when it holds no tiled container, no monocle
    /// container, no maximized window and no floating window.
    pub open spec fn is_empty(self) -> bool {
        &&& self.containers.len() == 0
        &&& self.maximized_window is None
        &&& self.monocle_container is None
        &&& self.floating_windows.len() == 0
    }

    /// The tiled container under the recorded focus index, if the index
    /// names one.
    pub open spec fn focused_container(self) -> Option<ContainerSnapshot> {
        if self.focused_container_idx < self.containers.len() {
            Some(self.containers[self.focused_container_idx as int])
        } else {
            None
        }
    }
}

impl Workspace {
    /// Whether the workspace holds nothing at all.
    pub fn is_empty(&self) -> (r: bool)
        ensures
            r == self@.is_empty(),
    {
        self.containers.len() == 0 && self.maximized_window.is_none()
            && self.monocle_container.is_none() && self.floating_windows.len() == 0
    }

    /// The tiled container under the recorded focus index.
    pub fn focused_container(&self) -> (r: Option<&Container>)
        ensures
            match r {
                Some(c) => self@.focused_container() == Some(c@),
                None => self@.focused_container() is None,
            },
            r matches Some(c) ==> self.focused_container_idx < self.containers@.len() && *c
                == self.containers@[self.focused_container_idx as int],
    {
        if self.focused_container_idx < self.containers.len() {
            Some(&self.containers[self.focused_container_idx])
        } else {
            None
        }
    }
}

/// The views of a sequence of workspaces, in order.
pub open spec fn workspace_views(workspaces: Seq<Workspace>) -> Seq<WorkspaceSnapshot> {
    Seq::new(workspaces.len(), |i: int| workspaces[i]@)
}

/// One monitor of the snapshot.
#[derive(Clone, Debug, PartialEq, Eq)]
pub struct Monitor {
    pub workspaces: Vec<Workspace>,
    /// Index of the focused workspace, as the window manager recorded it.
    pub focused_workspace_idx: usize,
    pub work_area_offset: Option<Rect>,
}

/// View of a [`Monitor`].
pub struct MonitorSnapshot {
    pub workspaces: Seq<WorkspaceSnapshot>,
    pub focused_workspace_idx: usize,
    pub work_area_offset: Option<Rect>,
}

impl View for Monitor {
    type V = MonitorSnapshot;

    open spec fn view(&self) -> MonitorSnapshot {
        MonitorSnapshot {
            workspaces: workspace_views(self.workspaces@),
            focused_workspace_idx: self.focused_workspace_idx,
            work_area_offset: self.work_area_offset,
        }
    }
}

impl MonitorSnapshot {
    /// The focused workspace index, where it names a workspace of the
    /// monitor.
    pub open spec fn focused_workspace_idx_checked(self) -> Option<usize> {
        if self.focused_workspace_idx < self.workspaces.len() {
            Some(self.focused_workspace_idx)
        } else {
            None
        }
    }
}

/// The views of a sequence of monitors, in order.
pub open spec fn monitor_views(monitors: Seq<Monitor>) -> Seq<MonitorSnapshot> {
    Seq::new(monitors.len(), |i: int| monitors[i]@)
}

/// The whole state of the window manager at one moment.
#[derive(Clone, Debug, PartialEq, Eq)]
pub struct State {
    pub monitors: Vec<Monitor>,
    /// Whether the window manager is paused.
    pub is_paused: bool,
    pub mouse_follows_focus: bool,
    /// From the window manager's monitor indices to the user's.
    pub monitor_usr_idx_map: HashMap<usize, usize>,
}

/// View of a [`State`].
pub struct StateSnapshot {
    pub monitors: Seq<MonitorSnapshot>,
    pub is_paused: bool,
    pub mouse_follows_focus: bool,
    pub monitor_usr_idx_map: Map<usize, usize>,
}

impl View for State {
    type V = StateSnapshot;

    open spec fn view(&self) -> StateSnapshot {
        StateSnapshot {
            monitors: monitor_views(self.monitors@),
            is_paused: self.is_paused,
            mouse_follows_focus: self.mouse_follows_focus,
            monitor_usr_idx_map: self.monitor_usr_idx_map@,
        }
    }
}

/// The native identifiers of the windows, in order.
pub open spec fn window_ids(windows: Seq<WindowSnapshot>) -> Seq<isize> {
    Seq::new(windows.len(), |i: int| windows[i].hwnd)
}

/// The native identifiers of the windows of the first `upto` containers.
pub open spec fn container_window_ids(containers: Seq<ContainerSnapshot>, upto: int) -> Seq<isize>
    decreases upto,
{
    if upto <= 0 || upto > containers.len() {
        Seq::empty()
    } else {
        container_window_ids(containers, upto - 1) + window_ids(containers[upto - 1].windows)
    }
}

/// The native identifiers of the windows of the first `upto` workspaces.
pub open spec fn workspace_window_ids(workspaces: Seq<WorkspaceSnapshot>, upto: int) -> Seq<isize>
    decreases upto,
{
    if upto <= 0 || upto > workspaces.len() {
        Seq::empty()
    } else {
        workspace_window_ids(workspaces, upto - 1) + workspaces[upto - 1].window_ids()
    }
}

/// The native identifiers of the windows of the first `upto` monitors.
pub open spec fn monitor_window_ids(monitors: Seq<MonitorSnapshot>, upto: int) -> Seq<isize>
    decreases upto,
{
    if upto <= 0 || upto > monitors.len() {
        Seq::empty()
    } else {
        monitor_window_ids(monitors, upto - 1) + workspace_window_ids(
            monitors[upto - 1].workspaces,
            monitors[upto - 1].workspaces.len() as int,
        )
    }
}

impl WorkspaceSnapshot {
    /// The native identifiers of the windows of the workspace: those of
    /// the tiled containers, of the monocle container, of the maximized
    /// window and of the floating windows, in this order.
    pub open spec fn window_ids(self) -> Seq<isize> {
        container_window_ids(self.containers, self.containers.len() as int) + (
        match self.monocle_container {
            Some(c) => window_ids(c.windows),
            None => Seq::empty(),
        }) + (match self.maximized_window {
            Some(w) => seq![w.hwnd],
            None => Seq::empty(),
        }) + window_ids(self.floating_windows)
    }
}

impl StateSnapshot {
    /// The native identifiers of all windows of the state, monitor by
    /// monitor and workspace by workspace.
    pub open spec fn window_ids(self) -> Seq<isize> {
        monitor_window_ids(self.monitors, self.monitors.len() as int)
    }
}

/// Appends the identifiers of `windows` to `ids`.
fn push_window_ids(ids: &mut Vec<isize>, windows: &Vec<Window>)
    ensures
        final(ids)@ == old(ids)@ + window_ids(window_views(windows@)),
{
    let ghost before = ids@;
    let count = windows.len();
    let mut i: usize = 0;
    while i < count
        invariant
            i <= count,
            count == windows@.len(),
            ids@ == before + window_ids(window_views(windows@)).take(i as int),
        decreases count - i,
    {
        ids.push(windows[i].hwnd);
        i += 1;
        assert(ids@ =~= before + window_ids(window_views(windows@)).take(i as int));
    }
    assert(window_ids(window_views(windows@)).take(count as int) =~= window_ids(
        window_views(windows@),
    ));
}

/// Appends the identifiers of the windows of `ws` to `ids`.
fn push_workspace_window_ids(ids: &mut Vec<isize>, ws: &Workspace)
    ensures
        final(ids)@ == old(ids)@ + ws@.window_ids(),
{
    let ghost before = ids@;
    let count = ws.containers.len();
    let mut i: usize = 0;
    while i < count
        invariant
            i <= count,
            count == ws.containers@.len(),
            ids@ == before + container_window_ids(ws@.containers, i as int),
        decreases count - i,
    {
        assert(ws@.containers[i as int] == ws.containers@[i as int]@);
        push_window_ids(ids, &ws.containers[i].windows);
        i += 1;
        assert(ids@ =~= before + container_window_ids(ws@.containers, i as int));
    }
    let ghost tiled = ids@;
    match &ws.monocle_container {
        Some(c) => {
            push_window_ids(ids, &c.windows);
        },
        None => {},
    }
    let ghost stacked = ids@;
    match &ws.maximized_window {
        Some(w) => {
            ids.push(w.hwnd);
        },
        None => {},
    }
    let ghost single = ids@;
    push_window_ids(ids, &ws.floating_windows);
    assert(ids@ =~= before + ws@.window_ids()) by {
        assert(stacked =~= tiled + (match ws@.monocle_container {
            Some(c) => window_ids(c.windows),
            None => Seq::empty(),
        }));
        assert(single =~= stacked + (match ws@.maximized_window {
            Some(w) => seq![w.hwnd],
            None => Seq::empty(),
        }));
    }
}

impl State {
    /// The native identifiers of all windows of the state. An icon kept
    /// for an identifier that is not among them belongs to a window that
    /// is gone.
    pub fn window_ids(&self) -> (ids: Vec<isize>)
        ensures
            ids@ == self@.window_ids(),
    {
        let mut ids: Vec<isize> = Vec::new();
        let count = self.monitors.len();
        let mut m: usize = 0;
        while m < count
            invariant
                m <= count,
                count == self.monitors@.len(),
                ids@ == monitor_window_ids(self@.monitors, m as int),
            decreases count - m,
        {
            let monitor = &self.monitors[m];
            assert(self@.monitors[m as int] == monitor@);
            let ghost before = ids@;
            let len = monitor.workspaces.len();
            let mut w: usize = 0;
            while w < len
                invariant
                    w <= len,
                    len == monitor.workspaces@.len(),
                    ids@ == before + workspace_window_ids(monitor@.workspaces, w as int),
                decreases len - w,
            {
                assert(monitor@.workspaces[w as int] == monitor.workspaces@[w as int]@);
                push_workspace_window_ids(&mut ids, &monitor.workspaces[w]);
                w += 1;
                assert(ids@ =~= before + workspace_window_ids(monitor@.workspaces, w as int));
            }
            m += 1;
        }
        ids
    }
}

} // verus!
