//! The model of one monitor, and how a snapshot of the window manager's
//! state is taken into it.

use std::collections::HashMap;
use vstd::prelude::*;

use crate::container::{container_info_views, ContainerInfo, ContainerView};
use crate::error::BarError;
use crate::layout::{resolved_layout, KomorebiLayout};
use crate::state::{
    workspace_views, Layout, Rect, State, StateSnapshot, Workspace, WorkspaceLayer,
    WorkspaceSnapshot,
};
use crate::text::{decimal, decimal_string};

verus! {

/// A colour, one byte per channel.
#[derive(Clone, Copy, Debug, PartialEq, Eq, Structural)]
pub struct Rgba {
    pub r: u8,
    pub g: u8,
    pub b: u8,
    pub a: u8,
}

/// A workspace as the bar shows it.
#[derive(Clone, Debug, PartialEq, Eq)]
pub struct WorkspaceInfo {
    pub name: String,
    pub containers: Vec<ContainerInfo>,
    /// Index of the first focused container in `containers`.
    pub focused_container_idx: Option<usize>,
    pub layer: WorkspaceLayer,
    /// Whether the workspace gets an entry on the bar.
    pub should_show: bool,
    /// Whether this is the focused workspace of its monitor.
    pub is_selected: bool,
    /// Whether a window of the workspace has an icon.
    pub has_icons: bool,
}

/// View of a [`WorkspaceInfo`].
pub struct WorkspaceView {
    pub name: Seq<char>,
    pub containers: Seq<ContainerView>,
    pub focused_container_idx: Option<usize>,
    pub layer: WorkspaceLayer,
    pub should_show: bool,
    pub is_selected: bool,
    pub has_icons: bool,
}

impl View for WorkspaceInfo {
    type V = WorkspaceView;

    open spec fn view(&self) -> WorkspaceView {
        WorkspaceView {
            name: self.name@,
            containers: container_info_views(self.containers@),
            focused_container_idx: self.focused_container_idx,
            layer: self.layer,
            should_show: self.should_show,
            is_selected: self.is_selected,
            has_icons: self.has_icons,
        }
    }
}

/// The views of a sequence of workspaces, in order.
pub open spec fn workspace_info_views(workspaces: Seq<WorkspaceInfo>) -> Seq<WorkspaceView> {
    Seq::new(workspaces.len(), |i: int| workspaces[i]@)
}

/// The index of the first focused container at or after `from`.
pub open spec fn first_focused_container(containers: Seq<ContainerView>, from: int) -> Option<
    usize,
>
    decreases containers.len() - from,
{
    if from < 0 || from >= containers.len() || from > usize::MAX {
        None
    } else if containers[from].is_focused {
        Some(from as usize)
    } else {
        first_focused_container(containers, from + 1)
    }
}

/// What [`first_focused_container`] finds is focused and nothing before it
/// is; where it finds nothing, nothing is focused.
pub proof fn lemma_first_focused_container(containers: Seq<ContainerView>, from: int)
    requires
        0 <= from,
    ensures
        match first_focused_container(containers, from) {
            Some(i) => {
                &&& from <= i < containers.len()
                &&& containers[i as int].is_focused
                &&& forall|j: int| from <= j < i ==> !(#[trigger] containers[j]).is_focused
            },
            None => forall|j: int|
                from <= j < containers.len() && j <= usize::MAX ==> !(
                #[trigger] containers[j]).is_focused,
        },
    decreases containers.len() - from,
{
    if from < containers.len() && from <= usize::MAX && !containers[from].is_focused {
        lemma_first_focused_container(containers, from + 1);
    }
}

/// Whether a window of one of the containers has an icon.
pub open spec fn any_icon(containers: Seq<ContainerView>) -> bool {
    exists|i: int| 0 <= i < containers.len() && (#[trigger] containers[i]).has_icon()
}

impl WorkspaceView {
    /// The focused container index, where there is one, names a container.
    pub open spec fn focus_valid(self) -> bool {
        self.focused_container_idx matches Some(i) ==> i < self.containers.len()
    }

    /// In every container the focused window index names a window, unless
    /// the container has none.
    pub open spec fn window_focus_valid(self) -> bool {
        forall|i: int|
            0 <= i < self.containers.len() ==> (#[trigger] self.containers[i]).focus_in_range()
    }

    /// The container under the focused container index.
    pub open spec fn focused_container(self) -> Option<ContainerView> {
        match self.focused_container_idx {
            Some(i) if i < self.containers.len() => Some(self.containers[i as int]),
            _ => None,
        }
    }
}

impl WorkspaceSnapshot {
    /// The name on the bar: the workspace's own, or its place on the
    /// monitor, counted from one.
    pub open spec fn label(self, index: usize) -> Seq<char> {
        match self.name {
            Some(name) => name,
            None => decimal((index + 1) as nat),
        }
    }

    /// Whether the workspace gets an entry on the bar: always where empty
    /// workspaces are not hidden, and else where it is selected or holds
    /// something.
    pub open spec fn should_show(self, hide_empty_ws: bool, is_selected: bool) -> bool {
        !hide_empty_ws || is_selected || !self.is_empty()
    }

    /// The workspace at place `index` of its monitor, as the bar shows it.
    pub open spec fn info(
        self,
        index: usize,
        show_all_icons: bool,
        hide_empty_ws: bool,
        focused_ws_idx: Option<usize>,
    ) -> WorkspaceView {
        let containers = self.shown_containers(show_all_icons);
        let is_selected = focused_ws_idx == Some(index);
        WorkspaceView {
            name: self.label(index),
            containers,
            focused_container_idx: first_focused_container(containers, 0),
            layer: self.layer,
            should_show: self.should_show(hide_empty_ws, is_selected),
            is_selected,
            has_icons: any_icon(containers),
        }
    }

}

/// The workspaces of a monitor as the bar shows them, in order.
pub open spec fn projected_workspaces(
    workspaces: Seq<WorkspaceSnapshot>,
    show_all_icons: bool,
    hide_empty_ws: bool,
    focused_ws_idx: Option<usize>,
) -> Seq<WorkspaceView> {
    Seq::new(
        workspaces.len(),
        |i: int| workspaces[i].info(i as usize, show_all_icons, hide_empty_ws, focused_ws_idx),
    )
}

impl WorkspaceInfo {
    /// The container that has the focus.
    pub fn focused_container(&self) -> (container: Option<&ContainerInfo>)
        ensures
            match container {
                Some(c) => self@.focused_container() == Some(c@),
                None => self@.focused_container() is None,
            },
            container matches Some(c) ==> self.focused_container_idx matches Some(i) && i
                < self.containers@.len() && *c == self.containers@[i as int],
    {
        match self.focused_container_idx {
            Some(i) => {
                if i < self.containers.len() {
                    Some(&self.containers[i])
                } else {
                    None
                }
            },
            None => None,
        }
    }
}

/// The model of one monitor: what the widgets of one bar show.
#[derive(Clone, Debug, PartialEq, Eq)]
pub struct MonitorInfo {
    pub workspaces: Vec<WorkspaceInfo>,
    pub layout: KomorebiLayout,
    pub mouse_follows_focus: bool,
    pub work_area_offset: Option<Rect>,
    pub stack_accent: Option<Rgba>,
    /// Index of the monitor that this bar shows.
    pub monitor_index: usize,
    pub monitor_usr_idx_map: HashMap<usize, usize>,
    pub focused_workspace_idx: Option<usize>,
    /// Whether every container of a workspace is shown, or the focused
    /// one alone.
    pub show_all_icons: bool,
    pub hide_empty_workspaces: bool,
}

/// View of a [`MonitorInfo`].
pub struct MonitorModel {
    pub workspaces: Seq<WorkspaceView>,
    pub layout: KomorebiLayout,
    pub mouse_follows_focus: bool,
    pub work_area_offset: Option<Rect>,
    pub stack_accent: Option<Rgba>,
    pub monitor_index: usize,
    pub monitor_usr_idx_map: Map<usize, usize>,
    pub focused_workspace_idx: Option<usize>,
    pub show_all_icons: bool,
    pub hide_empty_workspaces: bool,
}

impl View for MonitorInfo {
    type V = MonitorModel;

    open spec fn view(&self) -> MonitorModel {
        MonitorModel {
            workspaces: workspace_info_views(self.workspaces@),
            layout: self.layout,
            mouse_follows_focus: self.mouse_follows_focus,
            work_area_offset: self.work_area_offset,
            stack_accent: self.stack_accent,
            monitor_index: self.monitor_index,
            monitor_usr_idx_map: self.monitor_usr_idx_map@,
            focused_workspace_idx: self.focused_workspace_idx,
            show_all_icons: self.show_all_icons,
            hide_empty_workspaces: self.hide_empty_workspaces,
        }
    }
}

impl MonitorModel {
    /// The index of the monitor to show: the one asked for, or else the
    /// one shown so far.
    pub open spec fn effective_index(self, monitor_index: Option<usize>) -> usize {
        match monitor_index {
            Some(index) => index,
            None => self.monitor_index,
        }
    }

    /// The model after it has taken in `state` for the monitor at `index`.
    /// The workspaces are rebuilt from the state; the focused workspace is
    /// the one that the state records, where that index names one; the
    /// layout is the resolved layout of the focused workspace, and stays
    /// as it was where there is none.
    pub open spec fn synchronized(
        self,
        index: usize,
        state: StateSnapshot,
        show_all_icons: bool,
    ) -> MonitorModel
        recommends
            index < state.monitors.len(),
    {
        let monitor = state.monitors[index as int];
        let focused = monitor.focused_workspace_idx_checked();
        MonitorModel {
            workspaces: projected_workspaces(
                monitor.workspaces,
                show_all_icons,
                self.hide_empty_workspaces,
                focused,
            ),
            layout: match focused {
                Some(f) => resolved_layout(monitor.workspaces[f as int], state.is_paused),
                None => self.layout,
            },
            mouse_follows_focus: state.mouse_follows_focus,
            work_area_offset: monitor.work_area_offset,
            stack_accent: self.stack_accent,
            monitor_index: index,
            monitor_usr_idx_map: state.monitor_usr_idx_map,
            focused_workspace_idx: focused,
            show_all_icons,
            hide_empty_workspaces: self.hide_empty_workspaces,
        }
    }

    /// Every focus index of the model that is present names an element:
    /// the focused workspace index a workspace, and in each workspace the
    /// focused container index a container.
    pub open spec fn focus_valid(self) -> bool {
        &&& self.focused_workspace_idx matches Some(i) ==> i < self.workspaces.len()
        &&& forall|i: int|
            0 <= i < self.workspaces.len() ==> (#[trigger] self.workspaces[i]).focus_valid()
    }

    /// In every container of the model the focused window index names a
    /// window, unless the container has none.
    pub open spec fn window_focus_valid(self) -> bool {
        forall|i: int|
            0 <= i < self.workspaces.len() ==> (#[trigger] self.workspaces[i]).window_focus_valid()
    }

    /// The workspace under the focused workspace index.
    pub open spec fn focused_workspace(self) -> Option<WorkspaceView> {
        match self.focused_workspace_idx {
            Some(i) if i < self.workspaces.len() => Some(self.workspaces[i as int]),
            _ => None,
        }
    }

    /// The focused container of the focused workspace.
    pub open spec fn focused_container(self) -> Option<ContainerView> {
        match self.focused_workspace() {
            Some(ws) => ws.focused_container(),
            None => None,
        }
    }
}

impl MonitorInfo {
    /// The model of a bar that has not seen a state yet.
    pub fn new(monitor_index: usize, hide_empty_workspaces: bool) -> (info: MonitorInfo)
        ensures
            info@ == (MonitorModel {
                workspaces: Seq::empty(),
                layout: KomorebiLayout::Default(crate::state::DefaultLayout::BSP),
                mouse_follows_focus: true,
                work_area_offset: None,
                stack_accent: None,
                monitor_index,
                monitor_usr_idx_map: Map::empty(),
                focused_workspace_idx: None,
                show_all_icons: false,
                hide_empty_workspaces,
            }),
            info@.focus_valid(),
            info@.window_focus_valid(),
    {
        let info = MonitorInfo {
            workspaces: Vec::new(),
            layout: KomorebiLayout::Default(crate::state::DefaultLayout::BSP),
            mouse_follows_focus: true,
            work_area_offset: None,
            stack_accent: None,
            monitor_index,
            monitor_usr_idx_map: HashMap::new(),
            focused_workspace_idx: None,
            show_all_icons: false,
            hide_empty_workspaces,
        };
        assert(info@.workspaces =~= Seq::empty());
        assert(info@.monitor_usr_idx_map =~= Map::empty());
        info
    }

    /// The focused workspace.
    pub fn focused_workspace(&self) -> (workspace: Option<&WorkspaceInfo>)
        ensures
            match workspace {
                Some(ws) => self@.focused_workspace() == Some(ws@),
                None => self@.focused_workspace() is None,
            },
            workspace matches Some(ws) ==> self.focused_workspace_idx matches Some(i) && i
                < self.workspaces@.len() && *ws == self.workspaces@[i as int],
    {
        match self.focused_workspace_idx {
            Some(i) => {
                if i < self.workspaces.len() {
                    Some(&self.workspaces[i])
                } else {
                    None
                }
            },
            None => None,
        }
    }

    /// The layer of the focused workspace.
    pub fn focused_workspace_layer(&self) -> (layer: Option<WorkspaceLayer>)
        ensures
            layer == match self@.focused_workspace() {
                Some(ws) => Some(ws.layer),
                None => None,
            },
    {
        match self.focused_workspace() {
            Some(ws) => Some(ws.layer),
            None => None,
        }
    }

    /// The focused container of the focused workspace.
    pub fn focused_container(&self) -> (container: Option<&ContainerInfo>)
        ensures
            match container {
                Some(c) => self@.focused_container() == Some(c@),
                None => self@.focused_container() is None,
            },
    {
        match self.focused_workspace() {
            Some(ws) => ws.focused_container(),
            None => None,
        }
    }

    /// Takes `state` into the model.
    ///
    /// The monitor shown is the one at `monitor_index`, or the one shown
    /// so far where `monitor_index` is `None`. Where `state` holds no
    /// monitor under that index the model stays exactly as it was and the
    /// call reports [`BarError::MonitorUnavailable`]. Otherwise the model
    /// becomes what [`MonitorModel::synchronized`] says, and every focus
    /// index in it names an element: the focused workspace and container
    /// indices where they are present, the focused window index of each
    /// container unless the container has no window.
    pub fn update(
        &mut self,
        monitor_index: Option<usize>,
        state: State,
        show_all_icons: bool,
    ) -> (outcome: Result<(), BarError>)
        ensures
            old(self)@.effective_index(monitor_index) < state@.monitors.len() ==> outcome is Ok
                && final(self)@ == old(self)@.synchronized(
                old(self)@.effective_index(monitor_index),
                state@,
                show_all_icons,
            ) && final(self)@.focus_valid() && final(self)@.window_focus_valid(),
            old(self)@.effective_index(monitor_index) >= state@.monitors.len() ==> outcome == Err::<
                (),
                BarError,
            >(BarError::MonitorUnavailable) && *final(self) == *old(self),
            old(self)@.focus_valid() ==> final(self)@.focus_valid(),
            old(self)@.window_focus_valid() ==> final(self)@.window_focus_valid(),
    {
        let index = match monitor_index {
            Some(index) => index,
            None => self.monitor_index,
        };
        if index >= state.monitors.len() {
            return Err(BarError::MonitorUnavailable);
        }
        let State { monitors, is_paused, mouse_follows_focus, monitor_usr_idx_map } = state;
        let monitor = &monitors[index];
        assert(state@.monitors[index as int] == monitor@);

        let focused = if monitor.focused_workspace_idx < monitor.workspaces.len() {
            Some(monitor.focused_workspace_idx)
        } else {
            None
        };
        let layout = match focused {
            Some(f) => {
                assert(monitor@.workspaces[f as int] == monitor.workspaces@[f as int]@);
                Self::resolve_layout(&monitor.workspaces[f], is_paused)
            },
            None => self.layout,
        };
        let workspaces = Self::workspaces(
            show_all_icons,
            self.hide_empty_workspaces,
            focused,
            &monitor.workspaces,
        );

        self.show_all_icons = show_all_icons;
        self.monitor_usr_idx_map = monitor_usr_idx_map;
        self.monitor_index = index;
        self.mouse_follows_focus = mouse_follows_focus;
        self.work_area_offset = monitor.work_area_offset;
        self.focused_workspace_idx = focused;
        self.layout = layout;
        self.workspaces = workspaces;
        proof {
            crate::laws::lemma_synchronized_focus_valid(
                old(self)@,
                index,
                state@,
                show_all_icons,
            );
            crate::laws::lemma_synchronized_window_focus_valid(
                old(self)@,
                index,
                state@,
                show_all_icons,
            );
        }
        Ok(())
    }

    /// The workspaces of a monitor as the bar shows them, in order. Every
    /// focus index in them names an element.
    pub fn workspaces(
        show_all_icons: bool,
        hide_empty_ws: bool,
        focused_ws_idx: Option<usize>,
        workspaces: &Vec<Workspace>,
    ) -> (infos: Vec<WorkspaceInfo>)
        ensures
            workspace_info_views(infos@) == projected_workspaces(
                workspace_views(workspaces@),
                show_all_icons,
                hide_empty_ws,
                focused_ws_idx,
            ),
            forall|i: int|
                0 <= i < infos@.len() ==> (#[trigger] infos@[i])@.focus_valid()
                    && infos@[i]@.window_focus_valid(),
    {
        let ghost target = projected_workspaces(
            workspace_views(workspaces@),
            show_all_icons,
            hide_empty_ws,
            focused_ws_idx,
        );
        let count = workspaces.len();
        let mut infos: Vec<WorkspaceInfo> = Vec::new();
        let mut index: usize = 0;
        while index < count
            invariant
                index <= count,
                count == workspaces@.len(),
                target == projected_workspaces(
                    workspace_views(workspaces@),
                    show_all_icons,
                    hide_empty_ws,
                    focused_ws_idx,
                ),
                infos@.len() == index,
                forall|j: int| 0 <= j < index ==> (#[trigger] infos@[j])@ == target[j],
            decreases count - index,
        {
            let ws = &workspaces[index];
            assert(workspace_views(workspaces@)[index as int] == ws@);
            let containers = if show_all_icons {
                ContainerInfo::from_all_containers(ws)
            } else {
                let mut one: Vec<ContainerInfo> = Vec::new();
                match ContainerInfo::from_focused_container(ws) {
                    Some(c) => {
                        one.push(c);
                        assert(container_info_views(one@) =~= seq![c@]);
                    },
                    None => {
                        assert(container_info_views(one@) =~= Seq::empty());
                    },
                }
                one
            };
            assert(container_info_views(containers@) == ws@.shown_containers(show_all_icons));
            let name = match &ws.name {
                Some(name) => name.clone(),
                None => decimal_string(index + 1),
            };
            let is_selected = match focused_ws_idx {
                Some(f) => f == index,
                None => false,
            };
            let info = WorkspaceInfo {
                name,
                focused_container_idx: first_focused(&containers),
                has_icons: has_icons(&containers),
                layer: ws.layer,
                should_show: !hide_empty_ws || is_selected || !ws.is_empty(),
                is_selected,
                containers,
            };
            assert(info@ == ws@.info(index, show_all_icons, hide_empty_ws, focused_ws_idx));
            infos.push(info);
            index += 1;
        }
        assert(workspace_info_views(infos@) =~= target);
        proof {
            assert forall|i: int| 0 <= i < infos@.len() implies (
            #[trigger] infos@[i])@.focus_valid() && infos@[i]@.window_focus_valid() by {
                crate::laws::lemma_info_focus_valid(
                    workspace_views(workspaces@)[i],
                    i as usize,
                    show_all_icons,
                    hide_empty_ws,
                    focused_ws_idx,
                );
                crate::laws::lemma_info_window_focus_valid(
                    workspace_views(workspaces@)[i],
                    i as usize,
                    show_all_icons,
                    hide_empty_ws,
                    focused_ws_idx,
                );
            }
        }
        infos
    }

    /// Resolves the layout that the bar shows for the focused workspace.
    pub fn resolve_layout(focused_ws: &Workspace, is_paused: bool) -> (layout: KomorebiLayout)
        ensures
            layout == resolved_layout(focused_ws@, is_paused),
    {
        if focused_ws.monocle_container.is_some() {
            KomorebiLayout::Monocle
        } else if !focused_ws.tile {
            KomorebiLayout::Floating
        } else if is_paused {
            KomorebiLayout::Paused
        } else {
            match focused_ws.layout {
                Layout::Default(layout) => KomorebiLayout::Default(layout),
                Layout::Custom => KomorebiLayout::Custom,
            }
        }
    }
}

/// The index of the first focused container.
fn first_focused(containers: &Vec<ContainerInfo>) -> (found: Option<usize>)
    ensures
        found == first_focused_container(container_info_views(containers@), 0),
{
    let count = containers.len();
    let ghost views = container_info_views(containers@);
    let mut i: usize = 0;
    while i < count
        invariant
            i <= count,
            count == containers@.len(),
            views == container_info_views(containers@),
            first_focused_container(views, 0) == first_focused_container(views, i as int),
        decreases count - i,
    {
        if containers[i].is_focused {
            return Some(i);
        }
        i += 1;
    }
    None
}

/// Whether a window of one of the containers has an icon.
fn has_icons(containers: &Vec<ContainerInfo>) -> (found: bool)
    ensures
        found == any_icon(container_info_views(containers@)),
{
    let ghost views = container_info_views(containers@);
    let count = containers.len();
    let mut i: usize = 0;
    while i < count
        invariant
            i <= count,
            count == containers@.len(),
            views == container_info_views(containers@),
            forall|k: int| 0 <= k < i ==> !(#[trigger] views[k]).has_icon(),
        decreases count - i,
    {
        let windows = &containers[i].windows;
        let len = windows.len();
        let mut j: usize = 0;
        while j < len
            invariant
                j <= len,
                len == windows@.len(),
                i < count,
                count == containers@.len(),
                views == container_info_views(containers@),
                *windows == containers@[i as int].windows,
                forall|k: int| 0 <= k < j ==> (#[trigger] views[i as int].windows[k]).icon is None,
            decreases len - j,
        {
            if windows[j].icon.is_some() {
                assert(views[i as int].windows[j as int].icon is Some);
                return true;
            }
            j += 1;
        }
        i += 1;
    }
    false
}

} // verus!
