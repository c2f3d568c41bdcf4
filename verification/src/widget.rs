//! The widget as a whole: the model of its monitor, the settings of its
//! parts, and what each part shows.

use vstd::prelude::*;

use crate::bars::{FocusedContainerBar, WindowRender, WorkspaceRender, WorkspacesBar};
use crate::command::Interaction;
use crate::config::{
    name_before, names_ascending, ConfigurationEntry, ConfigurationEntryView, DisplayFormat,
    KomorebiConfig,
    KomorebiConfigurationSwitcherConfig, KomorebiLayoutConfig, KomorebiLockedContainerConfig,
    KomorebiWorkspaceLayerConfig,
};
use crate::container::ContainerView;
use crate::layout::KomorebiLayout;
use crate::monitor::{MonitorInfo, MonitorModel, WorkspaceView};
use crate::notification::KomorebiNotificationStateNew;
use crate::paths::{is_simplified, simplified};
use crate::state::WorkspaceLayer;

verus! {

/// The widget: one model and up to six parts.
#[derive(Clone, Debug, PartialEq, Eq)]
pub struct Komorebi {
    pub komorebi_notification_state: KomorebiNotificationStateNew,
    pub workspaces: Option<WorkspacesBar>,
    pub layout: Option<KomorebiLayoutConfig>,
    pub focused_container: Option<FocusedContainerBar>,
    pub workspace_layer: Option<KomorebiWorkspaceLayerConfig>,
    pub locked_container: Option<KomorebiLockedContainerConfig>,
    pub configuration_switcher: Option<KomorebiConfigurationSwitcherConfig>,
}

/// What the workspace layer part shows.
#[derive(Clone, Copy, Debug, PartialEq, Eq, Structural)]
pub struct WorkspaceLayerWidget {
    pub layer: WorkspaceLayer,
    /// Draw the picture of the layer.
    pub icon: bool,
    /// Draw the name of the layer.
    pub label: bool,
}

/// The picture on the locked container part.
#[derive(Clone, Copy, Debug, PartialEq, Eq, Structural)]
pub enum LockGlyph {
    /// A closed lock.
    Locked,
    /// An open lock.
    Unlocked,
}

/// What the locked container part shows.
#[derive(Clone, Copy, Debug, PartialEq, Eq, Structural)]
pub struct LockedContainerWidget {
    pub is_locked: bool,
    /// The picture, where one is drawn.
    pub glyph: Option<LockGlyph>,
    /// Draw the word for the state.
    pub label: bool,
}

/// What the layout part shows.
#[derive(Clone, Copy, Debug, PartialEq, Eq, Structural)]
pub struct LayoutWidget {
    pub layout: KomorebiLayout,
    pub focused_workspace_idx: Option<usize>,
}

/// One entry of the workspaces part.
#[derive(Clone, Copy, Debug, PartialEq, Eq, Structural)]
pub struct WorkspaceEntry {
    /// Index of the workspace in the model.
    pub index: usize,
    /// Whether the entry is framed as selected.
    pub selected: bool,
    pub parts: WorkspaceRender,
}

/// One entry of the focused container part.
#[derive(Clone, Copy, Debug, PartialEq, Eq, Structural)]
pub struct WindowEntry {
    /// Index of the window in the focused container.
    pub index: usize,
    /// Whether the entry is framed as selected. A click on such an entry
    /// does nothing.
    pub selected: bool,
    pub parts: WindowRender,
}

/// The entry of the workspace at `index`.
pub open spec fn workspace_entry(
    bar: WorkspacesBar,
    ws: WorkspaceView,
    index: usize,
) -> WorkspaceEntry {
    WorkspaceEntry {
        index,
        selected: ws.is_selected,
        parts: bar.renderer.render(ws.has_icons, ws.is_selected),
    }
}

/// The entries of the first `upto` workspaces: one for each that is to be
/// shown, in order.
pub open spec fn workspace_entries_upto(
    bar: WorkspacesBar,
    workspaces: Seq<WorkspaceView>,
    upto: int,
) -> Seq<WorkspaceEntry>
    decreases upto,
{
    if upto <= 0 || upto > workspaces.len() {
        Seq::empty()
    } else {
        let before = workspace_entries_upto(bar, workspaces, upto - 1);
        if workspaces[upto - 1].should_show {
            before.push(workspace_entry(bar, workspaces[upto - 1], (upto - 1) as usize))
        } else {
            before
        }
    }
}

/// The entry of the window at `index` of `container`.
pub open spec fn window_entry(
    bar: FocusedContainerBar,
    container: ContainerView,
    index: int,
) -> WindowEntry {
    WindowEntry {
        index: index as usize,
        selected: FocusedContainerBar::window_selected(container, index),
        parts: bar.renderer.render(
            container.windows[index].title is Some,
            index == container.focused_window_idx,
        ),
    }
}

/// The configurations of `from` with each location brought into its
/// simplest form: as many entries, under the same names, in the same
/// order.
pub open spec fn locations_simplified(
    from: Seq<ConfigurationEntryView>,
    to: Seq<ConfigurationEntryView>,
) -> bool {
    &&& to.len() == from.len()
    &&& forall|i: int|
        0 <= i < from.len() ==> (#[trigger] to[i]).name == from[i].name && is_simplified(
            from[i].location,
            to[i].location,
        )
}

/// Simplifying the locations keeps the configurations in the order of
/// their names.
pub proof fn lemma_simplified_keeps_names_ascending(
    from: Seq<ConfigurationEntryView>,
    to: Seq<ConfigurationEntryView>,
)
    requires
        locations_simplified(from, to),
    ensures
        names_ascending(from) ==> names_ascending(to),
{
    if names_ascending(from) {
        assert forall|i: int, j: int| 0 <= i < j < to.len() implies name_before(
            (#[trigger] to[i]).name,
            (#[trigger] to[j]).name,
            0,
        ) by {
            assert(to[i].name == from[i].name);
            assert(to[j].name == from[j].name);
        }
    }
}

impl Komorebi {
    /// The model of the widget's monitor.
    pub open spec fn model(&self) -> MonitorModel {
        self.komorebi_notification_state@
    }

    /// The widget for the given settings, on the monitor at
    /// `monitor_index`, before any state has arrived. Each part gets its
    /// display policy here, once. The locations of the configurations on
    /// offer are brought into their simplest form; their names and their
    /// order stay, so configurations that stood in the order of their
    /// names still do.
    pub fn from(value: &KomorebiConfig, monitor_index: usize) -> (widget: Komorebi)
        ensures
            widget.model() == (MonitorModel {
                workspaces: Seq::empty(),
                layout: KomorebiLayout::Default(crate::state::DefaultLayout::BSP),
                mouse_follows_focus: true,
                work_area_offset: None,
                stack_accent: None,
                monitor_index,
                monitor_usr_idx_map: Map::empty(),
                focused_workspace_idx: None,
                show_all_icons: false,
                hide_empty_workspaces: match value.workspaces {
                    Some(w) => w.hide_empty_workspaces,
                    None => false,
                },
            }),
            widget.workspaces == match value.workspaces {
                Some(w) => Some(WorkspacesBar::of(w)),
                None => None,
            },
            widget.focused_container == match value.focused_container {
                Some(c) => Some(FocusedContainerBar::of(c)),
                None => None,
            },
            match (value.layout, widget.layout) {
                (Some(given), Some(kept)) => kept@ == given@,
                (None, None) => true,
                _ => false,
            },
            widget.workspace_layer == value.workspace_layer,
            widget.locked_container == value.locked_container,
            match (value.configuration_switcher, widget.configuration_switcher) {
                (Some(given), Some(kept)) => {
                    &&& kept.enable == given.enable
                    &&& locations_simplified(given@.configurations, kept@.configurations)
                    &&& given@.wf() ==> kept@.wf()
                },
                (None, None) => true,
                _ => false,
            },
    {
        let configuration_switcher = match &value.configuration_switcher {
            Some(given) => {
                let count = given.configurations.len();
                let mut configurations: Vec<ConfigurationEntry> = Vec::new();
                let mut i: usize = 0;
                while i < count
                    invariant
                        i <= count,
                        count == given.configurations@.len(),
                        configurations@.len() == i,
                        forall|j: int|
                            0 <= j < i ==> (#[trigger] configurations@[j]).name@
                                == given.configurations@[j].name@ && is_simplified(
                                given.configurations@[j].location@,
                                configurations@[j].location@,
                            ),
                    decreases count - i,
                {
                    let entry = &given.configurations[i];
                    configurations.push(
                        ConfigurationEntry {
                            name: entry.name.clone(),
                            location: simplified(entry.location.as_str()),
                        },
                    );
                    i += 1;
                }
                let kept = KomorebiConfigurationSwitcherConfig {
                    enable: given.enable,
                    configurations,
                };
                proof {
                    lemma_simplified_keeps_names_ascending(
                        given@.configurations,
                        kept@.configurations,
                    );
                }
                Some(kept)
            },
            None => None,
        };
        let hide_empty_workspaces = match value.workspaces {
            Some(w) => w.hide_empty_workspaces,
            None => false,
        };
        Komorebi {
            komorebi_notification_state: KomorebiNotificationStateNew(
                MonitorInfo::new(monitor_index, hide_empty_workspaces),
            ),
            workspaces: match value.workspaces {
                Some(w) => Some(WorkspacesBar::from(w)),
                None => None,
            },
            layout: match &value.layout {
                Some(layout) => Some(layout.copy()),
                None => None,
            },
            focused_container: match value.focused_container {
                Some(c) => Some(FocusedContainerBar::from(c)),
                None => None,
            },
            workspace_layer: value.workspace_layer,
            locked_container: value.locked_container,
            configuration_switcher,
        }
    }

    /// What the workspace layer part shows: nothing unless the part is
    /// enabled and a workspace is focused; then the layer of that
    /// workspace, while it is floating, or tiling and the settings ask for
    /// that too. The picture is drawn unless the format is `Text`, the
    /// name unless it is `Icon`; without a format, `Text` holds.
    pub open spec fn layer_widget(&self) -> Option<WorkspaceLayerWidget> {
        match (self.workspace_layer, self.model().focused_workspace()) {
            (Some(config), Some(ws)) => {
                let format = match config.display {
                    Some(format) => format,
                    None => DisplayFormat::Text,
                };
                if config.enable && (ws.layer == WorkspaceLayer::Floating
                    || config.show_when_tiling == Some(true)) {
                    Some(
                        WorkspaceLayerWidget {
                            layer: ws.layer,
                            icon: format.has_icon(),
                            label: format.has_text(),
                        },
                    )
                } else {
                    None
                }
            },
            _ => None,
        }
    }

    /// What the workspace layer part shows, if anything.
    pub fn workspace_layer_widget(&self) -> (widget: Option<WorkspaceLayerWidget>)
        ensures
            widget == self.layer_widget(),
    {
        let config = match self.workspace_layer {
            Some(config) => config,
            None => {
                return None;
            },
        };
        if !config.enable {
            return None;
        }
        let layer = match self.komorebi_notification_state.0.focused_workspace_layer() {
            Some(layer) => layer,
            None => {
                return None;
            },
        };
        let show_when_tiling = match config.show_when_tiling {
            Some(show) => show,
            None => false,
        };
        let shown = match layer {
            WorkspaceLayer::Tiling => show_when_tiling,
            WorkspaceLayer::Floating => true,
        };
        if !shown {
            return None;
        }
        let format = match config.display {
            Some(format) => format,
            None => DisplayFormat::Text,
        };
        Some(WorkspaceLayerWidget { layer, icon: format.shows_icon(), label: format.shows_text() })
    }

    /// What the locked container part shows: nothing unless the part is
    /// enabled and the focused container is locked or the settings ask
    /// for the unlocked state too. Without a focused container the state
    /// is unlocked. The picture is drawn unless the format is `Text`, the
    /// word unless it is `Icon`; without a format, `Text` holds.
    pub open spec fn lock_widget(&self) -> Option<LockedContainerWidget> {
        match self.locked_container {
            Some(config) => {
                let is_locked = match self.model().focused_container() {
                    Some(c) => c.is_locked,
                    None => false,
                };
                let format = match config.display {
                    Some(format) => format,
                    None => DisplayFormat::Text,
                };
                if config.enable && (is_locked || config.show_when_unlocked == Some(true)) {
                    Some(
                        LockedContainerWidget {
                            is_locked,
                            glyph: if !format.has_icon() {
                                None
                            } else if is_locked {
                                Some(LockGlyph::Locked)
                            } else {
                                Some(LockGlyph::Unlocked)
                            },
                            label: format.has_text(),
                        },
                    )
                } else {
                    None
                }
            },
            None => None,
        }
    }

    /// What the locked container part shows, if anything.
    pub fn locked_container_widget(&self) -> (widget: Option<LockedContainerWidget>)
        ensures
            widget == self.lock_widget(),
    {
        let config = match self.locked_container {
            Some(config) => config,
            None => {
                return None;
            },
        };
        if !config.enable {
            return None;
        }
        let is_locked = match self.komorebi_notification_state.0.focused_container() {
            Some(container) => container.is_locked,
            None => false,
        };
        let show_when_unlocked = match config.show_when_unlocked {
            Some(show) => show,
            None => false,
        };
        if !(show_when_unlocked || is_locked) {
            return None;
        }
        let format = match config.display {
            Some(format) => format,
            None => DisplayFormat::Text,
        };
        let glyph = if format.shows_icon() {
            if is_locked {
                Some(LockGlyph::Locked)
            } else {
                Some(LockGlyph::Unlocked)
            }
        } else {
            None
        };
        Some(LockedContainerWidget { is_locked, glyph, label: format.shows_text() })
    }

    /// What the layout part shows: the layout of the model and its focused
    /// workspace index, where the part is there and enabled.
    pub fn layout_widget(&self) -> (widget: Option<LayoutWidget>)
        ensures
            widget == match self.layout {
                Some(config) if config.enable => Some(
                    LayoutWidget {
                        layout: self.model().layout,
                        focused_workspace_idx: self.model().focused_workspace_idx,
                    },
                ),
                _ => None,
            },
    {
        match &self.layout {
            Some(config) => {
                if config.enable {
                    Some(
                        LayoutWidget {
                            layout: self.komorebi_notification_state.0.layout,
                            focused_workspace_idx:
                                self.komorebi_notification_state.0.focused_workspace_idx,
                        },
                    )
                } else {
                    None
                }
            },
            None => None,
        }
    }

    /// The entries of the workspaces part: none unless the part is there
    /// and enabled; then one for each workspace that is to be shown, in
    /// the order of the model.
    pub open spec fn shown_workspaces(&self) -> Seq<WorkspaceEntry> {
        match self.workspaces {
            Some(bar) if bar.enable => workspace_entries_upto(
                bar,
                self.model().workspaces,
                self.model().workspaces.len() as int,
            ),
            _ => Seq::empty(),
        }
    }

    /// The entries of the workspaces part.
    pub fn workspace_entries(&self) -> (entries: Vec<WorkspaceEntry>)
        ensures
            entries@ == self.shown_workspaces(),
    {
        let mut entries: Vec<WorkspaceEntry> = Vec::new();
        let bar = match self.workspaces {
            Some(bar) => bar,
            None => {
                return entries;
            },
        };
        if !bar.enable {
            return entries;
        }
        let workspaces = &self.komorebi_notification_state.0.workspaces;
        let count = workspaces.len();
        let mut index: usize = 0;
        while index < count
            invariant
                index <= count,
                count == workspaces@.len(),
                *workspaces == self.komorebi_notification_state.0.workspaces,
                entries@ == workspace_entries_upto(bar, self.model().workspaces, index as int),
            decreases count - index,
        {
            let workspace = &workspaces[index];
            assert(self.model().workspaces[index as int] == workspace@);
            if workspace.should_show {
                entries.push(
                    WorkspaceEntry {
                        index,
                        selected: workspace.is_selected,
                        parts: bar.render(workspace),
                    },
                );
            }
            index += 1;
        }
        entries
    }

    /// The entries of the focused container part: none unless the part is
    /// there and enabled and the model has a focused container; then one
    /// for each window of that container, in order.
    pub open spec fn shown_windows(&self) -> Seq<WindowEntry> {
        match (self.focused_container, self.model().focused_container()) {
            (Some(bar), Some(container)) if bar.enable => Seq::new(
                container.windows.len(),
                |i: int| window_entry(bar, container, i),
            ),
            _ => Seq::empty(),
        }
    }

    /// The entries of the focused container part.
    pub fn focused_container_entries(&self) -> (entries: Vec<WindowEntry>)
        ensures
            entries@ == self.shown_windows(),
    {
        let mut entries: Vec<WindowEntry> = Vec::new();
        let bar = match self.focused_container {
            Some(bar) => bar,
            None => {
                return entries;
            },
        };
        if !bar.enable {
            return entries;
        }
        let container = match self.komorebi_notification_state.0.focused_container() {
            Some(container) => container,
            None => {
                return entries;
            },
        };
        let count = container.windows.len();
        let mut idx: usize = 0;
        while idx < count
            invariant
                idx <= count,
                count == container.windows@.len(),
                entries@.len() == idx,
                forall|j: int| 0 <= j < idx ==> entries@[j] == window_entry(bar, container@, j),
            decreases count - idx,
        {
            let window = &container.windows[idx];
            assert(container@.windows[idx as int] == window@);
            entries.push(
                WindowEntry {
                    index: idx,
                    selected: FocusedContainerBar::is_selected(container, idx),
                    parts: bar.render(window, idx == container.focused_window_idx),
                },
            );
            idx += 1;
        }
        assert(entries@ =~= self.shown_windows());
        entries
    }

    /// The configurations on offer: those of the settings, where the
    /// switcher is there and enabled.
    pub fn configurations(&self) -> (entries: Option<&Vec<ConfigurationEntry>>)
        ensures
            match self.configuration_switcher {
                Some(switcher) if switcher.enable => entries == Some(&switcher.configurations),
                _ => entries is None,
            },
    {
        match &self.configuration_switcher {
            Some(switcher) => {
                if switcher.enable {
                    Some(&switcher.configurations)
                } else {
                    None
                }
            },
            None => None,
        }
    }
}

impl WorkspaceEntry {
    /// What a click on the entry asks for.
    pub fn clicked(&self) -> (interaction: Interaction)
        ensures
            interaction@ == crate::command::Click::FocusWorkspace(self.index),
    {
        Interaction::FocusWorkspace(self.index)
    }
}

impl WindowEntry {
    /// What a click on the entry asks for: the focus for its window,
    /// unless the entry is selected already.
    pub fn clicked(&self) -> (interaction: Option<Interaction>)
        ensures
            match interaction {
                Some(i) => !self.selected && i@ == crate::command::Click::FocusStackWindow(
                    self.index,
                ),
                None => self.selected,
            },
    {
        if self.selected {
            None
        } else {
            Some(Interaction::FocusStackWindow(self.index))
        }
    }
}

impl LockedContainerWidget {
    /// The word for the state.
    pub fn label_text(&self) -> (text: &'static str)
        ensures
            text@ == if self.is_locked {
                "Locked"@
            } else {
                "Unlocked"@
            },
    {
        if self.is_locked {
            "Locked"
        } else {
            "Unlocked"
        }
    }
}

} // verus!
