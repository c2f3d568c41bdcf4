//! The display policies of the workspaces widget and of the focused
//! container widget.
//!
//! A policy is chosen once, when the settings are read, and then asked for
//! every item that is drawn: it answers with the parts of the item to
//! draw.

use vstd::prelude::*;
use vstd::std_specs::convert::FromSpecImpl;

use crate::config::{
    DisplayFormat, KomorebiFocusedContainerConfig, KomorebiWorkspacesConfig,
    WorkspacesDisplayFormat,
};
use crate::container::{ContainerInfo, ContainerView, IconHandle, WindowInfo, WindowView};
use crate::monitor::{WorkspaceInfo, WorkspaceView};

verus! {

/// The ways to show a workspace.
#[derive(Clone, Copy, Debug, PartialEq, Eq, Structural)]
pub enum WorkspaceRenderer {
    /// The icons where there are any, else a fallback icon; the name only
    /// on hover.
    IconsOrFallback,
    /// The icons where there are any, and the name.
    IconsAndLabel,
    /// The icons where there are any, else a fallback icon unless the
    /// workspace is selected; the name only of the selected workspace,
    /// else on hover.
    IconsSelLabel,
    /// The name, and the icons of the selected workspace.
    LabelSelIcons,
    /// The name alone.
    Text,
}

/// The parts of a workspace entry to draw.
#[derive(Clone, Copy, Debug, PartialEq, Eq, Structural)]
pub struct WorkspaceRender {
    /// Draw the icons of the windows.
    pub icons: bool,
    /// Draw the fallback icon.
    pub fallback_icon: bool,
    /// Draw the name.
    pub label: bool,
    /// Draw what is drawn in the colour of the selection.
    pub highlighted: bool,
    /// Show the name while the pointer hovers over the entry.
    pub hover_name: bool,
}

impl WorkspaceRenderer {
    /// The policy for a display format. Without a format the name alone is
    /// shown.
    pub open spec fn select(display: Option<WorkspacesDisplayFormat>) -> WorkspaceRenderer {
        match display {
            None => WorkspaceRenderer::Text,
            Some(WorkspacesDisplayFormat::AllIcons) => WorkspaceRenderer::IconsOrFallback,
            Some(WorkspacesDisplayFormat::Existing(DisplayFormat::Icon)) => {
                WorkspaceRenderer::IconsOrFallback
            },
            Some(WorkspacesDisplayFormat::AllIconsAndText) => WorkspaceRenderer::IconsAndLabel,
            Some(WorkspacesDisplayFormat::Existing(DisplayFormat::IconAndText)) => {
                WorkspaceRenderer::IconsAndLabel
            },
            Some(WorkspacesDisplayFormat::AllIconsAndTextOnSelected) => {
                WorkspaceRenderer::IconsSelLabel
            },
            Some(WorkspacesDisplayFormat::Existing(DisplayFormat::IconAndTextOnSelected)) => {
                WorkspaceRenderer::IconsSelLabel
            },
            Some(WorkspacesDisplayFormat::Existing(DisplayFormat::TextAndIconOnSelected)) => {
                WorkspaceRenderer::LabelSelIcons
            },
            Some(WorkspacesDisplayFormat::Existing(DisplayFormat::Text)) => WorkspaceRenderer::Text,
        }
    }

    /// What the policy does about icons.
    pub open spec fn icon_policy(self) -> IconPolicy {
        match self {
            WorkspaceRenderer::IconsOrFallback => IconPolicy::WithFallback,
            WorkspaceRenderer::IconsAndLabel => IconPolicy::NoFallback,
            WorkspaceRenderer::IconsSelLabel => IconPolicy::FallbackUnlessSelected,
            WorkspaceRenderer::LabelSelIcons => IconPolicy::OnlyIfSelected,
            WorkspaceRenderer::Text => IconPolicy::Never,
        }
    }

    /// What the policy does about the name.
    pub open spec fn label_policy(self) -> LabelPolicy {
        match self {
            WorkspaceRenderer::IconsOrFallback => LabelPolicy::HoverOnly,
            WorkspaceRenderer::IconsAndLabel => LabelPolicy::Always,
            WorkspaceRenderer::IconsSelLabel => LabelPolicy::SelectedElseHover,
            WorkspaceRenderer::LabelSelIcons => LabelPolicy::Always,
            WorkspaceRenderer::Text => LabelPolicy::Always,
        }
    }

    /// The parts to draw of a workspace that has icons or not and is
    /// selected or not: the icons and the fallback icon as the icon policy
    /// says, the name and the hover text as the label policy says, all of
    /// it in the colour of the selection where the workspace is selected.
    pub open spec fn render(self, has_icons: bool, is_selected: bool) -> WorkspaceRender {
        WorkspaceRender {
            icons: self.icon_policy().icons(has_icons, is_selected),
            fallback_icon: self.icon_policy().fallback_icon(has_icons, is_selected),
            label: self.label_policy().label(is_selected),
            highlighted: is_selected,
            hover_name: self.label_policy().hover_name(is_selected),
        }
    }
}

/// What a policy of the workspaces widget does about icons.
#[derive(Clone, Copy, Debug, PartialEq, Eq, Structural)]
pub enum IconPolicy {
    /// The icons where there are any, else the fallback icon.
    WithFallback,
    /// The icons where there are any, else nothing.
    NoFallback,
    /// The icons where there are any, else the fallback icon unless the
    /// workspace is selected.
    FallbackUnlessSelected,
    /// The icons of the selected workspace only.
    OnlyIfSelected,
    /// No icons.
    Never,
}

impl IconPolicy {
    /// Whether the icons of the windows are drawn.
    pub open spec fn icons(self, has_icons: bool, is_selected: bool) -> bool {
        match self {
            IconPolicy::WithFallback => has_icons,
            IconPolicy::NoFallback => has_icons,
            IconPolicy::FallbackUnlessSelected => has_icons,
            IconPolicy::OnlyIfSelected => has_icons && is_selected,
            IconPolicy::Never => false,
        }
    }

    /// Whether the fallback icon is drawn.
    pub open spec fn fallback_icon(self, has_icons: bool, is_selected: bool) -> bool {
        match self {
            IconPolicy::WithFallback => !has_icons,
            IconPolicy::FallbackUnlessSelected => !has_icons && !is_selected,
            _ => false,
        }
    }
}

/// What a policy of the workspaces widget does about the name.
#[derive(Clone, Copy, Debug, PartialEq, Eq, Structural)]
pub enum LabelPolicy {
    /// The name is never drawn and always shown on hover.
    HoverOnly,
    /// The name is always drawn.
    Always,
    /// The name of the selected workspace is drawn; the others show
    /// theirs on hover.
    SelectedElseHover,
}

impl LabelPolicy {
    /// Whether the name is drawn.
    pub open spec fn label(self, is_selected: bool) -> bool {
        match self {
            LabelPolicy::HoverOnly => false,
            LabelPolicy::Always => true,
            LabelPolicy::SelectedElseHover => is_selected,
        }
    }

    /// Whether the name is shown on hover.
    pub open spec fn hover_name(self, is_selected: bool) -> bool {
        match self {
            LabelPolicy::HoverOnly => true,
            LabelPolicy::Always => false,
            LabelPolicy::SelectedElseHover => !is_selected,
        }
    }
}

/// One icon of a workspace entry.
#[derive(Clone, Copy, Debug, PartialEq, Eq, Structural)]
pub struct ShownIcon {
    pub icon: IconHandle,
    /// Whether the icon belongs to the focused container, whose icons are
    /// drawn larger.
    pub focused: bool,
}

/// The icons among the first `upto` windows of a container, in order.
pub open spec fn window_icons_upto(windows: Seq<WindowView>, focused: bool, upto: int) -> Seq<
    ShownIcon,
>
    decreases upto,
{
    if upto <= 0 || upto > windows.len() {
        Seq::empty()
    } else {
        let before = window_icons_upto(windows, focused, upto - 1);
        match windows[upto - 1].icon {
            Some(icon) => before.push(ShownIcon { icon, focused }),
            None => before,
        }
    }
}

/// The icons of the first `upto` containers, container by container and
/// within each window by window.
pub open spec fn container_icons_upto(containers: Seq<ContainerView>, upto: int) -> Seq<ShownIcon>
    decreases upto,
{
    if upto <= 0 || upto > containers.len() {
        Seq::empty()
    } else {
        let container = containers[upto - 1];
        container_icons_upto(containers, upto - 1) + window_icons_upto(
            container.windows,
            container.is_focused,
            container.windows.len() as int,
        )
    }
}

/// The icons of a workspace entry, in the order in which they are drawn.
pub open spec fn workspace_icons(ws: WorkspaceView) -> Seq<ShownIcon> {
    container_icons_upto(ws.containers, ws.containers.len() as int)
}

/// A container has icons to draw exactly where one of its windows has an
/// icon.
pub proof fn lemma_window_icons(windows: Seq<WindowView>, focused: bool, upto: int)
    requires
        0 <= upto <= windows.len(),
    ensures
        window_icons_upto(windows, focused, upto).len() > 0 <==> exists|j: int|
            0 <= j < upto && (#[trigger] windows[j]).icon is Some,
    decreases upto,
{
    if upto > 0 {
        lemma_window_icons(windows, focused, upto - 1);
        if window_icons_upto(windows, focused, upto).len() > 0 {
            if windows[upto - 1].icon is Some {
            } else {
                let j = choose|j: int| 0 <= j < upto - 1 && (#[trigger] windows[j]).icon is Some;
                assert(windows[j].icon is Some);
            }
        }
    }
}

/// A workspace has icons to draw exactly where a window of one of its
/// containers has an icon.
pub proof fn lemma_container_icons(containers: Seq<ContainerView>, upto: int)
    requires
        0 <= upto <= containers.len(),
    ensures
        container_icons_upto(containers, upto).len() > 0 <==> exists|i: int|
            0 <= i < upto && (#[trigger] containers[i]).has_icon(),
    decreases upto,
{
    if upto > 0 {
        lemma_container_icons(containers, upto - 1);
        let last = containers[upto - 1];
        lemma_window_icons(last.windows, last.is_focused, last.windows.len() as int);
        if container_icons_upto(containers, upto).len() > 0 {
            if container_icons_upto(containers, upto - 1).len() > 0 {
                let i = choose|i: int| 0 <= i < upto - 1 && (#[trigger] containers[i]).has_icon();
                assert(containers[i].has_icon());
            } else {
                assert(last.has_icon());
            }
        }
        if exists|i: int| 0 <= i < upto && (#[trigger] containers[i]).has_icon() {
            let i = choose|i: int| 0 <= i < upto && (#[trigger] containers[i]).has_icon();
            if i < upto - 1 {
                assert(containers[i].has_icon());
            }
        }
    }
}

/// The workspaces widget with its display policy.
#[derive(Clone, Copy, Debug, PartialEq, Eq, Structural)]
pub struct WorkspacesBar {
    /// The policy chosen for this widget.
    pub renderer: WorkspaceRenderer,
    /// Whether the widget is enabled.
    pub enable: bool,
}

impl From<KomorebiWorkspacesConfig> for WorkspacesBar {
    fn from(value: KomorebiWorkspacesConfig) -> (bar: WorkspacesBar) {
        let display = match value.display {
            Some(display) => display,
            None => WorkspacesDisplayFormat::from(DisplayFormat::Text),
        };
        let renderer = match display {
            WorkspacesDisplayFormat::AllIcons
            | WorkspacesDisplayFormat::Existing(DisplayFormat::Icon) => {
                WorkspaceRenderer::IconsOrFallback
            },
            WorkspacesDisplayFormat::AllIconsAndText
            | WorkspacesDisplayFormat::Existing(DisplayFormat::IconAndText) => {
                WorkspaceRenderer::IconsAndLabel
            },
            WorkspacesDisplayFormat::AllIconsAndTextOnSelected
            | WorkspacesDisplayFormat::Existing(DisplayFormat::IconAndTextOnSelected) => {
                WorkspaceRenderer::IconsSelLabel
            },
            WorkspacesDisplayFormat::Existing(DisplayFormat::TextAndIconOnSelected) => {
                WorkspaceRenderer::LabelSelIcons
            },
            WorkspacesDisplayFormat::Existing(DisplayFormat::Text) => WorkspaceRenderer::Text,
        };
        WorkspacesBar { renderer, enable: value.enable }
    }
}

impl FromSpecImpl<KomorebiWorkspacesConfig> for WorkspacesBar {
    open spec fn obeys_from_spec() -> bool {
        true
    }

    open spec fn from_spec(v: KomorebiWorkspacesConfig) -> WorkspacesBar {
        WorkspacesBar::of(v)
    }
}

impl WorkspacesBar {
    /// The widget for the given settings: enabled as they say, with the
    /// policy for their display format.
    pub open spec fn of(config: KomorebiWorkspacesConfig) -> WorkspacesBar {
        WorkspacesBar { renderer: WorkspaceRenderer::select(config.display), enable: config.enable }
    }

    /// The parts of the entry of `ws` to draw.
    pub fn render(&self, ws: &WorkspaceInfo) -> (parts: WorkspaceRender)
        ensures
            parts == self.renderer.render(ws.has_icons, ws.is_selected),
    {
        match self.renderer {
            WorkspaceRenderer::IconsOrFallback => Self::show_icons_or_fallback(ws),
            WorkspaceRenderer::IconsAndLabel => Self::show_icons_and_label(ws),
            WorkspaceRenderer::IconsSelLabel => Self::show_icons_sel_label(ws),
            WorkspaceRenderer::LabelSelIcons => Self::show_label_sel_icons(ws),
            WorkspaceRenderer::Text => Self::show_text(ws),
        }
    }

    /// Icons if there are any, else the fallback icon; the name on hover.
    fn show_icons_or_fallback(ws: &WorkspaceInfo) -> (parts: WorkspaceRender)
        ensures
            parts == WorkspaceRenderer::IconsOrFallback.render(ws.has_icons, ws.is_selected),
    {
        WorkspaceRender {
            icons: ws.has_icons,
            fallback_icon: !ws.has_icons,
            label: false,
            highlighted: ws.is_selected,
            hover_name: true,
        }
    }

    /// Icons if there are any, and always the name.
    fn show_icons_and_label(ws: &WorkspaceInfo) -> (parts: WorkspaceRender)
        ensures
            parts == WorkspaceRenderer::IconsAndLabel.render(ws.has_icons, ws.is_selected),
    {
        WorkspaceRender {
            icons: ws.has_icons,
            fallback_icon: false,
            label: true,
            highlighted: ws.is_selected,
            hover_name: false,
        }
    }

    /// Icons if there are any, else the fallback icon unless selected; the
    /// name if selected, else on hover.
    fn show_icons_sel_label(ws: &WorkspaceInfo) -> (parts: WorkspaceRender)
        ensures
            parts == WorkspaceRenderer::IconsSelLabel.render(ws.has_icons, ws.is_selected),
    {
        let mut fallback_icon = false;
        if !ws.has_icons && !ws.is_selected {
            fallback_icon = true;
        }
        WorkspaceRender {
            icons: ws.has_icons,
            fallback_icon,
            label: ws.is_selected,
            highlighted: ws.is_selected,
            hover_name: !ws.is_selected,
        }
    }

    /// Icons only if selected, and always the name.
    fn show_label_sel_icons(ws: &WorkspaceInfo) -> (parts: WorkspaceRender)
        ensures
            parts == WorkspaceRenderer::LabelSelIcons.render(ws.has_icons, ws.is_selected),
    {
        WorkspaceRender {
            icons: ws.has_icons && ws.is_selected,
            fallback_icon: false,
            label: true,
            highlighted: ws.is_selected,
            hover_name: false,
        }
    }

    /// The icons of `ws` to draw, in order: those of each container in
    /// turn, whether or not the workspace is said to have icons.
    pub fn show_icons(ws: &WorkspaceInfo) -> (icons: Vec<ShownIcon>)
        ensures
            icons@ == workspace_icons(ws@),
    {
        let mut icons: Vec<ShownIcon> = Vec::new();
        let count = ws.containers.len();
        let mut i: usize = 0;
        while i < count
            invariant
                i <= count,
                count == ws.containers@.len(),
                icons@ == container_icons_upto(ws@.containers, i as int),
            decreases count - i,
        {
            let container = &ws.containers[i];
            assert(ws@.containers[i as int] == container@);
            let ghost before = icons@;
            let len = container.windows.len();
            let mut j: usize = 0;
            while j < len
                invariant
                    j <= len,
                    len == container.windows@.len(),
                    icons@ == before + window_icons_upto(
                        container@.windows,
                        container.is_focused,
                        j as int,
                    ),
                decreases len - j,
            {
                assert(container@.windows[j as int] == container.windows@[j as int]@);
                if let Some(icon) = container.windows[j].icon {
                    icons.push(ShownIcon { icon, focused: container.is_focused });
                }
                j += 1;
                assert(icons@ =~= before + window_icons_upto(
                    container@.windows,
                    container.is_focused,
                    j as int,
                ));
            }
            i += 1;
        }
        icons
    }

    /// The name alone.
    fn show_text(ws: &WorkspaceInfo) -> (parts: WorkspaceRender)
        ensures
            parts == WorkspaceRenderer::Text.render(ws.has_icons, ws.is_selected),
    {
        WorkspaceRender {
            icons: false,
            fallback_icon: false,
            label: true,
            highlighted: ws.is_selected,
            hover_name: false,
        }
    }
}

/// The ways to show a window of the focused container.
#[derive(Clone, Copy, Debug, PartialEq, Eq, Structural)]
pub enum WindowRenderer {
    /// The icon alone, with the title on hover.
    IconOnly,
    /// The title alone.
    TextOnly,
    /// The icon and the title.
    IconAndText,
    /// The icon, and the title of the focused window.
    IconAndTextOnFocus,
    /// The title, and the icon of the focused window.
    TextAndIconOnFocus,
}

/// The parts of a window entry to draw.
#[derive(Clone, Copy, Debug, PartialEq, Eq, Structural)]
pub struct WindowRender {
    /// Draw the icon slot, which holds the icon where the window has one.
    pub icon: bool,
    /// Show the title while the pointer hovers over the icon slot.
    pub hover_title: bool,
    /// Draw the title.
    pub title: bool,
}

impl WindowRenderer {
    /// The display format that applies: the one set, else icon and text
    /// where the older switch asks for icons, else text.
    pub open spec fn effective_format(
        display: Option<DisplayFormat>,
        show_icon: Option<bool>,
    ) -> DisplayFormat {
        match display {
            Some(format) => format,
            None => if show_icon == Some(true) {
                DisplayFormat::IconAndText
            } else {
                DisplayFormat::Text
            },
        }
    }

    /// The policy for a display format.
    pub open spec fn select(format: DisplayFormat) -> WindowRenderer {
        match format {
            DisplayFormat::Icon => WindowRenderer::IconOnly,
            DisplayFormat::Text => WindowRenderer::TextOnly,
            DisplayFormat::IconAndText => WindowRenderer::IconAndText,
            DisplayFormat::IconAndTextOnSelected => WindowRenderer::IconAndTextOnFocus,
            DisplayFormat::TextAndIconOnSelected => WindowRenderer::TextAndIconOnFocus,
        }
    }

    /// When the policy shows the icon.
    pub open spec fn icon_policy(self) -> Visibility {
        match self {
            WindowRenderer::IconOnly => Visibility::Always,
            WindowRenderer::TextOnly => Visibility::Never,
            WindowRenderer::IconAndText => Visibility::Always,
            WindowRenderer::IconAndTextOnFocus => Visibility::Always,
            WindowRenderer::TextAndIconOnFocus => Visibility::IfFocused,
        }
    }

    /// When the policy shows the title.
    pub open spec fn title_policy(self) -> Visibility {
        match self {
            WindowRenderer::IconOnly => Visibility::Never,
            WindowRenderer::TextOnly => Visibility::Always,
            WindowRenderer::IconAndText => Visibility::Always,
            WindowRenderer::IconAndTextOnFocus => Visibility::IfFocused,
            WindowRenderer::TextAndIconOnFocus => Visibility::Always,
        }
    }

    /// The parts to draw of a window that has a title or not and is the
    /// focused window of its container or not: the icon slot and the title
    /// as their policies say, and the title on hover over the icon slot
    /// where it is never drawn. A title that the window lacks is neither
    /// drawn nor shown on hover.
    pub open spec fn render(self, has_title: bool, focused: bool) -> WindowRender {
        WindowRender {
            icon: self.icon_policy().shows(focused),
            hover_title: self.title_policy() == Visibility::Never && has_title,
            title: self.title_policy().shows(focused) && has_title,
        }
    }
}

/// When a part of a window entry is shown.
#[derive(Clone, Copy, Debug, PartialEq, Eq, Structural)]
pub enum Visibility {
    Never,
    Always,
    /// For the focused window of the container only.
    IfFocused,
}

impl Visibility {
    /// Whether the part is shown for a window that is focused or not.
    pub open spec fn shows(self, focused: bool) -> bool {
        match self {
            Visibility::Never => false,
            Visibility::Always => true,
            Visibility::IfFocused => focused,
        }
    }
}

/// The focused container widget with its display policy.
#[derive(Clone, Copy, Debug, PartialEq, Eq, Structural)]
pub struct FocusedContainerBar {
    /// Whether the widget is enabled.
    pub enable: bool,
    /// The policy chosen for this widget.
    pub renderer: WindowRenderer,
}

impl From<KomorebiFocusedContainerConfig> for FocusedContainerBar {
    fn from(value: KomorebiFocusedContainerConfig) -> (bar: FocusedContainerBar) {
        let format = match value.display {
            Some(format) => format,
            None => {
                let show_icon = match value.show_icon {
                    Some(show_icon) => show_icon,
                    None => false,
                };
                if show_icon {
                    DisplayFormat::IconAndText
                } else {
                    DisplayFormat::Text
                }
            },
        };
        let renderer = match format {
            DisplayFormat::Icon => WindowRenderer::IconOnly,
            DisplayFormat::Text => WindowRenderer::TextOnly,
            DisplayFormat::IconAndText => WindowRenderer::IconAndText,
            DisplayFormat::IconAndTextOnSelected => WindowRenderer::IconAndTextOnFocus,
            DisplayFormat::TextAndIconOnSelected => WindowRenderer::TextAndIconOnFocus,
        };
        FocusedContainerBar { enable: value.enable, renderer }
    }
}

impl FromSpecImpl<KomorebiFocusedContainerConfig> for FocusedContainerBar {
    open spec fn obeys_from_spec() -> bool {
        true
    }

    open spec fn from_spec(v: KomorebiFocusedContainerConfig) -> FocusedContainerBar {
        FocusedContainerBar::of(v)
    }
}

impl FocusedContainerBar {
    /// The widget for the given settings: enabled as they say, with the
    /// policy for the display format that applies.
    pub open spec fn of(config: KomorebiFocusedContainerConfig) -> FocusedContainerBar {
        FocusedContainerBar {
            enable: config.enable,
            renderer: WindowRenderer::select(
                WindowRenderer::effective_format(config.display, config.show_icon),
            ),
        }
    }

    /// The parts of the entry of `window` to draw; `focused` says whether
    /// it is the focused window of its container.
    pub fn render(&self, window: &WindowInfo, focused: bool) -> (parts: WindowRender)
        ensures
            parts == self.renderer.render(window.title is Some, focused),
    {
        let (icon, hovel, title) = match self.renderer {
            WindowRenderer::IconOnly => (true, true, false),
            WindowRenderer::TextOnly => (false, false, true),
            WindowRenderer::IconAndText => (true, false, true),
            WindowRenderer::IconAndTextOnFocus => (true, false, focused),
            WindowRenderer::TextAndIconOnFocus => (focused, false, true),
        };
        WindowRender {
            icon,
            hover_title: Self::show_icon(hovel, window),
            title: title && Self::show_title(window),
        }
    }

    /// Whether the icon slot of `window` shows the title on hover: where
    /// the policy asks for it and the window has a title.
    fn show_icon(hovel: bool, window: &WindowInfo) -> (hover_title: bool)
        ensures
            hover_title == (hovel && window.title is Some),
    {
        hovel && window.title.is_some()
    }

    /// Whether `window` has a title to draw.
    fn show_title(window: &WindowInfo) -> (title: bool)
        ensures
            title == (window.title is Some),
    {
        window.title.is_some()
    }

    /// Whether the window at `idx` of `container` is drawn as selected:
    /// the focused window of a container that holds more than one.
    pub open spec fn window_selected(container: crate::container::ContainerView, idx: int) -> bool {
        idx == container.focused_window_idx && container.windows.len() != 1
    }

    /// Whether the window at `idx` of `container` is drawn as selected.
    pub fn is_selected(container: &ContainerInfo, idx: usize) -> (selected: bool)
        ensures
            selected == Self::window_selected(container@, idx as int),
    {
        idx == container.focused_window_idx && container.windows.len() != 1
    }
}

/// The policy of the workspaces widget depends on the display format
/// alone: settings with one format choose one policy, and with it the same
/// parts for every workspace, whatever else they say and however often
/// the choice is made.
pub proof fn lemma_workspace_selection_repeats(
    first: KomorebiWorkspacesConfig,
    second: KomorebiWorkspacesConfig,
    has_icons: bool,
    is_selected: bool,
)
    requires
        first.display == second.display,
    ensures
        WorkspacesBar::of(first).renderer == WorkspacesBar::of(second).renderer,
        WorkspacesBar::of(first).renderer.render(has_icons, is_selected) == WorkspacesBar::of(
            second,
        ).renderer.render(has_icons, is_selected),
{
}

/// The policy of the focused container widget depends on the display
/// format alone, and without one on the older switch for icons: settings
/// that agree in these choose one policy, and with it the same parts for
/// every window.
pub proof fn lemma_window_selection_repeats(
    first: KomorebiFocusedContainerConfig,
    second: KomorebiFocusedContainerConfig,
    has_title: bool,
    focused: bool,
)
    requires
        WindowRenderer::effective_format(first.display, first.show_icon)
            == WindowRenderer::effective_format(second.display, second.show_icon),
    ensures
        FocusedContainerBar::of(first).renderer == FocusedContainerBar::of(second).renderer,
        FocusedContainerBar::of(first).renderer.render(has_title, focused)
            == FocusedContainerBar::of(second).renderer.render(has_title, focused),
{
}

/// Every policy of the workspaces widget is the policy of some display
/// format, and the formats that show all icons choose as the plain
/// formats of the same name do.
pub proof fn lemma_workspace_selection_covers(renderer: WorkspaceRenderer)
    ensures
        exists|format: DisplayFormat|
            WorkspaceRenderer::select(Some(WorkspacesDisplayFormat::Existing(format))) == renderer,
        WorkspaceRenderer::select(Some(WorkspacesDisplayFormat::AllIcons))
            == WorkspaceRenderer::select(
            Some(WorkspacesDisplayFormat::Existing(DisplayFormat::Icon)),
        ),
        WorkspaceRenderer::select(Some(WorkspacesDisplayFormat::AllIconsAndText))
            == WorkspaceRenderer::select(
            Some(WorkspacesDisplayFormat::Existing(DisplayFormat::IconAndText)),
        ),
        WorkspaceRenderer::select(Some(WorkspacesDisplayFormat::AllIconsAndTextOnSelected))
            == WorkspaceRenderer::select(
            Some(WorkspacesDisplayFormat::Existing(DisplayFormat::IconAndTextOnSelected)),
        ),
{
    let format = match renderer {
        WorkspaceRenderer::IconsOrFallback => DisplayFormat::Icon,
        WorkspaceRenderer::IconsAndLabel => DisplayFormat::IconAndText,
        WorkspaceRenderer::IconsSelLabel => DisplayFormat::IconAndTextOnSelected,
        WorkspaceRenderer::LabelSelIcons => DisplayFormat::TextAndIconOnSelected,
        WorkspaceRenderer::Text => DisplayFormat::Text,
    };
    assert(WorkspaceRenderer::select(Some(WorkspacesDisplayFormat::Existing(format))) == renderer);
}

/// Two display formats never share a policy of the focused container
/// widget.
pub proof fn lemma_window_selection_one_to_one(a: DisplayFormat, b: DisplayFormat)
    ensures
        WindowRenderer::select(a) == WindowRenderer::select(b) <==> a == b,
{
}

/// Every policy of the focused container widget is the policy of some
/// display format.
pub proof fn lemma_window_selection_covers(renderer: WindowRenderer)
    ensures
        exists|format: DisplayFormat| WindowRenderer::select(format) == renderer,
{
    let format = match renderer {
        WindowRenderer::IconOnly => DisplayFormat::Icon,
        WindowRenderer::TextOnly => DisplayFormat::Text,
        WindowRenderer::IconAndText => DisplayFormat::IconAndText,
        WindowRenderer::IconAndTextOnFocus => DisplayFormat::IconAndTextOnSelected,
        WindowRenderer::TextAndIconOnFocus => DisplayFormat::TextAndIconOnSelected,
    };
    assert(WindowRenderer::select(format) == renderer);
}

} // verus!
