//! The settings of the widgets, as they come out of the bar's
//! configuration.

use vstd::prelude::*;
use vstd::string::StrSliceExecFns;

use crate::layout::KomorebiLayout;

verus! {

/// How a widget shows an item: by its icon, by its text, or by both.
#[derive(Clone, Copy, Debug, PartialEq, Eq, Structural)]
pub enum DisplayFormat {
    /// The icon alone.
    Icon,
    /// The text alone.
    Text,
    /// The text, and the icon of the selected item.
    TextAndIconOnSelected,
    /// The icon and the text.
    IconAndText,
    /// The icon, and the text of the selected item.
    IconAndTextOnSelected,
}

impl DisplayFormat {
    /// Whether the format shows an icon at all: every format but `Text`.
    pub open spec fn has_icon(self) -> bool {
        self != DisplayFormat::Text
    }

    /// Whether the format shows text at all: every format but `Icon`.
    pub open spec fn has_text(self) -> bool {
        self != DisplayFormat::Icon
    }

    /// Whether the format shows an icon at all.
    pub fn shows_icon(&self) -> (shows: bool)
        ensures
            shows == self.has_icon(),
    {
        match self {
            DisplayFormat::Text => false,
            _ => true,
        }
    }

    /// Whether the format shows text at all.
    pub fn shows_text(&self) -> (shows: bool)
        ensures
            shows == self.has_text(),
    {
        match self {
            DisplayFormat::Icon => false,
            _ => true,
        }
    }
}

/// How the workspaces widget shows a workspace. The first three show the
/// icons of every window; the last defers to a plain [`DisplayFormat`].
#[derive(Clone, Copy, Debug, PartialEq, Eq, Structural)]
pub enum WorkspacesDisplayFormat {
    AllIcons,
    AllIconsAndText,
    AllIconsAndTextOnSelected,
    Existing(DisplayFormat),
}

impl From<DisplayFormat> for WorkspacesDisplayFormat {
    fn from(value: DisplayFormat) -> (format: WorkspacesDisplayFormat) {
        WorkspacesDisplayFormat::Existing(value)
    }
}

impl vstd::std_specs::convert::FromSpecImpl<DisplayFormat> for WorkspacesDisplayFormat {
    open spec fn obeys_from_spec() -> bool {
        true
    }

    open spec fn from_spec(v: DisplayFormat) -> WorkspacesDisplayFormat {
        WorkspacesDisplayFormat::Existing(v)
    }
}

/// Settings of the workspaces widget.
#[derive(Clone, Copy, Debug, PartialEq, Eq)]
pub struct KomorebiWorkspacesConfig {
    pub enable: bool,
    /// Hide workspaces without any windows.
    pub hide_empty_workspaces: bool,
    pub display: Option<WorkspacesDisplayFormat>,
}

/// Settings of the layout widget.
#[derive(Clone, Debug, PartialEq, Eq)]
pub struct KomorebiLayoutConfig {
    pub enable: bool,
    /// The layouts offered for choice.
    pub options: Option<Vec<KomorebiLayout>>,
    pub display: Option<DisplayFormat>,
}

/// View of a [`KomorebiLayoutConfig`].
pub struct LayoutSettings {
    pub enable: bool,
    pub options: Option<Seq<KomorebiLayout>>,
    pub display: Option<DisplayFormat>,
}

impl View for KomorebiLayoutConfig {
    type V = LayoutSettings;

    open spec fn view(&self) -> LayoutSettings {
        LayoutSettings {
            enable: self.enable,
            options: match self.options {
                Some(options) => Some(options@),
                None => None,
            },
            display: self.display,
        }
    }
}

impl KomorebiLayoutConfig {
    /// A copy of the settings.
    pub fn copy(&self) -> (copy: KomorebiLayoutConfig)
        ensures
            copy@ == self@,
    {
        let options = match &self.options {
            Some(options) => {
                let count = options.len();
                let mut copied: Vec<KomorebiLayout> = Vec::new();
                let mut i: usize = 0;
                while i < count
                    invariant
                        i <= count,
                        count == options@.len(),
                        copied@ == options@.take(i as int),
                    decreases count - i,
                {
                    copied.push(options[i]);
                    i += 1;
                    assert(copied@ =~= options@.take(i as int));
                }
                assert(options@.take(count as int) =~= options@);
                Some(copied)
            },
            None => None,
        };
        KomorebiLayoutConfig { enable: self.enable, options, display: self.display }
    }
}

/// Settings of the workspace layer widget.
#[derive(Clone, Copy, Debug, PartialEq, Eq)]
pub struct KomorebiWorkspaceLayerConfig {
    pub enable: bool,
    pub display: Option<DisplayFormat>,
    /// Show the widget even while the layer is tiling.
    pub show_when_tiling: Option<bool>,
}

/// Settings of the focused container widget.
#[derive(Clone, Copy, Debug, PartialEq, Eq)]
pub struct KomorebiFocusedContainerConfig {
    pub enable: bool,
    /// Older way to ask for icons; `display` overrides it.
    pub show_icon: Option<bool>,
    pub display: Option<DisplayFormat>,
}

/// Settings of the locked container widget.
#[derive(Clone, Copy, Debug, PartialEq, Eq)]
pub struct KomorebiLockedContainerConfig {
    pub enable: bool,
    pub display: Option<DisplayFormat>,
    /// Show the widget even while the container is unlocked.
    pub show_when_unlocked: Option<bool>,
}

/// One configuration of the window manager that the user can switch to.
#[derive(Clone, Debug, PartialEq, Eq)]
pub struct ConfigurationEntry {
    /// The name shown on the bar.
    pub name: String,
    /// Where the configuration file lies.
    pub location: String,
}

/// View of a [`ConfigurationEntry`].
pub struct ConfigurationEntryView {
    pub name: Seq<char>,
    pub location: Seq<char>,
}

impl View for ConfigurationEntry {
    type V = ConfigurationEntryView;

    open spec fn view(&self) -> ConfigurationEntryView {
        ConfigurationEntryView { name: self.name@, location: self.location@ }
    }
}

/// The views of a sequence of entries, in order.
pub open spec fn configuration_views(entries: Seq<ConfigurationEntry>) -> Seq<
    ConfigurationEntryView,
> {
    Seq::new(entries.len(), |i: int| entries[i]@)
}

/// Whether `a` comes before `b` in the order of strings, looking from
/// place `from` on, both being equal before it: at the first place where
/// they differ `a` has the lesser character, or `a` ends there and `b`
/// goes on.
pub open spec fn name_before(a: Seq<char>, b: Seq<char>, from: int) -> bool
    decreases a.len() - from,
{
    if from < 0 || from >= b.len() {
        false
    } else if from >= a.len() {
        true
    } else if a[from] != b[from] {
        (a[from] as u32) < (b[from] as u32)
    } else {
        name_before(a, b, from + 1)
    }
}

/// The entries stand in the order of their names, each name before all
/// that follow.
pub open spec fn names_ascending(entries: Seq<ConfigurationEntryView>) -> bool {
    forall|i: int, j: int|
        0 <= i < j < entries.len() ==> name_before(
            (#[trigger] entries[i]).name,
            (#[trigger] entries[j]).name,
            0,
        )
}

/// No name occurs twice among the entries.
pub open spec fn names_distinct(entries: Seq<ConfigurationEntryView>) -> bool {
    forall|i: int, j: int|
        0 <= i < j < entries.len() ==> (#[trigger] entries[i]).name != (#[trigger] entries[j]).name
}

/// No string comes before itself.
pub proof fn lemma_name_before_irreflexive(a: Seq<char>, from: int)
    ensures
        !name_before(a, a, from),
    decreases a.len() - from,
{
    if 0 <= from < a.len() {
        lemma_name_before_irreflexive(a, from + 1);
    }
}

/// What comes before a string comes before all that it comes before.
pub proof fn lemma_name_before_transitive(a: Seq<char>, b: Seq<char>, c: Seq<char>, from: int)
    requires
        name_before(a, b, from),
        name_before(b, c, from),
    ensures
        name_before(a, c, from),
    decreases a.len() - from,
{
    if from < a.len() && a[from] == b[from] && b[from] == c[from] {
        lemma_name_before_transitive(a, b, c, from + 1);
    }
}

/// Entries in the order of their names have a name each of their own.
pub proof fn lemma_ascending_names_are_distinct(entries: Seq<ConfigurationEntryView>)
    requires
        names_ascending(entries),
    ensures
        names_distinct(entries),
{
    assert forall|i: int, j: int| 0 <= i < j < entries.len() implies (#[trigger] entries[i]).name
        != (#[trigger] entries[j]).name by {
        lemma_name_before_irreflexive(entries[i].name, 0);
    }
}

/// Whether `a` comes before `b` in the order of strings.
fn comes_before(a: &str, b: &str) -> (before: bool)
    ensures
        before == name_before(a@, b@, 0),
{
    let len_a = a.unicode_len();
    let len_b = b.unicode_len();
    let mut i: usize = 0;
    while i < len_a && i < len_b
        invariant
            i <= len_a,
            i <= len_b,
            len_a == a@.len(),
            len_b == b@.len(),
            name_before(a@, b@, 0) == name_before(a@, b@, i as int),
        decreases len_a - i,
    {
        let x = a.get_char(i);
        let y = b.get_char(i);
        if x != y {
            return (x as u32) < (y as u32);
        }
        i += 1;
    }
    i < len_b
}

/// Settings of the configuration switcher widget.
#[derive(Clone, Debug, PartialEq, Eq)]
pub struct KomorebiConfigurationSwitcherConfig {
    pub enable: bool,
    /// The configurations on offer, each under its own name, in the order
    /// of their names, which is the order in which the bar lists them.
    pub configurations: Vec<ConfigurationEntry>,
}

/// View of a [`KomorebiConfigurationSwitcherConfig`].
pub struct SwitcherSettings {
    pub enable: bool,
    pub configurations: Seq<ConfigurationEntryView>,
}

impl View for KomorebiConfigurationSwitcherConfig {
    type V = SwitcherSettings;

    open spec fn view(&self) -> SwitcherSettings {
        SwitcherSettings {
            enable: self.enable,
            configurations: configuration_views(self.configurations@),
        }
    }
}

impl SwitcherSettings {
    /// The configurations stand in the order of their names, so that each
    /// has a name of its own.
    pub open spec fn wf(self) -> bool {
        names_ascending(self.configurations)
    }
}

impl KomorebiConfigurationSwitcherConfig {
    /// The settings for the given configurations, where these stand in
    /// the order of their names; none where they do not.
    pub fn new(enable: bool, configurations: Vec<ConfigurationEntry>) -> (settings: Option<
        KomorebiConfigurationSwitcherConfig,
    >)
        ensures
            match settings {
                Some(settings) => {
                    &&& names_ascending(configuration_views(configurations@))
                    &&& settings.enable == enable
                    &&& settings.configurations == configurations
                    &&& settings@.wf()
                },
                None => !names_ascending(configuration_views(configurations@)),
            },
    {
        let ghost views = configuration_views(configurations@);
        let count = configurations.len();
        let mut k: usize = 1;
        while k < count
            invariant
                1 <= k,
                count == configurations@.len(),
                views == configuration_views(configurations@),
                forall|i: int, j: int|
                    0 <= i < j < k && j < count ==> name_before(
                        (#[trigger] views[i]).name,
                        (#[trigger] views[j]).name,
                        0,
                    ),
            decreases count - k,
        {
            let before = comes_before(
                configurations[k - 1].name.as_str(),
                configurations[k].name.as_str(),
            );
            assert(views[k - 1].name == configurations@[k - 1].name@);
            assert(views[k as int].name == configurations@[k as int].name@);
            if !before {
                return None;
            }
            proof {
                assert forall|i: int, j: int| 0 <= i < j < k + 1 && j < count implies name_before(
                    (#[trigger] views[i]).name,
                    (#[trigger] views[j]).name,
                    0,
                ) by {
                    if j == k && i < k - 1 {
                        lemma_name_before_transitive(
                            views[i].name,
                            views[k - 1].name,
                            views[k as int].name,
                            0,
                        );
                    }
                }
            }
            k += 1;
        }
        Some(KomorebiConfigurationSwitcherConfig { enable, configurations })
    }
}

/// Settings of all the widgets.
#[derive(Clone, Debug, PartialEq, Eq)]
pub struct KomorebiConfig {
    pub workspaces: Option<KomorebiWorkspacesConfig>,
    pub layout: Option<KomorebiLayoutConfig>,
    pub workspace_layer: Option<KomorebiWorkspaceLayerConfig>,
    pub focused_container: Option<KomorebiFocusedContainerConfig>,
    pub locked_container: Option<KomorebiLockedContainerConfig>,
    pub configuration_switcher: Option<KomorebiConfigurationSwitcherConfig>,
}

} // verus!
