//! Containers and windows as the bar shows them, and how a workspace of the
//! snapshot is projected onto them.
//!
//! With all icons shown, a workspace gives its monocle container, then its
//! tiled containers, then one container per floating window. With a single
//! icon shown, it gives the one container that has the focus. Either way
//! the focus goes to a focused floating window first, then to the monocle
//! container, then to the tiled container under the recorded focus index.

use vstd::prelude::*;

use crate::state::{
    Container, ContainerSnapshot, Window, WindowSnapshot, Workspace, WorkspaceSnapshot,
};
use crate::text::{clone_opt_string, opt_str_view};

verus! {

/// Names the icon of a window in the icon cache: the window's native
/// identifier.
#[derive(Clone, Copy, Debug, PartialEq, Eq, Structural)]
pub struct IconHandle {
    pub hwnd: isize,
}

/// A window as the bar shows it.
#[derive(Clone, Debug, PartialEq, Eq)]
pub struct WindowInfo {
    pub title: Option<String>,
    pub icon: Option<IconHandle>,
}

/// View of a [`WindowInfo`].
pub struct WindowView {
    pub title: Option<Seq<char>>,
    pub icon: Option<IconHandle>,
}

impl View for WindowInfo {
    type V = WindowView;

    open spec fn view(&self) -> WindowView {
        WindowView { title: opt_str_view(self.title), icon: self.icon }
    }
}

/// The views of a sequence of windows, in order.
pub open spec fn window_info_views(windows: Seq<WindowInfo>) -> Seq<WindowView> {
    Seq::new(windows.len(), |i: int| windows[i]@)
}

/// A container as the bar shows it: a stack of windows, or one floating
/// window alone.
#[derive(Clone, Debug, PartialEq, Eq)]
pub struct ContainerInfo {
    pub windows: Vec<WindowInfo>,
    /// Index of the focused window; it names a window unless there is none.
    pub focused_window_idx: usize,
    /// Whether this container has the focus within its workspace. At most
    /// one container of a workspace has it.
    pub is_focused: bool,
    pub is_locked: bool,
}

/// View of a [`ContainerInfo`].
pub struct ContainerView {
    pub windows: Seq<WindowView>,
    pub focused_window_idx: usize,
    pub is_focused: bool,
    pub is_locked: bool,
}

impl View for ContainerInfo {
    type V = ContainerView;

    open spec fn view(&self) -> ContainerView {
        ContainerView {
            windows: window_info_views(self.windows@),
            focused_window_idx: self.focused_window_idx,
            is_focused: self.is_focused,
            is_locked: self.is_locked,
        }
    }
}

/// The views of a sequence of containers, in order.
pub open spec fn container_info_views(containers: Seq<ContainerInfo>) -> Seq<ContainerView> {
    Seq::new(containers.len(), |i: int| containers[i]@)
}

/// Appending a container appends its view.
pub proof fn lemma_views_push(containers: Seq<ContainerInfo>, container: ContainerInfo)
    ensures
        container_info_views(containers.push(container)) == container_info_views(
            containers,
        ).push(container@),
{
    assert(container_info_views(containers.push(container)) =~= container_info_views(
        containers,
    ).push(container@));
}

/// The view of an optional container.
pub open spec fn opt_container_info_view(container: Option<ContainerInfo>) -> Option<
    ContainerView,
> {
    match container {
        Some(c) => Some(c@),
        None => None,
    }
}

impl ContainerView {
    /// Whether one of the windows has an icon.
    pub open spec fn has_icon(self) -> bool {
        exists|j: int| 0 <= j < self.windows.len() && (#[trigger] self.windows[j]).icon is Some
    }

    /// The focused window index names a window, unless there is none to
    /// name.
    pub open spec fn focus_in_range(self) -> bool {
        self.windows.len() > 0 ==> self.focused_window_idx < self.windows.len()
    }
}

impl WindowSnapshot {
    /// The window as the bar shows it: its title, and its icon where one
    /// is loaded.
    pub open spec fn info(self) -> WindowView {
        WindowView {
            title: self.title,
            icon: if self.has_icon {
                Some(IconHandle { hwnd: self.hwnd })
            } else {
                None
            },
        }
    }

    /// A floating window shown as a container of its own, with the focus
    /// flag it is given. Such a container is never locked.
    pub open spec fn floating_container(self, is_focused: bool) -> ContainerView {
        ContainerView {
            windows: seq![self.info()],
            focused_window_idx: 0,
            is_focused,
            is_locked: false,
        }
    }
}

impl ContainerSnapshot {
    /// The focused window index as the bar shows it: the recorded one
    /// where it names a window of the container, and else the first place.
    pub open spec fn shown_focus(self) -> usize {
        if self.focused_window_idx < self.windows.len() {
            self.focused_window_idx
        } else {
            0
        }
    }

    /// The container as the bar shows it, with the focus flag it is given.
    /// Its focused window index names one of its windows, unless it has
    /// none.
    pub open spec fn projected(self, is_focused: bool) -> ContainerView {
        ContainerView {
            windows: Seq::new(self.windows.len(), |i: int| self.windows[i].info()),
            focused_window_idx: self.shown_focus(),
            is_focused,
            is_locked: self.locked,
        }
    }
}

/// The index of the first focused window at or after `from`.
pub open spec fn first_focused_window(windows: Seq<WindowSnapshot>, from: int) -> Option<int>
    decreases windows.len() - from,
{
    if from < 0 || from >= windows.len() {
        None
    } else if windows[from].is_focused {
        Some(from)
    } else {
        first_focused_window(windows, from + 1)
    }
}

/// What [`first_focused_window`] finds is focused and nothing before it
/// is; where it finds nothing, nothing is focused.
pub proof fn lemma_first_focused_window(windows: Seq<WindowSnapshot>, from: int)
    requires
        0 <= from,
    ensures
        match first_focused_window(windows, from) {
            Some(i) => {
                &&& from <= i < windows.len()
                &&& windows[i].is_focused
                &&& forall|j: int| from <= j < i ==> !(#[trigger] windows[j]).is_focused
            },
            None => forall|j: int|
                from <= j < windows.len() ==> !(#[trigger] windows[j]).is_focused,
        },
    decreases windows.len() - from,
{
    if from < windows.len() && !windows[from].is_focused {
        lemma_first_focused_window(windows, from + 1);
    }
}

impl WorkspaceSnapshot {
    /// Whether a floating window has the focus.
    pub open spec fn has_focused_float(self) -> bool {
        first_focused_window(self.floating_windows, 0) is Some
    }

    /// The focus flag of the monocle container: set unless a floating
    /// window has the focus.
    pub open spec fn monocle_focus(self) -> bool {
        !self.has_focused_float()
    }

    /// The focus flag of the floating window at `i`: set where it is the
    /// first floating window that has the focus.
    pub open spec fn floating_focus(self, i: int) -> bool {
        first_focused_window(self.floating_windows, 0) == Some(i)
    }

    /// The focus flag of the tiled container at `i`: set where no floating
    /// window has the focus, there is no monocle container, and `i` is the
    /// recorded focus index.
    pub open spec fn tiled_focus(self, i: int) -> bool {
        &&& !self.has_focused_float()
        &&& self.monocle_container is None
        &&& i == self.focused_container_idx
    }

    /// The monocle container, as a list of none or one.
    pub open spec fn monocle_part(self) -> Seq<ContainerView> {
        match self.monocle_container {
            Some(c) => seq![c.projected(self.monocle_focus())],
            None => Seq::empty(),
        }
    }

    /// The tiled containers, in order.
    pub open spec fn tiled_part(self) -> Seq<ContainerView> {
        Seq::new(
            self.containers.len(),
            |i: int| self.containers[i].projected(self.tiled_focus(i)),
        )
    }

    /// One container per floating window, in order.
    pub open spec fn floating_part(self) -> Seq<ContainerView> {
        Seq::new(
            self.floating_windows.len(),
            |i: int| self.floating_windows[i].floating_container(self.floating_focus(i)),
        )
    }

    /// The containers of the workspace where all icons are shown: the
    /// monocle container, the tiled containers, the floating windows.
    pub open spec fn all_containers(self) -> Seq<ContainerView> {
        self.monocle_part() + self.tiled_part() + self.floating_part()
    }

    /// The one container of the workspace where a single icon is shown:
    /// the first focused floating window, else the monocle container, else
    /// the tiled container under the recorded focus index; none where
    /// there is none of these.
    pub open spec fn focused_only(self) -> Option<ContainerView> {
        match first_focused_window(self.floating_windows, 0) {
            Some(i) => Some(self.floating_windows[i].floating_container(true)),
            None => match self.monocle_container {
                Some(c) => Some(c.projected(true)),
                None => match self.focused_container() {
                    Some(c) => Some(c.projected(true)),
                    None => None,
                },
            },
        }
    }

    /// The containers of the workspace under the given icon mode.
    pub open spec fn shown_containers(self, show_all_icons: bool) -> Seq<ContainerView> {
        if show_all_icons {
            self.all_containers()
        } else {
            match self.focused_only() {
                Some(c) => seq![c],
                None => Seq::empty(),
            }
        }
    }
}

impl<'a> From<&'a Window> for WindowInfo {
    fn from(value: &'a Window) -> (info: WindowInfo) {
        WindowInfo {
            title: clone_opt_string(&value.title),
            icon: if value.has_icon {
                Some(IconHandle { hwnd: value.hwnd })
            } else {
                None
            },
        }
    }
}

impl<'a> vstd::std_specs::convert::FromSpecImpl<&'a Window> for WindowInfo {
    open spec fn obeys_from_spec() -> bool {
        true
    }

    open spec fn from_spec(v: &'a Window) -> WindowInfo {
        WindowInfo {
            title: v.title,
            icon: if v.has_icon {
                Some(IconHandle { hwnd: v.hwnd })
            } else {
                None
            },
        }
    }
}

impl ContainerInfo {
    /// Every container of the workspace: the monocle container first, then
    /// the tiled containers, then the floating windows, each a container
    /// of its own. At most one of them is focused: the first floating
    /// window that has the focus; the monocle container where no floating
    /// window has it; the tiled container under the recorded focus index
    /// where neither is there.
    pub fn from_all_containers(ws: &Workspace) -> (containers: Vec<ContainerInfo>)
        ensures
            container_info_views(containers@) == ws@.all_containers(),
            forall|i: int, j: int|
                0 <= i < containers@.len() && 0 <= j < containers@.len() && (
                #[trigger] containers@[i]).is_focused && (#[trigger] containers@[j]).is_focused
                    ==> i == j,
            forall|i: int|
                0 <= i < containers@.len() ==> (#[trigger] containers@[i])@.focus_in_range(),
    {
        let focused_float = first_focused(&ws.floating_windows);
        let has_focused_float = focused_float.is_some();
        let mut containers: Vec<ContainerInfo> = Vec::new();
        let has_monocle = match &ws.monocle_container {
            Some(c) => {
                containers.push(Self::from_container(c, !has_focused_float));
                true
            },
            None => false,
        };
        assert(container_info_views(containers@) =~= ws@.monocle_part());
        let has_focused_monocle_or_float = has_focused_float || has_monocle;

        let tiled = ws.containers.len();
        let mut i: usize = 0;
        while i < tiled
            invariant
                i <= tiled,
                tiled == ws.containers@.len(),
                has_focused_monocle_or_float == (ws@.has_focused_float()
                    || ws@.monocle_container is Some),
                container_info_views(containers@) == ws@.monocle_part() + ws@.tiled_part().take(
                    i as int,
                ),
            decreases tiled - i,
        {
            let is_focused = !has_focused_monocle_or_float && i == ws.focused_container_idx;
            let ghost before = containers@;
            let container = Self::from_container(&ws.containers[i], is_focused);
            containers.push(container);
            proof {
                lemma_views_push(before, container);
                assert(ws@.containers[i as int] == ws.containers@[i as int]@);
                assert(container@ == ws@.tiled_part()[i as int]);
                assert(ws@.tiled_part().take(i as int + 1) =~= ws@.tiled_part().take(
                    i as int,
                ).push(container@));
            }
            i += 1;
            assert(container_info_views(containers@) =~= ws@.monocle_part()
                + ws@.tiled_part().take(i as int));
        }
        assert(ws@.tiled_part().take(tiled as int) =~= ws@.tiled_part());

        let floats = ws.floating_windows.len();
        let mut k: usize = 0;
        while k < floats
            invariant
                k <= floats,
                floats == ws.floating_windows@.len(),
                match focused_float {
                    Some(f) => first_focused_window(ws@.floating_windows, 0) == Some(f as int),
                    None => first_focused_window(ws@.floating_windows, 0) is None,
                },
                container_info_views(containers@) == ws@.monocle_part() + ws@.tiled_part()
                    + ws@.floating_part().take(k as int),
            decreases floats - k,
        {
            let ghost before = containers@;
            let is_focused = match focused_float {
                Some(f) => f == k,
                None => false,
            };
            let container = Self::from_floating_window(&ws.floating_windows[k], is_focused);
            containers.push(container);
            proof {
                lemma_views_push(before, container);
                assert(ws@.floating_windows[k as int] == ws.floating_windows@[k as int]@);
                assert(container@ == ws@.floating_part()[k as int]);
                assert(ws@.floating_part().take(k as int + 1) =~= ws@.floating_part().take(
                    k as int,
                ).push(container@));
            }
            k += 1;
            assert(container_info_views(containers@) =~= ws@.monocle_part() + ws@.tiled_part()
                + ws@.floating_part().take(k as int));
        }
        assert(ws@.floating_part().take(floats as int) =~= ws@.floating_part());
        proof {
            let views = container_info_views(containers@);
            crate::laws::lemma_at_most_one_focused(ws@, true);
            crate::laws::lemma_info_window_focus_valid(ws@, 0, true, false, None);
            assert forall|i: int, j: int|
                0 <= i < containers@.len() && 0 <= j < containers@.len() && (
                #[trigger] containers@[i]).is_focused && (
                #[trigger] containers@[j]).is_focused implies i == j by {
                assert(views[i].is_focused && views[j].is_focused);
            }
            assert forall|i: int| 0 <= i < containers@.len() implies (
            #[trigger] containers@[i])@.focus_in_range() by {
                assert(views[i].focus_in_range());
            }
        }
        containers
    }

    /// The one container of the workspace that has the focus, if any: the
    /// first focused floating window, else the monocle container, else the
    /// tiled container under the recorded focus index.
    pub fn from_focused_container(ws: &Workspace) -> (container: Option<ContainerInfo>)
        ensures
            opt_container_info_view(container) == ws@.focused_only(),
            container matches Some(c) ==> c.is_focused && c@.focus_in_range(),
    {
        let floats = ws.floating_windows.len();
        let mut k: usize = 0;
        while k < floats
            invariant
                k <= floats,
                floats == ws.floating_windows@.len(),
                first_focused_window(ws@.floating_windows, 0) == first_focused_window(
                    ws@.floating_windows,
                    k as int,
                ),
            decreases floats - k,
        {
            if ws.floating_windows[k].is_focused {
                return Some(Self::from_window(&ws.floating_windows[k]));
            }
            k += 1;
        }
        if let Some(container) = &ws.monocle_container {
            Some(Self::from_container(container, true))
        } else {
            match ws.focused_container() {
                Some(container) => Some(Self::from_container(container, true)),
                None => None,
            }
        }
    }

    /// A container of the snapshot with the focus flag it is given. Its
    /// focused window index is the recorded one where that names one of
    /// its windows, and else the first place.
    pub fn from_container(container: &Container, is_focused: bool) -> (info: ContainerInfo)
        ensures
            info@ == container@.projected(is_focused),
            info@.focus_in_range(),
    {
        let count = container.windows.len();
        let mut windows: Vec<WindowInfo> = Vec::new();
        let mut i: usize = 0;
        while i < count
            invariant
                i <= count,
                count == container.windows@.len(),
                windows@.len() == i,
                forall|j: int|
                    0 <= j < i ==> (#[trigger] windows@[j])@
                        == container.windows@[j]@.info(),
            decreases count - i,
        {
            windows.push(WindowInfo::from(&container.windows[i]));
            i += 1;
        }
        let info = ContainerInfo {
            windows,
            focused_window_idx: if container.focused_window_idx < count {
                container.focused_window_idx
            } else {
                0
            },
            is_focused,
            is_locked: container.locked,
        };
        assert(info@.windows =~= container@.projected(is_focused).windows);
        info
    }

    /// A floating window as a container of its own, focused where the
    /// window is.
    pub fn from_window(window: &Window) -> (info: ContainerInfo)
        ensures
            info@ == window@.floating_container(window.is_focused),
            info@.focus_in_range(),
    {
        Self::from_floating_window(window, window.is_focused)
    }

    /// A floating window as a container of its own, with the focus flag it
    /// is given.
    pub fn from_floating_window(window: &Window, is_focused: bool) -> (info: ContainerInfo)
        ensures
            info@ == window@.floating_container(is_focused),
            info@.focus_in_range(),
    {
        let mut windows: Vec<WindowInfo> = Vec::new();
        windows.push(WindowInfo::from(window));
        let info = ContainerInfo { windows, focused_window_idx: 0, is_focused, is_locked: false };
        assert(info@.windows =~= window@.floating_container(is_focused).windows);
        info
    }
}

/// The index of the first window that has the focus.
fn first_focused(windows: &Vec<Window>) -> (found: Option<usize>)
    ensures
        match found {
            Some(i) => first_focused_window(crate::state::window_views(windows@), 0) == Some(
                i as int,
            ),
            None => first_focused_window(crate::state::window_views(windows@), 0) is None,
        },
{
    let count = windows.len();
    let ghost views = crate::state::window_views(windows@);
    let mut k: usize = 0;
    while k < count
        invariant
            k <= count,
            count == windows@.len(),
            views == crate::state::window_views(windows@),
            first_focused_window(views, 0) == first_focused_window(views, k as int),
        decreases count - k,
    {
        if windows[k].is_focused {
            return Some(k);
        }
        k += 1;
    }
    None
}

} // verus!
