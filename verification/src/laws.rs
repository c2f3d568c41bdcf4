//! What holds of the model whatever the window manager reports.

use vstd::prelude::*;

use crate::bars::{lemma_container_icons, workspace_icons, WorkspacesBar};
use crate::command::{follows_after, moves_focus, Click};
use crate::container::{first_focused_window, lemma_first_focused_window};
use crate::monitor::{
    first_focused_container, lemma_first_focused_container, MonitorModel, WorkspaceView,
};
use crate::state::{StateSnapshot, WorkspaceSnapshot};
use crate::widget::{workspace_entries_upto, workspace_entry};

verus! {

/// A workspace is left off the bar in one case alone: empty workspaces are
/// hidden, and this one is empty and not selected.
pub proof fn lemma_should_show(ws: WorkspaceSnapshot, hide_empty_ws: bool, is_selected: bool)
    ensures
        !ws.should_show(hide_empty_ws, is_selected) <==> hide_empty_ws && !is_selected
            && ws.is_empty(),
{
}

/// The entry of a workspace says of itself whether it is shown and
/// whether it is selected: selected where its index is the focused one,
/// shown by the rule of [`lemma_should_show`].
pub proof fn lemma_info_flags(
    ws: WorkspaceSnapshot,
    index: usize,
    show_all_icons: bool,
    hide_empty_ws: bool,
    focused_ws_idx: Option<usize>,
)
    ensures
        ({
            let info = ws.info(index, show_all_icons, hide_empty_ws, focused_ws_idx);
            &&& info.is_selected == (focused_ws_idx == Some(index))
            &&& !info.should_show <==> hide_empty_ws && focused_ws_idx != Some(index)
                && ws.is_empty()
        }),
{
}

/// The entry of a workspace is said to have icons exactly where it has
/// icons to draw.
pub proof fn lemma_info_has_icons(
    ws: WorkspaceSnapshot,
    index: usize,
    show_all_icons: bool,
    hide_empty_ws: bool,
    focused_ws_idx: Option<usize>,
)
    ensures
        ({
            let info = ws.info(index, show_all_icons, hide_empty_ws, focused_ws_idx);
            info.has_icons <==> workspace_icons(info).len() > 0
        }),
{
    let info = ws.info(index, show_all_icons, hide_empty_ws, focused_ws_idx);
    lemma_container_icons(info.containers, info.containers.len() as int);
}

/// With all icons shown, at most one container of a workspace is
/// focused, and which one follows one precedence. Where a floating window
/// has the focus, the container of the first such window is focused and
/// nothing else. Else, where there is a monocle container, it is focused
/// and nothing else. Else the tiled container under the recorded focus
/// index is focused and nothing else.
pub proof fn lemma_focus_precedence(ws: WorkspaceSnapshot)
    ensures
        ({
            let all = ws.all_containers();
            let monocle = ws.monocle_part().len() as int;
            let tiled = ws.tiled_part().len() as int;
            &&& all.len() == monocle + tiled + ws.floating_windows.len()
            &&& monocle == if ws.monocle_container is Some {
                1int
            } else {
                0int
            }
            &&& tiled == ws.containers.len()
            &&& match first_focused_window(ws.floating_windows, 0) {
                Some(f) => {
                    &&& 0 <= f < ws.floating_windows.len()
                    &&& ws.floating_windows[f].is_focused
                    &&& forall|i: int|
                        0 <= i < all.len() ==> ((#[trigger] all[i]).is_focused <==> i == monocle
                            + tiled + f)
                },
                None => {
                    &&& forall|j: int|
                        0 <= j < ws.floating_windows.len() ==> !(
                        #[trigger] ws.floating_windows[j]).is_focused
                    &&& ws.monocle_container is Some ==> forall|i: int|
                        0 <= i < all.len() ==> ((#[trigger] all[i]).is_focused <==> i == 0)
                    &&& ws.monocle_container is None ==> forall|i: int|
                        0 <= i < all.len() ==> ((#[trigger] all[i]).is_focused <==> i
                            == ws.focused_container_idx && i < tiled)
                },
            }
        }),
{
    lemma_first_focused_window(ws.floating_windows, 0);
    let all = ws.all_containers();
    let monocle = ws.monocle_part().len() as int;
    let tiled = ws.tiled_part().len() as int;
    assert forall|i: int| 0 <= i < all.len() implies (#[trigger] all[i]).is_focused == (
    if i < monocle {
        ws.monocle_focus()
    } else if i < monocle + tiled {
        ws.tiled_focus(i - monocle)
    } else {
        ws.floating_focus(i - monocle - tiled)
    }) by {
        if i < monocle {
            assert(all[i] == ws.monocle_part()[i]);
        } else if i < monocle + tiled {
            assert(all[i] == ws.tiled_part()[i - monocle]);
        } else {
            assert(all[i] == ws.floating_part()[i - monocle - tiled]);
        }
    }
}

/// At most one container of a workspace is focused, whether all icons are
/// shown or a single one, whatever the state says of its windows.
pub proof fn lemma_at_most_one_focused(ws: WorkspaceSnapshot, show_all_icons: bool)
    ensures
        ({
            let shown = ws.shown_containers(show_all_icons);
            forall|i: int, j: int|
                0 <= i < shown.len() && 0 <= j < shown.len() && (#[trigger] shown[i]).is_focused
                    && (#[trigger] shown[j]).is_focused ==> i == j
        }),
{
    if show_all_icons {
        lemma_focus_precedence(ws);
    }
}

/// With a single icon shown, a workspace gives at most one container, and
/// that one is focused. It gives none only where no floating window is
/// focused, there is no monocle container, and the recorded focus index
/// names no tiled container.
pub proof fn lemma_single_icon(ws: WorkspaceSnapshot)
    ensures
        ws.shown_containers(false).len() <= 1,
        forall|i: int|
            0 <= i < ws.shown_containers(false).len() ==> (#[trigger] ws.shown_containers(
                false,
            )[i]).is_focused,
        ws.shown_containers(false).len() == 0 <==> !ws.has_focused_float()
            && ws.monocle_container is None && ws.focused_container_idx >= ws.containers.len(),
{
    lemma_first_focused_window(ws.floating_windows, 0);
}

/// With all icons shown, the container that the focused container index
/// names is the very one that a single icon would show, and there is
/// none where a single icon would show none: both follow one precedence.
pub proof fn lemma_modes_agree(ws: WorkspaceSnapshot)
    requires
        ws.all_containers().len() <= usize::MAX,
    ensures
        match (first_focused_container(ws.all_containers(), 0), ws.focused_only()) {
            (Some(i), Some(single)) => {
                &&& i < ws.all_containers().len()
                &&& ws.all_containers()[i as int] == single
            },
            (None, None) => true,
            (None, Some(_)) => false,
            (Some(i), None) => false,
        },
{
    let all = ws.all_containers();
    let before = ws.monocle_part().len() + ws.tiled_part().len();
    lemma_focus_precedence(ws);
    lemma_first_focused_container(all, 0);
    match first_focused_window(ws.floating_windows, 0) {
        Some(f) => {
            assert(all[before + f].is_focused);
            assert(all[before + f] == ws.floating_part()[f]);
        },
        None => {
            if ws.monocle_container is Some {
                assert(all[0].is_focused);
                assert(all[0] == ws.monocle_part()[0]);
            } else if ws.focused_container_idx < ws.containers.len() {
                let t = ws.focused_container_idx as int;
                assert(all[t].is_focused);
                assert(all[t] == ws.tiled_part()[t]);
            }
        },
    }
}

/// The focused container index of a workspace entry, where there is one,
/// names a container of the entry.
pub proof fn lemma_info_focus_valid(
    ws: WorkspaceSnapshot,
    index: usize,
    show_all_icons: bool,
    hide_empty_ws: bool,
    focused_ws_idx: Option<usize>,
)
    ensures
        ws.info(index, show_all_icons, hide_empty_ws, focused_ws_idx).focus_valid(),
{
    lemma_first_focused_container(ws.shown_containers(show_all_icons), 0);
}

/// In every container of a workspace entry the focused window index
/// names one of its windows, unless the container has none, whatever the
/// state records.
pub proof fn lemma_info_window_focus_valid(
    ws: WorkspaceSnapshot,
    index: usize,
    show_all_icons: bool,
    hide_empty_ws: bool,
    focused_ws_idx: Option<usize>,
)
    ensures
        ws.info(index, show_all_icons, hide_empty_ws, focused_ws_idx).window_focus_valid(),
{
    let shown = ws.shown_containers(show_all_icons);
    if show_all_icons {
        let monocle = ws.monocle_part().len() as int;
        let tiled = ws.tiled_part().len() as int;
        assert forall|i: int| 0 <= i < shown.len() implies (
        #[trigger] shown[i]).focus_in_range() by {
            if i < monocle {
                assert(shown[i] == ws.monocle_part()[i]);
            } else if i < monocle + tiled {
                assert(shown[i] == ws.tiled_part()[i - monocle]);
            } else {
                assert(shown[i] == ws.floating_part()[i - monocle - tiled]);
            }
        }
    } else {
        lemma_first_focused_window(ws.floating_windows, 0);
    }
}

/// After a state was taken in, every focus index of the model that is
/// present names an element: the focused workspace index a workspace, and
/// the focused container index of each workspace one of its containers.
/// This holds of every state.
pub proof fn lemma_synchronized_focus_valid(
    model: MonitorModel,
    index: usize,
    state: StateSnapshot,
    show_all_icons: bool,
)
    requires
        index < state.monitors.len(),
    ensures
        model.synchronized(index, state, show_all_icons).focus_valid(),
{
    let monitor = state.monitors[index as int];
    let after = model.synchronized(index, state, show_all_icons);
    assert forall|i: int| 0 <= i < after.workspaces.len() implies (
    #[trigger] after.workspaces[i]).focus_valid() by {
        lemma_info_focus_valid(
            monitor.workspaces[i],
            i as usize,
            show_all_icons,
            model.hide_empty_workspaces,
            monitor.focused_workspace_idx_checked(),
        );
    }
}

/// After a state was taken in, the focused window index of every
/// container of the model names one of its windows, unless the container
/// has none. This holds of every state.
pub proof fn lemma_synchronized_window_focus_valid(
    model: MonitorModel,
    index: usize,
    state: StateSnapshot,
    show_all_icons: bool,
)
    requires
        index < state.monitors.len(),
    ensures
        model.synchronized(index, state, show_all_icons).window_focus_valid(),
{
    let monitor = state.monitors[index as int];
    let after = model.synchronized(index, state, show_all_icons);
    assert forall|i: int| 0 <= i < after.workspaces.len() implies (
    #[trigger] after.workspaces[i]).window_focus_valid() by {
        lemma_info_window_focus_valid(
            monitor.workspaces[i],
            i as usize,
            show_all_icons,
            model.hide_empty_workspaces,
            monitor.focused_workspace_idx_checked(),
        );
    }
}

/// At most one workspace of the model is selected after a state was taken
/// in, and it is the focused one.
pub proof fn lemma_synchronized_selection(
    model: MonitorModel,
    index: usize,
    state: StateSnapshot,
    show_all_icons: bool,
)
    requires
        index < state.monitors.len(),
        state.monitors[index as int].workspaces.len() <= usize::MAX,
    ensures
        ({
            let after = model.synchronized(index, state, show_all_icons);
            forall|i: int|
                0 <= i < after.workspaces.len() ==> ((#[trigger] after.workspaces[i]).is_selected
                    <==> after.focused_workspace_idx == Some(i as usize))
        }),
{
}

/// The entries of the workspaces part are those of the workspaces that
/// are to be shown: each entry stands for such a workspace, later entries
/// for later workspaces, and no such workspace is left out.
pub proof fn lemma_workspace_entries(
    bar: WorkspacesBar,
    workspaces: Seq<WorkspaceView>,
    upto: int,
)
    requires
        0 <= upto <= workspaces.len(),
        workspaces.len() <= usize::MAX,
    ensures
        ({
            let entries = workspace_entries_upto(bar, workspaces, upto);
            &&& entries.len() <= upto
            &&& forall|k: int|
                0 <= k < entries.len() ==> {
                    let index = (#[trigger] entries[k]).index as int;
                    &&& index < upto
                    &&& workspaces[index].should_show
                    &&& entries[k] == workspace_entry(bar, workspaces[index], index as usize)
                }
            &&& forall|k: int, l: int|
                0 <= k < l < entries.len() ==> (#[trigger] entries[k]).index < (
                #[trigger] entries[l]).index
            &&& forall|i: int|
                0 <= i < upto && (#[trigger] workspaces[i]).should_show ==> exists|k: int|
                    0 <= k < entries.len() && (#[trigger] entries[k]).index == i
        }),
    decreases upto,
{
    if upto > 0 {
        lemma_workspace_entries(bar, workspaces, upto - 1);
        let before = workspace_entries_upto(bar, workspaces, upto - 1);
        let entries = workspace_entries_upto(bar, workspaces, upto);
        if workspaces[upto - 1].should_show {
            assert(entries[before.len() as int].index == upto - 1);
            assert forall|i: int|
                0 <= i < upto && (#[trigger] workspaces[i]).should_show implies exists|k: int|
                0 <= k < entries.len() && (#[trigger] entries[k]).index == i by {
                if i < upto - 1 {
                    let k = choose|k: int|
                        0 <= k < before.len() && (#[trigger] before[k]).index == i;
                    assert(entries[k].index == i);
                }
            }
        }
    }
}

/// After its batch the mouse cursor follows the focus as it did before,
/// and while a command of the batch moves the focus it does not follow.
pub proof fn lemma_batch_keeps_mouse_following(model: MonitorModel, click: Click)
    ensures
        ({
            let batch = model.batch(click);
            &&& follows_after(batch, model.mouse_follows_focus, batch.len() as int)
                == model.mouse_follows_focus
            &&& forall|k: int|
                0 <= k < batch.len() && moves_focus(#[trigger] batch[k]) ==> !follows_after(
                    batch,
                    model.mouse_follows_focus,
                    k,
                )
        }),
{
    let batch = model.batch(click);
    let before = model.mouse_follows_focus;
    reveal_with_fuel(follows_after, 5);
    assert forall|k: int| 0 <= k < batch.len() && moves_focus(#[trigger] batch[k]) implies
        !follows_after(batch, before, k) by {
        if k == 0 {
        } else if k == 1 {
        } else {
            assert(k == 2);
        }
    }
}

/// Every batch holds the command that the click stands for, once, at
/// its place; every other command of the batch focuses the monitor under
/// the cursor or sets whether the mouse follows the focus.
pub proof fn lemma_batch_holds_one_command(model: MonitorModel, click: Click)
    ensures
        ({
            let batch = model.batch(click);
            let place = model.command_position(click);
            &&& 0 <= place < batch.len()
            &&& batch[place] == click.command(model.monitor_index)
            &&& forall|j: int|
                0 <= j < batch.len() && j != place ==> (#[trigger] batch[j]
                    is FocusMonitorAtCursor || batch[j] is MouseFollowsFocus)
        }),
{
}

/// Taking in one state twice changes nothing the second time: the model
/// keeps no history.
pub proof fn lemma_synchronized_twice(
    model: MonitorModel,
    index: usize,
    state: StateSnapshot,
    show_all_icons: bool,
)
    requires
        index < state.monitors.len(),
    ensures
        model.synchronized(index, state, show_all_icons).synchronized(
            index,
            state,
            show_all_icons,
        ) == model.synchronized(index, state, show_all_icons),
{
}

/// Of the model before, a state that is taken in leaves three things
/// only: whether empty workspaces are hidden, the accent of stacks, and,
/// where the monitor has no focused workspace, the layout. Models that
/// agree in these are the same after taking in one state.
pub proof fn lemma_synchronized_forgets(
    first: MonitorModel,
    second: MonitorModel,
    index: usize,
    state: StateSnapshot,
    show_all_icons: bool,
)
    requires
        index < state.monitors.len(),
        first.hide_empty_workspaces == second.hide_empty_workspaces,
        first.stack_accent == second.stack_accent,
        first.layout == second.layout,
    ensures
        first.synchronized(index, state, show_all_icons) == second.synchronized(
            index,
            state,
            show_all_icons,
        ),
{
}

/// After a state was taken in, the model has the workspaces of the
/// monitor, one for one and in order, and leaves a workspace off the bar
/// in one case alone: empty workspaces are hidden, and this one is empty
/// and not the focused one.
pub proof fn lemma_synchronized_should_show(
    model: MonitorModel,
    index: usize,
    state: StateSnapshot,
    show_all_icons: bool,
)
    requires
        index < state.monitors.len(),
        state.monitors[index as int].workspaces.len() <= usize::MAX,
    ensures
        ({
            let after = model.synchronized(index, state, show_all_icons);
            let monitor = state.monitors[index as int];
            &&& after.workspaces.len() == monitor.workspaces.len()
            &&& forall|i: int|
                0 <= i < after.workspaces.len() ==> (!(#[trigger] after.workspaces[i]).should_show
                    <==> model.hide_empty_workspaces && after.focused_workspace_idx != Some(
                    i as usize,
                ) && monitor.workspaces[i].is_empty())
        }),
{
}

/// A click leaves the focus indices of the model valid, whether or not
/// its batch was taken.
pub proof fn lemma_dispatched_focus_valid(model: MonitorModel, click: Click, sent: bool)
    requires
        model.focus_valid(),
    ensures
        model.dispatched(click, sent).focus_valid(),
{
}

/// A batch that was not taken leaves the model as it was; so does every
/// click but one on a workspace.
pub proof fn lemma_dispatched_unchanged(model: MonitorModel, click: Click, sent: bool)
    ensures
        !sent ==> model.dispatched(click, sent) == model,
        !(click is FocusWorkspace) ==> model.dispatched(click, sent) == model,
        model.dispatched(click, sent).workspaces == model.workspaces,
{
}

/// A click on a workspace that the model has, once its batch was taken,
/// makes that workspace the focused one.
pub proof fn lemma_dispatched_focus_moves(model: MonitorModel, idx: usize)
    requires
        idx < model.workspaces.len(),
    ensures
        model.dispatched(Click::FocusWorkspace(idx), true).focused_workspace_idx
            == Some(idx),
{
}

} // verus!
