//! The layout that the bar shows for a monitor.

use vstd::prelude::*;

use crate::state::{DefaultLayout, Layout, WorkspaceSnapshot};

verus! {

/// What the layout widget shows: one of the shipped tiling algorithms, or
/// one of the states that override it.
#[derive(Clone, Copy, Debug, PartialEq, Eq, Structural)]
pub enum KomorebiLayout {
    Default(DefaultLayout),
    Monocle,
    Floating,
    Paused,
    Custom,
}

/// The layout of a workspace under a global pause flag. The first that
/// applies wins: a monocle container, a workspace that does not tile, the
/// pause, and last the workspace's own algorithm.
pub open spec fn resolved_layout(ws: WorkspaceSnapshot, is_paused: bool) -> KomorebiLayout {
    if ws.monocle_container is Some {
        KomorebiLayout::Monocle
    } else if !ws.tile {
        KomorebiLayout::Floating
    } else if is_paused {
        KomorebiLayout::Paused
    } else {
        match ws.layout {
            Layout::Default(layout) => KomorebiLayout::Default(layout),
            Layout::Custom => KomorebiLayout::Custom,
        }
    }
}

/// A monocle container decides the layout, whatever else holds.
pub proof fn lemma_monocle_wins(ws: WorkspaceSnapshot, is_paused: bool)
    requires
        ws.monocle_container is Some,
    ensures
        resolved_layout(ws, is_paused) == KomorebiLayout::Monocle,
{
}

/// Without a monocle container, a workspace that does not tile is
/// floating, paused or not.
pub proof fn lemma_floating_beats_pause(ws: WorkspaceSnapshot, is_paused: bool)
    requires
        ws.monocle_container is None,
        !ws.tile,
    ensures
        resolved_layout(ws, is_paused) == KomorebiLayout::Floating,
{
}

/// A tiling workspace without a monocle container shows the pause while
/// the window manager is paused, and its own algorithm otherwise: the
/// shipped one as it is, a user's own as `Custom`.
pub proof fn lemma_tiling_layout(ws: WorkspaceSnapshot, is_paused: bool)
    requires
        ws.monocle_container is None,
        ws.tile,
    ensures
        is_paused ==> resolved_layout(ws, is_paused) == KomorebiLayout::Paused,
        !is_paused && ws.layout == Layout::Custom ==> resolved_layout(ws, is_paused)
            == KomorebiLayout::Custom,
        !is_paused ==> (forall|l: DefaultLayout| ws.layout == Layout::Default(l)
            ==> resolved_layout(ws, is_paused) == KomorebiLayout::Default(l)),
{
}

} // verus!
