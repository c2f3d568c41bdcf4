use std::collections::HashMap;

use komorebi_bar::command::{socket_message_batch, Interaction, SocketMessage};
use komorebi_bar::error::BarError;
use komorebi_bar::monitor::MonitorInfo;
use komorebi_bar::state::{
    Container, DefaultLayout, Layout, Monitor, State, Window, Workspace, WorkspaceLayer,
};

fn workspace(hwnds: &[isize]) -> Workspace {
    Workspace {
        name: None,
        containers: vec![Container {
            windows: hwnds
                .iter()
                .map(|hwnd| Window { hwnd: *hwnd, title: None, has_icon: false, is_focused: false })
                .collect(),
            focused_window_idx: 0,
            locked: false,
        }],
        focused_container_idx: 0,
        monocle_container: None,
        maximized_window: None,
        floating_windows: Vec::new(),
        layout: Layout::Default(DefaultLayout::BSP),
        tile: true,
        layer: WorkspaceLayer::Tiling,
    }
}

fn model(monitor_index: usize, mouse_follows_focus: bool) -> MonitorInfo {
    let monitor = || Monitor {
        workspaces: vec![workspace(&[1]), workspace(&[2, 3]), workspace(&[4])],
        focused_workspace_idx: 0,
        work_area_offset: None,
    };
    let state = State {
        monitors: vec![monitor(), monitor(), monitor()],
        is_paused: false,
        mouse_follows_focus,
        monitor_usr_idx_map: HashMap::new(),
    };
    let mut model = MonitorInfo::new(monitor_index, false);
    assert_eq!(model.update(None, state, true), Ok(()));
    model
}

fn interactions() -> Vec<Interaction> {
    vec![
        Interaction::FocusWorkspace(2),
        Interaction::FocusWorkspace(7),
        Interaction::FocusStackWindow(1),
        Interaction::ToggleWorkspaceLayer,
        Interaction::ToggleLock,
        Interaction::ReplaceConfiguration("C:\\komorebi.json".to_string()),
    ]
}

#[test]
fn one_message_is_guarded_while_the_mouse_follows_the_focus() {
    assert_eq!(
        socket_message_batch(&model(0, true), SocketMessage::FocusStackWindow(4)),
        vec![
            SocketMessage::MouseFollowsFocus(false),
            SocketMessage::FocusStackWindow(4),
            SocketMessage::MouseFollowsFocus(true),
        ]
    );
    assert_eq!(
        socket_message_batch(&model(0, false), SocketMessage::FocusStackWindow(4)),
        vec![SocketMessage::FocusStackWindow(4)]
    );
}

#[test]
fn workspace_click_names_monitor_and_workspace() {
    assert_eq!(
        model(2, false).batch(&Interaction::FocusWorkspace(1)),
        vec![SocketMessage::FocusMonitorWorkspaceNumber(2, 1)]
    );
    assert_eq!(
        model(1, true).batch(&Interaction::FocusWorkspace(0)),
        vec![
            SocketMessage::MouseFollowsFocus(false),
            SocketMessage::FocusMonitorWorkspaceNumber(1, 0),
            SocketMessage::MouseFollowsFocus(true),
        ]
    );
}

#[test]
fn stack_window_click_names_the_window() {
    assert_eq!(
        model(0, false).batch(&Interaction::FocusStackWindow(3)),
        vec![SocketMessage::FocusStackWindow(3)]
    );
    assert_eq!(
        model(0, true).batch(&Interaction::FocusStackWindow(3)),
        vec![
            SocketMessage::MouseFollowsFocus(false),
            SocketMessage::FocusStackWindow(3),
            SocketMessage::MouseFollowsFocus(true),
        ]
    );
}

#[test]
fn toggles_first_focus_the_monitor_under_the_cursor() {
    assert_eq!(
        model(0, true).batch(&Interaction::ToggleWorkspaceLayer),
        vec![
            SocketMessage::FocusMonitorAtCursor,
            SocketMessage::MouseFollowsFocus(false),
            SocketMessage::ToggleWorkspaceLayer,
            SocketMessage::MouseFollowsFocus(true),
        ]
    );
    assert_eq!(
        model(0, false).batch(&Interaction::ToggleWorkspaceLayer),
        vec![SocketMessage::FocusMonitorAtCursor, SocketMessage::ToggleWorkspaceLayer]
    );
}

#[test]
fn locking_moves_no_focus_and_needs_no_guard() {
    for follows in [false, true] {
        assert_eq!(
            model(0, follows).batch(&Interaction::ToggleLock),
            vec![SocketMessage::FocusMonitorAtCursor, SocketMessage::ToggleLock]
        );
    }
}

#[test]
fn replacing_the_configuration_goes_out_alone() {
    let click = Interaction::ReplaceConfiguration("C:\\komorebi.json".to_string());
    for follows in [false, true] {
        assert_eq!(
            model(0, follows).batch(&click),
            vec![SocketMessage::ReplaceConfiguration("C:\\komorebi.json".to_string())]
        );
    }
}

#[test]
fn a_failed_batch_changes_nothing() {
    for follows in [false, true] {
        for interaction in interactions() {
            let mut m = model(1, follows);
            let before = m.clone();
            assert_eq!(m.dispatch(&interaction, false), Err(BarError::CommandSendFailure));
            assert_eq!(m, before);
            assert_eq!(m.focused_workspace_idx, Some(0));
            assert_eq!(m.workspaces[0].focused_container_idx, Some(0));
        }
    }
}

#[test]
fn a_workspace_click_that_went_out_moves_the_focused_workspace() {
    let mut m = model(1, true);
    let before = m.clone();
    assert_eq!(m.dispatch(&Interaction::FocusWorkspace(2), true), Ok(()));
    assert_eq!(m.focused_workspace_idx, Some(2));
    assert_eq!(m.focused_workspace().unwrap().containers[0].windows.len(), 1);
    let mut expected = before;
    expected.focused_workspace_idx = Some(2);
    assert_eq!(m, expected);

    assert_eq!(m.dispatch(&Interaction::FocusWorkspace(1), true), Ok(()));
    assert_eq!(m.focused_workspace_idx, Some(1));
    assert_eq!(m.focused_container().unwrap().windows.len(), 2);
}

#[test]
fn a_click_on_a_workspace_that_the_model_lacks_moves_nothing() {
    let mut m = model(1, false);
    let before = m.clone();
    assert_eq!(m.dispatch(&Interaction::FocusWorkspace(3), true), Ok(()));
    assert_eq!(m, before);
}

#[test]
fn other_clicks_that_went_out_leave_the_model_alone() {
    for interaction in interactions().into_iter().skip(2) {
        let mut m = model(0, true);
        let before = m.clone();
        assert_eq!(m.dispatch(&interaction, true), Ok(()));
        assert_eq!(m, before);
    }
}

#[test]
fn errors_have_messages() {
    assert_eq!(
        BarError::MonitorUnavailable.to_string(),
        "the monitor of this bar is not connected"
    );
    assert_eq!(
        BarError::CommandSendFailure.to_string(),
        "could not send the commands to the window manager"
    );
}
