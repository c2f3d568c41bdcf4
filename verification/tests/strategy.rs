use komorebi_bar::bars::{
    FocusedContainerBar, ShownIcon, WindowRender, WindowRenderer, WorkspaceRender,
    WorkspaceRenderer, WorkspacesBar,
};
use komorebi_bar::config::{
    DisplayFormat, KomorebiFocusedContainerConfig, KomorebiWorkspacesConfig,
    WorkspacesDisplayFormat,
};
use komorebi_bar::container::{ContainerInfo, IconHandle, WindowInfo};
use komorebi_bar::monitor::WorkspaceInfo;
use komorebi_bar::state::WorkspaceLayer;

const FORMATS: [DisplayFormat; 5] = [
    DisplayFormat::Icon,
    DisplayFormat::Text,
    DisplayFormat::TextAndIconOnSelected,
    DisplayFormat::IconAndText,
    DisplayFormat::IconAndTextOnSelected,
];

fn workspaces_bar(display: Option<WorkspacesDisplayFormat>) -> WorkspacesBar {
    WorkspacesBar::from(KomorebiWorkspacesConfig {
        enable: true,
        hide_empty_workspaces: false,
        display,
    })
}

fn window_bar(display: Option<DisplayFormat>, show_icon: Option<bool>) -> FocusedContainerBar {
    FocusedContainerBar::from(KomorebiFocusedContainerConfig { enable: true, show_icon, display })
}

fn ws(has_icons: bool, is_selected: bool) -> WorkspaceInfo {
    WorkspaceInfo {
        name: "1".to_string(),
        containers: Vec::new(),
        focused_container_idx: None,
        layer: WorkspaceLayer::Tiling,
        should_show: true,
        is_selected,
        has_icons,
    }
}

fn parts(
    icons: bool,
    fallback_icon: bool,
    label: bool,
    highlighted: bool,
    hover_name: bool,
) -> WorkspaceRender {
    WorkspaceRender { icons, fallback_icon, label, highlighted, hover_name }
}

fn titled() -> WindowInfo {
    WindowInfo { title: Some("editor".to_string()), icon: None }
}

fn untitled() -> WindowInfo {
    WindowInfo { title: None, icon: None }
}

#[test]
fn display_format_converts_to_a_workspaces_format() {
    for format in FORMATS {
        assert_eq!(
            WorkspacesDisplayFormat::from(format),
            WorkspacesDisplayFormat::Existing(format)
        );
    }
}

#[test]
fn workspace_policy_for_every_format() {
    let existing = WorkspacesDisplayFormat::Existing;
    let table = [
        (None, WorkspaceRenderer::Text),
        (Some(WorkspacesDisplayFormat::AllIcons), WorkspaceRenderer::IconsOrFallback),
        (Some(existing(DisplayFormat::Icon)), WorkspaceRenderer::IconsOrFallback),
        (Some(WorkspacesDisplayFormat::AllIconsAndText), WorkspaceRenderer::IconsAndLabel),
        (Some(existing(DisplayFormat::IconAndText)), WorkspaceRenderer::IconsAndLabel),
        (
            Some(WorkspacesDisplayFormat::AllIconsAndTextOnSelected),
            WorkspaceRenderer::IconsSelLabel,
        ),
        (Some(existing(DisplayFormat::IconAndTextOnSelected)), WorkspaceRenderer::IconsSelLabel),
        (Some(existing(DisplayFormat::TextAndIconOnSelected)), WorkspaceRenderer::LabelSelIcons),
        (Some(existing(DisplayFormat::Text)), WorkspaceRenderer::Text),
    ];
    for (display, renderer) in table {
        assert_eq!(workspaces_bar(display).renderer, renderer, "{display:?}");
    }
}

#[test]
fn workspace_policy_keeps_the_enable_switch() {
    for enable in [false, true] {
        let bar = WorkspacesBar::from(KomorebiWorkspacesConfig {
            enable,
            hide_empty_workspaces: true,
            display: Some(WorkspacesDisplayFormat::AllIcons),
        });
        assert_eq!(bar, WorkspacesBar { renderer: WorkspaceRenderer::IconsOrFallback, enable });
    }
}

#[test]
fn selecting_twice_selects_the_same() {
    let mut displays = vec![
        None,
        Some(WorkspacesDisplayFormat::AllIcons),
        Some(WorkspacesDisplayFormat::AllIconsAndText),
        Some(WorkspacesDisplayFormat::AllIconsAndTextOnSelected),
    ];
    displays.extend(FORMATS.iter().map(|f| Some(WorkspacesDisplayFormat::Existing(*f))));
    for display in displays {
        let first = workspaces_bar(display);
        let second = workspaces_bar(display);
        assert_eq!(first, second);
        for has_icons in [false, true] {
            for selected in [false, true] {
                let w = ws(has_icons, selected);
                assert_eq!(first.render(&w), second.render(&w));
            }
        }
    }
    for format in FORMATS {
        let first = window_bar(Some(format), None);
        let second = window_bar(Some(format), Some(true));
        assert_eq!(first, second);
        for focused in [false, true] {
            assert_eq!(first.render(&titled(), focused), second.render(&titled(), focused));
        }
    }
}

#[test]
fn a_new_selection_replaces_the_old_one() {
    let old = workspaces_bar(Some(WorkspacesDisplayFormat::AllIcons));
    let new = workspaces_bar(Some(WorkspacesDisplayFormat::Existing(DisplayFormat::Text)));
    assert_ne!(old, new);
    assert_eq!(new.render(&ws(true, true)), parts(false, false, true, true, false));
}

#[test]
fn icons_or_fallback_parts() {
    let bar = workspaces_bar(Some(WorkspacesDisplayFormat::AllIcons));
    assert_eq!(bar.render(&ws(true, false)), parts(true, false, false, false, true));
    assert_eq!(bar.render(&ws(true, true)), parts(true, false, false, true, true));
    assert_eq!(bar.render(&ws(false, false)), parts(false, true, false, false, true));
    assert_eq!(bar.render(&ws(false, true)), parts(false, true, false, true, true));
}

#[test]
fn icons_and_label_parts() {
    let bar = workspaces_bar(Some(WorkspacesDisplayFormat::AllIconsAndText));
    assert_eq!(bar.render(&ws(true, false)), parts(true, false, true, false, false));
    assert_eq!(bar.render(&ws(true, true)), parts(true, false, true, true, false));
    assert_eq!(bar.render(&ws(false, false)), parts(false, false, true, false, false));
    assert_eq!(bar.render(&ws(false, true)), parts(false, false, true, true, false));
}

#[test]
fn icons_sel_label_parts() {
    let bar = workspaces_bar(Some(WorkspacesDisplayFormat::AllIconsAndTextOnSelected));
    assert_eq!(bar.render(&ws(true, false)), parts(true, false, false, false, true));
    assert_eq!(bar.render(&ws(true, true)), parts(true, false, true, true, false));
    assert_eq!(bar.render(&ws(false, false)), parts(false, true, false, false, true));
    assert_eq!(bar.render(&ws(false, true)), parts(false, false, true, true, false));
}

#[test]
fn label_sel_icons_parts() {
    let bar = workspaces_bar(Some(WorkspacesDisplayFormat::Existing(
        DisplayFormat::TextAndIconOnSelected,
    )));
    assert_eq!(bar.render(&ws(true, false)), parts(false, false, true, false, false));
    assert_eq!(bar.render(&ws(true, true)), parts(true, false, true, true, false));
    assert_eq!(bar.render(&ws(false, false)), parts(false, false, true, false, false));
    assert_eq!(bar.render(&ws(false, true)), parts(false, false, true, true, false));
}

#[test]
fn text_parts() {
    let bar = workspaces_bar(None);
    assert_eq!(bar.render(&ws(true, false)), parts(false, false, true, false, false));
    assert_eq!(bar.render(&ws(true, true)), parts(false, false, true, true, false));
    assert_eq!(bar.render(&ws(false, false)), parts(false, false, true, false, false));
    assert_eq!(bar.render(&ws(false, true)), parts(false, false, true, true, false));
}

#[test]
fn window_policy_for_every_format() {
    let table = [
        (DisplayFormat::Icon, WindowRenderer::IconOnly),
        (DisplayFormat::Text, WindowRenderer::TextOnly),
        (DisplayFormat::IconAndText, WindowRenderer::IconAndText),
        (DisplayFormat::IconAndTextOnSelected, WindowRenderer::IconAndTextOnFocus),
        (DisplayFormat::TextAndIconOnSelected, WindowRenderer::TextAndIconOnFocus),
    ];
    for (format, renderer) in table {
        for show_icon in [None, Some(false), Some(true)] {
            assert_eq!(window_bar(Some(format), show_icon).renderer, renderer);
        }
    }
}

#[test]
fn window_policy_without_a_format_follows_the_old_switch() {
    assert_eq!(window_bar(None, None).renderer, WindowRenderer::TextOnly);
    assert_eq!(window_bar(None, Some(false)).renderer, WindowRenderer::TextOnly);
    assert_eq!(window_bar(None, Some(true)).renderer, WindowRenderer::IconAndText);
    let bar = FocusedContainerBar::from(KomorebiFocusedContainerConfig {
        enable: false,
        show_icon: None,
        display: None,
    });
    assert_eq!(bar, FocusedContainerBar { enable: false, renderer: WindowRenderer::TextOnly });
}

#[test]
fn window_parts_for_every_policy() {
    let w = |icon, hover_title, title| WindowRender { icon, hover_title, title };
    let table = [
        (DisplayFormat::Icon, w(true, true, false), w(true, true, false)),
        (DisplayFormat::Text, w(false, false, true), w(false, false, true)),
        (DisplayFormat::IconAndText, w(true, false, true), w(true, false, true)),
        (DisplayFormat::IconAndTextOnSelected, w(true, false, true), w(true, false, false)),
        (DisplayFormat::TextAndIconOnSelected, w(true, false, true), w(false, false, true)),
    ];
    for (format, focused, unfocused) in table {
        let bar = window_bar(Some(format), None);
        assert_eq!(bar.render(&titled(), true), focused, "{format:?}");
        assert_eq!(bar.render(&titled(), false), unfocused, "{format:?}");
    }
}

#[test]
fn a_window_without_a_title_shows_none() {
    for format in FORMATS {
        let bar = window_bar(Some(format), None);
        for focused in [false, true] {
            let parts = bar.render(&untitled(), focused);
            assert!(!parts.title);
            assert!(!parts.hover_title);
            assert_eq!(parts.icon, bar.render(&titled(), focused).icon);
        }
    }
}

#[test]
fn only_the_focused_window_of_a_stack_is_selected() {
    let stack = ContainerInfo {
        windows: vec![titled(), titled(), untitled()],
        focused_window_idx: 1,
        is_focused: true,
        is_locked: false,
    };
    assert!(!FocusedContainerBar::is_selected(&stack, 0));
    assert!(FocusedContainerBar::is_selected(&stack, 1));
    assert!(!FocusedContainerBar::is_selected(&stack, 2));

    let single = ContainerInfo {
        windows: vec![titled()],
        focused_window_idx: 0,
        is_focused: true,
        is_locked: false,
    };
    assert!(!FocusedContainerBar::is_selected(&single, 0));
}

#[test]
fn formats_with_icon_and_with_text() {
    let icon: Vec<bool> = FORMATS.iter().map(|f| f.shows_icon()).collect();
    assert_eq!(icon, vec![true, false, true, true, true]);
    let text: Vec<bool> = FORMATS.iter().map(|f| f.shows_text()).collect();
    assert_eq!(text, vec![false, true, true, true, true]);
}

fn with_icon(hwnd: isize) -> WindowInfo {
    WindowInfo { title: None, icon: Some(IconHandle { hwnd }) }
}

#[test]
fn icons_are_listed_container_by_container() {
    let mut w = ws(true, false);
    w.containers = vec![
        ContainerInfo {
            windows: vec![with_icon(1), untitled(), with_icon(2)],
            focused_window_idx: 0,
            is_focused: false,
            is_locked: false,
        },
        ContainerInfo {
            windows: Vec::new(),
            focused_window_idx: 0,
            is_focused: false,
            is_locked: false,
        },
        ContainerInfo {
            windows: vec![titled(), with_icon(3)],
            focused_window_idx: 1,
            is_focused: true,
            is_locked: true,
        },
        ContainerInfo {
            windows: vec![with_icon(4)],
            focused_window_idx: 0,
            is_focused: false,
            is_locked: false,
        },
    ];
    let icon = |hwnd, focused| ShownIcon { icon: IconHandle { hwnd }, focused };
    assert_eq!(
        WorkspacesBar::show_icons(&w),
        vec![icon(1, false), icon(2, false), icon(3, true), icon(4, false)]
    );
}

#[test]
fn a_workspace_without_icons_lists_none() {
    let mut w = ws(false, true);
    assert!(WorkspacesBar::show_icons(&w).is_empty());
    w.containers = vec![ContainerInfo {
        windows: vec![titled(), untitled()],
        focused_window_idx: 0,
        is_focused: true,
        is_locked: false,
    }];
    assert!(WorkspacesBar::show_icons(&w).is_empty());
}
