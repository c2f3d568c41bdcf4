use std::collections::HashMap;

use komorebi_bar::bars::{
    FocusedContainerBar, WindowRender, WindowRenderer, WorkspaceRender, WorkspaceRenderer,
    WorkspacesBar,
};
use komorebi_bar::command::Interaction;
use komorebi_bar::config::{
    ConfigurationEntry, DisplayFormat, KomorebiConfig, KomorebiConfigurationSwitcherConfig,
    KomorebiFocusedContainerConfig, KomorebiLayoutConfig, KomorebiLockedContainerConfig,
    KomorebiWorkspaceLayerConfig, KomorebiWorkspacesConfig, WorkspacesDisplayFormat,
};
use komorebi_bar::layout::KomorebiLayout;
use komorebi_bar::monitor::MonitorInfo;
use komorebi_bar::state::{
    Container, DefaultLayout, Layout, Monitor, State, Window, Workspace, WorkspaceLayer,
};
use komorebi_bar::widget::{
    Komorebi, LayoutWidget, LockGlyph, LockedContainerWidget, WindowEntry, WorkspaceEntry,
    WorkspaceLayerWidget,
};

const FORMATS: [DisplayFormat; 5] = [
    DisplayFormat::Icon,
    DisplayFormat::Text,
    DisplayFormat::TextAndIconOnSelected,
    DisplayFormat::IconAndText,
    DisplayFormat::IconAndTextOnSelected,
];

fn no_parts() -> KomorebiConfig {
    KomorebiConfig {
        workspaces: None,
        layout: None,
        workspace_layer: None,
        focused_container: None,
        locked_container: None,
        configuration_switcher: None,
    }
}

fn window(hwnd: isize, title: Option<&str>) -> Window {
    Window { hwnd, title: title.map(str::to_string), has_icon: hwnd % 2 == 0, is_focused: false }
}

fn workspace(containers: Vec<Container>, layer: WorkspaceLayer) -> Workspace {
    Workspace {
        name: None,
        containers,
        focused_container_idx: 0,
        monocle_container: None,
        maximized_window: None,
        floating_windows: Vec::new(),
        layout: Layout::Default(DefaultLayout::Rows),
        tile: true,
        layer,
    }
}

fn stack(locked: bool) -> Container {
    Container {
        windows: vec![window(1, Some("one")), window(2, None), window(3, Some("three"))],
        focused_window_idx: 2,
        locked,
    }
}

fn state(focused_workspace_idx: usize, layer: WorkspaceLayer, locked: bool) -> State {
    State {
        monitors: vec![Monitor {
            workspaces: vec![
                workspace(vec![stack(locked)], layer),
                workspace(Vec::new(), WorkspaceLayer::Tiling),
                workspace(
                    vec![Container {
                        windows: vec![window(5, Some("five"))],
                        focused_window_idx: 0,
                        locked: false,
                    }],
                    WorkspaceLayer::Tiling,
                ),
                workspace(Vec::new(), WorkspaceLayer::Tiling),
            ],
            focused_workspace_idx,
            work_area_offset: None,
        }],
        is_paused: false,
        mouse_follows_focus: true,
        monitor_usr_idx_map: HashMap::new(),
    }
}

fn widget(config: &KomorebiConfig, state: State) -> Komorebi {
    let mut widget = Komorebi::from(config, 0);
    assert_eq!(widget.komorebi_notification_state.0.update(None, state, true), Ok(()));
    widget
}

#[test]
fn a_widget_without_parts_shows_nothing() {
    let w = widget(&no_parts(), state(0, WorkspaceLayer::Floating, true));
    assert_eq!(w.workspaces, None);
    assert_eq!(w.layout, None);
    assert_eq!(w.focused_container, None);
    assert_eq!(w.workspace_layer, None);
    assert_eq!(w.locked_container, None);
    assert_eq!(w.configuration_switcher, None);
    assert!(w.workspace_entries().is_empty());
    assert!(w.focused_container_entries().is_empty());
    assert_eq!(w.workspace_layer_widget(), None);
    assert_eq!(w.locked_container_widget(), None);
    assert_eq!(w.layout_widget(), None);
    assert_eq!(w.configurations(), None);
}

#[test]
fn a_new_widget_starts_from_an_empty_model() {
    let w = Komorebi::from(&no_parts(), 3);
    assert_eq!(w.komorebi_notification_state.0, MonitorInfo::new(3, false));

    let mut config = no_parts();
    config.workspaces = Some(KomorebiWorkspacesConfig {
        enable: false,
        hide_empty_workspaces: true,
        display: Some(WorkspacesDisplayFormat::AllIconsAndText),
    });
    let w = Komorebi::from(&config, 1);
    assert_eq!(w.komorebi_notification_state.0, MonitorInfo::new(1, true));
    assert_eq!(
        w.workspaces,
        Some(WorkspacesBar { renderer: WorkspaceRenderer::IconsAndLabel, enable: false })
    );
}

#[test]
fn a_new_widget_takes_the_settings_of_its_parts() {
    let layer = KomorebiWorkspaceLayerConfig {
        enable: true,
        display: Some(DisplayFormat::Icon),
        show_when_tiling: Some(true),
    };
    let locked = KomorebiLockedContainerConfig {
        enable: true,
        display: None,
        show_when_unlocked: Some(false),
    };
    let layout = KomorebiLayoutConfig {
        enable: true,
        options: Some(vec![KomorebiLayout::Monocle, KomorebiLayout::Default(DefaultLayout::Grid)]),
        display: Some(DisplayFormat::IconAndText),
    };
    let mut config = no_parts();
    config.workspace_layer = Some(layer);
    config.locked_container = Some(locked);
    config.layout = Some(layout.clone());
    config.focused_container = Some(KomorebiFocusedContainerConfig {
        enable: true,
        show_icon: Some(true),
        display: None,
    });
    let w = Komorebi::from(&config, 0);
    assert_eq!(w.workspace_layer, Some(layer));
    assert_eq!(w.locked_container, Some(locked));
    assert_eq!(w.layout, Some(layout.clone()));
    assert_eq!(layout.copy(), layout);
    assert_eq!(
        w.focused_container,
        Some(FocusedContainerBar { enable: true, renderer: WindowRenderer::IconAndText })
    );
}

#[test]
fn a_new_widget_keeps_names_and_order_of_the_configurations() {
    let entries = vec![
        ConfigurationEntry { name: "empty".to_string(), location: String::new() },
        ConfigurationEntry { name: "home".to_string(), location: "home.json".to_string() },
        ConfigurationEntry {
            name: "work".to_string(),
            location: "/etc/komorebi/work.json".to_string(),
        },
    ];
    let mut config = no_parts();
    config.configuration_switcher = KomorebiConfigurationSwitcherConfig::new(true, entries.clone());
    assert!(config.configuration_switcher.is_some());
    let w = Komorebi::from(&config, 0);
    let kept = w.configurations().unwrap();
    assert_eq!(kept, &entries);

    config.configuration_switcher =
        Some(KomorebiConfigurationSwitcherConfig { enable: false, configurations: entries });
    let w = Komorebi::from(&config, 0);
    assert_eq!(w.configurations(), None);
    assert_eq!(w.configuration_switcher.unwrap().configurations.len(), 3);
}

#[test]
fn an_extended_length_location_is_kept_or_loses_its_prefix() {
    let location = "\\\\?\\C:\\Users\\me\\komorebi.json";
    let mut config = no_parts();
    config.configuration_switcher = Some(KomorebiConfigurationSwitcherConfig {
        enable: true,
        configurations: vec![ConfigurationEntry {
            name: "me".to_string(),
            location: location.to_string(),
        }],
    });
    let w = Komorebi::from(&config, 0);
    let kept = &w.configurations().unwrap()[0];
    assert_eq!(kept.name, "me");
    assert!(kept.location == location || kept.location == "C:\\Users\\me\\komorebi.json");
    assert_eq!(
        kept.location,
        dunce::simplified(std::path::Path::new(location)).to_string_lossy().to_string()
    );
}

#[test]
fn workspace_entries_skip_hidden_workspaces() {
    let mut config = no_parts();
    config.workspaces = Some(KomorebiWorkspacesConfig {
        enable: true,
        hide_empty_workspaces: true,
        display: Some(WorkspacesDisplayFormat::AllIconsAndTextOnSelected),
    });
    let w = widget(&config, state(1, WorkspaceLayer::Tiling, false));
    let parts = |icons, fallback_icon, label, highlighted, hover_name| WorkspaceRender {
        icons,
        fallback_icon,
        label,
        highlighted,
        hover_name,
    };
    let entry = |index, selected, parts| WorkspaceEntry { index, selected, parts };
    assert_eq!(
        w.workspace_entries(),
        vec![
            entry(0, false, parts(true, false, false, false, true)),
            entry(1, true, parts(false, false, true, true, false)),
            entry(2, false, parts(false, true, false, false, true)),
        ]
    );
}

#[test]
fn workspace_entries_show_every_workspace_unless_told_to_hide() {
    let mut config = no_parts();
    config.workspaces = Some(KomorebiWorkspacesConfig {
        enable: true,
        hide_empty_workspaces: false,
        display: None,
    });
    let w = widget(&config, state(0, WorkspaceLayer::Tiling, false));
    let indices: Vec<usize> = w.workspace_entries().iter().map(|e| e.index).collect();
    assert_eq!(indices, vec![0, 1, 2, 3]);
}

#[test]
fn a_disabled_workspaces_part_has_no_entries() {
    let mut config = no_parts();
    config.workspaces = Some(KomorebiWorkspacesConfig {
        enable: false,
        hide_empty_workspaces: false,
        display: None,
    });
    let w = widget(&config, state(0, WorkspaceLayer::Tiling, false));
    assert!(w.workspace_entries().is_empty());
    let w = Komorebi::from(&config, 0);
    assert!(w.workspace_entries().is_empty());
}

#[test]
fn a_click_on_a_workspace_entry_asks_for_its_workspace() {
    let entry = WorkspaceEntry {
        index: 4,
        selected: false,
        parts: WorkspaceRender {
            icons: false,
            fallback_icon: false,
            label: true,
            highlighted: false,
            hover_name: false,
        },
    };
    assert_eq!(entry.clicked(), Interaction::FocusWorkspace(4));
}

#[test]
fn focused_container_entries_list_the_windows_of_the_focused_container() {
    let mut config = no_parts();
    config.focused_container = Some(KomorebiFocusedContainerConfig {
        enable: true,
        show_icon: None,
        display: Some(DisplayFormat::IconAndTextOnSelected),
    });
    let w = widget(&config, state(0, WorkspaceLayer::Tiling, false));
    let parts = |icon, hover_title, title| WindowRender { icon, hover_title, title };
    let entries = w.focused_container_entries();
    assert_eq!(
        entries,
        vec![
            WindowEntry { index: 0, selected: false, parts: parts(true, false, false) },
            WindowEntry { index: 1, selected: false, parts: parts(true, false, false) },
            WindowEntry { index: 2, selected: true, parts: parts(true, false, true) },
        ]
    );
    assert_eq!(entries[0].clicked(), Some(Interaction::FocusStackWindow(0)));
    assert_eq!(entries[1].clicked(), Some(Interaction::FocusStackWindow(1)));
    assert_eq!(entries[2].clicked(), None);
}

#[test]
fn a_single_window_is_never_selected() {
    let mut config = no_parts();
    config.focused_container = Some(KomorebiFocusedContainerConfig {
        enable: true,
        show_icon: None,
        display: Some(DisplayFormat::Icon),
    });
    let w = widget(&config, state(2, WorkspaceLayer::Tiling, false));
    let entries = w.focused_container_entries();
    assert_eq!(
        entries,
        vec![WindowEntry {
            index: 0,
            selected: false,
            parts: WindowRender { icon: true, hover_title: true, title: false },
        }]
    );
    assert_eq!(entries[0].clicked(), Some(Interaction::FocusStackWindow(0)));
}

#[test]
fn focused_container_entries_need_a_focused_container() {
    let mut config = no_parts();
    config.focused_container = Some(KomorebiFocusedContainerConfig {
        enable: true,
        show_icon: None,
        display: None,
    });
    assert!(widget(&config, state(1, WorkspaceLayer::Tiling, false))
        .focused_container_entries()
        .is_empty());
    assert!(widget(&config, state(9, WorkspaceLayer::Tiling, false))
        .focused_container_entries()
        .is_empty());
    config.focused_container = Some(KomorebiFocusedContainerConfig {
        enable: false,
        show_icon: None,
        display: None,
    });
    assert!(widget(&config, state(0, WorkspaceLayer::Tiling, false))
        .focused_container_entries()
        .is_empty());
}

#[test]
fn layer_widget_shows_the_floating_layer() {
    for format in FORMATS {
        let mut config = no_parts();
        config.workspace_layer = Some(KomorebiWorkspaceLayerConfig {
            enable: true,
            display: Some(format),
            show_when_tiling: None,
        });
        let w = widget(&config, state(0, WorkspaceLayer::Floating, false));
        assert_eq!(
            w.workspace_layer_widget(),
            Some(WorkspaceLayerWidget {
                layer: WorkspaceLayer::Floating,
                icon: format != DisplayFormat::Text,
                label: format != DisplayFormat::Icon,
            })
        );
        let w = widget(&config, state(0, WorkspaceLayer::Tiling, false));
        assert_eq!(w.workspace_layer_widget(), None);
    }
}

#[test]
fn layer_widget_shows_the_tiling_layer_on_request() {
    let mut config = no_parts();
    config.workspace_layer = Some(KomorebiWorkspaceLayerConfig {
        enable: true,
        display: None,
        show_when_tiling: Some(true),
    });
    let w = widget(&config, state(0, WorkspaceLayer::Tiling, false));
    assert_eq!(
        w.workspace_layer_widget(),
        Some(WorkspaceLayerWidget { layer: WorkspaceLayer::Tiling, icon: false, label: true })
    );
    config.workspace_layer = Some(KomorebiWorkspaceLayerConfig {
        enable: true,
        display: None,
        show_when_tiling: Some(false),
    });
    let w = widget(&config, state(0, WorkspaceLayer::Tiling, false));
    assert_eq!(w.workspace_layer_widget(), None);
}

#[test]
fn layer_widget_needs_to_be_enabled_and_a_focused_workspace() {
    let mut config = no_parts();
    config.workspace_layer = Some(KomorebiWorkspaceLayerConfig {
        enable: false,
        display: None,
        show_when_tiling: Some(true),
    });
    let w = widget(&config, state(0, WorkspaceLayer::Floating, false));
    assert_eq!(w.workspace_layer_widget(), None);
    config.workspace_layer = Some(KomorebiWorkspaceLayerConfig {
        enable: true,
        display: None,
        show_when_tiling: Some(true),
    });
    let w = widget(&config, state(7, WorkspaceLayer::Floating, false));
    assert_eq!(w.workspace_layer_widget(), None);
    assert_eq!(Komorebi::from(&config, 0).workspace_layer_widget(), None);
}

#[test]
fn layer_names() {
    assert_eq!(WorkspaceLayer::Tiling.to_string(), "Tiling");
    assert_eq!(WorkspaceLayer::Floating.to_string(), "Floating");
}

#[test]
fn lock_widget_shows_a_locked_container() {
    for format in FORMATS {
        let mut config = no_parts();
        config.locked_container = Some(KomorebiLockedContainerConfig {
            enable: true,
            display: Some(format),
            show_when_unlocked: None,
        });
        let w = widget(&config, state(0, WorkspaceLayer::Tiling, true));
        let shown = w.locked_container_widget().unwrap();
        assert_eq!(
            shown,
            LockedContainerWidget {
                is_locked: true,
                glyph: if format == DisplayFormat::Text { None } else { Some(LockGlyph::Locked) },
                label: format != DisplayFormat::Icon,
            }
        );
        assert_eq!(shown.label_text(), "Locked");
        let w = widget(&config, state(0, WorkspaceLayer::Tiling, false));
        assert_eq!(w.locked_container_widget(), None);
    }
}

#[test]
fn lock_widget_shows_an_unlocked_container_on_request() {
    let mut config = no_parts();
    config.locked_container = Some(KomorebiLockedContainerConfig {
        enable: true,
        display: Some(DisplayFormat::IconAndText),
        show_when_unlocked: Some(true),
    });
    let w = widget(&config, state(0, WorkspaceLayer::Tiling, false));
    let shown = w.locked_container_widget().unwrap();
    assert_eq!(
        shown,
        LockedContainerWidget { is_locked: false, glyph: Some(LockGlyph::Unlocked), label: true }
    );
    assert_eq!(shown.label_text(), "Unlocked");

    let w = widget(&config, state(1, WorkspaceLayer::Tiling, true));
    assert_eq!(
        w.locked_container_widget(),
        Some(LockedContainerWidget {
            is_locked: false,
            glyph: Some(LockGlyph::Unlocked),
            label: true,
        })
    );

    config.locked_container = Some(KomorebiLockedContainerConfig {
        enable: false,
        display: None,
        show_when_unlocked: Some(true),
    });
    let w = widget(&config, state(0, WorkspaceLayer::Tiling, true));
    assert_eq!(w.locked_container_widget(), None);
}

#[test]
fn layout_widget_shows_the_layout_of_the_model() {
    let mut config = no_parts();
    config.layout = Some(KomorebiLayoutConfig { enable: true, options: None, display: None });
    let w = widget(&config, state(2, WorkspaceLayer::Tiling, false));
    assert_eq!(
        w.layout_widget(),
        Some(LayoutWidget {
            layout: KomorebiLayout::Default(DefaultLayout::Rows),
            focused_workspace_idx: Some(2),
        })
    );
    config.layout = Some(KomorebiLayoutConfig { enable: false, options: None, display: None });
    let w = widget(&config, state(2, WorkspaceLayer::Tiling, false));
    assert_eq!(w.layout_widget(), None);
}

fn entry(name: &str) -> ConfigurationEntry {
    ConfigurationEntry { name: name.to_string(), location: format!("{name}.json") }
}

#[test]
fn switcher_settings_take_configurations_in_the_order_of_their_names() {
    let names = ["", "Home", "home", "home2", "homework", "work", "zürich", "z\u{10000}"];
    let entries: Vec<ConfigurationEntry> = names.iter().map(|name| entry(name)).collect();
    let mut sorted = entries.clone();
    sorted.sort_by(|a, b| a.name.cmp(&b.name));
    assert_eq!(sorted, entries);
    let settings = KomorebiConfigurationSwitcherConfig::new(true, entries.clone()).unwrap();
    assert_eq!(
        settings,
        KomorebiConfigurationSwitcherConfig { enable: true, configurations: entries }
    );
    assert!(KomorebiConfigurationSwitcherConfig::new(false, Vec::new()).is_some());
    assert!(KomorebiConfigurationSwitcherConfig::new(false, vec![entry("only")]).is_some());
}

#[test]
fn switcher_settings_refuse_configurations_out_of_order() {
    let refused = [
        vec!["work", "home"],
        vec!["home", "home"],
        vec!["home", "work", "home2"],
        vec!["a", "b", "c", "bb"],
        vec!["home2", "home"],
        vec!["é", "z"],
    ];
    for names in refused {
        let entries: Vec<ConfigurationEntry> = names.iter().map(|name| entry(name)).collect();
        assert_eq!(KomorebiConfigurationSwitcherConfig::new(true, entries), None, "{names:?}");
    }
}
