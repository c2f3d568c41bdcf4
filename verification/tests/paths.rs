use komorebi_bar::config::{
    ConfigurationEntry, KomorebiConfig, KomorebiConfigurationSwitcherConfig,
};
use komorebi_bar::widget::Komorebi;

fn simplified_location(location: &str) -> String {
    let config = KomorebiConfig {
        workspaces: None,
        layout: None,
        workspace_layer: None,
        focused_container: None,
        locked_container: None,
        configuration_switcher: Some(KomorebiConfigurationSwitcherConfig {
            enable: true,
            configurations: vec![ConfigurationEntry {
                name: "only".to_string(),
                location: location.to_string(),
            }],
        }),
    };
    let widget = Komorebi::from(&config, 0);
    let kept = widget.configurations().unwrap();
    assert_eq!(kept.len(), 1);
    assert_eq!(kept[0].name, "only");
    kept[0].location.clone()
}

#[test]
fn an_ordinary_location_stays_as_it_is() {
    let locations =
        ["", "komorebi.json", "/home/me/komorebi.json", "C:\\Users\\me\\komorebi.json"];
    for location in locations {
        assert_eq!(simplified_location(location), location);
    }
}

#[test]
fn a_location_agrees_with_the_path_crate() {
    for location in [
        "\\\\?\\C:\\Users\\me\\komorebi.json",
        "\\\\?\\C:\\COM1",
        "\\\\?\\UNC\\server\\share",
        "\\\\?\\",
        "ünïcödé/komorebi.json",
    ] {
        let simplified = simplified_location(location);
        assert_eq!(
            simplified,
            dunce::simplified(std::path::Path::new(location)).to_string_lossy().to_string()
        );
        assert!(simplified == location || Some(simplified.as_str()) == location.get(4..));
    }
}
