use dev_cli::error::InstallExtensionError;
use dev_cli::extensions::Extensions;
use dev_cli::string_map::StringMap;

#[test]
fn mandatory_extensions_are_the_three_remote_ones() {
    let e = Extensions::new();
    assert_eq!(
        e.get_mendatory_extensions(),
        vec![
            "ms-kubernetes-tools.vscode-kubernetes-tools".to_string(),
            "ms-vscode-remote.remote-ssh".to_string(),
            "ms-vscode.remote-server".to_string(),
        ]
    );
}

#[test]
fn default_extensions_behave_as_new() {
    let e = Extensions::default();
    assert_eq!(e.get_mendatory_extensions().len(), 3);
}

#[test]
fn listing_is_read_into_names_and_versions() {
    let e = Extensions::new();
    let listing = "ms-python.python@2024.1.0\r\nms-vscode.remote-server@1.5.2\nfoo.bar@1@extra\n";
    let m = e.installed_from_listing(listing);
    assert_eq!(m.len(), 3);
    assert_eq!(m.get(&"ms-python.python".to_string()), Some("2024.1.0".to_string()));
    assert_eq!(m.get(&"ms-vscode.remote-server".to_string()), Some("1.5.2".to_string()));
    assert_eq!(m.get(&"foo.bar".to_string()), Some("1".to_string()));
}

#[test]
fn later_listing_line_wins() {
    let e = Extensions::new();
    let m = e.installed_from_listing("a.b@1\na.b@2");
    assert_eq!(m.len(), 1);
    assert_eq!(m.get(&"a.b".to_string()), Some("2".to_string()));
}

#[test]
fn empty_listing_installs_nothing() {
    let e = Extensions::new();
    let m = e.installed_from_listing("");
    assert_eq!(m.len(), 0);
    assert_eq!(e.check_missing_extensions(&m), e.get_mendatory_extensions());
}

#[test]
fn check_missing_extensions_keeps_order_of_the_missing() {
    let e = Extensions::new();
    let m = e.installed_from_listing("ms-vscode-remote.remote-ssh@0.1\nother@2\n");
    assert_eq!(
        e.check_missing_extensions(&m),
        vec![
            "ms-kubernetes-tools.vscode-kubernetes-tools".to_string(),
            "ms-vscode.remote-server".to_string(),
        ]
    );
}

#[test]
fn listed_extensions_are_never_missing() {
    let e = Extensions::new();
    let m = e.installed_from_listing(
        "ms-kubernetes-tools.vscode-kubernetes-tools@1.3.0\nms-vscode-remote.remote-ssh@0.1\nms-vscode.remote-server@1.0\n",
    );
    assert!(e.check_missing_extensions(&m).is_empty());
}

#[test]
fn install_command_names_the_extension() {
    let e = Extensions::new();
    assert_eq!(e.install_command("ms-vscode.remote-server"), "code --install-extension ms-vscode.remote-server");
}

#[test]
fn install_outcome_is_ok_without_error_output() {
    let e = Extensions::new();
    assert!(e.install_outcome("").is_ok());
}

#[test]
fn install_outcome_carries_the_error_output() {
    let e = Extensions::new();
    match e.install_outcome("not found") {
        Err(InstallExtensionError::FailedToInstallExtension(msg)) => assert_eq!(msg, "not found"),
        other => panic!("unexpected outcome {:?}", other),
    }
}

#[test]
fn string_map_insert_replaces_and_keys_are_unique() {
    let mut m = StringMap::new();
    m.insert("k".to_string(), "1".to_string());
    m.insert("j".to_string(), "2".to_string());
    m.insert("k".to_string(), "3".to_string());
    assert_eq!(m.len(), 2);
    assert!(m.contains_key(&"j".to_string()));
    assert!(!m.contains_key(&"x".to_string()));
    assert_eq!(m.get(&"k".to_string()), Some("3".to_string()));
    assert_eq!(m.keys(), vec!["k".to_string(), "j".to_string()]);
}
