use dev_cli::helper::Helper;

#[test]
fn empty_env_output_is_refused() {
    assert!(Helper::envvars_from_output("").is_none());
    assert!(Helper::envvars_from_output("\n").is_none());
}

#[test]
fn env_output_is_read_line_by_line() {
    let m = Helper::envvars_from_output("HOME=/home/user\r\nDEVWORKSPACE_ID=workspace123\r\nEMPTY=\nNOVALUE\n").unwrap();
    assert_eq!(m.get(&"HOME".to_string()), Some("/home/user".to_string()));
    assert_eq!(m.get(&"DEVWORKSPACE_ID".to_string()), Some("workspace123".to_string()));
    assert_eq!(m.get(&"EMPTY".to_string()), Some("".to_string()));
    assert_eq!(m.get(&"NOVALUE".to_string()), Some("".to_string()));
    // the piece after the final newline is an empty line, read as an empty name
    assert_eq!(m.get(&"".to_string()), Some("".to_string()));
    assert_eq!(m.len(), 5);
}

#[test]
fn env_value_stops_at_a_second_equal_sign() {
    let m = Helper::envvars_from_output("OPTS=a=b").unwrap();
    assert_eq!(m.get(&"OPTS".to_string()), Some("a".to_string()));
}

#[test]
fn later_env_line_wins_and_carriage_returns_leave_values() {
    let m = Helper::envvars_from_output("X=1\nX=2\r\r").unwrap();
    assert_eq!(m.len(), 1);
    assert_eq!(m.get(&"X".to_string()), Some("2".to_string()));
}
