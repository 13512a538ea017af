use plc_node::state::PlcState;

#[test]
fn test_plc_state_from_string_all_variants() {
    assert_eq!(PlcState::from("EMPTY".to_string()), PlcState::Empty);
    assert_eq!(PlcState::from("INIT".to_string()), PlcState::Init);
    assert_eq!(PlcState::from("RUNNING".to_string()), PlcState::Running);
    assert_eq!(PlcState::from("STOPPED".to_string()), PlcState::Stopped);
    assert_eq!(PlcState::from("ERROR".to_string()), PlcState::Error);
}

#[test]
fn test_plc_state_unexpected_captures_string() {
    let state = PlcState::from("SOME_WEIRD_STATE".to_string());
    assert_eq!(state, PlcState::Unexpected("SOME_WEIRD_STATE".to_string()));
}

#[test]
fn plc_state_names_are_case_sensitive() {
    assert_eq!(PlcState::from("running".to_string()), PlcState::Unexpected("running".to_string()));
    assert_eq!(PlcState::from("RUNNING ".to_string()), PlcState::Unexpected("RUNNING ".to_string()));
    assert_eq!(PlcState::from(String::new()), PlcState::Unexpected(String::new()));
}

#[test]
fn plc_state_distinct_reports_give_distinct_states() {
    let a = PlcState::from("NEW_A".to_string());
    let b = PlcState::from("NEW_B".to_string());
    assert_ne!(a, b);
    assert_ne!(PlcState::from("INIT".to_string()), PlcState::from("EMPTY".to_string()));
}
