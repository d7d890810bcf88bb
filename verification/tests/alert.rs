use neckcheck::alert::SharedAlertState;

#[test]
fn starts_without_an_alert() {
    let state = SharedAlertState::new();
    assert!(!state.get());
}

#[test]
fn reads_give_back_the_last_write() {
    let state = SharedAlertState::new();
    state.set(true);
    assert!(state.get());
    state.set(false);
    assert!(!state.get());
}

#[test]
fn a_failed_check_raises_the_alert_and_a_passed_one_clears_it() {
    let state = SharedAlertState::new();
    assert!(state.publish_check(false));
    assert!(state.get());
    assert!(!state.publish_check(true));
    assert!(!state.get());
}
