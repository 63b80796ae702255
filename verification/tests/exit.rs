use xapp::exit::Outcome;

#[test]
fn quit_exits_with_zero() {
    assert_eq!(Outcome::Finished.exit_code(), 0);
    assert_eq!(Outcome::from_run(Ok(())), Outcome::Finished);
    assert_eq!(Outcome::from_run(Ok(())).exit_code(), 0);
}

#[test]
fn failed_bootstrap_exits_with_one() {
    assert_eq!(Outcome::InitFailed("Cannot get adapter".to_string()).exit_code(), 1);
    assert_eq!(Outcome::InitFailed(String::new()).exit_code(), 1);
}

#[test]
fn failed_loop_exits_with_two() {
    let outcome = Outcome::from_run(Err("Outdated".to_string()));
    assert_eq!(outcome, Outcome::RunFailed("Outdated".to_string()));
    assert_eq!(outcome.exit_code(), 2);
}

#[test]
fn quit_leaves_no_line_in_the_log() {
    assert_eq!(Outcome::Finished.log_line(), None);
}

#[test]
fn failed_bootstrap_is_logged_with_its_prefix() {
    assert_eq!(
        Outcome::InitFailed("Cannot get adapter".to_string()).log_line(),
        Some("Error on init XApp: Cannot get adapter".to_string())
    );
}

#[test]
fn failed_loop_is_logged_with_its_prefix() {
    assert_eq!(
        Outcome::RunFailed("Timeout".to_string()).log_line(),
        Some("Error on run XApp: Timeout".to_string())
    );
}

#[test]
fn empty_message_leaves_the_prefix() {
    assert_eq!(
        Outcome::InitFailed(String::new()).log_line(),
        Some("Error on init XApp: ".to_string())
    );
    assert_eq!(
        Outcome::RunFailed(String::new()).log_line(),
        Some("Error on run XApp: ".to_string())
    );
}
