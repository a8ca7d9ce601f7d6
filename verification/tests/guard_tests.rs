use spicetify_installer::errors::UpdateError;
use spicetify_installer::guard::CheckGuard;

#[test]
fn second_check_is_rejected_while_one_runs() {
    let mut g = CheckGuard::new();
    assert_eq!(g.try_begin(), Ok(()));
    // A second request while the first is in flight is refused at once
    // with the specific already-checking error; it is not queued.
    assert_eq!(g.try_begin(), Err(UpdateError::AlreadyChecking));
    assert_eq!(g.try_begin(), Err(UpdateError::AlreadyChecking));
}

#[test]
fn the_guard_frees_after_a_finished_check() {
    let mut g = CheckGuard::new();
    assert_eq!(g.try_begin(), Ok(()));
    g.finish();
    assert_eq!(g.try_begin(), Ok(()));
}

#[test]
fn the_rejection_carries_its_message() {
    let mut g = CheckGuard::new();
    let _ = g.try_begin();
    let e = g.try_begin().unwrap_err();
    assert_eq!(e.message(), "Already checking for updates");
}
