use rund::launch::TerminalKind;
use rund::process::{
    begin_launch, continue_launch, follow_up, handle_after, FollowUp, LaunchError,
    LaunchStep, ProcessHandle,
};

#[test]
fn handles_hold_the_number_given() {
    let h = ProcessHandle::new(0x1f4);
    assert!(!h.is_null());
    assert_eq!(h.as_raw(), 0x1f4);
    let n = ProcessHandle::new(0);
    assert!(n.is_null());
    assert_eq!(n.as_raw(), 0);
    assert!(!ProcessHandle::new(usize::MAX).is_null());
}

#[test]
fn a_launch_begins_with_the_first_candidate() {
    assert_eq!(begin_launch(5), LaunchStep::Spawn(0));
    assert_eq!(begin_launch(1), LaunchStep::Spawn(0));
    assert_eq!(begin_launch(0), LaunchStep::Failed(LaunchError::NoTerminalFound));
}

#[test]
fn the_first_emulator_that_starts_wins() {
    let k = TerminalKind::PosixEmulators;
    assert_eq!(continue_launch(k, 5, 0, None), LaunchStep::Launched(0));
    assert_eq!(continue_launch(k, 5, 0, Some(2)), LaunchStep::Spawn(1));
    assert_eq!(continue_launch(k, 5, 3, Some(2)), LaunchStep::Spawn(4));
    assert_eq!(continue_launch(k, 5, 4, None), LaunchStep::Launched(4));
    assert_eq!(
        continue_launch(k, 5, 4, Some(2)),
        LaunchStep::Failed(LaunchError::NoTerminalFound)
    );
    assert_eq!(
        continue_launch(k, 5, usize::MAX, Some(2)),
        LaunchStep::Failed(LaunchError::NoTerminalFound)
    );
    let outcomes = [Some(2), Some(13), None, None, Some(2)];
    let mut step = begin_launch(outcomes.len());
    let mut tried = Vec::new();
    while let LaunchStep::Spawn(i) = step {
        tried.push(i);
        step = continue_launch(k, outcomes.len(), i, outcomes[i]);
    }
    assert_eq!(step, LaunchStep::Launched(2));
    assert_eq!(tried, vec![0, 1, 2]);
}

#[test]
fn a_single_terminal_fails_with_the_error_of_the_system() {
    for k in [TerminalKind::Console, TerminalKind::WindowsTerminal, TerminalKind::MacTerminal] {
        assert_eq!(continue_launch(k, 1, 0, Some(5)), LaunchStep::Failed(LaunchError::Os(5)));
        assert_eq!(continue_launch(k, 1, 0, Some(-1)), LaunchStep::Failed(LaunchError::Os(-1)));
        assert_eq!(continue_launch(k, 1, 0, None), LaunchStep::Launched(0));
    }
}

#[test]
fn what_follows_a_launch() {
    let h = ProcessHandle::new(77);
    let n = ProcessHandle::new(0);
    assert_eq!(follow_up(&h, true, "abc"), FollowUp::Monitor);
    assert_eq!(follow_up(&h, true, ""), FollowUp::Wait);
    assert_eq!(follow_up(&h, false, ""), FollowUp::Nothing);
    assert_eq!(follow_up(&h, false, "abc"), FollowUp::Nothing);
    assert_eq!(follow_up(&n, true, "abc"), FollowUp::Nothing);
    assert_eq!(follow_up(&n, true, ""), FollowUp::Nothing);
}

#[test]
fn only_the_console_gives_a_handle_to_wait_for() {
    assert_eq!(handle_after(TerminalKind::Console, 77).as_raw(), 77);
    assert!(handle_after(TerminalKind::Console, 0).is_null());
    assert!(handle_after(TerminalKind::WindowsTerminal, 77).is_null());
    assert!(handle_after(TerminalKind::MacTerminal, 77).is_null());
    assert!(handle_after(TerminalKind::PosixEmulators, 77).is_null());
}
