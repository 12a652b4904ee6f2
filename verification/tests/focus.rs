use eos_stream::focus::{
    focus_choice, focus_drive_plan, focus_key_action, focus_signal, handle_focus_signal,
    FocusDirection, FocusSignals, KeyAction,
};

#[test]
fn keys_drive_focus() {
    assert_eq!(focus_key_action('+'), KeyAction::Drive(FocusDirection::Near));
    assert_eq!(focus_key_action('-'), KeyAction::Drive(FocusDirection::Far));
    assert_eq!(focus_key_action('\x03'), KeyAction::Quit);
    assert_eq!(focus_key_action('q'), KeyAction::Ignore);
    assert_eq!(focus_key_action('='), KeyAction::Ignore);
}

#[test]
fn system_signals_are_sigusr() {
    let s = FocusSignals::system();
    assert_eq!(s.near, libc::SIGUSR1);
    assert_eq!(s.far, libc::SIGUSR2);
    assert_ne!(s.near, s.far);
}

#[test]
fn client_signal_is_counted_in_its_direction() {
    let s = FocusSignals::system();
    for dir in [FocusDirection::Near, FocusDirection::Far] {
        assert_eq!(handle_focus_signal(&s, focus_signal(&s, dir)), dir);
    }
}

#[test]
fn plus_key_ends_as_nearer_step() {
    let s = FocusSignals::system();
    match focus_key_action('+') {
        KeyAction::Drive(d) => {
            assert_eq!(focus_signal(&s, d), libc::SIGUSR1);
            assert_eq!(handle_focus_signal(&s, libc::SIGUSR1), FocusDirection::Near);
        }
        other => panic!("unexpected {:?}", other),
    }
}

#[test]
fn other_signal_counts_as_farther() {
    let s = FocusSignals { near: 10, far: 12 };
    assert_eq!(handle_focus_signal(&s, 10), FocusDirection::Near);
    assert_eq!(handle_focus_signal(&s, 12), FocusDirection::Far);
    assert_eq!(handle_focus_signal(&s, 2), FocusDirection::Far);
}

#[test]
fn drive_plan_nearer_then_farther() {
    let (near, far) = (FocusDirection::Near, FocusDirection::Far);
    assert_eq!(focus_drive_plan(2, 3), vec![near, near, far, far, far]);
    assert_eq!(focus_drive_plan(0, 1), vec![far]);
    assert_eq!(focus_drive_plan(0, 0), vec![]);
    assert_eq!(focus_drive_plan(-4, 2), vec![far, far]);
    assert_eq!(focus_drive_plan(1, i32::MIN), vec![near]);
}

#[test]
fn drive_choices() {
    assert_eq!(focus_choice(FocusDirection::Near), "Near 1");
    assert_eq!(focus_choice(FocusDirection::Far), "Far 1");
}
