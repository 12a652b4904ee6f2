use eos_stream::supervisor::{
    next_loop_step, stale_gadget_unbind_wait, LoopEvent, LoopStep, RESTART_DELAY_MS,
};

#[test]
fn round_start() {
    assert_eq!(next_loop_step(LoopEvent::RoundStart, false), LoopStep::SetUpGadget);
    assert_eq!(next_loop_step(LoopEvent::RoundStart, true), LoopStep::Stop);
}

#[test]
fn setup_failure_retries() {
    assert_eq!(next_loop_step(LoopEvent::SetupFailed, false), LoopStep::RestartAfter(2000));
    assert_eq!(next_loop_step(LoopEvent::SetupFailed, true), LoopStep::RestartAfter(RESTART_DELAY_MS));
}

#[test]
fn session_end() {
    assert_eq!(next_loop_step(LoopEvent::SessionEnded, false), LoopStep::RestartAfter(2000));
    assert_eq!(next_loop_step(LoopEvent::SessionEnded, true), LoopStep::Stop);
}

#[test]
fn stale_gadget_unbind() {
    assert_eq!(stale_gadget_unbind_wait(true), Some(500));
    assert_eq!(stale_gadget_unbind_wait(false), None);
}
