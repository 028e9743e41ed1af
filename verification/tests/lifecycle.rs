use aurae_executables::lifecycle::replay;
use aurae_executables::status::{ExitDisposition, TerminationError, WaitOutcome};

#[test]
fn exit_with_code_zero_is_reported() {
    let events = vec![WaitOutcome::Exited(0)];
    assert_eq!(
        replay(Ok(()), &events),
        Some(Ok(ExitDisposition::ExitedWithCode(0)))
    );
}

#[test]
fn exit_with_code_seven_is_reported() {
    let events = vec![WaitOutcome::Exited(7)];
    assert_eq!(
        replay(Ok(()), &events),
        Some(Ok(ExitDisposition::ExitedWithCode(7)))
    );
}

#[test]
fn interrupt_shows_as_signal_or_as_exit_code() {
    assert_eq!(
        replay(Ok(()), &vec![WaitOutcome::Signaled(2)]),
        Some(Ok(ExitDisposition::KilledBySignal(2)))
    );
    assert_eq!(
        replay(Ok(()), &vec![WaitOutcome::Exited(130)]),
        Some(Ok(ExitDisposition::ExitedWithCode(130)))
    );
}

#[test]
fn other_killing_signal_is_reported_not_an_error() {
    let events = vec![WaitOutcome::Signaled(9)];
    assert_eq!(
        replay(Ok(()), &events),
        Some(Ok(ExitDisposition::KilledBySignal(9)))
    );
}

#[test]
fn stops_and_interruptions_are_waited_through() {
    let events = vec![
        WaitOutcome::Stopped,
        WaitOutcome::Interrupted,
        WaitOutcome::Continued,
        WaitOutcome::PtraceEvent,
        WaitOutcome::PtraceSyscall,
        WaitOutcome::StillAlive,
        WaitOutcome::Signaled(15),
    ];
    assert_eq!(
        replay(Ok(()), &events),
        Some(Ok(ExitDisposition::KilledBySignal(15)))
    );
}

#[test]
fn nothing_is_returned_while_nothing_final_was_seen() {
    assert_eq!(replay(Ok(()), &vec![]), None);
    let events = vec![
        WaitOutcome::Stopped,
        WaitOutcome::Continued,
        WaitOutcome::Interrupted,
    ];
    assert_eq!(replay(Ok(()), &events), None);
}

#[test]
fn first_deciding_outcome_wins() {
    let events = vec![
        WaitOutcome::Interrupted,
        WaitOutcome::Exited(1),
        WaitOutcome::Signaled(9),
        WaitOutcome::Failed(10),
    ];
    assert_eq!(
        replay(Ok(()), &events),
        Some(Ok(ExitDisposition::ExitedWithCode(1)))
    );
    let events = vec![WaitOutcome::Failed(10), WaitOutcome::Exited(0)];
    assert_eq!(
        replay(Ok(()), &events),
        Some(Err(TerminationError::WaitError(10)))
    );
}

#[test]
fn wait_on_reaped_process_is_a_wait_error() {
    let events = vec![WaitOutcome::Stopped, WaitOutcome::Failed(10)];
    assert_eq!(
        replay(Ok(()), &events),
        Some(Err(TerminationError::WaitError(10)))
    );
}

#[test]
fn refused_signal_ends_before_any_wait() {
    assert_eq!(
        replay(Err(3), &vec![]),
        Some(Err(TerminationError::SignalError(3)))
    );
    let events = vec![WaitOutcome::Exited(0)];
    assert_eq!(
        replay(Err(1), &events),
        Some(Err(TerminationError::SignalError(1)))
    );
}

#[test]
fn outcomes_split_over_rounds_give_the_result_of_one_run() {
    let first = vec![WaitOutcome::Stopped, WaitOutcome::Interrupted];
    let second = vec![WaitOutcome::Continued, WaitOutcome::Exited(5)];
    let whole = vec![
        WaitOutcome::Stopped,
        WaitOutcome::Interrupted,
        WaitOutcome::Continued,
        WaitOutcome::Exited(5),
    ];
    assert_eq!(replay(Ok(()), &first), None);
    assert_eq!(replay(Ok(()), &second), replay(Ok(()), &whole));
    assert_eq!(
        replay(Ok(()), &whole),
        Some(Ok(ExitDisposition::ExitedWithCode(5)))
    );
}
