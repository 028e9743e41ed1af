use aurae_executables::process::{Process, Step};
use aurae_executables::status::TerminationError;
use nix::errno::Errno;

#[test]
fn attach_takes_positive_ids_only() {
    assert!(Process::attach(0).is_none());
    assert!(Process::attach(-1).is_none());
    assert!(Process::attach(i32::MIN).is_none());
    assert_eq!(Process::attach(1).unwrap().pid(), 1);
    assert_eq!(Process::attach(4242).unwrap().pid(), 4242);
    assert_eq!(Process::attach(i32::MAX).unwrap().pid(), i32::MAX);
}

#[test]
fn interrupt_of_missing_process_is_a_signal_error() {
    let process = Process::attach(i32::MAX).unwrap();
    match process.interrupt() {
        Ok(_) => panic!("a signal was delivered to a process that does not exist"),
        Err(error) => {
            assert_eq!(error, TerminationError::SignalError(Errno::ESRCH as i32))
        }
    }
}

#[test]
fn kill_of_missing_process_is_a_signal_error_without_a_wait() {
    let process = Process::attach(i32::MAX).unwrap();
    let (seen, step) = process.kill(8);
    assert!(seen.is_empty());
    match step {
        Step::Failed(error) => {
            assert_eq!(error, TerminationError::SignalError(Errno::ESRCH as i32));
            assert_eq!(error.errno(), 3);
        }
        Step::Done(disposition) => panic!("unexpected disposition {:?}", disposition),
        Step::Retry(_) => panic!("unexpected retry"),
    }
}
