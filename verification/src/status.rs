use vstd::prelude::*;

verus! {

/// The final outcome of a process.
#[derive(Clone, Copy, Debug, PartialEq, Eq, Structural)]
pub enum ExitDisposition {
    /// The process exited normally with this exit code.
    ExitedWithCode(i32),
    /// The process was terminated by the signal with this number.
    KilledBySignal(i32),
}

/// Why a termination did not yield a disposition. Each variant carries the
/// error number that the operating system reported.
#[derive(Clone, Copy, Debug, PartialEq, Eq, Structural)]
pub enum TerminationError {
    /// The interrupt signal could not be delivered.
    SignalError(i32),
    /// Waiting for the process failed for a reason other than an interruption.
    WaitError(i32),
}

/// One answer of the operating system to a wait on a single child process.
#[derive(Clone, Copy, Debug, PartialEq, Eq, Structural)]
pub enum WaitOutcome {
    /// The process exited normally with this exit code.
    Exited(i32),
    /// The process was terminated by the signal with this number.
    Signaled(i32),
    /// The process was stopped by a job-control signal and may run again.
    Stopped,
    /// The process was resumed after a stop.
    Continued,
    /// The process, while traced, stopped on a trace event.
    PtraceEvent,
    /// The process, while traced, stopped at a system call.
    PtraceSyscall,
    /// The process has not changed state.
    StillAlive,
    /// The wait itself was interrupted before it could report anything.
    Interrupted,
    /// The wait failed with this error number, which is not an interruption.
    Failed(i32),
}

/// What a wait outcome means for the wait loop.
#[derive(Clone, Copy, Debug, PartialEq, Eq, Structural)]
pub enum Verdict {
    /// The process has ended; the loop stops with this disposition.
    Done(ExitDisposition),
    /// Nothing final was seen; the wait has to be issued again.
    Retry,
    /// The wait failed; the loop stops with this error.
    Failed(TerminationError),
}

/// The disposition that a wait outcome carries: one for an exit and one for a
/// killing signal, none for every other outcome.
pub open spec fn disposition_of(outcome: WaitOutcome) -> Option<ExitDisposition> {
    match outcome {
        WaitOutcome::Exited(code) => Some(ExitDisposition::ExitedWithCode(code)),
        WaitOutcome::Signaled(signal) => Some(ExitDisposition::KilledBySignal(signal)),
        _ => None,
    }
}

/// An outcome is terminal when the process has finished running.
pub open spec fn is_terminal(outcome: WaitOutcome) -> bool {
    outcome is Exited || outcome is Signaled
}

/// The verdict on a wait outcome: terminal outcomes end the loop with their
/// disposition, a failed wait ends it with a wait error, and everything else
/// (a stop, a resumption, a trace stop, no change, an interrupted wait) asks
/// for another wait.
pub open spec fn verdict_of(outcome: WaitOutcome) -> Verdict {
    match outcome {
        WaitOutcome::Exited(code) => Verdict::Done(ExitDisposition::ExitedWithCode(code)),
        WaitOutcome::Signaled(signal) => Verdict::Done(ExitDisposition::KilledBySignal(signal)),
        WaitOutcome::Failed(errno) => Verdict::Failed(TerminationError::WaitError(errno)),
        _ => Verdict::Retry,
    }
}

/// What the answer to sending the interrupt means: no error where the signal
/// was delivered, a signal error with the reported error number otherwise.
pub open spec fn signal_error_of(sent: Result<(), i32>) -> Option<TerminationError> {
    match sent {
        Ok(_) => None,
        Err(errno) => Some(TerminationError::SignalError(errno)),
    }
}

impl WaitOutcome {
    /// Whether the process has finished running.
    pub fn terminal(&self) -> (r: bool)
        ensures
            r == is_terminal(*self),
            r == (disposition_of(*self) is Some),
            r == (verdict_of(*self) is Done),
    {
        match *self {
            WaitOutcome::Exited(_) => true,
            WaitOutcome::Signaled(_) => true,
            _ => false,
        }
    }

    /// Decodes a terminal outcome into its disposition.
    pub fn disposition(&self) -> (r: Option<ExitDisposition>)
        ensures
            r == disposition_of(*self),
    {
        match *self {
            WaitOutcome::Exited(code) => Some(ExitDisposition::ExitedWithCode(code)),
            WaitOutcome::Signaled(signal) => Some(ExitDisposition::KilledBySignal(signal)),
            _ => None,
        }
    }

    /// Classifies the outcome for the wait loop.
    pub fn verdict(&self) -> (r: Verdict)
        ensures
            r == verdict_of(*self),
    {
        match *self {
            WaitOutcome::Exited(code) => Verdict::Done(ExitDisposition::ExitedWithCode(code)),
            WaitOutcome::Signaled(signal) => Verdict::Done(
                ExitDisposition::KilledBySignal(signal),
            ),
            WaitOutcome::Failed(errno) => Verdict::Failed(TerminationError::WaitError(errno)),
            WaitOutcome::Stopped => Verdict::Retry,
            WaitOutcome::Continued => Verdict::Retry,
            WaitOutcome::PtraceEvent => Verdict::Retry,
            WaitOutcome::PtraceSyscall => Verdict::Retry,
            WaitOutcome::StillAlive => Verdict::Retry,
            WaitOutcome::Interrupted => Verdict::Retry,
        }
    }
}

impl ExitDisposition {
    /// The exit code, where the process exited normally.
    pub fn code(&self) -> (r: Option<i32>)
        ensures
            r == (match *self {
                ExitDisposition::ExitedWithCode(code) => Some(code),
                ExitDisposition::KilledBySignal(_) => None::<i32>,
            }),
    {
        match *self {
            ExitDisposition::ExitedWithCode(code) => Some(code),
            ExitDisposition::KilledBySignal(_) => None,
        }
    }

    /// The number of the killing signal, where a signal ended the process.
    pub fn signal(&self) -> (r: Option<i32>)
        ensures
            r == (match *self {
                ExitDisposition::ExitedWithCode(_) => None::<i32>,
                ExitDisposition::KilledBySignal(signal) => Some(signal),
            }),
    {
        match *self {
            ExitDisposition::ExitedWithCode(_) => None,
            ExitDisposition::KilledBySignal(signal) => Some(signal),
        }
    }
}

impl TerminationError {
    /// The error number that the operating system reported.
    pub fn errno(&self) -> (r: i32)
        ensures
            r == (match *self {
                TerminationError::SignalError(errno) => errno,
                TerminationError::WaitError(errno) => errno,
            }),
    {
        match *self {
            TerminationError::SignalError(errno) => errno,
            TerminationError::WaitError(errno) => errno,
        }
    }
}

/// Turns the answer to sending the interrupt into the error to report, if any.
pub fn signal_error(sent: Result<(), i32>) -> (r: Option<TerminationError>)
    ensures
        r == signal_error_of(sent),
{
    match sent {
        Ok(_) => None,
        Err(errno) => Some(TerminationError::SignalError(errno)),
    }
}

} // verus!
