use crate::lifecycle::{
    lemma_first_decisive_outcome, lemma_pending_while_retrying, lemma_wait_fails_with_wait_error,
    retries_before, verdict_after,
};
use crate::status::{signal_error, verdict_of, ExitDisposition, TerminationError, Verdict, WaitOutcome};
use nix::errno::Errno;
use nix::sys::signal::{kill, Signal};
use nix::sys::wait::{waitpid, WaitStatus};
use nix::unistd::Pid;
use vstd::prelude::*;

verus! {

/// A live process under supervision, known by its process id.
///
/// The id is positive and never changes. Dropping the value leaves the
/// process alone.
#[derive(Debug)]
pub struct Process {
    pid: i32,
}

/// A process to which the interrupt signal has been sent and whose end has
/// not been observed yet.
#[derive(Debug)]
pub struct SignalledProcess {
    pid: i32,
}

/// What one wait on a signalled process led to.
#[derive(Debug)]
pub enum Step {
    /// The process has ended and was reaped.
    Done(ExitDisposition),
    /// The wait failed; the process is given up.
    Failed(TerminationError),
    /// Nothing final was seen; the process is handed back for another wait.
    Retry(SignalledProcess),
}

impl Step {
    /// The verdict that this step acts on.
    pub open spec fn verdict(self) -> Verdict {
        match self {
            Step::Done(disposition) => Verdict::Done(disposition),
            Step::Failed(error) => Verdict::Failed(error),
            Step::Retry(_) => Verdict::Retry,
        }
    }
}

/// Sends the interrupt signal to one process through `nix::sys::signal::kill`
/// with `Signal::SIGINT`.
///
/// Trusted, and nothing is claimed of the answer, which is the operating
/// system's: `Ok` where it accepted the signal, and otherwise the number of
/// the `Errno` that `nix` reported. The id has to be positive, since zero and
/// negative ids address groups of processes.
#[verifier::external_body]
fn send_interrupt(pid: i32) -> (sent: Result<(), i32>)
    requires
        pid > 0,
{
    match kill(Pid::from_raw(pid), Signal::SIGINT) {
        Ok(()) => Ok(()),
        Err(errno) => Err(errno as i32),
    }
}

/// Waits once for a change of state of one child through
/// `nix::sys::wait::waitpid`, with no options. The call blocks until the
/// operating system has something to report.
///
/// Trusted, and nothing is claimed of the answer, which is the operating
/// system's. Each variant of the `WaitStatus` that `nix` decoded becomes the
/// variant of the same name, with the exit code or the number of the killing
/// signal where there is one; the error `Errno::EINTR` becomes `Interrupted`,
/// and any other error becomes `Failed` with its number. The id has to be
/// positive, since any other would wait for a group of children.
#[verifier::external_body]
fn wait_once(pid: i32) -> (outcome: WaitOutcome)
    requires
        pid > 0,
{
    match waitpid(Pid::from_raw(pid), None) {
        Ok(WaitStatus::Exited(_, code)) => WaitOutcome::Exited(code),
        Ok(WaitStatus::Signaled(_, signal, _)) => WaitOutcome::Signaled(signal as i32),
        Ok(WaitStatus::Stopped(..)) => WaitOutcome::Stopped,
        Ok(WaitStatus::Continued(..)) => WaitOutcome::Continued,
        Ok(WaitStatus::PtraceEvent(..)) => WaitOutcome::PtraceEvent,
        Ok(WaitStatus::PtraceSyscall(..)) => WaitOutcome::PtraceSyscall,
        Ok(WaitStatus::StillAlive) => WaitOutcome::StillAlive,
        Err(Errno::EINTR) => WaitOutcome::Interrupted,
        Err(errno) => WaitOutcome::Failed(errno as i32),
    }
}

impl Process {
    #[verifier::type_invariant]
    spec fn well_formed(self) -> bool {
        self.pid > 0
    }

    /// The process id that this value was made for.
    pub closed spec fn id(self) -> int {
        self.pid as int
    }

    /// Takes a process under supervision by its id. Only a positive id names
    /// a single process, so any other is refused.
    pub fn attach(pid: i32) -> (r: Option<Process>)
        ensures
            r is Some <==> pid > 0,
            r matches Some(process) ==> process.id() == pid,
    {
        if pid > 0 {
            Some(Process { pid })
        } else {
            None
        }
    }

    /// The process id.
    pub fn pid(&self) -> (r: i32)
        ensures
            r == self.id(),
            r > 0,
    {
        proof {
            use_type_invariant(self);
        }
        self.pid
    }

    /// Sends the interrupt signal to the process. Where the operating system
    /// accepts it, the process comes back as signalled, under the same id;
    /// where it does not, the error is a signal error, never a wait error.
    pub fn interrupt(self) -> (r: Result<SignalledProcess, TerminationError>)
        ensures
            r matches Ok(signalled) ==> signalled.id() == self.id(),
            r matches Err(error) ==> error is SignalError,
    {
        proof {
            use_type_invariant(&self);
        }
        let sent = send_interrupt(self.pid);
        match signal_error(sent) {
            None => Ok(SignalledProcess { pid: self.pid }),
            Some(error) => Err(error),
        }
    }

    /// Terminates the process: sends the interrupt signal, then waits for the
    /// process until it is seen to have ended, a wait fails, or `attempts`
    /// waits have been made. The wait outcomes come back in the order in
    /// which they were seen.
    ///
    /// A signal that is refused gives a signal error and no wait is made.
    /// Otherwise the step is where the wait loop stands after the outcomes
    /// seen: done with the disposition of the first terminal outcome, failed
    /// with the error of the first failed wait, or, after `attempts` waits
    /// that all asked for a retry, the signalled process, on which
    /// [`SignalledProcess::wait_within`] goes on waiting.
    pub fn kill(self, attempts: usize) -> (r: (Vec<WaitOutcome>, Step))
        ensures
            r.0@.len() <= attempts,
            r.1 matches Step::Failed(TerminationError::SignalError(_)) ==> r.0@.len() == 0,
            !(r.1 matches Step::Failed(TerminationError::SignalError(_))) ==> r.1.verdict()
                == verdict_after(r.0@),
            !(r.1 is Retry) && r.0@.len() > 0 ==> retries_before(r.0@, r.0@.len() - 1),
            r.1 is Retry ==> r.0@.len() == attempts,
            r.1 matches Step::Retry(again) ==> again.id() == self.id(),
    {
        match self.interrupt() {
            Ok(signalled) => {
                let r = signalled.wait_within(attempts);
                proof {
                    lemma_wait_fails_with_wait_error(r.0@);
                }
                r
            },
            Err(error) => (Vec::new(), Step::Failed(error)),
        }
    }
}

impl SignalledProcess {
    #[verifier::type_invariant]
    spec fn well_formed(self) -> bool {
        self.pid > 0
    }

    /// The process id that this value was made for.
    pub closed spec fn id(self) -> int {
        self.pid as int
    }

    /// The process id.
    pub fn pid(&self) -> (r: i32)
        ensures
            r == self.id(),
            r > 0,
    {
        proof {
            use_type_invariant(self);
        }
        self.pid
    }

    /// Waits once for the process and acts on what was seen. The outcome is
    /// returned beside the step, and the step is the verdict on that outcome:
    /// done with the disposition of a terminal outcome, failed with a wait
    /// error, or the same process again after anything else.
    pub fn wait_step(self) -> (r: (WaitOutcome, Step))
        ensures
            r.1.verdict() == verdict_of(r.0),
            r.1 matches Step::Retry(again) ==> again.id() == self.id(),
    {
        proof {
            use_type_invariant(&self);
        }
        let outcome = wait_once(self.pid);
        let step = match outcome.verdict() {
            Verdict::Done(disposition) => Step::Done(disposition),
            Verdict::Failed(error) => Step::Failed(error),
            Verdict::Retry => Step::Retry(self),
        };
        (outcome, step)
    }

    /// Waits for the process until it is seen to have ended, a wait fails, or
    /// `attempts` waits have been made. The wait outcomes come back in the
    /// order in which they were seen, and the step is where the wait loop
    /// stands after them. Only the last outcome can be one that decides; the
    /// process comes back for more waiting only after `attempts` outcomes
    /// that all asked for a retry.
    pub fn wait_within(self, attempts: usize) -> (r: (Vec<WaitOutcome>, Step))
        ensures
            r.0@.len() <= attempts,
            r.1.verdict() == verdict_after(r.0@),
            !(r.1 is Retry) ==> r.0@.len() > 0 && retries_before(r.0@, r.0@.len() - 1),
            r.1 is Retry ==> r.0@.len() == attempts,
            r.1 matches Step::Retry(again) ==> again.id() == self.id(),
    {
        let ghost id = self.id();
        let mut seen: Vec<WaitOutcome> = Vec::new();
        let mut current = self;
        while seen.len() < attempts
            invariant
                seen@.len() <= attempts,
                retries_before(seen@, seen@.len() as int),
                current.id() == id,
            decreases attempts - seen@.len(),
        {
            let ghost before = seen@;
            let (outcome, step) = current.wait_step();
            seen.push(outcome);
            assert forall|j: int| 0 <= j < before.len() implies verdict_of(#[trigger] seen@[j])
                is Retry by {
                assert(seen@[j] == before[j]);
            }
            match step {
                Step::Retry(again) => {
                    current = again;
                },
                decided => {
                    proof {
                        lemma_first_decisive_outcome(seen@, seen@.len() - 1);
                    }
                    return (seen, decided);
                },
            }
        }
        proof {
            lemma_pending_while_retrying(seen@);
        }
        (seen, Step::Retry(current))
    }
}

} // verus!
