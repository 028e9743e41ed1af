use crate::status::{signal_error, verdict_of, ExitDisposition, TerminationError, Verdict, WaitOutcome};
use vstd::prelude::*;

verus! {

/// What the wait loop returns after seeing `events` in this order: the
/// disposition or the error of the first outcome that does not ask for a
/// retry, and nothing while every outcome seen so far asks for one.
pub open spec fn wait_result(events: Seq<WaitOutcome>) -> Option<
    Result<ExitDisposition, TerminationError>,
>
    decreases events.len(),
{
    if events.len() == 0 {
        None
    } else {
        match verdict_of(events[0]) {
            Verdict::Done(disposition) => Some(Ok(disposition)),
            Verdict::Failed(error) => Some(Err(error)),
            Verdict::Retry => wait_result(events.subrange(1, events.len() as int)),
        }
    }
}

/// What a whole termination returns, given the answer to the interrupt and
/// the wait outcomes that would follow: a signal error where the signal was
/// refused, whatever the waits would have shown, and the result of the wait
/// loop otherwise.
pub open spec fn termination_result(sent: Result<(), i32>, events: Seq<WaitOutcome>) -> Option<
    Result<ExitDisposition, TerminationError>,
> {
    match sent {
        Err(errno) => Some(Err(TerminationError::SignalError(errno))),
        Ok(_) => wait_result(events),
    }
}

/// Where the wait loop stands after seeing `events`: done or failed with
/// what it returns, and due for another wait while it has returned nothing.
pub open spec fn verdict_after(events: Seq<WaitOutcome>) -> Verdict {
    match wait_result(events) {
        Some(Ok(disposition)) => Verdict::Done(disposition),
        Some(Err(error)) => Verdict::Failed(error),
        None => Verdict::Retry,
    }
}

/// Every outcome before position `n` asks for another wait.
pub open spec fn retries_before(events: Seq<WaitOutcome>, n: int) -> bool {
    forall|j: int| 0 <= j < n ==> verdict_of(#[trigger] events[j]) is Retry
}

/// The first outcome that does not ask for a retry decides the wait loop.
pub proof fn lemma_first_decisive_outcome(events: Seq<WaitOutcome>, i: int)
    requires
        0 <= i < events.len(),
        retries_before(events, i),
        !(verdict_of(events[i]) is Retry),
    ensures
        wait_result(events) == Some(
            match verdict_of(events[i]) {
                Verdict::Done(disposition) => Ok::<ExitDisposition, TerminationError>(disposition),
                Verdict::Failed(error) => Err(error),
                Verdict::Retry => arbitrary(),
            },
        ),
    decreases i,
{
    if i > 0 {
        let rest = events.subrange(1, events.len() as int);
        assert(verdict_of(events[0]) is Retry);
        assert forall|j: int| 0 <= j < i - 1 implies verdict_of(#[trigger] rest[j]) is Retry by {
            assert(rest[j] == events[j + 1]);
        }
        assert(rest[i - 1] == events[i]);
        lemma_first_decisive_outcome(rest, i - 1);
    }
}

/// While every outcome seen asks for a retry, the wait loop has returned
/// nothing: a stop, a resumption or an interrupted wait is never taken for
/// the end of the process.
pub proof fn lemma_pending_while_retrying(events: Seq<WaitOutcome>)
    requires
        retries_before(events, events.len() as int),
    ensures
        wait_result(events) is None,
        termination_result(Ok(()), events) is None,
    decreases events.len(),
{
    if events.len() > 0 {
        let rest = events.subrange(1, events.len() as int);
        assert(verdict_of(events[0]) is Retry);
        assert forall|j: int| 0 <= j < rest.len() implies verdict_of(#[trigger] rest[j]) is Retry by {
            assert(rest[j] == events[j + 1]);
        }
        lemma_pending_while_retrying(rest);
    }
}

/// A termination that returns a disposition returns that of a terminal
/// outcome which was observed after the signal was delivered, with nothing
/// but retries before it: an exit code that was seen, or a killing signal
/// that was seen, and never a status that is not terminal.
pub proof fn lemma_success_is_observed(
    sent: Result<(), i32>,
    events: Seq<WaitOutcome>,
    disposition: ExitDisposition,
)
    requires
        termination_result(sent, events) == Some(
            Ok::<ExitDisposition, TerminationError>(disposition),
        ),
    ensures
        sent is Ok,
        exists|i: int|
            0 <= i < events.len() && retries_before(events, i) && #[trigger] events[i] == (
            match disposition {
                ExitDisposition::ExitedWithCode(code) => WaitOutcome::Exited(code),
                ExitDisposition::KilledBySignal(signal) => WaitOutcome::Signaled(signal),
            }),
{
    lemma_decisive_position(events);
    let i = choose|i: int|
        0 <= i < events.len() && retries_before(events, i) && !(verdict_of(
            #[trigger] events[i],
        ) is Retry);
    lemma_first_decisive_outcome(events, i);
}

/// A wait loop that has returned something has seen an outcome that does not
/// ask for a retry.
pub proof fn lemma_decisive_position(events: Seq<WaitOutcome>)
    requires
        wait_result(events) is Some,
    ensures
        exists|i: int|
            0 <= i < events.len() && retries_before(events, i) && !(verdict_of(
                #[trigger] events[i],
            ) is Retry),
    decreases events.len(),
{
    if verdict_of(events[0]) is Retry {
        let rest = events.subrange(1, events.len() as int);
        lemma_decisive_position(rest);
        let k = choose|k: int|
            0 <= k < rest.len() && retries_before(rest, k) && !(verdict_of(#[trigger] rest[k])
                is Retry);
        assert(rest[k] == events[k + 1]);
        assert forall|j: int| 0 <= j < k + 1 implies verdict_of(#[trigger] events[j]) is Retry by {
            if j > 0 {
                assert(rest[j - 1] == events[j]);
            }
        }
        assert(retries_before(events, k + 1));
    } else {
        assert(retries_before(events, 0));
    }
}

/// Waiting in rounds is waiting in one run: outcomes that follow a run which
/// has returned nothing are judged as if they had come alone, and outcomes
/// that follow a run which has returned something change nothing.
pub proof fn lemma_rounds_compose(first: Seq<WaitOutcome>, second: Seq<WaitOutcome>)
    ensures
        wait_result(first) is None ==> wait_result(first + second) == wait_result(second),
        wait_result(first) is Some ==> wait_result(first + second) == wait_result(first),
    decreases first.len(),
{
    if first.len() == 0 {
        assert(first + second =~= second);
    } else {
        let whole = first + second;
        assert(whole[0] == first[0]);
        assert(whole.subrange(1, whole.len() as int) =~= first.subrange(1, first.len() as int)
            + second);
        if verdict_of(first[0]) is Retry {
            lemma_rounds_compose(first.subrange(1, first.len() as int), second);
        }
    }
}

/// The wait loop fails with wait errors only: a signal error comes from the
/// interrupt and from nowhere else.
pub proof fn lemma_wait_fails_with_wait_error(events: Seq<WaitOutcome>)
    ensures
        wait_result(events) matches Some(Err(error)) ==> error is WaitError,
        verdict_after(events) matches Verdict::Failed(error) ==> error is WaitError,
    decreases events.len(),
{
    if events.len() > 0 && verdict_of(events[0]) is Retry {
        lemma_wait_fails_with_wait_error(events.subrange(1, events.len() as int));
    }
}

/// A process that is seen to exit with a code, after any number of stops,
/// resumptions and interrupted waits, is reported as exited with that code.
pub proof fn lemma_exit_code_is_reported(events: Seq<WaitOutcome>, i: int, code: i32)
    requires
        0 <= i < events.len(),
        retries_before(events, i),
        events[i] == WaitOutcome::Exited(code),
    ensures
        termination_result(Ok(()), events) == Some(
            Ok::<ExitDisposition, TerminationError>(ExitDisposition::ExitedWithCode(code)),
        ),
{
    lemma_first_decisive_outcome(events, i);
}

/// A process that is seen to die by a signal, whichever signal it is, is
/// reported as killed by that signal, and not as an error.
pub proof fn lemma_killing_signal_is_reported(events: Seq<WaitOutcome>, i: int, signal: i32)
    requires
        0 <= i < events.len(),
        retries_before(events, i),
        events[i] == WaitOutcome::Signaled(signal),
    ensures
        termination_result(Ok(()), events) == Some(
            Ok::<ExitDisposition, TerminationError>(ExitDisposition::KilledBySignal(signal)),
        ),
{
    lemma_first_decisive_outcome(events, i);
}

/// A wait that fails, as it does on a process that was reaped before, ends
/// the termination with a wait error that carries the error number; it is
/// neither retried nor turned into a success.
pub proof fn lemma_wait_failure_is_reported(events: Seq<WaitOutcome>, i: int, errno: i32)
    requires
        0 <= i < events.len(),
        retries_before(events, i),
        events[i] == WaitOutcome::Failed(errno),
    ensures
        termination_result(Ok(()), events) == Some(
            Err::<ExitDisposition, TerminationError>(TerminationError::WaitError(errno)),
        ),
{
    lemma_first_decisive_outcome(events, i);
}

/// A signal that cannot be delivered, as to an id that names no process,
/// ends the termination with a signal error before any wait is looked at.
pub proof fn lemma_signal_failure_is_reported(errno: i32, events: Seq<WaitOutcome>)
    ensures
        termination_result(Err(errno), events) == Some(
            Err::<ExitDisposition, TerminationError>(TerminationError::SignalError(errno)),
        ),
{
}

/// Replays a termination on recorded answers: the answer to the interrupt
/// and the wait outcomes in the order in which they came. Outcomes after the
/// first one that decides are not looked at.
pub fn replay(sent: Result<(), i32>, events: &Vec<WaitOutcome>) -> (r: Option<
    Result<ExitDisposition, TerminationError>,
>)
    ensures
        r == termination_result(sent, events@),
{
    if let Some(error) = signal_error(sent) {
        return Some(Err(error));
    }
    let mut i: usize = 0;
    while i < events.len()
        invariant
            sent is Ok,
            i <= events.len(),
            retries_before(events@, i as int),
        decreases events.len() - i,
    {
        match events[i].verdict() {
            Verdict::Done(disposition) => {
                proof {
                    lemma_first_decisive_outcome(events@, i as int);
                }
                return Some(Ok(disposition));
            },
            Verdict::Failed(error) => {
                proof {
                    lemma_first_decisive_outcome(events@, i as int);
                }
                return Some(Err(error));
            },
            Verdict::Retry => {},
        }
        i = i + 1;
    }
    proof {
        lemma_pending_while_retrying(events@);
    }
    None
}

} // verus!
