//! Whole runs of an operation: what it has executed once a sequence of
//! responses has come in.
use vstd::prelude::*;
use crate::operation::{Action, Progress, Response};
use crate::registers::{Command, Flag};
use crate::script::{bank_swap_script, commands, Step};

verus! {

/// The progress after all of `responses` have come in, one after the other.
pub open spec fn run(progress: Progress, responses: Seq<Response>) -> Progress
    decreases responses.len(),
{
    if responses.len() == 0 {
        progress
    } else {
        run(progress.next(responses[0]), responses.skip(1))
    }
}

/// The command that `response` reports as written to the control register, if
/// it reports one: the pending action was to execute it.
pub open spec fn issues(progress: Progress, response: Response) -> Seq<Command> {
    match progress.action() {
        Action::Execute(command) => if response is Done {
            seq![command]
        } else {
            Seq::empty()
        },
        _ => Seq::empty(),
    }
}

/// The commands written to the control register over a run, in order.
pub open spec fn issued(progress: Progress, responses: Seq<Response>) -> Seq<Command>
    decreases responses.len(),
{
    if responses.len() == 0 {
        Seq::empty()
    } else {
        issues(progress, responses[0]) + issued(
            progress.next(responses[0]),
            responses.skip(1),
        )
    }
}

/// The commands that the remaining steps will still execute if no error ends
/// the operation before.
pub open spec fn pending(progress: Progress) -> Seq<Command> {
    if progress.finished() {
        Seq::empty()
    } else {
        match progress.steps[0] {
            Step::Command(_) => if progress.stage == 0 {
                commands(progress.steps)
            } else {
                commands(progress.steps.skip(1))
            },
            _ => commands(progress.steps),
        }
    }
}

/// Whether `response` ends the operation on an error: it completes a check
/// that found an error flag set.
pub open spec fn fails(progress: Progress, response: Response) -> bool {
    &&& !progress.finished()
    &&& progress.steps[0] is DecodeErrors
    &&& progress.stage >= 3
    &&& response is Done
    &&& progress.outcome is Err
}

/// One response moves at most one command from pending to issued. Only a
/// failing check drops what was pending.
proof fn lemma_next_commands(progress: Progress, response: Response)
    ensures
        fails(progress, response) ==> progress.next(response) == progress.stop(),
        !fails(progress, response) ==> issues(progress, response) + pending(
            progress.next(response),
        ) == pending(progress),
{
    let after = progress.next(response);
    if progress.finished() {
        assert(issues(progress, response) + pending(after) =~= pending(progress));
    } else if !fails(progress, response) {
        let rest = progress.steps.skip(1);
        // What remains once the first step is over is pending as a whole.
        assert(pending(progress.proceed()) == commands(rest)) by {
            if rest.len() == 0 {
            }
        }
        match progress.steps[0] {
            Step::Command(command) => {
                assert(commands(progress.steps) =~= seq![command] + commands(rest));
                assert(issues(progress, response) + pending(after) =~= pending(progress));
            },
            _ => {
                assert(commands(progress.steps) == commands(rest));
                assert(issues(progress, response) + pending(after) =~= pending(progress));
            },
        }
    }
}

/// A finished operation stays as it is, and nothing more is issued.
proof fn lemma_run_finished(progress: Progress, responses: Seq<Response>)
    requires
        progress.finished(),
    ensures
        run(progress, responses) == progress,
        issued(progress, responses) == Seq::<Command>::empty(),
    decreases responses.len(),
{
    if responses.len() > 0 {
        lemma_run_finished(progress, responses.skip(1));
        assert(issued(progress, responses) =~= Seq::<Command>::empty());
    }
}

/// Whatever the hardware answers, and in whatever order the answers come, the
/// commands written to the control register are the first of those that were
/// pending, in their order, and what is pending afterwards follows them. If
/// the run has not met an error the two together are all that was pending:
/// no command is left out and none is issued twice.
pub proof fn lemma_run_commands(progress: Progress, responses: Seq<Response>)
    ensures
        (issued(progress, responses) + pending(run(progress, responses))).is_prefix_of(
            pending(progress),
        ),
        run(progress, responses).outcome is Ok ==> issued(progress, responses) + pending(
            run(progress, responses),
        ) == pending(progress),
    decreases responses.len(),
{
    let end = run(progress, responses);
    if responses.len() == 0 {
        assert(issued(progress, responses) + pending(end) =~= pending(progress));
    } else {
        let response = responses[0];
        let after = progress.next(response);
        let rest = responses.skip(1);
        lemma_next_commands(progress, response);
        lemma_run_commands(after, rest);
        if fails(progress, response) {
            lemma_run_finished(after, rest);
            assert(issued(progress, responses) + pending(end) =~= Seq::<Command>::empty());
        } else {
            let first = issues(progress, response);
            let later = issued(after, rest) + pending(end);
            assert(issued(progress, responses) + pending(end) =~= first + later);
            assert(later.is_prefix_of(pending(after)));
            assert(first + later =~= (first + pending(after)).subrange(
                0,
                (first + later).len() as int,
            ));
        }
    }
}

/// An operation that has run to its end without an error has written exactly
/// the commands of its script to the control register, in the script's order.
pub proof fn lemma_completed_commands(steps: Seq<Step>, responses: Seq<Response>)
    requires
        run(Progress::begin(steps), responses).action() == Action::Complete(Ok(())),
    ensures
        issued(Progress::begin(steps), responses) == commands(steps),
{
    let begin = Progress::begin(steps);
    let end = run(begin, responses);
    lemma_run_commands(begin, responses);
    assert(end.finished());
    assert(issued(begin, responses) + pending(end) =~= issued(begin, responses));
    assert(pending(begin) == commands(steps)) by {
        if steps.len() == 0 {
        }
    }
}

/// Whatever the hardware answers, the commands written to the control
/// register are the first commands of the script, in the script's order, and
/// none besides. An operation that an error has ended has left out the rest.
pub proof fn lemma_issued_prefix(steps: Seq<Step>, responses: Seq<Response>)
    ensures
        issued(Progress::begin(steps), responses).is_prefix_of(commands(steps)),
{
    let begin = Progress::begin(steps);
    let end = run(begin, responses);
    lemma_run_commands(begin, responses);
    assert(issued(begin, responses) =~= (issued(begin, responses) + pending(end)).subrange(
        0,
        issued(begin, responses).len() as int,
    ));
    assert(pending(begin) == commands(steps)) by {
        if steps.len() == 0 {
        }
    }
}

/// Whether `response` is the answer that the operation waits for. A poll
/// waits for its flag: the wait for the controller for the ready flag, the
/// wait for a command for the done flag. The read that decodes the errors
/// polls nothing and takes the flags as they are. Any other access waits to
/// be performed. An operation at its end waits for nothing.
pub open spec fn obliges(progress: Progress, response: Response) -> bool {
    if progress.finished() {
        true
    } else {
        match progress.steps[0] {
            Step::WaitReady => response matches Response::Status(status) && status.ready,
            Step::Command(_) => if progress.stage == 1 {
                response matches Response::InterruptFlags(flags) && flags.done
            } else {
                response is Done
            },
            Step::DecodeErrors => if progress.stage == 0 {
                response is InterruptFlags
            } else {
                response is Done
            },
            Step::Unreachable => true,
            _ => response is Done,
        }
    }
}

/// Whether every one of `responses` is the answer that the operation waits
/// for when it comes in.
pub open spec fn obliging(progress: Progress, responses: Seq<Response>) -> bool
    decreases responses.len(),
{
    responses.len() == 0 || (obliges(progress, responses[0]) && obliging(
        progress.next(responses[0]),
        responses.skip(1),
    ))
}

/// The answers that an operation waits for are those that move it on: any
/// other leaves it as it is, with the same access pending.
pub proof fn lemma_obliges_moves_on(progress: Progress, response: Response)
    requires
        !progress.finished(),
        !(progress.steps[0] is Unreachable),
    ensures
        obliges(progress, response) <==> progress.next(response) != progress,
{
    let after = progress.next(response);
    if obliges(progress, response) {
        if after.steps == progress.steps {
            assert(after.stage != progress.stage);
        } else {
            assert(after.steps.len() != progress.steps.len());
        }
    }
}

/// The register accesses that were asked for over a run, in order: for each
/// response, the action that was pending when it came in. A finished
/// operation asks for none.
pub open spec fn performed(progress: Progress, responses: Seq<Response>) -> Seq<Action>
    decreases responses.len(),
{
    if responses.len() == 0 || progress.finished() {
        Seq::empty()
    } else {
        seq![progress.action()] + performed(progress.next(responses[0]), responses.skip(1))
    }
}

/// The register accesses that a step takes, in order, if each is answered as
/// it waits for.
pub open spec fn step_accesses(step: Step) -> Seq<Action> {
    match step {
        Step::WaitReady => seq![Action::ReadStatus],
        Step::Command(command) => seq![
            Action::Execute(command),
            Action::ReadInterruptFlags,
            Action::ClearFlag(Flag::Done),
        ],
        Step::CopyWord { destination, source } => seq![Action::CopyWord { destination, source }],
        Step::SetAddress(address) => seq![Action::WriteAddress((address % 0x100_0000) as u32)],
        Step::DecodeErrors => seq![
            Action::ReadInterruptFlags,
            Action::ClearFlag(Flag::AddressError),
            Action::ClearFlag(Flag::LockError),
            Action::ClearFlag(Flag::ProgrammingError),
        ],
        Step::SetPowerReductionMode(mode) => seq![Action::SetPowerReductionMode(mode)],
        Step::Unreachable => seq![Action::Fatal],
    }
}

/// The register accesses that a script takes, in order, if each is answered
/// as it waits for and no error ends it.
pub open spec fn accesses(steps: Seq<Step>) -> Seq<Action>
    decreases steps.len(),
{
    if steps.len() == 0 {
        Seq::empty()
    } else {
        step_accesses(steps[0]) + accesses(steps.skip(1))
    }
}

/// The register accesses that an operation still takes, in order, if each is
/// answered as it waits for and no error ends it.
pub open spec fn accesses_ahead(progress: Progress) -> Seq<Action> {
    if progress.finished() {
        Seq::empty()
    } else {
        let first = step_accesses(progress.steps[0]);
        let behind = if progress.stage < first.len() {
            progress.stage as int
        } else {
            first.len() - 1
        };
        first.skip(behind) + accesses(progress.steps.skip(1))
    }
}

/// Whether a script comes to an end: it does not count on a reset of the
/// device.
pub open spec fn terminating(steps: Seq<Step>) -> bool {
    forall|i: int| 0 <= i < steps.len() ==> !(#[trigger] steps[i] is Unreachable)
}

/// The pending action is the first access ahead, and an answer that it waits
/// for leaves the rest ahead, unless it ends the operation on an error.
proof fn lemma_next_accesses(progress: Progress, response: Response)
    requires
        !progress.finished(),
        terminating(progress.steps),
        obliges(progress, response),
    ensures
        terminating(progress.next(response).steps),
        accesses_ahead(progress).len() > 0,
        accesses_ahead(progress)[0] == progress.action(),
        fails(progress, response) ==> progress.next(response) == progress.stop(),
        !fails(progress, response) ==> accesses_ahead(progress.next(response)) == accesses_ahead(
            progress,
        ).skip(1),
{
    let after = progress.next(response);
    let rest = progress.steps.skip(1);
    let first = step_accesses(progress.steps[0]);
    assert(!(progress.steps[0] is Unreachable));
    assert(terminating(rest)) by {
        assert forall|i: int| 0 <= i < rest.len() implies !(#[trigger] rest[i] is Unreachable) by {
            assert(rest[i] == progress.steps[i + 1]);
        }
    }
    assert(accesses_ahead(progress.proceed()) =~= accesses(rest)) by {
        if rest.len() > 0 {
            assert(step_accesses(rest[0]).skip(0) =~= step_accesses(rest[0]));
        }
    }
    if !fails(progress, response) {
        assert(accesses_ahead(after) =~= accesses_ahead(progress).skip(1));
    }
}

/// If every access is answered as it waits for, the accesses asked for are
/// the first of those that were ahead, in their order, and what is ahead
/// afterwards follows them. If the run has not met an error the two together
/// are all that was ahead: no access is left out and none is asked for twice.
pub proof fn lemma_run_accesses(progress: Progress, responses: Seq<Response>)
    requires
        terminating(progress.steps),
        obliging(progress, responses),
    ensures
        (performed(progress, responses) + accesses_ahead(run(progress, responses))).is_prefix_of(
            accesses_ahead(progress),
        ),
        run(progress, responses).outcome is Ok ==> performed(progress, responses)
            + accesses_ahead(run(progress, responses)) == accesses_ahead(progress),
    decreases responses.len(),
{
    let end = run(progress, responses);
    if responses.len() == 0 {
        assert(performed(progress, responses) + accesses_ahead(end) =~= accesses_ahead(progress));
    } else if progress.finished() {
        lemma_run_finished(progress, responses);
        assert(performed(progress, responses) + accesses_ahead(end) =~= accesses_ahead(progress));
    } else {
        let response = responses[0];
        let after = progress.next(response);
        let rest = responses.skip(1);
        let first = seq![progress.action()];
        lemma_next_accesses(progress, response);
        lemma_run_accesses(after, rest);
        if fails(progress, response) {
            lemma_run_finished(after, rest);
            assert(performed(after, rest) =~= Seq::<Action>::empty()) by {
                if rest.len() > 0 {
                }
            }
            assert(performed(progress, responses) + accesses_ahead(end) =~= first);
            assert(first =~= accesses_ahead(progress).subrange(0, 1));
        } else {
            let later = performed(after, rest) + accesses_ahead(end);
            assert(performed(progress, responses) + accesses_ahead(end) =~= first + later);
            assert(later.is_prefix_of(accesses_ahead(after)));
            assert(accesses_ahead(progress) =~= first + accesses_ahead(after));
            assert(first + later =~= (first + accesses_ahead(after)).subrange(
                0,
                (first + later).len() as int,
            ));
        }
    }
}

/// An operation that has run to its end without an error, each access
/// answered as it waited for, has asked for exactly the accesses of its
/// script, in the script's order, and each of them once.
pub proof fn lemma_completed_accesses(steps: Seq<Step>, responses: Seq<Response>)
    requires
        terminating(steps),
        obliging(Progress::begin(steps), responses),
        run(Progress::begin(steps), responses).action() == Action::Complete(Ok(())),
    ensures
        performed(Progress::begin(steps), responses) == accesses(steps),
{
    let begin = Progress::begin(steps);
    let end = run(begin, responses);
    lemma_run_accesses(begin, responses);
    assert(end.finished());
    assert(performed(begin, responses) + accesses_ahead(end) =~= performed(begin, responses));
    assert(accesses_ahead(begin) =~= accesses(steps)) by {
        if steps.len() > 0 {
            assert(step_accesses(steps[0]).skip(0) =~= step_accesses(steps[0]));
        }
    }
}

/// If every access is answered as it waits for, an operation that does not
/// count on a reset is over after as many accesses as it had ahead, at the
/// latest.
pub proof fn lemma_obliging_run_completes(progress: Progress, responses: Seq<Response>)
    requires
        terminating(progress.steps),
        obliging(progress, responses),
        responses.len() >= accesses_ahead(progress).len(),
    ensures
        run(progress, responses).finished(),
    decreases responses.len(),
{
    if progress.finished() {
        lemma_run_finished(progress, responses);
    } else {
        lemma_next_accesses(progress, responses[0]);
        lemma_obliging_run_completes(progress.next(responses[0]), responses.skip(1));
    }
}

/// A bank swap never comes to an end, whatever the hardware answers: the
/// device resets, or the operation stays at its fatal end.
pub proof fn lemma_bank_swap_never_completes(responses: Seq<Response>)
    ensures
        !run(Progress::begin(bank_swap_script()), responses).finished(),
{
    lemma_unreachable_stays(Progress::begin(bank_swap_script()), responses);
}

/// An operation whose last step is never reached, and that decodes no errors
/// before, does not finish.
proof fn lemma_unreachable_stays(progress: Progress, responses: Seq<Response>)
    requires
        progress.steps.len() > 0,
        progress.steps.last() is Unreachable,
        forall|i: int|
            0 <= i < progress.steps.len() ==> !(#[trigger] progress.steps[i] is DecodeErrors),
    ensures
        !run(progress, responses).finished(),
    decreases responses.len(),
{
    if responses.len() > 0 {
        let after = progress.next(responses[0]);
        if after.steps != progress.steps {
            assert(after.steps == progress.steps.skip(1));
            assert(!(progress.steps[0] is Unreachable));
            assert forall|i: int| 0 <= i < after.steps.len() implies !(
            #[trigger] after.steps[i] is DecodeErrors) by {
                assert(after.steps[i] == progress.steps[i + 1]);
            }
        }
        lemma_unreachable_stays(after, responses.skip(1));
    }
}

} // verus!
