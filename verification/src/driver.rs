//! The conversation with the helper, one decision at a time.
//!
//! A conversation waits on the helper's pipes, on the prompt surface, on a
//! cancellation and in the end on the helper's exit. The waiting is done by
//! the program around this library; what to do next is decided here. The
//! program performs an [`Action`], reports what came of it in a [`Report`],
//! and [`step`] answers with the next action, until that is
//! [`Action::Return`].
//!
//! A conversation starts by writing the cookie. It then loops: a line of the
//! helper is read and acted on, a credential from the prompt surface is passed
//! on, a cancellation ends the loop. Only a line that reads `SUCCESS` ends it
//! in success; a helper that closes its output without one has failed.
//! However the loop ends, the helper is then given a grace period to exit and
//! is killed if it outlives it; only then does the conversation return its
//! result. A helper that could not be started has nothing to see off: such a
//! conversation is over before it began, and returns `Failed`.

use crate::error::PolkitError;
use crate::helper_line::{
    handle_helper_line, helper_input, line_step, parsed, HelperToken, LineStep,
};
use vstd::prelude::*;

verus! {

/// The seconds that the helper has to exit by itself once the loop is over.
pub const GRACE_PERIOD_SECS: u64 = 1;

/// Where a conversation stands.
#[derive(Debug, PartialEq, Eq)]
pub enum Phase {
    /// A line is being written to the helper: the cookie or a credential.
    Writing,
    /// In the loop, waiting for whichever comes first: a line of the helper,
    /// a credential, a cancellation.
    Waiting,
    /// A masked prompt is being handed to the prompt surface.
    Prompting,
    /// The loop is over with this result, and the helper has the grace
    /// period to exit.
    Draining(Result<(), PolkitError>),
    /// The helper outlived the grace period and is being killed.
    Killing(Result<(), PolkitError>),
    /// The helper is gone, and this is the conversation's result.
    Finished(Result<(), PolkitError>),
}

/// What happened outside since the last action.
#[derive(Clone, Debug, PartialEq, Eq)]
pub enum Report {
    /// The line was written to the helper.
    Written,
    /// The line could not be written to the helper.
    WriteFailed,
    /// The helper wrote this line.
    Line(String),
    /// The helper's output has ended.
    EndOfOutput,
    /// The helper's output could not be read.
    ReadFailed,
    /// The prompt surface delivered this credential.
    Credential(String),
    /// Cancellation was signalled.
    Cancelled,
    /// The prompt surface has the prompt.
    Prompted,
    /// The prompt could not be handed to the prompt surface.
    PromptFailed,
    /// The helper exited within the grace period.
    Exited,
    /// The grace period passed and the helper is still there.
    GraceElapsed,
    /// The helper was killed and reaped.
    Killed,
    /// The helper could not be killed.
    KillFailed,
}

/// What the program is to do next.
#[derive(Debug, PartialEq, Eq)]
pub enum Action {
    /// Write this text to the helper's input, then report `Written` or
    /// `WriteFailed`.
    Write(String),
    /// Wait for a line of the helper, a credential or a cancellation, and
    /// report the first that comes.
    Await,
    /// Hand a masked prompt to the prompt surface, then report `Prompted` or
    /// `PromptFailed`.
    Prompt,
    /// Wait for the helper to exit, for the grace period at most, then
    /// report `Exited` or `GraceElapsed`.
    Reap,
    /// Kill the helper and reap it, then report `Killed` or `KillFailed`.
    Kill,
    /// Return this result: the conversation is over.
    Return(Result<(), PolkitError>),
}

impl Copy for Phase {

}

impl Clone for Phase {
    fn clone(&self) -> (r: Self)
        ensures
            r == *self,
    {
        *self
    }
}

/// A [`Report`] with its texts as sequences of characters.
pub enum ReportView {
    Written,
    WriteFailed,
    Line(Seq<char>),
    EndOfOutput,
    ReadFailed,
    Credential(Seq<char>),
    Cancelled,
    Prompted,
    PromptFailed,
    Exited,
    GraceElapsed,
    Killed,
    KillFailed,
}

/// An [`Action`] with its text as a sequence of characters.
pub enum ActionView {
    Write(Seq<char>),
    Await,
    Prompt,
    Reap,
    Kill,
    Return(Result<(), PolkitError>),
}

impl View for Report {
    type V = ReportView;

    open spec fn view(&self) -> ReportView {
        match *self {
            Report::Written => ReportView::Written,
            Report::WriteFailed => ReportView::WriteFailed,
            Report::Line(text) => ReportView::Line(text@),
            Report::EndOfOutput => ReportView::EndOfOutput,
            Report::ReadFailed => ReportView::ReadFailed,
            Report::Credential(text) => ReportView::Credential(text@),
            Report::Cancelled => ReportView::Cancelled,
            Report::Prompted => ReportView::Prompted,
            Report::PromptFailed => ReportView::PromptFailed,
            Report::Exited => ReportView::Exited,
            Report::GraceElapsed => ReportView::GraceElapsed,
            Report::Killed => ReportView::Killed,
            Report::KillFailed => ReportView::KillFailed,
        }
    }
}

impl View for Action {
    type V = ActionView;

    open spec fn view(&self) -> ActionView {
        match *self {
            Action::Write(text) => ActionView::Write(text@),
            Action::Await => ActionView::Await,
            Action::Prompt => ActionView::Prompt,
            Action::Reap => ActionView::Reap,
            Action::Kill => ActionView::Kill,
            Action::Return(result) => ActionView::Return(result),
        }
    }
}

impl Phase {
    /// Whether the loop is over: its result stands, and what is left is to
    /// see the helper off.
    pub open spec fn loop_over(self) -> bool {
        self is Draining || self is Killing || self is Finished
    }

    /// The result that the conversation has arrived at, once its loop is
    /// over.
    pub open spec fn verdict(self) -> Option<Result<(), PolkitError>> {
        match self {
            Phase::Draining(result) => Some(result),
            Phase::Killing(result) => Some(result),
            Phase::Finished(result) => Some(result),
            _ => None,
        }
    }
}

/// `result`, unless it is a success: then failure. Something went wrong
/// while the helper was seen off.
pub open spec fn spoiled(result: Result<(), PolkitError>) -> Result<(), PolkitError> {
    match result {
        Ok(_) => Err(PolkitError::Failed),
        Err(e) => Err(e),
    }
}

/// The loop ends with `result`: the helper gets its grace period.
pub open spec fn leave_loop(result: Result<(), PolkitError>) -> (Phase, ActionView) {
    (Phase::Draining(result), ActionView::Reap)
}

/// What follows a line of the helper, or the end of its output, once it is
/// decided what that asks for.
pub open spec fn after_line(step: Result<LineStep, PolkitError>) -> (Phase, ActionView) {
    match step {
        Ok(LineStep::Prompt) => (Phase::Prompting, ActionView::Prompt),
        Ok(LineStep::Continue) => (Phase::Waiting, ActionView::Await),
        Ok(LineStep::Stop) => leave_loop(Ok(())),
        Err(e) => leave_loop(Err(e)),
    }
}

/// The phase and the action that follow `report` in `phase`.
///
/// In the loop, a cancellation always ends it with `Cancelled`. Any other
/// report that the phase did not ask for ends the loop with `Failed`, as a
/// failed write, read or prompt does. Once the loop is over its result
/// stands, except that a success turns into `Failed` where the helper cannot
/// be killed or a report comes out of turn.
pub open spec fn next(phase: Phase, report: ReportView) -> (Phase, ActionView) {
    match phase {
        Phase::Writing => match report {
            ReportView::Written => (Phase::Waiting, ActionView::Await),
            ReportView::Cancelled => leave_loop(Err(PolkitError::Cancelled)),
            _ => leave_loop(Err(PolkitError::Failed)),
        },
        Phase::Waiting => match report {
            ReportView::Line(text) => after_line(line_step(Some(text))),
            ReportView::EndOfOutput => after_line(line_step(None)),
            ReportView::Credential(text) => (Phase::Writing, ActionView::Write(text.push('\n'))),
            ReportView::Cancelled => leave_loop(Err(PolkitError::Cancelled)),
            _ => leave_loop(Err(PolkitError::Failed)),
        },
        Phase::Prompting => match report {
            ReportView::Prompted => (Phase::Waiting, ActionView::Await),
            ReportView::Cancelled => leave_loop(Err(PolkitError::Cancelled)),
            _ => leave_loop(Err(PolkitError::Failed)),
        },
        Phase::Draining(result) => match report {
            ReportView::Exited => (Phase::Finished(result), ActionView::Return(result)),
            ReportView::GraceElapsed => (Phase::Killing(result), ActionView::Kill),
            _ => (Phase::Killing(spoiled(result)), ActionView::Kill),
        },
        Phase::Killing(result) => match report {
            ReportView::Killed => (Phase::Finished(result), ActionView::Return(result)),
            _ => (Phase::Finished(spoiled(result)), ActionView::Return(spoiled(result))),
        },
        Phase::Finished(result) => (Phase::Finished(result), ActionView::Return(result)),
    }
}

/// The phase that `reports`, in their order, lead to from `phase`.
pub open spec fn run(phase: Phase, reports: Seq<ReportView>) -> Phase
    decreases reports.len(),
{
    if reports.len() == 0 {
        phase
    } else {
        run(next(phase, reports.first()).0, reports.drop_first())
    }
}

/// Opens a conversation with a helper that has just been started: the cookie
/// is written to it, on a line of its own.
pub fn start(cookie: &str) -> (r: (Phase, Action))
    ensures
        r.0 == Phase::Writing,
        r.1@ == ActionView::Write(cookie@.push('\n')),
{
    (Phase::Writing, Action::Write(helper_input(cookie)))
}

/// Closes a conversation whose helper could not be started: there is no
/// helper to talk to or to see off, and the result is `Failed`.
pub fn start_failed() -> (r: (Phase, Action))
    ensures
        r.0 == Phase::Finished(Err(PolkitError::Failed)),
        r.1@ == ActionView::Return(Err(PolkitError::Failed)),
{
    (Phase::Finished(Err(PolkitError::Failed)), Action::Return(Err(PolkitError::Failed)))
}

fn spoil(result: Result<(), PolkitError>) -> (r: Result<(), PolkitError>)
    ensures
        r == spoiled(result),
{
    match result {
        Ok(_) => Err(PolkitError::Failed),
        Err(e) => Err(e),
    }
}

fn leave(result: Result<(), PolkitError>) -> (r: (Phase, Action))
    ensures
        r.0 == leave_loop(result).0,
        r.1@ == leave_loop(result).1,
{
    (Phase::Draining(result), Action::Reap)
}

fn go_on(step: Result<LineStep, PolkitError>) -> (r: (Phase, Action))
    ensures
        r.0 == after_line(step).0,
        r.1@ == after_line(step).1,
{
    match step {
        Ok(LineStep::Prompt) => (Phase::Prompting, Action::Prompt),
        Ok(LineStep::Continue) => (Phase::Waiting, Action::Await),
        Ok(LineStep::Stop) => leave(Ok(())),
        Err(e) => leave(Err(e)),
    }
}

/// Decides what follows `report` in `phase`: the next phase, and what the
/// program is to do now.
pub fn step(phase: Phase, report: Report) -> (r: (Phase, Action))
    ensures
        r.0 == next(phase, report@).0,
        r.1@ == next(phase, report@).1,
{
    match phase {
        Phase::Writing => match report {
            Report::Written => (Phase::Waiting, Action::Await),
            Report::Cancelled => leave(Err(PolkitError::Cancelled)),
            _ => leave(Err(PolkitError::Failed)),
        },
        Phase::Waiting => match report {
            Report::Line(text) => go_on(handle_helper_line(Some(text.as_str()))),
            Report::EndOfOutput => go_on(handle_helper_line(None)),
            Report::Credential(text) => (Phase::Writing, Action::Write(helper_input(text.as_str()))),
            Report::Cancelled => leave(Err(PolkitError::Cancelled)),
            _ => leave(Err(PolkitError::Failed)),
        },
        Phase::Prompting => match report {
            Report::Prompted => (Phase::Waiting, Action::Await),
            Report::Cancelled => leave(Err(PolkitError::Cancelled)),
            _ => leave(Err(PolkitError::Failed)),
        },
        Phase::Draining(result) => match report {
            Report::Exited => (Phase::Finished(result), Action::Return(result)),
            Report::GraceElapsed => (Phase::Killing(result), Action::Kill),
            _ => (Phase::Killing(spoil(result)), Action::Kill),
        },
        Phase::Killing(result) => match report {
            Report::Killed => (Phase::Finished(result), Action::Return(result)),
            _ => {
                let worse = spoil(result);
                (Phase::Finished(worse), Action::Return(worse))
            },
        },
        Phase::Finished(result) => (Phase::Finished(result), Action::Return(result)),
    }
}

/// Once the loop is over with an error, that error is the conversation's
/// result, whatever happens while the helper is seen off.
pub proof fn law_error_stands(phase: Phase, error: PolkitError, reports: Seq<ReportView>)
    requires
        phase.verdict() == Some(Err::<(), PolkitError>(error)),
    ensures
        run(phase, reports).verdict() == Some(Err::<(), PolkitError>(error)),
    decreases reports.len(),
{
    if reports.len() > 0 {
        law_error_stands(next(phase, reports.first()).0, error, reports.drop_first());
    }
}

/// A cancellation that reaches a conversation whose loop is not over ends
/// the loop at once, and the conversation's result is `Cancelled`, whatever
/// the helper does afterwards.
pub proof fn law_cancellation_is_final(phase: Phase, later: Seq<ReportView>)
    requires
        !phase.loop_over(),
    ensures
        next(phase, ReportView::Cancelled) == leave_loop(Err(PolkitError::Cancelled)),
        run(phase, seq![ReportView::Cancelled] + later).verdict() == Some(
            Err::<(), PolkitError>(PolkitError::Cancelled),
        ),
{
    let reports = seq![ReportView::Cancelled] + later;
    assert(reports.first() == ReportView::Cancelled);
    assert(reports.drop_first() =~= later);
    law_error_stands(Phase::Draining(Err(PolkitError::Cancelled)), PolkitError::Cancelled, later);
}

/// No result is returned before the helper is gone: a conversation returns
/// only after the helper exited within the grace period or after an attempt
/// to kill it. A helper that outlives the grace period is killed.
pub proof fn law_helper_is_seen_off(phase: Phase, report: ReportView)
    ensures
        next(phase, report).1 is Return ==> phase is Finished || phase is Killing || (
        phase is Draining && report is Exited),
        next(phase, report).0 is Finished <==> next(phase, report).1 is Return,
        phase is Draining && report is GraceElapsed ==> next(phase, report).1 is Kill,
        !phase.loop_over() ==> (next(phase, report).0.loop_over() <==> next(phase, report).1 is Reap),
{
}

/// Once the loop is over, two reports end the conversation, whichever they
/// are.
pub proof fn law_teardown_is_short(phase: Phase, first: ReportView, second: ReportView)
    requires
        phase.loop_over(),
    ensures
        run(phase, seq![first, second]) is Finished,
{
    let reports = seq![first, second];
    let middle = next(phase, first).0;
    assert(reports.first() == first);
    assert(reports.drop_first() =~= seq![second]);
    assert(seq![second].first() == second);
    assert(seq![second].drop_first() =~= Seq::<ReportView>::empty());
    assert(run(next(middle, second).0, Seq::<ReportView>::empty()) == next(middle, second).0);
    assert(run(middle, seq![second]) == next(middle, second).0);
}

/// Whether `report` is the helper's word that it has accepted the
/// credential: a line that reads `SUCCESS`.
pub open spec fn ends_well(report: ReportView) -> bool {
    report matches ReportView::Line(text) && parsed(text).0 == HelperToken::Success
}

/// A loop ends in success only on a line that reads `SUCCESS`, read while
/// the loop waits. The end of the helper's output ends the loop in failure.
pub proof fn law_success_is_the_helpers(phase: Phase, report: ReportView)
    requires
        !phase.loop_over(),
        next(phase, report).0.verdict() == Some(Ok::<(), PolkitError>(())),
    ensures
        phase is Waiting,
        ends_well(report),
        next(Phase::Waiting, ReportView::EndOfOutput) == leave_loop(Err(PolkitError::Failed)),
{
}

/// A conversation that arrives at success has read a `SUCCESS` line: among
/// the reports that led there is a line of the helper that reads `SUCCESS`.
pub proof fn law_no_success_without_the_helper(phase: Phase, reports: Seq<ReportView>) -> (at: int)
    requires
        !phase.loop_over(),
        run(phase, reports).verdict() == Some(Ok::<(), PolkitError>(())),
    ensures
        0 <= at < reports.len(),
        ends_well(reports[at]),
    decreases reports.len(),
{
    let after = next(phase, reports.first()).0;
    let rest = reports.drop_first();
    if after.loop_over() {
        match after.verdict() {
            Some(Err(e)) => {
                law_error_stands(after, e, rest);
            },
            _ => {},
        }
        law_success_is_the_helpers(phase, reports.first());
        0
    } else {
        let at = law_no_success_without_the_helper(after, rest);
        assert(rest[at] == reports[at + 1]);
        at + 1
    }
}

/// Every action has its cause. Only a credential from the prompt surface is
/// written to the helper once the conversation is open, and it is written as
/// it came, on a line of its own; the user is asked only when the helper
/// asks for a masked input.
pub proof fn law_actions_have_causes(phase: Phase, report: ReportView)
    ensures
        next(phase, report).1 matches ActionView::Write(written) ==> phase is Waiting && (
        report matches ReportView::Credential(text) && written == text.push('\n')),
        next(phase, report).1 is Prompt ==> phase is Waiting && (
        report matches ReportView::Line(text) && line_step(Some(text)) == Ok::<
            LineStep,
            PolkitError,
        >(LineStep::Prompt)),
{
}

} // verus!
