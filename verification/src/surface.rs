//! The prompt surface: when it opens, and when it goes.
//!
//! The agent sends its events to the prompt surface in order. The
//! surface is opened by the first prompt of an attempt, kept for the prompts
//! that follow, and closed at the attempt's end, so that at most one is open
//! at any time and none stays behind. Each prompt is answered once, by a
//! reply or by a cancellation.

use vstd::prelude::*;

verus! {

/// What the agent sends to the prompt surface. A password prompt travels
/// with the channel for the reply and the handle for calling the attempt off;
/// the surface answers each with one reply or one cancellation.
#[derive(Clone, Copy, Debug, PartialEq, Eq, Structural)]
pub enum PromptEvent {
    /// Ask for a masked input.
    PromptPassword,
    /// Ask for a fingerprint. No line of the helper leads to it yet.
    PromptFingerprint,
    /// The attempt is over.
    End,
}

/// What the prompt surface does about an event.
#[derive(Clone, Copy, Debug, PartialEq, Eq, Structural)]
pub enum Change {
    /// Open a surface and show the prompt on it.
    Open,
    /// Show the prompt on the surface that is open.
    Reuse,
    /// Close the surface that is open.
    Close,
    /// Nothing: no surface is open.
    Nothing,
}

/// What is done about `event` while a surface is open or not, and whether
/// one is open afterwards.
pub open spec fn shown(open: bool, event: PromptEvent) -> (bool, Change) {
    match event {
        PromptEvent::End => (false, if open { Change::Close } else { Change::Nothing }),
        _ => (true, if open { Change::Reuse } else { Change::Open }),
    }
}

/// Whether a surface is open after `events`, in their order.
pub open spec fn open_after(open: bool, events: Seq<PromptEvent>) -> bool
    decreases events.len(),
{
    if events.len() == 0 {
        open
    } else {
        shown(open_after(open, events.drop_last()), events.last()).0
    }
}

/// Decides what the prompt surface does about `event`, and whether a
/// surface is open afterwards.
pub fn show(open: bool, event: PromptEvent) -> (r: (bool, Change))
    ensures
        r == shown(open, event),
{
    match event {
        PromptEvent::End => (false, if open { Change::Close } else { Change::Nothing }),
        _ => (true, if open { Change::Reuse } else { Change::Open }),
    }
}

/// Whether an answer of the user to a prompt is passed on, a reply to the
/// helper or a cancellation to the attempt: the first is, and no other.
pub open spec fn passed_on(answered: bool) -> bool {
    !answered
}

/// Takes an answer of the user to a prompt that was or was not answered
/// before: the prompt is answered from now on, and the answer is passed on
/// if it is the first.
pub fn take_answer(answered: bool) -> (r: (bool, bool))
    ensures
        r.0,
        r.1 == passed_on(answered),
{
    (true, !answered)
}

/// How many of `answers` answers to one prompt are passed on, the prompt
/// having been answered before or not.
pub open spec fn answers_passed_on(answered: bool, answers: nat) -> nat
    decreases answers,
{
    if answers == 0 {
        0
    } else if passed_on(answered) {
        1 + answers_passed_on(true, (answers - 1) as nat)
    } else {
        answers_passed_on(true, (answers - 1) as nat)
    }
}

/// A prompt is answered once: however often the user replies or cancels,
/// one answer is passed on, the first, and never both a reply and a
/// cancellation.
pub proof fn law_one_answer_per_prompt(answers: nat)
    ensures
        answers_passed_on(true, answers) == 0,
        answers > 0 ==> answers_passed_on(false, answers) == 1,
        answers_passed_on(false, 0) == 0,
    decreases answers,
{
    if answers > 0 {
        law_one_answer_per_prompt((answers - 1) as nat);
    }
}

/// A surface is opened only while none is open, and after the end of an
/// attempt none is open, whatever was requested before.
pub proof fn law_one_surface_at_most(open: bool, events: Seq<PromptEvent>, event: PromptEvent)
    ensures
        shown(open, event).1 is Open ==> !open,
        !open ==> !(shown(open, event).1 is Reuse) && !(shown(open, event).1 is Close),
        !open_after(open, events.push(PromptEvent::End)),
{
    let all = events.push(PromptEvent::End);
    assert(all.last() == PromptEvent::End);
}

} // verus!
