//! One agent turn: how many replies it may act on, what the model is told
//! after each tool request, and the prompt that asks for a task plan.

use crate::heisenberg::actions::{ActionView, AgentAction};
use crate::text::{owned, push_str};
use vstd::prelude::*;

verus! {

/// The most replies one request may act on before the agent stops.
pub const MAX_ITERATIONS: u32 = 10;

/// How far a turn has gone: the number of replies asked for so far.
#[derive(Debug, Clone, Copy, PartialEq, Eq, Structural)]
pub struct Turn {
    pub replies: u32,
}

/// What the agent does next in a turn.
#[derive(Debug, Clone, Copy, PartialEq, Eq, Structural)]
pub enum TurnStep {
    /// Ask the model for another reply.
    Generate,
    /// The turn has used up its replies: stop with a notice.
    Exhausted,
}

impl Turn {
    /// A turn before its first reply.
    pub fn new() -> (t: Turn)
        ensures
            t.replies == 0,
    {
        Turn { replies: 0 }
    }

    /// Before asking for a reply: `Exhausted` once `MAX_ITERATIONS` replies
    /// were asked for (the count stays), else `Generate` and one more reply
    /// is counted.
    pub fn request(&mut self) -> (s: TurnStep)
        ensures
            (*final(self), s) == after_request(*old(self)),
    {
        if self.replies >= MAX_ITERATIONS {
            TurnStep::Exhausted
        } else {
            self.replies = self.replies + 1;
            TurnStep::Generate
        }
    }
}

/// The turn and the step after a request for a reply.
pub open spec fn after_request(t: Turn) -> (Turn, TurnStep) {
    if t.replies >= MAX_ITERATIONS {
        (t, TurnStep::Exhausted)
    } else {
        (Turn { replies: (t.replies + 1) as u32 }, TurnStep::Generate)
    }
}

/// A turn that starts within its bound stays within it: requests are
/// granted while fewer than `MAX_ITERATIONS` replies were asked for and
/// refused from then on, so no turn acts on more than `MAX_ITERATIONS`.
pub proof fn lemma_turn_is_bounded(t: Turn)
    requires
        t.replies <= MAX_ITERATIONS,
    ensures
        after_request(t).0.replies <= MAX_ITERATIONS,
        after_request(t).1 == TurnStep::Exhausted <==> t.replies == MAX_ITERATIONS,
        after_request(t).1 == TurnStep::Generate ==> after_request(t).0.replies == t.replies + 1,
{
}

/// How a requested tool action went.
#[derive(Debug)]
pub enum Outcome {
    /// Carried out; the detail that is reported back (a run's summary line,
    /// the path of a capture).
    Done(String),
    /// The command ran and failed; what it wrote to standard error.
    Unsuccessful(String),
    /// The action could not be carried out; the error's text.
    Error(String),
}

/// The mathematical content of an outcome.
pub enum OutcomeView {
    Done(Seq<char>),
    Unsuccessful(Seq<char>),
    Error(Seq<char>),
}

impl View for Outcome {
    type V = OutcomeView;

    open spec fn view(&self) -> OutcomeView {
        match self {
            Outcome::Done(d) => OutcomeView::Done(d@),
            Outcome::Unsuccessful(e) => OutcomeView::Unsuccessful(e@),
            Outcome::Error(e) => OutcomeView::Error(e@),
        }
    }
}

/// The text carried by an outcome.
pub open spec fn outcome_text(o: OutcomeView) -> Seq<char> {
    match o {
        OutcomeView::Done(d) => d,
        OutcomeView::Unsuccessful(e) => e,
        OutcomeView::Error(e) => e,
    }
}

/// What the model is told after an action: a run is reported by its summary
/// (or the error), a navigation, capture, write or delete by a sentence
/// naming its target, an edit by success, the command's standard error or
/// the error, and a patch by whether it passed validation. A reply that asked
/// for nothing gets nothing.
pub open spec fn feedback_text(a: ActionView, o: OutcomeView) -> Seq<char> {
    match a {
        ActionView::Execute(_) => match o {
            OutcomeView::Error(e) => "Error: "@ + e,
            _ => outcome_text(o),
        },
        ActionView::Browse(url) => match o {
            OutcomeView::Done(_) => "Successfully navigated to "@ + url,
            _ => "Error navigating to "@ + url + ": "@ + outcome_text(o),
        },
        ActionView::CaptureScreen => match o {
            OutcomeView::Done(path) => "Screen captured at "@ + path,
            _ => "Error capturing screen: "@ + outcome_text(o),
        },
        ActionView::WriteFile(path, _) => match o {
            OutcomeView::Done(_) => "Successfully wrote to "@ + path,
            _ => "Failed to write to "@ + path + ": "@ + outcome_text(o),
        },
        ActionView::DeleteFile(path) => match o {
            OutcomeView::Done(_) => "Successfully deleted "@ + path,
            _ => "Failed to delete "@ + path + ": "@ + outcome_text(o),
        },
        ActionView::EditFile(path, _, _) => match o {
            OutcomeView::Done(_) => "Successfully edited "@ + path,
            OutcomeView::Unsuccessful(e) => "Failed to edit "@ + path + ": "@ + e,
            OutcomeView::Error(e) => "Edit error: "@ + e,
        },
        ActionView::Patch(_) => match o {
            OutcomeView::Done(_) => "Successfully applied self-modification patch and passed validation."@,
            _ => "Failed to apply patch or tests failed: "@ + outcome_text(o),
        },
        ActionView::Done => Seq::empty(),
    }
}

fn outcome_str(o: &Outcome) -> (s: &str)
    ensures
        s@ == outcome_text(o@),
{
    match o {
        Outcome::Done(d) => d.as_str(),
        Outcome::Unsuccessful(e) => e.as_str(),
        Outcome::Error(e) => e.as_str(),
    }
}

fn sentence(head: &str, target: &str) -> (s: String)
    ensures
        s@ == head@ + target@,
{
    let mut s = owned(head);
    push_str(&mut s, target);
    s
}

fn failure(head: &str, target: &str, detail: &str) -> (s: String)
    ensures
        s@ == head@ + target@ + ": "@ + detail@,
{
    let mut s = owned(head);
    push_str(&mut s, target);
    push_str(&mut s, ": ");
    push_str(&mut s, detail);
    s
}

/// The system message that reports an action's outcome to the model.
pub fn feedback(action: &AgentAction, outcome: &Outcome) -> (s: String)
    ensures
        s@ == feedback_text(action@, outcome@),
{
    let detail = outcome_str(outcome);
    match action {
        AgentAction::Execute(_) => match outcome {
            Outcome::Error(e) => sentence("Error: ", e.as_str()),
            _ => owned(detail),
        },
        AgentAction::Browse(url) => match outcome {
            Outcome::Done(_) => sentence("Successfully navigated to ", url.as_str()),
            _ => failure("Error navigating to ", url.as_str(), detail),
        },
        AgentAction::CaptureScreen => match outcome {
            Outcome::Done(path) => sentence("Screen captured at ", path.as_str()),
            _ => sentence("Error capturing screen: ", detail),
        },
        AgentAction::WriteFile { path, .. } => match outcome {
            Outcome::Done(_) => sentence("Successfully wrote to ", path.as_str()),
            _ => failure("Failed to write to ", path.as_str(), detail),
        },
        AgentAction::DeleteFile(path) => match outcome {
            Outcome::Done(_) => sentence("Successfully deleted ", path.as_str()),
            _ => failure("Failed to delete ", path.as_str(), detail),
        },
        AgentAction::EditFile { path, .. } => match outcome {
            Outcome::Done(_) => sentence("Successfully edited ", path.as_str()),
            Outcome::Unsuccessful(e) => failure("Failed to edit ", path.as_str(), e.as_str()),
            Outcome::Error(e) => sentence("Edit error: ", e.as_str()),
        },
        AgentAction::Patch(_) => match outcome {
            Outcome::Done(_) => owned(
                "Successfully applied self-modification patch and passed validation.",
            ),
            _ => sentence("Failed to apply patch or tests failed: ", detail),
        },
        AgentAction::Done => String::new(),
    }
}

/// The request that asks the model to break a task into shell steps.
pub open spec fn planning_text(task: Seq<char>) -> Seq<char> {
    "Break down the task below into concrete executable steps. For each step, provide a bash command in <execute></execute> tags. Be precise and sequential.\n\nTask: "@
        + task
}

/// The planning request for an autonomous task.
pub fn planning_prompt(task: &str) -> (s: String)
    ensures
        s@ == planning_text(task@),
{
    sentence(
        "Break down the task below into concrete executable steps. For each step, provide a bash command in <execute></execute> tags. Be precise and sequential.\n\nTask: ",
        task,
    )
}

} // verus!
