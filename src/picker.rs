use vstd::prelude::*;

verus! {

/// How one native "choose a directory" dialog ended.
pub enum DialogOutcome {
    /// The user confirmed a directory; its path as text.
    Selected(String),
    /// The user closed or dismissed the dialog without a choice.
    Cancelled,
}

/// The one way the command can fail.
#[derive(Clone, Copy, Debug, PartialEq, Eq, Structural)]
pub enum PickError {
    SelectionCancelled,
}

/// The fixed text that a cancelled selection is reported with.
pub open spec fn cancelled_text() -> Seq<char> {
    "Folder not chosen"@
}

/// A dialog outcome as a mathematical value: the chosen path, if any.
pub open spec fn outcome_view(outcome: DialogOutcome) -> Option<Seq<char>> {
    match outcome {
        DialogOutcome::Selected(p) => Some(p@),
        DialogOutcome::Cancelled => None,
    }
}

/// What the command replies to a dialog outcome: the chosen path itself, or
/// the cancellation text.
pub open spec fn reply_of(choice: Option<Seq<char>>) -> Result<Seq<char>, Seq<char>> {
    match choice {
        Some(p) => Ok(p),
        None => Err(cancelled_text()),
    }
}

/// A reply as a mathematical value.
pub open spec fn reply_view(r: Result<String, String>) -> Result<Seq<char>, Seq<char>> {
    match r {
        Ok(p) => Ok(p@),
        Err(m) => Err(m@),
    }
}

impl PickError {
    pub open spec fn message_spec(&self) -> Seq<char> {
        match self {
            PickError::SelectionCancelled => cancelled_text(),
        }
    }

    /// The human-readable text of the error.
    pub fn message(&self) -> (r: String)
        ensures
            r@ == self.message_spec(),
    {
        match self {
            PickError::SelectionCancelled => "Folder not chosen".to_string(),
        }
    }
}

/// Decides the command's result from the dialog's outcome: the chosen path
/// unchanged, or `SelectionCancelled` when nothing was chosen.
pub fn resolve_selection(outcome: DialogOutcome) -> (r: Result<String, PickError>)
    ensures
        match outcome {
            DialogOutcome::Selected(p) => r == Ok::<String, PickError>(p),
            DialogOutcome::Cancelled => r == Err::<String, PickError>(PickError::SelectionCancelled),
        },
{
    match outcome {
        DialogOutcome::Selected(p) => Ok(p),
        DialogOutcome::Cancelled => Err(PickError::SelectionCancelled),
    }
}

/// The command's reply as it crosses the invocation boundary: the path as
/// text on success, the error's message as text on failure.
pub fn select_folder_reply(outcome: DialogOutcome) -> (r: Result<String, String>)
    ensures
        reply_view(r) == reply_of(outcome_view(outcome)),
{
    match resolve_selection(outcome) {
        Ok(p) => Ok(p),
        Err(e) => Err(e.message()),
    }
}

/// The replies of a run of invocations, one for each dialog outcome, in order.
pub open spec fn replies(trials: Seq<Option<Seq<char>>>) -> Seq<Result<Seq<char>, Seq<char>>> {
    trials.map_values(|c: Option<Seq<char>>| reply_of(c))
}

/// Invocations are independent trials: the reply of an invocation depends on
/// its own dialog outcome alone, whatever came before it in either run.
pub proof fn lemma_invocations_independent(
    first_run: Seq<Option<Seq<char>>>,
    second_run: Seq<Option<Seq<char>>>,
    i: int,
    j: int,
)
    requires
        0 <= i < first_run.len(),
        0 <= j < second_run.len(),
        first_run[i] == second_run[j],
    ensures
        replies(first_run)[i] == replies(second_run)[j],
        replies(first_run)[i] == reply_of(first_run[i]),
{
}

} // verus!
