//! History entries and the persisted snapshot of a session.

use vstd::prelude::*;

verus! {

/// One line of the history: what was typed and what came of it.
#[derive(Debug, PartialEq, Eq)]
pub struct HistoryItem {
    /// The input exactly as typed, untrimmed.
    pub expression: String,
    /// The rendered value, or the error message.
    pub result: String,
    /// Whether `result` reports a failure.
    pub is_error: bool,
}

/// The mathematical content of a `HistoryItem`.
pub struct Entry {
    /// The input exactly as typed, untrimmed.
    pub expression: Seq<char>,
    /// The rendered value, or the error message.
    pub result: Seq<char>,
    /// Whether `result` reports a failure.
    pub is_error: bool,
}

impl View for HistoryItem {
    type V = Entry;

    open spec fn view(&self) -> Entry {
        Entry { expression: self.expression@, result: self.result@, is_error: self.is_error }
    }
}

impl DeepView for HistoryItem {
    type V = Entry;

    open spec fn deep_view(&self) -> Entry {
        self@
    }
}

impl Clone for HistoryItem {
    fn clone(&self) -> (copy: Self)
        ensures
            copy == *self,
    {
        HistoryItem {
            expression: self.expression.clone(),
            result: self.result.clone(),
            is_error: self.is_error,
        }
    }
}

/// What the evaluator made of an expression: the rendered value, or the
/// rendered error.
pub open spec fn outcome_view(outcome: Result<String, String>) -> Result<Seq<char>, Seq<char>> {
    match outcome {
        Ok(value) => Ok(value@),
        Err(error) => Err(error@),
    }
}

/// The entry that records an evaluation of the raw input `expression`.
pub open spec fn evaluated_entry(
    expression: Seq<char>,
    outcome: Result<Seq<char>, Seq<char>>,
) -> Entry {
    match outcome {
        Ok(value) => Entry { expression, result: value, is_error: false },
        Err(error) => Entry { expression, result: "Error: "@ + error, is_error: true },
    }
}

/// The line that shows an entry in the history list.
pub open spec fn entry_line(entry: Entry) -> Seq<char> {
    entry.expression + " = "@ + entry.result
}

/// The entry that records a command nobody knows.
pub open spec fn unknown_command_entry(expression: Seq<char>) -> Entry {
    Entry { expression, result: "Unknown command"@, is_error: true }
}

impl HistoryItem {
    /// Records the outcome of evaluating `expression`.
    pub fn evaluated(expression: String, outcome: Result<String, String>) -> (item: HistoryItem)
        ensures
            item@ == evaluated_entry(expression@, outcome_view(outcome)),
    {
        match outcome {
            Ok(value) => HistoryItem { expression, result: value, is_error: false },
            Err(error) => {
                let message = "Error: ".to_owned().concat(error.as_str());
                HistoryItem { expression, result: message, is_error: true }
            },
        }
    }

    /// The line that shows this entry in the history list: the expression,
    /// an equals sign between two spaces, and the result.
    pub fn line(&self) -> (line: String)
        ensures
            line@ == entry_line(self@),
    {
        self.expression.clone().concat(" = ").concat(self.result.as_str())
    }

    /// Records that `expression` named no known command.
    pub fn unknown_command(expression: String) -> (item: HistoryItem)
        ensures
            item@ == unknown_command_entry(expression@),
    {
        HistoryItem { expression, result: "Unknown command".to_owned(), is_error: true }
    }
}

/// The part of a session that outlives the process: the history, oldest
/// entry first. Variables are not part of it.
#[derive(Debug, PartialEq, Eq)]
pub struct AppState {
    pub history: Vec<HistoryItem>,
}

impl View for AppState {
    type V = Seq<Entry>;

    open spec fn view(&self) -> Seq<Entry> {
        self.history.deep_view()
    }
}

/// The history in a snapshot that may be missing.
pub open spec fn snapshot_view(snapshot: Option<AppState>) -> Option<Seq<Entry>> {
    match snapshot {
        Some(state) => Some(state@),
        None => None,
    }
}

/// The history a session starts with: that of the stored snapshot, or none
/// where nothing usable was stored.
pub open spec fn stored_history(stored: Option<AppState>) -> Seq<Entry> {
    match stored {
        Some(state) => state@,
        None => Seq::empty(),
    }
}

} // verus!
