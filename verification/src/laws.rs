//! What holds of every session, proved over the state machine.

use crate::command::{command_of, is_command, Command, SubmissionView};
use crate::evaluator::{variable_names, EvaluationContext};
use crate::history::Entry;
use crate::keys::{EffectView, Key, KeyPress};
use crate::session::Session;
use crate::text::{is_blank, lemma_blank_trims_to_nothing, trimmed};
use vstd::prelude::*;

verus! {

/// One editing event on the input buffer.
pub enum Edit {
    /// A character was typed.
    Type(char),
    /// Backspace was pressed.
    Erase,
}

/// The session after the editing events `edits`, first to last.
pub open spec fn edited(session: Session, edits: Seq<Edit>) -> Session
    decreases edits.len(),
{
    if edits.len() == 0 {
        session
    } else {
        let before = edited(session, edits.drop_last());
        match edits.last() {
            Edit::Type(c) => before.push_char(c),
            Edit::Erase => before.backspace(),
        }
    }
}

/// `text` used as a stack of characters: each typed character is pushed,
/// each backspace pops one unless the stack is empty.
pub open spec fn stacked(text: Seq<char>, edits: Seq<Edit>) -> Seq<char>
    decreases edits.len(),
{
    if edits.len() == 0 {
        text
    } else {
        let before = stacked(text, edits.drop_last());
        match edits.last() {
            Edit::Type(c) => before.push(c),
            Edit::Erase => if before.len() > 0 {
                before.drop_last()
            } else {
                before
            },
        }
    }
}

/// While the help popup is closed, any run of typing and backspacing
/// leaves the input buffer as a stack of characters would be, and touches
/// nothing else. While it is open, the run changes nothing at all.
pub proof fn lemma_editing_is_a_stack(session: Session, edits: Seq<Edit>)
    ensures
        !session.show_help ==> edited(session, edits) == (Session {
            input: stacked(session.input, edits),
            ..session
        }),
        session.show_help ==> edited(session, edits) == session,
    decreases edits.len(),
{
    if edits.len() > 0 {
        lemma_editing_is_a_stack(session, edits.drop_last());
    }
}

/// Backspace undoes the character typed just before it.
pub proof fn lemma_backspace_undoes_typing(session: Session, c: char)
    ensures
        session.push_char(c).backspace() == session,
{
    assert(session.input.push(c).drop_last() == session.input);
}

/// Committing an empty or blank line leaves the history, the variables and
/// the input buffer as they were. Unless the commit closed the help popup,
/// it changed nothing at all.
pub proof fn lemma_blank_line_changes_nothing(session: Session, next: Session)
    requires
        is_blank(session.input),
        session.submits_to(next),
    ensures
        next.history == session.history,
        next.context == session.context,
        next.input == session.input,
        !session.show_help ==> next == session,
{
    lemma_blank_trims_to_nothing(session.input);
}

/// Each command has a long and a short spelling, and all six spellings
/// start with the colon that makes a line a command.
pub proof fn lemma_known_commands()
    ensures
        is_command(":c"@) && command_of(":c"@) is Clear,
        is_command(":clear"@) && command_of(":clear"@) is Clear,
        is_command(":q"@) && command_of(":q"@) is Quit,
        is_command(":quit"@) && command_of(":quit"@) is Quit,
        is_command(":h"@) && command_of(":h"@) is Help,
        is_command(":help"@) && command_of(":help"@) is Help,
{
    reveal_strlit(":c");
    reveal_strlit(":clear");
    reveal_strlit(":q");
    reveal_strlit(":quit");
    reveal_strlit(":h");
    reveal_strlit(":help");
    assert(":q"@[1] == 'q' && ":quit"@[1] == 'q');
    assert(":h"@[1] == 'h' && ":help"@[1] == 'h');
}

/// `:clear` and `:c` alike empty the history and reset the variables, in
/// one step, and add no entry.
pub proof fn lemma_clear_resets(session: Session, next: Session)
    requires
        !session.show_help,
        trimmed(session.input) == ":clear"@ || trimmed(session.input) == ":c"@,
        session.submits_to(next),
    ensures
        next.history == Seq::<Entry>::empty(),
        next.selected is None,
        variable_names(next.context) == Set::<Seq<char>>::empty(),
        next.input == Seq::<char>::empty(),
        next.show_help == session.show_help,
        next.should_quit == session.should_quit,
{
    lemma_known_commands();
}

/// A line that starts with a colon and names none of the commands adds one
/// entry: the raw input, the text `Unknown command`, flagged as an error.
/// The cursor moves to it, the input buffer is emptied, and the variables
/// stay as they were: the evaluator is not involved.
pub proof fn lemma_unknown_command(session: Session, next: Session)
    requires
        !session.show_help,
        is_command(trimmed(session.input)),
        command_of(trimmed(session.input)) is Unknown,
        session.submits_to(next),
    ensures
        next.history == session.history.push(
            Entry { expression: session.input, result: "Unknown command"@, is_error: true },
        ),
        next.selected == Some(session.history.len()),
        next.input == Seq::<char>::empty(),
        next.context == session.context,
        next.show_help == session.show_help,
        next.should_quit == session.should_quit,
{
}

/// An expression adds exactly one entry, whatever the evaluator makes of
/// it: the raw input as its expression, and the cursor on it.
pub proof fn lemma_evaluation_appends(session: Session, next: Session)
    requires
        session.submission() is Evaluate,
        session.submits_to(next),
    ensures
        next.history.len() == session.history.len() + 1,
        next.history.drop_last() == session.history,
        next.history.last().expression == session.input,
        next.selected == Some(session.history.len()),
        next.input == Seq::<char>::empty(),
        next.show_help == session.show_help,
        next.should_quit == session.should_quit,
{
}

/// An expression that the evaluator rejects is recorded as an error whose
/// text starts with `Error: `, followed by the evaluator's message.
pub proof fn lemma_rejected_expression(
    session: Session,
    error: Seq<char>,
    context: EvaluationContext,
)
    ensures
        session.evaluated(Err(error), context).history.last().is_error,
        session.evaluated(Err(error), context).history.last().result == "Error: "@ + error,
        "Error: "@.is_prefix_of(session.evaluated(Err(error), context).history.last().result),
{
}

/// An expression that is kept from the evaluator is recorded as an error
/// that says so, and the variables stay as they were.
pub proof fn lemma_refused_expression(session: Session, next: Session)
    requires
        session.submission() is Refuse,
        session.submits_to(next),
    ensures
        next.history == session.history.push(
            Entry {
                expression: session.input,
                result: "Error: "@ + "expression not supported"@,
                is_error: true,
            },
        ),
        next.selected == Some(session.history.len()),
        next.input == Seq::<char>::empty(),
        next.context == session.context,
        next.show_help == session.show_help,
        next.should_quit == session.should_quit,
{
}

/// An expression that the evaluator accepts is recorded with the rendered
/// value, not flagged as an error.
pub proof fn lemma_accepted_expression(
    session: Session,
    value: Seq<char>,
    context: EvaluationContext,
)
    ensures
        session.evaluated(Ok(value), context).history.last() == (Entry {
            expression: session.input,
            result: value,
            is_error: false,
        }),
{
}

/// From the oldest entry the cursor wraps back to the newest, and from the
/// newest forward to the oldest.
pub proof fn lemma_navigation_wraps(session: Session)
    requires
        !session.show_help,
        session.history.len() > 0,
    ensures
        session.selected == Some(0nat) ==> session.select_previous().selected == Some(
            (session.history.len() - 1) as nat,
        ),
        session.selected == Some((session.history.len() - 1) as nat)
            ==> session.select_next().selected == Some(0nat),
{
}

/// Navigation moves the cursor and nothing else.
pub proof fn lemma_navigation_is_view_only(session: Session)
    ensures
        session.select_previous() == (Session {
            selected: session.select_previous().selected,
            ..session
        }),
        session.select_next() == (Session {
            selected: session.select_next().selected,
            ..session
        }),
{
}

/// After navigating a history that is not empty, the cursor is on one of
/// its entries, provided it was before or there was none.
pub proof fn lemma_navigation_stays_inside(session: Session)
    requires
        !session.show_help,
        session.history.len() > 0,
        session.selected matches Some(i) ==> i < session.history.len(),
    ensures
        session.select_previous().selected matches Some(i) && i < session.history.len(),
        session.select_next().selected matches Some(i) && i < session.history.len(),
{
}

/// Toggling the help popup twice gives back the session as it was.
pub proof fn lemma_toggle_twice(session: Session)
    ensures
        session.toggle_help().toggle_help() == session,
{
}

/// While the help popup is open, committing the line closes the popup and
/// leaves history, input buffer and everything else alone.
pub proof fn lemma_commit_closes_help(session: Session, next: Session)
    requires
        session.show_help,
        session.submits_to(next),
    ensures
        next == session.close_help(),
        !next.show_help,
        next.history == session.history,
        next.input == session.input,
{
}

/// A session started from the snapshot of another has exactly that
/// session's entries, in the same order, with the cursor on the newest.
/// Started from nothing, it has no entry and no cursor.
pub proof fn lemma_snapshot_round_trip(session: Session, context: EvaluationContext)
    ensures
        Session::fresh(context).restored(session.history).history == session.history,
        Session::fresh(context).restored(session.history).selected == session.newest(),
        Session::fresh(context).restored(Seq::empty()).history == Seq::<Entry>::empty(),
        Session::fresh(context).restored(Seq::empty()).selected is None,
{
}

/// While the help popup is open, no event edits the input buffer, moves the
/// cursor, or touches the history or the variables: it can only close the
/// popup or ask to leave.
pub proof fn lemma_help_suppresses_input(session: Session, next: Session, press: KeyPress)
    requires
        session.show_help,
        session.handles(press, next),
    ensures
        next.input == session.input,
        next.history == session.history,
        next.selected == session.selected,
        next.context == session.context,
{
}

/// Control-C asks to leave whether the help popup is open or not, and
/// changes nothing else.
pub proof fn lemma_interrupt_always_quits(session: Session, next: Session)
    requires
        session.handles(KeyPress { key: Key::Char('c'), control: true }, next),
    ensures
        next == session.quit(),
        next.should_quit,
        session.effect_of(KeyPress { key: Key::Char('c'), control: true }) == EffectView::Persist(
            session.history,
        ),
{
}

/// The history only grows at its end, one entry at a time, until a clear
/// command empties it: entries are never changed, reordered or removed one
/// by one.
pub proof fn lemma_history_is_append_only(session: Session, next: Session, press: KeyPress)
    requires
        session.handles(press, next),
    ensures
        session.history.is_prefix_of(next.history) || next.history.len() == 0,
        next.history.len() <= session.history.len() + 1,
        next.history.len() < session.history.len() ==> press.key is Enter && session.submission()
            == SubmissionView::Run(Command::Clear),
{
}

/// The variables are reset exactly when the history is cleared: apart from
/// the clear command, only the evaluator ever touches them.
pub proof fn lemma_variables_outlive_everything_but_clear(
    session: Session,
    next: Session,
    press: KeyPress,
)
    requires
        session.handles(press, next),
    ensures
        next.context == session.context || (press.key is Enter && (session.submission()
            == SubmissionView::Run(Command::Clear) || session.submission() is Evaluate)),
        press.key is Enter && session.submission() == SubmissionView::Run(Command::Clear)
            ==> variable_names(next.context) == Set::<Seq<char>>::empty() && next.history.len()
            == 0,
{
}

/// Every event keeps the cursor invariant.
pub proof fn lemma_invariant(session: Session, next: Session, press: KeyPress)
    requires
        session.wf(),
        session.handles(press, next),
    ensures
        next.wf(),
{
}

/// Every deterministic step keeps the cursor invariant, and a restored
/// session satisfies it whatever was stored.
pub proof fn lemma_steps_keep_invariant(session: Session)
    ensures
        forall|history: Seq<Entry>| (#[trigger] session.restored(history)).wf(),
        session.wf() ==> {
            &&& forall|c: char| (#[trigger] session.push_char(c)).wf()
            &&& session.backspace().wf()
            &&& session.select_previous().wf()
            &&& session.select_next().wf()
            &&& session.toggle_help().wf()
            &&& session.close_help().wf()
            &&& session.quit().wf()
            &&& forall|entry: Entry| (#[trigger] session.with_entry(entry)).wf()
            &&& forall|context: EvaluationContext| (#[trigger] session.cleared(context)).wf()
        },
{
}

/// Committing the line keeps the cursor invariant.
pub proof fn lemma_commit_keeps_invariant(session: Session, next: Session)
    requires
        session.wf(),
    ensures
        session.submits_to(next) ==> next.wf(),
{
}

} // verus!
