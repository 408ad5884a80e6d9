//! The session as a mathematical state machine.

use crate::command::{submission_of, Command, SubmissionView};
use crate::evaluator::{refusal, variable_names, EvaluationContext};
use crate::history::{evaluated_entry, unknown_command_entry, Entry};
use crate::keys::{EffectView, Key, KeyPress};
use vstd::prelude::*;

verus! {

/// The state of a session.
pub struct Session {
    /// The input buffer.
    pub input: Seq<char>,
    /// The history, oldest entry first.
    pub history: Seq<Entry>,
    /// The selection cursor: an index into `history`, if any entry is selected.
    pub selected: Option<nat>,
    /// The variables that earlier expressions assigned.
    pub context: EvaluationContext,
    /// Whether the help popup is open. While it is, editing, navigation and
    /// evaluation are suppressed.
    pub show_help: bool,
    /// Whether the user asked to leave.
    pub should_quit: bool,
}

impl Session {
    /// A session with nothing typed, nothing evaluated and no popup open.
    pub open spec fn fresh(context: EvaluationContext) -> Session {
        Session {
            input: Seq::empty(),
            history: Seq::empty(),
            selected: None,
            context,
            show_help: false,
            should_quit: false,
        }
    }

    /// The cursor is set exactly when there is something to select, and
    /// then it points into the history.
    pub open spec fn wf(self) -> bool {
        match self.selected {
            Some(i) => i < self.history.len(),
            None => self.history.len() == 0,
        }
    }

    /// The index of the newest entry, if there is any entry.
    pub open spec fn newest(self) -> Option<nat> {
        if self.history.len() == 0 {
            None
        } else {
            Some((self.history.len() - 1) as nat)
        }
    }

    /// The entry under the cursor.
    pub open spec fn selected_entry(self) -> Option<Entry> {
        match self.selected {
            Some(i) => if i < self.history.len() {
                Some(self.history[i as int])
            } else {
                None
            },
            None => None,
        }
    }

    /// A character was typed.
    pub open spec fn push_char(self, c: char) -> Session {
        if self.show_help {
            self
        } else {
            Session { input: self.input.push(c), ..self }
        }
    }

    /// The last character of the input was deleted.
    pub open spec fn backspace(self) -> Session {
        if self.show_help || self.input.len() == 0 {
            self
        } else {
            Session { input: self.input.drop_last(), ..self }
        }
    }

    /// The cursor moved one entry towards the oldest, wrapping from the
    /// oldest to the newest.
    pub open spec fn select_previous(self) -> Session {
        if self.show_help || self.history.len() == 0 {
            self
        } else {
            let last = (self.history.len() - 1) as nat;
            let target = match self.selected {
                Some(i) => if i == 0 {
                    last
                } else {
                    (i - 1) as nat
                },
                None => last,
            };
            Session { selected: Some(target), ..self }
        }
    }

    /// The cursor moved one entry towards the newest, wrapping from the
    /// newest to the oldest.
    pub open spec fn select_next(self) -> Session {
        if self.show_help || self.history.len() == 0 {
            self
        } else {
            let target = match self.selected {
                Some(i) => if i >= self.history.len() - 1 {
                    0nat
                } else {
                    i + 1
                },
                None => 0nat,
            };
            Session { selected: Some(target), ..self }
        }
    }

    /// The help popup was opened or closed.
    pub open spec fn toggle_help(self) -> Session {
        Session { show_help: !self.show_help, ..self }
    }

    /// The help popup was closed.
    pub open spec fn close_help(self) -> Session {
        Session { show_help: false, ..self }
    }

    /// The user asked to leave.
    pub open spec fn quit(self) -> Session {
        Session { should_quit: true, ..self }
    }

    /// The history as loaded from a snapshot, with the cursor on its
    /// newest entry.
    pub open spec fn restored(self, history: Seq<Entry>) -> Session {
        let loaded = Session { history, ..self };
        Session { selected: loaded.newest(), ..loaded }
    }

    /// One indivisible step: `entry` is appended, the cursor moves to it
    /// and the input buffer is emptied.
    pub open spec fn with_entry(self, entry: Entry) -> Session {
        Session {
            input: Seq::empty(),
            history: self.history.push(entry),
            selected: Some(self.history.len()),
            ..self
        }
    }

    /// One indivisible step: history and cursor are emptied and the
    /// variables are replaced by `context`. The input buffer is emptied.
    pub open spec fn cleared(self, context: EvaluationContext) -> Session {
        Session { input: Seq::empty(), history: Seq::empty(), selected: None, context, ..self }
    }

    /// The session after the command `command` ran, with `context` for its
    /// variables afterwards.
    pub open spec fn commanded(self, command: Command, context: EvaluationContext) -> Session {
        match command {
            Command::Clear => self.cleared(context),
            Command::Quit => Session { input: Seq::empty(), ..self.quit() },
            Command::Help => Session { input: Seq::empty(), show_help: true, ..self },
            Command::Unknown => self.with_entry(unknown_command_entry(self.input)),
        }
    }

    /// The session after its input was evaluated with `outcome`, with
    /// `context` for its variables afterwards.
    pub open spec fn evaluated(
        self,
        outcome: Result<Seq<char>, Seq<char>>,
        context: EvaluationContext,
    ) -> Session {
        Session { context, ..self.with_entry(evaluated_entry(self.input, outcome)) }
    }

    /// What committing the input line amounts to.
    pub open spec fn submission(self) -> SubmissionView {
        submission_of(self.show_help, self.input)
    }

    /// Whether committing the input line can take the session to `next`.
    ///
    /// While the help popup is open the commit only closes it. A blank line
    /// changes nothing. A command runs without the evaluator: the variables
    /// stay as they are unless it clears them. An admissible expression
    /// goes to the evaluator, whose outcome and whose effect on the
    /// variables are not determined here. Any other expression is recorded
    /// as refused, and the variables stay as they are.
    pub open spec fn submits_to(self, next: Session) -> bool {
        match self.submission() {
            SubmissionView::CloseHelp => next == self.close_help(),
            SubmissionView::Blank => next == self,
            SubmissionView::Run(command) => {
                &&& next == self.commanded(command, next.context)
                &&& match command {
                    Command::Clear => variable_names(next.context) == Set::<Seq<char>>::empty(),
                    _ => next.context == self.context,
                }
            },
            SubmissionView::Evaluate(_) => exists|outcome: Result<Seq<char>, Seq<char>>|
                next == #[trigger] self.evaluated(outcome, next.context),
            SubmissionView::Refuse => next == self.evaluated(Err(refusal()), self.context),
        }
    }

    /// The history to persist after the input line was committed: the
    /// whole of it if the line was the quit command, none otherwise.
    pub open spec fn submit_snapshot(self) -> Option<Seq<Entry>> {
        if self.submission() == SubmissionView::Run(Command::Quit) {
            Some(self.history)
        } else {
            None
        }
    }

    /// Whether handling the key press `press` can take the session to `next`.
    pub open spec fn handles(self, press: KeyPress, next: Session) -> bool {
        match press.key {
            Key::Char(c) => if c == 'c' && press.control {
                next == self.quit()
            } else if c == 'y' && press.control {
                next == self
            } else if c == '?' {
                next == self.toggle_help()
            } else {
                next == self.push_char(c)
            },
            Key::Function(n) => if n == 1 {
                next == self.toggle_help()
            } else {
                next == self
            },
            Key::Backspace => next == self.backspace(),
            Key::Enter => self.submits_to(next),
            Key::Up => next == self.select_previous(),
            Key::Down => next == self.select_next(),
            Key::Escape => if self.show_help {
                next == self.close_help()
            } else {
                next == self.quit()
            },
            Key::Other => next == self,
        }
    }

    /// What the adapter must do after the key press `press` was handled.
    pub open spec fn effect_of(self, press: KeyPress) -> EffectView {
        match press.key {
            Key::Char(c) => if c == 'c' && press.control {
                EffectView::Persist(self.history)
            } else if c == 'y' && press.control && !self.show_help {
                match self.selected_entry() {
                    Some(entry) => EffectView::Copy(entry.result),
                    None => EffectView::Nothing,
                }
            } else {
                EffectView::Nothing
            },
            Key::Enter => match self.submit_snapshot() {
                Some(history) => EffectView::Persist(history),
                None => EffectView::Nothing,
            },
            Key::Escape => if self.show_help {
                EffectView::Nothing
            } else {
                EffectView::Persist(self.history)
            },
            _ => EffectView::Nothing,
        }
    }
}

} // verus!
