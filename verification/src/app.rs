//! The session itself: the state behind the screen and its event handlers.

use crate::command::{classify, Command, Submission};
use crate::evaluator::{
    evaluate, fresh_context, refusal_message, variable_names, EvaluationContext,
};
use crate::history::{outcome_view, snapshot_view, stored_history, AppState, Entry, HistoryItem};
use crate::keys::{Effect, Key, KeyPress};
use crate::session::Session;
use vstd::prelude::*;

verus! {

/// A calculator session. It owns the input buffer, the history with its
/// selection cursor, the variables, and the help and quit flags. An adapter
/// feeds it events, draws what the accessors return, carries out the
/// effects it hands back, and stops once `should_quit` is set.
pub struct App {
    input: String,
    history: Vec<HistoryItem>,
    should_quit: bool,
    selected: Option<usize>,
    context: EvaluationContext,
    show_help: bool,
}

/// The entry behind a reference, if there is one.
pub open spec fn entry_view(item: Option<&HistoryItem>) -> Option<Entry> {
    match item {
        Some(item) => Some(item@),
        None => None,
    }
}

/// A cursor position as a natural number.
pub open spec fn cursor_view(cursor: Option<usize>) -> Option<nat> {
    match cursor {
        Some(i) => Some(i as nat),
        None => None,
    }
}

impl View for App {
    type V = Session;

    closed spec fn view(&self) -> Session {
        Session {
            input: self.input@,
            history: self.history.deep_view(),
            selected: cursor_view(self.selected),
            context: self.context,
            show_help: self.show_help,
            should_quit: self.should_quit,
        }
    }
}

impl App {
    /// Starts a session from what the store held: `stored` is the snapshot
    /// that was read, or `None` where none was found or it could not be
    /// parsed. The cursor starts on the newest entry.
    pub fn new(stored: Option<AppState>) -> (app: App)
        ensures
            app@ == Session::fresh(app@.context).restored(stored_history(stored)),
            variable_names(app@.context) == Set::<Seq<char>>::empty(),
            app@.wf(),
    {
        let mut app = App {
            input: String::new(),
            history: Vec::new(),
            should_quit: false,
            selected: None,
            context: fresh_context(),
            show_help: false,
        };
        assert(app.history.deep_view() == Seq::<Entry>::empty());
        app.load_state(stored);
        if app.history.len() > 0 {
            app.selected = Some(app.history.len() - 1);
        }
        app
    }

    /// The input buffer.
    pub fn input(&self) -> (text: &str)
        ensures
            text@ == self@.input,
    {
        self.input.as_str()
    }

    /// The history, oldest entry first.
    pub fn history(&self) -> (items: &Vec<HistoryItem>)
        ensures
            items.deep_view() == self@.history,
    {
        &self.history
    }

    /// The selection cursor.
    pub fn selected(&self) -> (cursor: Option<usize>)
        ensures
            cursor_view(cursor) == self@.selected,
    {
        self.selected
    }

    /// Whether the help popup is open.
    pub fn show_help(&self) -> (open: bool)
        ensures
            open == self@.show_help,
    {
        self.show_help
    }

    /// Whether the user asked to leave.
    pub fn should_quit(&self) -> (quit: bool)
        ensures
            quit == self@.should_quit,
    {
        self.should_quit
    }

    /// The entry under the cursor.
    pub fn selected_entry(&self) -> (item: Option<&HistoryItem>)
        ensures
            entry_view(item) == self@.selected_entry(),
    {
        match self.selected {
            Some(i) => if i < self.history.len() {
                Some(&self.history[i])
            } else {
                None
            },
            None => None,
        }
    }

    /// Handles a typed character: appends it to the input buffer, unless
    /// the help popup is open.
    pub fn on_key(&mut self, c: char)
        ensures
            final(self)@ == old(self)@.push_char(c),
            old(self)@.wf() ==> final(self)@.wf(),
    {
        if self.show_help {
            return ;
        }
        self.input.push(c);
    }

    /// Handles backspace: removes the last character of the input buffer,
    /// unless the help popup is open.
    pub fn on_backspace(&mut self)
        ensures
            final(self)@ == old(self)@.backspace(),
            old(self)@.wf() ==> final(self)@.wf(),
    {
        if self.show_help {
            return ;
        }
        let _ = self.input.pop();
    }

    /// Decides what committing the input line amounts to, and with it what
    /// expression goes to the evaluator, if any.
    pub fn submission(&self) -> (submission: Submission)
        ensures
            submission@ == self@.submission(),
    {
        classify(self.show_help, self.input.as_str())
    }

    /// Commits the input line. Returns the snapshot to persist where the
    /// line was the quit command.
    pub fn on_enter(&mut self) -> (snapshot: Option<AppState>)
        ensures
            old(self)@.submits_to(final(self)@),
            snapshot_view(snapshot) == old(self)@.submit_snapshot(),
            old(self)@.wf() ==> final(self)@.wf(),
    {
        match self.submission() {
            Submission::CloseHelp => {
                self.show_help = false;
                None
            },
            Submission::Blank => None,
            Submission::Run(Command::Clear) => {
                self.history.clear();
                self.selected = None;
                self.context = fresh_context();
                self.input.clear();
                assert(self.history.deep_view() == Seq::<Entry>::empty());
                None
            },
            Submission::Run(Command::Quit) => {
                let snapshot = self.on_quit();
                self.input.clear();
                Some(snapshot)
            },
            Submission::Run(Command::Help) => {
                self.show_help = true;
                self.input.clear();
                None
            },
            Submission::Run(Command::Unknown) => {
                let item = HistoryItem::unknown_command(self.input.clone());
                self.append(item);
                None
            },
            Submission::Evaluate(expression) => {
                let outcome = evaluate(expression.as_str(), &mut self.context);
                self.record_evaluation(outcome);
                assert(self@ == old(self)@.evaluated(outcome_view(outcome), self@.context));
                None
            },
            Submission::Refuse => {
                self.record_evaluation(Err(refusal_message()));
                None
            },
        }
    }

    /// Records what the evaluator made of the input line: appends the entry
    /// with the raw input as its expression, moves the cursor to it and
    /// empties the input buffer.
    pub fn record_evaluation(&mut self, outcome: Result<String, String>)
        ensures
            final(self)@ == old(self)@.evaluated(outcome_view(outcome), old(self)@.context),
            old(self)@.wf() ==> final(self)@.wf(),
    {
        let item = HistoryItem::evaluated(self.input.clone(), outcome);
        self.append(item);
    }

    /// Selects the previous entry of the history, wrapping around.
    pub fn select_previous(&mut self)
        ensures
            final(self)@ == old(self)@.select_previous(),
            old(self)@.wf() ==> final(self)@.wf(),
    {
        if self.show_help {
            return ;
        }
        if self.history.len() == 0 {
            return ;
        }
        let i: usize = match self.selected {
            Some(i) => {
                if i == 0 {
                    self.history.len() - 1
                } else {
                    i - 1
                }
            },
            None => self.history.len() - 1,
        };
        self.selected = Some(i);
    }

    /// Selects the next entry of the history, wrapping around.
    pub fn select_next(&mut self)
        ensures
            final(self)@ == old(self)@.select_next(),
            old(self)@.wf() ==> final(self)@.wf(),
    {
        if self.show_help {
            return ;
        }
        if self.history.len() == 0 {
            return ;
        }
        let i: usize = match self.selected {
            Some(i) => {
                if i >= self.history.len() - 1 {
                    0
                } else {
                    i + 1
                }
            },
            None => 0,
        };
        self.selected = Some(i);
    }

    /// Opens the help popup, or closes it if it is open.
    pub fn toggle_help(&mut self)
        ensures
            final(self)@ == old(self)@.toggle_help(),
            old(self)@.wf() ==> final(self)@.wf(),
    {
        self.show_help = !self.show_help;
    }

    /// Asks to leave. Returns the snapshot to persist.
    pub fn on_quit(&mut self) -> (snapshot: AppState)
        ensures
            final(self)@ == old(self)@.quit(),
            snapshot@ == old(self)@.history,
            old(self)@.wf() ==> final(self)@.wf(),
    {
        let snapshot = self.save_state();
        self.should_quit = true;
        snapshot
    }

    /// The snapshot of this session: its history, and nothing else.
    pub fn save_state(&self) -> (snapshot: AppState)
        ensures
            snapshot@ == self@.history,
    {
        let history = self.history.clone();
        AppState { history }
    }

    /// Handles a key press. Returns what is left for the adapter to do.
    pub fn on_event(&mut self, press: KeyPress) -> (effect: Effect)
        ensures
            old(self)@.handles(press, final(self)@),
            effect@ == old(self)@.effect_of(press),
            old(self)@.wf() ==> final(self)@.wf(),
    {
        match press.key {
            Key::Char(c) => {
                if c == 'c' && press.control {
                    Effect::Persist(self.on_quit())
                } else if c == 'y' && press.control {
                    if self.show_help {
                        Effect::Nothing
                    } else {
                        match self.selected_entry() {
                            Some(item) => Effect::Copy(item.result.clone()),
                            None => Effect::Nothing,
                        }
                    }
                } else if c == '?' {
                    self.toggle_help();
                    Effect::Nothing
                } else {
                    self.on_key(c);
                    Effect::Nothing
                }
            },
            Key::Function(n) => {
                if n == 1 {
                    self.toggle_help();
                }
                Effect::Nothing
            },
            Key::Backspace => {
                self.on_backspace();
                Effect::Nothing
            },
            Key::Enter => match self.on_enter() {
                Some(snapshot) => Effect::Persist(snapshot),
                None => Effect::Nothing,
            },
            Key::Up => {
                self.select_previous();
                Effect::Nothing
            },
            Key::Down => {
                self.select_next();
                Effect::Nothing
            },
            Key::Escape => {
                if self.show_help {
                    self.show_help = false;
                    Effect::Nothing
                } else {
                    Effect::Persist(self.on_quit())
                }
            },
            Key::Other => Effect::Nothing,
        }
    }

    /// Replaces the history by that of the stored snapshot, if there is one.
    fn load_state(&mut self, stored: Option<AppState>)
        ensures
            final(self)@ == (Session {
                history: match stored {
                    Some(state) => state@,
                    None => old(self)@.history,
                },
                ..old(self)@
            }),
    {
        if let Some(state) = stored {
            self.history = state.history;
        }
    }

    /// Appends `item`, moves the cursor to it and empties the input buffer.
    fn append(&mut self, item: HistoryItem)
        ensures
            final(self)@ == old(self)@.with_entry(item@),
    {
        self.history.push(item);
        self.selected = Some(self.history.len() - 1);
        self.input.clear();
        assert(self.history.deep_view() == old(self).history.deep_view().push(item@));
    }
}

} // verus!
