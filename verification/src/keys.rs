//! Key presses as the session sees them, and what it asks of its adapter.

use crate::history::{AppState, Entry};
use vstd::prelude::*;

verus! {

/// The key of a key press.
#[derive(Clone, Copy, Debug, PartialEq, Eq)]
pub enum Key {
    /// A character key.
    Char(char),
    /// A function key, by its number.
    Function(u8),
    Backspace,
    Enter,
    Up,
    Down,
    Escape,
    /// Any key the session has no use for.
    Other,
}

/// A key press: the key, and whether Control was held.
#[derive(Clone, Copy, Debug, PartialEq, Eq)]
pub struct KeyPress {
    pub key: Key,
    pub control: bool,
}

/// What the adapter has to do after the session handled an event.
#[derive(Debug, PartialEq, Eq)]
pub enum Effect {
    /// Nothing.
    Nothing,
    /// Put this text on the clipboard.
    Copy(String),
    /// Write this snapshot to the store.
    Persist(AppState),
}

/// The mathematical content of an `Effect`.
pub enum EffectView {
    Nothing,
    Copy(Seq<char>),
    Persist(Seq<Entry>),
}

impl View for Effect {
    type V = EffectView;

    open spec fn view(&self) -> EffectView {
        match self {
            Effect::Nothing => EffectView::Nothing,
            Effect::Copy(text) => EffectView::Copy(text@),
            Effect::Persist(state) => EffectView::Persist(state@),
        }
    }
}

} // verus!
