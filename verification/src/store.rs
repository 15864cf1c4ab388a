//! The one statement that an analysis session works on.

use crate::models::{Statement, StatementView};
use vstd::prelude::*;

verus! {

/// Holds at most one statement. Setting a statement replaces the one held as
/// a whole; nothing is ever merged.
#[derive(Debug)]
pub struct StatementStore {
    current: Option<Statement>,
}

impl View for StatementStore {
    type V = Option<StatementView>;

    closed spec fn view(&self) -> Option<StatementView> {
        match self.current {
            Some(statement) => Some(statement@),
            None => None,
        }
    }
}

impl StatementStore {
    /// A store that holds nothing.
    pub fn new() -> (store: Self)
        ensures
            store@ is None,
    {
        StatementStore { current: None }
    }

    /// Holds `statement` from now on, in place of whatever was held.
    pub fn set(&mut self, statement: Statement)
        ensures
            final(self)@ == Some(statement@),
    {
        self.current = Some(statement);
    }

    /// The statement held at the moment, if any.
    pub fn get(&self) -> (held: Option<&Statement>)
        ensures
            match held {
                Some(statement) => self@ == Some(statement@),
                None => self@ is None,
            },
    {
        self.current.as_ref()
    }

    /// Holds nothing from now on.
    pub fn clear(&mut self)
        ensures
            final(self)@ is None,
    {
        self.current = None;
    }
}

} // verus!
