//! State holders for the experimental user-interface layer.
//!
//! The user interface keeps mutable values (such as a background colour)
//! in small `State` cells, and element builders accept either a plain
//! value or such a cell through the `Arg` choice.

use vstd::prelude::*;

verus! {

/// A mutable cell of user-interface state holding a single value.
pub struct State<T> {
    value: T,
}

impl<T> View for State<T> {
    type V = T;

    closed spec fn view(&self) -> T {
        self.value
    }
}

impl<T> State<T> {
    /// Wraps a value in a fresh state cell.
    pub fn new(value: T) -> (state: State<T>)
        ensures
            state@ == value,
    {
        Self { value }
    }

    /// Replaces the held value.
    pub fn set(&mut self, value: T)
        ensures
            final(self)@ == value,
    {
        self.value = value;
    }

    /// Reads the held value.
    pub fn get(&self) -> (value: &T)
        ensures
            *value == self@,
    {
        &self.value
    }
}

/// An argument to an element builder: either a plain value or a
/// reference to mutable user-interface state.
pub enum Arg<T> {
    Value(T),
    State(State<T>),
}

} // verus!
