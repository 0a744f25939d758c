//! A cell that lets the holder of a mutable reference replace a value by
//! consuming it.

use vstd::prelude::*;

verus! {

/// A cell that holds one value of type `T`, or nothing.
///
/// The cell is empty only while [`Takeable::transition`] runs. If the transformation given
/// to it never hands a value back, the cell stays empty for good: it is poisoned, and none of
/// its operations may be called on it again.
pub struct Takeable<T>(Option<T>);

impl<T> View for Takeable<T> {
    type V = Option<T>;

    /// `Some(value)` for a cell that holds `value`, `None` for a poisoned cell.
    closed spec fn view(&self) -> Option<T> {
        self.0
    }
}

impl<T> Takeable<T> {
    /// Creates a cell that holds `value`.
    pub fn new(value: T) -> (cell: Self)
        ensures
            cell@ == Some(value),
    {
        Self(Some(value))
    }

    /// Takes the value out of the cell, hands it to `f`, and stores what `f` returns.
    ///
    /// The value is out of the cell while `f` runs, so a call of `f` that does not return
    /// leaves the cell poisoned.
    pub fn transition<F: FnOnce(T) -> T>(&mut self, f: F)
        requires
            old(self)@ is Some,
            call_requires(f, (old(self)@->0,)),
        ensures
            final(self)@ is Some,
            call_ensures(f, (old(self)@->0,), final(self)@->0),
    {
        let current = self.0.take().unwrap();
        self.0 = Some(f(current));
    }

    /// Consumes the cell and returns the value it holds.
    pub fn get(self) -> (value: T)
        requires
            self@ is Some,
        ensures
            self@ == Some(value),
    {
        self.0.unwrap()
    }

    /// Borrows the value in the cell, or returns `None` if the cell is poisoned.
    pub fn peek(&self) -> (value: Option<&T>)
        ensures
            value is Some == self@ is Some,
            value matches Some(held) ==> self@ == Some(*held),
    {
        self.0.as_ref()
    }
}

} // verus!
