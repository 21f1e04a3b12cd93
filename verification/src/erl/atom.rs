//! Symbolic constant atoms with O(1) comparison and copies.

use vstd::prelude::*;

verus! {

/// An Atom is a cheaply clonable instance which represents
/// a named concept. Two atoms are identical if they have
/// identical names.
#[derive(Debug, Eq, Copy, Clone, PartialEq, Structural)]
pub struct Atom {
    pub id: usize,
}

impl Atom {
    /// The atom with the given number.
    pub fn new(id: usize) -> (atom: Atom)
        ensures
            atom.id == id,
    {
        Atom { id }
    }

    /// Whether two atoms stand for the same name.
    pub fn same(&self, other: &Atom) -> (r: bool)
        ensures
            r == (self.id == other.id),
    {
        *self == *other
    }
}

} // verus!
