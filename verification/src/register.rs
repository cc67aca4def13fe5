//! The single-slot, overwritable holder for the most recently supplied
//! text.
//!
//! One writer replaces the value, one reader snapshots it; a write is a
//! whole-value replacement, so a reader sees either the old or the new
//! value, never a mix. Absence is a valid state: not yet started, or
//! paused. Serializing the two sides is the caller's business; the
//! register itself is just the slot.

use vstd::prelude::*;

verus! {

pub struct TextRegister {
    value: Option<String>,
}

impl View for TextRegister {
    type V = Option<Seq<char>>;

    closed spec fn view(&self) -> Option<Seq<char>> {
        match self.value {
            Some(s) => Some(s@),
            None => None,
        }
    }
}

impl TextRegister {
    /// A fresh register holds nothing.
    pub fn new() -> (r: TextRegister)
        ensures
            r@ is None,
    {
        TextRegister { value: None }
    }

    /// Replace the held value; the previous one is lost (last write
    /// wins, no queueing).
    pub fn store(&mut self, v: Option<String>)
        ensures
            final(self)@ == match v {
                Some(s) => Some(s@),
                None => None::<Seq<char>>,
            },
    {
        self.value = v;
    }

    /// Drop the held value: back to the absent / paused state.
    pub fn clear(&mut self)
        ensures
            final(self)@ is None,
    {
        self.value = None;
    }

    /// Snapshot the held value without giving it up.
    pub fn read(&self) -> (r: Option<String>)
        ensures
            r is Some <==> self@ is Some,
            r matches Some(s) ==> self@ == Some(s@),
    {
        match &self.value {
            Some(s) => Some(s.clone()),
            None => None,
        }
    }
}

} // verus!
