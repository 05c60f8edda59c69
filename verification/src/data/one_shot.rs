//! A single-use data slot.

use vstd::prelude::*;

verus! {

/// Holds at most one value; reading it out empties the slot, so a
/// produced event is handled exactly once.
pub struct OneShot<T> {
    pub data: Option<T>,
}

impl<T> Default for OneShot<T> {
    fn default() -> (r: Self)
        ensures
            r.data is None,
    {
        OneShot { data: None }
    }
}

impl<T> OneShot<T> {
    /// An empty slot.
    pub fn new() -> (r: Self)
        ensures
            r.data is None,
    {
        Self::default()
    }

    /// A slot already holding `v`.
    pub fn new_from(v: T) -> (r: Self)
        ensures
            r.data == Some(v),
    {
        OneShot { data: Some(v) }
    }

    /// Replaces this slot's content with the other slot's.
    pub fn merge_from(&mut self, v: Self)
        ensures
            final(self).data == v.data,
    {
        self.data = v.data;
    }

    /// Whether the slot currently holds a value.
    pub fn has_data(&self) -> (r: bool)
        ensures
            r == (self.data is Some),
    {
        self.data.is_some()
    }

    /// Takes the value out, leaving the slot empty.
    pub fn get_data(&mut self) -> (r: Option<T>)
        ensures
            r == old(self).data,
            final(self).data is None,
    {
        self.data.take()
    }

    /// Looks at the value without taking it out.
    pub fn peak(&self) -> (r: Option<&T>)
        ensures
            match r {
                Some(v) => self.data == Some(*v),
                None => self.data is None,
            },
    {
        self.data.as_ref()
    }

    /// Fills the slot, replacing any present value.
    pub fn set_data(&mut self, data: T)
        ensures
            final(self).data == Some(data),
    {
        self.data = Some(data);
    }
}

} // verus!
