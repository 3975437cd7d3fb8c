//! A value that records whether it has been changed.

use vstd::prelude::*;

verus! {

/// Records if a change has occurred to its inner value.
pub struct Track<T> {
    value: T,
    changed: bool,
}

impl<T> Track<T> {
    /// No operation clears the mark: every track is marked as changed.
    #[verifier::type_invariant]
    spec fn marked(self) -> bool {
        self.changed
    }

    /// The tracked value.
    pub closed spec fn value(&self) -> T {
        self.value
    }

    /// Whether the value is marked as changed.
    pub closed spec fn is_changed(&self) -> bool {
        self.changed
    }

    /// Create a new value where changes are tracked.
    pub fn new(value: T) -> (r: Self)
        ensures
            r.value() == value,
            r.is_changed(),
    {
        Track { value, changed: true }
    }

    /// Gets the inner value.
    pub fn get(&self) -> (r: &T)
        ensures
            *r == self.value(),
    {
        &self.value
    }

    /// Set a new value, and mark that it has changed.
    pub fn set(&mut self, value: T)
        ensures
            final(self).value() == value,
            final(self).is_changed(),
    {
        proof {
            use_type_invariant(&*self);
        }
        self.value = value;
        self.changed = true;
    }

    /// Check if value has changed. Every track is marked as changed from
    /// its making on, and no operation clears the mark, so this is always
    /// true.
    pub fn changed(&self) -> (r: bool)
        ensures
            r == self.is_changed(),
            r,
    {
        proof {
            use_type_invariant(self);
        }
        self.changed
    }
}

impl<T: Default> Default for Track<T> {
    /// A changed value holding the default of `T`.
    fn default() -> (r: Self)
        ensures
            call_ensures(T::default, (), r.value()),
            r.is_changed(),
    {
        Self::new(T::default())
    }
}

} // verus!
