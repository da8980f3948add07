//! A set-once slot for the host's kernel services.
use vstd::prelude::*;

verus! {

/// A slot that is filled once, before anything reads it, and read from then on: the place
/// where the host's kernel services are registered for the engine's callbacks.
pub struct Registry<T> {
    slot: Option<T>,
}

/// Whether setting a registry that holds `contents` to `value` succeeds, and what the
/// registry holds afterwards: only an empty registry takes a value.
pub open spec fn set_outcome<T>(contents: Option<T>, value: T) -> (bool, Option<T>) {
    match contents {
        None => (true, Some(value)),
        Some(v) => (false, Some(v)),
    }
}

impl<T> Registry<T> {
    /// What the registry holds: `None` until it is set.
    pub closed spec fn contents(&self) -> Option<T> {
        self.slot
    }

    /// An empty registry.
    pub fn new() -> (r: Registry<T>)
        ensures
            r.contents().is_none(),
    {
        Registry { slot: None }
    }

    pub fn is_set(&self) -> (r: bool)
        ensures
            r == self.contents().is_some(),
    {
        self.slot.is_some()
    }

    /// Fills the empty registry with `value`.
    pub fn set(&mut self, value: T)
        requires
            old(self).contents().is_none(),
        ensures
            final(self).contents() == Some(value),
    {
        self.slot = Some(value);
    }

    /// Fills the registry with `value` if it is empty. A registry that is already set is
    /// left as it is, and `value` comes back as the error.
    pub fn try_set(&mut self, value: T) -> (r: Result<(), T>)
        ensures
            (r is Ok, final(self).contents()) == set_outcome(old(self).contents(), value),
            r is Err ==> r == Err::<(), T>(value),
    {
        if self.slot.is_some() {
            Err(value)
        } else {
            self.slot = Some(value);
            Ok(())
        }
    }

    /// The registered value.
    pub fn get(&self) -> (r: &T)
        requires
            self.contents().is_some(),
        ensures
            self.contents() == Some(*r),
    {
        self.slot.as_ref().unwrap()
    }

    /// The registered value, or `None` before the registry is set.
    pub fn try_get(&self) -> (r: Option<&T>)
        ensures
            match self.contents() {
                Some(v) => r == Some(&v),
                None => r.is_none(),
            },
    {
        self.slot.as_ref()
    }
}

/// A registry is set once: a new registry holds nothing to read, the first set fills it,
/// and a second set is refused and leaves the first value in place.
pub proof fn lemma_registry_set_once<T>(first: T, second: T)
    ensures
        set_outcome(None, first) == (true, Some(first)),
        set_outcome(set_outcome(None, first).1, second) == (false, Some(first)),
{
}

} // verus!
