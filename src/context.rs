//! The single-slot cache a layer keeps between a training forward pass and
//! the backward pass that consumes it.
use vstd::prelude::*;

verus! {

/// A layer's pending context: empty while the layer is idle, holding one
/// value after a training forward pass until the next backward pass takes it.
pub struct ContextSlot<T> {
    value: Option<T>,
}

impl<T> View for ContextSlot<T> {
    type V = Option<T>;

    closed spec fn view(&self) -> Option<T> {
        self.value
    }
}

impl<T> ContextSlot<T> {
    /// An idle slot.
    pub fn new() -> (r: ContextSlot<T>)
        ensures
            r@ is None,
    {
        ContextSlot { value: None }
    }

    /// Records the context of a training forward pass. A slot never holds
    /// two contexts: one still pending is replaced.
    pub fn store(&mut self, value: T)
        ensures
            final(self)@ == Some(value),
    {
        self.value = Some(value);
    }

    /// Consumes the pending context, leaving the slot idle. There is none
    /// when no training forward pass came since the last backward pass.
    pub fn take(&mut self) -> (r: Option<T>)
        ensures
            r == old(self)@,
            final(self)@ is None,
    {
        let mut value: Option<T> = None;
        std::mem::swap(&mut value, &mut self.value);
        value
    }

    /// Whether a context is pending.
    pub fn is_held(&self) -> (r: bool)
        ensures
            r == self@ is Some,
    {
        self.value.is_some()
    }
}

} // verus!
