//! One-shot signals between the systems of a frame.
//!
//! A system that detects something raises a signal; the system that listens for it reads
//! the signal on its next run and clears it. A signal that is raised again before it was
//! read replaces the unread one, so any number of detections leads to one reaction.

use vstd::prelude::*;

verus! {

/// The signal of kind `E` that one listener has not read yet, if there is one.
pub struct Events<E> {
    unread: Option<E>,
}

impl<E> View for Events<E> {
    type V = Option<E>;

    /// The unread event.
    closed spec fn view(&self) -> Option<E> {
        self.unread
    }
}

impl<E> Events<E> {
    /// A listener with nothing to read.
    pub fn new() -> (events: Self)
        ensures
            events@ is None,
    {
        Events { unread: None }
    }

    /// Whether there is nothing to read.
    pub fn is_empty(&self) -> (empty: bool)
        ensures
            empty == (self@ is None),
    {
        self.unread.is_none()
    }

    /// Marks everything as read.
    pub fn clear(&mut self)
        ensures
            final(self)@ is None,
    {
        self.unread = None;
    }

    /// Raises the signal.
    pub fn send(&mut self, event: E)
        ensures
            final(self)@ == Some(event),
    {
        self.unread = Some(event);
    }
}

} // verus!
