use vstd::prelude::*;

verus! {

/// Why the event source could not be handed off.
#[derive(Clone, Copy, Debug, PartialEq, Eq, Structural)]
pub enum HandOffError {
    /// The event source was already taken; it has a single consumer.
    AlreadyTaken,
}

/// Holds the event source that runs the scheduler until it is handed off,
/// exactly once, to the run loop.
pub struct App<E> {
    event_loop: Option<E>,
}

impl<E> App<E> {
    /// The event source, while it has not been handed off.
    pub closed spec fn held(&self) -> Option<E> {
        self.event_loop
    }

    /// Holds `event_loop` until it is handed off.
    pub fn new(event_loop: E) -> (r: Self)
        ensures
            r.held() == Some(event_loop),
    {
        App { event_loop: Some(event_loop) }
    }

    /// The event source, if it has not been handed off yet.
    pub fn event_loop_ref(&self) -> (r: Option<&E>)
        ensures
            r matches Some(e) ==> self.held() == Some(*e),
            r is None <==> self.held() is None,
    {
        match &self.event_loop {
            Some(e) => Some(e),
            None => None,
        }
    }

    /// Hands the event source off to the caller. The first call succeeds;
    /// every later one fails with [`HandOffError::AlreadyTaken`].
    pub fn grab_event_loop(&mut self) -> (r: Result<E, HandOffError>)
        ensures
            final(self).held() is None,
            old(self).held() matches Some(e) ==> r == Ok::<E, HandOffError>(e),
            old(self).held() is None ==> r == Err::<E, HandOffError>(HandOffError::AlreadyTaken),
    {
        match self.event_loop.take() {
            Some(e) => Ok(e),
            None => Err(HandOffError::AlreadyTaken),
        }
    }
}

} // verus!
