use vstd::prelude::*;

verus! {

/// A single-use handoff channel, modelled sequentially: at most one message is
/// ever sent through it, and receiving takes the message out, so a value can
/// never be handed over twice. `in_use` records that a send has happened (the
/// channel cannot be reused even after the message is gone), and `ready`
/// records that a message is waiting.
pub struct OneShotChannel<T> {
    message: Option<T>,
    in_use: bool,
    ready: bool,
}

impl<T> OneShotChannel<T> {
    pub closed spec fn in_use(&self) -> bool {
        self.in_use
    }

    pub closed spec fn ready(&self) -> bool {
        self.ready
    }

    pub closed spec fn message(&self) -> Option<T> {
        self.message
    }

    /// A message is stored exactly while one is ready to be received, and only
    /// a channel that has been used can have one.
    pub open spec fn wf(&self) -> bool {
        &&& (self.ready() <==> self.message() is Some)
        &&& (self.ready() ==> self.in_use())
    }

    pub fn new() -> (c: OneShotChannel<T>)
        ensures
            c.wf(),
            !c.in_use(),
            !c.ready(),
            c.message() is None,
    {
        OneShotChannel { message: None, in_use: false, ready: false }
    }

    /// Send the single message. Sending into a channel that was already used
    /// panics, so that case is excluded here.
    pub fn send(&mut self, data: T)
        requires
            old(self).wf(),
            !old(self).in_use(),
        ensures
            final(self).wf(),
            final(self).in_use(),
            final(self).ready(),
            final(self).message() == Some(data),
    {
        self.in_use = true;
        self.message = Some(data);
        self.ready = true;
    }

    /// Whether a message is waiting to be received.
    pub fn is_ready(&self) -> (r: bool)
        ensures
            r == self.ready(),
    {
        self.ready
    }

    /// Receive the message, clearing the ready flag so it cannot be received
    /// again. Receiving from a channel with no ready message panics, so that
    /// case is excluded here.
    pub fn recieve(&mut self) -> (data: T)
        requires
            old(self).wf(),
            old(self).ready(),
        ensures
            final(self).wf(),
            old(self).message() == Some(data),
            final(self).message() is None,
            !final(self).ready(),
            final(self).in_use(),
    {
        self.ready = false;
        self.message.take().unwrap()
    }

    /// Receive the message, waiting for it if need be. Waiting on a channel
    /// nobody sends into would spin forever; in this sequential model no
    /// sender can run meanwhile, so the message must already be there.
    pub fn blocking_recieve(&mut self) -> (data: T)
        requires
            old(self).wf(),
            old(self).ready(),
        ensures
            final(self).wf(),
            old(self).message() == Some(data),
            final(self).message() is None,
            !final(self).ready(),
            final(self).in_use(),
    {
        self.recieve()
    }
}

} // verus!
