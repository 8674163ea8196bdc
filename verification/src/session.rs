//! The lifecycle of the one shared serial link.
//!
//! Several slave proxies talk over a single physical connection. The
//! manager records whether a live link is held, hands it out for one
//! request at a time, and applies the outcome of a reconnect attempt.
//! Opening the port itself is the connection factory's work, performed
//! by the shell around the library; only its outcome enters here.

use vstd::prelude::*;

use crate::error::Error;

verus! {

/// The state of the shared link: connected with a numbered live link,
/// or disconnected.
#[derive(Clone, Copy, Debug, PartialEq, Eq, Structural)]
pub struct SessionManager {
    /// Whether a live link is currently held.
    pub connected: bool,
    /// Counts the links handed out so far; each successful reconnect
    /// replaces the link wholesale, so every holder sees a fresh number.
    pub generation: u64,
}

impl SessionManager {
    /// A manager that has never connected.
    pub fn new() -> (m: Self)
        ensures
            !m.connected,
            m.generation == 0,
    {
        SessionManager { connected: false, generation: 0 }
    }

    /// Whether a live link is currently held.
    pub fn is_connected(&self) -> (r: bool)
        ensures
            r == self.connected,
    {
        self.connected
    }

    /// Hand out the current link for one request. Fails immediately
    /// when disconnected: no blocking and no implicit reconnect.
    pub fn acquire(&self) -> (r: Result<u64, Error>)
        ensures
            self.connected ==> r == Ok::<u64, Error>(self.generation),
            !self.connected ==> r == Err::<u64, Error>(Error::NotConnected),
    {
        if self.connected {
            Ok(self.generation)
        } else {
            Err(Error::NotConnected)
        }
    }

    /// Record that the connection factory produced a new link. The old
    /// link, if any, is replaced wholesale: every holder observes the
    /// fresh generation from now on.
    pub fn reconnect_succeeded(&mut self)
        ensures
            final(self).connected,
            old(self).generation < u64::MAX ==> final(self).generation == old(self).generation
                + 1,
            old(self).generation == u64::MAX ==> final(self).generation == 0,
    {
        self.connected = true;
        if self.generation < u64::MAX {
            self.generation = self.generation + 1;
        } else {
            self.generation = 0;
        }
    }

    /// Record that the connection factory failed. A failed reconnect
    /// never resurrects a stale link: the manager is disconnected
    /// afterwards, whatever it held before.
    pub fn reconnect_failed(&mut self)
        ensures
            !final(self).connected,
            final(self).generation == old(self).generation,
    {
        self.connected = false;
    }
}

} // verus!
