//! The session: the one address at which the lamp was last found.

use vstd::prelude::*;
use crate::discovery::{resolution_of, DiscoveryError, Resolution};

verus! {

/// The address at which the lamp was last found. It is empty until a
/// discovery has succeeded, and from then on holds what the last successful
/// discovery gave. Nothing is checked of an address, and none is ever taken
/// back.
#[derive(Debug)]
pub struct DeviceSession {
    address: String,
}

impl View for DeviceSession {
    type V = Seq<char>;

    closed spec fn view(&self) -> Seq<char> {
        self.address@
    }
}

/// The address that a session holds after `address` was stored in it: the
/// new one, whatever was there.
pub open spec fn after_set(before: Seq<char>, address: Seq<char>) -> Seq<char> {
    address
}

/// The address that a session holds after a discovery ended with `outcome`:
/// the address found, or, where none was found, the one held before.
pub open spec fn after_discovery(before: Seq<char>, outcome: Resolution) -> Seq<char> {
    match outcome {
        Ok(address) => after_set(before, address),
        Err(_) => before,
    }
}

/// What the caller who asked for the connection is told: nothing on
/// success, the failure's message otherwise.
pub open spec fn connect_reply(outcome: Resolution) -> Result<(), Seq<char>> {
    match outcome {
        Ok(_) => Ok(()),
        Err(error) => Err(DiscoveryError::message_text(error)),
    }
}

/// A reply to a connection request, by what it holds.
pub open spec fn connect_reply_of(reply: Result<(), String>) -> Result<(), Seq<char>> {
    match reply {
        Ok(_) => Ok(()),
        Err(message) => Err(message@),
    }
}

impl DeviceSession {
    /// A session in which no address has been stored yet.
    pub fn new() -> (session: DeviceSession)
        ensures
            session@ == Seq::<char>::empty(),
    {
        DeviceSession { address: String::new() }
    }

    /// Stores `address` in place of whatever the session held.
    pub fn set(&mut self, address: String)
        ensures
            final(self)@ == after_set(old(self)@, address@),
    {
        self.address = address;
    }

    /// A copy of the address held; the empty text where none was stored.
    pub fn get(&self) -> (address: String)
        ensures
            address@ == self@,
    {
        self.address.clone()
    }

    /// Takes in how a discovery ended. An address found replaces the one
    /// held; a failure leaves the session as it was and is reported by its
    /// message.
    pub fn connect(&mut self, outcome: Result<String, DiscoveryError>) -> (reply: Result<
        (),
        String,
    >)
        ensures
            final(self)@ == after_discovery(old(self)@, resolution_of(outcome)),
            connect_reply_of(reply) == connect_reply(resolution_of(outcome)),
    {
        match outcome {
            Ok(address) => {
                self.set(address);
                Ok(())
            },
            Err(error) => Err(error.message()),
        }
    }
}

impl Default for DeviceSession {
    fn default() -> (session: DeviceSession)
        ensures
            session@ == Seq::<char>::empty(),
    {
        DeviceSession::new()
    }
}

/// Of two addresses stored one after the other, the session holds the
/// second, whatever it held at first.
pub proof fn last_write_wins(before: Seq<char>, first: Seq<char>, second: Seq<char>)
    ensures
        after_set(after_set(before, first), second) == second,
{
}

/// A discovery that fails after an address was stored leaves that address
/// in the session.
pub proof fn failure_keeps_address(before: Seq<char>, stored: Seq<char>, outcome: Resolution)
    requires
        outcome is Err,
    ensures
        after_discovery(after_set(before, stored), outcome) == stored,
{
}

} // verus!
