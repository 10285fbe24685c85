//! The start of the service: the registry is asked once for a port; with a
//! port the service is registered, without one the start has failed.

use vstd::prelude::*;
use vstd::string::*;
use crate::text::{padded, decimal};

verus! {

/// Where the start of the service stands.
#[derive(Clone, Copy, Debug, PartialEq, Eq, Structural)]
pub enum Startup {
    /// The registry has not answered yet.
    Unregistered,
    /// The registry gave a port.
    Registered { port: u16 },
    /// The registry gave no port: nothing is bound, nothing is served.
    Failed,
}

/// What is to be done after a step of the start.
#[derive(Debug)]
pub enum Action {
    /// Announce the address of the query endpoint to the registry, then
    /// listen on the local address.
    Announce { query_url: String, bind_address: String },
    /// Say that the service cannot start.
    GiveUp,
    /// Nothing: the start was over before.
    Nothing,
}

/// The address of the query endpoint for a port.
pub open spec fn query_url_text(port: u16) -> Seq<char> {
    "http://localhost:"@ + padded(port as nat, 1) + "/query"@
}

/// The local address to listen on for a port.
pub open spec fn bind_address_text(port: u16) -> Seq<char> {
    "127.0.0.1:"@ + padded(port as nat, 1)
}

/// The state that follows the registry's answer.
pub open spec fn next_state(state: Startup, reply: Option<u16>) -> Startup {
    match (state, reply) {
        (Startup::Unregistered, Some(port)) => Startup::Registered { port },
        (Startup::Unregistered, None) => Startup::Failed,
        _ => state,
    }
}

/// The address of the query endpoint for a port.
pub fn query_url(port: u16) -> (url: String)
    ensures
        url@ == query_url_text(port),
{
    String::from_str("http://localhost:").concat(decimal(port).as_str()).concat("/query")
}

/// The local address to listen on for a port.
pub fn bind_address(port: u16) -> (address: String)
    ensures
        address@ == bind_address_text(port),
{
    String::from_str("127.0.0.1:").concat(decimal(port).as_str())
}

impl Startup {
    /// The state before the registry was asked.
    pub fn new() -> (state: Startup)
        ensures
            state == Startup::Unregistered,
    {
        Startup::Unregistered
    }

    /// Whether the start is over, one way or the other.
    pub fn is_terminal(&self) -> (r: bool)
        ensures
            r == (*self != Startup::Unregistered),
    {
        match self {
            Startup::Unregistered => false,
            _ => true,
        }
    }

    /// Takes the registry's answer. Before any answer, a port leads to
    /// `Registered` and to the announcement of the two addresses for that
    /// port; no port leads to `Failed`. A state in which the start is over
    /// stays as it is.
    pub fn on_port_reply(self, reply: Option<u16>) -> (r: (Startup, Action))
        ensures
            r.0 == next_state(self, reply),
            match (self, reply) {
                (Startup::Unregistered, Some(port)) => r.1 matches Action::Announce {
                    query_url,
                    bind_address,
                } && query_url@ == query_url_text(port) && bind_address@ == bind_address_text(port),
                (Startup::Unregistered, None) => r.1 is GiveUp,
                _ => r.1 is Nothing,
            },
    {
        match self {
            Startup::Unregistered => match reply {
                Some(port) => (
                    Startup::Registered { port },
                    Action::Announce { query_url: query_url(port), bind_address: bind_address(port) },
                ),
                None => (Startup::Failed, Action::GiveUp),
            },
            _ => (self, Action::Nothing),
        }
    }
}

} // verus!
