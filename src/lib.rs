//! A small message board served by several workers that share one log.
//!
//! The log itself ([`store::MessageLog`]) is an ordered sequence of texts;
//! each worker owns a [`instance::ServerInstance`] with its own identity and
//! request tally, and answers requests by combining the two.
use vstd::prelude::*;

pub mod gate;
pub mod identity;
pub mod instance;
pub mod response;
pub mod store;

verus! {

/// Startup configuration of the message server: the loopback port it binds.
pub struct MessageApp {
    port: u16,
}

impl MessageApp {
    pub closed spec fn spec_port(&self) -> u16 {
        self.port
    }

    pub fn new(port: u16) -> (r: Self)
        ensures
            r.spec_port() == port,
    {
        MessageApp { port }
    }

    /// The port the server binds on 127.0.0.1.
    pub fn port(&self) -> (r: u16)
        ensures
            r == self.spec_port(),
    {
        self.port
    }
}

} // verus!
