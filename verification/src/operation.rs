//! The capability set every write-style operation offers: build the wire
//! command, and interpret the server's reply. The transport layer depends
//! on this seam alone, never on a concrete operation.

use vstd::prelude::*;
use crate::cmap::Command;
use crate::cmap::CommandResponse;
use crate::cmap::StreamDescription;
use crate::error::Error;

verus! {

/// A write-style operation: a pure transformation from logical intent to a
/// wire command, and from a decoded reply to a typed result.
pub trait Operation {
    /// The success value the reply parses into.
    type Output;

    /// Produce the command to send to a server with the given capabilities.
    fn build(&self, description: &StreamDescription) -> Result<Command, Error>;

    /// Parse a decoded reply into the operation's success value or a
    /// classified error.
    fn handle_response(&self, response: CommandResponse) -> Result<Self::Output, Error>;
}

} // verus!
