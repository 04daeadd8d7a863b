//! The seam toward the transport layer: the command envelope that is handed
//! out to be sent, the wrapped reply that comes back, and the description of
//! the target server's negotiated capabilities.

use vstd::prelude::*;
use crate::document::Document;
use crate::document::SpecDoc;

verus! {

/// Where a command may be routed.
#[derive(Debug, PartialEq)]
pub enum ReadPreference {
    Primary,
}

/// A wire command: name, target database, optional routing preference, and
/// the fully assembled body.
#[derive(Debug, PartialEq)]
pub struct Command {
    pub name: String,
    pub target_db: String,
    pub read_pref: Option<ReadPreference>,
    pub body: Document,
}

/// The negotiated capabilities of the target server, as far as this layer
/// reads them.
#[derive(Debug, PartialEq)]
pub struct StreamDescription {
    pub max_wire_version: i32,
}

impl StreamDescription {
    /// A description as negotiated with a current server; enough for
    /// exercising command building without a live connection.
    pub fn new_testing() -> (d: StreamDescription)
        ensures
            d.max_wire_version == 6i32,
    {
        StreamDescription { max_wire_version: 6 }
    }
}

/// One decoded reply document, as handed back by the transport layer.
#[derive(Debug, PartialEq)]
pub struct CommandResponse {
    pub raw: Document,
}

impl CommandResponse {
    /// The mathematical document of the reply.
    pub open spec fn model(self) -> SpecDoc {
        self.raw.model()
    }

    /// Wrap a decoded reply document.
    pub fn with_document(doc: Document) -> (r: CommandResponse)
        ensures
            r.model() == doc.model(),
    {
        CommandResponse { raw: doc }
    }
}

} // verus!
