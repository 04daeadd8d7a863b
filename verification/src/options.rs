//! Options a caller may attach to a delete operation.

use vstd::prelude::*;
use crate::concern::WriteConcern;
use crate::document::Document;
use crate::document::Value;

verus! {

/// The recognized options of a delete operation. Absent options leave no
/// trace in the built command.
#[derive(Debug, PartialEq)]
pub struct DeleteOptions {
    pub write_concern: Option<WriteConcern>,
    pub collation: Option<Document>,
    pub hint: Option<Value>,
}

impl Default for DeleteOptions {
    /// No option set.
    fn default() -> (o: DeleteOptions)
        ensures
            o.write_concern is None,
            o.collation is None,
            o.hint is None,
    {
        DeleteOptions { write_concern: None, collation: None, hint: None }
    }
}

impl DeleteOptions {
    /// Start assembling options, none set yet.
    pub fn builder() -> (b: DeleteOptionsBuilder)
        ensures
            b.options.write_concern is None,
            b.options.collation is None,
            b.options.hint is None,
    {
        DeleteOptionsBuilder {
            options: DeleteOptions { write_concern: None, collation: None, hint: None },
        }
    }
}

/// Step-by-step assembly of `DeleteOptions`.
#[derive(Debug, PartialEq)]
pub struct DeleteOptionsBuilder {
    pub options: DeleteOptions,
}

impl DeleteOptionsBuilder {
    /// Set the write concern.
    pub fn write_concern(self, wc: WriteConcern) -> (b: DeleteOptionsBuilder)
        ensures
            b.options.write_concern == Some(wc),
            b.options.collation == self.options.collation,
            b.options.hint == self.options.hint,
    {
        DeleteOptionsBuilder {
            options: DeleteOptions {
                write_concern: Some(wc),
                collation: self.options.collation,
                hint: self.options.hint,
            },
        }
    }

    /// Set the collation.
    pub fn collation(self, collation: Document) -> (b: DeleteOptionsBuilder)
        ensures
            b.options.collation == Some(collation),
            b.options.write_concern == self.options.write_concern,
            b.options.hint == self.options.hint,
    {
        DeleteOptionsBuilder {
            options: DeleteOptions {
                write_concern: self.options.write_concern,
                collation: Some(collation),
                hint: self.options.hint,
            },
        }
    }

    /// Set the hint.
    pub fn hint(self, hint: Value) -> (b: DeleteOptionsBuilder)
        ensures
            b.options.hint == Some(hint),
            b.options.write_concern == self.options.write_concern,
            b.options.collation == self.options.collation,
    {
        DeleteOptionsBuilder {
            options: DeleteOptions {
                write_concern: self.options.write_concern,
                collation: self.options.collation,
                hint: Some(hint),
            },
        }
    }

    /// Finish: the assembled options.
    pub fn build(self) -> (o: DeleteOptions)
        ensures
            o == self.options,
    {
        self.options
    }
}

} // verus!
