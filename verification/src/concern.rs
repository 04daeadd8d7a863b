//! Write concern: the durability and acknowledgment requirement attached to
//! a write, and its wire form.

use vstd::prelude::*;
use crate::document::Document;
use crate::document::SpecDoc;
use crate::document::SpecValue;
use crate::document::Value;

verus! {

/// The acknowledgment level requested of the server.
#[derive(Debug, PartialEq)]
pub enum Acknowledgment {
    /// A majority of the replica set must acknowledge the write.
    Majority,
    /// A fixed number of nodes must acknowledge the write.
    Number(u32),
    /// The nodes carrying the given tag must acknowledge the write.
    Tag(String),
}

/// The durability requirement of a write: each part is set only when the
/// caller asked for it, and only the set parts reach the wire.
#[derive(Debug, PartialEq)]
pub struct WriteConcern {
    pub w: Option<Acknowledgment>,
    /// Time limit in milliseconds for satisfying the concern.
    pub w_timeout_ms: Option<u32>,
    /// Whether the write must reach the journal.
    pub journal: Option<bool>,
}

impl Acknowledgment {
    /// The wire value of the `w` field.
    pub open spec fn spec_wire_value(self) -> SpecValue {
        match self {
            Acknowledgment::Majority => SpecValue::Text("majority"@),
            Acknowledgment::Number(n) => SpecValue::Int64(n as int),
            Acknowledgment::Tag(t) => SpecValue::Text(t@),
        }
    }

    /// Produce the wire value of the `w` field.
    pub fn wire_value(&self) -> (v: Value)
        ensures
            v.model() == self.spec_wire_value(),
    {
        match self {
            Acknowledgment::Majority => Value::Text("majority".to_owned()),
            Acknowledgment::Number(n) => Value::Int64(*n as i64),
            Acknowledgment::Tag(t) => Value::Text(t.clone()),
        }
    }
}

impl Default for WriteConcern {
    /// A write concern with nothing set: the server's defaults apply.
    fn default() -> (wc: WriteConcern)
        ensures
            wc.w is None,
            wc.w_timeout_ms is None,
            wc.journal is None,
    {
        WriteConcern { w: None, w_timeout_ms: None, journal: None }
    }
}

impl WriteConcern {
    /// The wire sub-document this concern serializes to: one field per set
    /// part, in the order `w`, `wtimeout`, `j`, and no field for an absent
    /// part.
    pub open spec fn spec_to_doc(self) -> SpecDoc {
        let base = Seq::<(Seq<char>, SpecValue)>::empty();
        let with_w = match self.w {
            Some(a) => base.push(("w"@, a.spec_wire_value())),
            None => base,
        };
        let with_t = match self.w_timeout_ms {
            Some(t) => with_w.push(("wtimeout"@, SpecValue::Int64(t as int))),
            None => with_w,
        };
        match self.journal {
            Some(j) => with_t.push(("j"@, SpecValue::Boolean(j))),
            None => with_t,
        }
    }

    /// Serialize the concern to its wire sub-document.
    pub fn to_document(&self) -> (d: Document)
        ensures
            d.model() == self.spec_to_doc(),
    {
        let mut d = Document::new();
        match &self.w {
            Some(a) => {
                d.push("w".to_owned(), a.wire_value());
            },
            None => {},
        }
        match &self.w_timeout_ms {
            Some(t) => {
                d.push("wtimeout".to_owned(), Value::Int64(*t as i64));
            },
            None => {},
        }
        match &self.journal {
            Some(j) => {
                d.push("j".to_owned(), Value::Boolean(*j));
            },
            None => {},
        }
        d
    }
}

impl Clone for Acknowledgment {
    /// A clone asks for the same acknowledgment.
    fn clone(&self) -> (r: Acknowledgment)
        ensures
            r.spec_wire_value() == self.spec_wire_value(),
            r is Majority <==> self is Majority,
            r is Number <==> self is Number,
            r is Tag <==> self is Tag,
    {
        match self {
            Acknowledgment::Majority => Acknowledgment::Majority,
            Acknowledgment::Number(n) => Acknowledgment::Number(*n),
            Acknowledgment::Tag(t) => Acknowledgment::Tag(t.clone()),
        }
    }
}

impl Clone for WriteConcern {
    /// A clone asks for the same concern.
    fn clone(&self) -> (r: WriteConcern)
        ensures
            r.spec_to_doc() == self.spec_to_doc(),
    {
        let r = WriteConcern {
            w: match &self.w {
                Some(a) => Some(a.clone()),
                None => None,
            },
            w_timeout_ms: match &self.w_timeout_ms {
                Some(t) => Some(*t),
                None => None,
            },
            journal: match &self.journal {
                Some(j) => Some(*j),
                None => None,
            },
        };
        r
    }
}

} // verus!
