//! The delete operation: holds the logical request, builds the `delete`
//! wire command, and interprets the server's reply.

use vstd::prelude::*;
use crate::cmap::Command;
use crate::cmap::CommandResponse;
use crate::cmap::StreamDescription;
use crate::document::Document;
use crate::document::SpecDoc;
use crate::document::SpecValue;
use crate::document::Value;
use crate::document::array_of;
use crate::document::array_at;
use crate::document::doc_of;
use crate::document::doc_at;
use crate::document::int_at;
use crate::document::lemma_lookup_skip;
use crate::document::lookup;
use crate::document::text_at;
use crate::error::Error;
use crate::error::ErrorKind;
use crate::error::WriteConcernError;
use crate::error::WriteError;
use crate::error::WriteFailure;
use crate::namespace::Namespace;
use crate::operation::Operation;
use crate::options::DeleteOptions;

verus! {

/// The bit pattern of the double `1`, the value a server reply carries in
/// its `ok` field.
pub const DOUBLE_ONE_BITS: u64 = 0x3FF0_0000_0000_0000;

/// Whether a wire value is the `ok` marker of a successful command: the
/// number one, in any of its wire forms.
pub open spec fn spec_is_ok_marker(v: SpecValue) -> bool {
    ||| v == SpecValue::Int32(1int)
    ||| v == SpecValue::Int64(1int)
    ||| v == SpecValue::Double(DOUBLE_ONE_BITS)
}

/// The fields a delete reply may carry. A reply carrying any other key may
/// signal a server contract this layer does not understand, and is rejected.
pub open spec fn recognized_reply_key(k: Seq<char>) -> bool {
    ||| k == "ok"@
    ||| k == "n"@
    ||| k == "writeErrors"@
    ||| k == "writeConcernError"@
}

/// Whether a `writeConcernError` sub-document has exactly the recognized
/// shape: only the keys `code`, `codeName`, `errmsg`, with an integer code
/// and text for the other two.
pub open spec fn wc_error_doc_ok(ed: SpecDoc) -> bool {
    &&& forall|i: int| 0 <= i < ed.len() ==> {
            ||| (#[trigger] ed[i].0) == "code"@
            ||| ed[i].0 == "codeName"@
            ||| ed[i].0 == "errmsg"@
        }
    &&& int_at(ed, "code"@) is Some
    &&& text_at(ed, "codeName"@) is Some
    &&& text_at(ed, "errmsg"@) is Some
}

/// Whether one element of `writeErrors` has exactly the recognized shape: a
/// document with only the keys `index`, `code`, `errmsg`, integers for the
/// first two and text for the last.
pub open spec fn write_error_entry_ok(v: SpecValue) -> bool {
    &&& doc_of(v) matches Some(ed)
    &&& forall|i: int| 0 <= i < doc_of(v)->0.len() ==> {
            ||| (#[trigger] doc_of(v)->0[i].0) == "index"@
            ||| doc_of(v)->0[i].0 == "code"@
            ||| doc_of(v)->0[i].0 == "errmsg"@
        }
    &&& int_at(doc_of(v)->0, "index"@) is Some
    &&& int_at(doc_of(v)->0, "code"@) is Some
    &&& text_at(doc_of(v)->0, "errmsg"@) is Some
}

/// Whether a reply matches a recognized delete-reply shape: only recognized
/// keys, an `ok` marker, a non-negative integer `n`, and well-shaped error
/// reports where present.
pub open spec fn reply_well_formed(m: SpecDoc) -> bool {
    &&& forall|i: int| 0 <= i < m.len() ==> recognized_reply_key(#[trigger] m[i].0)
    &&& lookup(m, "ok"@) matches Some(okv) && spec_is_ok_marker(okv)
    &&& int_at(m, "n"@) matches Some(n) && n >= 0
    &&& match lookup(m, "writeErrors"@) {
            Some(v) => {
                &&& array_of(v) is Some
                &&& forall|i: int| 0 <= i < array_of(v)->0.len() ==>
                    write_error_entry_ok(#[trigger] array_of(v)->0[i])
            },
            None => true,
        }
    &&& match lookup(m, "writeConcernError"@) {
            Some(v) => doc_of(v) matches Some(ed) && wc_error_doc_ok(ed),
            None => true,
        }
}

/// The first reported write error of a reply, as a sub-document, or `None`
/// when the reply reports none.
pub open spec fn reply_first_write_error(m: SpecDoc) -> Option<SpecDoc> {
    match array_at(m, "writeErrors"@) {
        Some(items) => if items.len() > 0 {
            doc_of(items[0])
        } else {
            None
        },
        None => None,
    }
}

/// A response-shape rejection carrying a short description.
fn response_error(message: &str) -> (e: Error)
    ensures
        e.kind matches ErrorKind::ResponseError { .. },
{
    Error::new(ErrorKind::ResponseError { message: message.to_owned() })
}

/// Whether `v` is the `ok` marker of a successful command.
fn is_ok_marker(v: &Value) -> (b: bool)
    ensures
        b == spec_is_ok_marker(v.model()),
{
    match v {
        Value::Int32(n) => *n == 1,
        Value::Int64(n) => *n == 1,
        Value::Double(bits) => *bits == DOUBLE_ONE_BITS,
        _ => false,
    }
}

/// Whether every key of `d` is a recognized reply key.
fn reply_keys_recognized(d: &Document) -> (b: bool)
    ensures
        b == (forall|i: int| 0 <= i < d.model().len() ==>
            recognized_reply_key(#[trigger] d.model()[i].0)),
{
    let k_ok: String = "ok".to_owned();
    let k_n: String = "n".to_owned();
    let k_we: String = "writeErrors".to_owned();
    let k_wce: String = "writeConcernError".to_owned();
    let mut i: usize = 0;
    while i < d.fields.len()
        invariant
            k_ok@ == "ok"@,
            k_n@ == "n"@,
            k_we@ == "writeErrors"@,
            k_wce@ == "writeConcernError"@,
            i <= d.fields.len(),
            forall|j: int| 0 <= j < i as int ==>
                recognized_reply_key(#[trigger] d.model()[j].0),
        decreases d.fields.len() - i,
    {
        let recognized = d.fields[i].key == k_ok || d.fields[i].key == k_n
            || d.fields[i].key == k_we || d.fields[i].key == k_wce;
        if !recognized {
            proof {
                assert(!recognized_reply_key(d.model()[i as int].0));
            }
            return false;
        }
        i = i + 1;
    }
    true
}

/// Whether every key of a `writeConcernError` sub-document is recognized.
fn wc_error_keys_recognized(d: &Document) -> (b: bool)
    ensures
        b == (forall|i: int| 0 <= i < d.model().len() ==> {
            ||| (#[trigger] d.model()[i].0) == "code"@
            ||| d.model()[i].0 == "codeName"@
            ||| d.model()[i].0 == "errmsg"@
        }),
{
    let k_code: String = "code".to_owned();
    let k_code_name: String = "codeName".to_owned();
    let k_errmsg: String = "errmsg".to_owned();
    let mut i: usize = 0;
    while i < d.fields.len()
        invariant
            k_code@ == "code"@,
            k_code_name@ == "codeName"@,
            k_errmsg@ == "errmsg"@,
            i <= d.fields.len(),
            forall|j: int| 0 <= j < i as int ==> {
                ||| (#[trigger] d.model()[j].0) == "code"@
                ||| d.model()[j].0 == "codeName"@
                ||| d.model()[j].0 == "errmsg"@
            },
        decreases d.fields.len() - i,
    {
        let recognized = d.fields[i].key == k_code || d.fields[i].key == k_code_name
            || d.fields[i].key == k_errmsg;
        if !recognized {
            proof {
                assert(d.model()[i as int].0 == d.fields@[i as int].key@);
            }
            return false;
        }
        i = i + 1;
    }
    true
}

/// Whether every key of one `writeErrors` element is recognized.
fn write_error_keys_recognized(d: &Document) -> (b: bool)
    ensures
        b == (forall|i: int| 0 <= i < d.model().len() ==> {
            ||| (#[trigger] d.model()[i].0) == "index"@
            ||| d.model()[i].0 == "code"@
            ||| d.model()[i].0 == "errmsg"@
        }),
{
    let k_index: String = "index".to_owned();
    let k_code: String = "code".to_owned();
    let k_errmsg: String = "errmsg".to_owned();
    let mut i: usize = 0;
    while i < d.fields.len()
        invariant
            k_index@ == "index"@,
            k_code@ == "code"@,
            k_errmsg@ == "errmsg"@,
            i <= d.fields.len(),
            forall|j: int| 0 <= j < i as int ==> {
                ||| (#[trigger] d.model()[j].0) == "index"@
                ||| d.model()[j].0 == "code"@
                ||| d.model()[j].0 == "errmsg"@
            },
        decreases d.fields.len() - i,
    {
        let recognized = d.fields[i].key == k_index || d.fields[i].key == k_code
            || d.fields[i].key == k_errmsg;
        if !recognized {
            proof {
                assert(d.model()[i as int].0 == d.fields@[i as int].key@);
            }
            return false;
        }
        i = i + 1;
    }
    true
}

/// Parse a `writeConcernError` sub-document, or reject its shape.
fn parse_wc_error(ed: &Document) -> (r: Option<WriteConcernError>)
    ensures
        match r {
            Some(w) => {
                &&& wc_error_doc_ok(ed.model())
                &&& int_at(ed.model(), "code"@) == Some(w.code as int)
                &&& text_at(ed.model(), "codeName"@) == Some(w.code_name@)
                &&& text_at(ed.model(), "errmsg"@) == Some(w.message@)
            },
            None => !wc_error_doc_ok(ed.model()),
        },
{
    if !wc_error_keys_recognized(ed) {
        return None;
    }
    let code: i64 = match ed.get("code") {
        Some(v) => match v.as_int() {
            Some(n) => n,
            None => {
                return None;
            },
        },
        None => {
            return None;
        },
    };
    let code_name: String = match ed.get("codeName") {
        Some(v) => match v.as_text() {
            Some(s) => s.clone(),
            None => {
                return None;
            },
        },
        None => {
            return None;
        },
    };
    let message: String = match ed.get("errmsg") {
        Some(v) => match v.as_text() {
            Some(s) => s.clone(),
            None => {
                return None;
            },
        },
        None => {
            return None;
        },
    };
    Some(WriteConcernError { code, code_name, message })
}

/// Parse one `writeErrors` element into a `WriteError`, or reject its
/// shape. The wire element names no `codeName`, so the parsed error carries
/// none.
fn parse_write_error(v: &Value) -> (r: Option<WriteError>)
    ensures
        match r {
            Some(w) => {
                &&& write_error_entry_ok(v.model())
                &&& int_at(doc_of(v.model())->0, "code"@) == Some(w.code as int)
                &&& w.code_name is None
                &&& text_at(doc_of(v.model())->0, "errmsg"@) == Some(w.message@)
            },
            None => !write_error_entry_ok(v.model()),
        },
{
    let ed: &Document = match v.as_doc() {
        Some(d) => d,
        None => {
            return None;
        },
    };
    if !write_error_keys_recognized(ed) {
        return None;
    }
    match ed.get("index") {
        Some(iv) => {
            if iv.as_int().is_none() {
                return None;
            }
        },
        None => {
            return None;
        },
    }
    let code: i64 = match ed.get("code") {
        Some(cv) => match cv.as_int() {
            Some(n) => n,
            None => {
                return None;
            },
        },
        None => {
            return None;
        },
    };
    let message: String = match ed.get("errmsg") {
        Some(mv) => match mv.as_text() {
            Some(s) => s.clone(),
            None => {
                return None;
            },
        },
        None => {
            return None;
        },
    };
    Some(WriteError { code, code_name: None, message })
}

/// How many matching documents a delete may remove: all of them, or at most
/// one. These are the only two states the wire format allows.
#[derive(Clone, Copy, Debug, PartialEq, Eq, Structural)]
pub enum DeleteLimit {
    Many,
    One,
}

/// The outcome of a delete that succeeded.
#[derive(Clone, Copy, Debug, PartialEq, Eq, Structural)]
pub struct DeleteResult {
    pub deleted_count: u64,
}

/// A delete request: which collection, which documents, how many at most,
/// and the caller's options. Immutable once constructed; used for one
/// `build` and one `handle_response`.
#[derive(Debug, PartialEq)]
pub struct Delete {
    pub ns: Namespace,
    pub filter: Document,
    pub limit: DeleteLimit,
    pub options: Option<DeleteOptions>,
}

impl Delete {
    /// The wire value of the statement's `limit` field.
    pub open spec fn spec_limit_value(self) -> int {
        match self.limit {
            DeleteLimit::Many => 0,
            DeleteLimit::One => 1,
        }
    }

    /// The write concern the built command carries, if any was set.
    pub open spec fn spec_write_concern(self) -> Option<crate::concern::WriteConcern> {
        match self.options {
            Some(o) => o.write_concern,
            None => None,
        }
    }

    /// The body of the built command: the collection name, one delete
    /// statement holding the caller's filter and the limit, the write
    /// concern only when one was set, and `ordered` always `true`.
    pub open spec fn spec_body(self) -> SpecDoc {
        let stmt = seq![
            ("q"@, SpecValue::Doc(self.filter.model())),
            ("limit"@, SpecValue::Int32(self.spec_limit_value())),
        ];
        let base = seq![
            ("delete"@, SpecValue::Text(self.ns.coll@)),
            ("deletes"@, SpecValue::Array(seq![SpecValue::Doc(stmt)])),
        ];
        let with_wc = match self.spec_write_concern() {
            Some(wc) => base.push(("writeConcern"@, SpecValue::Doc(wc.spec_to_doc()))),
            None => base,
        };
        with_wc.push(("ordered"@, SpecValue::Boolean(true)))
    }

    /// A delete of the documents matching `filter` in `ns`. A limit of
    /// `Some(1)` removes at most one document; `None` removes every match.
    /// The wire format admits no other limit.
    pub fn new(
        ns: Namespace,
        filter: Document,
        limit: Option<u32>,
        options: Option<DeleteOptions>,
    ) -> (d: Delete)
        requires
            limit is None || limit == Some(1u32),
        ensures
            d.ns == ns,
            d.filter == filter,
            d.options == options,
            d.limit == (if limit is Some {
                DeleteLimit::One
            } else {
                DeleteLimit::Many
            }),
    {
        let lim = match limit {
            Some(_) => DeleteLimit::One,
            None => DeleteLimit::Many,
        };
        Delete { ns, filter, limit: lim, options }
    }

    /// An operation with no real target or filter: support for exercising
    /// reply handling alone. Never part of the command-building path.
    pub fn empty() -> (d: Delete)
        ensures
            d.limit == DeleteLimit::Many,
            d.options is None,
    {
        Delete {
            ns: Namespace { db: String::new(), coll: String::new() },
            filter: Document::new(),
            limit: DeleteLimit::Many,
            options: None,
        }
    }

    /// Build the `delete` command: named `delete`, addressed to the
    /// namespace's database, routed to a writable target, with exactly the
    /// body `spec_body` describes.
    pub fn build(&self, _description: &StreamDescription) -> (r: Result<Command, Error>)
        ensures
            r matches Ok(c) && {
                &&& c.name@ == "delete"@
                &&& c.target_db@ == self.ns.db@
                &&& c.read_pref is None
                &&& c.body.model() == self.spec_body()
            },
    {
        let mut stmt = Document::new();
        stmt.push("q".to_owned(), Value::Doc(self.filter.clone()));
        let limit_value: i32 = match self.limit {
            DeleteLimit::Many => 0,
            DeleteLimit::One => 1,
        };
        stmt.push("limit".to_owned(), Value::Int32(limit_value));
        let ghost stmt_model = stmt.model();

        let mut body = Document::new();
        body.push("delete".to_owned(), Value::Text(self.ns.coll.clone()));
        let mut statements: Vec<Value> = Vec::new();
        statements.push(Value::Doc(stmt));
        body.push("deletes".to_owned(), Value::Array(statements));
        match &self.options {
            Some(o) => match &o.write_concern {
                Some(wc) => {
                    body.push("writeConcern".to_owned(), Value::Doc(wc.to_document()));
                },
                None => {},
            },
            None => {},
        }
        body.push("ordered".to_owned(), Value::Boolean(true));
        proof {
            reveal_with_fuel(Value::model, 3);
            reveal_with_fuel(Document::model, 3);
            let arr_m = body.model()[1].1->Array_0;
            let arr_s = self.spec_body()[1].1->Array_0;
            assert(stmt_model =~~= seq![
                ("q"@, SpecValue::Doc(self.filter.model())),
                ("limit"@, SpecValue::Int32(self.spec_limit_value())),
            ]);
            assert(arr_m[0] =~~= SpecValue::Doc(stmt_model));
            assert(arr_m[0] =~~= arr_s[0]);
            assert(arr_m =~~= arr_s);
            assert(body.model()[1].1 =~~= self.spec_body()[1].1);
            assert(body.model() =~~= self.spec_body());
        }
        Ok(Command {
            name: "delete".to_owned(),
            target_db: self.ns.db.clone(),
            read_pref: None,
            body,
        })
    }

    /// Interpret the server's reply. A reply outside the recognized shapes
    /// is rejected as a response-shape error; a well-shaped reply fails
    /// with its write-concern error if it carries one, else with its first
    /// write error if it reports any, and otherwise succeeds with `n` as
    /// the deleted count.
    pub fn handle_response(&self, response: CommandResponse) -> (r: Result<
        DeleteResult,
        Error,
    >)
        ensures
            ({
                let m = response.model();
                match r {
                    Ok(res) => {
                        &&& reply_well_formed(m)
                        &&& lookup(m, "writeConcernError"@) is None
                        &&& reply_first_write_error(m) is None
                        &&& int_at(m, "n"@) == Some(res.deleted_count as int)
                    },
                    Err(e) => match e.kind {
                        ErrorKind::ResponseError { .. } => !reply_well_formed(m),
                        ErrorKind::WriteError(WriteFailure::WriteConcernError(w)) => {
                            &&& reply_well_formed(m)
                            &&& doc_at(m, "writeConcernError"@) is Some
                            &&& int_at(doc_at(m, "writeConcernError"@)->0, "code"@)
                                == Some(w.code as int)
                            &&& text_at(doc_at(m, "writeConcernError"@)->0, "codeName"@)
                                == Some(w.code_name@)
                            &&& text_at(doc_at(m, "writeConcernError"@)->0, "errmsg"@)
                                == Some(w.message@)
                        },
                        ErrorKind::WriteError(WriteFailure::WriteError(w)) => {
                            &&& reply_well_formed(m)
                            &&& lookup(m, "writeConcernError"@) is None
                            &&& reply_first_write_error(m) is Some
                            &&& int_at(reply_first_write_error(m)->0, "code"@)
                                == Some(w.code as int)
                            &&& w.code_name is None
                            &&& text_at(reply_first_write_error(m)->0, "errmsg"@)
                                == Some(w.message@)
                        },
                        _ => false,
                    },
                }
            }),
    {
        let doc = &response.raw;
        let ghost m = response.model();
        if !reply_keys_recognized(doc) {
            return Err(response_error("reply carries an unrecognized field"));
        }
        let ok_marker = match doc.get("ok") {
            Some(okv) => is_ok_marker(okv),
            None => false,
        };
        if !ok_marker {
            return Err(response_error("reply lacks an ok marker"));
        }
        let n_val: i64 = match doc.get("n") {
            Some(nv) => match nv.as_int() {
                Some(n) => n,
                None => {
                    return Err(response_error("reply n is not an integer"));
                },
            },
            None => {
                return Err(response_error("reply lacks n"));
            },
        };
        if n_val < 0 {
            return Err(response_error("reply n is negative"));
        }
        let wc_failure: Option<WriteConcernError> = match doc.get("writeConcernError") {
            Some(wv) => match wv.as_doc() {
                Some(ed) => match parse_wc_error(ed) {
                    Some(w) => Some(w),
                    None => {
                        return Err(response_error("malformed writeConcernError"));
                    },
                },
                None => {
                    return Err(response_error("writeConcernError is not a document"));
                },
            },
            None => None,
        };
        let first_failure: Option<WriteError> = match doc.get("writeErrors") {
            Some(ev) => match ev.as_array() {
                Some(items) => {
                    let mut i: usize = 0;
                    while i < items.len()
                        invariant
                            i <= items.len(),
                            m == response.model(),
                            lookup(m, "writeErrors"@) == Some(ev.model()),
                            array_of(ev.model()) is Some,
                            array_of(ev.model())->0.len() == items@.len(),
                            forall|k: int| 0 <= k < items@.len() ==>
                                array_of(ev.model())->0[k] == #[trigger] items@[k].model(),
                            forall|j: int| 0 <= j < i as int ==>
                                write_error_entry_ok(#[trigger] items@[j].model()),
                        decreases items.len() - i,
                    {
                        if parse_write_error(&items[i]).is_none() {
                            proof {
                                assert(array_of(ev.model())->0[i as int]
                                    == items@[i as int].model());
                                assert(!write_error_entry_ok(
                                    array_of(ev.model())->0[i as int],
                                ));
                            }
                            return Err(response_error("malformed writeErrors entry"));
                        }
                        i = i + 1;
                    }
                    proof {
                        assert forall|k: int| 0 <= k < array_of(ev.model())->0.len() implies
                            write_error_entry_ok(
                                #[trigger] array_of(ev.model())->0[k],
                            ) by {
                            assert(array_of(ev.model())->0[k] == items@[k].model());
                        }
                    }
                    if items.len() > 0 {
                        match parse_write_error(&items[0]) {
                            Some(w) => Some(w),
                            None => {
                                return Err(response_error("malformed writeErrors entry"));
                            },
                        }
                    } else {
                        None
                    }
                },
                None => {
                    return Err(response_error("writeErrors is not an array"));
                },
            },
            None => None,
        };
        proof {
            assert(reply_well_formed(m));
        }
        match wc_failure {
            Some(w) => Err(Error::new(ErrorKind::WriteError(WriteFailure::WriteConcernError(w)))),
            None => match first_failure {
                Some(w) => Err(Error::new(ErrorKind::WriteError(WriteFailure::WriteError(w)))),
                None => Ok(DeleteResult { deleted_count: n_val as u64 }),
            },
        }
    }
}

impl Operation for Delete {
    type Output = DeleteResult;

    fn build(&self, description: &StreamDescription) -> Result<Command, Error> {
        Delete::build(self, description)
    }

    fn handle_response(&self, response: CommandResponse) -> Result<DeleteResult, Error> {
        Delete::handle_response(self, response)
    }
}

/// Every built body carries exactly one delete statement: its filter is the
/// caller's filter unchanged, and its limit is `1` for a delete of at most
/// one document and `0` for an unbounded delete.
pub proof fn lemma_build_statement(op: Delete)
    ensures
        array_at(op.spec_body(), "deletes"@) is Some,
        array_at(op.spec_body(), "deletes"@)->0.len() == 1,
        doc_of(array_at(op.spec_body(), "deletes"@)->0[0]) is Some,
        lookup(doc_of(array_at(op.spec_body(), "deletes"@)->0[0])->0, "q"@)
            == Some(SpecValue::Doc(op.filter.model())),
        lookup(doc_of(array_at(op.spec_body(), "deletes"@)->0[0])->0, "limit"@)
            == Some(SpecValue::Int32(op.spec_limit_value())),
{
    reveal_strlit("delete");
    reveal_strlit("deletes");
    reveal_strlit("q");
    reveal_strlit("limit");
    let b = op.spec_body();
    let stmt = seq![
        ("q"@, SpecValue::Doc(op.filter.model())),
        ("limit"@, SpecValue::Int32(op.spec_limit_value())),
    ];
    assert(b[0].0 == "delete"@);
    assert(b[1] == ("deletes"@, SpecValue::Array(seq![SpecValue::Doc(stmt)])));
    assert("delete"@.len() == 6 && "deletes"@.len() == 7);
    lemma_lookup_skip(b, "deletes"@, 1);
    assert(b.skip(1)[0] == b[1]);
    assert(lookup(b.skip(1), "deletes"@) == Some(b[1].1));
    assert(array_at(b, "deletes"@) == Some(seq![SpecValue::Doc(stmt)]));
    assert("q"@.len() == 1 && "limit"@.len() == 5);
    assert(lookup(stmt, "q"@) == Some(stmt[0].1));
    lemma_lookup_skip(stmt, "limit"@, 1);
    assert(stmt.skip(1)[0] == stmt[1]);
    assert(lookup(stmt.skip(1), "limit"@) == Some(stmt[1].1));
}

/// Every built body says `ordered: true`.
pub proof fn lemma_build_ordered(op: Delete)
    ensures
        lookup(op.spec_body(), "ordered"@) == Some(SpecValue::Boolean(true)),
{
    reveal_strlit("delete");
    reveal_strlit("deletes");
    reveal_strlit("writeConcern");
    reveal_strlit("ordered");
    let b = op.spec_body();
    assert(b[0].0 == "delete"@ && b[1].0 == "deletes"@);
    assert("delete"@.len() == 6 && "ordered"@.len() == 7 && "writeConcern"@.len() == 12);
    assert("deletes"@[0] == 'd' && "ordered"@[0] == 'o');
    match op.spec_write_concern() {
        Some(wc) => {
            assert(b.len() == 4 && b[2].0 == "writeConcern"@);
            assert(b[3] == ("ordered"@, SpecValue::Boolean(true)));
            lemma_lookup_skip(b, "ordered"@, 3);
            assert(b.skip(3)[0] == b[3]);
            assert(lookup(b.skip(3), "ordered"@) == Some(b[3].1));
        },
        None => {
            assert(b.len() == 3 && b[2] == ("ordered"@, SpecValue::Boolean(true)));
            lemma_lookup_skip(b, "ordered"@, 2);
            assert(b.skip(2)[0] == b[2]);
            assert(lookup(b.skip(2), "ordered"@) == Some(b[2].1));
        },
    }
}

/// The built body carries the set write concern as `writeConcern`, and no
/// such field at all when none was set.
pub proof fn lemma_build_write_concern(op: Delete)
    ensures
        op.spec_write_concern() matches Some(wc) ==>
            doc_at(op.spec_body(), "writeConcern"@) == Some(wc.spec_to_doc()),
        op.spec_write_concern() is None ==>
            lookup(op.spec_body(), "writeConcern"@) is None,
{
    reveal_strlit("delete");
    reveal_strlit("deletes");
    reveal_strlit("writeConcern");
    reveal_strlit("ordered");
    let b = op.spec_body();
    assert(b[0].0 == "delete"@ && b[1].0 == "deletes"@);
    assert("delete"@.len() == 6 && "deletes"@.len() == 7 && "ordered"@.len() == 7
        && "writeConcern"@.len() == 12);
    match op.spec_write_concern() {
        Some(wc) => {
            assert(b.len() == 4 && b[2] == ("writeConcern"@, SpecValue::Doc(wc.spec_to_doc())));
            lemma_lookup_skip(b, "writeConcern"@, 2);
            assert(b.skip(2)[0] == b[2]);
            assert(lookup(b.skip(2), "writeConcern"@) == Some(b[2].1));
        },
        None => {
            assert(b.len() == 3 && b[2].0 == "ordered"@);
            lemma_lookup_skip(b, "writeConcern"@, 3);
            assert(b.skip(3).len() == 0);
        },
    }
}

/// A majority write concern with nothing else set serializes to exactly
/// `{"w": "majority"}`.
pub proof fn lemma_majority_wire_form(wc: crate::concern::WriteConcern)
    requires
        wc.w == Some(crate::concern::Acknowledgment::Majority),
        wc.w_timeout_ms is None,
        wc.journal is None,
    ensures
        wc.spec_to_doc() =~= seq![("w"@, SpecValue::Text("majority"@))],
{
}

/// Building is deterministic: two commands built from one operation carry
/// identical bodies.
pub proof fn lemma_build_idempotent(op: Delete, c1: Command, c2: Command)
    requires
        c1.body.model() == op.spec_body(),
        c2.body.model() == op.spec_body(),
    ensures
        c1.body.model() == c2.body.model(),
{
}

} // verus!
