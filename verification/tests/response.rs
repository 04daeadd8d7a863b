//! Reply handling of the delete operation, and the document model it reads
//! replies through.

use write_ops::cmap::CommandResponse;
use write_ops::error::ErrorKind;
use write_ops::error::WriteConcernError;
use write_ops::error::WriteError;
use write_ops::error::WriteFailure;
use write_ops::Delete;
use write_ops::Document;
use write_ops::Value;

fn ok_marker() -> Value {
    Value::Double(1.0f64.to_bits())
}

fn write_error_entry(index: i32, code: i32, errmsg: &str) -> Value {
    let mut entry = Document::new();
    entry.push("index".to_string(), Value::Int32(index));
    entry.push("code".to_string(), Value::Int32(code));
    entry.push("errmsg".to_string(), Value::Text(errmsg.to_string()));
    Value::Doc(entry)
}

#[test]
fn handle_success() {
    let op = Delete::empty();

    let mut doc = Document::new();
    doc.push("ok".to_string(), ok_marker());
    doc.push("n".to_string(), Value::Int32(3));
    let ok_response = CommandResponse::with_document(doc);

    let ok_result = op.handle_response(ok_response);
    assert!(ok_result.is_ok());

    let delete_result = ok_result.unwrap();
    assert_eq!(delete_result.deleted_count, 3);
}

#[test]
fn handle_invalid_response() {
    let op = Delete::empty();

    let mut doc = Document::new();
    doc.push("ok".to_string(), ok_marker());
    doc.push("asdfadsf".to_string(), Value::Int32(123123));
    let invalid_response = CommandResponse::with_document(doc);

    assert!(op.handle_response(invalid_response).is_err());
}

#[test]
fn handle_write_failure() {
    let op = Delete::empty();

    let mut doc = Document::new();
    doc.push("ok".to_string(), ok_marker());
    doc.push("n".to_string(), Value::Int32(0));
    doc.push(
        "writeErrors".to_string(),
        Value::Array(vec![write_error_entry(0, 1234, "my error string")]),
    );
    let write_error_response = CommandResponse::with_document(doc);

    let write_error_result = op.handle_response(write_error_response);
    assert!(write_error_result.is_err());
    match write_error_result.unwrap_err().kind {
        ErrorKind::WriteError(WriteFailure::WriteError(ref error)) => {
            let expected_err = WriteError {
                code: 1234,
                code_name: None,
                message: "my error string".to_string(),
            };
            assert_eq!(error, &expected_err);
        }
        ref e => panic!("expected write error, got {:?}", e),
    };
}

#[test]
fn handle_write_concern_failure() {
    let op = Delete::empty();

    let mut wc_err_doc = Document::new();
    wc_err_doc.push("code".to_string(), Value::Int32(456));
    wc_err_doc.push("codeName".to_string(), Value::Text("wcError".to_string()));
    wc_err_doc.push("errmsg".to_string(), Value::Text("some message".to_string()));

    let mut doc = Document::new();
    doc.push("ok".to_string(), ok_marker());
    doc.push("n".to_string(), Value::Int32(0));
    doc.push("writeConcernError".to_string(), Value::Doc(wc_err_doc));
    let wc_error_response = CommandResponse::with_document(doc);

    let wc_error_result = op.handle_response(wc_error_response);
    assert!(wc_error_result.is_err());

    match wc_error_result.unwrap_err().kind {
        ErrorKind::WriteError(WriteFailure::WriteConcernError(ref wc_error)) => {
            let expected_wc_err = WriteConcernError {
                code: 456,
                code_name: "wcError".to_string(),
                message: "some message".to_string(),
            };
            assert_eq!(wc_error, &expected_wc_err);
        }
        ref e => panic!("expected write concern error, got {:?}", e),
    }
}

#[test]
fn write_concern_error_takes_precedence() {
    let op = Delete::empty();

    let mut wc_err_doc = Document::new();
    wc_err_doc.push("code".to_string(), Value::Int32(456));
    wc_err_doc.push("codeName".to_string(), Value::Text("wcError".to_string()));
    wc_err_doc.push("errmsg".to_string(), Value::Text("concern failed".to_string()));

    let mut doc = Document::new();
    doc.push("ok".to_string(), ok_marker());
    doc.push("n".to_string(), Value::Int32(0));
    doc.push(
        "writeErrors".to_string(),
        Value::Array(vec![write_error_entry(0, 11, "document failed")]),
    );
    doc.push("writeConcernError".to_string(), Value::Doc(wc_err_doc));
    let response = CommandResponse::with_document(doc);

    match op.handle_response(response).unwrap_err().kind {
        ErrorKind::WriteError(WriteFailure::WriteConcernError(ref wc_error)) => {
            assert_eq!(wc_error.code, 456);
        }
        ref e => panic!("expected write concern error, got {:?}", e),
    }
}

#[test]
fn handle_success_with_int64_marker_and_count() {
    let op = Delete::empty();

    let mut doc = Document::new();
    doc.push("ok".to_string(), Value::Int64(1));
    doc.push("n".to_string(), Value::Int64(7));
    let response = CommandResponse::with_document(doc);

    assert_eq!(op.handle_response(response).unwrap().deleted_count, 7);
}

#[test]
fn handle_empty_write_errors_succeeds() {
    let op = Delete::empty();

    let mut doc = Document::new();
    doc.push("ok".to_string(), Value::Int32(1));
    doc.push("n".to_string(), Value::Int32(0));
    doc.push("writeErrors".to_string(), Value::Array(vec![]));
    let response = CommandResponse::with_document(doc);

    assert_eq!(op.handle_response(response).unwrap().deleted_count, 0);
}

#[test]
fn handle_missing_ok_rejected() {
    let op = Delete::empty();

    let mut doc = Document::new();
    doc.push("n".to_string(), Value::Int32(3));
    let response = CommandResponse::with_document(doc);

    match op.handle_response(response).unwrap_err().kind {
        ErrorKind::ResponseError { .. } => {}
        ref e => panic!("expected a response-shape error, got {:?}", e),
    }
}

#[test]
fn handle_ok_zero_rejected() {
    let op = Delete::empty();

    let mut doc = Document::new();
    doc.push("ok".to_string(), Value::Double(0.0f64.to_bits()));
    doc.push("n".to_string(), Value::Int32(3));
    let response = CommandResponse::with_document(doc);

    assert!(op.handle_response(response).is_err());
}

#[test]
fn handle_negative_n_rejected() {
    let op = Delete::empty();

    let mut doc = Document::new();
    doc.push("ok".to_string(), Value::Int32(1));
    doc.push("n".to_string(), Value::Int32(-1));
    let response = CommandResponse::with_document(doc);

    match op.handle_response(response).unwrap_err().kind {
        ErrorKind::ResponseError { .. } => {}
        ref e => panic!("expected a response-shape error, got {:?}", e),
    }
}

#[test]
fn handle_malformed_write_error_entry_rejected() {
    let op = Delete::empty();

    let mut entry = Document::new();
    entry.push("index".to_string(), Value::Int32(0));
    entry.push("code".to_string(), Value::Int32(9));
    entry.push("errmsg".to_string(), Value::Text("boom".to_string()));
    entry.push("surprise".to_string(), Value::Int32(1));

    let mut doc = Document::new();
    doc.push("ok".to_string(), Value::Int32(1));
    doc.push("n".to_string(), Value::Int32(0));
    doc.push("writeErrors".to_string(), Value::Array(vec![Value::Doc(entry)]));
    let response = CommandResponse::with_document(doc);

    match op.handle_response(response).unwrap_err().kind {
        ErrorKind::ResponseError { .. } => {}
        ref e => panic!("expected a response-shape error, got {:?}", e),
    }
}

#[test]
fn handle_non_document_write_concern_error_rejected() {
    let op = Delete::empty();

    let mut doc = Document::new();
    doc.push("ok".to_string(), Value::Int32(1));
    doc.push("n".to_string(), Value::Int32(0));
    doc.push("writeConcernError".to_string(), Value::Int32(5));
    let response = CommandResponse::with_document(doc);

    match op.handle_response(response).unwrap_err().kind {
        ErrorKind::ResponseError { .. } => {}
        ref e => panic!("expected a response-shape error, got {:?}", e),
    }
}

#[test]
fn document_get_returns_first_match() {
    let mut doc = Document::new();
    doc.push("k".to_string(), Value::Int32(1));
    doc.push("k".to_string(), Value::Int32(2));
    assert_eq!(doc.get("k"), Some(&Value::Int32(1)));
    assert_eq!(doc.get("missing"), None);
}

#[test]
fn document_clone_is_deep() {
    let mut inner = Document::new();
    inner.push("a".to_string(), Value::Int64(9));
    let mut doc = Document::new();
    doc.push("outer".to_string(), Value::Doc(inner));
    doc.push("items".to_string(), Value::Array(vec![Value::Boolean(true)]));
    let copy = doc.clone();
    assert_eq!(copy, doc);
}
