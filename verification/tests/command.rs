//! Command-building behavior of the delete operation.

use write_ops::cmap::StreamDescription;
use write_ops::concern::Acknowledgment;
use write_ops::concern::WriteConcern;
use write_ops::options::DeleteOptions;
use write_ops::Delete;
use write_ops::Document;
use write_ops::Namespace;
use write_ops::Value;

fn test_namespace() -> Namespace {
    Namespace {
        db: "test_db".to_string(),
        coll: "test_coll".to_string(),
    }
}

fn test_filter() -> Document {
    let mut inner = Document::new();
    inner.push("$gt".to_string(), Value::Int32(1));
    let mut filter = Document::new();
    filter.push("x".to_string(), Value::Doc(inner));
    filter
}

fn majority_options() -> DeleteOptions {
    let wc = WriteConcern {
        w: Some(Acknowledgment::Majority),
        ..Default::default()
    };
    DeleteOptions::builder().write_concern(wc).build()
}

fn expected_body(filter: &Document, limit: i32, with_majority: bool) -> Document {
    let mut stmt = Document::new();
    stmt.push("q".to_string(), Value::Doc(filter.clone()));
    stmt.push("limit".to_string(), Value::Int32(limit));
    let mut body = Document::new();
    body.push("delete".to_string(), Value::Text("test_coll".to_string()));
    body.push("deletes".to_string(), Value::Array(vec![Value::Doc(stmt)]));
    if with_majority {
        let mut wc_doc = Document::new();
        wc_doc.push("w".to_string(), Value::Text("majority".to_string()));
        body.push("writeConcern".to_string(), Value::Doc(wc_doc));
    }
    body.push("ordered".to_string(), Value::Boolean(true));
    body
}

#[test]
fn build_many() {
    let filter = test_filter();
    let op = Delete::new(test_namespace(), filter.clone(), None, Some(majority_options()));

    let description = StreamDescription::new_testing();
    let cmd = op.build(&description).unwrap();

    assert_eq!(cmd.name.as_str(), "delete");
    assert_eq!(cmd.target_db.as_str(), "test_db");
    assert_eq!(cmd.read_pref.as_ref(), None);
    assert_eq!(cmd.body, expected_body(&filter, 0, true));
}

#[test]
fn build_one() {
    let filter = test_filter();
    let op = Delete::new(test_namespace(), filter.clone(), Some(1), Some(majority_options()));

    let description = StreamDescription::new_testing();
    let cmd = op.build(&description).unwrap();

    assert_eq!(cmd.name.as_str(), "delete");
    assert_eq!(cmd.target_db.as_str(), "test_db");
    assert_eq!(cmd.read_pref.as_ref(), None);
    assert_eq!(cmd.body, expected_body(&filter, 1, true));
}

#[test]
fn build_without_options_leaves_write_concern_out() {
    let filter = test_filter();
    let op = Delete::new(test_namespace(), filter.clone(), None, None);

    let description = StreamDescription::new_testing();
    let cmd = op.build(&description).unwrap();

    assert!(cmd.body.get("writeConcern").is_none());
    assert_eq!(cmd.body, expected_body(&filter, 0, false));
}

#[test]
fn build_with_unset_write_concern_leaves_it_out() {
    let filter = test_filter();
    let options = DeleteOptions::builder().build();
    let op = Delete::new(test_namespace(), filter.clone(), None, Some(options));

    let description = StreamDescription::new_testing();
    let cmd = op.build(&description).unwrap();

    assert!(cmd.body.get("writeConcern").is_none());
    assert_eq!(cmd.body, expected_body(&filter, 0, false));
}

#[test]
fn build_twice_gives_identical_bodies() {
    let op = Delete::new(
        test_namespace(),
        test_filter(),
        Some(1),
        Some(majority_options()),
    );

    let description = StreamDescription::new_testing();
    let first = op.build(&description).unwrap();
    let second = op.build(&description).unwrap();

    assert_eq!(first.body, second.body);
    assert_eq!(first.name, second.name);
    assert_eq!(first.target_db, second.target_db);
}

#[test]
fn build_keeps_ordered_true() {
    let op = Delete::new(test_namespace(), test_filter(), None, None);
    let cmd = op.build(&StreamDescription::new_testing()).unwrap();
    assert_eq!(cmd.body.get("ordered"), Some(&Value::Boolean(true)));
}

#[test]
fn write_concern_number_and_tag_forms() {
    let number = WriteConcern {
        w: Some(Acknowledgment::Number(2)),
        ..Default::default()
    };
    let mut expected = Document::new();
    expected.push("w".to_string(), Value::Int64(2));
    assert_eq!(number.to_document(), expected);

    let tag = WriteConcern {
        w: Some(Acknowledgment::Tag("east".to_string())),
        ..Default::default()
    };
    let mut expected_tag = Document::new();
    expected_tag.push("w".to_string(), Value::Text("east".to_string()));
    assert_eq!(tag.to_document(), expected_tag);
}

#[test]
fn write_concern_full_form() {
    let wc = WriteConcern {
        w: Some(Acknowledgment::Majority),
        w_timeout_ms: Some(500),
        journal: Some(true),
    };
    let mut expected = Document::new();
    expected.push("w".to_string(), Value::Text("majority".to_string()));
    expected.push("wtimeout".to_string(), Value::Int64(500));
    expected.push("j".to_string(), Value::Boolean(true));
    assert_eq!(wc.to_document(), expected);
}

#[test]
fn empty_write_concern_serializes_empty() {
    let wc = WriteConcern::default();
    assert_eq!(wc.to_document(), Document::new());
}
