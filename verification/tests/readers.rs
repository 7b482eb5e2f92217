//! The fluent reader surface.

use crabql::checker::DerivedChecker;
use crabql::ir::funcs::Mappings;
use crabql::reader::Reader;
use crabql::schema::{DerivedSchema, Schema};

#[test]
fn reader_syntax() {
    let checker = DerivedChecker::new();
    let _x = Reader::new(checker)
        .table("emp")
        .filter(|t| {
            t.col("id")
                .gt(3_usize.into_res())
                .and(t.col("name").len().gt(10_usize.into_res()))
        })
        .select(|t| vec![t.col("id"), t.col("name")]);
}

#[test]
fn read_reader_syntax() {
    let schema = DerivedSchema::new();
    let reader = schema.read();
    let _x = reader
        .table("emp")
        .filter(|t| {
            t.col("id")
                .gt(3_usize.into_res())
                .and(t.col("name").len().gt(10_usize.into_res()))
        })
        .select(|t| vec![t.col("id"), t.col("name")]);
}

#[test]
fn select_without_a_table_fails() {
    let checker = DerivedChecker::new();
    let sealed = Reader::new(checker).select_all();
    assert_eq!(sealed.err().as_deref(), Some("no table selected"));
}

#[test]
fn clean_filters_seal() {
    let checker = DerivedChecker::new();
    let sealed = Reader::new(checker)
        .table("emp")
        .filter(|t| t.col("id").gt(3_usize.into_res()))
        .select_all();
    assert!(sealed.is_ok());
}

#[test]
fn a_defective_filter_blocks_the_seal() {
    let checker = DerivedChecker::new();
    let sealed = Reader::new(checker)
        .table("emp")
        .filter(|t| t.col("id").gt(3_usize.into_res()).len())
        .select_all();
    assert_eq!(
        sealed.err().as_deref(),
        Some("Attempt to apply LEN() to a boolean expression")
    );
}

#[test]
fn joined_tables_count_as_tables() {
    let checker = DerivedChecker::new();
    let sealed = Reader::new(checker)
        .tables(vec!["emp".to_string(), "dept".to_string()])
        .select_all();
    assert!(sealed.is_ok());
}

#[test]
fn writers_seal_like_readers() {
    let schema = DerivedSchema::new();
    let sealed = schema.write().table("emp").seal();
    assert!(sealed.is_ok());

    let other = DerivedSchema::new();
    assert!(other.write().seal().is_err());
}
