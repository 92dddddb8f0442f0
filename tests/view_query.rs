use flowy_workspace::doc::DocIdentifier;
use flowy_workspace::errors::{ErrorCode, WorkspaceError};
use flowy_workspace::parser::{is_blank_str, is_whitespace, ViewId, ViewIdError};
use flowy_workspace::view_query::{QueryViewRequest, ViewIdentifier, ViewIdentifiers};

const COUNT_MSG: &str = "the count of identifiers should be equal to 1";
const BLANK_MSG: &str = "View id can not be empty or whitespace";

fn request(ids: &[&str]) -> QueryViewRequest {
    QueryViewRequest { view_ids: ids.iter().map(|s| s.to_string()).collect() }
}

fn assert_count_error(e: &WorkspaceError) {
    assert_eq!(e.code, ErrorCode::ViewIdInvalid);
    assert_eq!(e.msg, COUNT_MSG);
    assert_eq!(e.cause, None);
}

fn assert_blank_error(e: &WorkspaceError) {
    assert_eq!(e.code, ErrorCode::ViewIdInvalid);
    assert_eq!(e.msg, BLANK_MSG);
    assert_eq!(e.cause, Some(ViewIdError::Blank));
}

#[test]
fn single_identifier_from_one_entry() {
    let id = request(&["abc-123"]).try_into_identifier().unwrap();
    assert_eq!(id.view_id, "abc-123");
}

#[test]
fn single_identifier_from_empty_request_fails() {
    let e = request(&[]).try_into_identifier().unwrap_err();
    assert_count_error(&e);
}

#[test]
fn three_entries_single_fails_batch_succeeds() {
    let e = request(&["a", "b", "c"]).try_into_identifier().unwrap_err();
    assert_count_error(&e);
    let ids = request(&["a", "b", "c"]).try_into_identifiers().unwrap();
    assert_eq!(ids.view_ids, vec!["a", "b", "c"]);
}

#[test]
fn batch_with_empty_entry_fails() {
    let r = request(&["a", "", "c"]).try_into_identifiers();
    assert!(r.is_err());
    assert_blank_error(&r.unwrap_err());
}

#[test]
fn two_entries_single_fails() {
    let e = request(&["a", "b"]).try_into_identifier().unwrap_err();
    assert_count_error(&e);
}

#[test]
fn single_blank_entry_carries_cause() {
    let e = request(&[""]).try_into_identifier().unwrap_err();
    assert_blank_error(&e);
    let e = request(&[" \t\n"]).try_into_identifier().unwrap_err();
    assert_blank_error(&e);
}

#[test]
fn single_keeps_surrounding_whitespace() {
    let id = request(&["  view-1 "]).try_into_identifier().unwrap();
    assert_eq!(id.view_id, "  view-1 ");
}

#[test]
fn empty_request_gives_empty_batch() {
    let ids = request(&[]).try_into_identifiers().unwrap();
    assert!(ids.view_ids.is_empty());
    assert!(request(&[]).try_into_identifier().is_err());
}

#[test]
fn batch_keeps_order_and_duplicates() {
    let ids = request(&["z", "a", "z", "m"]).try_into_identifiers().unwrap();
    assert_eq!(ids.view_ids, vec!["z", "a", "z", "m"]);
}

#[test]
fn batch_fails_on_last_entry() {
    let e = request(&["a", "b", "\u{3000}"]).try_into_identifiers().unwrap_err();
    assert_blank_error(&e);
}

#[test]
fn batch_fails_on_first_entry() {
    let e = request(&["", "b"]).try_into_identifiers().unwrap_err();
    assert_blank_error(&e);
}

#[test]
fn parse_accepts_and_refuses() {
    assert_eq!(ViewId::parse("v".to_string()).unwrap().0, "v");
    assert_eq!(ViewId::parse(" x ".to_string()).unwrap().0, " x ");
    assert_eq!(ViewId::parse(String::new()).err(), Some(ViewIdError::Blank));
    assert_eq!(ViewId::parse("\u{a0}\u{2028}".to_string()).err(), Some(ViewIdError::Blank));
    assert_eq!(ViewIdError::Blank.message(), BLANK_MSG);
}

#[test]
fn whitespace_matches_std() {
    for c in ['\t', '\n', '\u{b}', '\u{c}', '\r', ' ', '\u{85}', '\u{a0}', '\u{1680}', '\u{2000}',
        '\u{200a}', '\u{2028}', '\u{2029}', '\u{202f}', '\u{205f}', '\u{3000}', 'a', '-', '0',
        '\u{200b}', '\u{feff}', '\u{180e}', '\u{8}', '\u{e}'] {
        assert_eq!(is_whitespace(c), c.is_whitespace(), "{:?}", c);
    }
    assert!(is_blank_str(""));
    assert!(is_blank_str(" \r\n"));
    assert!(!is_blank_str(" a "));
}

#[test]
fn error_builders() {
    let e = WorkspaceError::invalid_view_id();
    assert_eq!(e.code, ErrorCode::ViewIdInvalid);
    assert_eq!(e.msg, "");
    assert_eq!(e.cause, None);
    let e = e.context("bad".to_string());
    assert_eq!(e.msg, "bad");
    assert_eq!(e.cause, None);
    let e = e.caused_by(ViewIdError::Blank);
    assert_blank_error(&e);
}

#[test]
fn conversions_carry_the_value() {
    let id = ViewIdentifier::from("doc-7".to_string());
    assert_eq!(id.view_id, "doc-7");
    let doc: DocIdentifier = id.clone().into();
    assert_eq!(doc.doc_id, "doc-7");
    let doc = DocIdentifier::from(id);
    assert_eq!(doc.doc_id, "doc-7");
}

#[test]
fn defaults_are_empty() {
    assert!(QueryViewRequest::default().view_ids.is_empty());
    assert_eq!(ViewIdentifier::default().view_id, "");
    assert!(ViewIdentifiers::default().view_ids.is_empty());
}
