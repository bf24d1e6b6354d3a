use notes_api::handler::{
    classify_insert_error, create_success_response, db_error_response, insert_error_response,
    list_response, pagination, ping_response, prepare_note_insert, InsertErrorKind,
};
use notes_api::models::{notes_to_responses, to_note_response, NoteModel};
use notes_api::schema::{CreateNoteSchema, FilterOptions};
use notes_api::text::str_contains;

fn sample_note(id: &str, flag: i8) -> NoteModel {
    NoteModel {
        id: id.to_string(),
        title: format!("title of {}", id),
        content: format!("content of {}", id),
        is_published: flag,
        created_at: Some(1_700_000_000_000_000),
        updated_at: Some(1_700_000_100_000_000),
    }
}

#[test]
fn pagination_defaults() {
    let opts = FilterOptions { page: None, limit: None };
    let p = pagination(&opts);
    assert_eq!(p.limit, 10);
    assert_eq!(p.offset, 0);
}

#[test]
fn pagination_later_page() {
    let opts = FilterOptions { page: Some(3), limit: Some(5) };
    let p = pagination(&opts);
    assert_eq!(p.limit, 5);
    assert_eq!(p.offset, 10);
}

#[test]
fn pagination_default_limit_only() {
    let opts = FilterOptions { page: Some(4), limit: None };
    let p = pagination(&opts);
    assert_eq!(p.limit, 10);
    assert_eq!(p.offset, 30);
}

#[test]
fn contains_finds_needle() {
    assert!(str_contains("error: Duplicate entry 'abc' for key", "Duplicate entry"));
}

#[test]
fn contains_rejects_absent_needle() {
    assert!(!str_contains("connection reset by peer", "Duplicate entry"));
}

#[test]
fn contains_empty_needle() {
    assert!(str_contains("anything", ""));
    assert!(str_contains("", ""));
}

#[test]
fn contains_needle_longer_than_hay() {
    assert!(!str_contains("ab", "abc"));
}

#[test]
fn contains_needle_at_end() {
    assert!(str_contains("key error: Duplicate entry", "Duplicate entry"));
}

#[test]
fn contains_near_miss() {
    assert!(!str_contains("Duplicate entr", "Duplicate entry"));
}

#[test]
fn classify_duplicate() {
    let kind = classify_insert_error("error: Duplicate entry '42'");
    assert!(matches!(kind, InsertErrorKind::Duplicate));
}

#[test]
fn classify_other() {
    let kind = classify_insert_error("syntax error near INSERT");
    assert!(matches!(kind, InsertErrorKind::Other));
}

#[test]
fn insert_error_conflict_reply() {
    let r = insert_error_response("error: Duplicate entry '42' for key 'PRIMARY'");
    assert_eq!(r.code, 409);
    assert_eq!(r.status, "error");
    assert_eq!(r.message, "Note already exists");
}

#[test]
fn insert_error_other_reply() {
    let r = insert_error_response("connection reset by peer");
    assert_eq!(r.code, 500);
    assert_eq!(r.status, "error");
    assert_eq!(r.message, "connection reset by peer");
}

#[test]
fn db_error_reply_prefix() {
    let r = db_error_response("pool timed out");
    assert_eq!(r.code, 500);
    assert_eq!(r.status, "error");
    assert_eq!(r.message, "Database error: pool timed out");
}

#[test]
fn note_response_published() {
    let note = sample_note("n1", 1);
    let r = to_note_response(&note);
    assert_eq!(r.id, "n1");
    assert_eq!(r.title, "title of n1");
    assert_eq!(r.content, "content of n1");
    assert!(r.is_published);
    assert_eq!(r.created_at, 1_700_000_000_000_000);
    assert_eq!(r.updated_at, 1_700_000_100_000_000);
}

#[test]
fn note_response_unpublished() {
    let note = sample_note("n2", 0);
    let r = to_note_response(&note);
    assert!(!r.is_published);
}

#[test]
fn note_responses_keep_order() {
    let notes = vec![sample_note("a", 0), sample_note("b", 1), sample_note("c", 0)];
    let rs = notes_to_responses(&notes);
    assert_eq!(rs.len(), 3);
    assert_eq!(rs[0].id, "a");
    assert_eq!(rs[1].id, "b");
    assert!(rs[1].is_published);
    assert_eq!(rs[2].id, "c");
}

#[test]
fn list_reply_counts_notes() {
    let notes = vec![sample_note("a", 0), sample_note("b", 1)];
    let r = list_response(&notes);
    assert_eq!(r.status, "ok");
    assert_eq!(r.count, 2);
    assert_eq!(r.notes.len(), 2);
    assert_eq!(r.notes[0].id, "a");
    assert_eq!(r.notes[1].id, "b");
}

#[test]
fn list_reply_empty() {
    let notes: Vec<NoteModel> = Vec::new();
    let r = list_response(&notes);
    assert_eq!(r.status, "ok");
    assert_eq!(r.count, 0);
    assert!(r.notes.is_empty());
}

#[test]
fn prepared_insert_has_fresh_id() {
    let body = CreateNoteSchema {
        title: "a title".to_string(),
        content: "some content".to_string(),
        is_published: None,
    };
    let row1 = prepare_note_insert(&body);
    let row2 = prepare_note_insert(&body);
    assert_eq!(row1.id.chars().count(), 36);
    assert_eq!(row2.id.chars().count(), 36);
    assert_ne!(row1.id, row2.id);
    assert_eq!(row1.title, "a title");
    assert_eq!(row1.content, "some content");
}

#[test]
fn create_success_reply() {
    let note = sample_note("n3", 1);
    let r = create_success_response(note);
    assert_eq!(r.status, "success");
    assert_eq!(r.data.id, "n3");
    assert_eq!(r.data.title, "title of n3");
}

#[test]
fn ping_reply() {
    let r = ping_response();
    assert_eq!(r.status, "ok");
    assert_eq!(r.message, "API Services");
}
