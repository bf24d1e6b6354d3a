use vstd::prelude::*;
use vstd::string::StringExecFns;

use crate::models::{
    note_convertible, notes_to_responses, response_matches, NoteModel, NoteModelResponse,
};
use crate::schema::{CreateNoteSchema, FilterOptions};
use crate::text::{contains_str, str_contains};

verus! {

/// The page number used when a listing request names none.
pub open spec fn default_page() -> int {
    1
}

/// The page size used when a listing request names none.
pub open spec fn default_limit() -> int {
    10
}

/// The page a listing request asks for.
pub open spec fn requested_page(opts: FilterOptions) -> int {
    match opts.page {
        Some(p) => p as int,
        None => default_page(),
    }
}

/// The page size a listing request asks for.
pub open spec fn requested_limit(opts: FilterOptions) -> int {
    match opts.limit {
        Some(l) => l as int,
        None => default_limit(),
    }
}

/// The limit and offset handed to the paginated select.
pub struct Pagination {
    pub limit: usize,
    pub offset: usize,
}

/// Turns the request's optional page and limit into the select's limit and
/// offset: pages are counted from one, and the offset skips the earlier
/// pages. A page of zero would make the offset negative, so it is ruled out,
/// as is an offset beyond the machine's range.
pub fn pagination(opts: &FilterOptions) -> (p: Pagination)
    requires
        requested_page(*opts) >= 1,
        (requested_page(*opts) - 1) * requested_limit(*opts) <= usize::MAX,
    ensures
        p.limit == requested_limit(*opts),
        p.offset == (requested_page(*opts) - 1) * requested_limit(*opts),
{
    let page: usize = match opts.page {
        Some(p) => p,
        None => 1,
    };
    let limit: usize = match opts.limit {
        Some(l) => l,
        None => 10,
    };
    let offset: usize = (page - 1) * limit;
    Pagination { limit, offset }
}

/// One error reply: an HTTP status code and the two fields of the JSON body.
pub struct ErrorResponse {
    pub code: u16,
    pub status: String,
    pub message: String,
}

/// How a failed insert is reported.
pub enum InsertErrorKind {
    Duplicate,
    Other,
}

/// A failed insert is a duplicate exactly when the database's error text
/// mentions a duplicate entry.
pub fn classify_insert_error(detail: &str) -> (kind: InsertErrorKind)
    ensures
        kind is Duplicate <==> contains_str(detail@, "Duplicate entry"@),
{
    if str_contains(detail, "Duplicate entry") {
        InsertErrorKind::Duplicate
    } else {
        InsertErrorKind::Other
    }
}

/// The reply for a failed insert: a duplicate becomes a conflict with a
/// fixed message, anything else an internal error carrying the database's
/// own text.
pub fn insert_error_response(detail: &str) -> (r: ErrorResponse)
    ensures
        r.status@ == "error"@,
        contains_str(detail@, "Duplicate entry"@) ==> r.code == 409 && r.message@
            == "Note already exists"@,
        !contains_str(detail@, "Duplicate entry"@) ==> r.code == 500 && r.message@ == detail@,
{
    match classify_insert_error(detail) {
        InsertErrorKind::Duplicate => ErrorResponse {
            code: 409,
            status: "error".to_owned(),
            message: "Note already exists".to_owned(),
        },
        InsertErrorKind::Other => ErrorResponse {
            code: 500,
            status: "error".to_owned(),
            message: detail.to_owned(),
        },
    }
}

/// The reply for a failed select: an internal error whose message prefixes
/// the database's text.
pub fn db_error_response(detail: &str) -> (r: ErrorResponse)
    ensures
        r.code == 500,
        r.status@ == "error"@,
        r.message@ == "Database error: "@ + detail@,
{
    let mut message: String = "Database error: ".to_owned();
    message.append(detail);
    ErrorResponse { code: 500, status: "error".to_owned(), message }
}

/// The JSON body of a successful listing: a status, the number of notes,
/// and the notes themselves.
pub struct NoteListResponse {
    pub status: String,
    pub count: usize,
    pub notes: Vec<NoteModelResponse>,
}

/// The successful listing reply: status ok, each stored note rendered for
/// the client in order, and the count equal to the number of notes.
pub fn list_response(notes: &Vec<NoteModel>) -> (r: NoteListResponse)
    requires
        forall|i: int| 0 <= i < notes@.len() ==> note_convertible(#[trigger] notes@[i]),
    ensures
        r.status@ == "ok"@,
        r.count == notes@.len(),
        r.notes@.len() == notes@.len(),
        forall|i: int| 0 <= i < notes@.len() ==> response_matches(notes@[i], #[trigger] r.notes@[i]),
{
    let rendered = notes_to_responses(notes);
    let count = rendered.len();
    NoteListResponse { status: "ok".to_owned(), count, notes: rendered }
}

/// A new row to insert: a fresh identifier beside the request's title and
/// content. The insert stores nothing else.
pub struct NewNote {
    pub id: String,
    pub title: String,
    pub content: String,
}

/// Relies on uuid::Uuid::new_v4 and its Display form: a random UUID printed
/// hyphenated, which is always 36 characters.
#[verifier::external_body]
fn fresh_note_id() -> (id: String)
    ensures
        id@.len() == 36,
{
    uuid::Uuid::new_v4().to_string()
}

/// Builds the row a creation request inserts: a freshly generated
/// 36-character identifier, and the request's title and content unchanged.
pub fn prepare_note_insert(body: &CreateNoteSchema) -> (row: NewNote)
    ensures
        row.id@.len() == 36,
        row.title@ == body.title@,
        row.content@ == body.content@,
{
    NewNote { id: fresh_note_id(), title: body.title.clone(), content: body.content.clone() }
}

/// The JSON body of a successful creation: a status and the stored note.
pub struct CreateNoteResponse {
    pub status: String,
    pub data: NoteModel,
}

/// The successful creation reply: status success and the row read back
/// after the insert, unchanged.
pub fn create_success_response(note: NoteModel) -> (r: CreateNoteResponse)
    ensures
        r.status@ == "success"@,
        r.data == note,
{
    CreateNoteResponse { status: "success".to_owned(), data: note }
}

/// The JSON body of the health check.
pub struct PingResponse {
    pub status: String,
    pub message: String,
}

/// The health check's reply never varies.
pub fn ping_response() -> (r: PingResponse)
    ensures
        r.status@ == "ok"@,
        r.message@ == "API Services"@,
{
    PingResponse { status: "ok".to_owned(), message: "API Services".to_owned() }
}

} // verus!
