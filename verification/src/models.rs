use vstd::prelude::*;

verus! {

/// A note row as it comes back from the database. The timestamps are
/// microseconds since the Unix epoch; the database may leave them unset.
#[derive(Clone, Debug)]
pub struct NoteModel {
    pub id: String,
    pub title: String,
    pub content: String,
    pub is_published: i8,
    pub created_at: Option<i64>,
    pub updated_at: Option<i64>,
}

/// The note shape returned to API clients: the stored flag becomes a
/// boolean and both timestamps are present.
#[derive(Clone, Debug)]
pub struct NoteModelResponse {
    pub id: String,
    pub title: String,
    pub content: String,
    pub is_published: bool,
    pub created_at: i64,
    pub updated_at: i64,
}

/// A stored note can be shown to a client only when both timestamps are set.
pub open spec fn note_convertible(n: NoteModel) -> bool {
    n.created_at is Some && n.updated_at is Some
}

/// The client shape `r` faithfully renders the stored note `n`.
pub open spec fn response_matches(n: NoteModel, r: NoteModelResponse) -> bool {
    &&& r.id@ == n.id@
    &&& r.title@ == n.title@
    &&& r.content@ == n.content@
    &&& r.is_published == (n.is_published != 0)
    &&& n.created_at == Some(r.created_at)
    &&& n.updated_at == Some(r.updated_at)
}

/// Renders one stored note for a client: the text fields are copied, the
/// flag is true exactly when the stored byte is nonzero, and the timestamps
/// are unwrapped.
pub fn to_note_response(note: &NoteModel) -> (r: NoteModelResponse)
    requires
        note_convertible(*note),
    ensures
        response_matches(*note, r),
{
    NoteModelResponse {
        id: note.id.clone(),
        title: note.title.clone(),
        content: note.content.clone(),
        is_published: note.is_published != 0,
        created_at: note.created_at.unwrap(),
        updated_at: note.updated_at.unwrap(),
    }
}

/// Renders every stored note in order, keeping the count.
pub fn notes_to_responses(notes: &Vec<NoteModel>) -> (rs: Vec<NoteModelResponse>)
    requires
        forall|i: int| 0 <= i < notes@.len() ==> note_convertible(#[trigger] notes@[i]),
    ensures
        rs@.len() == notes@.len(),
        forall|i: int| 0 <= i < notes@.len() ==> response_matches(notes@[i], #[trigger] rs@[i]),
{
    let mut rs: Vec<NoteModelResponse> = Vec::new();
    let mut i: usize = 0;
    while i < notes.len()
        invariant
            i <= notes@.len(),
            rs@.len() == i,
            forall|k: int| 0 <= k < notes@.len() ==> note_convertible(#[trigger] notes@[k]),
            forall|k: int| 0 <= k < i ==> response_matches(notes@[k], #[trigger] rs@[k]),
        decreases notes@.len() - i,
    {
        let r = to_note_response(&notes[i]);
        rs.push(r);
        i = i + 1;
    }
    rs
}

} // verus!
