use vstd::prelude::*;

verus! {

/// Query parameters accepted by the note listing endpoint. A missing page
/// defaults to the first page, a missing limit to ten notes per page.
#[derive(Clone, Copy, Debug)]
pub struct FilterOptions {
    pub page: Option<usize>,
    pub limit: Option<usize>,
}

/// Request body accepted by the note creation endpoint. The publication flag
/// is optional and is not stored by the insert, which writes only the title
/// and the content.
#[derive(Clone, Debug)]
pub struct CreateNoteSchema {
    pub title: String,
    pub content: String,
    pub is_published: Option<bool>,
}

/// Request body for updating a note: every field is optional.
#[derive(Clone, Debug)]
pub struct UpdateNoteSchema {
    pub title: Option<String>,
    pub content: Option<String>,
    pub is_published: Option<bool>,
}

} // verus!
