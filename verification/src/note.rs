use vstd::prelude::*;

verus! {

/// Mathematical model of a stored note: every field as a plain spec value.
/// Timestamps are microseconds since the Unix epoch; the identifier is the
/// storage-assigned integer key.
#[verifier::ext_equal]
pub ghost struct NoteAbs {
    pub id: u64,
    pub title: Seq<char>,
    pub content: Seq<char>,
    pub category: Option<Seq<char>>,
    pub published: Option<bool>,
    pub created_at: Option<i64>,
    pub updated_at: Option<i64>,
}

/// A note record as callers see it. `id` is assigned by the store exactly
/// once; `category` defaults to the empty string on creation; `published`
/// and the timestamps are absent until the store or an update fills them.
#[derive(Debug)]
pub struct NoteModel {
    pub id: u64,
    pub title: String,
    pub content: String,
    pub category: Option<String>,
    pub published: Option<bool>,
    pub created_at: Option<i64>,
    pub updated_at: Option<i64>,
}

/// The view of an optional owned string, as contracts speak of it.
pub open spec fn opt_str_view(o: Option<String>) -> Option<Seq<char>> {
    match o {
        Some(s) => Some(s@),
        None => None,
    }
}

impl View for NoteModel {
    type V = NoteAbs;

    open spec fn view(&self) -> NoteAbs {
        NoteAbs {
            id: self.id,
            title: self.title@,
            content: self.content@,
            category: opt_str_view(self.category),
            published: self.published,
            created_at: self.created_at,
            updated_at: self.updated_at,
        }
    }
}

pub(crate) fn clone_opt_string(o: &Option<String>) -> (r: Option<String>)
    ensures
        r == *o,
{
    match o {
        Some(s) => Some(s.clone()),
        None => None,
    }
}

impl Clone for NoteModel {
    fn clone(&self) -> (r: Self)
        ensures
            r@ == self@,
    {
        NoteModel {
            id: self.id,
            title: self.title.clone(),
            content: self.content.clone(),
            category: clone_opt_string(&self.category),
            published: self.published,
            created_at: self.created_at,
            updated_at: self.updated_at,
        }
    }
}

} // verus!
