use vstd::prelude::*;

use crate::error::NoteError;
use crate::note::NoteAbs;
use crate::note::NoteModel;
use crate::note::clone_opt_string;
use crate::schema::CreateNoteSchema;
use crate::schema::FilterOptions;
use crate::schema::UpdateAbs;
use crate::schema::UpdateNoteSchema;
use crate::schema::effective_limit;
use crate::schema::effective_offset;
use crate::schema::pagination_window;
use crate::store::NoteStore;
use crate::store::contains_id;
use crate::store::contains_title;
use crate::store::index_of_id;
use crate::store::note_of_id;
use crate::store::page_of;
use crate::store::remove_id;
use crate::store::seq_view;
use crate::store::title_taken_by_other;

verus! {

/// Relies on chrono::Utc::now, read out through timestamp_micros, for the
/// current wall-clock time. Nothing is promised of the value: the clock
/// may move arbitrarily between calls.
#[verifier::external_body]
fn now_micros() -> i64 {
    chrono::Utc::now().timestamp_micros()
}

/// The category a created note receives: the caller's, or the empty
/// string.
pub open spec fn default_category(c: Option<String>) -> Seq<char> {
    match c {
        Some(s) => s@,
        None => Seq::<char>::empty(),
    }
}

/// The read-merge-write rule of a partial update: each supplied field
/// replaces the stored one, each omitted field keeps it, `created_at` and
/// the id never change, and `updated_at` is stamped with `now`
/// unconditionally. An omitted `category` or `published` keeps the stored
/// value even when that value itself is absent: absence is a legitimate
/// empty value, not a defect.
pub open spec fn merge_abs(cur: NoteAbs, patch: UpdateAbs, now: i64) -> NoteAbs {
    NoteAbs {
        id: cur.id,
        title: match patch.title {
            Some(t) => t,
            None => cur.title,
        },
        content: match patch.content {
            Some(c) => c,
            None => cur.content,
        },
        category: match patch.category {
            Some(c) => Some(c),
            None => cur.category,
        },
        published: match patch.published {
            Some(p) => Some(p),
            None => cur.published,
        },
        created_at: cur.created_at,
        updated_at: Some(now),
    }
}

/// The title an update would leave on the note with id `id`.
pub open spec fn merged_title(s: Seq<NoteAbs>, id: u64, patch: UpdateAbs) -> Seq<char> {
    match patch.title {
        Some(t) => t,
        None => note_of_id(s, id).title,
    }
}

/// An update of the note with id `id` goes through: the id has a row and
/// the title the merge would leave does not duplicate another note's.
pub open spec fn update_applies(s: Seq<NoteAbs>, id: u64, patch: UpdateAbs) -> bool {
    contains_id(s, id) && !title_taken_by_other(s, id, merged_title(s, id, patch))
}

/// Merges a partial update into the current note: the executable form of
/// `merge_abs`.
pub fn merge_note(current: &NoteModel, patch: &UpdateNoteSchema, now: i64) -> (r: NoteModel)
    ensures
        r@ == merge_abs(current@, patch@, now),
{
    let title = match &patch.title {
        Some(t) => t.clone(),
        None => current.title.clone(),
    };
    let content = match &patch.content {
        Some(c) => c.clone(),
        None => current.content.clone(),
    };
    let category = match &patch.category {
        Some(c) => Some(c.clone()),
        None => clone_opt_string(&current.category),
    };
    let published = match patch.published {
        Some(p) => Some(p),
        None => current.published,
    };
    NoteModel {
        id: current.id,
        title,
        content,
        category,
        published,
        created_at: current.created_at,
        updated_at: Some(now),
    }
}

/// The note resource manager: list, get, create, update and delete
/// against a storage gateway.
pub struct NoteModelController;

impl NoteModelController {
    /// Lists one page of notes, ordered by ascending id: the requested
    /// 1-based page (default 1, values below 1 treated as 1) of the
    /// requested limit (default 10). An out-of-range page is an empty
    /// page, not an error.
    pub fn find_all(store: &NoteStore, opts: FilterOptions) -> (r: Result<
        Vec<NoteModel>,
        NoteError,
    >)
        ensures
            r is Ok,
            seq_view(r->Ok_0@) == page_of(store@, effective_limit(opts), effective_offset(opts)),
    {
        match pagination_window(&opts) {
            Some(window) => store.query_page(window.0, window.1),
            None => {
                let out: Vec<NoteModel> = Vec::new();
                let n = store.len();
                proof {
                    assert(store@.len() <= usize::MAX);
                    assert(seq_view(out@) =~= page_of(
                        store@,
                        effective_limit(opts),
                        effective_offset(opts),
                    ));
                }
                Ok(out)
            },
        }
    }

    /// Looks one note up by id; `NotFound` exactly when the id has no
    /// row.
    pub fn find_by_id(store: &NoteStore, id: u64) -> (r: Result<NoteModel, NoteError>)
        requires
            store.wf(),
        ensures
            contains_id(store@, id) ==> r is Ok && r->Ok_0@ == note_of_id(store@, id),
            !contains_id(store@, id) ==> r == Err::<NoteModel, NoteError>(NoteError::NotFound),
    {
        store.query_by_id(id)
    }

    /// Creates a note whose creation timestamp is `created_at`. The store
    /// assigns a fresh id; the category defaults to the empty string;
    /// `published` and `updated_at` stay unset. A title some note already
    /// carries fails with `UniqueViolation` and changes nothing.
    pub fn create_with_time(store: &mut NoteStore, data: CreateNoteSchema, created_at: i64) -> (r:
        Result<NoteModel, NoteError>)
        requires
            old(store).wf(),
            old(store).spec_next_id() < u64::MAX,
        ensures
            final(store).wf(),
            contains_title(old(store)@, data.title@) ==> {
                &&& r == Err::<NoteModel, NoteError>(NoteError::UniqueViolation)
                &&& final(store)@ == old(store)@
                &&& final(store).spec_next_id() == old(store).spec_next_id()
            },
            !contains_title(old(store)@, data.title@) ==> {
                &&& r is Ok
                &&& r->Ok_0@ == (NoteAbs {
                    id: old(store).spec_next_id(),
                    title: data.title@,
                    content: data.content@,
                    category: Some(default_category(data.category)),
                    published: None,
                    created_at: Some(created_at),
                    updated_at: None,
                })
                &&& !contains_id(old(store)@, r->Ok_0@.id)
                &&& final(store)@ == old(store)@.push(r->Ok_0@)
                &&& final(store).spec_next_id() == old(store).spec_next_id() + 1
            },
    {
        let category = match data.category {
            Some(c) => c,
            None => String::new(),
        };
        store.insert(data.title, data.content, category, created_at)
    }

    /// Creates a note, stamping the creation time from the wall clock;
    /// otherwise exactly `create_with_time`.
    pub fn create(store: &mut NoteStore, data: CreateNoteSchema) -> (r: Result<
        NoteModel,
        NoteError,
    >)
        requires
            old(store).wf(),
            old(store).spec_next_id() < u64::MAX,
        ensures
            final(store).wf(),
            contains_title(old(store)@, data.title@) ==> {
                &&& r == Err::<NoteModel, NoteError>(NoteError::UniqueViolation)
                &&& final(store)@ == old(store)@
                &&& final(store).spec_next_id() == old(store).spec_next_id()
            },
            !contains_title(old(store)@, data.title@) ==> {
                &&& r is Ok
                &&& r->Ok_0@.id == old(store).spec_next_id()
                &&& r->Ok_0@.title == data.title@
                &&& r->Ok_0@.content == data.content@
                &&& r->Ok_0@.category == Some(default_category(data.category))
                &&& r->Ok_0@.published is None
                &&& r->Ok_0@.created_at is Some
                &&& r->Ok_0@.updated_at is None
                &&& !contains_id(old(store)@, r->Ok_0@.id)
                &&& final(store)@ == old(store)@.push(r->Ok_0@)
                &&& final(store).spec_next_id() == old(store).spec_next_id() + 1
            },
    {
        let now = now_micros();
        Self::create_with_time(store, data, now)
    }

    /// Applies a partial update whose `updated_at` stamp is `now`: fetch
    /// the current note, merge by `merge_abs`, write the merge back. Every
    /// failure — an id without a row, or a merge whose title would
    /// duplicate another note's — is reported as `NotFound` and changes
    /// nothing.
    pub fn update_with_time(store: &mut NoteStore, id: u64, data: UpdateNoteSchema, now: i64) -> (r:
        Result<NoteModel, NoteError>)
        requires
            old(store).wf(),
        ensures
            final(store).wf(),
            final(store).spec_next_id() == old(store).spec_next_id(),
            !update_applies(old(store)@, id, data@) ==> {
                &&& r == Err::<NoteModel, NoteError>(NoteError::NotFound)
                &&& final(store)@ == old(store)@
            },
            update_applies(old(store)@, id, data@) ==> {
                &&& r is Ok
                &&& r->Ok_0@ == merge_abs(note_of_id(old(store)@, id), data@, now)
                &&& final(store)@ == old(store)@.update(index_of_id(old(store)@, id), r->Ok_0@)
            },
    {
        let ghost patch = data@;
        let current = match store.query_by_id(id) {
            Ok(n) => n,
            Err(_) => {
                return Err(NoteError::NotFound);
            },
        };
        let merged = merge_note(&current, &data, now);
        proof {
            assert(merged@.title == merged_title(store@, id, patch));
        }
        match store.update_row(
            id,
            merged.title,
            merged.content,
            merged.category,
            merged.published,
            now,
        ) {
            Ok(n) => Ok(n),
            Err(_) => Err(NoteError::NotFound),
        }
    }

    /// Applies a partial update, stamping `updated_at` from the wall
    /// clock; otherwise exactly `update_with_time`.
    pub fn update(store: &mut NoteStore, id: u64, data: UpdateNoteSchema) -> (r: Result<
        NoteModel,
        NoteError,
    >)
        requires
            old(store).wf(),
        ensures
            final(store).wf(),
            final(store).spec_next_id() == old(store).spec_next_id(),
            !update_applies(old(store)@, id, data@) ==> {
                &&& r == Err::<NoteModel, NoteError>(NoteError::NotFound)
                &&& final(store)@ == old(store)@
            },
            update_applies(old(store)@, id, data@) ==> {
                &&& r is Ok
                &&& final(store)@ == old(store)@.update(index_of_id(old(store)@, id), r->Ok_0@)
                &&& exists|t: i64| r->Ok_0@ == merge_abs(note_of_id(old(store)@, id), data@, t)
            },
    {
        let ghost patch = data@;
        let now = now_micros();
        let r = Self::update_with_time(store, id, data, now);
        proof {
            if update_applies(old(store)@, id, patch) {
                assert(r->Ok_0@ == merge_abs(note_of_id(old(store)@, id), patch, now));
            }
        }
        r
    }

    /// Deletes the note with id `id`. An id without a row reports
    /// `NotFound` — so deleting twice reports `NotFound` the second time,
    /// not an error; any other storage failure would be passed through
    /// with its detail.
    pub fn delete(store: &mut NoteStore, id: u64) -> (r: Result<(), NoteError>)
        requires
            old(store).wf(),
        ensures
            final(store).wf(),
            final(store).spec_next_id() == old(store).spec_next_id(),
            contains_id(old(store)@, id) ==> r == Ok::<(), NoteError>(()) && final(store)@
                == remove_id(old(store)@, id),
            !contains_id(old(store)@, id) ==> r == Err::<(), NoteError>(NoteError::NotFound)
                && final(store)@ == old(store)@,
    {
        match store.delete_row(id) {
            Ok(affected) => {
                if affected == 0 {
                    Err(NoteError::NotFound)
                } else {
                    Ok(())
                }
            },
            Err(e) => Err(e),
        }
    }
}

} // verus!
