use vstd::prelude::*;

use crate::error::NoteError;
use crate::note::NoteAbs;
use crate::note::NoteModel;
use crate::note::opt_str_view;
use vstd::pervasive::VecAdditionalExecFns;

verus! {

/// Ids strictly increase along the sequence; in particular each id occurs
/// at most once.
pub open spec fn ids_sorted(s: Seq<NoteAbs>) -> bool {
    forall|i: int, j: int| 0 <= i < j < s.len() ==> s[i].id < s[j].id
}

/// No two distinct notes carry the same title.
pub open spec fn titles_unique(s: Seq<NoteAbs>) -> bool {
    forall|i: int, j: int|
        0 <= i < s.len() && 0 <= j < s.len() && i != j ==> s[i].title != s[j].title
}

/// Some note in `s` has the id `id`.
pub open spec fn contains_id(s: Seq<NoteAbs>, id: u64) -> bool {
    exists|i: int| 0 <= i < s.len() && s[i].id == id
}

/// Some note in `s` has the title `title`.
pub open spec fn contains_title(s: Seq<NoteAbs>, title: Seq<char>) -> bool {
    exists|i: int| 0 <= i < s.len() && s[i].title == title
}

/// A note other than the one with id `id` has the title `title`.
pub open spec fn title_taken_by_other(s: Seq<NoteAbs>, id: u64, title: Seq<char>) -> bool {
    exists|j: int| 0 <= j < s.len() && s[j].id != id && s[j].title == title
}

/// The position of the note with id `id`, where one exists.
pub open spec fn index_of_id(s: Seq<NoteAbs>, id: u64) -> int {
    choose|i: int| 0 <= i < s.len() && s[i].id == id
}

/// The note with id `id`, where one exists.
pub open spec fn note_of_id(s: Seq<NoteAbs>, id: u64) -> NoteAbs {
    s[index_of_id(s, id)]
}

/// `s` without the note carrying id `id`; `s` itself when no note does.
pub open spec fn remove_id(s: Seq<NoteAbs>, id: u64) -> Seq<NoteAbs> {
    if contains_id(s, id) {
        s.remove(index_of_id(s, id))
    } else {
        s
    }
}

/// The slice of `s` a page query returns: up to `limit` notes starting at
/// `offset`, empty when the window starts past the end.
pub open spec fn page_of(s: Seq<NoteAbs>, limit: int, offset: int) -> Seq<NoteAbs> {
    if offset < 0 || limit < 0 || offset >= s.len() {
        Seq::<NoteAbs>::empty()
    } else if offset + limit <= s.len() {
        s.subrange(offset, offset + limit)
    } else {
        s.subrange(offset, s.len() as int)
    }
}

/// The abstract contents of a sequence of note records.
pub open spec fn seq_view(s: Seq<NoteModel>) -> Seq<NoteAbs> {
    s.map_values(|n: NoteModel| n@)
}

/// The in-memory storage gateway: the single table of notes, kept ordered
/// by ascending id, together with the counter that assigns each new note
/// an id exactly once. Titles are unique across the table, as the store's
/// uniqueness constraint demands.
pub struct NoteStore {
    notes: Vec<NoteModel>,
    next_id: u64,
}

impl View for NoteStore {
    type V = Seq<NoteAbs>;

    closed spec fn view(&self) -> Seq<NoteAbs> {
        seq_view(self.notes@)
    }
}

impl NoteStore {
    /// The id the next created note will receive.
    pub closed spec fn spec_next_id(self) -> u64 {
        self.next_id
    }

    /// Well-formedness: ids ascend and stay below the assignment counter,
    /// titles are unique, and the counter has left id 0 unused.
    pub closed spec fn wf(self) -> bool {
        &&& 1 <= self.next_id
        &&& ids_sorted(self@)
        &&& titles_unique(self@)
        &&& forall|i: int|
            0 <= i < self@.len() ==> 1 <= (#[trigger] self@[i]).id < self.next_id
    }

    /// A well-formed store's contents are sorted by id, duplicate-free in
    /// title, and free of the id 0.
    pub proof fn lemma_wf_properties(self)
        requires
            self.wf(),
        ensures
            ids_sorted(self@),
            titles_unique(self@),
            forall|i: int| 0 <= i < self@.len() ==> (#[trigger] self@[i]).id >= 1,
    {
    }

    /// An empty store, with ids starting at 1.
    pub fn new() -> (r: NoteStore)
        ensures
            r.wf(),
            r@ == Seq::<NoteAbs>::empty(),
            r.spec_next_id() == 1,
    {
        let r = NoteStore { notes: Vec::new(), next_id: 1 };
        proof {
            assert(r@ =~= Seq::<NoteAbs>::empty());
        }
        r
    }

    /// How many notes the store holds.
    pub fn len(&self) -> (r: usize)
        ensures
            r == self@.len(),
    {
        self.notes.len()
    }

    /// Whether the id counter can still assign a fresh id.
    pub fn has_id_capacity(&self) -> (r: bool)
        ensures
            r == (self.spec_next_id() < u64::MAX),
    {
        self.next_id < u64::MAX
    }

    /// Returns the page of up to `limit` notes starting `offset` notes in.
    /// A window past the end yields the empty page, never an error; only a
    /// lost connection could fail here, and an in-memory table has none.
    pub fn query_page(&self, limit: usize, offset: usize) -> (r: Result<
        Vec<NoteModel>,
        NoteError,
    >)
        ensures
            r is Ok,
            seq_view(r->Ok_0@) == page_of(self@, limit as int, offset as int),
    {
        let mut out: Vec<NoteModel> = Vec::new();
        let len = self.notes.len();
        if offset >= len {
            proof {
                assert(seq_view(out@) =~= page_of(self@, limit as int, offset as int));
            }
            return Ok(out);
        }
        let end: usize = if limit < len - offset {
            offset + limit
        } else {
            len
        };
        let mut i: usize = offset;
        while i < end
            invariant
                len == self.notes.len(),
                offset <= i <= end <= len,
                end == if offset + limit <= len {
                    offset + limit
                } else {
                    len as int
                },
                seq_view(out@) =~= self@.subrange(offset as int, i as int),
            decreases end - i,
        {
            let n = (&self.notes[i]).clone();
            proof {
                assert(n@ == self@[i as int]);
            }
            let ghost prev_view = seq_view(out@);
            out.push(n);
            proof {
                assert(seq_view(out@) =~= prev_view.push(n@));
                assert(seq_view(out@) =~= self@.subrange(offset as int, i + 1));
            }
            i = i + 1;
        }
        proof {
            assert(self@.subrange(offset as int, end as int) =~= page_of(
                self@,
                limit as int,
                offset as int,
            ));
        }
        Ok(out)
    }

    /// The position of the note with id `id`, or `None` when the id has
    /// no row. Well-formedness makes the position unique.
    fn find_index_by_id(&self, id: u64) -> (r: Option<usize>)
        requires
            self.wf(),
        ensures
            match r {
                Some(i) => contains_id(self@, id) && i < self@.len() && self@[i as int].id == id
                    && i as int == index_of_id(self@, id),
                None => !contains_id(self@, id),
            },
    {
        let mut i: usize = 0;
        while i < self.notes.len()
            invariant
                self.wf(),
                0 <= i <= self.notes.len(),
                forall|j: int| 0 <= j < i ==> (#[trigger] self@[j]).id != id,
            decreases self.notes.len() - i,
        {
            if self.notes[i].id == id {
                proof {
                    assert(contains_id(self@, id));
                    let k = index_of_id(self@, id);
                    assert(0 <= k < self@.len() && self@[k].id == id);
                    if k != i as int {
                        if k < i as int {
                            assert(self@[k].id < self@[i as int].id);
                        } else {
                            assert(self@[i as int].id < self@[k].id);
                        }
                    }
                }
                return Some(i);
            }
            i = i + 1;
        }
        None
    }

    /// Looks the note with id `id` up; `NotFound` exactly when no note
    /// carries that id.
    pub fn query_by_id(&self, id: u64) -> (r: Result<NoteModel, NoteError>)
        requires
            self.wf(),
        ensures
            contains_id(self@, id) ==> r is Ok && r->Ok_0@ == note_of_id(self@, id),
            !contains_id(self@, id) ==> r == Err::<NoteModel, NoteError>(NoteError::NotFound),
    {
        match self.find_index_by_id(id) {
            Some(i) => Ok((&self.notes[i]).clone()),
            None => Err(NoteError::NotFound),
        }
    }

    /// Inserts a new note. The store assigns the id and the creation
    /// timestamp, leaves `published` and `updated_at` unset, and refuses a
    /// title some note already carries with `UniqueViolation`, leaving the
    /// table unchanged.
    pub fn insert(&mut self, title: String, content: String, category: String, created_at: i64)
        -> (r: Result<NoteModel, NoteError>)
        requires
            old(self).wf(),
            old(self).spec_next_id() < u64::MAX,
        ensures
            final(self).wf(),
            contains_title(old(self)@, title@) ==> {
                &&& r == Err::<NoteModel, NoteError>(NoteError::UniqueViolation)
                &&& final(self)@ == old(self)@
                &&& final(self).spec_next_id() == old(self).spec_next_id()
            },
            !contains_title(old(self)@, title@) ==> {
                &&& r is Ok
                &&& r->Ok_0@ == (NoteAbs {
                    id: old(self).spec_next_id(),
                    title: title@,
                    content: content@,
                    category: Some(category@),
                    published: None,
                    created_at: Some(created_at),
                    updated_at: None,
                })
                &&& !contains_id(old(self)@, old(self).spec_next_id())
                &&& final(self)@ == old(self)@.push(r->Ok_0@)
                &&& final(self).spec_next_id() == old(self).spec_next_id() + 1
            },
    {
        let mut i: usize = 0;
        while i < self.notes.len()
            invariant
                self == old(self),
                self.wf(),
                0 <= i <= self.notes.len(),
                forall|j: int| 0 <= j < i ==> (#[trigger] self@[j]).title != title@,
            decreases self.notes.len() - i,
        {
            if self.notes[i].title == title {
                assert(self@[i as int].title == title@);
                assert(contains_title(self@, title@));
                return Err(NoteError::UniqueViolation);
            }
            i = i + 1;
        }
        assert(!contains_title(self@, title@));
        let note = NoteModel {
            id: self.next_id,
            title,
            content,
            category: Some(category),
            published: None,
            created_at: Some(created_at),
            updated_at: None,
        };
        let result = note.clone();
        let ghost prev = self@;
        proof {
            assert(!contains_id(prev, self.next_id));
        }
        self.notes.push(note);
        self.next_id = self.next_id + 1;
        proof {
            assert(self@ =~= prev.push(result@));
            assert forall|a: int, b: int| 0 <= a < b < self@.len() implies self@[a].id
                < self@[b].id by {
                if b < prev.len() {
                } else {
                    assert(self@[b] == result@);
                }
            }
            assert forall|a: int, b: int|
                0 <= a < self@.len() && 0 <= b < self@.len() && a != b implies self@[a].title
                != self@[b].title by {
                if a < prev.len() && b < prev.len() {
                } else if a < prev.len() {
                    assert(self@[a].title != title@);
                } else {
                    assert(self@[b].title != title@);
                }
            }
        }
        Ok(result)
    }

    /// Replaces every mutable field of the note with id `id` and stamps
    /// `updated_at`. Fails with `NotFound` when the id has no row, and
    /// with `UniqueViolation` when the new title would duplicate another
    /// note's; either failure leaves the table unchanged.
    pub fn update_row(
        &mut self,
        id: u64,
        title: String,
        content: String,
        category: Option<String>,
        published: Option<bool>,
        updated_at: i64,
    ) -> (r: Result<NoteModel, NoteError>)
        requires
            old(self).wf(),
        ensures
            final(self).wf(),
            final(self).spec_next_id() == old(self).spec_next_id(),
            !contains_id(old(self)@, id) ==> {
                &&& r == Err::<NoteModel, NoteError>(NoteError::NotFound)
                &&& final(self)@ == old(self)@
            },
            contains_id(old(self)@, id) && title_taken_by_other(old(self)@, id, title@) ==> {
                &&& r == Err::<NoteModel, NoteError>(NoteError::UniqueViolation)
                &&& final(self)@ == old(self)@
            },
            contains_id(old(self)@, id) && !title_taken_by_other(old(self)@, id, title@) ==> {
                &&& r is Ok
                &&& r->Ok_0@ == (NoteAbs {
                    id,
                    title: title@,
                    content: content@,
                    category: opt_str_view(category),
                    published,
                    created_at: note_of_id(old(self)@, id).created_at,
                    updated_at: Some(updated_at),
                })
                &&& final(self)@ == old(self)@.update(index_of_id(old(self)@, id), r->Ok_0@)
            },
    {
        let i: usize = match self.find_index_by_id(id) {
            Some(i) => i,
            None => {
                return Err(NoteError::NotFound);
            },
        };
        let len = self.notes.len();
        let mut j: usize = 0;
        while j < len
            invariant
                self == old(self),
                self.wf(),
                len == self.notes.len(),
                0 <= i < len,
                self@[i as int].id == id,
                0 <= j <= len,
                forall|m: int|
                    0 <= m < j && (#[trigger] self@[m]).id != id ==> self@[m].title != title@,
            decreases len - j,
        {
            if self.notes[j].id != id && self.notes[j].title == title {
                assert(self@[j as int].id != id && self@[j as int].title == title@);
                assert(title_taken_by_other(self@, id, title@));
                return Err(NoteError::UniqueViolation);
            }
            j = j + 1;
        }
        assert(!title_taken_by_other(self@, id, title@));
        let created_at = self.notes[i].created_at;
        let note = NoteModel {
            id,
            title,
            content,
            category,
            published,
            created_at,
            updated_at: Some(updated_at),
        };
        let result = note.clone();
        let ghost prev = self@;
        self.notes.set(i, note);
        proof {
            assert(self@ =~= prev.update(i as int, result@));
            assert forall|a: int, b: int|
                0 <= a < self@.len() && 0 <= b < self@.len() && a != b implies self@[a].title
                != self@[b].title by {
                if a != i as int && b != i as int {
                } else if a == i as int {
                    assert(prev[b].id != id);
                    assert(self@[b].title != title@);
                } else {
                    assert(prev[a].id != id);
                    assert(self@[a].title != title@);
                }
            }
        }
        Ok(result)
    }

    /// Removes the note with id `id`. Never fails: the affected row count
    /// is 1 when the id had a row and 0 when it had none.
    pub fn delete_row(&mut self, id: u64) -> (r: Result<u64, NoteError>)
        requires
            old(self).wf(),
        ensures
            final(self).wf(),
            final(self).spec_next_id() == old(self).spec_next_id(),
            r is Ok,
            contains_id(old(self)@, id) ==> r == Ok::<u64, NoteError>(1u64) && final(self)@
                == remove_id(old(self)@, id),
            !contains_id(old(self)@, id) ==> r == Ok::<u64, NoteError>(0u64) && final(self)@
                == old(self)@,
    {
        let i: usize = match self.find_index_by_id(id) {
            Some(i) => i,
            None => {
                return Ok(0);
            },
        };
        let ghost prev = self@;
        self.notes.remove(i);
        proof {
            assert(self@ =~= prev.remove(i as int));
            assert(self@ =~= remove_id(prev, id));
            assert forall|a: int, b: int| 0 <= a < b < self@.len() implies self@[a].id
                < self@[b].id by {
                if b < i as int {
                } else if a < i as int {
                    assert(self@[b] == prev[b + 1]);
                } else {
                    assert(self@[a] == prev[a + 1]);
                    assert(self@[b] == prev[b + 1]);
                }
            }
            assert forall|a: int, b: int|
                0 <= a < self@.len() && 0 <= b < self@.len() && a != b implies self@[a].title
                != self@[b].title by {
                let pa = if a < i as int { a } else { a + 1 };
                let pb = if b < i as int { b } else { b + 1 };
                assert(self@[a] == prev[pa]);
                assert(self@[b] == prev[pb]);
            }
        }
        Ok(1)
    }
}

} // verus!
