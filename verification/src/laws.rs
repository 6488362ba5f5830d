use vstd::prelude::*;

use crate::controller::merge_abs;
use crate::controller::merged_title;
use crate::controller::update_applies;
use crate::note::NoteAbs;
use crate::schema::UpdateAbs;
use crate::store::contains_id;
use crate::store::ids_sorted;
use crate::store::index_of_id;
use crate::store::note_of_id;
use crate::store::page_of;
use crate::store::remove_id;
use crate::store::title_taken_by_other;
use crate::store::titles_unique;

verus! {

/// A listing for a valid page and a positive limit returns at most
/// `limit` notes, ordered by ascending id.
pub proof fn lemma_page_bounded_and_sorted(s: Seq<NoteAbs>, page: int, limit: int)
    requires
        ids_sorted(s),
        page >= 1,
        limit > 0,
    ensures
        ({
            let r = page_of(s, limit, (page - 1) * limit);
            &&& r.len() <= limit
            &&& forall|i: int, j: int| 0 <= i < j < r.len() ==> r[i].id < r[j].id
        }),
{
    assert((page - 1) * limit >= 0) by (nonlinear_arith)
        requires
            page >= 1,
            limit > 0,
    ;
    let offset = (page - 1) * limit;
    let r = page_of(s, limit, offset);
    assert forall|i: int, j: int| 0 <= i < j < r.len() implies r[i].id < r[j].id by {
        assert(r[i] == s[offset + i]);
        assert(r[j] == s[offset + j]);
    }
}

/// The pages `page` and `page + 1` of one listing share no id: paging
/// walks the table without repeating a note.
pub proof fn lemma_consecutive_pages_disjoint(s: Seq<NoteAbs>, page: int, limit: int)
    requires
        ids_sorted(s),
        page >= 1,
        limit > 0,
    ensures
        ({
            let r1 = page_of(s, limit, (page - 1) * limit);
            let r2 = page_of(s, limit, page * limit);
            forall|i: int, j: int|
                0 <= i < r1.len() && 0 <= j < r2.len() ==> r1[i].id != r2[j].id
        }),
{
    assert((page - 1) * limit >= 0) by (nonlinear_arith)
        requires
            page >= 1,
            limit > 0,
    ;
    assert((page - 1) * limit + limit == page * limit) by (nonlinear_arith);
    let off1 = (page - 1) * limit;
    let off2 = page * limit;
    let r1 = page_of(s, limit, off1);
    let r2 = page_of(s, limit, off2);
    assert forall|i: int, j: int|
        0 <= i < r1.len() && 0 <= j < r2.len() implies r1[i].id != r2[j].id by {
        assert(r1[i] == s[off1 + i]);
        assert(r2[j] == s[off2 + j]);
        assert(off1 + i < off2 + j);
    }
}

/// Creating a note whose id is fresh and then fetching that id yields
/// exactly the created note.
pub proof fn lemma_create_then_get(s: Seq<NoteAbs>, n: NoteAbs)
    requires
        !contains_id(s, n.id),
    ensures
        contains_id(s.push(n), n.id),
        note_of_id(s.push(n), n.id) == n,
{
    let s2 = s.push(n);
    assert(s2[s.len() as int] == n);
    assert(contains_id(s2, n.id));
    let k = index_of_id(s2, n.id);
    assert(0 <= k < s2.len() && s2[k].id == n.id);
    if k < s.len() {
        assert(s2[k] == s[k]);
        assert(contains_id(s, n.id));
    }
}

/// The update request that supplies no fields.
pub open spec fn empty_patch() -> UpdateAbs {
    UpdateAbs { title: None, content: None, category: None, published: None }
}

/// An update that supplies no fields leaves title, content, category and
/// published unchanged, keeps `created_at`, and stamps `updated_at` with
/// the supplied time; on a well-formed store it always goes through.
pub proof fn lemma_empty_update_keeps_fields(s: Seq<NoteAbs>, id: u64, now: i64)
    requires
        ids_sorted(s),
        titles_unique(s),
        contains_id(s, id),
    ensures
        ({
            let cur = note_of_id(s, id);
            let m = merge_abs(cur, empty_patch(), now);
            &&& m.id == cur.id
            &&& m.title == cur.title
            &&& m.content == cur.content
            &&& m.category == cur.category
            &&& m.published == cur.published
            &&& m.created_at == cur.created_at
            &&& m.updated_at == Some(now)
        }),
        update_applies(s, id, empty_patch()),
{
    let i = index_of_id(s, id);
    assert(0 <= i < s.len() && s[i].id == id);
    assert(merged_title(s, id, empty_patch()) == note_of_id(s, id).title);
    if title_taken_by_other(s, id, note_of_id(s, id).title) {
        let j = choose|j: int|
            0 <= j < s.len() && s[j].id != id && s[j].title == note_of_id(s, id).title;
        assert(j != i);
        assert(s[j].title != s[i].title);
        assert(false);
    }
}

/// After a delete, the deleted id has no row: a following get reports
/// `NotFound`, and a second delete of the same id finds nothing to
/// remove.
pub proof fn lemma_delete_then_get(s: Seq<NoteAbs>, id: u64)
    requires
        ids_sorted(s),
    ensures
        !contains_id(remove_id(s, id), id),
{
    if contains_id(s, id) {
        let i = index_of_id(s, id);
        assert(0 <= i < s.len() && s[i].id == id);
        let s2 = s.remove(i);
        assert(remove_id(s, id) == s2);
        assert forall|j: int| 0 <= j < s2.len() implies s2[j].id != id by {
            if j < i {
                assert(s2[j] == s[j]);
                if s[j].id == id {
                    assert(s[j].id < s[i].id);
                }
            } else {
                assert(s2[j] == s[j + 1]);
                if s[j + 1].id == id {
                    assert(s[i].id < s[j + 1].id);
                }
            }
        }
    }
}

} // verus!
