use vstd::prelude::*;

use crate::note::opt_str_view;

verus! {

/// Pagination options for listing notes. `page` is 1-based and defaults to
/// 1 (values below 1 are treated as 1); `limit` defaults to 10 and has no
/// enforced upper bound.
#[derive(Clone, Copy)]
pub struct FilterOptions {
    pub page: Option<usize>,
    pub limit: Option<usize>,
}

/// Input to `create`: a required title and content, and an optional
/// category that defaults to the empty string when absent.
pub struct CreateNoteSchema {
    pub title: String,
    pub content: String,
    pub category: Option<String>,
}

/// Input to `update`: every field optional; an absent field keeps the
/// value currently stored.
pub struct UpdateNoteSchema {
    pub title: Option<String>,
    pub content: Option<String>,
    pub category: Option<String>,
    pub published: Option<bool>,
}

/// Mathematical model of an update request.
#[verifier::ext_equal]
pub ghost struct UpdateAbs {
    pub title: Option<Seq<char>>,
    pub content: Option<Seq<char>>,
    pub category: Option<Seq<char>>,
    pub published: Option<bool>,
}

impl View for UpdateNoteSchema {
    type V = UpdateAbs;

    open spec fn view(&self) -> UpdateAbs {
        UpdateAbs {
            title: opt_str_view(self.title),
            content: opt_str_view(self.content),
            category: opt_str_view(self.category),
            published: self.published,
        }
    }
}

/// The page size a listing uses: the caller's `limit`, or 10.
pub open spec fn effective_limit(opts: FilterOptions) -> int {
    match opts.limit {
        Some(l) => l as int,
        None => 10,
    }
}

/// The 1-based page a listing uses: the caller's `page` clamped up to 1.
pub open spec fn effective_page(opts: FilterOptions) -> int {
    match opts.page {
        Some(p) => if p < 1 { 1 } else { p as int },
        None => 1,
    }
}

/// The number of notes skipped before the requested page starts.
pub open spec fn effective_offset(opts: FilterOptions) -> int {
    (effective_page(opts) - 1) * effective_limit(opts)
}

/// Turns pagination options into the concrete window `(limit, offset)`.
/// Returns `None` exactly when the offset does not fit in `usize`; such a
/// window starts past any storable sequence of notes, so a listing for it
/// is empty.
pub fn pagination_window(opts: &FilterOptions) -> (r: Option<(usize, usize)>)
    ensures
        match r {
            Some(w) => w.0 == effective_limit(*opts) && w.1 == effective_offset(*opts),
            None => effective_offset(*opts) > usize::MAX,
        },
{
    let limit: usize = match opts.limit {
        Some(l) => l,
        None => 10,
    };
    let page: usize = match opts.page {
        Some(p) => if p < 1 { 1 } else { p },
        None => 1,
    };
    match (page - 1).checked_mul(limit) {
        Some(offset) => Some((limit, offset)),
        None => None,
    }
}

} // verus!
