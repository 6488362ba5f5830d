use vstd::prelude::*;

verus! {

/// The error kinds an operation on notes can end in. `NotFound` means the
/// requested id has no row; `UniqueViolation` means a write would duplicate
/// a title; `StorageUnavailable` stands for a lost connection to the store;
/// `InternalError` carries the diagnostic text of an unclassified storage
/// failure.
#[derive(Debug, PartialEq, Eq)]
pub enum NoteError {
    NotFound,
    UniqueViolation,
    StorageUnavailable,
    InternalError(String),
}

/// `needle` occurs in `hay` starting at position `i`.
pub open spec fn occurs_at(hay: Seq<char>, needle: Seq<char>, i: int) -> bool {
    0 <= i && i + needle.len() <= hay.len() && hay.subrange(i, i + needle.len()) == needle
}

/// `needle` occurs somewhere in `hay`.
pub open spec fn contains_seq(hay: Seq<char>, needle: Seq<char>) -> bool {
    exists|i: int| occurs_at(hay, needle, i)
}

/// `needle` matches `hay` at position `start`, compared character by
/// character.
fn matches_at(hay: &str, needle: &str, start: usize, hay_len: usize, needle_len: usize) -> (r:
    bool)
    requires
        hay_len == hay@.len(),
        needle_len == needle@.len(),
        start + needle_len <= hay_len,
    ensures
        r == occurs_at(hay@, needle@, start as int),
{
    let mut k: usize = 0;
    while k < needle_len
        invariant
            hay_len == hay@.len(),
            needle_len == needle@.len(),
            start + needle_len <= hay_len,
            0 <= k <= needle_len,
            forall|m: int| 0 <= m < k ==> hay@[start + m] == needle@[m],
        decreases needle_len - k,
    {
        if hay.get_char(start + k) != needle.get_char(k) {
            assert(hay@.subrange(start as int, start + needle_len)[k as int] != needle@[k as int]);
            return false;
        }
        k = k + 1;
    }
    assert(hay@.subrange(start as int, start + needle_len) =~= needle@);
    true
}

/// Whether `hay` holds `needle` as a contiguous run of characters.
pub fn str_contains(hay: &str, needle: &str) -> (r: bool)
    ensures
        r == contains_seq(hay@, needle@),
{
    let hay_len: usize = hay.unicode_len();
    let needle_len: usize = needle.unicode_len();
    if needle_len > hay_len {
        assert(forall|i: int| !occurs_at(hay@, needle@, i));
        return false;
    }
    if needle_len == 0 {
        assert(hay@.subrange(0, 0) =~= needle@);
        assert(occurs_at(hay@, needle@, 0));
        return true;
    }
    let mut i: usize = 0;
    while i <= hay_len - needle_len
        invariant
            hay_len == hay@.len(),
            needle_len == needle@.len(),
            0 < needle_len <= hay_len,
            0 <= i <= hay_len - needle_len + 1,
            forall|j: int| 0 <= j < i ==> !occurs_at(hay@, needle@, j),
        decreases hay_len - i,
    {
        if matches_at(hay, needle, i, hay_len, needle_len) {
            return true;
        }
        i = i + 1;
    }
    assert(forall|j: int| !occurs_at(hay@, needle@, j));
    false
}

/// The fragment of the driver's message that marks a breach of the title
/// uniqueness constraint.
pub open spec fn unique_violation_marker() -> Seq<char> {
    "duplicate key value violates unique constraint"@
}

/// Classifies the text of a failed insert: a message that names a breached
/// uniqueness constraint becomes `UniqueViolation`; any other message is an
/// unclassified internal failure and is kept as its diagnostic detail.
pub fn classify_insert_failure(message: String) -> (r: NoteError)
    ensures
        contains_seq(message@, unique_violation_marker()) ==> r == NoteError::UniqueViolation,
        !contains_seq(message@, unique_violation_marker()) ==> r == NoteError::InternalError(
            message,
        ),
{
    let marker: &str = "duplicate key value violates unique constraint";
    if str_contains(message.as_str(), marker) {
        NoteError::UniqueViolation
    } else {
        NoteError::InternalError(message)
    }
}

} // verus!
