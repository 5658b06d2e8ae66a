//! Full-text search over notes: a case-folded query matched against the
//! case-folded title, body and tags of each note.
use vstd::prelude::*;
use crate::state::{notes_view, Note, NoteModel};
use crate::text::chars_of;

verus! {

/// What `str::to_lowercase` makes of a string.
pub uninterp spec fn lower_of(s: Seq<char>) -> Seq<char>;

/// Relies on `str::to_lowercase`: the result depends on the characters
/// alone, and the empty string stays empty.
#[verifier::external_body]
pub fn lowercase(s: &str) -> (r: String)
    ensures
        r@ == lower_of(s@),
        s@.len() == 0 ==> r@.len() == 0,
{
    s.to_lowercase()
}

/// `needle` occurs in `hay` at offset `i`.
pub open spec fn occurs_at(hay: Seq<char>, needle: Seq<char>, i: int) -> bool {
    0 <= i && i + needle.len() <= hay.len() && hay.subrange(i, i + needle.len()) == needle
}

/// `needle` occurs somewhere in `hay`.
pub open spec fn occurs_in(hay: Seq<char>, needle: Seq<char>) -> bool {
    exists|i: int| occurs_at(hay, needle, i)
}

/// A note matches a folded query where the query occurs in its folded
/// title, body or one of its folded tags.
pub open spec fn note_matches(q: Seq<char>, n: NoteModel) -> bool {
    ||| occurs_in(lower_of(n.title), q)
    ||| occurs_in(lower_of(n.content), q)
    ||| exists|j: int| 0 <= j < n.tags.len() && occurs_in(lower_of(#[trigger] n.tags[j]), q)
}

/// The indices of the notes that match, ascending.
pub open spec fn hits(q: Seq<char>, notes: Seq<NoteModel>) -> Seq<usize>
    decreases notes.len(),
{
    if notes.len() == 0 {
        Seq::empty()
    } else {
        hits(q, notes.drop_last()) + if note_matches(q, notes.last()) {
            seq![(notes.len() - 1) as usize]
        } else {
            Seq::empty()
        }
    }
}

/// Whether `needle` occurs in `hay`.
pub fn occurs(hay: &str, needle: &str) -> (r: bool)
    ensures
        r == occurs_in(hay@, needle@),
{
    let h = chars_of(hay);
    let n = chars_of(needle);
    if n.len() > h.len() {
        return false;
    }
    let mut i: usize = 0;
    while i <= h.len() - n.len()
        invariant
            n.len() <= h.len(),
            h@ == hay@,
            n@ == needle@,
            forall|k: int| 0 <= k < i ==> !occurs_at(h@, n@, k),
        decreases h.len() - n.len() + 1 - i,
    {
        let mut j: usize = 0;
        while j < n.len() && h[i + j] == n[j]
            invariant
                j <= n.len(),
                i + n.len() <= h.len(),
                forall|m: int| 0 <= m < j ==> h@[i + m] == n@[m],
            decreases n.len() - j,
        {
            j = j + 1;
        }
        if j == n.len() {
            proof {
                assert(h@.subrange(i as int, i + n.len()) =~= n@);
                assert(occurs_at(hay@, needle@, i as int));
            }
            return true;
        }
        proof {
            assert(h@.subrange(i as int, i + n.len())[j as int] == h@[i + j]);
        }
        i = i + 1;
    }
    false
}

/// Whether a note matches the folded query `q`.
pub fn matches_folded(q: &str, n: &Note) -> (r: bool)
    ensures
        r == note_matches(q@, n@),
{
    if occurs(lowercase(n.title.as_str()).as_str(), q) {
        return true;
    }
    if occurs(lowercase(n.content.as_str()).as_str(), q) {
        return true;
    }
    let mut j: usize = 0;
    while j < n.tags.len()
        invariant
            j <= n.tags@.len(),
            n@.tags.len() == n.tags@.len(),
            forall|k: int| 0 <= k < j ==> !occurs_in(lower_of(#[trigger] n@.tags[k]), q@),
        decreases n.tags.len() - j,
    {
        if occurs(lowercase(n.tags[j].as_str()).as_str(), q) {
            proof {
                assert(n@.tags[j as int] == n.tags@[j as int]@);
            }
            return true;
        }
        j = j + 1;
    }
    false
}

/// The indices of the notes that match the folded query `q`, ascending.
pub fn search_folded(q: &str, notes: &Vec<Note>) -> (r: Vec<usize>)
    ensures
        r@ == hits(q@, notes_view(notes@)),
{
    let mut r: Vec<usize> = Vec::new();
    let mut i: usize = 0;
    while i < notes.len()
        invariant
            i <= notes.len(),
            r@ == hits(q@, notes_view(notes@).take(i as int)),
        decreases notes.len() - i,
    {
        proof {
            assert(notes_view(notes@).take(i + 1).drop_last() =~= notes_view(notes@).take(
                i as int,
            ));
        }
        if matches_folded(q, &notes[i]) {
            r.push(i);
        }
        proof {
            assert(r@ =~= hits(q@, notes_view(notes@).take(i + 1)));
        }
        i = i + 1;
    }
    proof {
        assert(notes_view(notes@).take(notes.len() as int) =~= notes_view(notes@));
    }
    r
}

/// The search results for `query`: none where the folded query is empty.
pub open spec fn search_spec(query: Seq<char>, notes: Seq<NoteModel>) -> Seq<usize> {
    if lower_of(query).len() == 0 {
        Seq::empty()
    } else {
        hits(lower_of(query), notes)
    }
}

/// The indices of the notes that match `query` without regard to case; none
/// for an empty query.
pub fn search(query: &str, notes: &Vec<Note>) -> (r: Vec<usize>)
    ensures
        r@ == search_spec(query@, notes_view(notes@)),
{
    let q = lowercase(query);
    if q.as_str().unicode_len() == 0 {
        Vec::new()
    } else {
        search_folded(q.as_str(), notes)
    }
}

} // verus!
