//! The tag list: every tag of every note once, in ascending order.
use vstd::prelude::*;
use crate::state::{notes_view, strings_view, Note, NoteModel};
use crate::text::chars_of;

verus! {

/// `a` sorts before `b`: at the first place where they differ `a` has the
/// smaller character, or `a` is a proper prefix of `b`. This is the order of
/// `String`, since UTF-8 keeps the order of code points.
pub open spec fn lex_less(a: Seq<char>, b: Seq<char>) -> bool
    decreases a.len(),
{
    if a.len() == 0 {
        b.len() > 0
    } else if b.len() == 0 {
        false
    } else if a[0] != b[0] {
        (a[0] as int) < (b[0] as int)
    } else {
        lex_less(a.skip(1), b.skip(1))
    }
}

/// Each entry sorts before the next.
pub open spec fn ascending(s: Seq<Seq<char>>) -> bool {
    forall|i: int| 0 <= i < s.len() - 1 ==> lex_less(#[trigger] s[i], s[i + 1])
}

/// The tags of each note, in order.
pub open spec fn note_tags(notes: Seq<NoteModel>) -> Seq<Seq<Seq<char>>> {
    notes.map_values(|n: NoteModel| n.tags)
}

/// The lists of `ls` one after the other.
pub open spec fn flat(ls: Seq<Seq<Seq<char>>>) -> Seq<Seq<char>>
    decreases ls.len(),
{
    if ls.len() == 0 {
        Seq::empty()
    } else {
        flat(ls.drop_last()) + ls.last()
    }
}

/// Every tag that some note carries.
pub open spec fn all_tags(notes: Seq<NoteModel>) -> Set<Seq<char>> {
    flat(note_tags(notes)).to_set()
}

/// The first place at or after `k` whose entry does not sort before `x`.
pub open spec fn first_not_before(s: Seq<Seq<char>>, x: Seq<char>, k: int) -> int
    decreases s.len() - k,
{
    if k < 0 || k >= s.len() || !lex_less(s[k], x) {
        k
    } else {
        first_not_before(s, x, k + 1)
    }
}

/// `x` added to the ascending list `s` in its place, unless it is there.
pub open spec fn insert_spec(s: Seq<Seq<char>>, x: Seq<char>) -> Seq<Seq<char>> {
    if s.contains(x) {
        s
    } else {
        s.insert(first_not_before(s, x, 0), x)
    }
}

/// The tag list built from the tags `f`, taken in order.
pub open spec fn tag_list(f: Seq<Seq<char>>) -> Seq<Seq<char>>
    decreases f.len(),
{
    if f.len() == 0 {
        Seq::empty()
    } else {
        insert_spec(tag_list(f.drop_last()), f.last())
    }
}

/// The tag list of these notes.
pub open spec fn tag_list_of(notes: Seq<NoteModel>) -> Seq<Seq<char>> {
    tag_list(flat(note_tags(notes)))
}

proof fn lemma_lex_total(a: Seq<char>, b: Seq<char>)
    requires
        a != b,
    ensures
        lex_less(a, b) || lex_less(b, a),
    decreases a.len(),
{
    if a.len() > 0 && b.len() > 0 && a[0] == b[0] {
        if a.skip(1) == b.skip(1) {
            assert(a =~= seq![a[0]] + a.skip(1));
            assert(b =~= seq![b[0]] + b.skip(1));
        }
        lemma_lex_total(a.skip(1), b.skip(1));
    } else if a.len() == 0 && b.len() == 0 {
        assert(a =~= b);
    } else if a.len() > 0 && b.len() > 0 {
        assert((a[0] as int) != (b[0] as int));
    }
}

/// Whether `a` sorts before `b`.
pub fn str_less(a: &str, b: &str) -> (r: bool)
    ensures
        r == lex_less(a@, b@),
{
    let x = chars_of(a);
    let y = chars_of(b);
    let mut i: usize = 0;
    proof {
        assert(x@.skip(0) =~= x@);
        assert(y@.skip(0) =~= y@);
    }
    while i < x.len() && i < y.len() && x[i] == y[i]
        invariant
            i <= x.len(),
            i <= y.len(),
            lex_less(x@.skip(i as int), y@.skip(i as int)) == lex_less(a@, b@),
            x@ == a@,
            y@ == b@,
        decreases x.len() - i,
    {
        proof {
            assert(x@.skip(i as int).skip(1) =~= x@.skip(i + 1));
            assert(y@.skip(i as int).skip(1) =~= y@.skip(i + 1));
        }
        i = i + 1;
    }
    if i == x.len() {
        i < y.len()
    } else if i == y.len() {
        false
    } else {
        x[i] < y[i]
    }
}

/// Adds `t` to an ascending list without repeats, where it is not there yet.
pub fn insert_sorted(list: &mut Vec<String>, t: String)
    requires
        ascending(strings_view(old(list)@)),
        strings_view(old(list)@).no_duplicates(),
    ensures
        ascending(strings_view(final(list)@)),
        strings_view(final(list)@).no_duplicates(),
        strings_view(final(list)@).to_set() == strings_view(old(list)@).to_set().insert(t@),
        strings_view(final(list)@) == insert_spec(strings_view(old(list)@), t@),
{
    let ghost old_view = strings_view(list@);
    let mut k: usize = 0;
    while k < list.len()
        invariant
            k <= list.len(),
            list@ == old(list)@,
            old_view == strings_view(list@),
            ascending(old_view),
            old_view.no_duplicates(),
            forall|i: int| 0 <= i < k ==> old_view[i] != t@,
        decreases list.len() - k,
    {
        if list[k] == t {
            proof {
                assert(old_view[k as int] == list@[k as int]@);
                assert(old_view.contains(t@));
                assert(old_view.to_set().insert(t@) =~= old_view.to_set());
            }
            return;
        }
        k = k + 1;
    }
    proof {
        assert forall|i: int| 0 <= i < old_view.len() implies old_view[i] != t@ by {}
    }
    let mut p: usize = 0;
    while p < list.len() && str_less(list[p].as_str(), t.as_str())
        invariant
            p <= list.len(),
            list@ == old(list)@,
            old_view == strings_view(list@),
            ascending(old_view),
            old_view.no_duplicates(),
            !old_view.contains(t@),
            first_not_before(old_view, t@, p as int) == first_not_before(old_view, t@, 0),
            forall|i: int| 0 <= i < p ==> lex_less(#[trigger] old_view[i], t@),
        decreases list.len() - p,
    {
        p = p + 1;
    }
    let ghost tv = t@;
    list.insert(p, t);
    proof {
        let nv = strings_view(list@);
        assert(nv =~= old_view.insert(p as int, tv));
        assert(first_not_before(old_view, tv, p as int) == p);
        if p < old_view.len() {
            assert(old_view[p as int] != tv);
            lemma_lex_total(old_view[p as int], tv);
        }
        assert forall|i: int| 0 <= i < nv.len() - 1 implies lex_less(#[trigger] nv[i], nv[i + 1]) by {
            if i + 1 < p {
                assert(nv[i] == old_view[i] && nv[i + 1] == old_view[i + 1]);
            } else if i + 1 == p {
                assert(nv[i] == old_view[i] && nv[i + 1] == tv);
            } else if i == p {
                assert(nv[i] == tv && nv[i + 1] == old_view[i]);
            } else {
                assert(nv[i] == old_view[i - 1] && nv[i + 1] == old_view[i]);
            }
        }
        assert(!old_view.contains(tv));
        assert forall|i: int, j: int| 0 <= i < nv.len() && 0 <= j < nv.len() && i != j implies nv[i]
            != nv[j] by {
            if i != p && j != p {
                let oi = if i < p { i } else { i - 1 };
                let oj = if j < p { j } else { j - 1 };
                assert(nv[i] == old_view[oi] && nv[j] == old_view[oj]);
            } else if i == p {
                let oj = if j < p { j } else { j - 1 };
                assert(nv[j] == old_view[oj]);
            } else {
                let oi = if i < p { i } else { i - 1 };
                assert(nv[i] == old_view[oi]);
            }
        }
        assert(nv.to_set() =~= old_view.to_set().insert(tv)) by {
            assert forall|x: Seq<char>| nv.to_set().contains(x) implies old_view.to_set().insert(
                tv,
            ).contains(x) by {
                let i = choose|i: int| 0 <= i < nv.len() && nv[i] == x;
                if i < p {
                    assert(old_view[i] == x);
                } else if i > p {
                    assert(old_view[i - 1] == x);
                }
            }
            assert forall|x: Seq<char>| old_view.to_set().insert(tv).contains(x) implies nv.to_set().contains(
                x,
            ) by {
                if x == tv {
                    assert(nv[p as int] == tv);
                } else {
                    let i = choose|i: int| 0 <= i < old_view.len() && old_view[i] == x;
                    if i < p {
                        assert(nv[i] == x);
                    } else {
                        assert(nv[i + 1] == x);
                    }
                }
            }
        }
    }
}

/// The tag list of `notes`: each tag that a note carries, once, in
/// ascending order.
pub fn collect_tags(notes: &Vec<Note>) -> (r: Vec<String>)
    ensures
        ascending(strings_view(r@)),
        strings_view(r@).no_duplicates(),
        strings_view(r@).to_set() == all_tags(notes_view(notes@)),
        strings_view(r@) == tag_list_of(notes_view(notes@)),
{
    let mut r: Vec<String> = Vec::new();
    let ghost ls = note_tags(notes_view(notes@));
    proof {
        assert(strings_view(r@) =~= Seq::<Seq<char>>::empty());
        assert(flat(ls.take(0)) =~= Seq::<Seq<char>>::empty());
    }
    proof {
        assert(tag_list(flat(ls.take(0))) =~= Seq::<Seq<char>>::empty());
    }
    let mut i: usize = 0;
    while i < notes.len()
        invariant
            i <= notes.len(),
            ls == note_tags(notes_view(notes@)),
            ascending(strings_view(r@)),
            strings_view(r@).no_duplicates(),
            strings_view(r@).to_set() == flat(ls.take(i as int)).to_set(),
            strings_view(r@) == tag_list(flat(ls.take(i as int))),
        decreases notes.len() - i,
    {
        let tags = &notes[i].tags;
        let ghost before = flat(ls.take(i as int));
        proof {
            assert(ls[i as int] == strings_view(tags@));
            assert(before + strings_view(tags@).take(0) =~= before);
        }
        let mut j: usize = 0;
        while j < tags.len()
            invariant
                j <= tags.len(),
                ascending(strings_view(r@)),
                strings_view(r@).no_duplicates(),
                strings_view(r@).to_set() == (before + strings_view(tags@).take(j as int)).to_set(),
                strings_view(r@) == tag_list(before + strings_view(tags@).take(j as int)),
            decreases tags.len() - j,
        {
            let ghost prev = before + strings_view(tags@).take(j as int);
            insert_sorted(&mut r, tags[j].clone());
            proof {
                assert(before + strings_view(tags@).take(j + 1) =~= prev.push(tags@[j as int]@));
                assert(prev.push(tags@[j as int]@).drop_last() =~= prev);
                assert(prev.push(tags@[j as int]@).to_set() =~= prev.to_set().insert(tags@[j as int]@)) by {
                    assert forall|x: Seq<char>| prev.push(tags@[j as int]@).to_set().contains(x) <==> prev.to_set().insert(tags@[j as int]@).contains(x) by {
                        if prev.push(tags@[j as int]@).to_set().contains(x) {
                            let k = choose|k: int| 0 <= k < prev.len() + 1 && prev.push(tags@[j as int]@)[k] == x;
                            if k < prev.len() {
                                assert(prev[k] == x);
                            }
                        }
                        if prev.to_set().contains(x) {
                            let k = choose|k: int| 0 <= k < prev.len() && prev[k] == x;
                            assert(prev.push(tags@[j as int]@)[k] == x);
                        }
                        if x == tags@[j as int]@ {
                            assert(prev.push(tags@[j as int]@)[prev.len() as int] == x);
                        }
                    }
                }
            }
            j = j + 1;
        }
        proof {
            assert(strings_view(tags@).take(tags.len() as int) =~= strings_view(tags@));
            assert(ls.take(i + 1).drop_last() =~= ls.take(i as int));
            assert(flat(ls.take(i + 1)) == before + ls[i as int]);
        }
        i = i + 1;
    }
    proof {
        assert(ls.take(notes.len() as int) =~= ls);
    }
    r
}

} // verus!
