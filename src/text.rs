//! The editing engine: a note's body as a sequence of characters, addressed
//! by character offset, with insertion, deletion and cursor motion.
use vstd::prelude::*;

verus! {

/// Relies on `String::push`: the character is appended at the end.
pub assume_specification[ String::push ](s: &mut String, ch: char)
    ensures
        final(s)@ == old(s)@.push(ch),
;

/// Relies on `String::pop`: the last character is removed and returned;
/// an empty string stays empty and gives `None`.
pub assume_specification[ String::pop ](s: &mut String) -> (r: Option<char>)
    ensures
        old(s)@.len() == 0 ==> r is None && final(s)@ == old(s)@,
        old(s)@.len() > 0 ==> r == Some(old(s)@.last()) && final(s)@ == old(s)@.drop_last(),
;

/// Relies on `String::clear`: the string becomes empty.
pub assume_specification[ String::clear ](s: &mut String)
    ensures
        final(s)@.len() == 0,
;

/// Whether `s` starts with `p`.
pub fn has_prefix(s: &str, p: &str) -> (r: bool)
    ensures
        r == (p@.len() <= s@.len() && s@.take(p@.len() as int) == p@),
{
    let a = chars_of(s);
    let b = chars_of(p);
    if b.len() > a.len() {
        return false;
    }
    let mut i: usize = 0;
    while i < b.len()
        invariant
            i <= b.len() <= a.len(),
            a@ == s@,
            b@ == p@,
            forall|k: int| 0 <= k < i ==> a@[k] == b@[k],
        decreases b.len() - i,
    {
        if a[i] != b[i] {
            proof {
                assert(s@.take(p@.len() as int)[i as int] != p@[i as int]);
            }
            return false;
        }
        i = i + 1;
    }
    proof {
        assert(s@.take(p@.len() as int) =~= p@);
    }
    true
}

/// The characters of `s`, in order.
pub fn chars_of(s: &str) -> (r: Vec<char>)
    ensures
        r@ == s@,
{
    let mut r: Vec<char> = Vec::new();
    for c in it: s.chars()
        invariant
            r@ == it.seq().take(it.index() as int),
    {
        r.push(c);
    }
    r
}

/// The string made of the characters of `v`, in order.
pub fn string_of(v: &Vec<char>) -> (r: String)
    ensures
        r@ == v@,
{
    let r = string_of_range(v, 0, v.len());
    proof {
        assert(v@.subrange(0, v.len() as int) == v@);
    }
    r
}

/// The string made of the characters of `v` from `from` up to `to`.
pub fn string_of_range(v: &Vec<char>, from: usize, to: usize) -> (r: String)
    requires
        from <= to <= v.len(),
    ensures
        r@ == v@.subrange(from as int, to as int),
{
    let mut r = String::new();
    let mut i: usize = from;
    while i < to
        invariant
            from <= i <= to <= v.len(),
            r@ == v@.subrange(from as int, i as int),
        decreases to - i,
    {
        r.push(v[i]);
        i = i + 1;
        proof {
            assert(v@.subrange(from as int, i as int) == v@.subrange(from as int, i - 1).push(
                v@[i - 1],
            ));
        }
    }
    r
}

/// An offset moved into `[0, len]`.
pub open spec fn clamp(o: int, len: int) -> int {
    if o < 0 {
        0
    } else if o < len {
        o
    } else {
        len
    }
}

/// Inserting `c` at offset `o` (clamped): the new text and the new offset.
pub open spec fn insert_spec(s: Seq<char>, o: int, c: char) -> (Seq<char>, int) {
    let at = clamp(o, s.len() as int);
    (s.insert(at, c), at + 1)
}

/// Deleting the character before offset `o` (clamped): the new text and
/// the new offset. Nothing changes at offset 0.
pub open spec fn delete_before_spec(s: Seq<char>, o: int) -> (Seq<char>, int) {
    let at = clamp(o, s.len() as int);
    if at == 0 {
        (s, 0)
    } else {
        (s.remove(at - 1), at - 1)
    }
}

/// One character to the left, within `[0, len]`.
pub open spec fn left_spec(s: Seq<char>, o: int) -> int {
    let at = clamp(o, s.len() as int);
    if at == 0 {
        0
    } else {
        at - 1
    }
}

/// One character to the right, within `[0, len]`.
pub open spec fn right_spec(s: Seq<char>, o: int) -> int {
    let at = clamp(o, s.len() as int);
    if at < s.len() {
        at + 1
    } else {
        at
    }
}

/// The offset at which the line holding offset `o` starts: 0, or one past
/// the last newline before `o`.
pub open spec fn line_start(s: Seq<char>, o: int) -> int
    decreases o,
{
    if o <= 0 {
        0
    } else if s[o - 1] == '\n' {
        o
    } else {
        line_start(s, o - 1)
    }
}

/// The offset at which the line holding offset `o` ends: the first newline
/// at or after `o`, or the end of the text.
pub open spec fn line_end(s: Seq<char>, o: int) -> int
    decreases s.len() - o,
{
    if o >= s.len() {
        s.len() as int
    } else if s[o] == '\n' {
        o
    } else {
        line_end(s, o + 1)
    }
}

pub open spec fn min(a: int, b: int) -> int {
    if a <= b {
        a
    } else {
        b
    }
}

/// The offset one line up, in the same column where the line above is long
/// enough, else at its end; on the first line the offset stays.
pub open spec fn up_spec(s: Seq<char>, o: int) -> int {
    let at = clamp(o, s.len() as int);
    let start = line_start(s, at);
    if start == 0 {
        at
    } else {
        let prev_start = line_start(s, start - 1);
        prev_start + min(at - start, start - 1 - prev_start)
    }
}

/// The offset one line down, in the same column where the line below is
/// long enough, else at its end; on the last line the offset stays.
pub open spec fn down_spec(s: Seq<char>, o: int) -> int {
    let at = clamp(o, s.len() as int);
    let end = line_end(s, at);
    if end == s.len() {
        at
    } else {
        let next_start = end + 1;
        next_start + min(at - line_start(s, at), line_end(s, next_start) - next_start)
    }
}

/// The number of newlines in `s`.
pub open spec fn newline_count(s: Seq<char>) -> nat
    decreases s.len(),
{
    if s.len() == 0 {
        0
    } else {
        newline_count(s.drop_last()) + if s.last() == '\n' {
            1nat
        } else {
            0nat
        }
    }
}

proof fn lemma_line_start_bounds(s: Seq<char>, o: int)
    requires
        0 <= o <= s.len(),
    ensures
        0 <= line_start(s, o) <= o,
        line_start(s, o) > 0 ==> s[line_start(s, o) - 1] == '\n',
        forall|k: int| line_start(s, o) <= k < o ==> s[k] != '\n',
    decreases o,
{
    if o > 0 && s[o - 1] != '\n' {
        lemma_line_start_bounds(s, o - 1);
    }
}

proof fn lemma_line_end_bounds(s: Seq<char>, o: int)
    requires
        0 <= o <= s.len(),
    ensures
        o <= line_end(s, o) <= s.len(),
        line_end(s, o) < s.len() ==> s[line_end(s, o)] == '\n',
    decreases s.len() - o,
{
    if o < s.len() && s[o] != '\n' {
        lemma_line_end_bounds(s, o + 1);
    }
}

fn clamped(v: &Vec<char>, offset: usize) -> (r: usize)
    ensures
        r == clamp(offset as int, v.len() as int),
{
    if offset < v.len() {
        offset
    } else {
        v.len()
    }
}

fn find_line_start(v: &Vec<char>, o: usize) -> (r: usize)
    requires
        o <= v.len(),
    ensures
        r == line_start(v@, o as int),
{
    let mut i = o;
    while i > 0 && v[i - 1] != '\n'
        invariant
            i <= o <= v.len(),
            line_start(v@, i as int) == line_start(v@, o as int),
        decreases i,
    {
        i = i - 1;
    }
    i
}

pub(crate) fn find_line_end(v: &Vec<char>, o: usize) -> (r: usize)
    requires
        o <= v.len(),
    ensures
        r == line_end(v@, o as int),
{
    let mut i = o;
    while i < v.len() && v[i] != '\n'
        invariant
            o <= i <= v.len(),
            line_end(v@, i as int) == line_end(v@, o as int),
        decreases v.len() - i,
    {
        i = i + 1;
    }
    i
}

/// Inserts `c` at `offset`, clamped into the text, and returns the offset
/// just after it.
pub fn insert_char(content: &mut String, offset: usize, c: char) -> (r: usize)
    requires
        old(content)@.len() < usize::MAX,
    ensures
        (final(content)@, r as int) == insert_spec(old(content)@, offset as int, c),
{
    let mut v = chars_of(content.as_str());
    let at = clamped(&v, offset);
    v.insert(at, c);
    *content = string_of(&v);
    at + 1
}

/// Deletes the character before `offset`, clamped into the text, and
/// returns the offset where it stood; at offset 0 nothing changes.
pub fn delete_before(content: &mut String, offset: usize) -> (r: usize)
    ensures
        (final(content)@, r as int) == delete_before_spec(old(content)@, offset as int),
{
    let mut v = chars_of(content.as_str());
    let at = clamped(&v, offset);
    if at == 0 {
        0
    } else {
        v.remove(at - 1);
        *content = string_of(&v);
        at - 1
    }
}

/// The offset one character to the left.
pub fn move_left(content: &str, offset: usize) -> (r: usize)
    ensures
        r == left_spec(content@, offset as int),
{
    let v = chars_of(content);
    let at = clamped(&v, offset);
    if at == 0 {
        0
    } else {
        at - 1
    }
}

/// The offset one character to the right.
pub fn move_right(content: &str, offset: usize) -> (r: usize)
    ensures
        r == right_spec(content@, offset as int),
{
    let v = chars_of(content);
    let at = clamped(&v, offset);
    if at < v.len() {
        at + 1
    } else {
        at
    }
}

/// The offset one line up.
pub fn move_up(content: &str, offset: usize) -> (r: usize)
    ensures
        r == up_spec(content@, offset as int),
        r <= content@.len(),
{
    let v = chars_of(content);
    let at = clamped(&v, offset);
    let start = find_line_start(&v, at);
    proof {
        lemma_line_start_bounds(v@, at as int);
    }
    if start == 0 {
        at
    } else {
        let prev_start = find_line_start(&v, start - 1);
        proof {
            lemma_line_start_bounds(v@, start - 1);
        }
        let col = at - start;
        let prev_len = start - 1 - prev_start;
        if col <= prev_len {
            prev_start + col
        } else {
            prev_start + prev_len
        }
    }
}

/// The offset one line down.
pub fn move_down(content: &str, offset: usize) -> (r: usize)
    ensures
        r == down_spec(content@, offset as int),
        r <= content@.len(),
{
    let v = chars_of(content);
    let at = clamped(&v, offset);
    let end = find_line_end(&v, at);
    proof {
        lemma_line_end_bounds(v@, at as int);
        lemma_line_start_bounds(v@, at as int);
    }
    if end == v.len() {
        at
    } else {
        let next_start = end + 1;
        let next_end = find_line_end(&v, next_start);
        let start = find_line_start(&v, at);
        proof {
            lemma_line_end_bounds(v@, next_start as int);
        }
        let col = at - start;
        let next_len = next_end - next_start;
        if col <= next_len {
            next_start + col
        } else {
            next_start + next_len
        }
    }
}

/// The screen position of `offset`, clamped into the text: the column within
/// its line and the number of lines above it. Every character takes one
/// column.
pub fn cursor_xy(content: &str, offset: usize) -> (r: (usize, usize))
    ensures
        r.0 == clamp(offset as int, content@.len() as int) - line_start(
            content@,
            clamp(offset as int, content@.len() as int),
        ),
        r.1 == newline_count(content@.take(clamp(offset as int, content@.len() as int))),
{
    let v = chars_of(content);
    let at = clamped(&v, offset);
    let mut x: usize = 0;
    let mut y: usize = 0;
    let mut i: usize = 0;
    while i < at
        invariant
            i <= at <= v.len(),
            x == i - line_start(v@, i as int),
            y == newline_count(v@.take(i as int)),
            y <= i,
        decreases at - i,
    {
        proof {
            assert(v@.take(i + 1).drop_last() == v@.take(i as int));
            lemma_line_start_bounds(v@, i as int);
        }
        if v[i] == '\n' {
            x = 0;
            y = y + 1;
        } else {
            x = x + 1;
        }
        i = i + 1;
    }
    (x, y)
}

/// Inserting a character and then deleting the one before the new offset
/// gives back the text and the offset that were there before.
pub proof fn lemma_insert_then_delete(s: Seq<char>, o: int, c: char)
    requires
        0 <= o <= s.len(),
    ensures
        delete_before_spec(insert_spec(s, o, c).0, insert_spec(s, o, c).1) == (s, o),
{
    assert(s.insert(o, c).remove(o) =~= s);
}

} // verus!
