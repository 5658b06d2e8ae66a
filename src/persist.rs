//! The on-disk form of a note: a front-matter block between two `---` lines
//! that names the title and the tags, a blank line, then the body.
use vstd::prelude::*;
use vstd::string::*;
use crate::state::{strings_view, Note, Timestamp};
use crate::strutil::{
    alphanumeric, decimal_i64, decimal_text, is_alphanumeric, trim_spec, trim_start_spec,
    trim_start_str, trim_str,
};
use crate::text::{chars_of, find_line_end, line_end, string_of_range};

verus! {

/// The delimiter line that opens a front-matter block, with its newline.
pub open spec fn opening() -> Seq<char> {
    seq!['-', '-', '-', '\n']
}

pub open spec fn title_key() -> Seq<char> {
    seq!['t', 'i', 't', 'l', 'e', ':', ' ']
}

pub open spec fn tags_key() -> Seq<char> {
    seq!['t', 'a', 'g', 's', ':', '\n']
}

pub open spec fn item_mark() -> Seq<char> {
    seq![' ', ' ', '-', ' ']
}

/// The sequence items of a `tags:` block, one line per tag.
pub open spec fn tag_lines(tags: Seq<Seq<char>>) -> Seq<char>
    decreases tags.len(),
{
    if tags.len() == 0 {
        Seq::empty()
    } else {
        tag_lines(tags.drop_last()) + item_mark() + tags.last() + seq!['\n']
    }
}

/// The text between the two delimiter lines: the title, then the tags if
/// there are any.
pub open spec fn front_matter_text(title: Seq<char>, tags: Seq<Seq<char>>) -> Seq<char> {
    title_key() + title + seq!['\n'] + if tags.len() > 0 {
        tags_key() + tag_lines(tags)
    } else {
        Seq::empty()
    }
}

/// The whole file of a note.
pub open spec fn note_file_text(title: Seq<char>, tags: Seq<Seq<char>>, body: Seq<char>) -> Seq<
    char,
> {
    opening() + front_matter_text(title, tags) + opening() + seq!['\n'] + body
}

/// A closing delimiter line starts at `k`: a line of exactly three dashes
/// after the opening one.
pub open spec fn is_closing(s: Seq<char>, k: int) -> bool {
    &&& 4 <= k
    &&& k + 3 <= s.len()
    &&& s[k - 1] == '\n'
    &&& s[k] == '-'
    &&& s[k + 1] == '-'
    &&& s[k + 2] == '-'
    &&& (k + 3 == s.len() || s[k + 3] == '\n')
}

/// The first closing delimiter line at or after `k`.
pub open spec fn find_closing(s: Seq<char>, k: int) -> Option<int>
    decreases s.len() - k,
{
    if k < 4 || k + 3 > s.len() {
        None
    } else if is_closing(s, k) {
        Some(k)
    } else {
        find_closing(s, k + 1)
    }
}

/// One leading newline dropped, if there is one.
pub open spec fn without_blank_line(s: Seq<char>) -> Seq<char> {
    if s.len() > 0 && s[0] == '\n' {
        s.skip(1)
    } else {
        s
    }
}

/// The front-matter block and the body of a file, where the file opens
/// with a delimiter line and a closing one follows.
pub open spec fn split_spec(s: Seq<char>) -> Option<(Seq<char>, Seq<char>)> {
    if s.len() >= 4 && s.take(4) == opening() {
        match find_closing(s, 4) {
            Some(k) => Some(
                (
                    s.subrange(4, k),
                    without_blank_line(
                        if k + 3 == s.len() {
                            Seq::empty()
                        } else {
                            s.skip(k + 4)
                        },
                    ),
                ),
            ),
            None => None,
        }
    } else {
        None
    }
}

/// What serde_yaml reads from a front-matter block: `None` where the text
/// is not YAML; else the `title` entry where it is a string, and the items
/// of the `tags` entry where it is a sequence, each where it is a string.
pub uninterp spec fn yaml_fields(text: Seq<char>) -> Option<
    (Option<Seq<char>>, Option<Seq<Option<Seq<char>>>>),
>;

/// The entries of a front-matter block that a note reads.
pub struct YamlFields {
    pub title: Option<String>,
    pub tags: Option<Vec<Option<String>>>,
}

pub open spec fn opt_string_view(o: Option<String>) -> Option<Seq<char>> {
    match o {
        Some(s) => Some(s@),
        None => None,
    }
}

impl View for YamlFields {
    type V = (Option<Seq<char>>, Option<Seq<Option<Seq<char>>>>);

    open spec fn view(&self) -> Self::V {
        (
            opt_string_view(self.title),
            match self.tags {
                Some(items) => Some(items@.map_values(|o: Option<String>| opt_string_view(o))),
                None => None,
            },
        )
    }
}

/// Relies on `serde_yaml::from_str` into a `serde_yaml::Value` to read a
/// front-matter block, and on `Value::get`, `Value::as_str` and
/// `Value::as_sequence` to hand out its `title` and `tags` entries.
#[verifier::external_body]
fn read_yaml_fields(text: &str) -> (r: Option<YamlFields>)
    ensures
        r is None <==> yaml_fields(text@) is None,
        r matches Some(f) ==> yaml_fields(text@) == Some(f@),
{
    match serde_yaml::from_str::<serde_yaml::Value>(text) {
        Ok(v) => Some(YamlFields {
            title: v.get("title").and_then(|t| t.as_str()).map(|t| t.to_string()),
            tags: v.get("tags").and_then(|t| t.as_sequence()).map(
                |items| items.iter().map(|i| i.as_str().map(|t| t.to_string())).collect(),
            ),
        }),
        Err(_) => None,
    }
}

/// The tags that a `tags` entry gives: its string items, in order.
pub open spec fn string_items(items: Seq<Option<Seq<char>>>) -> Seq<Seq<char>>
    decreases items.len(),
{
    if items.len() == 0 {
        Seq::empty()
    } else {
        string_items(items.drop_last()) + match items.last() {
            Some(t) => seq![t],
            None => Seq::empty(),
        }
    }
}

/// The tags and the title that front-matter entries give; a missing title
/// reads as empty, a missing tag list as no tags.
pub open spec fn fields_spec(f: (Option<Seq<char>>, Option<Seq<Option<Seq<char>>>>)) -> (
    Seq<Seq<char>>,
    Seq<char>,
) {
    (
        match f.1 {
            Some(items) => string_items(items),
            None => Seq::empty(),
        },
        match f.0 {
            Some(t) => t,
            None => Seq::empty(),
        },
    )
}

/// What a note file holds: its tags, its front-matter title (empty where
/// there is none) and its body. A file without a well-formed front-matter
/// block is all body.
pub open spec fn reading_spec(s: Seq<char>) -> (Seq<Seq<char>>, Seq<char>, Seq<char>) {
    match split_spec(s) {
        Some((fm, body)) => match yaml_fields(fm) {
            Some(f) => (fields_spec(f).0, fields_spec(f).1, body),
            None => (Seq::empty(), Seq::empty(), s),
        },
        None => (Seq::empty(), Seq::empty(), s),
    }
}

/// The front-matter block and the body of `content`, where it has a
/// front-matter block.
pub fn split_front_matter(content: &str) -> (r: Option<(String, String)>)
    ensures
        r is None <==> split_spec(content@) is None,
        r matches Some((fm, body)) ==> split_spec(content@) == Some((fm@, body@)),
{
    let v = chars_of(content);
    let n = v.len();
    if n < 4 || v[0] != '-' || v[1] != '-' || v[2] != '-' || v[3] != '\n' {
        proof {
            if n >= 4 {
                assert(v@.take(4)[0] == v@[0]);
                assert(v@.take(4)[1] == v@[1]);
                assert(v@.take(4)[2] == v@[2]);
                assert(v@.take(4)[3] == v@[3]);
            }
        }
        return None;
    }
    proof {
        assert(v@.take(4) =~= opening());
    }
    let mut k: usize = 4;
    while n - k >= 3
        invariant
            4 <= k <= n,
            n == v@.len(),
            v@ == content@,
            v@.take(4) == opening(),
            find_closing(v@, k as int) == find_closing(v@, 4),
        decreases n - k,
    {
        if v[k - 1] == '\n' && v[k] == '-' && v[k + 1] == '-' && v[k + 2] == '-' && (k + 3 == n
            || v[k + 3] == '\n') {
            proof {
                assert(is_closing(v@, k as int));
                assert(find_closing(v@, k as int) == Some(k as int));
            }
            let fm = string_of_range(&v, 4, k);
            let rest_start = if k + 3 == n {
                n
            } else {
                k + 4
            };
            let body_start = if rest_start < n && v[rest_start] == '\n' {
                rest_start + 1
            } else {
                rest_start
            };
            let body = string_of_range(&v, body_start, n);
            proof {
                let rest = if k + 3 == n {
                    Seq::<char>::empty()
                } else {
                    v@.skip(k + 4)
                };
                assert(rest =~= v@.subrange(rest_start as int, n as int));
                assert(without_blank_line(rest) =~= v@.subrange(body_start as int, n as int));
            }
            return Some((fm, body));
        }
        proof {
            assert(!is_closing(v@, k as int));
        }
        k = k + 1;
    }
    proof {
        assert(find_closing(v@, k as int) is None);
    }
    None
}

/// The tags and the title that front-matter entries give.
pub fn fields_of(f: &YamlFields) -> (r: (Vec<String>, String))
    ensures
        (strings_view(r.0@), r.1@) == fields_spec(f@),
{
    let mut tags: Vec<String> = Vec::new();
    match &f.tags {
        Some(items) => {
            let mut i: usize = 0;
            while i < items.len()
                invariant
                    i <= items.len(),
                    strings_view(tags@) == string_items(
                        items@.map_values(|o: Option<String>| opt_string_view(o)).take(i as int),
                    ),
                decreases items.len() - i,
            {
                let ghost views = items@.map_values(|o: Option<String>| opt_string_view(o));
                proof {
                    assert(views.take(i + 1).drop_last() =~= views.take(i as int));
                }
                match &items[i] {
                    Some(t) => {
                        tags.push(t.clone());
                        proof {
                            assert(strings_view(tags@) =~= strings_view(tags@.drop_last()).push(
                                t@,
                            ));
                        }
                    },
                    None => {},
                }
                i = i + 1;
            }
            proof {
                let views = items@.map_values(|o: Option<String>| opt_string_view(o));
                assert(views.take(items.len() as int) =~= views);
            }
        },
        None => {
            proof {
                assert(strings_view(tags@) =~= Seq::<Seq<char>>::empty());
            }
        },
    }
    let title = match &f.title {
        Some(t) => t.clone(),
        None => String::new(),
    };
    (tags, title)
}

/// The file of a note with this title, these tags and this body.
pub fn note_file(title: &str, tags: &Vec<String>, body: &str) -> (r: String)
    ensures
        r@ == note_file_text(title@, strings_view(tags@), body@),
{
    proof {
        reveal_strlit("---\n");
        reveal_strlit("title: ");
        reveal_strlit("\n");
        reveal_strlit("tags:\n");
        reveal_strlit("  - ");
    }
    let ghost tv = strings_view(tags@);
    let mut out = String::new();
    out.append("---\n");
    out.append("title: ");
    out.append(title);
    out.append("\n");
    let ghost head = out@;
    if tags.len() > 0 {
        out.append("tags:\n");
        let mut i: usize = 0;
        while i < tags.len()
            invariant
                i <= tags.len(),
                tv == strings_view(tags@),
                out@ == head + tags_key() + tag_lines(tv.take(i as int)),
            decreases tags.len() - i,
        {
            let ghost before = out@;
            proof {
                reveal_strlit("  - ");
                reveal_strlit("\n");
            }
            out.append("  - ");
            out.append(tags[i].as_str());
            out.append("\n");
            proof {
                assert(tv.take(i + 1).drop_last() =~= tv.take(i as int));
                assert(tv[i as int] == tags@[i as int]@);
                assert(tag_lines(tv.take(i + 1)) == tag_lines(tv.take(i as int)) + item_mark()
                    + tags@[i as int]@ + seq!['\n']);
                assert(out@ =~= before + item_mark() + tags@[i as int]@ + seq!['\n']);
                assert(out@ =~= head + tags_key() + tag_lines(tv.take(i + 1)));
            }
            i = i + 1;
        }
        proof {
            assert(tv.take(tags.len() as int) =~= tv);
        }
    }
    out.append("---\n");
    out.append("\n");
    out.append(body);
    proof {
        assert(out@ =~= note_file_text(title@, tv, body@));
    }
    out
}

/// No newline in `s`.
pub open spec fn one_line(s: Seq<char>) -> bool {
    forall|i: int| 0 <= i < s.len() ==> s[i] != '\n'
}

/// Whole lines, none of which starts with a dash.
#[verifier::opaque]
spec fn dashless_lines(x: Seq<char>) -> bool {
    &&& x.len() > 0
    &&& x[0] != '-'
    &&& x.last() == '\n'
    &&& forall|j: int| 1 <= j < x.len() && x[j - 1] == '\n' ==> #[trigger] x[j] != '-'
}

proof fn lemma_dashless_concat(a: Seq<char>, b: Seq<char>)
    requires
        dashless_lines(a),
        dashless_lines(b),
    ensures
        dashless_lines(a + b),
{
    reveal(dashless_lines);
    let x = a + b;
    assert forall|j: int| 1 <= j < x.len() && x[j - 1] == '\n' implies #[trigger] x[j] != '-' by {
        if j < a.len() {
            assert(x[j - 1] == a[j - 1] && x[j] == a[j]);
        } else if j == a.len() {
            assert(x[j] == b[0]);
        } else {
            assert(x[j - 1] == b[j - 1 - a.len()] && x[j] == b[j - a.len()]);
        }
    }
}

proof fn lemma_line_dashless(p: Seq<char>, t: Seq<char>)
    requires
        p.len() > 0,
        p[0] != '-',
        one_line(p),
        one_line(t),
    ensures
        dashless_lines(p + t + seq!['\n']),
{
    reveal(dashless_lines);
    let x = p + t + seq!['\n'];
    assert forall|j: int| 1 <= j < x.len() && x[j - 1] == '\n' implies #[trigger] x[j] != '-' by {
        if j - 1 < p.len() {
            assert(x[j - 1] == p[j - 1]);
        } else {
            assert(x[j - 1] == t[j - 1 - p.len()]);
        }
    }
}

proof fn lemma_tag_lines_dashless(tags: Seq<Seq<char>>)
    requires
        tags.len() > 0,
        forall|i: int| 0 <= i < tags.len() ==> one_line(#[trigger] tags[i]),
    ensures
        dashless_lines(tag_lines(tags)),
    decreases tags.len(),
{
    assert(one_line(tags[tags.len() - 1]));
    lemma_line_dashless(item_mark(), tags.last());
    assert(tag_lines(tags) == tag_lines(tags.drop_last()) + item_mark() + tags.last() + seq![
        '\n',
    ]);
    if tags.len() == 1 {
        assert(tags.drop_last().len() == 0);
        assert(tag_lines(tags) =~= item_mark() + tags.last() + seq!['\n']);
    } else {
        let rest = tags.drop_last();
        assert forall|i: int| 0 <= i < rest.len() implies one_line(#[trigger] rest[i]) by {
            assert(rest[i] == tags[i]);
        }
        lemma_tag_lines_dashless(rest);
        lemma_dashless_concat(tag_lines(rest), item_mark() + tags.last() + seq!['\n']);
        assert(tag_lines(rest) + (item_mark() + tags.last() + seq!['\n']) =~= tag_lines(tags));
    }
}

proof fn lemma_find_closing_at(s: Seq<char>, k: int, k0: int)
    requires
        4 <= k <= k0,
        is_closing(s, k0),
        forall|j: int| k <= j < k0 ==> !is_closing(s, j),
    ensures
        find_closing(s, k) == Some(k0),
    decreases k0 - k,
{
    if k < k0 {
        lemma_find_closing_at(s, k + 1, k0);
    }
}

/// The file written for a note splits back into the front-matter block
/// that was written and the body, byte for byte, where the title and the
/// tags hold no newline.
proof fn lemma_front_matter_dashless(title: Seq<char>, tags: Seq<Seq<char>>)
    requires
        one_line(title),
        forall|i: int| 0 <= i < tags.len() ==> one_line(#[trigger] tags[i]),
    ensures
        dashless_lines(front_matter_text(title, tags)),
{
    let fm = front_matter_text(title, tags);
    assert(one_line(title_key()));
    lemma_line_dashless(title_key(), title);
    if tags.len() > 0 {
        lemma_tag_lines_dashless(tags);
        let key = seq!['t', 'a', 'g', 's', ':'];
        assert(one_line(key));
        assert(one_line(Seq::<char>::empty()));
        lemma_line_dashless(key, Seq::empty());
        assert(key + Seq::<char>::empty() + seq!['\n'] =~= tags_key());
        lemma_dashless_concat(tags_key(), tag_lines(tags));
        lemma_dashless_concat(title_key() + title + seq!['\n'], tags_key() + tag_lines(tags));
        assert(fm =~= (title_key() + title + seq!['\n']) + (tags_key() + tag_lines(tags)));
    } else {
        assert(fm =~= title_key() + title + seq!['\n']);
    }
}

proof fn lemma_split_around(fm: Seq<char>, body: Seq<char>)
    requires
        dashless_lines(fm),
    ensures
        split_spec(opening() + fm + opening() + seq!['\n'] + body) == Some((fm, body)),
{
    reveal(dashless_lines);
    let tail = opening() + seq!['\n'] + body;
    let s = opening() + fm + tail;
    assert(s =~= opening() + fm + opening() + seq!['\n'] + body);
    let k0: int = 4 + fm.len() as int;
    assert(s.take(4) =~= opening());
    assert forall|j: int| 4 <= j < k0 implies !is_closing(s, j) by {
        assert(s[j] == fm[j - 4]);
        if j > 4 {
            assert(s[j - 1] == fm[j - 5]);
        }
    }
    assert(s[k0 - 1] == fm[fm.len() - 1]);
    assert(s[k0] == tail[0] && s[k0 + 1] == tail[1] && s[k0 + 2] == tail[2] && s[k0 + 3]
        == tail[3]);
    assert(is_closing(s, k0));
    lemma_find_closing_at(s, 4, k0);
    assert(s.subrange(4, k0) =~= fm);
    assert(s.skip(k0 + 4) =~= seq!['\n'] + body);
    assert(without_blank_line(seq!['\n'] + body) =~= body);
}

/// The file written for a note splits back into the front-matter block
/// that was written and the body, byte for byte, where the title and the
/// tags hold no newline.
pub proof fn lemma_note_file_splits(title: Seq<char>, tags: Seq<Seq<char>>, body: Seq<char>)
    requires
        one_line(title),
        forall|i: int| 0 <= i < tags.len() ==> one_line(#[trigger] tags[i]),
    ensures
        split_spec(note_file_text(title, tags, body)) == Some(
            (front_matter_text(title, tags), body),
        ),
{
    lemma_front_matter_dashless(title, tags);
    lemma_split_around(front_matter_text(title, tags), body);
}

/// Reading the file written for a note gives back its body, byte for byte,
/// and the tags and title that YAML reads from the front-matter block that
/// was written, where the title and the tags hold no newline and that block
/// is YAML.
pub proof fn lemma_note_file_reads_back(title: Seq<char>, tags: Seq<Seq<char>>, body: Seq<char>)
    requires
        one_line(title),
        forall|i: int| 0 <= i < tags.len() ==> one_line(#[trigger] tags[i]),
        yaml_fields(front_matter_text(title, tags)) is Some,
    ensures
        reading_spec(note_file_text(title, tags, body)) == ({
            let f = yaml_fields(front_matter_text(title, tags))->0;
            (fields_spec(f).0, fields_spec(f).1, body)
        }),
{
    lemma_note_file_splits(title, tags, body);
}

pub open spec fn untitled() -> Seq<char> {
    seq!['U', 'n', 't', 'i', 't', 'l', 'e', 'd']
}

/// `s` opens with a level-one Markdown header mark.
pub open spec fn starts_h1(s: Seq<char>) -> bool {
    s.len() >= 2 && s[0] == '#' && s[1] == ' '
}

/// The title that a level-one header on the first line gives, and the body
/// after that line with its leading whitespace trimmed; without such a
/// header, `Untitled` and the whole body.
pub open spec fn h1_title_spec(body: Seq<char>) -> (Seq<char>, Seq<char>) {
    let e = line_end(body, 0);
    if e < body.len() {
        if starts_h1(body.take(e)) {
            (trim_spec(body.take(e).skip(2)), trim_start_spec(body.skip(e)))
        } else {
            (untitled(), body)
        }
    } else if starts_h1(body) {
        (trim_spec(body.skip(2)), Seq::empty())
    } else {
        (untitled(), body)
    }
}

/// A file name made of a title: letters, digits and spaces kept, each space
/// written as an underscore, anything else left out.
pub open spec fn safe_title(t: Seq<char>) -> Seq<char>
    decreases t.len(),
{
    if t.len() == 0 {
        Seq::empty()
    } else {
        let c = t.last();
        safe_title(t.drop_last()) + if c == ' ' {
            seq!['_']
        } else if alphanumeric(c) {
            seq![c]
        } else {
            Seq::empty()
        }
    }
}

/// The file name of a note created with `title` at `secs` seconds past the
/// Unix epoch.
pub open spec fn note_file_name(title: Seq<char>, secs: int) -> Seq<char> {
    safe_title(title) + seq!['_'] + decimal_text(secs) + seq!['.', 'm', 'd']
}

/// `name` in the directory `dir`.
pub open spec fn joined(dir: Seq<char>, name: Seq<char>) -> Seq<char> {
    if dir.len() == 0 || dir.last() == '/' {
        dir + name
    } else {
        dir + seq!['/'] + name
    }
}

/// Where notes and tasks are stored: a directory of note files and one
/// file for the task list.
pub struct DataHandler {
    pub notes_dir: String,
    pub tasks_file: String,
}

impl DataHandler {
    /// A handler over the given notes directory and task file.
    pub fn from_paths(notes_dir: String, tasks_file: String) -> (r: Self)
        ensures
            r.notes_dir == notes_dir,
            r.tasks_file == tasks_file,
    {
        DataHandler { notes_dir, tasks_file }
    }

    /// The tags, the front-matter title (empty where there is none) and the
    /// body of a note file. A file that does not open with a front-matter
    /// block, or whose block is not YAML, is all body.
    pub fn parse_front_matter(&self, content: &str) -> (r: (Vec<String>, String, String))
        ensures
            (strings_view(r.0@), r.1@, r.2@) == reading_spec(content@),
    {
        match split_front_matter(content) {
            Some((fm, body)) => match read_yaml_fields(fm.as_str()) {
                Some(fields) => {
                    let (tags, title) = fields_of(&fields);
                    (tags, title, body)
                },
                None => {
                    let tags: Vec<String> = Vec::new();
                    proof {
                        assert(strings_view(tags@) =~= Seq::<Seq<char>>::empty());
                    }
                    (tags, String::new(), String::from_str(content))
                },
            },
            None => {
                let tags: Vec<String> = Vec::new();
                proof {
                    assert(strings_view(tags@) =~= Seq::<Seq<char>>::empty());
                }
                (tags, String::new(), String::from_str(content))
            },
        }
    }

    /// The note stored at `path` with this content: the front-matter title
    /// where it is not empty, else the file's name without its extension
    /// (`Untitled` where there is none).
    pub fn parse_note(
        &self,
        path: String,
        file_stem: Option<String>,
        content: &str,
        created_at: Timestamp,
        updated_at: Timestamp,
    ) -> (r: Note)
        ensures
            r.path == path,
            strings_view(r.tags@) == reading_spec(content@).0,
            r.content@ == reading_spec(content@).2,
            r.title@ == (if reading_spec(content@).1.len() > 0 {
                reading_spec(content@).1
            } else {
                match file_stem {
                    Some(stem) => stem@,
                    None => untitled(),
                }
            }),
            r.created_at == created_at,
            r.updated_at == updated_at,
    {
        let (tags, parsed_title, body) = self.parse_front_matter(content);
        let title = if parsed_title.as_str().unicode_len() > 0 {
            parsed_title
        } else {
            match file_stem {
                Some(stem) => stem,
                None => {
                    proof {
                        reveal_strlit("Untitled");
                    }
                    String::from_str("Untitled")
                },
            }
        };
        Note { path, title, content: body, tags, created_at, updated_at }
    }

    /// The file text that stores `note`.
    pub fn render_note(&self, note: &Note) -> (r: String)
        ensures
            r@ == note_file_text(note.title@, strings_view(note.tags@), note.content@),
    {
        note_file(note.title.as_str(), &note.tags, note.content.as_str())
    }

    /// The title that a level-one header on the body's first line gives, and
    /// the rest of the body.
    pub fn extract_title_from_body<'a>(&self, body: &'a str) -> (r: (String, &'a str))
        ensures
            (r.0@, r.1@) == h1_title_spec(body@),
    {
        proof {
            reveal_strlit("Untitled");
        }
        let v = chars_of(body);
        let n = v.len();
        let e = find_line_end(&v, 0);
        if e < n {
            if e >= 2 && v[0] == '#' && v[1] == ' ' {
                let first = body.substring_char(2, e);
                let rest = body.substring_char(e, n);
                proof {
                    assert(body@.take(e as int).skip(2) =~= body@.subrange(2, e as int));
                    assert(body@.skip(e as int) =~= body@.subrange(e as int, n as int));
                }
                let title = String::from_str(trim_str(first));
                return (title, trim_start_str(rest));
            }
        } else if n >= 2 && v[0] == '#' && v[1] == ' ' {
            let title = String::from_str(trim_str(body.substring_char(2, n)));
            proof {
                assert(body@.skip(2) =~= body@.subrange(2, n as int));
            }
            return (title, body.substring_char(n, n));
        }
        (String::from_str("Untitled"), body)
    }

    /// The path of a new note file for `title`, created at `secs` seconds
    /// past the Unix epoch.
    pub fn new_note_path(&self, title: &str, secs: i64) -> (r: String)
        ensures
            r@ == joined(self.notes_dir@, note_file_name(title@, secs as int)),
    {
        proof {
            reveal_strlit("_");
            reveal_strlit(".md");
            reveal_strlit("/");
        }
        let v = chars_of(title);
        let mut name = String::new();
        let mut i: usize = 0;
        while i < v.len()
            invariant
                i <= v.len(),
                name@ == safe_title(v@.take(i as int)),
            decreases v.len() - i,
        {
            let c = v[i];
            proof {
                assert(v@.take(i + 1).drop_last() =~= v@.take(i as int));
            }
            if c == ' ' {
                name.push('_');
            } else if is_alphanumeric(c) {
                name.push(c);
            }
            proof {
                assert(name@ =~= safe_title(v@.take(i + 1)));
            }
            i = i + 1;
        }
        proof {
            assert(v@.take(v.len() as int) =~= v@);
        }
        name.append("_");
        name.append(decimal_i64(secs).as_str());
        name.append(".md");
        let dir = chars_of(self.notes_dir.as_str());
        let mut path = self.notes_dir.clone();
        if dir.len() > 0 && dir[dir.len() - 1] != '/' {
            path.append("/");
        }
        path.append(name.as_str());
        path
    }
}

} // verus!
