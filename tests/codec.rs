use ratanotes::persist::{fields_of, note_file, split_front_matter, DataHandler, YamlFields};
use ratanotes::state::{Note, Timestamp};

fn handler() -> DataHandler {
    DataHandler::from_paths(String::from("/notes"), String::from("/tasks.json"))
}

fn at() -> Timestamp {
    Timestamp { secs: 1_700_000_000, nanos: 0 }
}

fn note(title: &str, tags: &[&str], body: &str) -> Note {
    Note {
        path: String::from("/notes/x.md"),
        title: String::from(title),
        content: String::from(body),
        tags: tags.iter().map(|t| String::from(*t)).collect(),
        created_at: at(),
        updated_at: at(),
    }
}

fn round_trip(n: &Note, stem: &str) -> Note {
    let h = handler();
    let text = h.render_note(n);
    h.parse_note(n.path.clone(), Some(String::from(stem)), &text, at(), at())
}

fn same_tag_set(a: &[String], b: &[String]) -> bool {
    a.iter().all(|t| b.contains(t)) && b.iter().all(|t| a.contains(t))
}

#[test]
fn saved_file_layout() {
    let text = note_file("Trip", &vec![String::from("a"), String::from("b")], "body\n");
    assert_eq!(text, "---\ntitle: Trip\ntags:\n  - a\n  - b\n---\n\nbody\n");
    let plain = note_file("Trip", &vec![], "x");
    assert_eq!(plain, "---\ntitle: Trip\n---\n\nx");
}

#[test]
fn round_trip_without_tags() {
    let n = note("Groceries", &[], "milk\neggs\n");
    let back = round_trip(&n, "other");
    assert_eq!(back.title, "Groceries");
    assert_eq!(back.content, "milk\neggs\n");
    assert!(back.tags.is_empty());
}

#[test]
fn round_trip_with_tags_only() {
    let h = handler();
    let loaded = h.parse_note(
        String::from("/notes/Stem.md"),
        Some(String::from("Stem")),
        "---\ntags:\n  - work\n  - idea\n---\n\nbody text",
        at(),
        at(),
    );
    assert_eq!(loaded.title, "Stem");
    assert_eq!(loaded.content, "body text");
    let back = round_trip(&loaded, "Stem");
    assert_eq!(back.title, loaded.title);
    assert_eq!(back.content, loaded.content);
    assert!(same_tag_set(&back.tags, &loaded.tags));
    assert_eq!(back.tags.len(), 2);
}

#[test]
fn round_trip_with_title_and_tags() {
    let n = note("Rust notes", &["rust", "lang"], "\n  leading blank line kept\n");
    let back = round_trip(&n, "stem");
    assert_eq!(back.title, "Rust notes");
    assert_eq!(back.content, "\n  leading blank line kept\n");
    assert!(same_tag_set(&back.tags, &n.tags));
}

#[test]
fn file_without_front_matter_is_all_body() {
    let h = handler();
    let (tags, title, body) = h.parse_front_matter("just text\n---\n");
    assert!(tags.is_empty());
    assert_eq!(title, "");
    assert_eq!(body, "just text\n---\n");
    let n = h.parse_note(String::from("/n/a.md"), Some(String::from("a")), "x", at(), at());
    assert_eq!(n.title, "a");
    let u = h.parse_note(String::from("/n/a.md"), None, "x", at(), at());
    assert_eq!(u.title, "Untitled");
}

#[test]
fn malformed_front_matter_is_all_body() {
    let h = handler();
    let text = "---\ntitle: [unclosed\n---\n\nbody";
    let (tags, title, body) = h.parse_front_matter(text);
    assert!(tags.is_empty());
    assert_eq!(title, "");
    assert_eq!(body, text);
}

#[test]
fn unclosed_front_matter_is_all_body() {
    assert!(split_front_matter("---\ntitle: x\nbody").is_none());
    assert!(split_front_matter("--- not a delimiter\n---\n").is_none());
}

#[test]
fn split_keeps_body_after_one_blank_line() {
    let (fm, body) = split_front_matter("---\ntitle: a\n---\n\n\nb").unwrap();
    assert_eq!(fm, "title: a\n");
    assert_eq!(body, "\nb");
    let (fm2, body2) = split_front_matter("---\n---").unwrap();
    assert_eq!(fm2, "");
    assert_eq!(body2, "");
}

#[test]
fn front_matter_fields_skip_non_string_tags() {
    let f = YamlFields {
        title: None,
        tags: Some(vec![Some(String::from("a")), None, Some(String::from("b"))]),
    };
    let (tags, title) = fields_of(&f);
    assert_eq!(tags, vec![String::from("a"), String::from("b")]);
    assert_eq!(title, "");
}

#[test]
fn non_string_tag_items_are_dropped_on_load() {
    let h = handler();
    let (tags, title, body) = h.parse_front_matter("---\ntitle: T\ntags:\n  - a\n  - [x]\n---\n\nB");
    assert_eq!(tags, vec![String::from("a")]);
    assert_eq!(title, "T");
    assert_eq!(body, "B");
}

#[test]
fn h1_title_extraction() {
    let h = handler();
    assert_eq!(h.extract_title_from_body("# Hello  \n\n  body"), (String::from("Hello"), "body"));
    assert_eq!(h.extract_title_from_body("# Only"), (String::from("Only"), ""));
    assert_eq!(h.extract_title_from_body("plain\ntext"), (String::from("Untitled"), "plain\ntext"));
    assert_eq!(h.extract_title_from_body("#nospace"), (String::from("Untitled"), "#nospace"));
}

#[test]
fn new_note_path_sanitizes_title() {
    let h = handler();
    assert_eq!(h.new_note_path("My Note!", 1_700_000_000), "/notes/My_Note_1700000000.md");
    let h2 = DataHandler::from_paths(String::from("/notes/"), String::from("t"));
    assert_eq!(h2.new_note_path("a-b c", -5), "/notes/ab_c_-5.md");
}
