use ratanotes::keys::Message;
use ratanotes::machine::{AfterSave, App, Effect};
use ratanotes::persist::DataHandler;
use ratanotes::state::{Mode, Note, Priority, Task, Timestamp, View};

fn at(secs: i64) -> Timestamp {
    Timestamp { secs, nanos: 0 }
}

fn note(title: &str, tags: &[&str], body: &str) -> Note {
    Note {
        path: format!("/notes/{}.md", title),
        title: String::from(title),
        content: String::from(body),
        tags: tags.iter().map(|t| String::from(*t)).collect(),
        created_at: at(1),
        updated_at: at(1),
    }
}

fn task(id: u64, description: &str) -> Task {
    Task {
        id,
        description: String::from(description),
        project: None,
        priority: Priority::Low,
        due_date: None,
        completed: false,
        created_at: at(1),
        sub_tasks: vec![],
    }
}

fn app_with(notes: Vec<Note>, tasks: Vec<Task>) -> App {
    let h = DataHandler::from_paths(String::from("/notes"), String::from("/tasks.json"));
    App::from_loaded(h, Ok(notes), Ok(tasks))
}

fn send(app: &mut App, msgs: &[Message]) -> Effect {
    let mut last = Effect::Nothing;
    for m in msgs {
        last = app.apply(*m, at(1_700_000_000));
    }
    last
}

fn type_command(app: &mut App, cmd: &str) -> Effect {
    send(app, &[Message::EnterCommandMode]);
    for c in cmd.chars() {
        send(app, &[Message::Char(c)]);
    }
    send(app, &[Message::ExecuteCommand])
}

#[test]
fn wq_with_failed_save_keeps_running() {
    let mut app = app_with(vec![note("a", &[], "x")], vec![]);
    app.state.dirty = true;
    let effect = type_command(&mut app, "wq");
    assert_eq!(effect, Effect::SaveNotes(AfterSave::CommandThenQuit));
    app.notes_saved(AfterSave::CommandThenQuit, Err(String::from("disk full")));
    assert!(app.state.running);
    assert_eq!(app.state.mode, Mode::Normal);
    assert!(app.state.status_message.starts_with("Error"));
    assert_eq!(app.state.status_message, "Error saving notes: disk full");
    assert!(app.state.dirty);
}

#[test]
fn wq_with_successful_save_quits() {
    let mut app = app_with(vec![note("a", &[], "x")], vec![]);
    app.state.dirty = true;
    let effect = type_command(&mut app, "wq");
    assert_eq!(effect, Effect::SaveNotes(AfterSave::CommandThenQuit));
    app.notes_saved(AfterSave::CommandThenQuit, Ok(()));
    assert!(!app.state.running);
    assert!(!app.state.dirty);
}

#[test]
fn unknown_command_is_reported() {
    let mut app = app_with(vec![], vec![]);
    assert_eq!(type_command(&mut app, "zz"), Effect::Nothing);
    assert_eq!(app.state.status_message, "Not a command: zz");
    assert_eq!(app.state.mode, Mode::Normal);
    assert!(app.state.running);
}

#[test]
fn write_without_changes_writes_nothing() {
    let mut app = app_with(vec![], vec![]);
    assert_eq!(type_command(&mut app, "w"), Effect::Nothing);
    assert_eq!(app.state.status_message, "");
    assert_eq!(send(&mut app, &[Message::Save]), Effect::Nothing);
    assert_eq!(app.state.status_message, "No changes to save.");
}

#[test]
fn quit_when_dirty_asks_first() {
    let mut app = app_with(vec![], vec![]);
    app.state.dirty = true;
    send(&mut app, &[Message::Quit]);
    assert_eq!(app.state.mode, Mode::ConfirmQuit);
    assert!(app.state.running);
    send(&mut app, &[Message::ForceQuit]);
    assert!(!app.state.running);
}

#[test]
fn quit_when_clean_stops() {
    let mut app = app_with(vec![], vec![]);
    send(&mut app, &[Message::Quit]);
    assert!(!app.state.running);
}

#[test]
fn editing_marks_dirty_on_leaving_insert_mode() {
    let mut app = app_with(vec![note("a", &[], "ab\ncd")], vec![]);
    send(&mut app, &[Message::OpenNote, Message::EnterInsertMode]);
    assert_eq!(app.state.mode, Mode::Insert);
    assert_eq!(app.state.cursor_offset, 5);
    send(&mut app, &[Message::Char('!'), Message::CursorUp, Message::Backspace]);
    assert_eq!(app.state.notes[0].content, "a\ncd!");
    assert_eq!(app.state.cursor_offset, 1);
    assert_eq!(app.cursor_position(), Some((1, 0)));
    assert!(!app.state.dirty);
    send(&mut app, &[Message::NewLine, Message::EnterNormalMode]);
    assert_eq!(app.state.notes[0].content, "a\n\ncd!");
    assert!(app.state.dirty);
    assert_eq!(app.state.mode, Mode::Normal);
}

#[test]
fn previous_task_wraps_to_end() {
    let mut app = app_with(vec![], vec![task(1, "a"), task(2, "b"), task(3, "c")]);
    app.state.selected_task = Some(0);
    send(&mut app, &[Message::PreviousTask]);
    assert_eq!(app.state.selected_task, Some(2));
}

#[test]
fn deleting_last_task_selects_new_last() {
    let mut app = app_with(vec![], vec![task(1, "a"), task(2, "b")]);
    app.state.current_view = View::Tasks;
    app.state.selected_task = Some(1);
    send(&mut app, &[Message::DeleteTask]);
    assert_eq!(app.state.mode, Mode::ConfirmDeletion);
    assert_eq!(app.state.status_message, "Delete 'b'? (y/n)");
    assert_eq!(send(&mut app, &[Message::ConfirmDelete]), Effect::SaveTasks);
    assert_eq!(app.state.tasks.len(), 1);
    assert_eq!(app.state.selected_task, Some(0));
    app.state.selected_task = Some(0);
    send(&mut app, &[Message::DeleteTask, Message::ConfirmDelete]);
    assert!(app.state.tasks.is_empty());
    assert_eq!(app.state.selected_task, None);
}

#[test]
fn deleting_middle_note_keeps_index() {
    let mut app = app_with(vec![note("a", &[], ""), note("b", &[], ""), note("c", &[], "")], vec![]);
    app.state.selected_note = Some(1);
    send(&mut app, &[Message::DeleteNote]);
    assert_eq!(send(&mut app, &[Message::ConfirmDelete]), Effect::DeleteNoteFile(1));
    app.note_deleted(Ok(()));
    assert_eq!(app.state.notes.len(), 2);
    assert_eq!(app.state.selected_note, Some(1));
    assert_eq!(app.state.notes[1].title, "c");
    assert!(app.state.dirty);
    assert_eq!(app.state.mode, Mode::Normal);
}

#[test]
fn failed_note_deletion_keeps_note() {
    let mut app = app_with(vec![note("a", &[], "")], vec![]);
    send(&mut app, &[Message::DeleteNote, Message::ConfirmDelete]);
    app.note_deleted(Err(String::from("denied")));
    assert_eq!(app.state.notes.len(), 1);
    assert_eq!(app.state.status_message, "Error deleting note: denied");
    assert_eq!(app.state.mode, Mode::Normal);
}

#[test]
fn new_note_from_title_input() {
    let mut app = app_with(vec![], vec![]);
    send(&mut app, &[Message::NewNote]);
    assert_eq!(app.state.mode, Mode::TitleInput);
    for c in "Hi there".chars() {
        send(&mut app, &[Message::Char(c)]);
    }
    assert_eq!(app.state.status_message, "New note title: Hi there");
    send(&mut app, &[Message::SetNoteTitle]);
    assert_eq!(app.state.notes.len(), 1);
    assert_eq!(app.state.notes[0].title, "Hi there");
    assert_eq!(app.state.notes[0].path, "/notes/Hi_there_1700000000.md");
    assert_eq!(app.state.selected_note, Some(0));
    assert_eq!(app.state.mode, Mode::Insert);
    assert_eq!(app.state.current_view, View::NoteEditor);
}

#[test]
fn empty_title_is_rejected() {
    let mut app = app_with(vec![], vec![]);
    send(&mut app, &[Message::NewNote, Message::SetNoteTitle]);
    assert!(app.state.notes.is_empty());
    assert_eq!(app.state.status_message, "Input cannot be empty");
    assert_eq!(app.state.mode, Mode::Normal);
}

#[test]
fn new_task_gets_next_free_id() {
    let mut app = app_with(vec![], vec![task(7, "a"), task(3, "b")]);
    app.state.current_view = View::Tasks;
    send(&mut app, &[Message::NewTask, Message::Char('x')]);
    assert_eq!(send(&mut app, &[Message::SetNoteTitle]), Effect::SaveTasks);
    assert_eq!(app.state.tasks.len(), 3);
    assert_eq!(app.state.tasks[2].id, 8);
    assert_eq!(app.state.tasks[2].description, "x");
    assert_eq!(app.state.tasks[2].priority, Priority::Medium);
    assert_eq!(app.state.selected_task, Some(2));
}

#[test]
fn tags_are_added_trimmed_and_once() {
    let mut app = app_with(vec![note("a", &["x"], "")], vec![]);
    send(&mut app, &[Message::EnterTagInput]);
    for c in "  y ".chars() {
        send(&mut app, &[Message::Char(c)]);
    }
    send(&mut app, &[Message::AddTag]);
    assert_eq!(app.state.notes[0].tags, vec![String::from("x"), String::from("y")]);
    assert!(app.state.dirty);
    send(&mut app, &[Message::EnterTagInput, Message::Char('x'), Message::AddTag]);
    assert_eq!(app.state.notes[0].tags.len(), 2);
}

#[test]
fn tag_list_is_sorted_and_unique() {
    let app = app_with(vec![note("a", &["rust", "b"], ""), note("c", &["b", "a"], "")], vec![]);
    assert_eq!(
        app.state.tags,
        vec![String::from("a"), String::from("b"), String::from("rust")]
    );
}

#[test]
fn select_tag_toggles_filter() {
    let mut app = app_with(vec![note("a", &["t"], "")], vec![]);
    send(&mut app, &[Message::NextTag, Message::SelectTag]);
    assert_eq!(app.state.active_tag, Some(String::from("t")));
    send(&mut app, &[Message::SelectTag]);
    assert_eq!(app.state.active_tag, None);
}

#[test]
fn search_is_case_insensitive() {
    let mut app = app_with(
        vec![note("Alpha", &[], "one"), note("beta", &["Work"], "two"), note("g", &[], "ALPHABET")],
        vec![],
    );
    send(&mut app, &[Message::EnterSearch]);
    assert_eq!(app.state.current_view, View::Search);
    for c in "alp".chars() {
        send(&mut app, &[Message::Char(c)]);
    }
    assert_eq!(app.state.search_results, vec![0, 2]);
    assert_eq!(app.state.status_message, "/alp");
    send(&mut app, &[Message::Backspace, Message::Backspace, Message::Backspace]);
    assert!(app.state.search_results.is_empty());
    for c in "work".chars() {
        send(&mut app, &[Message::Char(c)]);
    }
    assert_eq!(app.state.search_results, vec![1]);
    send(&mut app, &[Message::ExitSearch]);
    assert_eq!(app.state.current_view, View::NoteList);
    assert!(app.state.search_results.is_empty());
}

#[test]
fn help_remembers_one_view() {
    let mut app = app_with(vec![], vec![]);
    send(&mut app, &[Message::SwitchToCalendar, Message::ToggleHelp]);
    assert_eq!(app.state.current_view, View::Help);
    send(&mut app, &[Message::ToggleHelp]);
    assert_eq!(app.state.current_view, View::Calendar);
    send(&mut app, &[Message::ToggleHelp, Message::ToggleHelp]);
    assert_eq!(app.state.current_view, View::Calendar);
}

#[test]
fn months_wrap_across_years() {
    let mut app = app_with(vec![], vec![]);
    app.state.calendar_year = 2024;
    app.state.calendar_month = 1;
    send(&mut app, &[Message::PreviousMonth]);
    assert_eq!((app.state.calendar_year, app.state.calendar_month), (2023, 12));
    send(&mut app, &[Message::NextMonth, Message::NextMonth]);
    assert_eq!((app.state.calendar_year, app.state.calendar_month), (2024, 2));
}

#[test]
fn command_backspace_to_empty_returns_to_normal() {
    let mut app = app_with(vec![], vec![]);
    send(&mut app, &[Message::EnterCommandMode]);
    assert_eq!(app.state.status_message, ":");
    send(&mut app, &[Message::Backspace]);
    assert_eq!(app.state.mode, Mode::Normal);
}

#[test]
fn load_failure_keeps_sample_data() {
    let h = DataHandler::from_paths(String::from("/n"), String::from("/t"));
    let app = App::from_loaded(h, Err(String::from("gone")), Ok(vec![]));
    assert_eq!(app.state.notes.len(), 2);
    assert_eq!(app.state.status_message, "Error loading notes (gone). Using sample data.");
    let h2 = DataHandler::from_paths(String::from("/n"), String::from("/t"));
    let both = App::from_loaded(h2, Err(String::from("a")), Err(String::from("b")));
    assert_eq!(both.state.status_message, "Error loading notes (a), tasks (b). Using sample data.");
}

#[test]
fn task_save_failure_is_reported() {
    let mut app = app_with(vec![], vec![task(1, "a")]);
    app.state.current_view = View::Tasks;
    app.state.selected_task = Some(0);
    assert_eq!(send(&mut app, &[Message::ToggleTaskComplete]), Effect::SaveTasks);
    assert!(app.state.tasks[0].completed);
    app.tasks_saved(Err(String::from("ro")));
    assert_eq!(app.state.status_message, "Error auto-saving tasks: ro");
}
