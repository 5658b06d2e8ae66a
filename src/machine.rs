//! The reducer: the one place where the application state changes, one
//! message at a time. Work on files is handed out as an effect; the loop
//! performs it and reports the outcome back.
use vstd::prelude::*;
use vstd::view::View as _;
use crate::keys::{Focus, Message};
use crate::nav::{after_removal_spec, next_spec, previous_spec, valid_selection};
use crate::persist::{joined, note_file_name, DataHandler};
use crate::search::search_spec;
use crate::state::{
    notes_view, tasks_view, AppState, CalendarDate, Mode, Note, NoteModel, Priority, Task,
    TaskModel, Timestamp, View,
};
use crate::strutil::trim_spec;
use crate::tagset::tag_list_of;
use crate::nav::{after_removal, next, previous};
use crate::search::search;
use crate::strutil::trim_str;
use crate::tagset::collect_tags;
use crate::text::{
    cursor_xy, delete_before, delete_before_spec, down_spec, has_prefix, insert_char, insert_spec,
    left_spec, move_down, move_left, move_right, move_up, right_spec, up_spec,
};
use vstd::string::*;

verus! {

/// What the loop must do on files after a message, and report back.
#[derive(Clone, Copy, Debug, PartialEq, Eq, Structural)]
pub enum Effect {
    Nothing,
    /// Write every note; report with `notes_saved`.
    SaveNotes(AfterSave),
    /// Remove the file of the note at this index; report with `note_deleted`.
    DeleteNoteFile(usize),
    /// Write the task list; report with `tasks_saved`.
    SaveTasks,
}

/// What follows a save of the notes.
#[derive(Clone, Copy, Debug, PartialEq, Eq, Structural)]
pub enum AfterSave {
    /// Nothing: the save was asked for by itself.
    Report,
    /// The end of a `w` command.
    Command,
    /// The end of a `wq` command: quit if the save went through.
    CommandThenQuit,
}

/// The application state as values.
pub struct AppModel {
    pub notes: Seq<NoteModel>,
    pub tasks: Seq<TaskModel>,
    pub current_view: View,
    pub previous_view: Option<View>,
    pub search_query: Seq<char>,
    pub status_message: Seq<char>,
    pub running: bool,
    pub dirty: bool,
    pub calendar_year: i32,
    pub calendar_month: u32,
    pub mode: Mode,
    pub command_input: Seq<char>,
    pub search_results: Seq<usize>,
    pub selected_note: Option<usize>,
    pub tags: Seq<Seq<char>>,
    pub selected_tag: Option<usize>,
    pub selected_task: Option<usize>,
    pub active_tag: Option<Seq<char>>,
    pub cursor_offset: usize,
    pub focus: Focus,
    pub notes_dir: Seq<char>,
    pub tasks_file: Seq<char>,
}

/// The selections are valid for their lists and the calendar shows a month
/// from 1 to 12.
pub open spec fn wf(m: AppModel) -> bool {
    &&& valid_selection(m.notes.len(), m.selected_note)
    &&& valid_selection(m.tags.len(), m.selected_tag)
    &&& valid_selection(m.tasks.len(), m.selected_task)
    &&& 1 <= m.calendar_month <= 12
}

pub open spec fn sel(o: Option<usize>) -> int {
    match o {
        Some(i) => i as int,
        None => 0,
    }
}

/// A note is selected and exists.
pub open spec fn note_ok(m: AppModel) -> bool {
    m.selected_note matches Some(i) && i < m.notes.len()
}

/// A task is selected and exists.
pub open spec fn task_ok(m: AppModel) -> bool {
    m.selected_task matches Some(i) && i < m.tasks.len()
}

pub open spec fn pop_spec(s: Seq<char>) -> Seq<char> {
    if s.len() > 0 {
        s.drop_last()
    } else {
        s
    }
}

pub open spec fn starts_with(s: Seq<char>, p: Seq<char>) -> bool {
    p.len() <= s.len() && s.take(p.len() as int) == p
}

/// Leaving any mode for Normal: an edit in Insert mode marks the notes
/// dirty, and the status line and the input line are cleared.
pub open spec fn normal_spec(m: AppModel) -> AppModel {
    AppModel {
        dirty: if m.mode == Mode::Insert {
            true
        } else {
            m.dirty
        },
        mode: Mode::Normal,
        status_message: Seq::empty(),
        command_input: Seq::empty(),
        ..m
    }
}

/// Quitting: with unsaved changes, ask first; else stop.
pub open spec fn quit_spec(m: AppModel) -> AppModel {
    if m.dirty {
        AppModel {
            mode: Mode::ConfirmQuit,
            status_message: "You have unsaved changes. Quit without saving? (y/n)"@,
            ..m
        }
    } else {
        AppModel { running: false, ..m }
    }
}

/// The end of a command: back to Normal mode while running, keeping only an
/// error on the status line.
pub open spec fn finish_command_spec(m: AppModel) -> AppModel {
    if m.running {
        AppModel {
            mode: Mode::Normal,
            status_message: if starts_with(m.status_message, "Error"@) || starts_with(
                m.status_message,
                "Not a command"@,
            ) {
                m.status_message
            } else {
                Seq::empty()
            },
            ..m
        }
    } else {
        m
    }
}

/// What follows a save, or the absence of one.
pub open spec fn after_save_spec(m: AppModel, after: AfterSave) -> AppModel {
    match after {
        AfterSave::Report => m,
        AfterSave::Command => finish_command_spec(m),
        AfterSave::CommandThenQuit => finish_command_spec(
            if !m.dirty {
                quit_spec(m)
            } else {
                m
            },
        ),
    }
}

/// Asking to save: with changes, the notes are written first; without,
/// nothing is written.
pub open spec fn save_spec(m: AppModel, after: AfterSave) -> (AppModel, Effect) {
    if m.dirty {
        (m, Effect::SaveNotes(after))
    } else {
        (after_save_spec(AppModel { status_message: "No changes to save."@, ..m }, after), Effect::Nothing)
    }
}

/// The tag list rebuilt from the notes, with its selection kept valid.
pub open spec fn retag_spec(m: AppModel) -> AppModel {
    let tags = tag_list_of(m.notes);
    AppModel {
        tags: tags,
        selected_tag: match m.selected_tag {
            Some(i) => after_removal_spec(tags.len(), i as nat),
            None => None,
        },
        ..m
    }
}

/// A save of the notes has ended with `outcome` (an error's text).
pub open spec fn saved_spec(m: AppModel, after: AfterSave, outcome: Result<(), Seq<char>>) -> AppModel {
    after_save_spec(
        match outcome {
            Ok(_) => retag_spec(
                AppModel { status_message: "Notes saved successfully!"@, dirty: false, ..m },
            ),
            Err(e) => AppModel { status_message: "Error saving notes: "@ + e, ..m },
        },
        after,
    )
}

/// Executing the command line: its first character is the `:` that opened
/// it and stays; the rest is the command.
#[verifier::opaque]
pub open spec fn execute_spec(m: AppModel) -> (AppModel, Effect) {
    let input = m.command_input;
    let cmd = if input.len() > 0 {
        input.skip(1)
    } else {
        Seq::empty()
    };
    let m1 = AppModel {
        command_input: if input.len() > 0 {
            input.take(1)
        } else {
            input
        },
        ..m
    };
    if cmd == "w"@ || cmd == "write"@ {
        save_spec(m1, AfterSave::Command)
    } else if cmd == "q"@ || cmd == "quit"@ {
        (finish_command_spec(quit_spec(m1)), Effect::Nothing)
    } else if cmd == "wq"@ {
        save_spec(m1, AfterSave::CommandThenQuit)
    } else {
        (
            finish_command_spec(AppModel { status_message: "Not a command: "@ + cmd, ..m1 }),
            Effect::Nothing,
        )
    }
}

/// The selected note with a new body.
pub open spec fn with_content(m: AppModel, c: Seq<char>) -> AppModel {
    let i = sel(m.selected_note);
    AppModel { notes: m.notes.update(i, NoteModel { content: c, ..m.notes[i] }), ..m }
}

/// Typing `c` into the selected note at the caret.
pub open spec fn type_spec(m: AppModel, c: char) -> AppModel {
    let i = sel(m.selected_note);
    if note_ok(m) && m.notes[i].content.len() < usize::MAX {
        let (s, o) = insert_spec(m.notes[i].content, m.cursor_offset as int, c);
        AppModel { cursor_offset: o as usize, ..with_content(m, s) }
    } else {
        m
    }
}

/// Erasing the character before the caret in the selected note.
pub open spec fn erase_spec(m: AppModel) -> AppModel {
    let i = sel(m.selected_note);
    if note_ok(m) && m.cursor_offset > 0 {
        let (s, o) = delete_before_spec(m.notes[i].content, m.cursor_offset as int);
        AppModel { cursor_offset: o as usize, ..with_content(m, s) }
    } else {
        m
    }
}

/// The caret moved to `o` within the selected note, where one is selected.
pub open spec fn caret_spec(m: AppModel, o: int) -> AppModel {
    if note_ok(m) {
        AppModel { cursor_offset: o as usize, ..m }
    } else {
        m
    }
}

/// The prompt of the title line: a new note where none is selected, else a
/// rename.
pub open spec fn title_prompt(m: AppModel) -> Seq<char> {
    if m.selected_note is None {
        "New note title: "@
    } else {
        "Rename note to: "@
    }
}

/// A character typed in the current mode.
#[verifier::opaque]
pub open spec fn char_spec(m: AppModel, c: char) -> AppModel {
    match m.mode {
        Mode::Insert => type_spec(m, c),
        Mode::Command => AppModel {
            command_input: m.command_input.push(c),
            status_message: m.command_input.push(c),
            ..m
        },
        Mode::TitleInput => AppModel {
            command_input: m.command_input.push(c),
            status_message: title_prompt(m) + m.command_input.push(c),
            ..m
        },
        Mode::TagInput => AppModel {
            command_input: m.command_input.push(c),
            status_message: "Add Tag: "@ + m.command_input.push(c),
            ..m
        },
        Mode::Normal => if m.current_view == View::Search {
            AppModel {
                search_query: m.search_query.push(c),
                search_results: search_spec(m.search_query.push(c), m.notes),
                status_message: "/"@ + m.search_query.push(c),
                ..m
            }
        } else {
            m
        },
        _ => m,
    }
}

/// Backspace in the current mode.
#[verifier::opaque]
pub open spec fn backspace_spec(m: AppModel) -> AppModel {
    let input = pop_spec(m.command_input);
    match m.mode {
        Mode::Insert => erase_spec(m),
        Mode::Command => if input.len() == 0 {
            normal_spec(AppModel { command_input: input, ..m })
        } else {
            AppModel { command_input: input, status_message: input, ..m }
        },
        Mode::TitleInput => AppModel {
            command_input: input,
            status_message: title_prompt(m) + input,
            ..m
        },
        Mode::TagInput => AppModel {
            command_input: input,
            status_message: "Add Tag: "@ + input,
            ..m
        },
        Mode::Normal => if m.current_view == View::Search {
            AppModel {
                search_query: pop_spec(m.search_query),
                search_results: search_spec(pop_spec(m.search_query), m.notes),
                status_message: "/"@ + pop_spec(m.search_query),
                ..m
            }
        } else {
            m
        },
        _ => m,
    }
}

/// The largest task id, or 0 without tasks.
pub open spec fn max_id(tasks: Seq<TaskModel>) -> u64
    decreases tasks.len(),
{
    if tasks.len() == 0 {
        0
    } else {
        let rest = max_id(tasks.drop_last());
        if tasks.last().id > rest {
            tasks.last().id
        } else {
            rest
        }
    }
}

/// Committing the title line.
#[verifier::opaque]
pub open spec fn set_title_spec(m: AppModel, now: Timestamp) -> (AppModel, Effect) {
    let input = m.command_input;
    if input.len() == 0 {
        (
            AppModel { status_message: "Input cannot be empty"@, mode: Mode::Normal, ..m },
            Effect::Nothing,
        )
    } else if m.current_view == View::NoteList || m.current_view == View::NoteEditor {
        if note_ok(m) {
            let i = sel(m.selected_note);
            (
                normal_spec(
                    AppModel {
                        notes: m.notes.update(i, NoteModel { title: input, ..m.notes[i] }),
                        dirty: true,
                        ..m
                    },
                ),
                Effect::Nothing,
            )
        } else {
            let note = NoteModel {
                path: joined(m.notes_dir, note_file_name(input, now.secs as int)),
                title: input,
                content: Seq::empty(),
                tags: Seq::empty(),
                created_at: now,
                updated_at: now,
            };
            (
                AppModel {
                    notes: m.notes.push(note),
                    selected_note: Some(m.notes.len() as usize),
                    current_view: View::NoteEditor,
                    mode: Mode::Insert,
                    status_message: "-- INSERT --"@,
                    cursor_offset: 0,
                    ..m
                },
                Effect::Nothing,
            )
        }
    } else if m.current_view == View::Tasks && m.selected_task is None && max_id(m.tasks)
        < u64::MAX {
        let task = TaskModel {
            id: (max_id(m.tasks) + 1) as u64,
            description: input,
            project: None,
            priority: Priority::Medium,
            due_date: None,
            completed: false,
            created_at: now,
            sub_tasks: Seq::empty(),
        };
        (
            normal_spec(
                AppModel {
                    tasks: m.tasks.push(task),
                    selected_task: Some(m.tasks.len() as usize),
                    ..m
                },
            ),
            Effect::SaveTasks,
        )
    } else {
        (normal_spec(m), Effect::Nothing)
    }
}

/// Confirming a deletion: a note's file is removed first; a task goes at
/// once and the task list is written.
#[verifier::opaque]
pub open spec fn confirm_delete_spec(m: AppModel) -> (AppModel, Effect) {
    if m.current_view == View::NoteList && m.selected_note is Some {
        (m, Effect::DeleteNoteFile(m.selected_note->0))
    } else if m.current_view == View::Tasks && task_ok(m) {
        let i = sel(m.selected_task);
        (
            normal_spec(
                AppModel {
                    tasks: m.tasks.remove(i),
                    selected_task: after_removal_spec((m.tasks.len() - 1) as nat, i as nat),
                    ..m
                },
            ),
            Effect::SaveTasks,
        )
    } else {
        (normal_spec(m), Effect::Nothing)
    }
}

/// Adding the trimmed input line as a tag of the selected note, unless it is
/// empty or already there.
#[verifier::opaque]
pub open spec fn add_tag_spec(m: AppModel) -> AppModel {
    let t = trim_spec(m.command_input);
    let i = sel(m.selected_note);
    normal_spec(
        if t.len() > 0 && note_ok(m) && !m.notes[i].tags.contains(t) {
            AppModel {
                notes: m.notes.update(i, NoteModel { tags: m.notes[i].tags.push(t), ..m.notes[i] }),
                dirty: true,
                ..m
            }
        } else {
            m
        },
    )
}

/// Toggling the selected tag as the filter; the note selection goes back to
/// the first note.
#[verifier::opaque]
pub open spec fn select_tag_spec(m: AppModel) -> AppModel {
    match m.selected_tag {
        Some(i) => AppModel {
            active_tag: if m.active_tag == Some(m.tags[i as int]) {
                None
            } else {
                Some(m.tags[i as int])
            },
            selected_note: if m.notes.len() > 0 {
                Some(0usize)
            } else {
                None
            },
            ..m
        },
        None => m,
    }
}

/// The calendar one month back.
pub open spec fn previous_month_spec(m: AppModel) -> AppModel {
    if m.calendar_month == 1 {
        if m.calendar_year > i32::MIN {
            AppModel { calendar_month: 12, calendar_year: (m.calendar_year - 1) as i32, ..m }
        } else {
            m
        }
    } else {
        AppModel { calendar_month: (m.calendar_month - 1) as u32, ..m }
    }
}

/// The calendar one month on.
pub open spec fn next_month_spec(m: AppModel) -> AppModel {
    if m.calendar_month == 12 {
        if m.calendar_year < i32::MAX {
            AppModel { calendar_month: 1, calendar_year: (m.calendar_year + 1) as i32, ..m }
        } else {
            m
        }
    } else {
        AppModel { calendar_month: (m.calendar_month + 1) as u32, ..m }
    }
}

/// The content of the selected note, where there is one.
pub open spec fn content_of(m: AppModel) -> Seq<char> {
    m.notes[sel(m.selected_note)].content
}

/// The state after message `msg`, at time `now`, and the work on files that
/// it asks for.
pub open spec fn step(m: AppModel, msg: Message, now: Timestamp) -> (AppModel, Effect) {
    match msg {
        Message::Quit => (quit_spec(m), Effect::Nothing),
        Message::ForceQuit => (AppModel { running: false, ..m }, Effect::Nothing),
        Message::SwitchToNoteList => (AppModel { current_view: View::NoteList, ..m }, Effect::Nothing),
        Message::SwitchToCalendar => (AppModel { current_view: View::Calendar, ..m }, Effect::Nothing),
        Message::SwitchToTasks => (AppModel { current_view: View::Tasks, ..m }, Effect::Nothing),
        Message::PreviousMonth => (previous_month_spec(m), Effect::Nothing),
        Message::NextMonth => (next_month_spec(m), Effect::Nothing),
        Message::Save => save_spec(m, AfterSave::Report),
        Message::Char(c) => (char_spec(m, c), Effect::Nothing),
        Message::Backspace => (backspace_spec(m), Effect::Nothing),
        Message::EnterSearch => (
            AppModel {
                current_view: View::Search,
                search_query: Seq::empty(),
                status_message: "/"@,
                search_results: Seq::empty(),
                ..m
            },
            Effect::Nothing,
        ),
        Message::ExitSearch => (
            AppModel {
                current_view: View::NoteList,
                search_query: Seq::empty(),
                status_message: Seq::empty(),
                search_results: Seq::empty(),
                ..m
            },
            Effect::Nothing,
        ),
        Message::PreviousNote => (
            AppModel { selected_note: previous_spec(m.notes.len(), m.selected_note), ..m },
            Effect::Nothing,
        ),
        Message::NextNote => (
            AppModel { selected_note: next_spec(m.notes.len(), m.selected_note), ..m },
            Effect::Nothing,
        ),
        Message::OpenNote => (
            if m.selected_note is Some {
                AppModel {
                    cursor_offset: 0,
                    current_view: View::NoteEditor,
                    status_message: Seq::empty(),
                    ..m
                }
            } else {
                m
            },
            Effect::Nothing,
        ),
        Message::NewNote => (
            AppModel {
                selected_note: None,
                mode: Mode::TitleInput,
                command_input: Seq::empty(),
                status_message: "New note title: "@,
                ..m
            },
            Effect::Nothing,
        ),
        Message::NewTask => (
            AppModel {
                selected_task: None,
                mode: Mode::TitleInput,
                command_input: Seq::empty(),
                status_message: "New Task: "@,
                ..m
            },
            Effect::Nothing,
        ),
        Message::RenameNote => (
            if note_ok(m) {
                let title = m.notes[sel(m.selected_note)].title;
                AppModel {
                    mode: Mode::TitleInput,
                    command_input: title,
                    status_message: "Rename note to: "@ + title,
                    ..m
                }
            } else {
                m
            },
            Effect::Nothing,
        ),
        Message::SetNoteTitle => set_title_spec(m, now),
        Message::DeleteNote => (
            if note_ok(m) {
                AppModel {
                    mode: Mode::ConfirmDeletion,
                    status_message: "Delete '"@ + m.notes[sel(m.selected_note)].title + "'? (y/n)"@,
                    ..m
                }
            } else {
                m
            },
            Effect::Nothing,
        ),
        Message::DeleteTask => (
            if task_ok(m) {
                AppModel {
                    mode: Mode::ConfirmDeletion,
                    status_message: "Delete '"@ + m.tasks[sel(m.selected_task)].description
                        + "'? (y/n)"@,
                    ..m
                }
            } else {
                m
            },
            Effect::Nothing,
        ),
        Message::ConfirmDelete => confirm_delete_spec(m),
        Message::ToggleHelp => (
            if m.current_view == View::Help {
                AppModel {
                    current_view: match m.previous_view {
                        Some(v) => v,
                        None => View::NoteList,
                    },
                    previous_view: None,
                    ..m
                }
            } else {
                AppModel { previous_view: Some(m.current_view), current_view: View::Help, ..m }
            },
            Effect::Nothing,
        ),
        Message::ToggleFocus => (
            AppModel {
                focus: match m.focus {
                    Focus::NoteList => Focus::TagList,
                    Focus::TagList => Focus::NoteList,
                },
                ..m
            },
            Effect::Nothing,
        ),
        Message::PreviousTag => (
            AppModel { selected_tag: previous_spec(m.tags.len(), m.selected_tag), ..m },
            Effect::Nothing,
        ),
        Message::NextTag => (
            AppModel { selected_tag: next_spec(m.tags.len(), m.selected_tag), ..m },
            Effect::Nothing,
        ),
        Message::SelectTag => (select_tag_spec(m), Effect::Nothing),
        Message::NewLine => (
            if m.mode == Mode::Insert {
                type_spec(m, '\n')
            } else {
                m
            },
            Effect::Nothing,
        ),
        Message::PreviousTask => (
            AppModel { selected_task: previous_spec(m.tasks.len(), m.selected_task), ..m },
            Effect::Nothing,
        ),
        Message::NextTask => (
            AppModel { selected_task: next_spec(m.tasks.len(), m.selected_task), ..m },
            Effect::Nothing,
        ),
        Message::ToggleTaskComplete => if task_ok(m) {
            let i = sel(m.selected_task);
            (
                AppModel {
                    tasks: m.tasks.update(
                        i,
                        TaskModel { completed: !m.tasks[i].completed, ..m.tasks[i] },
                    ),
                    ..m
                },
                Effect::SaveTasks,
            )
        } else {
            (m, Effect::Nothing)
        },
        Message::CursorLeft => (
            caret_spec(m, left_spec(content_of(m), m.cursor_offset as int)),
            Effect::Nothing,
        ),
        Message::CursorRight => (
            caret_spec(m, right_spec(content_of(m), m.cursor_offset as int)),
            Effect::Nothing,
        ),
        Message::CursorUp => (
            caret_spec(m, up_spec(content_of(m), m.cursor_offset as int)),
            Effect::Nothing,
        ),
        Message::CursorDown => (
            caret_spec(m, down_spec(content_of(m), m.cursor_offset as int)),
            Effect::Nothing,
        ),
        Message::EnterTagInput => (
            AppModel {
                mode: Mode::TagInput,
                command_input: Seq::empty(),
                status_message: "Add Tag: "@,
                ..m
            },
            Effect::Nothing,
        ),
        Message::AddTag => (add_tag_spec(m), Effect::Nothing),
        Message::EnterInsertMode => (
            AppModel {
                mode: Mode::Insert,
                cursor_offset: if note_ok(m) {
                    content_of(m).len() as usize
                } else {
                    m.cursor_offset
                },
                status_message: "-- INSERT --"@,
                ..m
            },
            Effect::Nothing,
        ),
        Message::EnterNormalMode => (normal_spec(m), Effect::Nothing),
        Message::EnterCommandMode => (
            AppModel {
                mode: Mode::Command,
                command_input: m.command_input.push(':'),
                status_message: m.command_input.push(':'),
                ..m
            },
            Effect::Nothing,
        ),
        Message::ExecuteCommand => execute_spec(m),
    }
}

/// A note file's removal has ended with `outcome` (an error's text): on
/// success the selected note goes and the selection moves as after any
/// removal; on failure the error stands on the status line.
pub open spec fn deleted_spec(m: AppModel, outcome: Result<(), Seq<char>>) -> AppModel {
    match outcome {
        Ok(_) => if note_ok(m) {
            let i = sel(m.selected_note);
            normal_spec(
                AppModel {
                    notes: m.notes.remove(i),
                    dirty: true,
                    selected_note: after_removal_spec((m.notes.len() - 1) as nat, i as nat),
                    ..m
                },
            )
        } else {
            normal_spec(m)
        },
        Err(e) => AppModel { status_message: "Error deleting note: "@ + e, ..normal_spec(m) },
    }
}

/// A write of the task list has ended with `outcome` (an error's text).
pub open spec fn tasks_saved_spec(m: AppModel, outcome: Result<(), Seq<char>>) -> AppModel {
    match outcome {
        Ok(_) => m,
        Err(e) => AppModel { status_message: "Error auto-saving tasks: "@ + e, ..m },
    }
}

pub open spec fn outcome_view(o: Result<(), String>) -> Result<(), Seq<char>> {
    match o {
        Ok(_) => Ok(()),
        Err(e) => Err(e@),
    }
}

/// Relies on `chrono::Utc::now` for the current time, read as seconds and
/// nanoseconds since the Unix epoch.
#[verifier::external_body]
fn now_utc() -> Timestamp {
    let now = chrono::Utc::now();
    Timestamp { secs: now.timestamp(), nanos: now.timestamp_subsec_nanos() }
}

/// The application: its state, where its files are, and which list of the
/// note-list screen has the keys.
pub struct App {
    pub state: AppState,
    pub data_handler: DataHandler,
    pub focus: Focus,
}

impl vstd::view::View for App {
    type V = AppModel;

    open spec fn view(&self) -> AppModel {
        AppModel {
            notes: notes_view(self.state.notes@),
            tasks: tasks_view(self.state.tasks@),
            current_view: self.state.current_view,
            previous_view: self.state.previous_view,
            search_query: self.state.search_query@,
            status_message: self.state.status_message@,
            running: self.state.running,
            dirty: self.state.dirty,
            calendar_year: self.state.calendar_year,
            calendar_month: self.state.calendar_month,
            mode: self.state.mode,
            command_input: self.state.command_input@,
            search_results: self.state.search_results@,
            selected_note: self.state.selected_note,
            tags: crate::state::strings_view(self.state.tags@),
            selected_tag: self.state.selected_tag,
            selected_task: self.state.selected_task,
            active_tag: match self.state.active_tag {
                Some(t) => Some(t@),
                None => None,
            },
            cursor_offset: self.state.cursor_offset,
            focus: self.focus,
            notes_dir: self.data_handler.notes_dir@,
            tasks_file: self.data_handler.tasks_file@,
        }
    }
}

fn text(lit: &str) -> (r: String)
    ensures
        r@ == lit@,
{
    String::from_str(lit)
}

fn joined_text(a: &str, b: &str) -> (r: String)
    ensures
        r@ == a@ + b@,
{
    let mut r = String::from_str(a);
    r.append(b);
    r
}

impl App {
    /// The index of the selected note, where it exists.
    fn note_index(&self) -> (r: Option<usize>)
        ensures
            r is Some <==> note_ok(self@),
            r is Some ==> r->0 == sel(self@.selected_note),
    {
        match self.state.selected_note {
            Some(i) => if i < self.state.notes.len() {
                Some(i)
            } else {
                None
            },
            None => None,
        }
    }

    fn set_note(&mut self, i: usize, n: Note)
        requires
            i < old(self).state.notes.len(),
        ensures
            final(self)@ == (AppModel { notes: old(self)@.notes.update(i as int, n@), ..old(self)@ }),
    {
        self.state.notes.remove(i);
        self.state.notes.insert(i, n);
        proof {
            assert(notes_view(self.state.notes@) =~= notes_view(old(self).state.notes@).update(
                i as int,
                n@,
            ));
        }
    }

    fn put_note(&mut self, i: usize, n: Note)
        requires
            i <= old(self).state.notes.len(),
        ensures
            final(self)@ == (AppModel { notes: old(self)@.notes.insert(i as int, n@), ..old(self)@ }),
    {
        self.state.notes.insert(i, n);
        proof {
            assert(notes_view(self.state.notes@) =~= notes_view(old(self).state.notes@).insert(
                i as int,
                n@,
            ));
        }
    }

    fn take_note(&mut self, i: usize) -> (r: Note)
        requires
            i < old(self).state.notes.len(),
        ensures
            r@ == old(self)@.notes[i as int],
            final(self).state.notes.len() == old(self).state.notes.len() - 1,
            final(self)@ == (AppModel { notes: old(self)@.notes.remove(i as int), ..old(self)@ }),
    {
        let n = self.state.notes.remove(i);
        proof {
            assert(notes_view(self.state.notes@) =~= notes_view(old(self).state.notes@).remove(
                i as int,
            ));
        }
        n
    }

    fn normal(&mut self)
        ensures
            final(self)@ == normal_spec(old(self)@),
    {
        if self.state.mode == Mode::Insert {
            self.state.dirty = true;
        }
        self.state.mode = Mode::Normal;
        self.state.status_message = String::new();
        self.state.command_input.clear();
        proof {
            assert(self@.command_input =~= Seq::<char>::empty());
            assert(self@.status_message =~= Seq::<char>::empty());
        }
    }

    fn quit(&mut self)
        ensures
            final(self)@ == quit_spec(old(self)@),
    {
        if self.state.dirty {
            self.state.mode = Mode::ConfirmQuit;
            self.state.status_message = text(
                "You have unsaved changes. Quit without saving? (y/n)",
            );
        } else {
            self.state.running = false;
        }
    }

    fn finish_command(&mut self)
        ensures
            final(self)@ == finish_command_spec(old(self)@),
    {
        if self.state.running {
            self.state.mode = Mode::Normal;
            let keep = has_prefix(self.state.status_message.as_str(), "Error") || has_prefix(
                self.state.status_message.as_str(),
                "Not a command",
            );
            if !keep {
                self.state.status_message = String::new();
                proof {
                    assert(self@.status_message =~= Seq::<char>::empty());
                }
            }
        }
    }

    fn after_save(&mut self, after: AfterSave)
        ensures
            final(self)@ == after_save_spec(old(self)@, after),
    {
        match after {
            AfterSave::Report => {},
            AfterSave::Command => self.finish_command(),
            AfterSave::CommandThenQuit => {
                if !self.state.dirty {
                    self.quit();
                }
                self.finish_command();
            },
        }
    }

    fn save(&mut self, after: AfterSave) -> (r: Effect)
        ensures
            (final(self)@, r) == save_spec(old(self)@, after),
    {
        if self.state.dirty {
            Effect::SaveNotes(after)
        } else {
            self.state.status_message = text("No changes to save.");
            self.after_save(after);
            Effect::Nothing
        }
    }

    /// Rebuilds the tag list from the notes and keeps its selection valid.
    fn retag(&mut self)
        ensures
            final(self)@ == retag_spec(old(self)@),
    {
        let tags = collect_tags(&self.state.notes);
        let n = tags.len();
        self.state.tags = tags;
        self.state.selected_tag = match self.state.selected_tag {
            Some(i) => after_removal(n, i),
            None => None,
        };
    }

    /// Reports how a save of the notes asked for by `SaveNotes(after)`
    /// ended: `Err` holds the error's text.
    pub fn notes_saved(&mut self, after: AfterSave, outcome: Result<(), String>)
        requires
            wf(old(self)@),
        ensures
            final(self)@ == saved_spec(old(self)@, after, outcome_view(outcome)),
            wf(final(self)@),
    {
        match outcome {
            Ok(_) => {
                self.state.status_message = text("Notes saved successfully!");
                self.state.dirty = false;
                self.retag();
            },
            Err(e) => {
                self.state.status_message = joined_text("Error saving notes: ", e.as_str());
            },
        }
        self.after_save(after);
    }

    /// Reports how the removal of a note file asked for by `DeleteNoteFile`
    /// ended: `Err` holds the error's text.
    pub fn note_deleted(&mut self, outcome: Result<(), String>)
        requires
            wf(old(self)@),
        ensures
            final(self)@ == deleted_spec(old(self)@, outcome_view(outcome)),
            wf(final(self)@),
    {
        match outcome {
            Ok(_) => {
                match self.note_index() {
                    Some(i) => {
                        self.take_note(i);
                        proof {
                            assert(self.state.notes@.len() == notes_view(self.state.notes@).len());
                        }
                        self.state.dirty = true;
                        self.state.selected_note = after_removal(self.state.notes.len(), i);
                        self.normal();
                    },
                    None => {
                        self.normal();
                    },
                }
                proof {
                    assert(outcome_view(outcome) is Ok);
                }
            },
            Err(e) => {
                self.normal();
                self.state.status_message = joined_text("Error deleting note: ", e.as_str());
                proof {
                    assert(outcome_view(outcome) == Err::<(), Seq<char>>(e@));
                }
            },
        }
    }

    /// Reports how a write of the task list asked for by `SaveTasks` ended:
    /// `Err` holds the error's text.
    pub fn tasks_saved(&mut self, outcome: Result<(), String>)
        requires
            wf(old(self)@),
        ensures
            final(self)@ == tasks_saved_spec(old(self)@, outcome_view(outcome)),
            wf(final(self)@),
    {
        match outcome {
            Ok(_) => {},
            Err(e) => {
                self.state.status_message = joined_text("Error auto-saving tasks: ", e.as_str());
            },
        }
    }
}

impl App {
    fn execute(&mut self) -> (r: Effect)
        ensures
            (final(self)@, r) == execute_spec(old(self)@),
    {
        reveal(execute_spec);
        let v = crate::text::chars_of(self.state.command_input.as_str());
        let n = v.len();
        let cmd = if n > 0 {
            crate::text::string_of_range(&v, 1, n)
        } else {
            String::new()
        };
        let kept = if n > 0 {
            crate::text::string_of_range(&v, 0, 1)
        } else {
            String::new()
        };
        proof {
            if n > 0 {
                assert(v@.subrange(1, n as int) =~= v@.skip(1));
                assert(v@.subrange(0, 1) =~= v@.take(1));
            } else {
                assert(kept@ =~= v@);
                assert(cmd@ =~= Seq::<char>::empty());
            }
        }
        self.state.command_input = kept;
        if cmd == text("w") || cmd == text("write") {
            self.save(AfterSave::Command)
        } else if cmd == text("q") || cmd == text("quit") {
            self.quit();
            self.finish_command();
            Effect::Nothing
        } else if cmd == text("wq") {
            self.save(AfterSave::CommandThenQuit)
        } else {
            self.state.status_message = joined_text("Not a command: ", cmd.as_str());
            self.finish_command();
            Effect::Nothing
        }
    }

    fn type_char(&mut self, c: char)
        ensures
            final(self)@ == type_spec(old(self)@, c),
    {
        if let Some(i) = self.note_index() {
            if self.state.notes[i].content.as_str().unicode_len() < usize::MAX {
                let mut n = self.take_note(i);
                let off = insert_char(&mut n.content, self.state.cursor_offset, c);
                self.put_note(i, n);
                proof {
                    assert(old(self)@.notes.remove(i as int).insert(i as int, n@) =~= old(self)@.notes.update(i as int, n@));
                }
                self.state.cursor_offset = off;
            }
        }
    }

    fn erase(&mut self)
        ensures
            final(self)@ == erase_spec(old(self)@),
    {
        if let Some(i) = self.note_index() {
            if self.state.cursor_offset > 0 {
                let mut n = self.take_note(i);
                let off = delete_before(&mut n.content, self.state.cursor_offset);
                self.put_note(i, n);
                proof {
                    assert(old(self)@.notes.remove(i as int).insert(i as int, n@) =~= old(self)@.notes.update(i as int, n@));
                }
                self.state.cursor_offset = off;
            }
        }
    }

    fn title_prompt_text(&self) -> (r: String)
        ensures
            r@ == title_prompt(self@),
    {
        if self.state.selected_note.is_none() {
            text("New note title: ")
        } else {
            text("Rename note to: ")
        }
    }

    fn refresh_search(&mut self)
        ensures
            final(self)@ == (AppModel {
                search_results: search_spec(old(self)@.search_query, old(self)@.notes),
                ..old(self)@
            }),
    {
        self.state.search_results = search(self.state.search_query.as_str(), &self.state.notes);
    }

    fn char_msg(&mut self, c: char)
        ensures
            final(self)@ == char_spec(old(self)@, c),
    {
        reveal(char_spec);
        match self.state.mode {
            Mode::Insert => self.type_char(c),
            Mode::Command => {
                self.state.command_input.push(c);
                self.state.status_message = self.state.command_input.clone();
            },
            Mode::TitleInput => {
                let prompt = self.title_prompt_text();
                self.state.command_input.push(c);
                self.state.status_message = joined_text(
                    prompt.as_str(),
                    self.state.command_input.as_str(),
                );
            },
            Mode::TagInput => {
                self.state.command_input.push(c);
                self.state.status_message = joined_text(
                    "Add Tag: ",
                    self.state.command_input.as_str(),
                );
            },
            Mode::Normal => {
                if self.state.current_view == View::Search {
                    self.state.search_query.push(c);
                    self.refresh_search();
                    self.state.status_message = joined_text("/", self.state.search_query.as_str());
                }
            },
            _ => {},
        }
    }

    fn backspace_msg(&mut self)
        ensures
            final(self)@ == backspace_spec(old(self)@),
    {
        reveal(backspace_spec);
        match self.state.mode {
            Mode::Insert => self.erase(),
            Mode::Command => {
                self.state.command_input.pop();
                if self.state.command_input.as_str().unicode_len() == 0 {
                    self.normal();
                } else {
                    self.state.status_message = self.state.command_input.clone();
                }
            },
            Mode::TitleInput => {
                let prompt = self.title_prompt_text();
                self.state.command_input.pop();
                self.state.status_message = joined_text(
                    prompt.as_str(),
                    self.state.command_input.as_str(),
                );
            },
            Mode::TagInput => {
                self.state.command_input.pop();
                self.state.status_message = joined_text(
                    "Add Tag: ",
                    self.state.command_input.as_str(),
                );
            },
            Mode::Normal => {
                if self.state.current_view == View::Search {
                    self.state.search_query.pop();
                    self.refresh_search();
                    self.state.status_message = joined_text("/", self.state.search_query.as_str());
                }
            },
            _ => {},
        }
    }

    fn max_task_id(&self) -> (r: u64)
        ensures
            r == max_id(self@.tasks),
    {
        let mut best: u64 = 0;
        let mut i: usize = 0;
        while i < self.state.tasks.len()
            invariant
                i <= self.state.tasks.len(),
                best == max_id(tasks_view(self.state.tasks@).take(i as int)),
            decreases self.state.tasks.len() - i,
        {
            proof {
                assert(tasks_view(self.state.tasks@).take(i + 1).drop_last() =~= tasks_view(
                    self.state.tasks@,
                ).take(i as int));
            }
            if self.state.tasks[i].id > best {
                best = self.state.tasks[i].id;
            }
            i = i + 1;
        }
        proof {
            assert(tasks_view(self.state.tasks@).take(self.state.tasks.len() as int)
                =~= tasks_view(self.state.tasks@));
        }
        best
    }

    fn set_title(&mut self, now: Timestamp) -> (r: Effect)
        ensures
            (final(self)@, r) == set_title_spec(old(self)@, now),
    {
        reveal(set_title_spec);
        let input = self.state.command_input.clone();
        if input.as_str().unicode_len() == 0 {
            self.state.status_message = text("Input cannot be empty");
            self.state.mode = Mode::Normal;
            return Effect::Nothing;
        }
        let view = self.state.current_view;
        if view == View::NoteList || view == View::NoteEditor {
            match self.note_index() {
                Some(i) => {
                    let mut n = self.take_note(i);
                    n.title = input;
                    self.put_note(i, n);
                    proof {
                        assert(old(self)@.notes.remove(i as int).insert(i as int, n@) =~= old(self)@.notes.update(i as int, n@));
                    }
                    self.state.dirty = true;
                    self.normal();
                    Effect::Nothing
                },
                None => {
                    let path = self.data_handler.new_note_path(input.as_str(), now.secs);
                    let note = Note {
                        path,
                        title: input,
                        content: String::new(),
                        tags: Vec::new(),
                        created_at: now,
                        updated_at: now,
                    };
                    proof {
                        assert(note@.tags =~= Seq::<Seq<char>>::empty());
                    }
                    let k = self.state.notes.len();
                    self.state.notes.push(note);
                    proof {
                        assert(notes_view(self.state.notes@) =~= old(self)@.notes.push(note@));
                    }
                    self.state.selected_note = Some(k);
                    self.state.current_view = View::NoteEditor;
                    self.state.mode = Mode::Insert;
                    self.state.status_message = text("-- INSERT --");
                    self.state.cursor_offset = 0;
                    Effect::Nothing
                },
            }
        } else if view == View::Tasks && self.state.selected_task.is_none() {
            let top = self.max_task_id();
            if top < u64::MAX {
                let task = Task {
                    id: top + 1,
                    description: input,
                    project: None,
                    priority: Priority::Medium,
                    due_date: None,
                    completed: false,
                    created_at: now,
                    sub_tasks: Vec::new(),
                };
                let k = self.state.tasks.len();
                self.state.tasks.push(task);
                proof {
                    assert(tasks_view(self.state.tasks@) =~= old(self)@.tasks.push(task@));
                }
                self.state.selected_task = Some(k);
                self.normal();
                Effect::SaveTasks
            } else {
                self.normal();
                Effect::Nothing
            }
        } else {
            self.normal();
            Effect::Nothing
        }
    }

    fn confirm_delete(&mut self) -> (r: Effect)
        ensures
            (final(self)@, r) == confirm_delete_spec(old(self)@),
    {
        reveal(confirm_delete_spec);
        if self.state.current_view == View::NoteList && self.state.selected_note.is_some() {
            return Effect::DeleteNoteFile(self.state.selected_note.unwrap());
        }
        if self.state.current_view == View::Tasks {
            if let Some(i) = self.state.selected_task {
                if i < self.state.tasks.len() {
                    self.state.tasks.remove(i);
                    proof {
                        assert(tasks_view(self.state.tasks@) =~= old(self)@.tasks.remove(i as int));
                    }
                    self.state.selected_task = after_removal(self.state.tasks.len(), i);
                    self.normal();
                    return Effect::SaveTasks;
                }
            }
        }
        self.normal();
        Effect::Nothing
    }

    fn add_tag(&mut self)
        ensures
            final(self)@ == add_tag_spec(old(self)@),
    {
        reveal(add_tag_spec);
        let t = String::from_str(trim_str(self.state.command_input.as_str()));
        if t.as_str().unicode_len() > 0 {
            if let Some(i) = self.note_index() {
                let mut present = false;
                let mut j: usize = 0;
                let ghost tags = old(self)@.notes[i as int].tags;
                while j < self.state.notes[i].tags.len()
                    invariant
                        self@ == old(self)@,
                        i < self.state.notes.len(),
                        tags == crate::state::strings_view(self.state.notes[i as int].tags@),
                        j <= self.state.notes[i as int].tags.len(),
                        present == (exists|k: int| 0 <= k < j && tags[k] == t@),
                    decreases self.state.notes[i as int].tags.len() - j,
                {
                    proof {
                        assert(tags[j as int] == self.state.notes[i as int].tags@[j as int]@);
                    }
                    if self.state.notes[i].tags[j] == t {
                        present = true;
                    }
                    j = j + 1;
                }
                if !present {
                    let mut n = self.take_note(i);
                    n.tags.push(t);
                    self.put_note(i, n);
                    proof {
                        assert(old(self)@.notes.remove(i as int).insert(i as int, n@) =~= old(self)@.notes.update(i as int, n@));
                        assert(n@.tags =~= tags.push(t@));
                    }
                    self.state.dirty = true;
                } else {
                    proof {
                        let k = choose|k: int| 0 <= k < j && tags[k] == t@;
                        assert(tags.contains(t@));
                    }
                }
            }
        }
        self.normal();
    }

    fn select_tag(&mut self)
        requires
            wf(old(self)@),
        ensures
            final(self)@ == select_tag_spec(old(self)@),
    {
        reveal(select_tag_spec);
        if let Some(i) = self.state.selected_tag {
            let tag = self.state.tags[i].clone();
            let same = match &self.state.active_tag {
                Some(a) => *a == tag,
                None => false,
            };
            if same {
                self.state.active_tag = None;
            } else {
                self.state.active_tag = Some(tag);
            }
            if self.state.notes.len() > 0 {
                self.state.selected_note = Some(0);
            } else {
                self.state.selected_note = None;
            }
        }
    }

    fn previous_month(&mut self)
        requires
            1 <= old(self).state.calendar_month <= 12,
        ensures
            final(self)@ == previous_month_spec(old(self)@),
    {
        if self.state.calendar_month == 1 {
            if self.state.calendar_year > i32::MIN {
                self.state.calendar_month = 12;
                self.state.calendar_year = self.state.calendar_year - 1;
            }
        } else {
            self.state.calendar_month = self.state.calendar_month - 1;
        }
    }

    fn next_month(&mut self)
        requires
            1 <= old(self).state.calendar_month <= 12,
        ensures
            final(self)@ == next_month_spec(old(self)@),
    {
        if self.state.calendar_month == 12 {
            if self.state.calendar_year < i32::MAX {
                self.state.calendar_month = 1;
                self.state.calendar_year = self.state.calendar_year + 1;
            }
        } else {
            self.state.calendar_month = self.state.calendar_month + 1;
        }
    }

    fn move_caret(&mut self, dir: Message)
        requires
            dir == Message::CursorLeft || dir == Message::CursorRight || dir == Message::CursorUp
                || dir == Message::CursorDown,
        ensures
            (final(self)@, Effect::Nothing) == step(old(self)@, dir, Timestamp { secs: 0, nanos: 0 }),
    {
        if let Some(i) = self.note_index() {
            let content = self.state.notes[i].content.as_str();
            let off = self.state.cursor_offset;
            let r = match dir {
                Message::CursorLeft => move_left(content, off),
                Message::CursorRight => move_right(content, off),
                Message::CursorUp => move_up(content, off),
                _ => move_down(content, off),
            };
            self.state.cursor_offset = r;
        }
    }
}

impl App {
    /// Applies one message at time `now`, and returns the work on files that
    /// the loop must do next.
    #[verifier::rlimit(60)]
    pub fn apply(&mut self, msg: Message, now: Timestamp) -> (r: Effect)
        requires
            wf(old(self)@),
        ensures
            (final(self)@, r) == step(old(self)@, msg, now),
            wf(final(self)@),
    {
        let r = match msg {
            Message::Quit => {
                self.quit();
                Effect::Nothing
            },
            Message::ForceQuit => {
                self.state.running = false;
                Effect::Nothing
            },
            Message::SwitchToNoteList => {
                self.state.current_view = View::NoteList;
                Effect::Nothing
            },
            Message::SwitchToCalendar => {
                self.state.current_view = View::Calendar;
                Effect::Nothing
            },
            Message::SwitchToTasks => {
                self.state.current_view = View::Tasks;
                Effect::Nothing
            },
            Message::PreviousMonth => {
                self.previous_month();
                Effect::Nothing
            },
            Message::NextMonth => {
                self.next_month();
                Effect::Nothing
            },
            Message::Save => self.save(AfterSave::Report),
            Message::Char(c) => {
                self.char_msg(c);
                Effect::Nothing
            },
            Message::Backspace => {
                self.backspace_msg();
                Effect::Nothing
            },
            Message::EnterSearch => {
                self.state.current_view = View::Search;
                self.state.search_query.clear();
                self.state.status_message = text("/");
                self.state.search_results = Vec::new();
                proof {
                    assert(self@.search_query =~= Seq::<char>::empty());
                    assert(self@.search_results =~= Seq::<usize>::empty());
                }
                Effect::Nothing
            },
            Message::ExitSearch => {
                self.state.current_view = View::NoteList;
                self.state.search_query.clear();
                self.state.status_message = String::new();
                self.state.search_results = Vec::new();
                proof {
                    assert(self@.search_query =~= Seq::<char>::empty());
                    assert(self@.status_message =~= Seq::<char>::empty());
                    assert(self@.search_results =~= Seq::<usize>::empty());
                }
                Effect::Nothing
            },
            Message::PreviousNote => {
                self.state.selected_note = previous(
                    self.state.notes.len(),
                    self.state.selected_note,
                );
                Effect::Nothing
            },
            Message::NextNote => {
                self.state.selected_note = next(self.state.notes.len(), self.state.selected_note);
                Effect::Nothing
            },
            Message::OpenNote => {
                if self.state.selected_note.is_some() {
                    self.state.cursor_offset = 0;
                    self.state.current_view = View::NoteEditor;
                    self.state.status_message = String::new();
                    proof {
                        assert(self@.status_message =~= Seq::<char>::empty());
                    }
                }
                Effect::Nothing
            },
            Message::NewNote => {
                self.state.selected_note = None;
                self.state.mode = Mode::TitleInput;
                self.state.command_input.clear();
                self.state.status_message = text("New note title: ");
                proof {
                    assert(self@.command_input =~= Seq::<char>::empty());
                }
                Effect::Nothing
            },
            Message::NewTask => {
                self.state.selected_task = None;
                self.state.mode = Mode::TitleInput;
                self.state.command_input.clear();
                self.state.status_message = text("New Task: ");
                proof {
                    assert(self@.command_input =~= Seq::<char>::empty());
                }
                Effect::Nothing
            },
            Message::RenameNote => {
                if let Some(i) = self.note_index() {
                    self.state.mode = Mode::TitleInput;
                    self.state.command_input = self.state.notes[i].title.clone();
                    self.state.status_message = joined_text(
                        "Rename note to: ",
                        self.state.command_input.as_str(),
                    );
                }
                Effect::Nothing
            },
            Message::SetNoteTitle => self.set_title(now),
            Message::DeleteNote => {
                if let Some(i) = self.note_index() {
                    self.state.mode = Mode::ConfirmDeletion;
                    let mut m = joined_text("Delete '", self.state.notes[i].title.as_str());
                    m.append("'? (y/n)");
                    self.state.status_message = m;
                }
                Effect::Nothing
            },
            Message::DeleteTask => {
                if let Some(i) = self.state.selected_task {
                    if i < self.state.tasks.len() {
                        self.state.mode = Mode::ConfirmDeletion;
                        let mut m = joined_text(
                            "Delete '",
                            self.state.tasks[i].description.as_str(),
                        );
                        m.append("'? (y/n)");
                        self.state.status_message = m;
                    }
                }
                Effect::Nothing
            },
            Message::ConfirmDelete => self.confirm_delete(),
            Message::ToggleHelp => {
                if self.state.current_view == View::Help {
                    self.state.current_view = match self.state.previous_view {
                        Some(v) => v,
                        None => View::NoteList,
                    };
                    self.state.previous_view = None;
                } else {
                    self.state.previous_view = Some(self.state.current_view);
                    self.state.current_view = View::Help;
                }
                Effect::Nothing
            },
            Message::ToggleFocus => {
                self.focus = match self.focus {
                    Focus::NoteList => Focus::TagList,
                    Focus::TagList => Focus::NoteList,
                };
                Effect::Nothing
            },
            Message::PreviousTag => {
                self.state.selected_tag = previous(self.state.tags.len(), self.state.selected_tag);
                Effect::Nothing
            },
            Message::NextTag => {
                self.state.selected_tag = next(self.state.tags.len(), self.state.selected_tag);
                Effect::Nothing
            },
            Message::SelectTag => {
                self.select_tag();
                Effect::Nothing
            },
            Message::NewLine => {
                if self.state.mode == Mode::Insert {
                    self.type_char('\n');
                }
                Effect::Nothing
            },
            Message::PreviousTask => {
                self.state.selected_task = previous(
                    self.state.tasks.len(),
                    self.state.selected_task,
                );
                Effect::Nothing
            },
            Message::NextTask => {
                self.state.selected_task = next(self.state.tasks.len(), self.state.selected_task);
                Effect::Nothing
            },
            Message::ToggleTaskComplete => {
                match self.state.selected_task {
                    Some(i) => if i < self.state.tasks.len() {
                        let mut t = self.state.tasks.remove(i);
                        t.completed = !t.completed;
                        self.state.tasks.insert(i, t);
                        proof {
                            assert(tasks_view(self.state.tasks@) =~= old(self)@.tasks.update(
                                i as int,
                                t@,
                            ));
                        }
                        Effect::SaveTasks
                    } else {
                        Effect::Nothing
                    },
                    None => Effect::Nothing,
                }
            },
            Message::CursorLeft | Message::CursorRight | Message::CursorUp | Message::CursorDown => {
                self.move_caret(msg);
                Effect::Nothing
            },
            Message::EnterTagInput => {
                self.state.mode = Mode::TagInput;
                self.state.command_input.clear();
                self.state.status_message = text("Add Tag: ");
                proof {
                    assert(self@.command_input =~= Seq::<char>::empty());
                }
                Effect::Nothing
            },
            Message::AddTag => {
                self.add_tag();
                Effect::Nothing
            },
            Message::EnterInsertMode => {
                self.state.mode = Mode::Insert;
                if let Some(i) = self.note_index() {
                    self.state.cursor_offset = self.state.notes[i].content.as_str().unicode_len();
                }
                self.state.status_message = text("-- INSERT --");
                Effect::Nothing
            },
            Message::EnterNormalMode => {
                self.normal();
                Effect::Nothing
            },
            Message::EnterCommandMode => {
                self.state.mode = Mode::Command;
                self.state.command_input.push(':');
                self.state.status_message = self.state.command_input.clone();
                Effect::Nothing
            },
            Message::ExecuteCommand => self.execute(),
        };
        proof {
            lemma_step_wf(old(self)@, msg, now);
        }
        r
    }

    /// Applies one message at the current time, and returns the work on
    /// files that the loop must do next.
    pub fn update(&mut self, msg: Message) -> (r: Effect)
        requires
            wf(old(self)@),
        ensures
            exists|now: Timestamp| (final(self)@, r) == step(old(self)@, msg, now),
            wf(final(self)@),
    {
        let now = now_utc();
        self.apply(msg, now)
    }

    /// Whether the selections are valid and the month is in 1 to 12.
    pub fn well_formed(&self) -> (r: bool)
        ensures
            r == wf(self@),
    {
        let notes_ok = match self.state.selected_note {
            Some(i) => i < self.state.notes.len(),
            None => true,
        };
        let tags_ok = match self.state.selected_tag {
            Some(i) => i < self.state.tags.len(),
            None => true,
        };
        let tasks_ok = match self.state.selected_task {
            Some(i) => i < self.state.tasks.len(),
            None => true,
        };
        notes_ok && tags_ok && tasks_ok && 1 <= self.state.calendar_month
            && self.state.calendar_month <= 12
    }

    /// Where the caret of the selected note stands on screen: its column and
    /// its line.
    pub fn cursor_position(&self) -> (r: Option<(usize, usize)>)
        ensures
            r is Some <==> note_ok(self@),
            r matches Some(p) ==> p == ({
                let s = content_of(self@);
                let o = crate::text::clamp(self@.cursor_offset as int, s.len() as int);
                ((o - crate::text::line_start(s, o)) as usize, crate::text::newline_count(
                    s.take(o),
                ) as usize)
            }),
    {
        match self.note_index() {
            Some(i) => Some(cursor_xy(self.state.notes[i].content.as_str(), self.state.cursor_offset)),
            None => None,
        }
    }
}

/// The state that every message leads to from a well-formed one is
/// well-formed: selections stay valid and the month stays in 1 to 12.
proof fn lemma_edit_wf(m: AppModel, now: Timestamp)
    requires
        wf(m),
    ensures
        wf(set_title_spec(m, now).0),
        wf(confirm_delete_spec(m).0),
        wf(execute_spec(m).0),
        wf(add_tag_spec(m)),
        wf(select_tag_spec(m)),
        wf(backspace_spec(m)),
        forall|c: char| wf(#[trigger] char_spec(m, c)),
{
    reveal(char_spec);
    reveal(backspace_spec);
    reveal(set_title_spec);
    reveal(confirm_delete_spec);
    reveal(execute_spec);
    reveal(add_tag_spec);
    reveal(select_tag_spec);
}

/// The state that every message leads to from a well-formed one is
/// well-formed: selections stay valid and the month stays in 1 to 12.
#[verifier::rlimit(40)]
pub proof fn lemma_step_wf(m: AppModel, msg: Message, now: Timestamp)
    requires
        wf(m),
    ensures
        wf(step(m, msg, now).0),
{
    lemma_edit_wf(m, now);
    lemma_nav_valid(m.notes.len(), m.selected_note);
    lemma_nav_valid(m.tags.len(), m.selected_tag);
    lemma_nav_valid(m.tasks.len(), m.selected_task);
    match msg {
        Message::SetNoteTitle => assert(step(m, msg, now) == set_title_spec(m, now)),
        Message::ConfirmDelete => assert(step(m, msg, now) == confirm_delete_spec(m)),
        Message::ExecuteCommand => assert(step(m, msg, now) == execute_spec(m)),
        Message::Char(c) => assert(step(m, msg, now).0 == char_spec(m, c)),
        Message::Backspace => assert(step(m, msg, now).0 == backspace_spec(m)),
        Message::AddTag => assert(step(m, msg, now).0 == add_tag_spec(m)),
        Message::SelectTag => assert(step(m, msg, now).0 == select_tag_spec(m)),
        _ => {},
    }
}

proof fn lemma_nav_valid(len: nat, s: Option<usize>)
    requires
        valid_selection(len, s),
    ensures
        valid_selection(len, next_spec(len, s)),
        valid_selection(len, previous_spec(len, s)),
{
    if len > 0 {
        let i = crate::nav::index_or_zero(s);
        vstd::arithmetic::div_mod::lemma_mod_bound(i + 1, len as int);
        vstd::arithmetic::div_mod::lemma_mod_bound(i + len - 1, len as int);
    }
}

/// Relies on `chrono::Local::now` for today's date in the local time zone,
/// read as year, month and day, and on chrono's `format` for the name
/// `%Y-%m-%d.md` of that day's note.
#[verifier::external_body]
fn local_today() -> (r: (CalendarDate, String))
    ensures
        1 <= r.0.month <= 12,
        1 <= r.0.day <= 31,
{
    let now = chrono::Local::now();
    let date = CalendarDate {
        year: chrono::Datelike::year(&now),
        month: chrono::Datelike::month(&now),
        day: chrono::Datelike::day(&now),
    };
    (date, now.format("%Y-%m-%d.md").to_string())
}

fn sample_note(path: String, title: &str, content: &str, tags: Vec<String>, now: Timestamp) -> (r:
    Note)
    ensures
        r.path == path,
        r.title@ == title@,
        r.content@ == content@,
        r.tags == tags,
{
    Note {
        path,
        title: text(title),
        content: text(content),
        tags,
        created_at: now,
        updated_at: now,
    }
}

fn sample_task(id: u64, description: &str, priority: Priority, completed: bool, now: Timestamp) -> (r:
    Task)
    ensures
        r.id == id,
        r.description@ == description@,
        r.priority == priority,
        r.completed == completed,
{
    Task {
        id,
        description: text(description),
        project: Some(text("Ratanotes")),
        priority,
        due_date: None,
        completed,
        created_at: now,
        sub_tasks: Vec::new(),
    }
}

impl AppState {
    /// The state with sample data: two notes, one of them today's daily
    /// note, and two tasks; the first note is selected and the calendar shows
    /// this month.
    pub fn new() -> (r: AppState)
        ensures
            r.notes.len() == 2,
            r.tasks.len() == 2,
            r.selected_note == Some(0usize),
            r.selected_tag is None,
            r.selected_task is None,
            crate::state::strings_view(r.tags@) == tag_list_of(notes_view(r.notes@)),
            r.current_view == View::NoteList,
            r.previous_view is None,
            r.mode == Mode::Normal,
            r.running,
            !r.dirty,
            1 <= r.calendar_month <= 12,
            r.status_message@ == "Welcome to Ratanotes! Press 'q' to quit."@,
            r.search_query@.len() == 0,
            r.command_input@.len() == 0,
            r.search_results@.len() == 0,
            r.active_tag is None,
            r.cursor_offset == 0,
    {
        let now = now_utc();
        let (today, daily_name) = local_today();
        let mut first_tags: Vec<String> = Vec::new();
        first_tags.push(text("sample"));
        first_tags.push(text("rust"));
        let mut daily_tags: Vec<String> = Vec::new();
        daily_tags.push(text("daily"));
        let mut notes: Vec<Note> = Vec::new();
        notes.push(
            sample_note(
                text("sample-note.md"),
                "Sample Note",
                "This is the content of the sample note.",
                first_tags,
                now,
            ),
        );
        notes.push(
            sample_note(
                daily_name,
                "Daily Note for today",
                "This is a sample daily note for today.",
                daily_tags,
                now,
            ),
        );
        let mut tasks: Vec<Task> = Vec::new();
        tasks.push(sample_task(1, "Implement the task list view", Priority::High, false, now));
        tasks.push(sample_task(2, "Add sample data", Priority::Medium, true, now));
        let tags = collect_tags(&notes);
        AppState {
            notes,
            tasks,
            current_view: View::NoteList,
            previous_view: None,
            search_query: String::new(),
            status_message: text("Welcome to Ratanotes! Press 'q' to quit."),
            running: true,
            dirty: false,
            calendar_year: today.year,
            calendar_month: today.month,
            mode: Mode::Normal,
            command_input: String::new(),
            search_results: Vec::new(),
            selected_note: Some(0),
            tags,
            selected_tag: None,
            selected_task: None,
            active_tag: None,
            cursor_offset: 0,
        }
    }
}

/// The status line after loading: each part that failed, with its error,
/// and a note that sample data stands in; `None` when both loaded.
pub open spec fn load_status(notes_error: Option<Seq<char>>, tasks_error: Option<Seq<char>>) -> Option<
    Seq<char>,
> {
    let n = match notes_error {
        Some(e) => "notes ("@ + e + ")"@,
        None => Seq::empty(),
    };
    let t = match tasks_error {
        Some(e) => "tasks ("@ + e + ")"@,
        None => Seq::empty(),
    };
    if notes_error is None && tasks_error is None {
        None
    } else {
        Some(
            "Error loading "@ + n + if notes_error is Some && tasks_error is Some {
                ", "@
            } else {
                Seq::empty()
            } + t + ". Using sample data."@,
        )
    }
}

pub open spec fn error_of<T>(r: Result<T, String>) -> Option<Seq<char>> {
    match r {
        Ok(_) => None,
        Err(e) => Some(e@),
    }
}

impl App {
    /// The application over what was loaded: the notes and tasks that
    /// loaded replace the sample data, the tag list is rebuilt, and a
    /// failure to load stands on the status line.
    pub fn from_loaded(
        data_handler: DataHandler,
        notes: Result<Vec<Note>, String>,
        tasks: Result<Vec<Task>, String>,
    ) -> (r: App)
        ensures
            wf(r@),
            notes matches Ok(v) ==> r@.notes == notes_view(v@),
            tasks matches Ok(v) ==> r@.tasks == tasks_view(v@),
            r@.tags == tag_list_of(r@.notes),
            r@.selected_note == (if r@.notes.len() > 0 {
                Some(0usize)
            } else {
                None
            }),
            r@.status_message == match load_status(error_of(notes), error_of(tasks)) {
                Some(s) => s,
                None => "Welcome to Ratanotes! Press 'q' to quit."@,
            },
            r@.notes_dir == data_handler.notes_dir@,
            r@.tasks_file == data_handler.tasks_file@,
            r@.mode == Mode::Normal,
            r@.current_view == View::NoteList,
            r@.running,
            !r@.dirty,
            r@.focus == Focus::NoteList,
    {
        let mut state = AppState::new();
        let ghost nerr = error_of(notes);
        let ghost terr = error_of(tasks);
        let mut status = text("Error loading ");
        let failed_notes = match notes {
            Ok(v) => {
                state.notes = v;
                false
            },
            Err(e) => {
                status.append("notes (");
                status.append(e.as_str());
                status.append(")");
                true
            },
        };
        let failed_tasks = match tasks {
            Ok(v) => {
                state.tasks = v;
                false
            },
            Err(e) => {
                if failed_notes {
                    status.append(", ");
                }
                status.append("tasks (");
                status.append(e.as_str());
                status.append(")");
                true
            },
        };
        if failed_notes || failed_tasks {
            status.append(". Using sample data.");
            state.status_message = status;
        }
        state.selected_note = if state.notes.len() > 0 {
            Some(0)
        } else {
            None
        };
        state.tags = collect_tags(&state.notes);
        let app = App { state, data_handler, focus: Focus::NoteList };
        proof {
            assert(app@.status_message =~= match load_status(nerr, terr) {
                Some(s) => s,
                None => "Welcome to Ratanotes! Press 'q' to quit."@,
            });
        }
        app
    }
}

/// Executing `wq` with unsaved changes asks for the notes to be written;
/// when that write fails, the application keeps running, in Normal mode,
/// with a status line that starts with `Error`.
pub proof fn lemma_wq_save_failure(m: AppModel, now: Timestamp, e: Seq<char>)
    requires
        m.running,
        m.dirty,
        m.command_input == ":wq"@,
    ensures
        step(m, Message::ExecuteCommand, now).1 == Effect::SaveNotes(AfterSave::CommandThenQuit),
        ({
            let after = saved_spec(
                step(m, Message::ExecuteCommand, now).0,
                AfterSave::CommandThenQuit,
                Err(e),
            );
            &&& after.running
            &&& after.mode == Mode::Normal
            &&& starts_with(after.status_message, "Error"@)
        }),
{
    reveal(execute_spec);
    reveal_strlit(":wq");
    reveal_strlit("wq");
    reveal_strlit("w");
    reveal_strlit("write");
    reveal_strlit("q");
    reveal_strlit("quit");
    reveal_strlit("Error");
    reveal_strlit("Error saving notes: ");
    let cmd = m.command_input.skip(1);
    assert(cmd =~= "wq"@);
    assert(cmd.len() != "w"@.len() && cmd.len() != "write"@.len() && cmd != "q"@);
    assert(cmd.len() != "quit"@.len());
    let status = "Error saving notes: "@ + e;
    assert(status.take(5) =~= "Error"@);
}

/// Deleting the selected note or task: when it was the last item the
/// selection moves to the new last item, or to none when the list is now
/// empty; otherwise the same index stays selected, now on the item that
/// followed.
pub proof fn lemma_deletion_selection(m: AppModel, now: Timestamp)
    requires
        wf(m),
    ensures
        note_ok(m) ==> ({
            let i = sel(m.selected_note);
            let n = m.notes.len() - 1;
            deleted_spec(m, Ok(())).selected_note == if n == 0 {
                None
            } else if i == n {
                Some((n - 1) as usize)
            } else {
                Some(i as usize)
            }
        }),
        m.current_view == View::Tasks && task_ok(m) ==> ({
            let i = sel(m.selected_task);
            let n = m.tasks.len() - 1;
            step(m, Message::ConfirmDelete, now).0.selected_task == if n == 0 {
                None
            } else if i == n {
                Some((n - 1) as usize)
            } else {
                Some(i as usize)
            }
        }),
{
    reveal(confirm_delete_spec);
}

} // verus!
