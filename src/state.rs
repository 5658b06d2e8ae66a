//! The records the organizer keeps and the application state that the
//! control loop owns.
use vstd::prelude::*;
use vstd::view::View as _;

verus! {

/// The priority of a task, ordered `Low < Medium < High`.
#[derive(Clone, Copy, Debug, PartialEq, Eq, Structural, PartialOrd, Ord, Hash)]
pub enum Priority {
    Low,
    Medium,
    High,
}

/// A point in time: seconds since the Unix epoch and the nanoseconds past
/// that second.
#[derive(Clone, Copy, Debug, PartialEq, Eq, Structural)]
pub struct Timestamp {
    pub secs: i64,
    pub nanos: u32,
}

/// A calendar day of the proleptic Gregorian calendar.
#[derive(Clone, Copy, Debug, PartialEq, Eq, Structural)]
pub struct CalendarDate {
    pub year: i32,
    pub month: u32,
    pub day: u32,
}

/// A single to-do item. `sub_tasks` is kept and stored, and nothing reads it.
#[derive(Debug)]
pub struct Task {
    pub id: u64,
    pub description: String,
    pub project: Option<String>,
    pub priority: Priority,
    pub due_date: Option<CalendarDate>,
    pub completed: bool,
    pub created_at: Timestamp,
    pub sub_tasks: Vec<Task>,
}

/// A single note, identified by the path of its file.
#[derive(Debug)]
pub struct Note {
    pub path: String,
    pub title: String,
    pub content: String,
    pub tags: Vec<String>,
    pub created_at: Timestamp,
    pub updated_at: Timestamp,
}

/// The screen that is shown.
#[derive(Clone, Copy, Debug, PartialEq, Eq, Structural)]
pub enum View {
    NoteList,
    NoteEditor,
    Calendar,
    Tasks,
    Search,
    Help,
}

/// How key input is read; exactly one mode is active.
#[derive(Clone, Copy, Debug, PartialEq, Eq, Structural)]
pub enum Mode {
    Normal,
    Insert,
    Command,
    TitleInput,
    TagInput,
    ConfirmDeletion,
    ConfirmQuit,
}

/// The view of a list of strings as a sequence of character sequences.
pub open spec fn strings_view(v: Seq<String>) -> Seq<Seq<char>> {
    v.map_values(|s: String| s@)
}

/// A note as its values: the path, title and body as characters, the tags,
/// and the two times.
pub struct NoteModel {
    pub path: Seq<char>,
    pub title: Seq<char>,
    pub content: Seq<char>,
    pub tags: Seq<Seq<char>>,
    pub created_at: Timestamp,
    pub updated_at: Timestamp,
}

impl vstd::view::View for Note {
    type V = NoteModel;

    open spec fn view(&self) -> NoteModel {
        NoteModel {
            path: self.path@,
            title: self.title@,
            content: self.content@,
            tags: strings_view(self.tags@),
            created_at: self.created_at,
            updated_at: self.updated_at,
        }
    }
}

/// A task as its values. Sub-tasks are carried as they are.
pub struct TaskModel {
    pub id: u64,
    pub description: Seq<char>,
    pub project: Option<Seq<char>>,
    pub priority: Priority,
    pub due_date: Option<CalendarDate>,
    pub completed: bool,
    pub created_at: Timestamp,
    pub sub_tasks: Seq<Task>,
}

impl vstd::view::View for Task {
    type V = TaskModel;

    open spec fn view(&self) -> TaskModel {
        TaskModel {
            id: self.id,
            description: self.description@,
            project: match self.project {
                Some(p) => Some(p@),
                None => None,
            },
            priority: self.priority,
            due_date: self.due_date,
            completed: self.completed,
            created_at: self.created_at,
            sub_tasks: self.sub_tasks@,
        }
    }
}

pub open spec fn notes_view(v: Seq<Note>) -> Seq<NoteModel> {
    v.map_values(|n: Note| n@)
}

pub open spec fn tasks_view(v: Seq<Task>) -> Seq<TaskModel> {
    v.map_values(|t: Task| t@)
}

/// The state that the control loop owns and the reducer changes.
pub struct AppState {
    pub notes: Vec<Note>,
    pub tasks: Vec<Task>,
    pub current_view: View,
    /// The view to go back to when help closes: one level only.
    pub previous_view: Option<View>,
    pub search_query: String,
    pub status_message: String,
    pub running: bool,
    pub dirty: bool,
    pub calendar_year: i32,
    pub calendar_month: u32,
    pub mode: Mode,
    /// The one input line of the command, title and tag modes.
    pub command_input: String,
    pub search_results: Vec<usize>,
    pub selected_note: Option<usize>,
    pub tags: Vec<String>,
    pub selected_tag: Option<usize>,
    pub selected_task: Option<usize>,
    pub active_tag: Option<String>,
    /// The caret, as a character offset into the selected note's body.
    pub cursor_offset: usize,
}

} // verus!
