//! Classification of one key press into at most one message, by mode, view
//! and focus, with strict precedence.
use vstd::prelude::*;
use crate::state::{Mode, View};

verus! {

/// Which list of the note-list screen takes the keys.
#[derive(Clone, Copy, Debug, PartialEq, Eq, Structural)]
pub enum Focus {
    NoteList,
    TagList,
}

/// A key press, as far as classification tells keys apart.
#[derive(Clone, Copy, Debug, PartialEq, Eq, Structural)]
pub enum Key {
    Char(char),
    Enter,
    Esc,
    Backspace,
    Tab,
    Left,
    Right,
    Up,
    Down,
    Other,
}

/// What a key press asks the application to do.
#[derive(Clone, Copy, Debug, PartialEq, Eq, Structural)]
pub enum Message {
    Quit,
    ForceQuit,
    SwitchToNoteList,
    SwitchToCalendar,
    SwitchToTasks,
    PreviousMonth,
    NextMonth,
    Save,
    Char(char),
    Backspace,
    EnterSearch,
    ExitSearch,
    PreviousNote,
    NextNote,
    OpenNote,
    NewNote,
    RenameNote,
    SetNoteTitle,
    DeleteNote,
    ConfirmDelete,
    ToggleHelp,
    ToggleFocus,
    PreviousTag,
    NextTag,
    SelectTag,
    NewLine,
    PreviousTask,
    NextTask,
    ToggleTaskComplete,
    NewTask,
    DeleteTask,
    CursorLeft,
    CursorRight,
    CursorUp,
    CursorDown,
    EnterTagInput,
    AddTag,
    EnterInsertMode,
    EnterNormalMode,
    EnterCommandMode,
    ExecuteCommand,
}

/// The keys of a text-input mode: characters are typed, Backspace erases,
/// Enter commits with `commit`, Esc cancels.
pub open spec fn text_input_spec(key: Key, commit: Message) -> Option<Message> {
    match key {
        Key::Esc => Some(Message::EnterNormalMode),
        Key::Enter => Some(commit),
        Key::Char(c) => Some(Message::Char(c)),
        Key::Backspace => Some(Message::Backspace),
        _ => None,
    }
}

/// The keys of a confirmation mode: `y` confirms with `yes`, `n` and Esc
/// cancel.
pub open spec fn confirm_spec(key: Key, yes: Message) -> Option<Message> {
    match key {
        Key::Char('y') => Some(yes),
        Key::Char('n') | Key::Esc => Some(Message::EnterNormalMode),
        _ => None,
    }
}

/// The table of a mode other than Normal.
pub open spec fn mode_spec(mode: Mode, key: Key) -> Option<Message> {
    match mode {
        Mode::Insert => match key {
            Key::Enter => Some(Message::NewLine),
            Key::Left => Some(Message::CursorLeft),
            Key::Right => Some(Message::CursorRight),
            Key::Up => Some(Message::CursorUp),
            Key::Down => Some(Message::CursorDown),
            _ => text_input_spec(key, Message::NewLine),
        },
        Mode::TitleInput => text_input_spec(key, Message::SetNoteTitle),
        Mode::TagInput => text_input_spec(key, Message::AddTag),
        Mode::Command => text_input_spec(key, Message::ExecuteCommand),
        Mode::ConfirmDeletion => confirm_spec(key, Message::ConfirmDelete),
        Mode::ConfirmQuit => confirm_spec(key, Message::ForceQuit),
        Mode::Normal => None,
    }
}

/// The bindings of a view (and, on the note list, of the focused list) in
/// Normal mode.
pub open spec fn view_spec(view: View, focus: Focus, key: Key) -> Option<Message> {
    match view {
        View::NoteList => match (key, focus) {
            (Key::Tab, _) => Some(Message::ToggleFocus),
            (Key::Char('j'), Focus::NoteList) | (Key::Down, Focus::NoteList) => Some(
                Message::NextNote,
            ),
            (Key::Char('k'), Focus::NoteList) | (Key::Up, Focus::NoteList) => Some(
                Message::PreviousNote,
            ),
            (Key::Enter, Focus::NoteList) => Some(Message::OpenNote),
            (Key::Char('a'), Focus::NoteList) => Some(Message::NewNote),
            (Key::Char('r'), Focus::NoteList) => Some(Message::RenameNote),
            (Key::Char('d'), Focus::NoteList) => Some(Message::DeleteNote),
            (Key::Char('j'), Focus::TagList) | (Key::Down, Focus::TagList) => Some(
                Message::NextTag,
            ),
            (Key::Char('k'), Focus::TagList) | (Key::Up, Focus::TagList) => Some(
                Message::PreviousTag,
            ),
            (Key::Enter, Focus::TagList) => Some(Message::SelectTag),
            _ => None,
        },
        View::NoteEditor => match key {
            Key::Char('t') => Some(Message::EnterTagInput),
            Key::Char('i') => Some(Message::EnterInsertMode),
            Key::Char('r') => Some(Message::RenameNote),
            Key::Esc => Some(Message::SwitchToNoteList),
            _ => None,
        },
        View::Calendar => match key {
            Key::Left => Some(Message::PreviousMonth),
            Key::Right => Some(Message::NextMonth),
            _ => None,
        },
        View::Tasks => match key {
            Key::Char('j') | Key::Down => Some(Message::NextTask),
            Key::Char('k') | Key::Up => Some(Message::PreviousTask),
            Key::Char('a') => Some(Message::NewTask),
            Key::Char('d') => Some(Message::DeleteTask),
            Key::Char(' ') => Some(Message::ToggleTaskComplete),
            _ => None,
        },
        _ => None,
    }
}

/// The bindings that hold in Normal mode on every screen that does not
/// capture the keys.
pub open spec fn global_spec(key: Key) -> Option<Message> {
    match key {
        Key::Char(':') => Some(Message::EnterCommandMode),
        Key::Char('/') => Some(Message::EnterSearch),
        Key::Char('?') => Some(Message::ToggleHelp),
        Key::Char('q') => Some(Message::Quit),
        Key::Char('n') => Some(Message::SwitchToNoteList),
        Key::Char('c') => Some(Message::SwitchToCalendar),
        Key::Char('T') => Some(Message::SwitchToTasks),
        _ => None,
    }
}

/// The message of a key press: the mode's table outside Normal mode; the
/// search and help screens capture every key; then the view's bindings;
/// then the global ones.
pub open spec fn classify_spec(mode: Mode, view: View, focus: Focus, key: Key) -> Option<Message> {
    if mode != Mode::Normal {
        mode_spec(mode, key)
    } else if view == View::Search {
        match key {
            Key::Esc => Some(Message::ExitSearch),
            Key::Char(c) => Some(Message::Char(c)),
            Key::Backspace => Some(Message::Backspace),
            _ => None,
        }
    } else if view == View::Help {
        match key {
            Key::Char('?') | Key::Esc => Some(Message::ToggleHelp),
            _ => None,
        }
    } else {
        match view_spec(view, focus, key) {
            Some(m) => Some(m),
            None => global_spec(key),
        }
    }
}

fn text_input(key: Key, commit: Message) -> (r: Option<Message>)
    ensures
        r == text_input_spec(key, commit),
{
    match key {
        Key::Esc => Some(Message::EnterNormalMode),
        Key::Enter => Some(commit),
        Key::Char(c) => Some(Message::Char(c)),
        Key::Backspace => Some(Message::Backspace),
        _ => None,
    }
}

fn confirm(key: Key, yes: Message) -> (r: Option<Message>)
    ensures
        r == confirm_spec(key, yes),
{
    match key {
        Key::Char('y') => Some(yes),
        Key::Char('n') | Key::Esc => Some(Message::EnterNormalMode),
        _ => None,
    }
}

fn view_binding(view: View, focus: Focus, key: Key) -> (r: Option<Message>)
    ensures
        r == view_spec(view, focus, key),
{
    match view {
        View::NoteList => match (key, focus) {
            (Key::Tab, _) => Some(Message::ToggleFocus),
            (Key::Char('j'), Focus::NoteList) | (Key::Down, Focus::NoteList) => Some(
                Message::NextNote,
            ),
            (Key::Char('k'), Focus::NoteList) | (Key::Up, Focus::NoteList) => Some(
                Message::PreviousNote,
            ),
            (Key::Enter, Focus::NoteList) => Some(Message::OpenNote),
            (Key::Char('a'), Focus::NoteList) => Some(Message::NewNote),
            (Key::Char('r'), Focus::NoteList) => Some(Message::RenameNote),
            (Key::Char('d'), Focus::NoteList) => Some(Message::DeleteNote),
            (Key::Char('j'), Focus::TagList) | (Key::Down, Focus::TagList) => Some(
                Message::NextTag,
            ),
            (Key::Char('k'), Focus::TagList) | (Key::Up, Focus::TagList) => Some(
                Message::PreviousTag,
            ),
            (Key::Enter, Focus::TagList) => Some(Message::SelectTag),
            _ => None,
        },
        View::NoteEditor => match key {
            Key::Char('t') => Some(Message::EnterTagInput),
            Key::Char('i') => Some(Message::EnterInsertMode),
            Key::Char('r') => Some(Message::RenameNote),
            Key::Esc => Some(Message::SwitchToNoteList),
            _ => None,
        },
        View::Calendar => match key {
            Key::Left => Some(Message::PreviousMonth),
            Key::Right => Some(Message::NextMonth),
            _ => None,
        },
        View::Tasks => match key {
            Key::Char('j') | Key::Down => Some(Message::NextTask),
            Key::Char('k') | Key::Up => Some(Message::PreviousTask),
            Key::Char('a') => Some(Message::NewTask),
            Key::Char('d') => Some(Message::DeleteTask),
            Key::Char(' ') => Some(Message::ToggleTaskComplete),
            _ => None,
        },
        _ => None,
    }
}

fn global_binding(key: Key) -> (r: Option<Message>)
    ensures
        r == global_spec(key),
{
    match key {
        Key::Char(':') => Some(Message::EnterCommandMode),
        Key::Char('/') => Some(Message::EnterSearch),
        Key::Char('?') => Some(Message::ToggleHelp),
        Key::Char('q') => Some(Message::Quit),
        Key::Char('n') => Some(Message::SwitchToNoteList),
        Key::Char('c') => Some(Message::SwitchToCalendar),
        Key::Char('T') => Some(Message::SwitchToTasks),
        _ => None,
    }
}

/// Classifies one key press; `None` where no binding matches. Nothing is
/// changed.
pub fn classify(mode: Mode, view: View, focus: Focus, key: Key) -> (r: Option<Message>)
    ensures
        r == classify_spec(mode, view, focus, key),
{
    match mode {
        Mode::Insert => match key {
            Key::Enter => Some(Message::NewLine),
            Key::Left => Some(Message::CursorLeft),
            Key::Right => Some(Message::CursorRight),
            Key::Up => Some(Message::CursorUp),
            Key::Down => Some(Message::CursorDown),
            _ => text_input(key, Message::NewLine),
        },
        Mode::TitleInput => text_input(key, Message::SetNoteTitle),
        Mode::TagInput => text_input(key, Message::AddTag),
        Mode::Command => text_input(key, Message::ExecuteCommand),
        Mode::ConfirmDeletion => confirm(key, Message::ConfirmDelete),
        Mode::ConfirmQuit => confirm(key, Message::ForceQuit),
        Mode::Normal => {
            if view == View::Search {
                match key {
                    Key::Esc => Some(Message::ExitSearch),
                    Key::Char(c) => Some(Message::Char(c)),
                    Key::Backspace => Some(Message::Backspace),
                    _ => None,
                }
            } else if view == View::Help {
                match key {
                    Key::Char('?') | Key::Esc => Some(Message::ToggleHelp),
                    _ => None,
                }
            } else {
                match view_binding(view, focus, key) {
                    Some(m) => Some(m),
                    None => global_binding(key),
                }
            }
        },
    }
}

/// Confirmation modes take no key but `y`, `n` and Esc.
pub proof fn lemma_confirm_modes_take_three_keys(mode: Mode, view: View, focus: Focus, key: Key)
    requires
        mode == Mode::ConfirmDeletion || mode == Mode::ConfirmQuit,
        classify_spec(mode, view, focus, key) is Some,
    ensures
        key == Key::Char('y') || key == Key::Char('n') || key == Key::Esc,
{
}

} // verus!
