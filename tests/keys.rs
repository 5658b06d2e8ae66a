use ratanotes::keys::{classify, Focus, Key, Message};
use ratanotes::state::{Mode, View};

#[test]
fn insert_mode_keys() {
    let c = |k| classify(Mode::Insert, View::NoteEditor, Focus::NoteList, k);
    assert_eq!(c(Key::Esc), Some(Message::EnterNormalMode));
    assert_eq!(c(Key::Enter), Some(Message::NewLine));
    assert_eq!(c(Key::Up), Some(Message::CursorUp));
    assert_eq!(c(Key::Char('q')), Some(Message::Char('q')));
    assert_eq!(c(Key::Backspace), Some(Message::Backspace));
    assert_eq!(c(Key::Tab), None);
}

#[test]
fn text_input_modes_commit_differently() {
    assert_eq!(
        classify(Mode::TitleInput, View::NoteList, Focus::NoteList, Key::Enter),
        Some(Message::SetNoteTitle)
    );
    assert_eq!(
        classify(Mode::TagInput, View::NoteEditor, Focus::NoteList, Key::Enter),
        Some(Message::AddTag)
    );
    assert_eq!(
        classify(Mode::Command, View::Tasks, Focus::NoteList, Key::Enter),
        Some(Message::ExecuteCommand)
    );
    assert_eq!(classify(Mode::Command, View::Tasks, Focus::NoteList, Key::Up), None);
}

#[test]
fn confirmation_modes_take_only_y_n_esc() {
    let d = |k| classify(Mode::ConfirmDeletion, View::NoteList, Focus::NoteList, k);
    assert_eq!(d(Key::Char('y')), Some(Message::ConfirmDelete));
    assert_eq!(d(Key::Char('n')), Some(Message::EnterNormalMode));
    assert_eq!(d(Key::Esc), Some(Message::EnterNormalMode));
    assert_eq!(d(Key::Char('q')), None);
    let q = |k| classify(Mode::ConfirmQuit, View::Tasks, Focus::NoteList, k);
    assert_eq!(q(Key::Char('y')), Some(Message::ForceQuit));
    assert_eq!(q(Key::Enter), None);
}

#[test]
fn search_view_captures_keys() {
    let s = |k| classify(Mode::Normal, View::Search, Focus::NoteList, k);
    assert_eq!(s(Key::Char('q')), Some(Message::Char('q')));
    assert_eq!(s(Key::Esc), Some(Message::ExitSearch));
    assert_eq!(s(Key::Backspace), Some(Message::Backspace));
}

#[test]
fn help_view_captures_keys() {
    let h = |k| classify(Mode::Normal, View::Help, Focus::NoteList, k);
    assert_eq!(h(Key::Char('?')), Some(Message::ToggleHelp));
    assert_eq!(h(Key::Esc), Some(Message::ToggleHelp));
    assert_eq!(h(Key::Char('q')), None);
}

#[test]
fn focus_decides_note_list_bindings() {
    assert_eq!(
        classify(Mode::Normal, View::NoteList, Focus::NoteList, Key::Char('j')),
        Some(Message::NextNote)
    );
    assert_eq!(
        classify(Mode::Normal, View::NoteList, Focus::TagList, Key::Char('j')),
        Some(Message::NextTag)
    );
    assert_eq!(
        classify(Mode::Normal, View::NoteList, Focus::TagList, Key::Enter),
        Some(Message::SelectTag)
    );
    assert_eq!(
        classify(Mode::Normal, View::NoteList, Focus::TagList, Key::Tab),
        Some(Message::ToggleFocus)
    );
    assert_eq!(
        classify(Mode::Normal, View::NoteList, Focus::TagList, Key::Char('a')),
        None
    );
}

#[test]
fn view_bindings_come_before_global_ones() {
    assert_eq!(
        classify(Mode::Normal, View::Tasks, Focus::NoteList, Key::Char('d')),
        Some(Message::DeleteTask)
    );
    assert_eq!(
        classify(Mode::Normal, View::Tasks, Focus::NoteList, Key::Char('q')),
        Some(Message::Quit)
    );
    assert_eq!(
        classify(Mode::Normal, View::Calendar, Focus::NoteList, Key::Left),
        Some(Message::PreviousMonth)
    );
    assert_eq!(
        classify(Mode::Normal, View::NoteEditor, Focus::NoteList, Key::Char(':')),
        Some(Message::EnterCommandMode)
    );
    assert_eq!(
        classify(Mode::Normal, View::NoteEditor, Focus::NoteList, Key::Char('T')),
        Some(Message::SwitchToTasks)
    );
    assert_eq!(classify(Mode::Normal, View::Calendar, Focus::NoteList, Key::Char('x')), None);
}
