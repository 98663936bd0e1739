use vstd::prelude::*;

use crate::session::{CurrentArea, Message};

verus! {

/// A key that the user pressed.
#[derive(Clone, Copy, Debug, PartialEq, Eq, Structural)]
pub enum KeyCode {
    Char(char),
    Up,
    Down,
    Left,
    Right,
    Enter,
    Esc,
    Backspace,
    /// Any other key.
    Other,
}

/// What the user did with the mouse.
#[derive(Clone, Copy, Debug, PartialEq, Eq, Structural)]
pub enum MouseInput {
    ScrollUp,
    ScrollDown,
    /// The left button went down at a column and a row.
    LeftClick(u16, u16),
    /// Anything else.
    Other,
}

/// The message for a key typed into a text popup.
pub open spec fn text_key_message(key: KeyCode, confirm: Message, cancel: Message) -> Option<Message> {
    match key {
        KeyCode::Enter => Some(confirm),
        KeyCode::Esc => Some(cancel),
        KeyCode::Backspace => Some(Message::Backspace),
        KeyCode::Left => Some(Message::CursorLeft),
        KeyCode::Right => Some(Message::CursorRight),
        KeyCode::Char(c) => Some(Message::TypeChar(c)),
        _ => None,
    }
}

/// The message for a yes-or-no question.
pub open spec fn answer_message(key: KeyCode, yes: Message, no: Message) -> Option<Message> {
    match key {
        KeyCode::Char(c) => if c == 'y' || c == 'Y' {
            Some(yes)
        } else if c == 'n' || c == 'N' {
            Some(no)
        } else {
            None
        },
        _ => None,
    }
}

/// The message for a key pressed in one of the two lists.
pub open spec fn list_key_message(key: KeyCode, area: CurrentArea) -> Option<Message> {
    match key {
        KeyCode::Up => Some(Message::ListPrevious),
        KeyCode::Down => Some(Message::ListNext),
        KeyCode::Left => Some(Message::Back),
        KeyCode::Right | KeyCode::Enter => Some(Message::Select),
        KeyCode::Char(c) => if c == 'r' {
            Some(Message::Refresh)
        } else if area != CurrentArea::Pages {
            None
        } else if c == 'n' {
            Some(Message::NewPage)
        } else if c == 'd' {
            Some(Message::DeletePage)
        } else if c == 's' || c == '/' {
            Some(Message::StartSearch)
        } else if c == 'p' {
            Some(Message::TogglePreview)
        } else if c == 'o' {
            Some(Message::StartSort)
        } else if c == 't' {
            Some(Message::UpdateTitle)
        } else {
            None
        },
        _ => None,
    }
}

/// The message that a key sends in `area`: `q` exits and `?` shows or hides
/// the help line everywhere; other keys depend on the area.
pub open spec fn key_message(key: KeyCode, area: CurrentArea) -> Option<Message> {
    if key == KeyCode::Char('q') {
        Some(Message::Exit)
    } else if key == KeyCode::Char('?') {
        Some(Message::ToggleHelp)
    } else {
        match area {
            CurrentArea::Spaces | CurrentArea::Pages => list_key_message(key, area),
            CurrentArea::SavePopup => answer_message(key, Message::ConfirmSave, Message::RejectSave),
            CurrentArea::NewPagePopup => text_key_message(
                key,
                Message::SaveNewPage,
                Message::CancelNewPage,
            ),
            CurrentArea::DeletePopup => answer_message(
                key,
                Message::ConfirmDeletePage,
                Message::CancelDeletePage,
            ),
            CurrentArea::SearchPopup => text_key_message(
                key,
                Message::ConfirmSearch,
                Message::CancelSearch,
            ),
            CurrentArea::SortPopup => match key {
                KeyCode::Enter => Some(Message::ConfirmSort),
                KeyCode::Esc => Some(Message::CancelSort),
                KeyCode::Up => Some(Message::ListPrevious),
                KeyCode::Down => Some(Message::ListNext),
                KeyCode::Char(c) => if c == 'd' {
                    Some(Message::ToggleSortDir)
                } else {
                    None
                },
                _ => None,
            },
            CurrentArea::TitlePopup => text_key_message(
                key,
                Message::ConfirmTitle,
                Message::CancelTitle,
            ),
        }
    }
}

/// The message that a mouse action sends in `area`: only the two lists take
/// the mouse.
pub open spec fn mouse_message(m: MouseInput, area: CurrentArea) -> Option<Message> {
    match area {
        CurrentArea::Spaces | CurrentArea::Pages => match m {
            MouseInput::ScrollUp => Some(Message::ListPrevious),
            MouseInput::ScrollDown => Some(Message::ListNext),
            MouseInput::LeftClick(x, y) => Some(Message::MouseSelect(x, y)),
            MouseInput::Other => None,
        },
        _ => None,
    }
}

fn text_key(key: KeyCode, confirm: Message, cancel: Message) -> (r: Option<Message>)
    ensures
        r == text_key_message(key, confirm, cancel),
{
    match key {
        KeyCode::Enter => Some(confirm),
        KeyCode::Esc => Some(cancel),
        KeyCode::Backspace => Some(Message::Backspace),
        KeyCode::Left => Some(Message::CursorLeft),
        KeyCode::Right => Some(Message::CursorRight),
        KeyCode::Char(c) => Some(Message::TypeChar(c)),
        _ => None,
    }
}

fn answer_key(key: KeyCode, yes: Message, no: Message) -> (r: Option<Message>)
    ensures
        r == answer_message(key, yes, no),
{
    match key {
        KeyCode::Char(c) => if c == 'y' || c == 'Y' {
            Some(yes)
        } else if c == 'n' || c == 'N' {
            Some(no)
        } else {
            None
        },
        _ => None,
    }
}

fn list_key(key: KeyCode, area: CurrentArea) -> (r: Option<Message>)
    ensures
        r == list_key_message(key, area),
{
    match key {
        KeyCode::Up => Some(Message::ListPrevious),
        KeyCode::Down => Some(Message::ListNext),
        KeyCode::Left => Some(Message::Back),
        KeyCode::Right | KeyCode::Enter => Some(Message::Select),
        KeyCode::Char(c) => if c == 'r' {
            Some(Message::Refresh)
        } else if area != CurrentArea::Pages {
            None
        } else if c == 'n' {
            Some(Message::NewPage)
        } else if c == 'd' {
            Some(Message::DeletePage)
        } else if c == 's' || c == '/' {
            Some(Message::StartSearch)
        } else if c == 'p' {
            Some(Message::TogglePreview)
        } else if c == 'o' {
            Some(Message::StartSort)
        } else if c == 't' {
            Some(Message::UpdateTitle)
        } else {
            None
        },
        _ => None,
    }
}

/// The message that a key sends in `area`, if any.
pub fn handle_key_event(key: KeyCode, area: &CurrentArea) -> (r: Option<Message>)
    ensures
        r == key_message(key, *area),
{
    if key == KeyCode::Char('q') {
        return Some(Message::Exit);
    }
    if key == KeyCode::Char('?') {
        return Some(Message::ToggleHelp);
    }
    match *area {
        CurrentArea::Spaces | CurrentArea::Pages => list_key(key, *area),
        CurrentArea::SavePopup => answer_key(key, Message::ConfirmSave, Message::RejectSave),
        CurrentArea::NewPagePopup => text_key(key, Message::SaveNewPage, Message::CancelNewPage),
        CurrentArea::DeletePopup => answer_key(
            key,
            Message::ConfirmDeletePage,
            Message::CancelDeletePage,
        ),
        CurrentArea::SearchPopup => text_key(key, Message::ConfirmSearch, Message::CancelSearch),
        CurrentArea::SortPopup => match key {
            KeyCode::Enter => Some(Message::ConfirmSort),
            KeyCode::Esc => Some(Message::CancelSort),
            KeyCode::Up => Some(Message::ListPrevious),
            KeyCode::Down => Some(Message::ListNext),
            KeyCode::Char(c) => if c == 'd' {
                Some(Message::ToggleSortDir)
            } else {
                None
            },
            _ => None,
        },
        CurrentArea::TitlePopup => text_key(key, Message::ConfirmTitle, Message::CancelTitle),
    }
}

/// The message that a mouse action sends in `area`, if any.
pub fn handle_mouse_event(m: MouseInput, area: &CurrentArea) -> (r: Option<Message>)
    ensures
        r == mouse_message(m, *area),
{
    match *area {
        CurrentArea::Spaces | CurrentArea::Pages => match m {
            MouseInput::ScrollUp => Some(Message::ListPrevious),
            MouseInput::ScrollDown => Some(Message::ListNext),
            MouseInput::LeftClick(x, y) => Some(Message::MouseSelect(x, y)),
            MouseInput::Other => None,
        },
        _ => None,
    }
}

/// `q` exits from every area.
pub proof fn lemma_q_exits_everywhere(area: CurrentArea)
    ensures
        key_message(KeyCode::Char('q'), area) == Some(Message::Exit),
{
}

} // verus!
