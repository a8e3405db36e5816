//! From a key press to an operation on the board.

use vstd::prelude::*;
use crate::action::Action;
use crate::app::{App, AppMode};
use crate::model::AppView;

verus! {

/// The key that was pressed, as far as the board tells keys apart.
#[derive(Debug, PartialEq, Eq, Clone, Copy, Structural)]
pub enum KeyCode {
    Backspace,
    Enter,
    Left,
    Right,
    Up,
    Down,
    Char(char),
    Esc,
    /// Any key that the board has no use for.
    Other,
}

/// The modifier keys held down with a key.
#[derive(Debug, PartialEq, Eq, Clone, Copy, Structural)]
pub struct KeyModifiers {
    pub shift: bool,
    pub control: bool,
    pub alt: bool,
    pub super_key: bool,
    pub hyper: bool,
    pub meta: bool,
}

impl KeyModifiers {
    /// Shift is held and no other modifier.
    pub open spec fn only_shift(self) -> bool {
        self.shift && !self.control && !self.alt && !self.super_key && !self.hyper && !self.meta
    }

    /// Control is held and no other modifier.
    pub open spec fn only_control(self) -> bool {
        self.control && !self.shift && !self.alt && !self.super_key && !self.hyper && !self.meta
    }

    /// Whether shift is held and no other modifier.
    pub fn is_shift(&self) -> (held: bool)
        ensures
            held == self.only_shift(),
    {
        self.shift && !self.control && !self.alt && !self.super_key && !self.hyper && !self.meta
    }

    /// Whether control is held and no other modifier.
    pub fn is_control(&self) -> (held: bool)
        ensures
            held == self.only_control(),
    {
        self.control && !self.shift && !self.alt && !self.super_key && !self.hyper && !self.meta
    }
}

/// Whether a key went down, is held down, or came up.
#[derive(Debug, PartialEq, Eq, Clone, Copy, Structural)]
pub enum KeyEventKind {
    Press,
    Repeat,
    Release,
}

/// One event of the keyboard.
#[derive(Debug, PartialEq, Eq, Clone, Copy, Structural)]
pub struct KeyEvent {
    pub code: KeyCode,
    pub modifiers: KeyModifiers,
    pub kind: KeyEventKind,
}

/// What a letter asks for in the main mode. Capital letters act on lists
/// and move cards, and only with shift alone; small letters act on cards and
/// move the cursor, whatever the modifiers; `c` with control alone quits.
pub open spec fn main_letter(c: char, modifiers: KeyModifiers) -> Option<Action> {
    if modifiers.only_shift() && c == 'H' {
        Some(Action::MoveLeft)
    } else if modifiers.only_shift() && c == 'J' {
        Some(Action::MoveDown)
    } else if modifiers.only_shift() && c == 'K' {
        Some(Action::MoveUp)
    } else if modifiers.only_shift() && c == 'L' {
        Some(Action::MoveRight)
    } else if modifiers.only_shift() && c == 'A' {
        Some(Action::AppendList)
    } else if modifiers.only_shift() && c == 'I' {
        Some(Action::PrependList)
    } else if modifiers.only_shift() && c == 'E' {
        Some(Action::EditList)
    } else if modifiers.only_shift() && c == 'X' {
        Some(Action::RemoveList)
    } else if c == 'h' {
        Some(Action::MotionLeft)
    } else if c == 'j' {
        Some(Action::MotionDown)
    } else if c == 'k' {
        Some(Action::MotionUp)
    } else if c == 'l' {
        Some(Action::MotionRight)
    } else if c == 'a' {
        Some(Action::AppendCard)
    } else if c == 'i' {
        Some(Action::PrependCard)
    } else if c == 'e' {
        Some(Action::EditCard)
    } else if c == 'x' {
        Some(Action::RemoveCard)
    } else if c == 'q' {
        Some(Action::Quit)
    } else if modifiers.only_control() && (c == 'c' || c == 'C') {
        Some(Action::Quit)
    } else {
        None
    }
}

/// What a key asks for in the main mode. An arrow moves the cursor, and
/// with shift alone it moves the card under the cursor.
pub open spec fn main_action(code: KeyCode, modifiers: KeyModifiers) -> Option<Action> {
    match code {
        KeyCode::Left => Some(
            if modifiers.only_shift() {
                Action::MoveLeft
            } else {
                Action::MotionLeft
            },
        ),
        KeyCode::Down => Some(
            if modifiers.only_shift() {
                Action::MoveDown
            } else {
                Action::MotionDown
            },
        ),
        KeyCode::Up => Some(
            if modifiers.only_shift() {
                Action::MoveUp
            } else {
                Action::MotionUp
            },
        ),
        KeyCode::Right => Some(
            if modifiers.only_shift() {
                Action::MoveRight
            } else {
                Action::MotionRight
            },
        ),
        KeyCode::Char(c) => main_letter(c, modifiers),
        _ => None,
    }
}

/// What a key asks for during an edit of a card: enter confirms, escape
/// cancels, backspace deletes, and a character is typed.
pub open spec fn card_edit_action(code: KeyCode) -> Option<Action> {
    match code {
        KeyCode::Enter => Some(Action::DoneEditing),
        KeyCode::Esc => Some(Action::CancelCardEdit),
        KeyCode::Backspace => Some(Action::BackspaceCard),
        KeyCode::Char(c) => Some(Action::TypeCard(c)),
        _ => None,
    }
}

/// What a key asks for during an edit of a list's name.
pub open spec fn list_edit_action(code: KeyCode) -> Option<Action> {
    match code {
        KeyCode::Enter => Some(Action::DoneEditing),
        KeyCode::Esc => Some(Action::CancelListEdit),
        KeyCode::Backspace => Some(Action::BackspaceList),
        KeyCode::Char(c) => Some(Action::TypeList(c)),
        _ => None,
    }
}

/// The operation that the event `ev` asks for on a board in mode `mode`,
/// if any. Only a key going down asks for anything.
pub open spec fn action_of(mode: AppMode, ev: KeyEvent) -> Option<Action> {
    if ev.kind != KeyEventKind::Press {
        None
    } else {
        match mode {
            AppMode::Main => main_action(ev.code, ev.modifiers),
            AppMode::CardEdit => card_edit_action(ev.code),
            AppMode::ListEdit => list_edit_action(ev.code),
        }
    }
}

/// The board after the event `ev`.
pub open spec fn after_key(s: AppView, ev: KeyEvent) -> AppView {
    match action_of(s.mode, ev) {
        Some(action) => s.apply(action),
        None => s,
    }
}

/// Picks the operation that `ev` asks for in mode `mode`.
pub fn key_action(mode: AppMode, ev: KeyEvent) -> (action: Option<Action>)
    ensures
        action == action_of(mode, ev),
{
    if ev.kind != KeyEventKind::Press {
        return None;
    }
    let shift = ev.modifiers.is_shift();
    let control = ev.modifiers.is_control();
    match mode {
        AppMode::Main => match ev.code {
            KeyCode::Char('H') if shift => Some(Action::MoveLeft),
            KeyCode::Left if shift => Some(Action::MoveLeft),
            KeyCode::Char('J') if shift => Some(Action::MoveDown),
            KeyCode::Down if shift => Some(Action::MoveDown),
            KeyCode::Char('K') if shift => Some(Action::MoveUp),
            KeyCode::Up if shift => Some(Action::MoveUp),
            KeyCode::Char('L') if shift => Some(Action::MoveRight),
            KeyCode::Right if shift => Some(Action::MoveRight),
            KeyCode::Char('h') | KeyCode::Left => Some(Action::MotionLeft),
            KeyCode::Char('j') | KeyCode::Down => Some(Action::MotionDown),
            KeyCode::Char('k') | KeyCode::Up => Some(Action::MotionUp),
            KeyCode::Char('l') | KeyCode::Right => Some(Action::MotionRight),
            KeyCode::Char('A') if shift => Some(Action::AppendList),
            KeyCode::Char('I') if shift => Some(Action::PrependList),
            KeyCode::Char('E') if shift => Some(Action::EditList),
            KeyCode::Char('X') if shift => Some(Action::RemoveList),
            KeyCode::Char('a') => Some(Action::AppendCard),
            KeyCode::Char('i') => Some(Action::PrependCard),
            KeyCode::Char('e') => Some(Action::EditCard),
            KeyCode::Char('x') => Some(Action::RemoveCard),
            KeyCode::Char('q') => Some(Action::Quit),
            KeyCode::Char('c') if control => Some(Action::Quit),
            KeyCode::Char('C') if control => Some(Action::Quit),
            _ => None,
        },
        AppMode::CardEdit => match ev.code {
            KeyCode::Enter => Some(Action::DoneEditing),
            KeyCode::Esc => Some(Action::CancelCardEdit),
            KeyCode::Backspace => Some(Action::BackspaceCard),
            KeyCode::Char(c) => Some(Action::TypeCard(c)),
            _ => None,
        },
        AppMode::ListEdit => match ev.code {
            KeyCode::Enter => Some(Action::DoneEditing),
            KeyCode::Esc => Some(Action::CancelListEdit),
            KeyCode::Backspace => Some(Action::BackspaceList),
            KeyCode::Char(c) => Some(Action::TypeList(c)),
            _ => None,
        },
    }
}

/// Carries out on `app` what the event `ev` asks for in the board's mode;
/// an event that asks for nothing leaves the board as it is.
pub fn handle_key_events(ev: KeyEvent, app: &mut App)
    requires
        old(app).wf(),
    ensures
        final(app).wf(),
        final(app)@ == after_key(old(app)@, ev),
{
    match key_action(app.mode(), ev) {
        Some(action) => app.apply(action),
        None => {},
    }
}

} // verus!
