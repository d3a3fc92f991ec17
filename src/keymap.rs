use vstd::prelude::*;

verus! {

/// The modifier keys held with a key.
#[derive(Debug, PartialEq, Eq, Structural, Clone, Copy)]
pub struct Modifiers {
    pub control: bool,
    pub shift: bool,
    pub alt: bool,
}

/// A key, as the terminal reports it.
#[derive(Debug, PartialEq, Eq, Structural, Clone, Copy)]
pub enum KeyCode {
    Char(char),
    Enter,
    Tab,
    BackTab,
    Backspace,
    Left,
    Right,
    Esc,
}

/// One key press.
#[derive(Debug, PartialEq, Eq, Structural, Clone, Copy)]
pub struct KeyEvent {
    pub code: KeyCode,
    pub modifiers: Modifiers,
}

/// The editing style chosen at startup.
#[derive(Debug, PartialEq, Eq, Structural, Clone, Copy)]
pub enum EditStyle {
    /// A single, non-modal mode.
    Emacs,
    /// Modal editing with an insert and a normal mode.
    Vi,
}

/// The active editing mode. Under the non-modal style it is always `Insert`.
#[derive(Debug, PartialEq, Eq, Structural, Clone, Copy)]
pub enum Mode {
    Insert,
    Normal,
}

/// The overlay menus.
#[derive(Debug, PartialEq, Eq, Structural, Clone, Copy)]
pub enum MenuKind {
    Completion,
    History,
}

/// What a key is bound to.
#[derive(Debug, PartialEq, Eq, Structural, Clone, Copy)]
pub enum Action {
    InsertChar(char),
    DeleteBack,
    MoveLeft,
    MoveRight,
    /// A soft line break inside the same input.
    InsertNewline,
    /// Submit the line.
    Submit,
    /// Abandon the line.
    Cancel,
    /// End of input.
    EndOfInput,
    EnterNormal,
    EnterInsert,
    /// Open the completion menu, or else complete inline.
    CompletionMenuOrComplete,
    /// Open the history menu, or else show its next page.
    HistoryMenuOrNextPage,
    MenuPreviousPage,
    MenuPrevious,
    Unbound,
}

pub open spec fn no_modifiers() -> Modifiers {
    Modifiers { control: false, shift: false, alt: false }
}

/// Whether a character is typed as text (it is no control character).
pub open spec fn is_printable(c: char) -> bool {
    !(c <= '\u{1f}' || c == '\u{7f}')
}

/// Whether `ev` is a printable character typed with no modifier but shift.
pub open spec fn is_plain_char(ev: KeyEvent) -> bool {
    match ev.code {
        KeyCode::Char(c) => is_printable(c) && !ev.modifiers.control && !ev.modifiers.alt,
        _ => false,
    }
}

/// The keybinding table: one action for each style, mode and key.
pub open spec fn binding(style: EditStyle, mode: Mode, ev: KeyEvent) -> Action {
    let m = ev.modifiers;
    let typing = style == EditStyle::Emacs || mode == Mode::Insert;
    match ev.code {
        KeyCode::Char(c) => {
            if m.control && !m.alt && (c == 'x' || c == 'X') {
                if m.shift {
                    Action::MenuPreviousPage
                } else {
                    Action::HistoryMenuOrNextPage
                }
            } else if m.control && !m.alt && !m.shift && c == 'c' {
                Action::Cancel
            } else if m.control && !m.alt && !m.shift && c == 'd' {
                Action::EndOfInput
            } else if typing {
                if is_plain_char(ev) {
                    Action::InsertChar(c)
                } else {
                    Action::Unbound
                }
            } else if m == no_modifiers() {
                if c == 'i' {
                    Action::EnterInsert
                } else if c == 'h' {
                    Action::MoveLeft
                } else if c == 'l' {
                    Action::MoveRight
                } else {
                    Action::Unbound
                }
            } else {
                Action::Unbound
            }
        },
        KeyCode::Enter => {
            if m == (Modifiers { control: false, shift: false, alt: true }) {
                if typing {
                    Action::InsertNewline
                } else {
                    Action::Unbound
                }
            } else if m == no_modifiers() {
                Action::Submit
            } else {
                Action::Unbound
            }
        },
        KeyCode::Tab => {
            if m == no_modifiers() {
                Action::CompletionMenuOrComplete
            } else {
                Action::Unbound
            }
        },
        KeyCode::BackTab => {
            if m == (Modifiers { control: false, shift: true, alt: false }) {
                Action::MenuPrevious
            } else {
                Action::Unbound
            }
        },
        KeyCode::Backspace => {
            if typing {
                Action::DeleteBack
            } else {
                Action::MoveLeft
            }
        },
        KeyCode::Left => Action::MoveLeft,
        KeyCode::Right => Action::MoveRight,
        KeyCode::Esc => {
            if style == EditStyle::Vi && mode == Mode::Insert {
                Action::EnterNormal
            } else {
                Action::Unbound
            }
        },
    }
}

/// Whether `c` is a control character.
pub fn is_control_char(c: char) -> (r: bool)
    ensures
        r == !is_printable(c),
{
    c <= '\u{1f}' || c == '\u{7f}'
}

/// Looks up the action bound to `ev`.
pub fn lookup(style: EditStyle, mode: Mode, ev: KeyEvent) -> (r: Action)
    ensures
        r == binding(style, mode, ev),
{
    let m = ev.modifiers;
    let typing = style == EditStyle::Emacs || mode == Mode::Insert;
    let none = !m.control && !m.shift && !m.alt;
    match ev.code {
        KeyCode::Char(c) => {
            if m.control && !m.alt && (c == 'x' || c == 'X') {
                if m.shift {
                    Action::MenuPreviousPage
                } else {
                    Action::HistoryMenuOrNextPage
                }
            } else if m.control && !m.alt && !m.shift && c == 'c' {
                Action::Cancel
            } else if m.control && !m.alt && !m.shift && c == 'd' {
                Action::EndOfInput
            } else if typing {
                if !is_control_char(c) && !m.control && !m.alt {
                    Action::InsertChar(c)
                } else {
                    Action::Unbound
                }
            } else if none {
                if c == 'i' {
                    Action::EnterInsert
                } else if c == 'h' {
                    Action::MoveLeft
                } else if c == 'l' {
                    Action::MoveRight
                } else {
                    Action::Unbound
                }
            } else {
                Action::Unbound
            }
        },
        KeyCode::Enter => {
            if !m.control && !m.shift && m.alt {
                if typing {
                    Action::InsertNewline
                } else {
                    Action::Unbound
                }
            } else if none {
                Action::Submit
            } else {
                Action::Unbound
            }
        },
        KeyCode::Tab => {
            if none {
                Action::CompletionMenuOrComplete
            } else {
                Action::Unbound
            }
        },
        KeyCode::BackTab => {
            if !m.control && m.shift && !m.alt {
                Action::MenuPrevious
            } else {
                Action::Unbound
            }
        },
        KeyCode::Backspace => {
            if typing {
                Action::DeleteBack
            } else {
                Action::MoveLeft
            }
        },
        KeyCode::Left => Action::MoveLeft,
        KeyCode::Right => Action::MoveRight,
        KeyCode::Esc => {
            if style == EditStyle::Vi && mode == Mode::Insert {
                Action::EnterNormal
            } else {
                Action::Unbound
            }
        },
    }
}

/// A soft line break and a submit are never bound to the same key.
pub proof fn newline_and_submit_differ(style: EditStyle, mode: Mode, ev: KeyEvent)
    ensures
        binding(style, mode, ev) == Action::InsertNewline ==> ev.modifiers.alt,
        binding(style, mode, ev) == Action::Submit ==> !ev.modifiers.alt,
{
}

} // verus!
