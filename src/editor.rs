use vstd::prelude::*;
use crate::buffer::EditBuffer;
use crate::completion::{complete, completion_effect, CompletionOutcome};
use crate::text::views;
use crate::keymap::{binding, is_plain_char, lookup, Action, EditStyle, KeyCode, KeyEvent, MenuKind, Mode};

verus! {

/// What one key event did.
#[derive(Debug, PartialEq, Eq, Structural, Clone, Copy)]
pub enum EditOutcome {
    BufferChanged,
    ModeChanged,
    MenuRequested(MenuKind),
    /// The active menu moved its selection or its page.
    MenuMoved,
    LineFinalized,
    LineCanceled,
    EndOfInput,
    NoOp,
}

/// The mode controller: the line being edited, the active mode, and the
/// menu overlay with its selection.
pub struct Editor {
    pub buf: EditBuffer,
    pub style: EditStyle,
    pub mode: Mode,
    pub menu: Option<MenuKind>,
    pub menu_index: usize,
    pub menu_page: usize,
}

/// The characters of a run of character key events.
pub open spec fn typed_chars(events: Seq<KeyEvent>) -> Seq<char> {
    events.map_values(
        |e: KeyEvent|
            match e.code {
                KeyCode::Char(c) => c,
                _ => ' ',
            },
    )
}

impl Editor {
    /// The buffer is well formed, and the non-modal style never leaves insert mode.
    pub open spec fn wf(&self) -> bool {
        &&& self.buf.wf()
        &&& self.style == EditStyle::Emacs ==> self.mode == Mode::Insert
    }

    /// Whether typed characters go into the buffer in the current mode.
    pub open spec fn typing(&self) -> bool {
        self.style == EditStyle::Emacs || self.mode == Mode::Insert
    }

    /// An empty line in insert mode, with no menu open.
    pub fn new(style: EditStyle) -> (r: Editor)
        ensures
            r.wf(),
            r.buf.chars@.len() == 0,
            r.buf.cursor == 0,
            r.style == style,
            r.mode == Mode::Insert,
            r.menu.is_none(),
    {
        Editor {
            buf: EditBuffer::new(),
            style,
            mode: Mode::Insert,
            menu: None,
            menu_index: 0,
            menu_page: 0,
        }
    }

    /// Starts a new line: the buffer is emptied and the menu closed; the
    /// mode is kept.
    pub fn reset(&mut self)
        requires
            old(self).wf(),
        ensures
            final(self).wf(),
            final(self).buf.chars@.len() == 0,
            final(self).buf.cursor == 0,
            final(self).style == old(self).style,
            final(self).mode == old(self).mode,
            final(self).menu.is_none(),
    {
        self.buf.clear();
        self.menu = None;
        self.menu_index = 0;
        self.menu_page = 0;
    }

    /// Applies one key event through the keybinding table.
    pub fn apply(
        &mut self,
        ev: KeyEvent,
        words: &Vec<Vec<char>>,
        observed: &Vec<Vec<char>>,
        min_len: usize,
    ) -> (r: EditOutcome)
        requires
            old(self).wf(),
        ensures
            final(self).wf(),
            final(self).style == old(self).style,
            ({
                let a = binding(old(self).style, old(self).mode, ev);
                let s = old(self).buf.chars@;
                let cur = old(self).buf.cursor;
                &&& a is InsertChar && s.len() + 1 < usize::MAX ==> r == EditOutcome::BufferChanged
                    && final(self).buf.chars@ == s.insert(cur as int, a->InsertChar_0)
                    && final(self).buf.cursor == cur + 1 && final(self).mode == old(self).mode
                    && final(self).menu.is_none()
                &&& a is InsertNewline && s.len() + 1 < usize::MAX ==> r
                    == EditOutcome::BufferChanged && final(self).buf.chars@ == s.insert(
                    cur as int,
                    '\n',
                ) && final(self).buf.cursor == cur + 1 && final(self).menu.is_none()
                &&& (a is InsertChar || a is InsertNewline) && s.len() + 1 >= usize::MAX ==> r
                    == EditOutcome::NoOp && *final(self) == *old(self)
                &&& a is DeleteBack ==> r == EditOutcome::BufferChanged && final(self).buf.chars@ == (
                if cur > 0 {
                    s.remove(cur - 1)
                } else {
                    s
                }) && final(self).buf.cursor == (if cur > 0 {
                    cur - 1
                } else {
                    0
                }) && final(self).menu.is_none() && final(self).mode == old(self).mode
                &&& a is MoveLeft ==> r == EditOutcome::BufferChanged && final(self).buf.chars@ == s
                    && final(self).buf.cursor == (if cur > 0 {
                    cur - 1
                } else {
                    0
                }) && final(self).menu.is_none() && final(self).mode == old(self).mode
                &&& a is MoveRight ==> r == EditOutcome::BufferChanged && final(self).buf.chars@
                    == s && final(self).buf.cursor == (if cur < s.len() {
                    cur + 1
                } else {
                    cur as int
                }) && final(self).menu.is_none() && final(self).mode == old(self).mode
                &&& a is Submit ==> r == EditOutcome::LineFinalized && final(self).buf
                    == old(self).buf && final(self).menu.is_none()
                &&& a is Cancel ==> r == EditOutcome::LineCanceled && final(self).buf.chars@.len()
                    == 0 && final(self).buf.cursor == 0 && final(self).menu.is_none()
                &&& a is EndOfInput ==> r == EditOutcome::EndOfInput && final(self).buf
                    == old(self).buf
                &&& a is EnterNormal ==> r == EditOutcome::ModeChanged && final(self).mode
                    == Mode::Normal && final(self).buf == old(self).buf
                &&& a is EnterInsert ==> r == EditOutcome::ModeChanged && final(self).mode
                    == Mode::Insert && final(self).buf == old(self).buf
                &&& a is CompletionMenuOrComplete && old(self).menu == Some(MenuKind::Completion)
                    ==> r == EditOutcome::MenuMoved && final(self).buf == old(self).buf
                &&& a is CompletionMenuOrComplete && old(self).menu != Some(MenuKind::Completion)
                    ==> final(self).mode == old(self).mode && (r == EditOutcome::NoOp
                    || r == EditOutcome::BufferChanged || r == EditOutcome::MenuRequested(
                    MenuKind::Completion,
                )) && (r == EditOutcome::MenuRequested(MenuKind::Completion) <==> final(self).menu
                    == Some(MenuKind::Completion)) && completion_effect(
                    old(self).buf,
                    final(self).buf,
                    views(words@) + views(observed@),
                    min_len as nat,
                    if r == EditOutcome::NoOp {
                        CompletionOutcome::NoMatch
                    } else if r == EditOutcome::BufferChanged {
                        CompletionOutcome::Completed
                    } else {
                        CompletionOutcome::MenuRequested
                    },
                )
                &&& a is HistoryMenuOrNextPage && old(self).menu.is_none() ==> r
                    == EditOutcome::MenuRequested(MenuKind::History) && final(self).menu == Some(
                    MenuKind::History,
                ) && final(self).buf == old(self).buf
                &&& a is HistoryMenuOrNextPage && old(self).menu.is_some() ==> r
                    == EditOutcome::MenuMoved && final(self).menu == old(self).menu
                    && final(self).buf == old(self).buf
                &&& (a is MenuPreviousPage || a is MenuPrevious) ==> final(self).buf == old(self).buf
                    && final(self).menu == old(self).menu && (r == if old(self).menu.is_some() {
                    EditOutcome::MenuMoved
                } else {
                    EditOutcome::NoOp
                })
                &&& a is Unbound ==> r == EditOutcome::NoOp && *final(self) == *old(self)
            }),
    {
        let a = lookup(self.style, self.mode, ev);
        match a {
            Action::InsertChar(c) => {
                if self.buf.len() >= usize::MAX - 1 {
                    return EditOutcome::NoOp;
                }
                self.buf.insert_char(c);
                self.menu = None;
                EditOutcome::BufferChanged
            },
            Action::InsertNewline => {
                if self.buf.len() >= usize::MAX - 1 {
                    return EditOutcome::NoOp;
                }
                self.buf.insert_newline();
                self.menu = None;
                EditOutcome::BufferChanged
            },
            Action::DeleteBack => {
                self.buf.delete_back();
                self.menu = None;
                EditOutcome::BufferChanged
            },
            Action::MoveLeft => {
                self.buf.move_left();
                self.menu = None;
                EditOutcome::BufferChanged
            },
            Action::MoveRight => {
                self.buf.move_right();
                self.menu = None;
                EditOutcome::BufferChanged
            },
            Action::Submit => {
                self.menu = None;
                EditOutcome::LineFinalized
            },
            Action::Cancel => {
                self.buf.clear();
                self.menu = None;
                EditOutcome::LineCanceled
            },
            Action::EndOfInput => EditOutcome::EndOfInput,
            Action::EnterNormal => {
                self.mode = Mode::Normal;
                EditOutcome::ModeChanged
            },
            Action::EnterInsert => {
                self.mode = Mode::Insert;
                EditOutcome::ModeChanged
            },
            Action::CompletionMenuOrComplete => {
                if self.menu == Some(MenuKind::Completion) {
                    self.menu_index = self.menu_index.saturating_add(1);
                    return EditOutcome::MenuMoved;
                }
                self.menu = None;
                match complete(&mut self.buf, words, observed, min_len) {
                    CompletionOutcome::NoMatch => EditOutcome::NoOp,
                    CompletionOutcome::Completed => EditOutcome::BufferChanged,
                    CompletionOutcome::MenuRequested => {
                        self.menu = Some(MenuKind::Completion);
                        self.menu_index = 0;
                        self.menu_page = 0;
                        EditOutcome::MenuRequested(MenuKind::Completion)
                    },
                }
            },
            Action::HistoryMenuOrNextPage => {
                if self.menu.is_none() {
                    self.menu = Some(MenuKind::History);
                    self.menu_index = 0;
                    self.menu_page = 0;
                    EditOutcome::MenuRequested(MenuKind::History)
                } else {
                    self.menu_page = self.menu_page.saturating_add(1);
                    EditOutcome::MenuMoved
                }
            },
            Action::MenuPreviousPage => {
                if self.menu.is_some() {
                    self.menu_page = self.menu_page.saturating_sub(1);
                    EditOutcome::MenuMoved
                } else {
                    EditOutcome::NoOp
                }
            },
            Action::MenuPrevious => {
                if self.menu.is_some() {
                    self.menu_index = self.menu_index.saturating_sub(1);
                    EditOutcome::MenuMoved
                } else {
                    EditOutcome::NoOp
                }
            },
            Action::Unbound => EditOutcome::NoOp,
        }
    }

    /// Applies a run of key events in turn. Printable characters typed with
    /// no control key into an empty line leave exactly those characters in
    /// it, with the cursor at its end.
    pub fn type_keys(
        &mut self,
        events: &Vec<KeyEvent>,
        words: &Vec<Vec<char>>,
        observed: &Vec<Vec<char>>,
        min_len: usize,
    )
        requires
            old(self).wf(),
            old(self).buf.chars.len() + events.len() + 1 < usize::MAX,
        ensures
            final(self).wf(),
            old(self).typing() && (forall|i: int|
                0 <= i < events.len() ==> is_plain_char(#[trigger] events@[i]))
                ==> final(self).buf.chars@ == old(self).buf.chars@.take(
                old(self).buf.cursor as int,
            ) + typed_chars(events@) + old(self).buf.chars@.skip(old(self).buf.cursor as int)
                && final(self).buf.cursor == old(self).buf.cursor + events.len()
                && final(self).mode == old(self).mode,
    {
        let ghost plain = old(self).typing() && (forall|i: int|
            0 <= i < events.len() ==> is_plain_char(#[trigger] events@[i]));
        let ghost s0 = self.buf.chars@;
        let ghost c0 = self.buf.cursor as int;
        let ghost m0 = self.mode;
        let mut i: usize = 0;
        while i < events.len()
            invariant
                self.wf(),
                i <= events.len(),
                plain ==> self.typing() && (forall|j: int|
                    0 <= j < events.len() ==> is_plain_char(#[trigger] events@[j])),
                plain ==> self.mode == m0 && 0 <= c0 <= s0.len() && self.buf.cursor == c0 + i
                    && self.buf.chars@ == s0.take(c0) + typed_chars(events@.take(i as int))
                    + s0.skip(c0),
                plain ==> s0.len() + events.len() + 1 < usize::MAX,
            decreases events.len() - i,
        {
            let ev = events[i];
            self.apply(ev, words, observed, min_len);
            proof {
                if plain {
                    assert(is_plain_char(events@[i as int]));
                    assert(typed_chars(events@.take(i + 1)) =~= typed_chars(
                        events@.take(i as int),
                    ).push(typed_chars(events@)[i as int]));
                    assert(self.buf.chars@ =~= s0.take(c0) + typed_chars(events@.take(i + 1))
                        + s0.skip(c0));
                }
            }
            i = i + 1;
        }
        assert(events@.take(events.len() as int) =~= events@);
    }
}

} // verus!
