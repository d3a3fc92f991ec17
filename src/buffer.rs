use vstd::prelude::*;

verus! {

/// The line being composed: a sequence of characters and a cursor offset.
pub struct EditBuffer {
    pub chars: Vec<char>,
    pub cursor: usize,
}

impl View for EditBuffer {
    type V = (Seq<char>, nat);

    open spec fn view(&self) -> (Seq<char>, nat) {
        (self.chars@, self.cursor as nat)
    }
}

impl EditBuffer {
    /// The cursor never leaves `0..=len`.
    pub open spec fn wf(&self) -> bool {
        self.cursor <= self.chars.len()
    }

    /// An empty buffer with the cursor at its start.
    pub fn new() -> (r: EditBuffer)
        ensures
            r.wf(),
            r.chars@ == Seq::<char>::empty(),
            r.cursor == 0,
    {
        EditBuffer { chars: Vec::new(), cursor: 0 }
    }

    /// A buffer holding `text` with the cursor at its end.
    pub fn from_chars(text: Vec<char>) -> (r: EditBuffer)
        ensures
            r.wf(),
            r.chars@ == text@,
            r.cursor == text.len(),
    {
        let n = text.len();
        EditBuffer { chars: text, cursor: n }
    }

    pub fn len(&self) -> (r: usize)
        ensures
            r == self.chars.len(),
    {
        self.chars.len()
    }

    /// Inserts `c` at the cursor and moves the cursor past it.
    pub fn insert_char(&mut self, c: char)
        requires
            old(self).wf(),
            old(self).chars.len() < usize::MAX,
        ensures
            final(self).wf(),
            final(self).chars@ == old(self).chars@.insert(old(self).cursor as int, c),
            final(self).cursor == old(self).cursor + 1,
    {
        self.chars.insert(self.cursor, c);
        self.cursor = self.cursor + 1;
    }

    /// Inserts a soft line break at the cursor; the line is not submitted.
    pub fn insert_newline(&mut self)
        requires
            old(self).wf(),
            old(self).chars.len() < usize::MAX,
        ensures
            final(self).wf(),
            final(self).chars@ == old(self).chars@.insert(old(self).cursor as int, '\n'),
            final(self).cursor == old(self).cursor + 1,
    {
        self.insert_char('\n');
    }

    /// Removes the character before the cursor, if there is one.
    pub fn delete_back(&mut self)
        requires
            old(self).wf(),
        ensures
            final(self).wf(),
            old(self).cursor == 0 ==> *final(self) == *old(self),
            old(self).cursor > 0 ==> final(self).chars@ == old(self).chars@.remove(
                old(self).cursor - 1,
            ) && final(self).cursor == old(self).cursor - 1,
    {
        if self.cursor > 0 {
            self.chars.remove(self.cursor - 1);
            self.cursor = self.cursor - 1;
        }
    }

    /// Moves the cursor one character left, stopping at the start.
    pub fn move_left(&mut self)
        requires
            old(self).wf(),
        ensures
            final(self).wf(),
            final(self).chars@ == old(self).chars@,
            final(self).cursor == if old(self).cursor > 0 {
                old(self).cursor - 1
            } else {
                0
            },
    {
        if self.cursor > 0 {
            self.cursor = self.cursor - 1;
        }
    }

    /// Moves the cursor one character right, stopping at the end.
    pub fn move_right(&mut self)
        requires
            old(self).wf(),
        ensures
            final(self).wf(),
            final(self).chars@ == old(self).chars@,
            final(self).cursor == if old(self).cursor < old(self).chars.len() {
                old(self).cursor + 1
            } else {
                old(self).cursor as int
            },
    {
        if self.cursor < self.chars.len() {
            self.cursor = self.cursor + 1;
        }
    }

    /// Empties the buffer.
    pub fn clear(&mut self)
        ensures
            final(self).wf(),
            final(self).chars@ == Seq::<char>::empty(),
            final(self).cursor == 0,
    {
        self.chars.clear();
        self.cursor = 0;
    }

    /// Types each character of `keys` in turn.
    pub fn type_chars(&mut self, keys: &Vec<char>)
        requires
            old(self).wf(),
            old(self).chars.len() + keys.len() < usize::MAX,
        ensures
            final(self).wf(),
            final(self).chars@ == old(self).chars@.take(old(self).cursor as int) + keys@
                + old(self).chars@.skip(old(self).cursor as int),
            final(self).cursor == old(self).cursor + keys.len(),
    {
        let ghost start = self.chars@;
        let ghost c0 = self.cursor as int;
        let mut i: usize = 0;
        while i < keys.len()
            invariant
                self.wf(),
                i <= keys.len(),
                self.cursor == c0 + i,
                self.chars@ == start.take(c0) + keys@.take(i as int) + start.skip(c0),
                0 <= c0 <= start.len(),
                start.len() + keys.len() < usize::MAX,
            decreases keys.len() - i,
        {
            let ghost before = self.chars@;
            self.insert_char(keys[i]);
            proof {
                assert(keys@.take(i + 1) == keys@.take(i as int).push(keys@[i as int]));
                assert(self.chars@ =~= start.take(c0) + keys@.take(i + 1) + start.skip(c0));
            }
            i = i + 1;
        }
        assert(keys@.take(keys.len() as int) =~= keys@);
    }

    /// Replaces the characters from `start` up to the cursor with `ins`,
    /// leaving the cursor after the inserted text.
    pub fn replace_before_cursor(&mut self, start: usize, ins: &Vec<char>)
        requires
            old(self).wf(),
            start <= old(self).cursor,
            old(self).chars.len() + ins.len() < usize::MAX,
        ensures
            final(self).wf(),
            final(self).chars@ == old(self).chars@.take(start as int) + ins@
                + old(self).chars@.skip(old(self).cursor as int),
            final(self).cursor == start + ins.len(),
    {
        let mut out: Vec<char> = Vec::new();
        let mut i: usize = 0;
        while i < start
            invariant
                i <= start <= self.cursor <= self.chars.len(),
                out@ == self.chars@.take(i as int),
            decreases start - i,
        {
            out.push(self.chars[i]);
            i = i + 1;
            assert(out@ =~= self.chars@.take(i as int));
        }
        let mut j: usize = 0;
        while j < ins.len()
            invariant
                j <= ins.len(),
                start <= self.cursor <= self.chars.len(),
                self.chars.len() + ins.len() < usize::MAX,
                out@ == self.chars@.take(start as int) + ins@.take(j as int),
            decreases ins.len() - j,
        {
            out.push(ins[j]);
            j = j + 1;
            assert(out@ =~= self.chars@.take(start as int) + ins@.take(j as int));
        }
        assert(ins@.take(ins.len() as int) =~= ins@);
        let new_cursor = start + ins.len();
        let mut k: usize = self.cursor;
        while k < self.chars.len()
            invariant
                start <= self.cursor <= k <= self.chars.len(),
                out@ == self.chars@.take(start as int) + ins@ + self.chars@.subrange(
                    self.cursor as int,
                    k as int,
                ),
            decreases self.chars.len() - k,
        {
            out.push(self.chars[k]);
            k = k + 1;
            assert(out@ =~= self.chars@.take(start as int) + ins@ + self.chars@.subrange(
                self.cursor as int,
                k as int,
            ));
        }
        assert(self.chars@.subrange(self.cursor as int, self.chars.len() as int)
            =~= self.chars@.skip(self.cursor as int));
        self.chars = out;
        self.cursor = new_cursor;
    }
}

} // verus!
