//! The commit message editor: a text and a cursor that is kept as a byte
//! offset and always stands between two characters.

use vstd::prelude::*;
use vstd::utf8::*;
use crate::utf8::{
    chars_before, lemma_boundary_is_offset, lemma_encode_concat, lemma_encode_injective,
    lemma_no_boundary_inside, lemma_offset_is_boundary, lemma_scalar_len, offset_of,
};

verus! {

/// The editor as text and a cursor counted in characters.
pub struct EditorView {
    pub text: Seq<char>,
    pub pos: int,
}

impl EditorView {
    /// The cursor stands at or between characters of the text.
    pub open spec fn wf(self) -> bool {
        0 <= self.pos <= self.text.len()
    }

    /// The cursor as a byte offset into the encoded text.
    pub open spec fn cursor(self) -> int {
        offset_of(self.text, self.pos)
    }

    /// Whether one more character fits: the encoded text is no longer than
    /// `ROOM_LIMIT` bytes.
    pub open spec fn has_room(self) -> bool {
        encode_utf8(self.text).len() <= ROOM_LIMIT
    }

    /// The character goes in at the cursor, and the cursor moves past it.
    pub open spec fn insert(self, c: char) -> EditorView {
        EditorView { text: self.text.insert(self.pos, c), pos: self.pos + 1 }
    }

    /// The character before the cursor goes, and the cursor takes its place;
    /// nothing happens at the start of the text.
    pub open spec fn backspace(self) -> EditorView {
        if self.pos > 0 {
            EditorView { text: self.text.remove(self.pos - 1), pos: self.pos - 1 }
        } else {
            self
        }
    }

    /// The cursor moves one character towards the start, if it is not there.
    pub open spec fn left(self) -> EditorView {
        if self.pos > 0 {
            EditorView { text: self.text, pos: self.pos - 1 }
        } else {
            self
        }
    }

    /// The cursor moves one character towards the end, if it is not there.
    pub open spec fn right(self) -> EditorView {
        if self.pos < self.text.len() {
            EditorView { text: self.text, pos: self.pos + 1 }
        } else {
            self
        }
    }
}

/// The longest encoded text that still has room for one more character.
pub const ROOM_LIMIT: usize = 0x3fff_fff0;

/// The text of a commit message with its cursor.
pub struct EditorBuffer {
    text: String,
    cursor: usize,
}

impl View for EditorBuffer {
    type V = EditorView;

    closed spec fn view(&self) -> EditorView {
        EditorView { text: self.text@, pos: chars_before(self.text@, self.cursor as int) }
    }
}

impl EditorBuffer {
    #[verifier::type_invariant]
    spec fn on_boundary(self) -> bool {
        &&& is_char_boundary(encode_utf8(self.text@), self.cursor as int)
        &&& encode_utf8(self.text@).len() <= ROOM_LIMIT + 4
    }

    proof fn lemma_view(self)
        requires
            self.on_boundary(),
        ensures
            self@.wf(),
            self@.cursor() == self.cursor,
            0 <= self.cursor <= encode_utf8(self.text@).len(),
    {
        lemma_boundary_is_offset(self.text@, self.cursor as int);
    }

    /// Hands out the text and leaves the buffer empty.
    fn take_text(&mut self) -> (text: String)
        ensures
            text@ == old(self).text@,
    {
        proof {
            use_type_invariant(&*self);
            encode_utf8_valid_utf8(self.text@);
        }
        self.cursor = 0;
        let mut text = String::new();
        std::mem::swap(&mut text, &mut self.text);
        text
    }

    /// An empty buffer.
    pub fn new() -> (e: EditorBuffer)
        ensures
            e@.text == Seq::<char>::empty(),
            e@.pos == 0,
            e@.has_room(),
    {
        let text = String::new();
        EditorBuffer { text, cursor: 0 }
    }

    /// The text.
    pub fn text(&self) -> (s: &str)
        ensures
            s@ == self@.text,
    {
        self.text.as_str()
    }

    /// The cursor as a byte offset into the text. It lies on a character
    /// boundary: it is the offset at which the character under the cursor
    /// starts.
    pub fn cursor(&self) -> (c: usize)
        ensures
            self@.wf(),
            c == self@.cursor(),
            is_char_boundary(encode_utf8(self@.text), c as int),
    {
        proof {
            use_type_invariant(self);
            self.lemma_view();
        }
        self.cursor
    }

    /// Whether one more character fits into the buffer.
    pub fn has_room(&self) -> (r: bool)
        ensures
            r == self@.has_room(),
    {
        proof {
            use_type_invariant(self);
        }
        self.text.as_str().len() <= ROOM_LIMIT
    }

    /// Inserts `c` at the cursor and moves the cursor past it.
    pub fn insert_char(&mut self, c: char)
        requires
            old(self)@.has_room(),
        ensures
            final(self)@ == old(self)@.insert(c),
            final(self)@.cursor() == old(self)@.cursor() + encode_scalar(c as u32).len(),
    {
        proof {
            use_type_invariant(&*self);
            self.lemma_view();
        }
        let ghost v = self@;
        let n = c.len_utf8();
        let at = self.cursor;
        let mut text = self.take_text();
        text.insert(at, c);
        let cursor = at + n;
        proof {
            let t = v.text.insert(v.pos, c);
            lemma_offset_is_boundary(v.text, v.pos);
            lemma_scalar_len(c);
            assert(t == v.text.take(v.pos) + seq![c] + v.text.skip(v.pos));
            lemma_encode_concat(v.text.take(v.pos) + seq![c], v.text.skip(v.pos));
            lemma_encode_concat(v.text.take(v.pos), seq![c]);
            lemma_encode_injective(t, text@);
            assert(t.take(v.pos + 1) == v.text.take(v.pos) + seq![c]);
            lemma_offset_is_boundary(t, v.pos + 1);
        }
        *self = EditorBuffer { text, cursor };
    }

    /// Inserts a line break at the cursor and moves the cursor past it.
    pub fn insert_newline(&mut self)
        requires
            old(self)@.has_room(),
        ensures
            final(self)@ == old(self)@.insert('\n'),
            final(self)@.cursor() == old(self)@.cursor() + 1,
    {
        self.insert_char('\n');
        proof {
            assert(encode_scalar('\n' as u32).len() == 1);
        }
    }

    /// The start of the character before the byte offset `from`, which lies on
    /// a character boundary behind the start of the text.
    fn boundary_before(&self, from: usize) -> (j: usize)
        requires
            0 < from <= encode_utf8(self.text@).len(),
            from == offset_of(self.text@, chars_before(self.text@, from as int)),
            0 < chars_before(self.text@, from as int) <= self.text@.len(),
        ensures
            j == offset_of(self.text@, chars_before(self.text@, from as int) - 1),
            j < from,
    {
        let ghost text = self.text@;
        let ghost pos = chars_before(text, from as int);
        let mut j = from - 1;
        proof {
            lemma_offset_is_boundary(text, pos - 1);
            lemma_no_boundary_inside(text, pos - 1, 0);
        }
        while j > 0 && !self.text.as_str().is_char_boundary(j)
            invariant
                text == self.text@,
                0 < pos <= text.len(),
                from == offset_of(text, pos),
                offset_of(text, pos - 1) <= j < from,
                is_char_boundary(encode_utf8(text), offset_of(text, pos - 1)),
            decreases j,
        {
            j = j - 1;
        }
        proof {
            if j > 0 {
                lemma_no_boundary_inside(text, pos - 1, j as int);
            }
        }
        j
    }

    /// Deletes the character before the cursor; at the start of the text
    /// nothing happens.
    pub fn backspace(&mut self)
        ensures
            final(self)@ == old(self)@.backspace(),
            old(self)@.has_room() ==> final(self)@.has_room(),
    {
        proof {
            use_type_invariant(&*self);
            self.lemma_view();
        }
        let ghost v = self@;
        if self.cursor > 0 {
            let at = self.cursor;
            let j = self.boundary_before(at);
            let mut text = self.take_text();
            proof {
                lemma_offset_is_boundary(v.text, v.pos - 1);
                lemma_offset_is_boundary(v.text, v.pos);
                lemma_no_boundary_inside(v.text, v.pos - 1, 0);
            }
            let ch = text.remove(j);
            proof {
                let t = v.text.remove(v.pos - 1);
                let tail = v.text.skip(v.pos - 1);
                encode_utf8_first_scalar(tail);
                let n = encode_scalar(ch as u32).len() as int;
                // The removed bytes are one whole encoding, so they are the
                // encoding of the character before the cursor.
                assert(j + n == at) by {
                    let y = encode_utf8(tail);
                    let one = seq![ch];
                    encode_utf8_first_scalar(one);
                    assert(length_of_first_scalar(y) == n);
                }
                lemma_encode_concat(v.text.take(v.pos - 1), v.text.skip(v.pos));
                lemma_encode_injective(t, text@);
                assert(t.take(v.pos - 1) == v.text.take(v.pos - 1));
                lemma_offset_is_boundary(t, v.pos - 1);
            }
            *self = EditorBuffer { text, cursor: j };
        }
    }

    /// Moves the cursor to the start of the character before it; at the start
    /// of the text nothing happens.
    pub fn move_left(&mut self)
        ensures
            final(self)@ == old(self)@.left(),
            final(self)@.has_room() == old(self)@.has_room(),
    {
        proof {
            use_type_invariant(&*self);
            self.lemma_view();
        }
        let ghost v = self@;
        if self.cursor > 0 {
            let j = self.boundary_before(self.cursor);
            proof {
                lemma_offset_is_boundary(v.text, v.pos - 1);
            }
            self.cursor = j;
        }
    }

    /// Moves the cursor past the character under it; at the end of the text
    /// nothing happens.
    pub fn move_right(&mut self)
        ensures
            final(self)@ == old(self)@.right(),
            final(self)@.has_room() == old(self)@.has_room(),
    {
        proof {
            use_type_invariant(&*self);
            self.lemma_view();
        }
        let ghost v = self@;
        let ghost text = self.text@;
        let len = self.text.as_str().len();
        proof {
            assert(v.text.take(v.text.len() as int) == v.text);
            if v.pos < v.text.len() {
                lemma_offset_monotone(v.text, v.pos + 1, v.text.len() as int);
                lemma_no_boundary_inside(v.text, v.pos, 0);
            }
        }
        if self.cursor < len {
            let mut j = self.cursor + 1;
            proof {
                lemma_offset_is_boundary(text, v.pos + 1);
            }
            while j < len && !self.text.as_str().is_char_boundary(j)
                invariant
                    text == self.text@,
                    len == encode_utf8(text).len(),
                    0 <= v.pos < text.len(),
                    self.cursor == offset_of(text, v.pos),
                    self.cursor < j <= offset_of(text, v.pos + 1) <= len,
                    is_char_boundary(encode_utf8(text), offset_of(text, v.pos + 1)),
                decreases len - j,
            {
                j = j + 1;
            }
            proof {
                if j < len {
                    lemma_no_boundary_inside(text, v.pos, j as int);
                }
            }
            self.cursor = j;
        }
    }
}

/// Offsets grow with positions.
pub proof fn lemma_offset_monotone(text: Seq<char>, a: int, b: int)
    requires
        0 <= a <= b <= text.len(),
    ensures
        offset_of(text, a) <= offset_of(text, b),
    decreases b - a,
{
    if a < b {
        lemma_offset_monotone(text, a, b - 1);
        lemma_no_boundary_inside(text, b - 1, 0);
    }
}

/// The cursor never splits a character: in every state it is a character
/// boundary of the encoded text.
pub proof fn lemma_cursor_on_boundary(v: EditorView)
    requires
        v.wf(),
    ensures
        is_char_boundary(encode_utf8(v.text), v.cursor()),
{
    lemma_offset_is_boundary(v.text, v.pos);
}

/// Typing a character and then moving left puts the cursor where it was,
/// in front of all the bytes of the character.
pub proof fn lemma_insert_then_left(v: EditorView, c: char)
    requires
        v.wf(),
    ensures
        v.insert(c).left().pos == v.pos,
        v.insert(c).left().cursor() == v.cursor(),
        v.insert(c).cursor() == v.cursor() + encode_scalar(c as u32).len(),
{
    let t = v.text.insert(v.pos, c);
    assert(t.take(v.pos) == v.text.take(v.pos));
    lemma_no_boundary_inside(t, v.pos, 0);
}

/// Typing a character and then deleting backwards restores the state.
pub proof fn lemma_insert_then_backspace(v: EditorView, c: char)
    requires
        v.wf(),
    ensures
        v.insert(c).backspace() == v,
{
    assert(v.text.insert(v.pos, c).remove(v.pos) == v.text);
}

/// Every editing step keeps the cursor inside the text.
pub proof fn lemma_steps_keep_wf(v: EditorView, c: char)
    requires
        v.wf(),
    ensures
        v.insert(c).wf(),
        v.backspace().wf(),
        v.left().wf(),
        v.right().wf(),
{
}

} // verus!
