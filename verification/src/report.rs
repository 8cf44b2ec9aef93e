//! The snapshot as coloured text for a terminal that is written to line by
//! line.

use vstd::prelude::*;
use vstd::string::*;
use crate::status::{Status, StatusChange, StatusView, Statuses};
use crate::style::{glyph, glyph_of, paint, painted, Bright, Icon};
use crate::text::{chars_of, push_str, string_of};

verus! {

/// The glyph and the bright colour of a kind of change.
pub open spec fn change_sign(change: StatusChange) -> (Icon, Bright) {
    match change {
        StatusChange::Modified => (Icon::FileDocumentEdit, Bright::Yellow),
        StatusChange::Added => (Icon::FilePlus, Bright::Green),
        StatusChange::Deleted => (Icon::FileRemove, Bright::Red),
        StatusChange::Renamed => (Icon::FileMove, Bright::Blue),
        StatusChange::TypeChange => (Icon::FileSwap, Bright::Magenta),
    }
}

/// A kind of change as text: its glyph in its colour, and a blank.
pub open spec fn change_text(change: StatusChange) -> Seq<char> {
    painted(glyph_of(change_sign(change).0), change_sign(change).1) + seq![' ']
}

/// The box of a file as text: a minus in yellow where a part of the file is
/// staged, a filled box in green where all of it is, an empty box in grey
/// where nothing is.
pub open spec fn box_text(file: StatusView) -> Seq<char> {
    match (file.staged, file.unstaged) {
        (Some(_), Some(_)) => painted(glyph_of(Icon::MinusBox), Bright::Yellow),
        (Some(_), None) => painted(glyph_of(Icon::CheckboxMarked), Bright::Green),
        (None, _) => painted(glyph_of(Icon::CheckboxBlankOutline), Bright::Black),
    }
}

/// A file as text: its box, its change and its path, a blank between them.
/// The change is the staged one where there is one.
pub open spec fn status_text(file: StatusView) -> Seq<char> {
    box_text(file) + seq![' '] + (match (file.staged, file.unstaged) {
        (Some(c), _) => change_text(c),
        (None, Some(c)) => change_text(c),
        (None, None) => seq![' ', ' '],
    }) + seq![' '] + file.path
}

/// The lines of the files from entry `from` on, each after a blank.
pub open spec fn files_text(snapshot: Seq<StatusView>, from: int) -> Seq<char>
    decreases snapshot.len() - from,
{
    if 0 <= from < snapshot.len() {
        seq![' '] + status_text(snapshot[from]) + seq!['\n'] + files_text(snapshot, from + 1)
    } else {
        Seq::empty()
    }
}

/// A snapshot as text: a notice in green where nothing has changed, and
/// otherwise an empty line and then a line for every file.
pub open spec fn statuses_text(snapshot: Seq<StatusView>) -> Seq<char> {
    if snapshot.len() == 0 {
        seq![' '] + painted("Working directory clean"@, Bright::Green) + seq!['\n']
    } else {
        seq!['\n'] + files_text(snapshot, 0)
    }
}

impl StatusChange {
    /// A kind of change as text.
    pub fn to_string(&self) -> (s: String)
        ensures
            s@ == change_text(*self),
    {
        let (icon, color) = match self {
            StatusChange::Modified => (Icon::FileDocumentEdit, Bright::Yellow),
            StatusChange::Added => (Icon::FilePlus, Bright::Green),
            StatusChange::Deleted => (Icon::FileRemove, Bright::Red),
            StatusChange::Renamed => (Icon::FileMove, Bright::Blue),
            StatusChange::TypeChange => (Icon::FileSwap, Bright::Magenta),
        };
        let mut out = chars_of(paint(glyph(icon), color).as_str());
        out.push(' ');
        string_of(&out)
    }
}

impl Status {
    /// A file as text.
    pub fn to_string(&self) -> (s: String)
        ensures
            s@ == status_text(self@),
    {
        let sign = match (&self.staged, &self.unstaged) {
            (Some(_), Some(_)) => paint(glyph(Icon::MinusBox), Bright::Yellow),
            (Some(_), None) => paint(glyph(Icon::CheckboxMarked), Bright::Green),
            (None, _) => paint(glyph(Icon::CheckboxBlankOutline), Bright::Black),
        };
        let change = match (&self.staged, &self.unstaged) {
            (Some(c), _) => c.to_string(),
            (None, Some(c)) => c.to_string(),
            (None, None) => String::from_str("  "),
        };
        proof {
            reveal_strlit("  ");
        }
        let mut out = chars_of(sign.as_str());
        out.push(' ');
        push_str(&mut out, change.as_str());
        out.push(' ');
        push_str(&mut out, self.path.as_str());
        string_of(&out)
    }
}

impl Statuses {
    /// A snapshot as text.
    pub fn to_string(&self) -> (s: String)
        ensures
            s@ == statuses_text(self@),
    {
        let files = self.files();
        let mut out: Vec<char> = Vec::new();
        if files.len() == 0 {
            out.push(' ');
            push_str(&mut out, paint("Working directory clean", Bright::Green).as_str());
            out.push('\n');
            return string_of(&out);
        }
        out.push('\n');
        let ghost snapshot = self@;
        let mut i: usize = 0;
        while i < files.len()
            invariant
                i <= files.len(),
                files@.len() == snapshot.len(),
                forall|j: int| 0 <= j < files@.len() ==> (#[trigger] files@[j])@ == snapshot[j],
                out@ + files_text(snapshot, i as int) == seq!['\n'] + files_text(snapshot, 0),
            decreases files.len() - i,
        {
            let line = files[i].to_string();
            out.push(' ');
            push_str(&mut out, line.as_str());
            out.push('\n');
            i = i + 1;
        }
        string_of(&out)
    }
}

} // verus!
