//! The render pass: what a frame shows of the state, as styled text for the
//! four panes of the screen.

use vstd::prelude::*;
use vstd::string::*;
use vstd::utf8::*;
use crate::app::{App, AppView};
use crate::editor::{EditorBuffer, EditorView};
use crate::status::{Status, StatusChange, StatusView};
use crate::style::{
    ansi_lines, colored, colored_span, glyph, glyph_of, lines_view, parse_ansi, raw, raw_span, Icon,
    Look, Shade, Span, SpanView, UNDERLINED,
};
use crate::text::{
    chars_of, decimal, first_line, first_line_of, lines, lines_of, push_decimal, push_str,
    string_of, string_of_range, texts,
};
use crate::utf8::{lemma_encode_injective, lemma_offset_is_boundary};

verus! {

/// The box in front of a file: filled where everything is staged, a minus
/// where only a part is, empty where nothing is.
pub open spec fn checkbox_of(file: StatusView) -> (Icon, Shade) {
    match (file.staged, file.unstaged) {
        (Some(_), Some(_)) => (Icon::MinusBox, Shade::Yellow),
        (Some(_), None) => (Icon::CheckboxMarked, Shade::Green),
        (None, _) => (Icon::CheckboxBlankOutline, Shade::DarkGray),
    }
}

/// The glyph and the colour of a kind of change.
pub open spec fn change_mark(change: StatusChange) -> (Icon, Shade) {
    match change {
        StatusChange::Modified => (Icon::FileDocumentEdit, Shade::Yellow),
        StatusChange::Added => (Icon::FilePlus, Shade::Green),
        StatusChange::Deleted => (Icon::FileRemove, Shade::Red),
        StatusChange::Renamed => (Icon::FileMove, Shade::Blue),
        StatusChange::TypeChange => (Icon::FileSwap, Shade::Magenta),
    }
}

/// The change that a file is listed with: the staged one where there is one,
/// and the unstaged one otherwise.
pub open spec fn listed_change(file: StatusView) -> Option<StatusChange> {
    match file.staged {
        Some(c) => Some(c),
        None => file.unstaged,
    }
}

/// The line of a file in the list: its box, the mark of its change and its
/// path, a blank between them.
pub open spec fn spec_file_row(file: StatusView) -> Seq<SpanView> {
    seq![
        colored(glyph_of(checkbox_of(file).0), checkbox_of(file).1),
        raw(" "@),
        match listed_change(file) {
            Some(c) => colored(glyph_of(change_mark(c).0), change_mark(c).1),
            None => colored(" "@, Shade::White),
        },
        raw(" "@),
        raw(file.path),
    ]
}

/// The line of a file in the list.
pub fn file_row(file: &Status) -> (row: Vec<Span>)
    ensures
        row.deep_view() == spec_file_row(file@),
{
    let (box_icon, box_shade) = match (&file.staged, &file.unstaged) {
        (Some(_), Some(_)) => (Icon::MinusBox, Shade::Yellow),
        (Some(_), None) => (Icon::CheckboxMarked, Shade::Green),
        (None, _) => (Icon::CheckboxBlankOutline, Shade::DarkGray),
    };
    let change = match file.staged {
        Some(c) => Some(c),
        None => file.unstaged,
    };
    let mark = match change {
        Some(c) => {
            let (icon, shade) = match c {
                StatusChange::Modified => (Icon::FileDocumentEdit, Shade::Yellow),
                StatusChange::Added => (Icon::FilePlus, Shade::Green),
                StatusChange::Deleted => (Icon::FileRemove, Shade::Red),
                StatusChange::Renamed => (Icon::FileMove, Shade::Blue),
                StatusChange::TypeChange => (Icon::FileSwap, Shade::Magenta),
            };
            colored_span(String::from_str(glyph(icon)), shade)
        },
        None => colored_span(String::from_str(" "), Shade::White),
    };
    let mut row: Vec<Span> = Vec::new();
    row.push(colored_span(String::from_str(glyph(box_icon)), box_shade));
    row.push(raw_span(String::from_str(" ")));
    row.push(mark);
    row.push(raw_span(String::from_str(" ")));
    row.push(raw_span(file.path.clone()));
    row
}

/// The mark that stands for the cursor: an underlined underscore.
pub open spec fn cursor_mark() -> SpanView {
    SpanView {
        content: "_"@,
        look: Look { fg: None, bg: None, add_modifier: UNDERLINED, sub_modifier: 0 },
    }
}

/// The line on which the cursor is shown: the last line of the text before
/// the cursor. A cursor behind a line ending is shown at the end of that
/// line.
pub open spec fn cursor_row(editor: EditorView) -> int {
    let before = lines_of(editor.text.take(editor.pos));
    if before.len() > 0 {
        before.len() - 1
    } else {
        0
    }
}

/// The column at which the cursor is shown, in characters.
pub open spec fn cursor_col(editor: EditorView) -> int {
    let before = lines_of(editor.text.take(editor.pos));
    if before.len() > 0 {
        before.last().len() as int
    } else {
        0
    }
}

/// One line of the commit message. On the cursor's line, while the cursor
/// shows, the mark takes the place of the character under the cursor, or
/// stands behind the line.
pub open spec fn editor_row(line: Seq<char>, cursor_at: Option<int>) -> Seq<SpanView> {
    match cursor_at {
        Some(col) => if 0 <= col < line.len() {
            seq![raw(line.take(col)), cursor_mark(), raw(line.skip(col + 1))]
        } else {
            seq![raw(line), cursor_mark()]
        },
        None => seq![raw(line)],
    }
}

/// The lines of the commit message, with the cursor where it shows.
pub open spec fn spec_editor_lines(editor: EditorView, cursor_visible: bool) -> Seq<Seq<SpanView>> {
    let rows = lines_of(editor.text);
    Seq::new(
        rows.len(),
        |i: int|
            editor_row(
                rows[i],
                if cursor_visible && i == cursor_row(editor) {
                    Some(cursor_col(editor))
                } else {
                    None
                },
            ),
    )
}

fn editor_row_spans(line: &str, cursor_at: Option<usize>) -> (row: Vec<Span>)
    ensures
        row.deep_view() == editor_row(
            line@,
            match cursor_at {
                Some(c) => Some(c as int),
                None => None,
            },
        ),
{
    let mut row: Vec<Span> = Vec::new();
    let mark = Span {
        content: String::from_str("_"),
        look: Look { fg: None, bg: None, add_modifier: UNDERLINED, sub_modifier: 0 },
    };
    match cursor_at {
        Some(col) => {
            let cs = chars_of(line);
            if col < cs.len() {
                row.push(raw_span(string_of_range(&cs, 0, col)));
                row.push(mark);
                row.push(raw_span(string_of_range(&cs, col + 1, cs.len())));
            } else {
                row.push(raw_span(string_of(&cs)));
                row.push(mark);
            }
        },
        None => {
            row.push(raw_span(String::from_str(line)));
        },
    }
    row
}

/// The lines of the commit message, with the cursor where it shows.
pub fn editor_lines(editor: &EditorBuffer, cursor_visible: bool) -> (out: Vec<Vec<Span>>)
    ensures
        out.deep_view() == spec_editor_lines(editor@, cursor_visible),
{
    let text = editor.text();
    let cursor = editor.cursor();
    let (before, _) = text.split_at(cursor);
    proof {
        let v = editor@;
        lemma_offset_is_boundary(v.text, v.pos);
        lemma_encode_injective(before@, v.text.take(v.pos));
    }
    let before_lines = lines(before);
    let rows = lines(text);
    let row_at = if before_lines.len() > 0 {
        before_lines.len() - 1
    } else {
        0
    };
    let col_at = if before_lines.len() > 0 {
        chars_of(before_lines[before_lines.len() - 1].as_str()).len()
    } else {
        0
    };
    let mut out: Vec<Vec<Span>> = Vec::new();
    let mut i: usize = 0;
    while i < rows.len()
        invariant
            i <= rows.len(),
            texts(rows@) == lines_of(editor@.text),
            row_at == cursor_row(editor@),
            col_at == cursor_col(editor@),
            out.len() == i,
            forall|j: int|
                0 <= j < i ==> (#[trigger] out@[j]).deep_view() == spec_editor_lines(
                    editor@,
                    cursor_visible,
                )[j],
        decreases rows.len() - i,
    {
        let cursor_at = if cursor_visible && i == row_at {
            Some(col_at)
        } else {
            None
        };
        out.push(editor_row_spans(rows[i].as_str(), cursor_at));
        i = i + 1;
    }
    out
}

/// The line of a recent commit: its number in grey, counted from one, and
/// the first line of its message.
pub open spec fn recent_row(index: int, message: Seq<char>) -> Seq<SpanView> {
    seq![
        colored("#"@ + decimal((index + 1) as nat) + " "@, Shade::DarkGray),
        raw(first_line_of(message)),
    ]
}

/// The lines of the recent commits.
pub open spec fn spec_recent_lines(recent: Seq<Seq<char>>) -> Seq<Seq<SpanView>> {
    Seq::new(recent.len(), |i: int| recent_row(i, recent[i]))
}

/// The lines of the recent commits.
pub fn recent_lines(recent: &Vec<String>) -> (out: Vec<Vec<Span>>)
    ensures
        out.deep_view() == spec_recent_lines(texts(recent@)),
{
    let mut out: Vec<Vec<Span>> = Vec::new();
    let mut i: usize = 0;
    while i < recent.len()
        invariant
            i <= recent.len(),
            out.len() == i,
            forall|j: int|
                0 <= j < i ==> (#[trigger] out@[j]).deep_view() == recent_row(j, recent@[j]@),
        decreases recent.len() - i,
    {
        let mut label = chars_of("#");
        push_decimal(&mut label, i as u64 + 1);
        push_str(&mut label, " ");
        let mut row: Vec<Span> = Vec::new();
        row.push(colored_span(string_of(&label), Shade::DarkGray));
        row.push(raw_span(first_line(recent[i].as_str())));
        out.push(row);
        i = i + 1;
    }
    out
}

/// The grey that a colour turns into for a file without staged changes:
/// yellows turn white, blues dark grey, the other four hues grey, and
/// everything else, no colour included, dark grey.
pub open spec fn spec_desaturate(fg: Option<Shade>) -> Shade {
    match fg {
        Some(Shade::Red) | Some(Shade::LightRed) => Shade::Gray,
        Some(Shade::Green) | Some(Shade::LightGreen) => Shade::Gray,
        Some(Shade::Yellow) | Some(Shade::LightYellow) => Shade::White,
        Some(Shade::Blue) | Some(Shade::LightBlue) => Shade::DarkGray,
        Some(Shade::Magenta) | Some(Shade::LightMagenta) => Shade::Gray,
        Some(Shade::Cyan) | Some(Shade::LightCyan) => Shade::Gray,
        _ => Shade::DarkGray,
    }
}

/// The grey that a colour turns into for a file without staged changes.
pub fn desaturate(fg: Option<Shade>) -> (s: Shade)
    ensures
        s == spec_desaturate(fg),
        s == Shade::Gray || s == Shade::White || s == Shade::DarkGray,
{
    match fg {
        Some(Shade::Red) | Some(Shade::LightRed) => Shade::Gray,
        Some(Shade::Green) | Some(Shade::LightGreen) => Shade::Gray,
        Some(Shade::Yellow) | Some(Shade::LightYellow) => Shade::White,
        Some(Shade::Blue) | Some(Shade::LightBlue) => Shade::DarkGray,
        Some(Shade::Magenta) | Some(Shade::LightMagenta) => Shade::Gray,
        Some(Shade::Cyan) | Some(Shade::LightCyan) => Shade::Gray,
        _ => Shade::DarkGray,
    }
}

/// A span of the diff of a file without staged changes: its colour turned
/// grey, the modifiers that it adds kept, and nothing else of its look.
pub open spec fn dimmed(span: SpanView) -> SpanView {
    SpanView {
        content: span.content,
        look: Look {
            fg: Some(spec_desaturate(span.look.fg)),
            bg: None,
            add_modifier: span.look.add_modifier,
            sub_modifier: 0,
        },
    }
}

/// A line of the diff as spans. `parsed` is what the escape codes of the line
/// were read as: its first line is taken, and where there is none the line
/// stands unstyled. For a file without staged changes every span is dimmed.
pub open spec fn spec_line_from_parse(
    parsed: Option<Seq<Seq<SpanView>>>,
    line: Seq<char>,
    is_staged: bool,
) -> Seq<SpanView> {
    let spans = match parsed {
        Some(lines) => if lines.len() > 0 {
            lines[0]
        } else {
            seq![raw(line)]
        },
        None => seq![raw(line)],
    };
    if is_staged {
        spans
    } else {
        Seq::new(spans.len(), |i: int| dimmed(spans[i]))
    }
}

/// A line of the diff as spans, from what its escape codes were read as.
pub fn line_from_parse(parsed: Option<Vec<Vec<Span>>>, line: &str, is_staged: bool) -> (out: Vec<
    Span,
>)
    ensures
        out.deep_view() == spec_line_from_parse(lines_view(parsed), line@, is_staged),
{
    let spans: Vec<Span> = match parsed {
        Some(lines) => {
            let mut lines = lines;
            if lines.len() > 0 {
                let ghost first = lines@[0];
                lines.swap_remove(0)
            } else {
                let mut one: Vec<Span> = Vec::new();
                one.push(raw_span(String::from_str(line)));
                one
            }
        },
        None => {
            let mut one: Vec<Span> = Vec::new();
            one.push(raw_span(String::from_str(line)));
            one
        },
    };
    if is_staged {
        return spans;
    }
    let ghost bright = spans.deep_view();
    let mut out: Vec<Span> = Vec::new();
    for span in it: spans
        invariant
            it.seq() == spans@,
            bright == spans.deep_view(),
            out.len() == it.index(),
            forall|j: int| 0 <= j < out.len() ==> (#[trigger] out@[j])@ == dimmed(bright[j]),
    {
        let gray = desaturate(span.look.fg);
        out.push(
            Span {
                content: span.content,
                look: Look {
                    fg: Some(gray),
                    bg: None,
                    add_modifier: span.look.add_modifier,
                    sub_modifier: 0,
                },
            },
        );
    }
    out
}

/// A line of the diff as spans: its escape codes read, and the colours
/// dimmed for a file without staged changes.
pub open spec fn spec_styled_line(line: Seq<char>, is_staged: bool) -> Seq<SpanView> {
    spec_line_from_parse(ansi_lines(line), line, is_staged)
}

/// A line of the diff as spans.
pub fn styled_line(line: &str, is_staged: bool) -> (out: Vec<Span>)
    ensures
        out.deep_view() == spec_styled_line(line@, is_staged),
{
    line_from_parse(parse_ansi(line), line, is_staged)
}

/// The lines of the diff that show: those from the scroll offset on, styled.
pub open spec fn spec_diff_rows(lines: Seq<Seq<char>>, scroll: u16, is_staged: bool) -> Seq<
    Seq<SpanView>,
> {
    if scroll >= lines.len() {
        Seq::empty()
    } else {
        Seq::new(
            (lines.len() - scroll) as nat,
            |i: int| spec_styled_line(lines[scroll + i], is_staged),
        )
    }
}

/// The lines of the diff that show, styled.
pub fn diff_rows(lines: &Vec<String>, scroll: u16, is_staged: bool) -> (out: Vec<Vec<Span>>)
    ensures
        out.deep_view() == spec_diff_rows(texts(lines@), scroll, is_staged),
{
    let mut out: Vec<Vec<Span>> = Vec::new();
    let from = scroll as usize;
    if from >= lines.len() {
        return out;
    }
    let mut i: usize = from;
    while i < lines.len()
        invariant
            from <= i <= lines.len(),
            out.len() == i - from,
            forall|j: int|
                0 <= j < i - from ==> (#[trigger] out@[j]).deep_view() == spec_styled_line(
                    lines@[from + j]@,
                    is_staged,
                ),
        decreases lines.len() - i,
    {
        out.push(styled_line(lines[i].as_str(), is_staged));
        i = i + 1;
    }
    out
}

/// How long the cursor shows and hides in turn, in milliseconds.
pub const BLINK_MILLIS: u128 = 500;

/// Whether the cursor shows at a time given in milliseconds: through every
/// other half second, the first one included.
pub open spec fn spec_cursor_visible(millis: u128) -> bool {
    (millis / BLINK_MILLIS) % 2 == 0
}

/// Whether the cursor shows at a time given in milliseconds.
pub fn cursor_visible(millis: u128) -> (r: bool)
    ensures
        r == spec_cursor_visible(millis),
{
    (millis / BLINK_MILLIS) % 2 == 0
}

/// The lines of the file list.
pub open spec fn spec_file_rows(snapshot: Seq<StatusView>) -> Seq<Seq<SpanView>> {
    Seq::new(snapshot.len(), |i: int| spec_file_row(snapshot[i]))
}

/// The lines of the file list.
pub fn file_rows(files: &[Status]) -> (out: Vec<Vec<Span>>)
    ensures
        out.deep_view() == spec_file_rows(Seq::new(files@.len(), |i: int| files@[i]@)),
{
    let mut out: Vec<Vec<Span>> = Vec::new();
    let mut i: usize = 0;
    while i < files.len()
        invariant
            i <= files.len(),
            out.len() == i,
            forall|j: int| 0 <= j < i ==>
                (#[trigger] out@[j]).deep_view() == spec_file_row(files@[j]@),
        decreases files.len() - i,
    {
        out.push(file_row(&files[i]));
        i = i + 1;
    }
    out
}

/// What a frame shows: the four panes as styled lines, and the entry of the
/// file list that is marked as selected.
pub struct Frame {
    pub files: Vec<Vec<Span>>,
    pub selected: Option<usize>,
    pub message: Vec<Vec<Span>>,
    pub recent: Vec<Vec<Span>>,
    pub diff: Vec<Vec<Span>>,
}

/// What a frame holds.
pub struct FrameView {
    pub files: Seq<Seq<SpanView>>,
    pub selected: Option<usize>,
    pub message: Seq<Seq<SpanView>>,
    pub recent: Seq<Seq<SpanView>>,
    pub diff: Seq<Seq<SpanView>>,
}

impl View for Frame {
    type V = FrameView;

    open spec fn view(&self) -> FrameView {
        FrameView {
            files: self.files.deep_view(),
            selected: self.selected,
            message: self.message.deep_view(),
            recent: self.recent.deep_view(),
            diff: self.diff.deep_view(),
        }
    }
}

/// The frame of a state at a time in milliseconds. The diff pane shows the
/// diff that is cached for the selected file, from the scroll offset on, and
/// is empty where none is cached.
pub open spec fn spec_frame(app: AppView, millis: u128) -> FrameView {
    FrameView {
        files: spec_file_rows(app.snapshot),
        selected: app.selection,
        message: spec_editor_lines(app.editor, spec_cursor_visible(millis)),
        recent: spec_recent_lines(app.recent),
        diff: match app.cached_for_selection() {
            Some(c) => spec_diff_rows(c.lines, app.diff_scroll, c.is_staged),
            None => Seq::empty(),
        },
    }
}

/// Renders the state at a time in milliseconds. Nothing of the state
/// changes.
pub fn ui(app: &App, millis: u128) -> (frame: Frame)
    requires
        app.wf(),
    ensures
        frame@ == spec_frame(app@, millis),
{
    let files = app.statuses().files();
    let file_lines = file_rows(files);
    assert(Seq::new(files@.len(), |i: int| files@[i]@) =~= app@.snapshot);
    let diff = match app.cached_diff() {
        Some(c) => diff_rows(&c.lines, app.diff_scroll(), c.is_staged),
        None => {
            let none: Vec<Vec<Span>> = Vec::new();
            assert(none.deep_view() =~= Seq::<Seq<SpanView>>::empty());
            none
        },
    };
    Frame {
        files: file_lines,
        selected: app.selected(),
        message: editor_lines(app.editor(), cursor_visible(millis)),
        recent: recent_lines(app.recent_commits()),
        diff,
    }
}

} // verus!
