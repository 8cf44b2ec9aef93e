//! The diff of the selected file: what is handed to the diff tool, and the
//! lines that what it hands back is turned into.

use vstd::prelude::*;
use vstd::string::*;
use crate::app::{App, AppView, DiffCacheView};
use crate::repository::{blob_content, head_tree, tree_record};
use crate::status::{Status, StatusView};
use crate::text::{
    after_last, chars_of, decimal, lemma_after_last, lines, lines_of, push_decimal, string_of,
    texts,
};

verus! {

/// The name of the diff tool.
pub open spec fn spec_tool_name() -> Seq<char> {
    "difft"@
}

/// The name of the diff tool.
pub fn tool_name() -> (s: String)
    ensures
        s@ == spec_tool_name(),
{
    String::from_str("difft")
}

/// The narrowest diff that the tool is asked for.
pub const MIN_DIFF_WIDTH: u16 = 40;

/// What the borders of the pane take of its width.
pub const BORDER_ALLOWANCE: u16 = 4;

/// The width handed to the diff tool for a pane of the given width: the pane
/// without its borders, and not less than forty columns.
pub open spec fn spec_display_width(pane_width: u16) -> u16 {
    if pane_width >= MIN_DIFF_WIDTH + BORDER_ALLOWANCE {
        (pane_width - BORDER_ALLOWANCE) as u16
    } else {
        MIN_DIFF_WIDTH
    }
}

/// The width handed to the diff tool for a pane of the given width.
pub fn display_width(pane_width: u16) -> (w: u16)
    ensures
        w == spec_display_width(pane_width),
        w >= MIN_DIFF_WIDTH,
{
    let inner = pane_width.saturating_sub(BORDER_ALLOWANCE);
    if inner < MIN_DIFF_WIDTH {
        MIN_DIFF_WIDTH
    } else {
        inner
    }
}

/// The arguments of the diff tool before the two files: colour always, the
/// changes shown inline, syntax highlighting on, and the width.
pub open spec fn spec_tool_args(pane_width: u16) -> Seq<Seq<char>> {
    seq![
        "--color=always"@,
        "--display=inline"@,
        "--syntax-highlight=on"@,
        "--width="@ + decimal(spec_display_width(pane_width) as nat),
    ]
}

/// The arguments of the diff tool before the two files.
pub fn tool_args(pane_width: u16) -> (args: Vec<String>)
    ensures
        texts(args@) == spec_tool_args(pane_width),
{
    let mut width = chars_of("--width=");
    push_decimal(&mut width, display_width(pane_width) as u64);
    let mut args: Vec<String> = Vec::new();
    args.push(String::from_str("--color=always"));
    args.push(String::from_str("--display=inline"));
    args.push(String::from_str("--syntax-highlight=on"));
    args.push(string_of(&width));
    args
}

/// The name of the file that a path ends with: what follows its last slash.
pub open spec fn file_name_of(path: Seq<char>) -> Seq<char> {
    path.skip(after_last(path, '/'))
}

/// The extension of the file that a path names: what follows the last dot of
/// the file's name, where that dot is not the name's first character and the
/// name is not `..`. Without one, `txt`.
pub open spec fn extension_of(path: Seq<char>) -> Seq<char> {
    let name = file_name_of(path);
    let dot = after_last(name, '.');
    if dot <= 1 || name == ".."@ {
        "txt"@
    } else {
        name.skip(dot)
    }
}

/// The suffix of the temporary files that hold the two versions of a file:
/// a dot and the file's extension, by which the diff tool finds its syntax.
pub open spec fn spec_temp_suffix(path: Seq<char>) -> Seq<char> {
    seq!['.'] + extension_of(path)
}

/// The index after the last `c` in `v[from..]`, counted in `v`; `from` where
/// there is none.
fn rfind_after(v: &Vec<char>, from: usize, c: char) -> (i: usize)
    requires
        from <= v.len(),
    ensures
        from <= i <= v.len(),
        i - from == after_last(v@.skip(from as int), c),
{
    let mut i: usize = v.len();
    while i > from && v[i - 1] != c
        invariant
            from <= i <= v.len(),
            forall|j: int| i <= j < v.len() ==> v@[j] != c,
        decreases i,
    {
        i = i - 1;
    }
    proof {
        lemma_after_last(v@.skip(from as int), c, i - from);
    }
    i
}

/// The suffix of the temporary files for a path.
pub fn temp_suffix(path: &str) -> (s: String)
    ensures
        s@ == spec_temp_suffix(path@),
{
    let cs = chars_of(path);
    let start = rfind_after(&cs, 0, '/');
    proof {
        assert(cs@.skip(0) == cs@);
    }
    let dot = rfind_after(&cs, start, '.');
    let ghost name = cs@.skip(start as int);
    let is_parent = cs.len() - start == 2 && cs[start] == '.' && cs[start + 1] == '.';
    proof {
        reveal_strlit("..");
        if is_parent {
            assert(name =~= ".."@);
        }
        if name == ".."@ {
            assert(name[0] == '.' && name[1] == '.');
        }
        reveal_strlit("txt");
    }
    let mut out: Vec<char> = Vec::new();
    out.push('.');
    if dot - start <= 1 || is_parent {
        out.push('t');
        out.push('x');
        out.push('t');
    } else {
        let mut i: usize = dot;
        while i < cs.len()
            invariant
                dot <= i <= cs.len(),
                out@ == seq!['.'] + cs@.subrange(dot as int, i as int),
            decreases cs.len() - i,
        {
            out.push(cs[i]);
            i = i + 1;
        }
    }
    string_of(&out)
}

/// The lines shown in place of a diff when the diff tool cannot be run: the
/// notice that it was not found comes first.
pub open spec fn fallback_lines(path: Seq<char>) -> Seq<Seq<char>> {
    seq![
        "difftastic (difft) not found in PATH"@,
        "Install it with: cargo install difftastic"@,
        ""@,
        "Showing plain diff instead:"@,
        ""@,
        "--- "@ + path,
        "+++ "@ + path,
    ]
}

/// The lines of a diff: those of the tool's output where it ran and ended
/// well, the fallback notice otherwise.
pub open spec fn diff_lines(path: Seq<char>, tool_output: Option<Seq<char>>) -> Seq<Seq<char>> {
    match tool_output {
        Some(output) => lines_of(output),
        None => fallback_lines(path),
    }
}

/// The diff of a file as lines, and whether the file has a staged change.
/// `tool_output` is what the diff tool printed, or nothing where it could not
/// be run or did not end well. With no file there are no lines.
pub open spec fn spec_render(file: Option<StatusView>, tool_output: Option<Seq<char>>) -> (
    Seq<Seq<char>>,
    bool,
) {
    match file {
        Some(f) => (diff_lines(f.path, tool_output), f.staged is Some),
        None => (Seq::empty(), false),
    }
}

/// Renders the diff of a file from what the diff tool printed, or from
/// nothing where it could not be run or did not end well.
pub fn render(file: Option<&Status>, tool_output: Option<&str>) -> (r: (Vec<String>, bool))
    ensures
        (texts(r.0@), r.1) == spec_render(
            match file {
                Some(f) => Some(f@),
                None => None,
            },
            match tool_output {
                Some(o) => Some(o@),
                None => None,
            },
        ),
{
    let file = match file {
        Some(f) => f,
        None => {
            let none: Vec<String> = Vec::new();
            return (none, false);
        },
    };
    let is_staged = file.staged.is_some();
    match tool_output {
        Some(output) => (lines(output), is_staged),
        None => {
            let mut out: Vec<String> = Vec::new();
            out.push(String::from_str("difftastic (difft) not found in PATH"));
            out.push(String::from_str("Install it with: cargo install difftastic"));
            out.push(String::from_str(""));
            out.push(String::from_str("Showing plain diff instead:"));
            out.push(String::from_str(""));
            out.push(String::from_str("--- ").concat(file.path.as_str()));
            out.push(String::from_str("+++ ").concat(file.path.as_str()));
            (out, is_staged)
        },
    }
}

/// What the diff tool is to be run on.
pub struct DiffRequest {
    /// The path of the file in the repository.
    pub path: String,
    /// The file as the last commit holds it; empty for a file that the commit
    /// does not hold.
    pub old_content: Vec<u8>,
    /// The suffix for the names of the two temporary files.
    pub suffix: String,
    /// The arguments that come before the two files.
    pub args: Vec<String>,
}

/// The content of a file from what reading it came to: the bytes that were
/// read, and none where it could not be read.
pub fn content_or_empty(read: Result<Vec<u8>, git2::Error>) -> (content: Vec<u8>)
    ensures
        match read {
            Ok(bytes) => content == bytes,
            Err(_) => content@ == Seq::<u8>::empty(),
        },
{
    match read {
        Ok(bytes) => bytes,
        Err(_) => Vec::new(),
    }
}

/// The content of `path` in the commit that HEAD points to; empty where
/// there is no such commit, where it does not hold the path, or where what it
/// holds there is no file.
pub fn head_content(repo: &git2::Repository, path: &str) -> (content: Vec<u8>) {
    match head_tree(repo) {
        Ok(tree) => {
            match tree_record(&tree, path) {
                Ok(found) => content_or_empty(blob_content(repo, found.id)),
                Err(_) => Vec::new(),
            }
        },
        Err(_) => Vec::new(),
    }
}

impl App {
    /// Whether a diff has to be rendered before the next frame: a file is
    /// selected and no diff is cached for it.
    pub fn needs_diff(&self) -> (r: bool)
        requires
            self.wf(),
        ensures
            r == (self@.selection is Some && self@.cached_for_selection() is None),
    {
        self.selected().is_some() && self.cached_diff().is_none()
    }

    /// What the diff tool is to be run on for the selected file; with no
    /// file selected, nothing.
    pub fn diff_request(&self, pane_width: u16) -> (r: Option<DiffRequest>)
        requires
            self.wf(),
        ensures
            r is Some == self@.selection is Some,
            r matches Some(req) ==> {
                &&& req.path@ == self@.snapshot[self@.selection->0 as int].path
                &&& req.suffix@ == spec_temp_suffix(req.path@)
                &&& texts(req.args@) == spec_tool_args(pane_width)
            },
    {
        match self.selected_file() {
            Some(file) => {
                let path = file.path.clone();
                Some(
                    DiffRequest {
                        old_content: head_content(self.repo(), file.path.as_str()),
                        suffix: temp_suffix(file.path.as_str()),
                        args: tool_args(pane_width),
                        path,
                    },
                )
            },
            None => None,
        }
    }

    /// Renders the diff of the selected file from what the diff tool printed
    /// and keeps it, where a diff is needed; where none is, nothing changes.
    pub fn cache_diff(&mut self, tool_output: Option<&str>)
        requires
            old(self).wf(),
        ensures
            final(self).wf(),
            final(self)@ == (match old(self)@.selection {
                Some(i) => if old(self)@.cached_for_selection() is None {
                    AppView {
                        cache: Some(
                            DiffCacheView {
                                selected_index: i,
                                lines: diff_lines(
                                    old(self)@.snapshot[i as int].path,
                                    match tool_output {
                                        Some(o) => Some(o@),
                                        None => None,
                                    },
                                ),
                                is_staged: old(self)@.snapshot[i as int].staged is Some,
                            },
                        ),
                        ..old(self)@
                    }
                } else {
                    old(self)@
                },
                None => old(self)@,
            }),
            final(self)@.selection is Some ==> final(self)@.cached_for_selection() is Some,
    {
        if self.needs_diff() {
            let (lines, is_staged) = self.get_diff(tool_output);
            self.store_diff(lines, is_staged);
        }
    }

    /// The diff of the selected file from what the diff tool printed, or the
    /// fallback notice where it printed nothing; the flag says whether the
    /// file has a staged change.
    pub fn get_diff(&self, tool_output: Option<&str>) -> (r: (Vec<String>, bool))
        requires
            self.wf(),
        ensures
            (texts(r.0@), r.1) == spec_render(
                match self@.selection {
                    Some(i) => Some(self@.snapshot[i as int]),
                    None => None,
                },
                match tool_output {
                    Some(o) => Some(o@),
                    None => None,
                },
            ),
    {
        render(self.selected_file(), tool_output)
    }
}

} // verus!
