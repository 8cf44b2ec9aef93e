//! Suggestions for the subject of a commit.

use vstd::prelude::*;
use vstd::string::*;
use crate::prompt::scope::{dedup, distinct};
use crate::text::texts;
use crate::words::{contains, contains_text};

verus! {

/// The subjects among `subjects` that hold `input`, in the order of
/// `subjects`.
pub open spec fn subject_suggestions(subjects: Seq<Seq<char>>, input: Seq<char>) -> Seq<Seq<char>>
    decreases subjects.len(),
{
    if subjects.len() == 0 {
        Seq::empty()
    } else {
        let before = subject_suggestions(subjects.drop_last(), input);
        if contains_text(subjects.last(), input) {
            before.push(subjects.last())
        } else {
            before
        }
    }
}

/// Completes the subject of a commit from the subjects of earlier commits.
#[derive(Clone)]
pub struct CommitSubjectCompleter {
    previous_subjects: Vec<String>,
}

impl View for CommitSubjectCompleter {
    type V = Seq<Seq<char>>;

    closed spec fn view(&self) -> Seq<Seq<char>> {
        texts(self.previous_subjects@)
    }
}

impl CommitSubjectCompleter {
    /// A completer over the given subjects, each kept once.
    pub fn new(previous_subjects: Vec<String>) -> (c: CommitSubjectCompleter)
        ensures
            c@ == distinct(texts(previous_subjects@)),
    {
        CommitSubjectCompleter { previous_subjects: dedup(previous_subjects) }
    }

    /// The subjects that hold the input.
    pub fn get_suggestions(&self, input: &str) -> (out: Vec<String>)
        ensures
            texts(out@) == subject_suggestions(self@, input@),
    {
        let ghost all = texts(self.previous_subjects@);
        let mut out: Vec<String> = Vec::new();
        let mut i: usize = 0;
        while i < self.previous_subjects.len()
            invariant
                i <= self.previous_subjects.len(),
                all == texts(self.previous_subjects@),
                texts(out@) == subject_suggestions(all.take(i as int), input@),
            decreases self.previous_subjects.len() - i,
        {
            proof {
                assert(all.take(i + 1).drop_last() == all.take(i as int));
            }
            if contains(self.previous_subjects[i].as_str(), input) {
                let subject = self.previous_subjects[i].clone();
                out.push(subject);
            }
            i = i + 1;
        }
        proof {
            assert(all.take(i as int) == all);
        }
        out
    }

    /// What completes the input: the highlighted suggestion, and nothing
    /// without one.
    pub fn get_completion(&self, input: &str, highlighted: Option<String>) -> (r: Option<String>)
        ensures
            r == highlighted,
    {
        highlighted
    }
}

} // verus!
