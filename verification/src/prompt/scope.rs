//! Suggestions for the scope of a commit.

use vstd::prelude::*;
use vstd::string::*;
use crate::text::{same_text, texts};
use crate::words::{contains, contains_text, lowercase_of, to_lowercase};

verus! {

/// The texts of a list, each once, in the order in which they come first.
pub open spec fn distinct(items: Seq<Seq<char>>) -> Seq<Seq<char>>
    decreases items.len(),
{
    if items.len() == 0 {
        Seq::empty()
    } else {
        let before = distinct(items.drop_last());
        if before.contains(items.last()) {
            before
        } else {
            before.push(items.last())
        }
    }
}

/// Nothing stands twice in `distinct`, and it holds what the list holds.
pub proof fn lemma_distinct(items: Seq<Seq<char>>)
    ensures
        forall|i: int, j: int|
            0 <= i < j < distinct(items).len() ==> distinct(items)[i] != distinct(items)[j],
        forall|t: Seq<char>| distinct(items).contains(t) <==> items.contains(t),
    decreases items.len(),
{
    if items.len() > 0 {
        let init = items.drop_last();
        let before = distinct(init);
        lemma_distinct(init);
        assert forall|t: Seq<char>| distinct(items).contains(t) <==> items.contains(t) by {
            if items.contains(t) {
                let k = choose|k: int| 0 <= k < items.len() && items[k] == t;
                if k < items.len() - 1 {
                    assert(init[k] == t);
                    assert(init.contains(t));
                    let m = choose|m: int| 0 <= m < before.len() && before[m] == t;
                    assert(distinct(items)[m] == t);
                } else {
                    if before.contains(t) {
                    } else {
                        assert(distinct(items)[before.len() as int] == t);
                    }
                }
            }
            if distinct(items).contains(t) {
                let m = choose|m: int| 0 <= m < distinct(items).len() && distinct(items)[m] == t;
                if m < before.len() {
                    assert(init.contains(t));
                }
            }
        }
    }
}

/// Whether `items` holds a string of the characters of `text`.
pub fn holds(items: &Vec<String>, text: &str) -> (r: bool)
    ensures
        r == texts(items@).contains(text@),
{
    let mut i: usize = 0;
    while i < items.len()
        invariant
            i <= items.len(),
            forall|j: int| 0 <= j < i ==> texts(items@)[j] != text@,
        decreases items.len() - i,
    {
        if same_text(items[i].as_str(), text) {
            assert(texts(items@)[i as int] == text@);
            return true;
        }
        i = i + 1;
    }
    false
}

/// The strings of `items`, each once, in the order in which they come first.
pub fn dedup(items: Vec<String>) -> (out: Vec<String>)
    ensures
        texts(out@) == distinct(texts(items@)),
{
    let ghost all = texts(items@);
    let mut out: Vec<String> = Vec::new();
    for s in it: items
        invariant
            it.seq() == items@,
            all == texts(items@),
            texts(out@) == distinct(all.take(it.index() as int)),
    {
        proof {
            assert(all.take(it.index() + 1).drop_last() == all.take(it.index() as int));
        }
        if !holds(&out, s.as_str()) {
            out.push(s);
        }
    }
    proof {
        assert(all.take(all.len() as int) == all);
    }
    out
}

/// The scopes among `scopes` that hold `input`, in lower case, in the order
/// of `scopes`.
pub open spec fn scope_suggestions(scopes: Seq<Seq<char>>, input: Seq<char>) -> Seq<Seq<char>>
    decreases scopes.len(),
{
    if scopes.len() == 0 {
        Seq::empty()
    } else {
        let before = scope_suggestions(scopes.drop_last(), input);
        if contains_text(scopes.last(), input) {
            before.push(lowercase_of(scopes.last()))
        } else {
            before
        }
    }
}

/// The first of `scopes` that holds `input`, where there is one.
pub open spec fn first_holding(scopes: Seq<Seq<char>>, input: Seq<char>) -> Option<Seq<char>>
    decreases scopes.len(),
{
    if scopes.len() == 0 {
        None
    } else if contains_text(scopes[0], input) {
        Some(scopes[0])
    } else {
        first_holding(scopes.drop_first(), input)
    }
}

/// What completes an input: the suggestion that is highlighted, and
/// otherwise the first scope that holds the input.
pub open spec fn scope_completion(
    scopes: Seq<Seq<char>>,
    input: Seq<char>,
    highlighted: Option<Seq<char>>,
) -> Option<Seq<char>> {
    match highlighted {
        Some(s) => Some(s),
        None => first_holding(scopes, input),
    }
}

proof fn lemma_first_holding(scopes: Seq<Seq<char>>, input: Seq<char>, i: int)
    requires
        0 <= i <= scopes.len(),
        forall|j: int| 0 <= j < i ==> !contains_text(scopes[j], input),
        i == scopes.len() || contains_text(scopes[i], input),
    ensures
        first_holding(scopes, input) == (if i < scopes.len() {
            Some(scopes[i])
        } else {
            None
        }),
    decreases scopes.len(),
{
    if i > 0 {
        let rest = scopes.drop_first();
        assert forall|j: int| 0 <= j < i - 1 implies !contains_text(rest[j], input) by {
        }
        lemma_first_holding(rest, input, i - 1);
    }
}

/// Completes the scope of a commit from the scopes of earlier commits.
#[derive(Clone)]
pub struct CommitScopeCompleter {
    scopes: Vec<String>,
}

impl View for CommitScopeCompleter {
    type V = Seq<Seq<char>>;

    closed spec fn view(&self) -> Seq<Seq<char>> {
        texts(self.scopes@)
    }
}

impl CommitScopeCompleter {
    /// A completer over the given scopes, each kept once.
    pub fn new(scopes: Vec<String>) -> (c: CommitScopeCompleter)
        ensures
            c@ == distinct(texts(scopes@)),
    {
        CommitScopeCompleter { scopes: dedup(scopes) }
    }

    /// The scopes that hold the input, in lower case.
    pub fn get_suggestions(&self, input: &str) -> (out: Vec<String>)
        ensures
            texts(out@) == scope_suggestions(self@, input@),
    {
        let ghost all = texts(self.scopes@);
        let mut out: Vec<String> = Vec::new();
        let mut i: usize = 0;
        while i < self.scopes.len()
            invariant
                i <= self.scopes.len(),
                all == texts(self.scopes@),
                texts(out@) == scope_suggestions(all.take(i as int), input@),
            decreases self.scopes.len() - i,
        {
            proof {
                assert(all.take(i + 1).drop_last() == all.take(i as int));
            }
            if contains(self.scopes[i].as_str(), input) {
                let lower = to_lowercase(self.scopes[i].as_str());
                out.push(lower);
            }
            i = i + 1;
        }
        proof {
            assert(all.take(i as int) == all);
        }
        out
    }

    /// What completes the input: the highlighted suggestion, or the first
    /// scope that holds the input.
    pub fn get_completion(&self, input: &str, highlighted: Option<String>) -> (r: Option<String>)
        ensures
            match r {
                Some(s) => Some(s@),
                None => None,
            } == scope_completion(
                self@,
                input@,
                match highlighted {
                    Some(s) => Some(s@),
                    None => None,
                },
            ),
    {
        match highlighted {
            Some(s) => {
                return Some(s);
            },
            None => {},
        }
        let ghost all = texts(self.scopes@);
        let mut i: usize = 0;
        while i < self.scopes.len()
            invariant
                i <= self.scopes.len(),
                all == texts(self.scopes@),
                highlighted is None,
                forall|j: int| 0 <= j < i ==> !contains_text(all[j], input@),
            decreases self.scopes.len() - i,
        {
            if contains(self.scopes[i].as_str(), input) {
                proof {
                    lemma_first_holding(all, input@, i as int);
                }
                return Some(self.scopes[i].clone());
            }
            i = i + 1;
        }
        proof {
            lemma_first_holding(all, input@, i as int);
        }
        None
    }
}

} // verus!
