//! The human-in-the-loop approval step: how a typed answer is read, and what the
//! user decided.

use vstd::prelude::*;

use crate::text::{chars_of, range_is, trim, trim_spec};

verus! {

/// What the user decided about a proposed set of tool calls.
#[derive(Debug)]
pub enum HitlDecision {
    /// Run the proposed tools.
    Approve,
    /// Do not run them; optionally tell the model why.
    Reject(Option<String>),
    /// Stop the agent.
    Quit,
}

pub enum HitlDecisionView {
    Approve,
    Reject(Option<Seq<char>>),
    Quit,
}

impl View for HitlDecision {
    type V = HitlDecisionView;

    open spec fn view(&self) -> HitlDecisionView {
        match self {
            HitlDecision::Approve => HitlDecisionView::Approve,
            HitlDecision::Reject(f) => HitlDecisionView::Reject(f.deep_view()),
            HitlDecision::Quit => HitlDecisionView::Quit,
        }
    }
}

/// How one line typed at the approval prompt is understood.
#[derive(Clone, Copy, PartialEq, Eq, Debug, Structural)]
pub enum HitlReply {
    Approve,
    Reject,
    Quit,
    Unrecognized,
}

/// ASCII letters folded to lower case; other characters unchanged.
pub open spec fn ascii_lower(c: char) -> char {
    if 'A' <= c && c <= 'Z' {
        ((c as u32) + 32) as char
    } else {
        c
    }
}

pub open spec fn lower_text(s: Seq<char>) -> Seq<char> {
    s.map_values(|c: char| ascii_lower(c))
}

/// The reply a line stands for: the line is trimmed and compared without
/// regard to case with `y`/`yes`, `n`/`no` and `q`/`quit`.
///
/// Lower-casing only ASCII letters gives the same comparisons as full
/// Unicode lower-casing here: no character outside ASCII lower-cases to
/// any of the letters in these words.
pub open spec fn reply_of(line: Seq<char>) -> HitlReply {
    let w = lower_text(trim_spec(line));
    if w == "y"@ || w == "yes"@ {
        HitlReply::Approve
    } else if w == "n"@ || w == "no"@ {
        HitlReply::Reject
    } else if w == "q"@ || w == "quit"@ {
        HitlReply::Quit
    } else {
        HitlReply::Unrecognized
    }
}

fn lower_char(c: char) -> (d: char)
    ensures
        d == ascii_lower(c),
{
    if 'A' <= c && c <= 'Z' {
        let u = ((c as u32) + 32) as u8;
        u as char
    } else {
        c
    }
}

fn word_is(w: &Vec<char>, expected: &str) -> (b: bool)
    ensures
        b == (w@ == expected@),
{
    let r = range_is(w, 0, w.len(), expected);
    assert(w@.subrange(0, w.len() as int) =~= w@);
    r
}

/// Reads one line typed at the approval prompt.
pub fn parse_reply(line: &str) -> (r: HitlReply)
    ensures
        r == reply_of(line@),
{
    let t = trim(line);
    let cs = chars_of(t.as_str());
    let mut w: Vec<char> = Vec::new();
    let mut i: usize = 0;
    while i < cs.len()
        invariant
            i <= cs.len(),
            w@ == lower_text(cs@.take(i as int)),
        decreases cs.len() - i,
    {
        let d = lower_char(cs[i]);
        w.push(d);
        assert(lower_text(cs@.take(i + 1)) =~= lower_text(cs@.take(i as int)).push(d));
        i = i + 1;
    }
    assert(cs@.take(cs.len() as int) =~= cs@);
    assert(w@ == lower_text(trim_spec(line@)));
    if word_is(&w, "y") || word_is(&w, "yes") {
        HitlReply::Approve
    } else if word_is(&w, "n") || word_is(&w, "no") {
        HitlReply::Reject
    } else if word_is(&w, "q") || word_is(&w, "quit") {
        HitlReply::Quit
    } else {
        HitlReply::Unrecognized
    }
}

/// The feedback given after a rejection: the trimmed line, or none when
/// it is empty.
pub fn feedback_of(line: &str) -> (f: Option<String>)
    ensures
        f.deep_view() == (if trim_spec(line@).len() == 0 {
            None
        } else {
            Some(trim_spec(line@))
        }),
{
    let t = trim(line);
    if t.as_str().is_empty() {
        None
    } else {
        Some(t)
    }
}

} // verus!
