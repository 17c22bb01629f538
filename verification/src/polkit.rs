//! The protocol of `polkit-agent-helper-1`: each line it prints asks for a
//! password, shows a message, or ends the authentication.
use vstd::prelude::*;
use crate::desktop::first_index;
use crate::strings::{chars_eq_str, chars_of, string_of, string_push_str, trim_chars, trim_spec};

verus! {

/// What a helper line means.
#[derive(Clone, Debug, PartialEq, Eq)]
pub enum Event {
    Failed,
    /// A prompt, and whether the answer may be echoed.
    Request(String, bool),
    ShowError(String),
    ShowDebug(String),
    /// Whether authentication succeeded.
    Complete(bool),
}

/// The meaning of a helper line, with texts as character sequences.
pub enum EventView {
    Failed,
    Request(Seq<char>, bool),
    ShowError(Seq<char>),
    ShowDebug(Seq<char>),
    Complete(bool),
}

impl View for Event {
    type V = EventView;

    open spec fn view(&self) -> EventView {
        match self {
            Event::Failed => EventView::Failed,
            Event::Request(s, echo) => EventView::Request(s@, *echo),
            Event::ShowError(s) => EventView::ShowError(s@),
            Event::ShowDebug(s) => EventView::ShowDebug(s@),
            Event::Complete(ok) => EventView::Complete(*ok),
        }
    }
}

/// `s` split at its first space: the part before and the part after; with
/// no space, all of `s` and nothing.
pub open spec fn split_once_space(s: Seq<char>) -> (Seq<char>, Seq<char>) {
    let p = first_index(s, ' ');
    if p < 0 {
        (s, Seq::empty())
    } else {
        (s.subrange(0, p), s.subrange(p + 1, s.len() as int))
    }
}

/// The meaning of a helper line: its first word says what it is, the rest is
/// the text; surrounding white space is ignored. Unknown lines mean nothing.
pub open spec fn parse_line_spec(line: Seq<char>) -> Option<EventView> {
    let (prefix, rest) = split_once_space(trim_spec(line));
    if prefix == "PAM_PROMPT_ECHO_OFF"@ {
        Some(EventView::Request(rest, false))
    } else if prefix == "PAM_PROMPT_ECHO_ON"@ {
        Some(EventView::Request(rest, true))
    } else if prefix == "PAM_ERROR_MSG"@ {
        Some(EventView::ShowError(rest))
    } else if prefix == "PAM_TEXT_INFO"@ {
        Some(EventView::ShowDebug(rest))
    } else if prefix == "SUCCESS"@ {
        Some(EventView::Complete(true))
    } else if prefix == "FAILURE"@ {
        Some(EventView::Complete(false))
    } else {
        None
    }
}

fn split_at_space(v: &Vec<char>) -> (r: (Vec<char>, Vec<char>))
    ensures
        (r.0@, r.1@) == split_once_space(v@),
{
    proof {
        crate::desktop::lemma_first_index(v@, ' ');
    }
    let mut i: usize = 0;
    while i < v.len() && v[i] != ' '
        invariant
            i <= v.len(),
            forall|j: int| 0 <= j < i ==> v@[j] != ' ',
            -1 <= first_index(v@, ' ') < v@.len(),
            first_index(v@, ' ') >= 0 ==> v@[first_index(v@, ' ')] == ' ',
            forall|j: int| 0 <= j < v@.len() && (first_index(v@, ' ') < 0 || j < first_index(v@, ' '))
                ==> v@[j] != ' ',
        decreases v.len() - i,
    {
        i = i + 1;
    }
    let mut before: Vec<char> = Vec::new();
    let mut k: usize = 0;
    while k < i
        invariant
            k <= i <= v.len(),
            before@ == v@.subrange(0, k as int),
        decreases i - k,
    {
        before.push(v[k]);
        k = k + 1;
    }
    let mut after: Vec<char> = Vec::new();
    if i < v.len() {
        let mut k: usize = i + 1;
        while k < v.len()
            invariant
                i < v.len(),
                i + 1 <= k <= v.len(),
                after@ == v@.subrange(i + 1, k as int),
            decreases v.len() - k,
        {
            after.push(v[k]);
            k = k + 1;
        }
    } else {
        assert(before@ =~= v@);
    }
    (before, after)
}

/// The meaning of one helper line, if it has one.
pub fn parse_line(line: &str) -> (r: Option<Event>)
    ensures
        match r {
            Some(e) => parse_line_spec(line@) == Some(e@),
            None => parse_line_spec(line@) is None,
        },
{
    let v = chars_of(line);
    let t = trim_chars(&v);
    let (prefix, rest) = split_at_space(&t);
    if chars_eq_str(&prefix, "PAM_PROMPT_ECHO_OFF") {
        Some(Event::Request(string_of(&rest), false))
    } else if chars_eq_str(&prefix, "PAM_PROMPT_ECHO_ON") {
        Some(Event::Request(string_of(&rest), true))
    } else if chars_eq_str(&prefix, "PAM_ERROR_MSG") {
        Some(Event::ShowError(string_of(&rest)))
    } else if chars_eq_str(&prefix, "PAM_TEXT_INFO") {
        Some(Event::ShowDebug(string_of(&rest)))
    } else if chars_eq_str(&prefix, "SUCCESS") {
        Some(Event::Complete(true))
    } else if chars_eq_str(&prefix, "FAILURE") {
        Some(Event::Complete(false))
    } else {
        None
    }
}

/// Reads the helper's output for one event: the text read so far is kept
/// until it has a meaning (an unknown line stays in front of what follows).
pub struct HelperReader {
    line: String,
}

impl View for HelperReader {
    type V = Seq<char>;

    closed spec fn view(&self) -> Seq<char> {
        self.line@
    }
}

impl HelperReader {
    /// Nothing read yet.
    pub fn new() -> (r: Self)
        ensures
            r@ == Seq::<char>::empty(),
    {
        HelperReader { line: String::new() }
    }

    /// Takes the next line read from the helper; returns the event once the
    /// text read so far has a meaning.
    pub fn feed(&mut self, read: &str) -> (r: Option<Event>)
        ensures
            final(self)@ == old(self)@ + read@,
            match r {
                Some(e) => parse_line_spec(final(self)@) == Some(e@),
                None => parse_line_spec(final(self)@) is None,
            },
    {
        string_push_str(&mut self.line, read);
        parse_line(self.line.as_str())
    }

    /// The event when the helper's output ends before any meaningful line.
    pub fn finish(&self) -> (r: Event)
        ensures
            r == Event::Failed,
    {
        Event::Failed
    }
}

} // verus!
