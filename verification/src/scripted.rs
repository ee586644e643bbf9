//! A value source that plays back what it was given: fragments in order, and a list of
//! answers for the prompts.

use vstd::prelude::*;
use vstd::string::*;
use crate::cli::{answered, entered, picked, text_of, Canceled, Choice, Cli, NoticeKind};
use crate::text::texts;

verus! {

/// The answer to one prompt.
#[derive(Debug)]
pub enum Answer {
    /// Free text, for an input prompt.
    Text(String),
    /// The index of an item, for a selection.
    Index(usize),
    /// Yes or no, for a confirmation.
    Flag(bool),
    /// The operator backs out of the prompt, whatever it is.
    Cancel,
}

/// A notice that was shown.
#[derive(Debug)]
pub struct Notice {
    pub kind: NoticeKind,
    pub text: String,
}

/// Text for an input prompt: the answer if it is text, else a cancellation.
pub open spec fn as_text(answer: Option<Answer>) -> Option<Seq<char>> {
    match answer {
        Some(Answer::Text(s)) => Some(s@),
        _ => None,
    }
}

/// An index for a selection: the answer if it is an index, else a cancellation.
pub open spec fn as_index(answer: Option<Answer>) -> Option<nat> {
    match answer {
        Some(Answer::Index(i)) => Some(i as nat),
        _ => None,
    }
}

/// Yes or no for a confirmation: the answer if it is a flag, else a cancellation.
pub open spec fn as_flag(answer: Option<Answer>) -> Option<bool> {
    match answer {
        Some(Answer::Flag(b)) => Some(b),
        _ => None,
    }
}

/// The first of `s`, if there is one.
pub open spec fn head<T>(s: Seq<T>) -> Option<T> {
    if s.len() > 0 {
        Some(s[0])
    } else {
        None
    }
}

/// `s` without its first, or `s` itself where it is empty.
pub open spec fn rest<T>(s: Seq<T>) -> Seq<T> {
    if s.len() > 0 {
        s.skip(1)
    } else {
        s
    }
}

/// A source that answers from a script.
///
/// Fragments are handed out in order until none is left. Each prompt takes the next
/// answer; where that answer is of another kind than the prompt, or none is left, the
/// prompt counts as canceled. Notices are kept and never fail.
pub struct Scripted {
    fragments: Vec<String>,
    answers: Vec<Answer>,
    notices: Vec<Notice>,
}

impl Scripted {
    /// The fragments not handed out yet.
    pub closed spec fn fragments_left(&self) -> Seq<Seq<char>> {
        texts(self.fragments@)
    }

    /// The answers not given yet.
    pub closed spec fn answers_left(&self) -> Seq<Answer> {
        self.answers@
    }

    /// The notices shown so far, oldest first.
    pub closed spec fn shown(&self) -> Seq<Notice> {
        self.notices@
    }

    /// A source that will hand out `fragments`, then answer prompts from `answers`.
    pub fn new(fragments: Vec<String>, answers: Vec<Answer>) -> (source: Scripted)
        ensures
            source.fragments_left() == texts(fragments@),
            source.answers_left() == answers@,
            source.shown() == Seq::<Notice>::empty(),
    {
        Scripted { fragments, answers, notices: Vec::new() }
    }

    /// How many fragments have not been handed out yet.
    pub fn unused_fragments(&self) -> (n: usize)
        ensures
            n == self.fragments_left().len(),
    {
        self.fragments.len()
    }

    /// How many answers have not been given yet.
    pub fn unused_answers(&self) -> (n: usize)
        ensures
            n == self.answers_left().len(),
    {
        self.answers.len()
    }

    /// The notices shown so far, oldest first.
    pub fn notices(&self) -> (shown: &Vec<Notice>)
        ensures
            shown@ == self.shown(),
    {
        &self.notices
    }

    fn take_answer(&mut self) -> (answer: Option<Answer>)
        ensures
            answer == head(old(self).answers_left()),
            final(self).answers_left() == rest(old(self).answers_left()),
            final(self).fragments_left() == old(self).fragments_left(),
            final(self).shown() == old(self).shown(),
    {
        if self.answers.len() > 0 {
            let answer = self.answers.remove(0);
            assert(self.answers@ =~= old(self).answers@.skip(1));
            Some(answer)
        } else {
            None
        }
    }
}

impl Cli for Scripted {
    fn next_positional(&mut self) -> (r: Option<String>)
        ensures
            text_of(r) == head(old(self).fragments_left()),
            final(self).fragments_left() == rest(old(self).fragments_left()),
            final(self).answers_left() == old(self).answers_left(),
            final(self).shown() == old(self).shown(),
    {
        if self.fragments.len() > 0 {
            let text = self.fragments.remove(0);
            assert(texts(self.fragments@) =~= texts(old(self).fragments@).skip(1));
            Some(text)
        } else {
            None
        }
    }

    fn input(&mut self, label: &str, placeholder: &str, default: Option<&str>) -> (r: Result<
        String,
        Canceled,
    >)
        ensures
            entered(r) == as_text(head(old(self).answers_left())),
            final(self).answers_left() == rest(old(self).answers_left()),
            final(self).fragments_left() == old(self).fragments_left(),
            final(self).shown() == old(self).shown(),
    {
        match self.take_answer() {
            Some(Answer::Text(text)) => Ok(text),
            _ => Err(Canceled),
        }
    }

    fn select(&mut self, label: &str, items: &Vec<Choice>) -> (r: Result<usize, Canceled>)
        ensures
            picked(r) == as_index(head(old(self).answers_left())),
            final(self).answers_left() == rest(old(self).answers_left()),
            final(self).fragments_left() == old(self).fragments_left(),
            final(self).shown() == old(self).shown(),
    {
        match self.take_answer() {
            Some(Answer::Index(index)) => Ok(index),
            _ => Err(Canceled),
        }
    }

    fn confirm(&mut self, label: &str, initial: bool) -> (r: Result<bool, Canceled>)
        ensures
            answered(r) == as_flag(head(old(self).answers_left())),
            final(self).answers_left() == rest(old(self).answers_left()),
            final(self).fragments_left() == old(self).fragments_left(),
            final(self).shown() == old(self).shown(),
    {
        match self.take_answer() {
            Some(Answer::Flag(flag)) => Ok(flag),
            _ => Err(Canceled),
        }
    }

    fn notice(&mut self, kind: NoticeKind, text: &str) -> (r: Result<(), Canceled>)
        ensures
            r is Ok,
            final(self).shown().len() == old(self).shown().len() + 1,
            final(self).shown().last().kind == kind,
            final(self).shown().last().text@ == text@,
            final(self).shown().drop_last() == old(self).shown(),
            final(self).answers_left() == old(self).answers_left(),
            final(self).fragments_left() == old(self).fragments_left(),
    {
        self.notices.push(Notice { kind, text: String::from_str(text) });
        assert(self.notices@.drop_last() =~= old(self).notices@);
        Ok(())
    }
}

} // verus!
