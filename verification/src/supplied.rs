//! Pre-supplied fragments in front of a source of prompts.

use vstd::prelude::*;
use crate::cli::{text_of, Canceled, Choice, Cli, NoticeKind};
use crate::scripted::{head, rest};
use crate::text::texts;

verus! {

/// A source that hands out the fragments it was given, in order, and passes every
/// prompt and notice on to the source behind it.
pub struct Supplied<C: Cli> {
    fragments: Vec<String>,
    prompts: C,
}

impl<C: Cli> Supplied<C> {
    /// The fragments not handed out yet.
    pub closed spec fn fragments_left(&self) -> Seq<Seq<char>> {
        texts(self.fragments@)
    }

    /// The source that is asked.
    pub closed spec fn behind(&self) -> C {
        self.prompts
    }

    /// Puts `fragments` in front of `prompts`.
    pub fn new(fragments: Vec<String>, prompts: C) -> (source: Self)
        ensures
            source.fragments_left() == texts(fragments@),
            source.behind() == prompts,
    {
        Supplied { fragments, prompts }
    }

    /// How many fragments have not been handed out yet.
    pub fn unused_fragments(&self) -> (n: usize)
        ensures
            n == self.fragments_left().len(),
    {
        self.fragments.len()
    }

    /// The source that is asked.
    pub fn prompts(&self) -> (prompts: &C)
        ensures
            *prompts == self.behind(),
    {
        &self.prompts
    }
}

impl<C: Cli> Cli for Supplied<C> {
    fn next_positional(&mut self) -> (r: Option<String>)
        ensures
            text_of(r) == head(old(self).fragments_left()),
            final(self).fragments_left() == rest(old(self).fragments_left()),
            final(self).behind() == old(self).behind(),
    {
        if self.fragments.len() > 0 {
            let text = self.fragments.remove(0);
            assert(texts(self.fragments@) =~= texts(old(self).fragments@).skip(1));
            Some(text)
        } else {
            None
        }
    }

    fn input(&mut self, label: &str, placeholder: &str, default: Option<&str>) -> (r: Result<
        String,
        Canceled,
    >)
        ensures
            final(self).fragments_left() == old(self).fragments_left(),
    {
        self.prompts.input(label, placeholder, default)
    }

    fn select(&mut self, label: &str, items: &Vec<Choice>) -> (r: Result<usize, Canceled>)
        ensures
            final(self).fragments_left() == old(self).fragments_left(),
    {
        self.prompts.select(label, items)
    }

    fn confirm(&mut self, label: &str, initial: bool) -> (r: Result<bool, Canceled>)
        ensures
            final(self).fragments_left() == old(self).fragments_left(),
    {
        self.prompts.confirm(label, initial)
    }

    fn notice(&mut self, kind: NoticeKind, text: &str) -> (r: Result<(), Canceled>)
        ensures
            final(self).fragments_left() == old(self).fragments_left(),
    {
        self.prompts.notice(kind, text)
    }
}

} // verus!
