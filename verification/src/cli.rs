//! The operator-facing value source: pre-supplied fragments, prompts and notices.
//!
//! Everything the pipeline learns from the operator comes through a [`Cli`], wrapped in
//! a [`Recorded`] that writes down each call, so that a contract can say which requests
//! were made and that a result is a function of the replies alone.

use vstd::prelude::*;

verus! {

/// The kind of a notice shown to the operator.
#[derive(Debug, Clone, Copy, PartialEq, Eq, Structural)]
pub enum NoticeKind {
    Intro,
    Info,
    Outro,
    OutroCancel,
}

/// What is asked of the source.
pub enum Request {
    /// The next pre-supplied fragment.
    Positional,
    /// Free text.
    Input { label: Seq<char>, placeholder: Seq<char>, default: Option<Seq<char>> },
    /// One of a list of items, each a display label and a hint.
    Select { label: Seq<char>, items: Seq<(Seq<char>, Seq<char>)> },
    /// Yes or no.
    Confirm { label: Seq<char>, initial: bool },
    /// A notice to show.
    Notice { kind: NoticeKind, text: Seq<char> },
}

/// What the source hands back. `None` stands for an exhausted list of fragments, or
/// for a prompt that was canceled or failed.
pub enum Reply {
    Text(Option<Seq<char>>),
    Index(Option<nat>),
    Flag(Option<bool>),
    Shown(bool),
}

/// One request together with its reply.
pub struct Exchange {
    pub request: Request,
    pub reply: Reply,
}

pub open spec fn exchange(request: Request, reply: Reply) -> Exchange {
    Exchange { request, reply }
}

/// The requests of a stretch of transcript, in order.
pub open spec fn requests(s: Seq<Exchange>) -> Seq<Request> {
    Seq::new(s.len(), |i: int| s[i].request)
}

/// The replies of a stretch of transcript, in order.
pub open spec fn replies(s: Seq<Exchange>) -> Seq<Reply> {
    Seq::new(s.len(), |i: int| s[i].reply)
}

/// `after` continues `before`: nothing already recorded was changed.
pub open spec fn extends(before: Seq<Exchange>, after: Seq<Exchange>) -> bool {
    &&& before.len() <= after.len()
    &&& after.subrange(0, before.len() as int) == before
}

/// What was recorded between `before` and `after`.
pub open spec fn since(before: Seq<Exchange>, after: Seq<Exchange>) -> Seq<Exchange> {
    after.skip(before.len() as int)
}

/// A transcript continues itself, with nothing in between.
pub proof fn lemma_since_nothing(t: Seq<Exchange>)
    ensures
        extends(t, t),
        since(t, t) == Seq::<Exchange>::empty(),
        replies(since(t, t)) == Seq::<Reply>::empty(),
        requests(since(t, t)) == Seq::<Request>::empty(),
{
    assert(t.subrange(0, t.len() as int) =~= t);
    assert(since(t, t) =~= Seq::<Exchange>::empty());
    assert(replies(since(t, t)) =~= Seq::<Reply>::empty());
    assert(requests(since(t, t)) =~= Seq::<Request>::empty());
}

/// One more exchange continues a transcript by just that exchange.
pub proof fn lemma_since_push(t: Seq<Exchange>, x: Exchange)
    ensures
        extends(t, t.push(x)),
        since(t, t.push(x)) == seq![x],
        replies(since(t, t.push(x))) == seq![x.reply],
        requests(since(t, t.push(x))) == seq![x.request],
{
    assert(t.push(x).subrange(0, t.len() as int) =~= t);
    assert(since(t, t.push(x)) =~= seq![x]);
    assert(replies(since(t, t.push(x))) =~= seq![x.reply]);
    assert(requests(since(t, t.push(x))) =~= seq![x.request]);
}

/// Two stretches of transcript that follow one another make one stretch.
pub proof fn lemma_since_joins(t0: Seq<Exchange>, t1: Seq<Exchange>, t2: Seq<Exchange>)
    requires
        extends(t0, t1),
        extends(t1, t2),
    ensures
        extends(t0, t2),
        since(t0, t2) == since(t0, t1) + since(t1, t2),
        replies(since(t0, t2)) == replies(since(t0, t1)) + replies(since(t1, t2)),
        requests(since(t0, t2)) == requests(since(t0, t1)) + requests(since(t1, t2)),
        replies(since(t0, t2)).skip(since(t0, t1).len() as int) == replies(since(t1, t2)),
{
    assert forall|i: int| 0 <= i < t1.len() implies t2[i] == t1[i] by {
        assert(t2.subrange(0, t1.len() as int)[i] == t2[i]);
    }
    assert forall|i: int| 0 <= i < t0.len() implies t1[i] == t0[i] by {
        assert(t1.subrange(0, t0.len() as int)[i] == t1[i]);
    }
    assert(t2.subrange(0, t0.len() as int) =~= t0);
    assert(since(t0, t2) =~= since(t0, t1) + since(t1, t2));
    assert(replies(since(t0, t2)) =~= replies(since(t0, t1)) + replies(since(t1, t2)));
    assert(requests(since(t0, t2)) =~= requests(since(t0, t1)) + requests(since(t1, t2)));
    assert(replies(since(t0, t2)).skip(since(t0, t1).len() as int) =~= replies(since(t1, t2)));
}

pub open spec fn text_of(r: Option<String>) -> Option<Seq<char>> {
    match r {
        Some(s) => Some(s@),
        None => None,
    }
}

pub open spec fn str_of(r: Option<&str>) -> Option<Seq<char>> {
    match r {
        Some(s) => Some(s@),
        None => None,
    }
}

pub open spec fn entered(r: Result<String, Canceled>) -> Option<Seq<char>> {
    match r {
        Ok(s) => Some(s@),
        Err(_) => None,
    }
}

pub open spec fn picked(r: Result<usize, Canceled>) -> Option<nat> {
    match r {
        Ok(i) => Some(i as nat),
        Err(_) => None,
    }
}

pub open spec fn answered(r: Result<bool, Canceled>) -> Option<bool> {
    match r {
        Ok(b) => Some(b),
        Err(_) => None,
    }
}

/// The prompt was canceled by the operator, or the terminal failed.
#[derive(Debug, Clone, Copy, PartialEq, Eq, Structural)]
pub struct Canceled;

/// One item of a selection.
#[derive(Debug)]
pub struct Choice {
    /// What the operator reads.
    pub label: String,
    /// A short hint shown beside it.
    pub hint: String,
}

/// The items of a selection as pairs of label and hint.
pub open spec fn choices(items: Seq<Choice>) -> Seq<(Seq<char>, Seq<char>)> {
    Seq::new(items.len(), |i: int| (items[i].label@, items[i].hint@))
}

/// A source of operator input. An implementation answers each request in whatever
/// way it sees fit; nothing is asked of it.
pub trait Cli {
    /// Hands out the next pre-supplied fragment, `None` once they are used up.
    fn next_positional(&mut self) -> Option<String>;

    /// Asks for free text.
    fn input(&mut self, label: &str, placeholder: &str, default: Option<&str>) -> Result<
        String,
        Canceled,
    >;

    /// Asks for one of `items`; the answer is an index into them.
    fn select(&mut self, label: &str, items: &Vec<Choice>) -> Result<usize, Canceled>;

    /// Asks a yes/no question, with `initial` as the preselected answer.
    fn confirm(&mut self, label: &str, initial: bool) -> Result<bool, Canceled>;

    /// Shows a notice of the given kind.
    fn notice(&mut self, kind: NoticeKind, text: &str) -> Result<(), Canceled>;
}

/// A source together with the record of everything that went through it. Each call is
/// handed on to the source unchanged and written down with what came back.
pub struct Recorded<C: Cli> {
    source: C,
    log: Ghost<Seq<Exchange>>,
}

impl<C: Cli> Recorded<C> {
    /// Every exchange made through this source so far, oldest first.
    pub closed spec fn transcript(&self) -> Seq<Exchange> {
        self.log@
    }

    /// The source behind the record.
    pub closed spec fn inner(&self) -> C {
        self.source
    }

    /// Starts a record for `source`.
    pub fn new(source: C) -> (recorded: Self)
        ensures
            recorded.transcript() == Seq::<Exchange>::empty(),
            recorded.inner() == source,
    {
        Recorded { source, log: Ghost(Seq::empty()) }
    }

    /// The source behind the record.
    pub fn source(&self) -> (source: &C)
        ensures
            *source == self.inner(),
    {
        &self.source
    }

    /// Ends the record and hands the source back.
    pub fn into_source(self) -> (source: C)
        ensures
            source == self.inner(),
    {
        self.source
    }

    /// Hands out the next pre-supplied fragment, `None` once they are used up.
    pub fn next_positional(&mut self) -> (r: Option<String>)
        ensures
            final(self).transcript() == old(self).transcript().push(
                exchange(Request::Positional, Reply::Text(text_of(r))),
            ),
    {
        let r = self.source.next_positional();
        self.log = Ghost(self.log@.push(exchange(Request::Positional, Reply::Text(text_of(r)))));
        r
    }

    /// Asks for free text.
    pub fn input(&mut self, label: &str, placeholder: &str, default: Option<&str>) -> (r: Result<
        String,
        Canceled,
    >)
        ensures
            final(self).transcript() == old(self).transcript().push(
                exchange(
                    (Request::Input {
                        label: label@,
                        placeholder: placeholder@,
                        default: str_of(default),
                    }),
                    Reply::Text(entered(r)),
                ),
            ),
    {
        let r = self.source.input(label, placeholder, default);
        self.log = Ghost(
            self.log@.push(
                exchange(
                    Request::Input {
                        label: label@,
                        placeholder: placeholder@,
                        default: str_of(default),
                    },
                    Reply::Text(entered(r)),
                ),
            ),
        );
        r
    }

    /// Asks for one of `items`; the answer is an index into them.
    pub fn select(&mut self, label: &str, items: &Vec<Choice>) -> (r: Result<usize, Canceled>)
        ensures
            final(self).transcript() == old(self).transcript().push(
                exchange(
                    (Request::Select { label: label@, items: choices(items@) }),
                    Reply::Index(picked(r)),
                ),
            ),
    {
        let r = self.source.select(label, items);
        self.log = Ghost(
            self.log@.push(
                exchange(
                    Request::Select { label: label@, items: choices(items@) },
                    Reply::Index(picked(r)),
                ),
            ),
        );
        r
    }

    /// Asks a yes/no question, with `initial` as the preselected answer.
    pub fn confirm(&mut self, label: &str, initial: bool) -> (r: Result<bool, Canceled>)
        ensures
            final(self).transcript() == old(self).transcript().push(
                exchange(
                    (Request::Confirm { label: label@, initial }),
                    Reply::Flag(answered(r)),
                ),
            ),
    {
        let r = self.source.confirm(label, initial);
        self.log = Ghost(
            self.log@.push(
                exchange(Request::Confirm { label: label@, initial }, Reply::Flag(answered(r))),
            ),
        );
        r
    }

    /// Shows a notice of the given kind.
    pub fn notice(&mut self, kind: NoticeKind, text: &str) -> (r: Result<(), Canceled>)
        ensures
            final(self).transcript() == old(self).transcript().push(
                exchange((Request::Notice { kind, text: text@ }), Reply::Shown(r is Ok)),
            ),
    {
        let r = self.source.notice(kind, text);
        self.log = Ghost(
            self.log@.push(exchange(Request::Notice { kind, text: text@ }, Reply::Shown(r is Ok))),
        );
        r
    }
}

} // verus!
