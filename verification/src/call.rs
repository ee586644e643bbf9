//! The call command: what the operator has named so far, and how it is shown.

use vstd::prelude::*;
use vstd::string::*;
use crate::cli::{Cli, NoticeKind, Recorded, Reply, Request};
use crate::error::{Error, ErrorView};
use crate::text::{join, joined, texts};

verus! {

/// The endpoint that stands for "not chosen yet".
pub const DEFAULT_URL: &'static str = "ws://localhost:9944/";

/// The well-known development account.
pub const DEFAULT_URI: &'static str = "//Alice";

/// The endpoint offered when the operator is asked for one.
pub const SUGGESTED_URL: &'static str = "wss://rpc1.paseo.popnetwork.xyz";

/// A call to a parachain, as far as it has been named.
#[derive(Debug)]
pub struct CallParachainCommand {
    /// The name of the pallet to call.
    pub pallet: Option<String>,
    /// The name of the extrinsic to submit.
    pub extrinsic: Option<String>,
    /// The arguments, as text: pre-supplied at first, fully resolved once configured.
    pub args: Vec<String>,
    /// Websocket endpoint of a node, in its normal form.
    pub url: String,
    /// Secret key URI for the account signing the extrinsic.
    pub suri: String,
}

/// The mathematical value of a [`CallParachainCommand`].
pub struct CommandView {
    pub pallet: Option<Seq<char>>,
    pub extrinsic: Option<Seq<char>>,
    pub args: Seq<Seq<char>>,
    pub url: Seq<char>,
    pub suri: Seq<char>,
}

pub open spec fn name_of(named: Option<String>) -> Option<Seq<char>> {
    match named {
        Some(n) => Some(n@),
        None => None,
    }
}

impl View for CallParachainCommand {
    type V = CommandView;

    open spec fn view(&self) -> CommandView {
        CommandView {
            pallet: name_of(self.pallet),
            extrinsic: name_of(self.extrinsic),
            args: texts(self.args@),
            url: self.url@,
            suri: self.suri@,
        }
    }
}

/// Each of `args` set in double quotes.
pub open spec fn quoted(args: Seq<Seq<char>>) -> Seq<Seq<char>> {
    Seq::new(args.len(), |i: int| "\""@ + args[i] + "\""@)
}

/// ` <flag> <value>` where there is a value, nothing where there is none.
pub open spec fn flagged(flag: Seq<char>, value: Option<Seq<char>>) -> Seq<char> {
    match value {
        Some(v) => flag + v,
        None => Seq::empty(),
    }
}

/// The arguments segment: nothing where there are no arguments.
pub open spec fn args_segment(args: Seq<Seq<char>>) -> Seq<char> {
    if args.len() > 0 {
        " --args "@ + joined(quoted(args), ", "@)
    } else {
        Seq::empty()
    }
}

/// The command line that would make the same call.
pub open spec fn display_line(c: CommandView) -> Seq<char> {
    "pop call parachain"@ + flagged(" --pallet "@, c.pallet) + flagged(
        " --extrinsic "@,
        c.extrinsic,
    ) + args_segment(c.args) + " --url "@ + c.url + " --suri "@ + c.suri
}

impl CallParachainCommand {
    /// The command line that would make the same call, segment for segment: pallet,
    /// extrinsic and arguments appear only where they are known.
    pub fn display(&self) -> (line: String)
        ensures
            line@ == display_line(self@),
    {
        let mut line = String::from_str("pop call parachain");
        match &self.pallet {
            Some(pallet) => {
                line.append(" --pallet ");
                line.append(pallet.as_str());
                assert(line@ =~= "pop call parachain"@ + flagged(" --pallet "@, self@.pallet));
            },
            None => {
                assert(line@ =~= "pop call parachain"@ + flagged(" --pallet "@, self@.pallet));
            },
        }
        let ghost so_far = line@;
        match &self.extrinsic {
            Some(extrinsic) => {
                line.append(" --extrinsic ");
                line.append(extrinsic.as_str());
                assert(line@ =~= so_far + flagged(" --extrinsic "@, self@.extrinsic));
            },
            None => {
                assert(line@ =~= so_far + flagged(" --extrinsic "@, self@.extrinsic));
            },
        }
        let ghost so_far = line@;
        if self.args.len() > 0 {
            let mut wrapped: Vec<String> = Vec::new();
            let mut i: usize = 0;
            while i < self.args.len()
                invariant
                    i <= self.args.len(),
                    wrapped@.len() == i,
                    forall|j: int|
                        0 <= j < i ==> (#[trigger] wrapped@[j])@ == "\""@ + self.args@[j]@ + "\""@,
                decreases self.args.len() - i,
            {
                wrapped.push(String::from_str("\"").concat(self.args[i].as_str()).concat("\""));
                i = i + 1;
            }
            assert(texts(wrapped@) =~= quoted(texts(self.args@)));
            let all = join(&wrapped, ", ");
            line.append(" --args ");
            line.append(all.as_str());
            assert(line@ =~= so_far + args_segment(self@.args));
        } else {
            assert(line@ =~= so_far + args_segment(self@.args));
        }
        line.append(" --url ");
        line.append(self.url.as_str());
        line.append(" --suri ");
        line.append(self.suri.as_str());
        line
    }

    /// Hands over the pre-supplied arguments, to be put in front of a value source, and
    /// leaves the command without any.
    pub fn take_fragments(&mut self) -> (fragments: Vec<String>)
        ensures
            texts(fragments@) == old(self)@.args,
            final(self)@ == (CommandView { args: Seq::empty(), ..old(self)@ }),
    {
        let mut fragments: Vec<String> = Vec::new();
        core::mem::swap(&mut self.args, &mut fragments);
        assert(texts(self.args@) =~= Seq::<Seq<char>>::empty());
        fragments
    }

    /// Forgets the pallet and the extrinsic of the last call. The endpoint, the signer
    /// and the arguments stay.
    pub fn reset_for_new_call(&mut self)
        ensures
            final(self)@ == (CommandView { pallet: None, extrinsic: None, ..old(self)@ }),
    {
        self.pallet = None;
        self.extrinsic = None;
    }
}

/// Closes the session's output with `message`: as a success, or as a cancellation.
pub fn display_message<C: Cli>(message: &str, success: bool, cli: &mut Recorded<C>) -> (shown: Result<
    (),
    Error,
>)
    ensures
        final(cli).transcript().len() == old(cli).transcript().len() + 1,
        final(cli).transcript().drop_last() == old(cli).transcript(),
        final(cli).transcript().last().request == (Request::Notice {
            kind: if success {
                NoticeKind::Outro
            } else {
                NoticeKind::OutroCancel
            },
            text: message@,
        }),
        final(cli).transcript().last().reply == Reply::Shown(shown is Ok),
        shown is Err ==> shown->Err_0@ == ErrorView::Canceled,
{
    let kind = if success {
        NoticeKind::Outro
    } else {
        NoticeKind::OutroCancel
    };
    let shown = cli.notice(kind, message);
    assert(cli.transcript().drop_last() =~= old(cli).transcript());
    match shown {
        Ok(()) => Ok(()),
        Err(_) => Err(Error::Canceled),
    }
}

} // verus!
