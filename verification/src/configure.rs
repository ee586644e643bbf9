//! Configuring a call: the endpoint, then pallet, extrinsic and arguments against the
//! registry, then the call itself.

use vstd::prelude::*;
use vstd::string::*;
use crate::builder::{
    call_text, construct_extrinsic, constructed, encode_call_data, DynamicPayload, PayloadView,
};
use crate::call::{display_line, CallParachainCommand, CommandView, DEFAULT_URL, SUGGESTED_URL};
use crate::cli::{
    extends, lemma_since_joins, lemma_since_nothing, lemma_since_push, replies, requests, since,
    Cli, Recorded, NoticeKind, Reply, Request,
};
use crate::endpoint::{endpoint_of, parse_endpoint, parsed_url};
use crate::error::{Error, ErrorView};
use crate::registry::{pallet_views, Pallet, PalletView};
use crate::resolver::{prompt_for_fields, resolve_fields};
use crate::session::{Event, EventView};
use crate::selector::{extrinsic_selection, pallet_selection, select_extrinsic, select_pallet};
use crate::text::{hex_text, texts, to_hex};

verus! {

/// What a stage of configuring comes to: the command as it stands afterwards, why the
/// stage failed if it did, and the requests made.
pub struct Configuration {
    pub command: CommandView,
    pub failure: Option<ErrorView>,
    pub asked: Seq<Request>,
}

/// The title shown when a session begins.
pub open spec fn intro() -> Request {
    Request::Notice { kind: NoticeKind::Intro, text: "Call a parachain"@ }
}

/// The question for the endpoint.
pub open spec fn endpoint_prompt() -> Request {
    Request::Input {
        label: "Which chain would you like to interact with?"@,
        placeholder: SUGGESTED_URL@,
        default: Some(SUGGESTED_URL@),
    }
}

/// The command as shown once it is configured.
pub open spec fn summary(c: CommandView) -> Request {
    Request::Notice { kind: NoticeKind::Info, text: display_line(c) }
}

/// Settling the endpoint. On a repeat nothing happens. Else the title is shown, and an
/// endpoint that is still the default is asked for and parsed.
pub open spec fn endpoint_resolution(c: CommandView, repeat: bool, r: Seq<Reply>) -> Configuration {
    if repeat {
        Configuration { command: c, failure: None, asked: Seq::empty() }
    } else if r[0] != Reply::Shown(true) {
        Configuration { command: c, failure: Some(ErrorView::Canceled), asked: seq![intro()] }
    } else if c.url != DEFAULT_URL@ {
        Configuration { command: c, failure: None, asked: seq![intro()] }
    } else {
        match r[1] {
            Reply::Text(Some(typed)) => match endpoint_of(parsed_url(typed)) {
                Ok(url) => Configuration {
                    command: CommandView { url, ..c },
                    failure: None,
                    asked: seq![intro(), endpoint_prompt()],
                },
                Err(e) => Configuration {
                    command: c,
                    failure: Some(e),
                    asked: seq![intro(), endpoint_prompt()],
                },
            },
            _ => Configuration {
                command: c,
                failure: Some(ErrorView::Canceled),
                asked: seq![intro(), endpoint_prompt()],
            },
        }
    }
}

/// Configuring against the registry: the pallet, then the extrinsic, then every
/// argument of the extrinsic in order, then the summary. The first stage that fails
/// ends it, and what was settled before stays.
pub open spec fn configuration(c: CommandView, pallets: Seq<PalletView>, r: Seq<Reply>) -> Configuration {
    let first = pallet_selection(pallets, c.pallet, r);
    match first.chosen {
        Err(e) => Configuration { command: c, failure: Some(e), asked: first.asked },
        Ok(p) => {
            let pallet = pallets[p as int];
            let c1 = CommandView { pallet: Some(pallet.name), ..c };
            let r1 = r.skip(first.asked.len() as int);
            let second = extrinsic_selection(pallet, c.extrinsic, r1);
            match second.chosen {
                Err(e) => Configuration {
                    command: c1,
                    failure: Some(e),
                    asked: first.asked + second.asked,
                },
                Ok(x) => {
                    let extrinsic = pallet.extrinsics[x as int];
                    let c2 = CommandView { extrinsic: Some(extrinsic.name), ..c1 };
                    let r2 = r1.skip(second.asked.len() as int);
                    let third = resolve_fields(extrinsic.fields, extrinsic.fields.len(), r2);
                    match third.values {
                        Err(path) => Configuration {
                            command: c2,
                            failure: Some(ErrorView::ArgumentResolution { path }),
                            asked: first.asked + second.asked + third.asked,
                        },
                        Ok(values) => {
                            let c3 = CommandView { args: values, ..c2 };
                            let r3 = r2.skip(third.asked.len() as int);
                            Configuration {
                                command: c3,
                                failure: if r3[0] == Reply::Shown(true) {
                                    None
                                } else {
                                    Some(ErrorView::Canceled)
                                },
                                asked: first.asked + second.asked + third.asked + seq![summary(c3)],
                            }
                        },
                    }
                },
            }
        },
    }
}

/// What preparing the call of a command comes to.
pub open spec fn prepared(c: CommandView, pallets: Seq<PalletView>) -> Result<
    PayloadView,
    ErrorView,
> {
    match c.extrinsic {
        None => Err(ErrorView::MissingExtrinsic),
        Some(extrinsic) => match c.pallet {
            None => Err(ErrorView::MissingPallet),
            Some(pallet) => constructed(pallets, pallet, extrinsic, c.args),
        },
    }
}

/// What preparing comes to, and what is shown of the call.
pub struct Preparation {
    pub call: Result<PayloadView, ErrorView>,
    pub asked: Seq<Request>,
}

/// The wire form of a call as it is shown before submission.
pub open spec fn encoded_notice(call: PayloadView) -> Request {
    Request::Notice {
        kind: NoticeKind::Info,
        text: "Encoded call data: "@ + hex_text(vstd::utf8::encode_utf8(call_text(call))),
    }
}

/// Preparing the call of a command: it is built, and where that succeeds its wire
/// form is shown.
pub open spec fn preparation(c: CommandView, pallets: Seq<PalletView>, r: Seq<Reply>) -> Preparation {
    match prepared(c, pallets) {
        Err(e) => Preparation { call: Err(e), asked: Seq::empty() },
        Ok(call) => Preparation {
            call: if r[0] == Reply::Shown(true) {
                Ok(call)
            } else {
                Err(ErrorView::Canceled)
            },
            asked: seq![encoded_notice(call)],
        },
    }
}

/// `out` and the command afterwards carry what `conf` says.
pub open spec fn configured(conf: Configuration, after: CommandView, out: Result<(), Error>) -> bool {
    &&& conf.command == after
    &&& match out {
        Ok(()) => conf.failure is None,
        Err(e) => conf.failure == Some(e@),
    }
}

impl CallParachainCommand {
    /// Settles the endpoint before the node is contacted.
    ///
    /// On the first call of a session the title is shown, and an endpoint that is
    /// still [`DEFAULT_URL`] is asked for and parsed. On a repeat nothing is asked.
    pub fn resolve_url<C: Cli>(&mut self, cli: &mut Recorded<C>, repeat: bool) -> (out: Result<(), Error>)
        ensures
            extends(old(cli).transcript(), final(cli).transcript()),
            endpoint_resolution(
                old(self)@,
                repeat,
                replies(since(old(cli).transcript(), final(cli).transcript())),
            ).asked == requests(since(old(cli).transcript(), final(cli).transcript())),
            configured(
                endpoint_resolution(
                    old(self)@,
                    repeat,
                    replies(since(old(cli).transcript(), final(cli).transcript())),
                ),
                final(self)@,
                out,
            ),
    {
        let ghost t0 = cli.transcript();
        if repeat {
            proof {
                lemma_since_nothing(t0);
            }
            return Ok(());
        }
        let shown = cli.notice(NoticeKind::Intro, "Call a parachain");
        let ghost t1 = cli.transcript();
        proof {
            lemma_since_push(t0, t1.last());
        }
        if shown.is_err() {
            return Err(Error::Canceled);
        }
        if self.url != String::from_str(DEFAULT_URL) {
            return Ok(());
        }
        let typed = cli.input(
            "Which chain would you like to interact with?",
            SUGGESTED_URL,
            Some(SUGGESTED_URL),
        );
        proof {
            let t2 = cli.transcript();
            lemma_since_push(t1, t2.last());
            lemma_since_joins(t0, t1, t2);
            assert(replies(since(t0, t2)) =~= seq![t1.last().reply, t2.last().reply]);
            assert(requests(since(t0, t2)) =~= seq![t1.last().request, t2.last().request]);
        }
        match typed {
            Ok(text) => match parse_endpoint(text.as_str()) {
                Ok(url) => {
                    self.url = url;
                    Ok(())
                },
                Err(e) => Err(e),
            },
            Err(_) => Err(Error::Canceled),
        }
    }

    /// Configures the call against the registry of the chain.
    ///
    /// A pallet or an extrinsic that the command names is looked up and never asked
    /// for; one that it does not name is asked for and recorded. Then every argument
    /// of the extrinsic is resolved in order, the representations replace the
    /// command's arguments, and the command is shown.
    pub fn configure<C: Cli>(&mut self, pallets: &Vec<Pallet>, cli: &mut Recorded<C>) -> (out: Result<
        (),
        Error,
    >)
        ensures
            extends(old(cli).transcript(), final(cli).transcript()),
            configuration(
                old(self)@,
                pallet_views(pallets@),
                replies(since(old(cli).transcript(), final(cli).transcript())),
            ).asked == requests(since(old(cli).transcript(), final(cli).transcript())),
            configured(
                configuration(
                    old(self)@,
                    pallet_views(pallets@),
                    replies(since(old(cli).transcript(), final(cli).transcript())),
                ),
                final(self)@,
                out,
            ),
    {
        let ghost t0 = cli.transcript();
        let ghost c0 = self@;
        let ghost views = pallet_views(pallets@);
        let p = match select_pallet(pallets, &self.pallet, cli) {
            Ok(p) => p,
            Err(e) => {
                return Err(e);
            },
        };
        let ghost t1 = cli.transcript();
        let pallet = &pallets[p];
        proof {
            assert(views[p as int] == pallet@);
            crate::registry::lemma_first_named(
                crate::registry::pallet_names(views),
                pallet@.name,
            );
        }
        if self.pallet.is_none() {
            self.pallet = Some(pallet.name.clone());
        }
        let ghost c1 = self@;
        assert(c1 == (CommandView { pallet: Some(pallet@.name), ..c0 }));
        let x = match select_extrinsic(pallet, &self.extrinsic, cli) {
            Ok(x) => x,
            Err(e) => {
                proof {
                    lemma_since_joins(t0, t1, cli.transcript());
                }
                return Err(e);
            },
        };
        let ghost t2 = cli.transcript();
        let extrinsic = &pallet.extrinsics[x];
        proof {
            lemma_since_joins(t0, t1, t2);
            assert(pallet@.extrinsics[x as int] == extrinsic@);
            crate::registry::lemma_first_named(
                crate::registry::extrinsic_names(pallet@.extrinsics),
                extrinsic@.name,
            );
        }
        if self.extrinsic.is_none() {
            self.extrinsic = Some(extrinsic.name.clone());
        }
        let ghost c2 = self@;
        assert(c2 == (CommandView { extrinsic: Some(extrinsic@.name), ..c1 }));
        let values = match prompt_for_fields(&extrinsic.fields, cli) {
            Ok(values) => values,
            Err(e) => {
                proof {
                    let t3 = cli.transcript();
                    lemma_since_joins(t1, t2, t3);
                    lemma_since_joins(t0, t1, t3);
                }
                return Err(e);
            },
        };
        let ghost t3 = cli.transcript();
        proof {
            lemma_since_joins(t1, t2, t3);
            lemma_since_joins(t0, t1, t3);
        }
        self.args = values;
        let ghost c3 = self@;
        assert(c3 == (CommandView { args: texts(values@), ..c2 }));
        let line = self.display();
        let shown = cli.notice(NoticeKind::Info, line.as_str());
        proof {
            let t4 = cli.transcript();
            lemma_since_push(t3, t4.last());
            lemma_since_joins(t2, t3, t4);
            lemma_since_joins(t1, t2, t4);
            lemma_since_joins(t0, t1, t4);
            crate::resolver::lemma_fields_stable(
                extrinsic@.fields,
                extrinsic@.fields.len(),
                replies(since(t2, t3)),
                replies(since(t3, t4)),
            );
            let r = replies(since(t0, t4));
            let r1 = r.skip(since(t0, t1).len() as int);
            assert(r1 == replies(since(t1, t4)));
            let r2 = r1.skip(since(t1, t2).len() as int);
            assert(r2 == replies(since(t2, t4)));
            let r3 = r2.skip(since(t2, t3).len() as int);
            assert(r3 == replies(since(t3, t4)));
            assert(r3[0] == t4.last().reply);
        }
        match shown {
            Ok(()) => Ok(()),
            Err(_) => Err(Error::Canceled),
        }
    }

    /// Builds the call that the command names, against the registry, and shows its
    /// wire form.
    ///
    /// Fails with [`Error::MissingExtrinsic`] or [`Error::MissingPallet`] where one is
    /// not named yet, and otherwise as [`construct_extrinsic`] does; nothing is shown
    /// of a call that could not be built.
    pub fn prepare_extrinsic<C: Cli>(&self, pallets: &Vec<Pallet>, cli: &mut Recorded<C>) -> (out: Result<
        DynamicPayload,
        Error,
    >)
        ensures
            extends(old(cli).transcript(), final(cli).transcript()),
            preparation(
                self@,
                pallet_views(pallets@),
                replies(since(old(cli).transcript(), final(cli).transcript())),
            ).asked == requests(since(old(cli).transcript(), final(cli).transcript())),
            match out {
                Ok(call) => preparation(
                    self@,
                    pallet_views(pallets@),
                    replies(since(old(cli).transcript(), final(cli).transcript())),
                ).call == Ok::<PayloadView, ErrorView>(call@),
                Err(e) => preparation(
                    self@,
                    pallet_views(pallets@),
                    replies(since(old(cli).transcript(), final(cli).transcript())),
                ).call == Err::<PayloadView, ErrorView>(e@),
            },
    {
        let ghost t0 = cli.transcript();
        proof {
            lemma_since_nothing(t0);
        }
        let extrinsic = match &self.extrinsic {
            Some(extrinsic) => extrinsic,
            None => {
                return Err(Error::MissingExtrinsic);
            },
        };
        let pallet = match &self.pallet {
            Some(pallet) => pallet,
            None => {
                return Err(Error::MissingPallet);
            },
        };
        let args = copy_of(&self.args);
        let call = match construct_extrinsic(pallets, pallet.as_str(), extrinsic.as_str(), args) {
            Ok(call) => call,
            Err(e) => {
                return Err(e);
            },
        };
        let line = String::from_str("Encoded call data: ").concat(
            to_hex(&encode_call_data(&call)).as_str(),
        );
        let shown = cli.notice(NoticeKind::Info, line.as_str());
        proof {
            lemma_since_push(t0, cli.transcript().last());
        }
        match shown {
            Ok(()) => Ok(call),
            Err(_) => Err(Error::Canceled),
        }
    }
}

impl CallParachainCommand {
    /// A copy of the command, field for field.
    pub fn duplicate(&self) -> (copy: CallParachainCommand)
        ensures
            copy@ == self@,
    {
        CallParachainCommand {
            pallet: match &self.pallet {
                Some(name) => Some(name.clone()),
                None => None,
            },
            extrinsic: match &self.extrinsic {
                Some(name) => Some(name.clone()),
                None => None,
            },
            args: copy_of(&self.args),
            url: self.url.clone(),
            suri: self.suri.clone(),
        }
    }
}

/// A configuration that found all its replies in `r` is the same whatever follows `r`.
pub proof fn lemma_configuration_stable(
    c: CommandView,
    pallets: Seq<PalletView>,
    r: Seq<Reply>,
    more: Seq<Reply>,
)
    requires
        configuration(c, pallets, r).asked.len() <= r.len(),
    ensures
        configuration(c, pallets, r + more) == configuration(c, pallets, r),
{
    let first = pallet_selection(pallets, c.pallet, r);
    assert(pallet_selection(pallets, c.pallet, r + more) == first);
    if let Ok(p) = first.chosen {
        let pallet = pallets[p as int];
        let k1 = first.asked.len() as int;
        let r1 = r.skip(k1);
        assert((r + more).skip(k1) =~= r1 + more);
        let second = extrinsic_selection(pallet, c.extrinsic, r1);
        assert(extrinsic_selection(pallet, c.extrinsic, r1 + more) == second);
        if let Ok(x) = second.chosen {
            let extrinsic = pallet.extrinsics[x as int];
            let k2 = second.asked.len() as int;
            let r2 = r1.skip(k2);
            assert((r1 + more).skip(k2) =~= r2 + more);
            let third = resolve_fields(extrinsic.fields, extrinsic.fields.len(), r2);
            crate::resolver::lemma_fields_stable(
                extrinsic.fields,
                extrinsic.fields.len(),
                r2,
                more,
            );
            if third.values is Ok {
                let k3 = third.asked.len() as int;
                assert((r2 + more).skip(k3) =~= r2.skip(k3) + more);
            }
        }
    }
}

/// What configuring and preparing come to together: the requests of both, the command
/// as it stands afterwards, and the call or the first failure.
pub open spec fn configured_call(c: CommandView, pallets: Seq<PalletView>, r: Seq<Reply>) -> (
    Configuration,
    Result<PayloadView, ErrorView>,
) {
    let conf = configuration(c, pallets, r);
    match conf.failure {
        Some(e) => (conf, Err(e)),
        None => {
            let prep = preparation(conf.command, pallets, r.skip(conf.asked.len() as int));
            (
                Configuration {
                    command: conf.command,
                    failure: match prep.call {
                        Ok(_) => None,
                        Err(e) => Some(e),
                    },
                    asked: conf.asked + prep.asked,
                },
                prep.call,
            )
        },
    }
}

/// Configures `command` against the registry and builds its call: what the session
/// awaits while it is configuring. The event is `Prepared` with the configured command
/// and its call, or `Failed` with the first failure.
pub fn configure_call<C: Cli>(command: CallParachainCommand, pallets: &Vec<Pallet>, cli: &mut Recorded<C>) -> (event:
    Event)
    ensures
        extends(old(cli).transcript(), final(cli).transcript()),
        configured_call(
            command@,
            pallet_views(pallets@),
            replies(since(old(cli).transcript(), final(cli).transcript())),
        ).0.asked == requests(since(old(cli).transcript(), final(cli).transcript())),
        event@ == (match configured_call(
            command@,
            pallet_views(pallets@),
            replies(since(old(cli).transcript(), final(cli).transcript())),
        ).1 {
            Ok(call) => EventView::Prepared {
                command: configured_call(
                    command@,
                    pallet_views(pallets@),
                    replies(since(old(cli).transcript(), final(cli).transcript())),
                ).0.command,
                call,
            },
            Err(error) => EventView::Failed { error },
        }),
{
    let ghost t0 = cli.transcript();
    let ghost old_view = command@;
    let mut command = command;
    match command.configure(pallets, cli) {
        Ok(()) => {},
        Err(error) => {
            return Event::Failed { error };
        },
    }
    let ghost t1 = cli.transcript();
    let built = command.prepare_extrinsic(pallets, cli);
    proof {
        let t2 = cli.transcript();
        lemma_since_joins(t0, t1, t2);
        lemma_configuration_stable(
            old_view,
            pallet_views(pallets@),
            replies(since(t0, t1)),
            replies(since(t1, t2)),
        );
    }
    match built {
        Ok(call) => Event::Prepared { command, call },
        Err(error) => Event::Failed { error },
    }
}

/// A copy of `texts`, text for text.
pub fn copy_of(list: &Vec<String>) -> (copy: Vec<String>)
    ensures
        texts(copy@) == texts(list@),
{
    let mut copy: Vec<String> = Vec::new();
    let mut i: usize = 0;
    while i < list.len()
        invariant
            i <= list.len(),
            copy@.len() == i,
            forall|j: int| 0 <= j < i ==> (#[trigger] copy@[j])@ == list@[j]@,
        decreases list.len() - i,
    {
        copy.push(list[i].clone());
        i = i + 1;
    }
    assert(texts(copy@) =~= texts(list@));
    copy
}

} // verus!
