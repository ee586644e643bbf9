//! The submission controller: a state machine from what just happened to what to do
//! next. It neither prompts nor talks to the node; its caller does, and reports back.

use vstd::prelude::*;
use vstd::string::*;
use crate::builder::{call_text, encode_call_data, DynamicPayload, PayloadView};
use crate::call::{display_line, CallParachainCommand, CommandView, DEFAULT_URI};
use crate::error::{message_of, Error, ErrorView};
use crate::text::{debug_name, debug_named, debug_quote, debug_quoted};

verus! {

/// Where a session stands.
#[derive(Debug, Clone, Copy, PartialEq, Eq, Structural)]
pub enum Phase {
    /// Nothing has happened yet.
    Idle,
    /// Pallet, extrinsic and arguments are being settled and the call built.
    Configuring,
    /// The call is built; the signer is being asked for.
    Prepared,
    /// The call was shown; the operator is asked whether to submit it.
    AwaitingConfirmation,
    /// The call is being signed and submitted.
    Signing,
    /// The node took the call; the operator is being told.
    Submitted,
    /// The operator is asked whether to make another call.
    RepeatPrompt,
    /// The session ended after a submission.
    Done,
    /// The operator declined to submit; nothing was sent.
    Canceled,
    /// The session ended in a failure.
    Failed,
}

/// What the node handed back for a submitted call.
#[derive(Debug)]
pub struct Receipt {
    /// The hash under which the node took the extrinsic.
    pub hash: String,
    /// The wire form of the call that was submitted.
    pub encoded_call: Vec<u8>,
}

pub struct ReceiptView {
    pub hash: Seq<char>,
    pub encoded_call: Seq<u8>,
}

impl View for Receipt {
    type V = ReceiptView;

    open spec fn view(&self) -> ReceiptView {
        ReceiptView { hash: self.hash@, encoded_call: self.encoded_call@ }
    }
}

/// How a session ended.
#[derive(Debug)]
pub enum SessionResult {
    Submitted { receipt: Receipt },
    Canceled { reason: String },
    Failed { error: Error },
}

pub enum SessionResultView {
    Submitted { receipt: ReceiptView },
    Canceled { reason: Seq<char> },
    Failed { error: ErrorView },
}

impl View for SessionResult {
    type V = SessionResultView;

    open spec fn view(&self) -> SessionResultView {
        match *self {
            SessionResult::Submitted { receipt } => SessionResultView::Submitted {
                receipt: receipt@,
            },
            SessionResult::Canceled { reason } => SessionResultView::Canceled { reason: reason@ },
            SessionResult::Failed { error } => SessionResultView::Failed { error: error@ },
        }
    }
}

/// What the caller reports back.
#[derive(Debug)]
pub enum Event {
    /// The session begins.
    Start,
    /// The command was configured and its call built.
    Prepared { command: CallParachainCommand, call: DynamicPayload },
    /// Configuring or building failed.
    Failed { error: Error },
    /// The operator named the signer.
    SignerEntered { suri: String },
    /// The operator answered whether to submit.
    Confirmed { submit: bool },
    /// The node took the call under this hash.
    Accepted { hash: String },
    /// Signing or submitting failed for this cause.
    Rejected { cause: String },
    /// A notice was shown.
    Reported,
    /// The operator answered whether to make another call.
    RepeatAnswered { again: bool },
    /// A prompt or a notice was interrupted.
    Interrupted,
}

pub enum EventView {
    Start,
    Prepared { command: CommandView, call: PayloadView },
    Failed { error: ErrorView },
    SignerEntered { suri: Seq<char> },
    Confirmed { submit: bool },
    Accepted { hash: Seq<char> },
    Rejected { cause: Seq<char> },
    Reported,
    RepeatAnswered { again: bool },
    Interrupted,
}

impl View for Event {
    type V = EventView;

    open spec fn view(&self) -> EventView {
        match *self {
            Event::Start => EventView::Start,
            Event::Prepared { command, call } => EventView::Prepared {
                command: command@,
                call: call@,
            },
            Event::Failed { error } => EventView::Failed { error: error@ },
            Event::SignerEntered { suri } => EventView::SignerEntered { suri: suri@ },
            Event::Confirmed { submit } => EventView::Confirmed { submit },
            Event::Accepted { hash } => EventView::Accepted { hash: hash@ },
            Event::Rejected { cause } => EventView::Rejected { cause: cause@ },
            Event::Reported => EventView::Reported,
            Event::RepeatAnswered { again } => EventView::RepeatAnswered { again },
            Event::Interrupted => EventView::Interrupted,
        }
    }
}

/// What the caller is to do next.
#[derive(Debug)]
pub enum Action {
    /// Settle the endpoint, fetch the registry, configure the command and build its
    /// call; report `Prepared` or `Failed`.
    Configure { repeat: bool },
    /// Ask who signs; report `SignerEntered`.
    AskSigner { label: String, suggestion: String },
    /// Show `summary`, then ask `label` with yes preselected; report `Confirmed`.
    AskConfirmation { summary: String, label: String },
    /// Sign `call` as `signer` and submit it to `target`; report `Accepted` or
    /// `Rejected`.
    SignAndSubmit { target: String, call: Vec<u8>, signer: String },
    /// Tell the operator `message`; report `Reported`.
    Report { message: String },
    /// Ask `label` with no preselected; report `RepeatAnswered`.
    AskRepeat { label: String },
    /// Close with `farewell`; the session is over.
    Finish { result: SessionResult, farewell: String },
    /// Nothing: the event was not one the session awaits.
    Nothing,
}

pub enum ActionView {
    Configure { repeat: bool },
    AskSigner { label: Seq<char>, suggestion: Seq<char> },
    AskConfirmation { summary: Seq<char>, label: Seq<char> },
    SignAndSubmit { target: Seq<char>, call: Seq<u8>, signer: Seq<char> },
    Report { message: Seq<char> },
    AskRepeat { label: Seq<char> },
    Finish { result: SessionResultView, farewell: Seq<char> },
    Nothing,
}

impl View for Action {
    type V = ActionView;

    open spec fn view(&self) -> ActionView {
        match *self {
            Action::Configure { repeat } => ActionView::Configure { repeat },
            Action::AskSigner { label, suggestion } => ActionView::AskSigner {
                label: label@,
                suggestion: suggestion@,
            },
            Action::AskConfirmation { summary, label } => ActionView::AskConfirmation {
                summary: summary@,
                label: label@,
            },
            Action::SignAndSubmit { target, call, signer } => ActionView::SignAndSubmit {
                target: target@,
                call: call@,
                signer: signer@,
            },
            Action::Report { message } => ActionView::Report { message: message@ },
            Action::AskRepeat { label } => ActionView::AskRepeat { label: label@ },
            Action::Finish { result, farewell } => ActionView::Finish {
                result: result@,
                farewell: farewell@,
            },
            Action::Nothing => ActionView::Nothing,
        }
    }
}

/// One session of calls against one chain.
#[derive(Debug)]
pub struct Session {
    /// Where the session stands.
    pub phase: Phase,
    /// What is named so far: pallet, extrinsic, arguments, endpoint and signer.
    pub command: CallParachainCommand,
    /// Whether the session began without an extrinsic named, so that further calls
    /// are offered.
    pub interactive: bool,
    /// The call that is built and not yet submitted.
    pub call: Option<DynamicPayload>,
    /// The hash of the last submission.
    pub receipt: Option<Receipt>,
}

pub struct SessionView {
    pub phase: Phase,
    pub command: CommandView,
    pub interactive: bool,
    pub call: Option<PayloadView>,
    pub receipt: Option<ReceiptView>,
}

pub open spec fn call_of(call: Option<DynamicPayload>) -> Option<PayloadView> {
    match call {
        Some(c) => Some(c@),
        None => None,
    }
}

pub open spec fn receipt_of(receipt: Option<Receipt>) -> Option<ReceiptView> {
    match receipt {
        Some(r) => Some(r@),
        None => None,
    }
}

impl View for Session {
    type V = SessionView;

    open spec fn view(&self) -> SessionView {
        SessionView {
            phase: self.phase,
            command: self.command@,
            interactive: self.interactive,
            call: call_of(self.call),
            receipt: receipt_of(self.receipt),
        }
    }
}

/// What the operator is told when declining to submit.
pub open spec fn canceled_reason(extrinsic: Option<Seq<char>>) -> Seq<char> {
    "Extrinsic "@ + debug_named(extrinsic)
        + " was not submitted. Operation canceled by the user."@
}

/// What the operator is told once the node took the call.
pub open spec fn submitted_message(hash: Seq<char>) -> Seq<char> {
    "Extrinsic submitted with hash: "@ + debug_quoted(hash)
}

/// The event is not one the session awaits: nothing changes.
pub open spec fn stay(s: SessionView) -> (SessionView, ActionView) {
    (s, ActionView::Nothing)
}

/// The session ends in `error`.
pub open spec fn fail(s: SessionView, error: ErrorView) -> (SessionView, ActionView) {
    (
        SessionView { phase: Phase::Failed, ..s },
        ActionView::Finish {
            result: SessionResultView::Failed { error },
            farewell: message_of(error),
        },
    )
}

/// The built call is shown and the operator asked whether to submit it.
pub open spec fn ask_confirmation(s: SessionView) -> (SessionView, ActionView) {
    (
        SessionView { phase: Phase::AwaitingConfirmation, ..s },
        ActionView::AskConfirmation {
            summary: display_line(s.command),
            label: "Do you want to submit the call?"@,
        },
    )
}

/// The session ends after a submission, with the last receipt as its result.
pub open spec fn finish(s: SessionView, farewell: Seq<char>) -> (SessionView, ActionView) {
    match s.receipt {
        Some(receipt) => (
            SessionView { phase: Phase::Done, receipt: None, ..s },
            ActionView::Finish { result: SessionResultView::Submitted { receipt }, farewell },
        ),
        None => fail(s, ErrorView::MissingExtrinsic),
    }
}

/// The transition function: the session after `e`, and what to do next.
pub open spec fn next(s: SessionView, e: EventView) -> (SessionView, ActionView) {
    match s.phase {
        Phase::Idle => match e {
            EventView::Start => (
                SessionView { phase: Phase::Configuring, ..s },
                ActionView::Configure { repeat: false },
            ),
            _ => stay(s),
        },
        Phase::Configuring => match e {
            EventView::Prepared { command, call } => {
                let s1 = SessionView {
                    command: CommandView { suri: s.command.suri, ..command },
                    call: Some(call),
                    ..s
                };
                if s1.command.suri.len() == 0 {
                    (
                        SessionView { phase: Phase::Prepared, ..s1 },
                        ActionView::AskSigner {
                            label: "Who is going to sign the extrinsic:"@,
                            suggestion: DEFAULT_URI@,
                        },
                    )
                } else {
                    ask_confirmation(s1)
                }
            },
            EventView::Failed { error } => fail(s, error),
            _ => stay(s),
        },
        Phase::Prepared => match e {
            EventView::SignerEntered { suri } => ask_confirmation(
                SessionView { command: CommandView { suri, ..s.command }, ..s },
            ),
            EventView::Interrupted => fail(s, ErrorView::Canceled),
            _ => stay(s),
        },
        Phase::AwaitingConfirmation => match e {
            EventView::Confirmed { submit } => if submit {
                match s.call {
                    Some(call) => (
                        SessionView { phase: Phase::Signing, ..s },
                        ActionView::SignAndSubmit {
                            target: s.command.url,
                            call: vstd::utf8::encode_utf8(call_text(call)),
                            signer: s.command.suri,
                        },
                    ),
                    None => fail(s, ErrorView::MissingExtrinsic),
                }
            } else {
                (
                    SessionView { phase: Phase::Canceled, ..s },
                    ActionView::Finish {
                        result: SessionResultView::Canceled {
                            reason: canceled_reason(s.command.extrinsic),
                        },
                        farewell: canceled_reason(s.command.extrinsic),
                    },
                )
            },
            EventView::Interrupted => fail(s, ErrorView::Canceled),
            _ => stay(s),
        },
        Phase::Signing => match e {
            EventView::Accepted { hash } => match s.call {
                Some(call) => (
                    SessionView {
                        phase: Phase::Submitted,
                        call: None,
                        receipt: Some(
                            ReceiptView {
                                hash,
                                encoded_call: vstd::utf8::encode_utf8(call_text(call)),
                            },
                        ),
                        ..s
                    },
                    ActionView::Report { message: submitted_message(hash) },
                ),
                None => fail(s, ErrorView::MissingExtrinsic),
            },
            EventView::Rejected { cause } => fail(s, ErrorView::Submission(cause)),
            _ => stay(s),
        },
        Phase::Submitted => match e {
            EventView::Reported => if s.interactive {
                (
                    SessionView { phase: Phase::RepeatPrompt, ..s },
                    ActionView::AskRepeat {
                        label: "Do you want to perform another call to the same chain?"@,
                    },
                )
            } else {
                finish(s, "Call completed successfully!"@)
            },
            EventView::Interrupted => fail(s, ErrorView::Canceled),
            _ => stay(s),
        },
        Phase::RepeatPrompt => match e {
            EventView::RepeatAnswered { again } => if again {
                (
                    SessionView {
                        phase: Phase::Configuring,
                        command: CommandView { pallet: None, extrinsic: None, ..s.command },
                        ..s
                    },
                    ActionView::Configure { repeat: true },
                )
            } else {
                finish(s, "Parachain calling complete."@)
            },
            EventView::Interrupted => fail(s, ErrorView::Canceled),
            _ => stay(s),
        },
        Phase::Done => stay(s),
        Phase::Canceled => stay(s),
        Phase::Failed => stay(s),
    }
}

/// What the operator is told when declining, from the extrinsic's name as `{:?}`
/// writes it.
pub fn cancellation_notice(shown_name: &str) -> (reason: String)
    ensures
        reason@ == "Extrinsic "@ + shown_name@
            + " was not submitted. Operation canceled by the user."@,
{
    String::from_str("Extrinsic ").concat(shown_name).concat(
        " was not submitted. Operation canceled by the user.",
    )
}

/// What the operator is told once the node took the call, from the hash as `{:?}`
/// writes it.
pub fn submission_notice(shown_hash: &str) -> (message: String)
    ensures
        message@ == "Extrinsic submitted with hash: "@ + shown_hash@,
{
    String::from_str("Extrinsic submitted with hash: ").concat(shown_hash)
}

impl Session {
    /// A session that has not begun, for `command`. Further calls are offered at its
    /// end only where `command` names no extrinsic.
    pub fn new(command: CallParachainCommand) -> (session: Session)
        ensures
            session@ == (SessionView {
                phase: Phase::Idle,
                command: command@,
                interactive: command@.extrinsic is None,
                call: None,
                receipt: None,
            }),
    {
        let interactive = command.extrinsic.is_none();
        Session { phase: Phase::Idle, command, interactive, call: None, receipt: None }
    }

    fn fail(&mut self, error: Error) -> (action: Action)
        ensures
            (final(self)@, action@) == fail(old(self)@, error@),
    {
        self.phase = Phase::Failed;
        let farewell = error.message();
        Action::Finish { result: SessionResult::Failed { error }, farewell }
    }

    fn ask_confirmation(&mut self) -> (action: Action)
        ensures
            (final(self)@, action@) == ask_confirmation(old(self)@),
    {
        self.phase = Phase::AwaitingConfirmation;
        Action::AskConfirmation {
            summary: self.command.display(),
            label: String::from_str("Do you want to submit the call?"),
        }
    }

    fn finish(&mut self, farewell: &str) -> (action: Action)
        ensures
            (final(self)@, action@) == finish(old(self)@, farewell@),
    {
        match self.receipt.take() {
            Some(receipt) => {
                self.phase = Phase::Done;
                Action::Finish {
                    result: SessionResult::Submitted { receipt },
                    farewell: String::from_str(farewell),
                }
            },
            None => self.fail(Error::MissingExtrinsic),
        }
    }

    /// Takes the session from one phase to the next on `event`, and says what the
    /// caller is to do now. An event that the phase does not await changes nothing.
    pub fn step(&mut self, event: Event) -> (action: Action)
        ensures
            (final(self)@, action@) == next(old(self)@, event@),
    {
        match self.phase {
            Phase::Idle => match event {
                Event::Start => {
                    self.phase = Phase::Configuring;
                    Action::Configure { repeat: false }
                },
                _ => Action::Nothing,
            },
            Phase::Configuring => match event {
                Event::Prepared { command, call } => {
                    let mut command = command;
                    command.suri = self.command.suri.clone();
                    self.command = command;
                    self.call = Some(call);
                    if self.command.suri.as_str().is_empty() {
                        self.phase = Phase::Prepared;
                        Action::AskSigner {
                            label: String::from_str("Who is going to sign the extrinsic:"),
                            suggestion: String::from_str(DEFAULT_URI),
                        }
                    } else {
                        self.ask_confirmation()
                    }
                },
                Event::Failed { error } => self.fail(error),
                _ => Action::Nothing,
            },
            Phase::Prepared => match event {
                Event::SignerEntered { suri } => {
                    self.command.suri = suri;
                    self.ask_confirmation()
                },
                Event::Interrupted => self.fail(Error::Canceled),
                _ => Action::Nothing,
            },
            Phase::AwaitingConfirmation => match event {
                Event::Confirmed { submit } => {
                    if submit {
                        match &self.call {
                            Some(call) => {
                                let bytes = encode_call_data(call);
                                self.phase = Phase::Signing;
                                Action::SignAndSubmit {
                                    target: self.command.url.clone(),
                                    call: bytes,
                                    signer: self.command.suri.clone(),
                                }
                            },
                            None => self.fail(Error::MissingExtrinsic),
                        }
                    } else {
                        self.phase = Phase::Canceled;
                        let reason = cancellation_notice(
                            debug_name(&self.command.extrinsic).as_str(),
                        );
                        let farewell = reason.clone();
                        Action::Finish { result: SessionResult::Canceled { reason }, farewell }
                    }
                },
                Event::Interrupted => self.fail(Error::Canceled),
                _ => Action::Nothing,
            },
            Phase::Signing => match event {
                Event::Accepted { hash } => match self.call.take() {
                    Some(call) => {
                        let message = submission_notice(debug_quote(hash.as_str()).as_str());
                        let encoded_call = encode_call_data(&call);
                        self.receipt = Some(Receipt { hash, encoded_call });
                        self.phase = Phase::Submitted;
                        Action::Report { message }
                    },
                    None => self.fail(Error::MissingExtrinsic),
                },
                Event::Rejected { cause } => self.fail(Error::Submission(cause)),
                _ => Action::Nothing,
            },
            Phase::Submitted => match event {
                Event::Reported => {
                    if self.interactive {
                        self.phase = Phase::RepeatPrompt;
                        Action::AskRepeat {
                            label: String::from_str(
                                "Do you want to perform another call to the same chain?",
                            ),
                        }
                    } else {
                        self.finish("Call completed successfully!")
                    }
                },
                Event::Interrupted => self.fail(Error::Canceled),
                _ => Action::Nothing,
            },
            Phase::RepeatPrompt => match event {
                Event::RepeatAnswered { again } => {
                    if again {
                        self.command.reset_for_new_call();
                        self.phase = Phase::Configuring;
                        Action::Configure { repeat: true }
                    } else {
                        self.finish("Parachain calling complete.")
                    }
                },
                Event::Interrupted => self.fail(Error::Canceled),
                _ => Action::Nothing,
            },
            Phase::Done => Action::Nothing,
            Phase::Canceled => Action::Nothing,
            Phase::Failed => Action::Nothing,
        }
    }
}

} // verus!
