use pop_cli::call::CallParachainCommand;
use pop_cli::cli::Recorded;
use pop_cli::configure::configure_call;
use pop_cli::error::Error;
use pop_cli::registry::{Arg, Extrinsic, Pallet};
use pop_cli::scripted::{Answer, Scripted};
use pop_cli::session::{Action, Event, Phase, Session, SessionResult};

fn scripted(fragments: Vec<String>, answers: Vec<Answer>) -> Recorded<Scripted> {
    Recorded::new(Scripted::new(fragments, answers))
}

fn texts(values: &[&str]) -> Vec<String> {
    values.iter().map(|v| v.to_string()).collect()
}

fn command(
    pallet: Option<&str>,
    extrinsic: Option<&str>,
    suri: &str,
) -> CallParachainCommand {
    CallParachainCommand {
        pallet: pallet.map(|p| p.to_string()),
        extrinsic: extrinsic.map(|e| e.to_string()),
        args: Vec::new(),
        url: "ws://localhost:9944/".to_string(),
        suri: suri.to_string(),
    }
}

fn registry() -> Vec<Pallet> {
    let transfer = Extrinsic {
        name: "transfer".to_string(),
        docs: "Transfer some balance.".to_string(),
        fields: vec![Arg::primitive("dest", "AccountId32"), Arg::primitive("value", "u128")],
    };
    vec![Pallet {
        name: "Balances".to_string(),
        docs: "Balances pallet.".to_string(),
        extrinsics: vec![transfer],
    }]
}

/// Takes a fresh session up to the confirmation of `Balances.transfer(5Grwva..., 1000)`.
fn up_to_confirmation(session: &mut Session, source: &mut Recorded<Scripted>) -> Action {
    let action = session.step(Event::Start);
    assert!(matches!(action, Action::Configure { repeat: false }));
    assert_eq!(session.phase, Phase::Configuring);
    let event = configure_call(session.command.duplicate(), &registry(), source);
    session.step(event)
}

#[test]
fn end_to_end_submission() {
    let mut session = Session::new(command(Some("Balances"), Some("transfer"), "//Alice"));
    assert!(!session.interactive);
    let mut source = scripted(texts(&["5Grwva...", "1000"]), Vec::new());
    match up_to_confirmation(&mut session, &mut source) {
        Action::AskConfirmation { summary, label } => {
            assert_eq!(
                summary,
                "pop call parachain --pallet Balances --extrinsic transfer --args \"5Grwva...\", \"1000\" --url ws://localhost:9944/ --suri //Alice"
            );
            assert_eq!(label, "Do you want to submit the call?");
        },
        other => panic!("expected the confirmation, got {:?}", other),
    }
    assert_eq!(session.phase, Phase::AwaitingConfirmation);
    match session.step(Event::Confirmed { submit: true }) {
        Action::SignAndSubmit { target, call, signer } => {
            assert_eq!(target, "ws://localhost:9944/");
            assert_eq!(call, b"Balances.transfer(5Grwva..., 1000)".to_vec());
            assert_eq!(signer, "//Alice");
        },
        other => panic!("expected the submission, got {:?}", other),
    }
    assert_eq!(session.phase, Phase::Signing);
    match session.step(Event::Accepted { hash: "0xabc".to_string() }) {
        Action::Report { message } => {
            assert_eq!(message, "Extrinsic submitted with hash: \"0xabc\"")
        },
        other => panic!("expected the report, got {:?}", other),
    }
    assert_eq!(session.phase, Phase::Submitted);
    match session.step(Event::Reported) {
        Action::Finish { result: SessionResult::Submitted { receipt }, farewell } => {
            assert_eq!(receipt.hash, "0xabc");
            assert_eq!(
                String::from_utf8(receipt.encoded_call).unwrap(),
                "Balances.transfer(5Grwva..., 1000)"
            );
            assert_eq!(farewell, "Call completed successfully!");
        },
        other => panic!("expected the end, got {:?}", other),
    }
    assert_eq!(session.phase, Phase::Done);
}

#[test]
fn cancellation_has_no_network_effect() {
    let mut session = Session::new(command(Some("Balances"), Some("transfer"), "//Alice"));
    let mut source = scripted(texts(&["5Grwva...", "1000"]), Vec::new());
    up_to_confirmation(&mut session, &mut source);
    match session.step(Event::Confirmed { submit: false }) {
        Action::Finish { result: SessionResult::Canceled { reason }, farewell } => {
            assert_eq!(
                reason,
                "Extrinsic Some(\"transfer\") was not submitted. Operation canceled by the user."
            );
            assert_eq!(farewell, reason);
        },
        other => panic!("expected the cancellation, got {:?}", other),
    }
    assert_eq!(session.phase, Phase::Canceled);
    let later = vec![
        Event::Confirmed { submit: true },
        Event::Start,
        Event::Accepted { hash: "0x1".to_string() },
        Event::RepeatAnswered { again: true },
        Event::Reported,
    ];
    for event in later {
        assert!(matches!(session.step(event), Action::Nothing));
        assert_eq!(session.phase, Phase::Canceled);
    }
}

#[test]
fn repeat_loop_preserves_signer() {
    let mut session = Session::new(command(None, None, ""));
    assert!(session.interactive);
    let mut source = scripted(
        texts(&["5Grwva...", "1000", "5FHneW...", "7"]),
        vec![Answer::Index(0), Answer::Index(0), Answer::Index(0), Answer::Index(0)],
    );
    match up_to_confirmation(&mut session, &mut source) {
        Action::AskSigner { label, suggestion } => {
            assert_eq!(label, "Who is going to sign the extrinsic:");
            assert_eq!(suggestion, "//Alice");
        },
        other => panic!("expected the signer prompt, got {:?}", other),
    }
    assert_eq!(session.phase, Phase::Prepared);
    let action = session.step(Event::SignerEntered { suri: "//Bob".to_string() });
    assert!(matches!(action, Action::AskConfirmation { .. }));
    match session.step(Event::Confirmed { submit: true }) {
        Action::SignAndSubmit { signer, .. } => assert_eq!(signer, "//Bob"),
        other => panic!("expected the submission, got {:?}", other),
    }
    session.step(Event::Accepted { hash: "0x1".to_string() });
    match session.step(Event::Reported) {
        Action::AskRepeat { label } => {
            assert_eq!(label, "Do you want to perform another call to the same chain?")
        },
        other => panic!("expected the repeat prompt, got {:?}", other),
    }
    assert_eq!(session.phase, Phase::RepeatPrompt);
    let action = session.step(Event::RepeatAnswered { again: true });
    assert!(matches!(action, Action::Configure { repeat: true }));
    assert_eq!(session.phase, Phase::Configuring);
    assert_eq!(session.command.pallet, None);
    assert_eq!(session.command.extrinsic, None);
    assert_eq!(session.command.suri, "//Bob");
    assert_eq!(session.command.url, "ws://localhost:9944/");
    let event = configure_call(session.command.duplicate(), &registry(), &mut source);
    match session.step(event) {
        Action::AskConfirmation { summary, .. } => assert!(summary.ends_with(" --suri //Bob")),
        other => panic!("expected the confirmation at once, got {:?}", other),
    }
    match session.step(Event::Confirmed { submit: true }) {
        Action::SignAndSubmit { signer, call, .. } => {
            assert_eq!(signer, "//Bob");
            assert_eq!(call, b"Balances.transfer(5FHneW..., 7)".to_vec());
        },
        other => panic!("expected the submission, got {:?}", other),
    }
    session.step(Event::Accepted { hash: "0x2".to_string() });
    session.step(Event::Reported);
    match session.step(Event::RepeatAnswered { again: false }) {
        Action::Finish { result: SessionResult::Submitted { receipt }, farewell } => {
            assert_eq!(receipt.hash, "0x2");
            assert_eq!(farewell, "Parachain calling complete.");
        },
        other => panic!("expected the end, got {:?}", other),
    }
    assert_eq!(session.phase, Phase::Done);
}

#[test]
fn handed_back_command_cannot_change_the_signer() {
    let mut session = Session::new(command(Some("Balances"), Some("transfer"), "//Alice"));
    session.step(Event::Start);
    let mut source = scripted(texts(&["5Grwva...", "1"]), Vec::new());
    let mut other = session.command.duplicate();
    other.suri = "//Mallory".to_string();
    let event = configure_call(other, &registry(), &mut source);
    session.step(event);
    assert_eq!(session.command.suri, "//Alice");
}

#[test]
fn configuration_failure_ends_the_session() {
    let mut session = Session::new(command(Some("Nope"), Some("transfer"), "//Alice"));
    let mut source = scripted(Vec::new(), Vec::new());
    match up_to_confirmation(&mut session, &mut source) {
        Action::Finish { result: SessionResult::Failed { error }, farewell } => {
            assert!(matches!(error, Error::UnknownPallet(name) if name == "Nope"));
            assert_eq!(farewell, "Pallet not found: Nope");
        },
        other => panic!("expected a failure, got {:?}", other),
    }
    assert_eq!(session.phase, Phase::Failed);
    assert!(matches!(session.step(Event::Start), Action::Nothing));
}

#[test]
fn rejected_submission_ends_the_session() {
    let mut session = Session::new(command(Some("Balances"), Some("transfer"), "//Alice"));
    let mut source = scripted(texts(&["5Grwva...", "1000"]), Vec::new());
    up_to_confirmation(&mut session, &mut source);
    session.step(Event::Confirmed { submit: true });
    match session.step(Event::Rejected { cause: "Rpc(ClientError)".to_string() }) {
        Action::Finish { result: SessionResult::Failed { error }, farewell } => {
            assert!(matches!(error, Error::Submission(cause) if cause == "Rpc(ClientError)"));
            assert_eq!(farewell, "ERROR: Rpc(ClientError)");
        },
        other => panic!("expected a failure, got {:?}", other),
    }
    assert_eq!(session.phase, Phase::Failed);
}

#[test]
fn interrupted_prompt_ends_the_session() {
    let mut session = Session::new(command(Some("Balances"), Some("transfer"), "//Alice"));
    let mut source = scripted(texts(&["5Grwva...", "1000"]), Vec::new());
    up_to_confirmation(&mut session, &mut source);
    match session.step(Event::Interrupted) {
        Action::Finish { result: SessionResult::Failed { error }, .. } => {
            assert!(matches!(error, Error::Canceled))
        },
        other => panic!("expected a failure, got {:?}", other),
    }
}

#[test]
fn unawaited_events_change_nothing() {
    let mut session = Session::new(command(Some("Balances"), Some("transfer"), "//Alice"));
    assert!(matches!(session.step(Event::Confirmed { submit: true }), Action::Nothing));
    assert_eq!(session.phase, Phase::Idle);
    session.step(Event::Start);
    assert!(matches!(session.step(Event::Confirmed { submit: true }), Action::Nothing));
    assert!(matches!(session.step(Event::Accepted { hash: "0x".to_string() }), Action::Nothing));
    assert_eq!(session.phase, Phase::Configuring);
}

#[test]
fn quoting_escapes_what_needs_it() {
    let mut session = Session::new(command(Some("Balances"), Some("transfer"), "//Alice"));
    let mut source = scripted(texts(&["5Grwva...", "1000"]), Vec::new());
    up_to_confirmation(&mut session, &mut source);
    session.step(Event::Confirmed { submit: true });
    match session.step(Event::Accepted { hash: "a\"b\\c".to_string() }) {
        Action::Report { message } => {
            assert_eq!(message, "Extrinsic submitted with hash: \"a\\\"b\\\\c\"")
        },
        other => panic!("expected the report, got {:?}", other),
    }
}
