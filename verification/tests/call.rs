use pop_cli::call::{display_message, CallParachainCommand, DEFAULT_URI, DEFAULT_URL};
use pop_cli::cli::{NoticeKind, Recorded};
use pop_cli::configure::configure_call;
use pop_cli::endpoint::parse_endpoint;
use pop_cli::error::Error;
use pop_cli::registry::{
    find_extrinsic_by_name, find_pallet_by_name, Arg, Extrinsic, Pallet, Shape,
};
use pop_cli::scripted::{Answer, Scripted};
use pop_cli::selector::{select_extrinsic, select_pallet};
use pop_cli::session::Event;
use pop_cli::supplied::Supplied;

fn scripted(fragments: Vec<String>, answers: Vec<Answer>) -> Recorded<Scripted> {
    Recorded::new(Scripted::new(fragments, answers))
}

fn texts(values: &[&str]) -> Vec<String> {
    values.iter().map(|v| v.to_string()).collect()
}

fn command(pallet: Option<&str>, extrinsic: Option<&str>, args: &[&str]) -> CallParachainCommand {
    CallParachainCommand {
        pallet: pallet.map(|p| p.to_string()),
        extrinsic: extrinsic.map(|e| e.to_string()),
        args: texts(args),
        url: "ws://localhost:9944/".to_string(),
        suri: "//Alice".to_string(),
    }
}

fn registry() -> Vec<Pallet> {
    let transfer = Extrinsic {
        name: "transfer".to_string(),
        docs: "Transfer some balance.".to_string(),
        fields: vec![Arg::primitive("dest", "AccountId32"), Arg::primitive("value", "u128")],
    };
    let remark = Extrinsic {
        name: "remark".to_string(),
        docs: "Make some on-chain remark.".to_string(),
        fields: vec![Arg::primitive("remark", "Vec<u8>")],
    };
    vec![
        Pallet {
            name: "System".to_string(),
            docs: "System pallet.".to_string(),
            extrinsics: vec![remark],
        },
        Pallet {
            name: "Balances".to_string(),
            docs: "Balances pallet.".to_string(),
            extrinsics: vec![transfer],
        },
    ]
}

#[test]
fn defaults_are_named() {
    assert_eq!(DEFAULT_URL, "ws://localhost:9944/");
    assert_eq!(DEFAULT_URI, "//Alice");
}

#[test]
fn display_shows_every_segment() {
    let cmd = command(Some("Balances"), Some("transfer"), &["5Grwva...", "1000"]);
    assert_eq!(
        cmd.display(),
        "pop call parachain --pallet Balances --extrinsic transfer --args \"5Grwva...\", \"1000\" --url ws://localhost:9944/ --suri //Alice"
    );
}

#[test]
fn display_omits_what_is_absent() {
    let cmd = command(None, None, &[]);
    assert_eq!(cmd.display(), "pop call parachain --url ws://localhost:9944/ --suri //Alice");
    let cmd = command(Some("System"), None, &[]);
    assert_eq!(
        cmd.display(),
        "pop call parachain --pallet System --url ws://localhost:9944/ --suri //Alice"
    );
    let cmd = command(None, Some("remark"), &["0x00"]);
    assert_eq!(
        cmd.display(),
        "pop call parachain --extrinsic remark --args \"0x00\" --url ws://localhost:9944/ --suri //Alice"
    );
}

#[test]
fn reset_keeps_endpoint_signer_and_arguments() {
    let mut cmd = command(Some("Balances"), Some("transfer"), &["a", "1"]);
    cmd.suri = "//Bob".to_string();
    cmd.reset_for_new_call();
    assert_eq!(cmd.pallet, None);
    assert_eq!(cmd.extrinsic, None);
    assert_eq!(cmd.args, texts(&["a", "1"]));
    assert_eq!(cmd.url, "ws://localhost:9944/");
    assert_eq!(cmd.suri, "//Bob");
}

#[test]
fn duplicate_is_field_for_field() {
    let cmd = command(Some("Balances"), None, &["a"]);
    let copy = cmd.duplicate();
    assert_eq!(copy.pallet.as_deref(), Some("Balances"));
    assert_eq!(copy.extrinsic, None);
    assert_eq!(copy.args, texts(&["a"]));
    assert_eq!(copy.url, cmd.url);
    assert_eq!(copy.suri, cmd.suri);
}

#[test]
fn message_goes_out_as_success_or_cancellation() {
    let mut source = scripted(Vec::new(), Vec::new());
    display_message("Call completed successfully!", true, &mut source).unwrap();
    display_message("not today", false, &mut source).unwrap();
    let shown = source.source().notices();
    assert_eq!(shown.len(), 2);
    assert_eq!(shown[0].kind, NoticeKind::Outro);
    assert_eq!(shown[0].text, "Call completed successfully!");
    assert_eq!(shown[1].kind, NoticeKind::OutroCancel);
    assert_eq!(shown[1].text, "not today");
}

#[test]
fn lookup_is_exact_and_case_sensitive() {
    let pallets = registry();
    assert_eq!(find_pallet_by_name(&pallets, "Balances").unwrap(), 1);
    assert!(matches!(
        find_pallet_by_name(&pallets, "balances"),
        Err(Error::UnknownPallet(name)) if name == "balances"
    ));
    assert!(matches!(find_pallet_by_name(&pallets, "Balance"), Err(Error::UnknownPallet(_))));
    assert_eq!(find_extrinsic_by_name(&pallets[1], "transfer").unwrap(), 0);
    assert!(matches!(
        find_extrinsic_by_name(&pallets[1], "Transfer"),
        Err(Error::UnknownExtrinsic { pallet, extrinsic }) if pallet == "Balances" && extrinsic == "Transfer"
    ));
}

#[test]
fn lookup_takes_the_first_of_equal_names() {
    let mut pallets = registry();
    pallets.push(Pallet {
        name: "System".to_string(),
        docs: "again".to_string(),
        extrinsics: Vec::new(),
    });
    assert_eq!(find_pallet_by_name(&pallets, "System").unwrap(), 0);
}

#[test]
fn named_pallet_is_never_asked_for() {
    let pallets = registry();
    let mut source = scripted(Vec::new(), vec![Answer::Index(0)]);
    let named = Some("Balances".to_string());
    assert_eq!(select_pallet(&pallets, &named, &mut source).unwrap(), 1);
    assert_eq!(source.source().unused_answers(), 1);
    assert_eq!(select_extrinsic(&pallets[1], &Some("transfer".to_string()), &mut source).unwrap(), 0);
    assert_eq!(source.source().unused_answers(), 1);
}

#[test]
fn unnamed_pallet_is_selected() {
    let pallets = registry();
    let mut source = scripted(Vec::new(), vec![Answer::Index(1), Answer::Index(0)]);
    assert_eq!(select_pallet(&pallets, &None, &mut source).unwrap(), 1);
    assert_eq!(select_extrinsic(&pallets[1], &None, &mut source).unwrap(), 0);
    assert_eq!(source.source().unused_answers(), 0);
}

#[test]
fn selection_out_of_range_or_canceled_fails() {
    let pallets = registry();
    let mut source = scripted(Vec::new(), vec![Answer::Index(2), Answer::Cancel]);
    assert!(matches!(select_pallet(&pallets, &None, &mut source), Err(Error::Canceled)));
    assert!(matches!(select_pallet(&pallets, &None, &mut source), Err(Error::Canceled)));
    assert!(matches!(select_pallet(&pallets, &None, &mut source), Err(Error::Canceled)));
}

#[test]
fn configure_with_everything_supplied_asks_nothing() {
    let pallets = registry();
    let mut cmd = command(Some("Balances"), Some("transfer"), &[]);
    let mut source = scripted(texts(&["5Grwva...", "1000"]), Vec::new());
    cmd.configure(&pallets, &mut source).unwrap();
    assert_eq!(cmd.args, texts(&["5Grwva...", "1000"]));
    assert_eq!(source.source().unused_fragments(), 0);
    let shown = source.source().notices();
    assert_eq!(shown.len(), 1);
    assert_eq!(shown[0].kind, NoticeKind::Info);
    assert_eq!(
        shown[0].text,
        "pop call parachain --pallet Balances --extrinsic transfer --args \"5Grwva...\", \"1000\" --url ws://localhost:9944/ --suri //Alice"
    );
}

#[test]
fn configure_records_what_was_selected() {
    let pallets = registry();
    let mut cmd = command(None, None, &[]);
    let mut source = scripted(
        Vec::new(),
        vec![Answer::Index(0), Answer::Index(0), Answer::Text("0x1234".to_string())],
    );
    cmd.configure(&pallets, &mut source).unwrap();
    assert_eq!(cmd.pallet.as_deref(), Some("System"));
    assert_eq!(cmd.extrinsic.as_deref(), Some("remark"));
    assert_eq!(cmd.args, texts(&["0x1234"]));
}

#[test]
fn configure_asks_only_for_what_is_missing() {
    let pallets = registry();
    let mut cmd = command(Some("Balances"), None, &[]);
    let mut source = scripted(texts(&["5Grwva...", "7"]), vec![Answer::Index(0)]);
    cmd.configure(&pallets, &mut source).unwrap();
    assert_eq!(cmd.extrinsic.as_deref(), Some("transfer"));
    assert_eq!(source.source().unused_answers(), 0);
}

#[test]
fn configure_fails_on_unknown_names() {
    let pallets = registry();
    let mut cmd = command(Some("Nope"), Some("transfer"), &[]);
    let mut source = scripted(Vec::new(), Vec::new());
    assert!(matches!(cmd.configure(&pallets, &mut source), Err(Error::UnknownPallet(_))));
    let mut cmd = command(Some("Balances"), Some("nope"), &[]);
    assert!(matches!(
        cmd.configure(&pallets, &mut source),
        Err(Error::UnknownExtrinsic { .. })
    ));
    assert!(source.source().notices().is_empty());
}

#[test]
fn configure_fails_where_an_argument_gets_no_value() {
    let pallets = registry();
    let mut cmd = command(Some("Balances"), Some("transfer"), &[]);
    let mut source = scripted(texts(&["5Grwva..."]), Vec::new());
    match cmd.configure(&pallets, &mut source) {
        Err(Error::ArgumentResolution { path }) => assert_eq!(path, "value"),
        other => panic!("expected a resolution failure, got {:?}", other),
    }
}

#[test]
fn prepare_needs_both_names() {
    let pallets = registry();
    let mut source = scripted(Vec::new(), Vec::new());
    let cmd = command(Some("Balances"), None, &[]);
    assert!(matches!(cmd.prepare_extrinsic(&pallets, &mut source), Err(Error::MissingExtrinsic)));
    let cmd = command(None, Some("transfer"), &[]);
    assert!(matches!(cmd.prepare_extrinsic(&pallets, &mut source), Err(Error::MissingPallet)));
    let cmd = command(None, None, &[]);
    assert!(matches!(cmd.prepare_extrinsic(&pallets, &mut source), Err(Error::MissingExtrinsic)));
    assert!(source.source().notices().is_empty());
}

#[test]
fn prepare_shows_the_encoded_call() {
    let pallets = registry();
    let mut source = scripted(Vec::new(), Vec::new());
    let cmd = command(Some("System"), Some("remark"), &["hi"]);
    let call = cmd.prepare_extrinsic(&pallets, &mut source).unwrap();
    assert_eq!(call.args, texts(&["hi"]));
    let shown = source.source().notices();
    assert_eq!(shown.len(), 1);
    assert_eq!(shown[0].text, "Encoded call data: 0x53797374656d2e72656d61726b28686929");
}

#[test]
fn configure_call_reports_prepared_or_failed() {
    let pallets = registry();
    let mut source = scripted(texts(&["5Grwva...", "1000"]), Vec::new());
    let event = configure_call(command(Some("Balances"), Some("transfer"), &[]), &pallets, &mut source);
    match event {
        Event::Prepared { command, call } => {
            assert_eq!(command.args, texts(&["5Grwva...", "1000"]));
            assert_eq!(call.pallet, "Balances");
            assert_eq!(call.args, texts(&["5Grwva...", "1000"]));
        },
        other => panic!("expected a prepared call, got {:?}", other),
    }
    let mut source = scripted(texts(&["5Grwva...", "much"]), Vec::new());
    let event = configure_call(command(Some("Balances"), Some("transfer"), &[]), &pallets, &mut source);
    assert!(matches!(event, Event::Failed { error: Error::Encoding { index: 1, .. } }));
}

#[test]
fn endpoint_is_parsed_into_its_normal_form() {
    assert_eq!(
        parse_endpoint("wss://rpc1.paseo.popnetwork.xyz").unwrap(),
        "wss://rpc1.paseo.popnetwork.xyz/"
    );
    assert_eq!(parse_endpoint("ws://localhost:9944/").unwrap(), "ws://localhost:9944/");
    assert!(matches!(parse_endpoint("not a url"), Err(Error::InvalidUrl(_))));
}

#[test]
fn default_endpoint_is_asked_for_once() {
    let mut cmd = command(None, None, &[]);
    let mut source =
        scripted(Vec::new(), vec![Answer::Text("wss://rpc1.paseo.popnetwork.xyz".to_string())]);
    cmd.resolve_url(&mut source, false).unwrap();
    assert_eq!(cmd.url, "wss://rpc1.paseo.popnetwork.xyz/");
    assert_eq!(source.source().notices()[0].kind, NoticeKind::Intro);
    assert_eq!(source.source().notices()[0].text, "Call a parachain");
}

#[test]
fn chosen_endpoint_and_repeats_ask_nothing() {
    let mut cmd = command(None, None, &[]);
    cmd.url = "wss://example.net/".to_string();
    let mut source = scripted(Vec::new(), vec![Answer::Text("ws://other/".to_string())]);
    cmd.resolve_url(&mut source, false).unwrap();
    assert_eq!(cmd.url, "wss://example.net/");
    assert_eq!(source.source().unused_answers(), 1);
    let mut cmd = command(None, None, &[]);
    cmd.resolve_url(&mut source, true).unwrap();
    assert_eq!(cmd.url, "ws://localhost:9944/");
    assert_eq!(source.source().unused_answers(), 1);
    assert_eq!(source.source().notices().len(), 1);
}

#[test]
fn endpoint_that_is_no_url_is_refused() {
    let mut cmd = command(None, None, &[]);
    let mut source = scripted(Vec::new(), vec![Answer::Text("nonsense".to_string())]);
    assert!(matches!(cmd.resolve_url(&mut source, false), Err(Error::InvalidUrl(_))));
    assert_eq!(cmd.url, "ws://localhost:9944/");
    let mut source = scripted(Vec::new(), vec![Answer::Cancel]);
    assert!(matches!(cmd.resolve_url(&mut source, false), Err(Error::Canceled)));
}

#[test]
fn shapes_follow_the_flags() {
    assert_eq!(Arg::primitive("a", "u8").shape(), Shape::Primitive);
    assert_eq!(Arg::variant("v", "E", vec![Arg::primitive("A", "")]).shape(), Shape::Variant);
    assert_eq!(Arg::composite("c", "S", vec![Arg::primitive("a", "u8")]).shape(), Shape::Composite);
    assert_eq!(Arg::variant("v", "E", Vec::new()).shape(), Shape::Primitive);
    let opt = Arg::composite("c", "S", vec![Arg::primitive("a", "u8")]).optional();
    assert!(opt.optional);
    assert_eq!(opt.shape(), Shape::Composite);
}

#[test]
fn errors_have_messages() {
    assert_eq!(Error::MissingPallet.message(), "Please specify the pallet.");
    assert_eq!(Error::MissingExtrinsic.message(), "Please specify the extrinsic.");
    assert_eq!(
        Error::MetadataFetch("timeout".to_string()).message(),
        "Unable to fetch the chain metadata: timeout"
    );
    assert_eq!(Error::UnknownPallet("X".to_string()).message(), "Pallet not found: X");
    assert_eq!(
        Error::UnknownExtrinsic { pallet: "X".to_string(), extrinsic: "y".to_string() }.message(),
        "Extrinsic not found: X.y"
    );
    assert_eq!(
        Error::ArgumentResolution { path: "a.b".to_string() }.message(),
        "No value for the argument: a.b"
    );
    assert_eq!(
        Error::ArgumentCountMismatch {
            pallet: "X".to_string(),
            extrinsic: "y".to_string(),
            expected: 2,
            supplied: 13,
        }
        .message(),
        "Error parsing the arguments: X.y takes 2, got 13"
    );
    assert_eq!(
        Error::Encoding { pallet: "X".to_string(), extrinsic: "y".to_string(), index: 1 }.message(),
        "Error parsing the arguments: X.y, argument 1"
    );
    assert_eq!(Error::InvalidUrl("bad".to_string()).message(), "Invalid URL: bad");
    assert_eq!(Error::Canceled.message(), "Operation canceled.");
    assert_eq!(Error::Connection("refused".to_string()).message(), "Failed to connect: refused");
    assert_eq!(Error::Submission("nope".to_string()).message(), "ERROR: nope");
    assert_eq!(Error::ManifestPath("m".to_string()).message(), "m");
    assert_eq!(Error::BalanceParsing("b".to_string()).message(), "Failed to parse balance: b");
    assert_eq!(
        Error::HexParsing("h".to_string()).message(),
        "Failed to parse hex encoded bytes: h"
    );
    assert_eq!(Error::IO("gone".to_string()).message(), "IO error: gone");
}

#[test]
fn fragments_leave_the_command_for_the_source() {
    let mut cmd = command(Some("Balances"), Some("transfer"), &["5Grwva...", "1000"]);
    let fragments = cmd.take_fragments();
    assert_eq!(fragments, texts(&["5Grwva...", "1000"]));
    assert!(cmd.args.is_empty());
    assert_eq!(cmd.pallet.as_deref(), Some("Balances"));
    let prompts = Scripted::new(texts(&["never"]), vec![Answer::Text("asked".to_string())]);
    let mut source = Recorded::new(Supplied::new(fragments, prompts));
    cmd.configure(&registry(), &mut source).unwrap();
    assert_eq!(cmd.args, texts(&["5Grwva...", "1000"]));
    assert_eq!(source.source().unused_fragments(), 0);
    assert_eq!(source.source().prompts().unused_fragments(), 1);
    assert_eq!(source.source().prompts().unused_answers(), 1);
    assert_eq!(source.source().prompts().notices().len(), 1);
}

#[test]
fn supplied_source_asks_once_fragments_are_used_up() {
    let pallets = registry();
    let mut cmd = command(Some("Balances"), Some("transfer"), &["5Grwva..."]);
    let prompts = Scripted::new(Vec::new(), vec![Answer::Text("12".to_string())]);
    let mut source = Recorded::new(Supplied::new(cmd.take_fragments(), prompts));
    cmd.configure(&pallets, &mut source).unwrap();
    assert_eq!(cmd.args, texts(&["5Grwva...", "12"]));
    assert_eq!(source.into_source().prompts().unused_answers(), 0);
}
