use pop_cli::builder::{
    argument_fits, construct_extrinsic, encode_call_data, render_call, DynamicPayload,
};
use pop_cli::decimal::{fits_unsigned, to_decimal};
use pop_cli::error::Error;
use pop_cli::registry::{Arg, Extrinsic, Pallet};
use pop_cli::text::{join, to_hex};

fn texts(values: &[&str]) -> Vec<String> {
    values.iter().map(|v| v.to_string()).collect()
}

fn balances() -> Vec<Pallet> {
    let transfer = Extrinsic {
        name: "transfer".to_string(),
        docs: "Transfer some liquid free balance to another account.".to_string(),
        fields: vec![Arg::primitive("dest", "AccountId32"), Arg::primitive("value", "u128")],
    };
    let force = Extrinsic {
        name: "force_unreserve".to_string(),
        docs: String::new(),
        fields: vec![Arg::primitive("who", "AccountId32"), Arg::primitive("level", "u8")],
    };
    vec![
        Pallet { name: "System".to_string(), docs: String::new(), extrinsics: Vec::new() },
        Pallet {
            name: "Balances".to_string(),
            docs: "Balances of accounts.".to_string(),
            extrinsics: vec![transfer, force],
        },
    ]
}

#[test]
fn builds_a_call_that_fits() {
    let call =
        construct_extrinsic(&balances(), "Balances", "transfer", texts(&["5Grwva...", "1000"]))
            .unwrap();
    assert_eq!(call.pallet, "Balances");
    assert_eq!(call.extrinsic, "transfer");
    assert_eq!(call.args, texts(&["5Grwva...", "1000"]));
    assert_eq!(render_call(&call), "Balances.transfer(5Grwva..., 1000)");
}

#[test]
fn unknown_pallet_is_refused() {
    let out = construct_extrinsic(&balances(), "balances", "transfer", texts(&["a", "1"]));
    assert!(matches!(out, Err(Error::UnknownPallet(name)) if name == "balances"));
}

#[test]
fn unknown_extrinsic_is_refused() {
    let out = construct_extrinsic(&balances(), "Balances", "burn", texts(&["a", "1"]));
    assert!(matches!(
        out,
        Err(Error::UnknownExtrinsic { pallet, extrinsic }) if pallet == "Balances" && extrinsic == "burn"
    ));
}

#[test]
fn argument_count_is_validated() {
    let out = construct_extrinsic(&balances(), "Balances", "transfer", texts(&["a", "1", "2"]));
    match out {
        Err(Error::ArgumentCountMismatch { pallet, extrinsic, expected, supplied }) => {
            assert_eq!(pallet, "Balances");
            assert_eq!(extrinsic, "transfer");
            assert_eq!(expected, 2);
            assert_eq!(supplied, 3);
        },
        other => panic!("expected a count mismatch, got {:?}", other),
    }
    let out = construct_extrinsic(&balances(), "Balances", "transfer", texts(&["a"]));
    assert!(matches!(out, Err(Error::ArgumentCountMismatch { expected: 2, supplied: 1, .. })));
}

#[test]
fn text_where_a_number_is_due_is_an_encoding_error() {
    let out = construct_extrinsic(&balances(), "Balances", "transfer", texts(&["a", "lots"]));
    match out {
        Err(Error::Encoding { pallet, extrinsic, index }) => {
            assert_eq!(pallet, "Balances");
            assert_eq!(extrinsic, "transfer");
            assert_eq!(index, 1);
        },
        other => panic!("expected an encoding error, got {:?}", other),
    }
}

#[test]
fn number_out_of_range_is_an_encoding_error() {
    let out = construct_extrinsic(&balances(), "Balances", "force_unreserve", texts(&["a", "256"]));
    assert!(matches!(out, Err(Error::Encoding { index: 1, .. })));
    let out = construct_extrinsic(&balances(), "Balances", "force_unreserve", texts(&["a", "255"]));
    assert!(out.is_ok());
}

#[test]
fn only_required_unsigned_primitives_are_checked() {
    assert!(argument_fits(&Arg::primitive("who", "AccountId32"), "anything"));
    assert!(argument_fits(&Arg::primitive("n", "u32").optional(), "None"));
    assert!(argument_fits(&Arg::composite("c", "u32", vec![Arg::primitive("n", "u32")]), "x"));
    assert!(!argument_fits(&Arg::primitive("n", "u32"), ""));
    assert!(!argument_fits(&Arg::primitive("n", "u32"), "12a"));
    assert!(argument_fits(&Arg::primitive("n", "u32"), "4294967295"));
    assert!(!argument_fits(&Arg::primitive("n", "u32"), "4294967296"));
    assert!(argument_fits(&Arg::primitive("n", "u16"), "65535"));
    assert!(!argument_fits(&Arg::primitive("n", "u16"), "65536"));
    assert!(argument_fits(&Arg::primitive("n", "u64"), "18446744073709551615"));
    assert!(!argument_fits(&Arg::primitive("n", "u64"), "18446744073709551616"));
}

#[test]
fn decimal_check_reaches_the_widest_type() {
    assert!(fits_unsigned("340282366920938463463374607431768211455", u128::MAX));
    assert!(!fits_unsigned("340282366920938463463374607431768211456", u128::MAX));
    assert!(!fits_unsigned("3402823669209384634633746074317682114550", u128::MAX));
    assert!(fits_unsigned("0007", 7));
    assert!(!fits_unsigned("8", 7));
    assert!(!fits_unsigned("-1", 7));
    assert!(!fits_unsigned("١", 7));
    assert!(fits_unsigned("0", 0));
}

#[test]
fn numbers_are_written_in_decimal() {
    assert_eq!(to_decimal(0), "0");
    assert_eq!(to_decimal(7), "7");
    assert_eq!(to_decimal(10), "10");
    assert_eq!(to_decimal(1234567890), "1234567890");
}

#[test]
fn encoding_is_the_bytes_of_the_canonical_text() {
    let call = DynamicPayload {
        pallet: "Balances".to_string(),
        extrinsic: "transfer".to_string(),
        args: texts(&["5Grwva...", "1000"]),
    };
    let bytes = encode_call_data(&call);
    assert_eq!(bytes, b"Balances.transfer(5Grwva..., 1000)".to_vec());
    assert_eq!(encode_call_data(&call), bytes);
}

#[test]
fn call_without_arguments_has_empty_brackets() {
    let call = DynamicPayload {
        pallet: "Timestamp".to_string(),
        extrinsic: "now".to_string(),
        args: Vec::new(),
    };
    assert_eq!(render_call(&call), "Timestamp.now()");
}

#[test]
fn bytes_are_shown_in_hex() {
    assert_eq!(to_hex(&vec![]), "0x");
    assert_eq!(to_hex(&vec![0, 9, 10, 15, 16, 171, 255]), "0x00090a0f10abff");
    assert_eq!(to_hex(&b"Hello".to_vec()), "0x48656c6c6f");
}

#[test]
fn join_puts_the_separator_between() {
    assert_eq!(join(&Vec::new(), ", "), "");
    assert_eq!(join(&texts(&["a"]), ", "), "a");
    assert_eq!(join(&texts(&["a", "", "c"]), ", "), "a, , c");
}
