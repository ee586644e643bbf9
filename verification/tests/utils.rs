use pop_cli::endpoint::endpoint_from;
use pop_cli::error::Error;
use pop_cli::utils::{
    bytes_from, canonical_or_io, canonicalized_path, manifest_failure, manifest_location,
};
use sp_core::Bytes;

#[test]
fn manifest_lies_right_below_the_project_directory() {
    let temp_dir = tempfile::tempdir().expect("Could not create temp dir");
    let temp_contract_dir = tempfile::Builder::new()
        .prefix("test_contract")
        .rand_bytes(0)
        .tempdir_in(temp_dir.path())
        .expect("Could not create contract dir");
    let directory = temp_contract_dir.path().to_string_lossy().to_string();
    assert!(directory.ends_with("test_contract"));
    let manifest = manifest_location(Some(&directory)).unwrap();
    assert_eq!(manifest, format!("{}/Cargo.toml", directory));
    assert_eq!(manifest_location(Some("")).unwrap(), "/Cargo.toml");
}

#[test]
fn no_directory_names_no_manifest() {
    assert_eq!(manifest_location(None), None);
}

#[test]
fn test_canonicalized_path() {
    let temp_dir = tempfile::tempdir().unwrap();
    // Error case
    let error_directory = canonicalized_path(&temp_dir.path().join("my_directory"));
    assert!(error_directory.is_err());
    assert!(matches!(error_directory, Err(Error::IO(..))));
    // Success case
    let found = canonicalized_path(temp_dir.path()).unwrap();
    assert!(found.is_absolute());
}

#[test]
fn decoded_bytes_are_wrapped_unchanged() {
    let result = bytes_from(Ok(vec![72, 101, 108, 108, 111])).unwrap();
    assert_eq!(result, Bytes(vec![72, 101, 108, 108, 111]));
    assert_eq!(bytes_from(Ok(Vec::new())).unwrap(), Bytes(vec![]));
}

#[test]
fn decoder_complaint_is_a_hex_parsing_failure() {
    match bytes_from(Err("Odd number of digits".to_string())) {
        Err(Error::HexParsing(cause)) => assert_eq!(cause, "Odd number of digits"),
        other => panic!("expected a hex failure, got {:?}", other),
    }
}

#[test]
fn verdicts_are_mapped_to_the_library_errors() {
    match manifest_failure("Manifest file must be a Cargo.toml") {
        Error::ManifestPath(message) => assert_eq!(
            message,
            "Failed to get manifest path: Manifest file must be a Cargo.toml"
        ),
        other => panic!("expected a manifest failure, got {:?}", other),
    }
    assert!(matches!(
        canonical_or_io(Err("No such file".to_string())),
        Err(Error::IO(cause)) if cause == "No such file"
    ));
    assert!(matches!(
        endpoint_from(Err("relative URL without a base".to_string())),
        Err(Error::InvalidUrl(cause)) if cause == "relative URL without a base"
    ));
    assert_eq!(endpoint_from(Ok("ws://a/".to_string())).unwrap(), "ws://a/");
}
