//! Helpers for contract projects: paths, manifests and raw bytes.

use vstd::prelude::*;
use vstd::string::*;
use std::path::{Path, PathBuf};
use crate::cli::str_of;
use crate::error::{Error, ErrorView};

verus! {

#[verifier::external_type_specification]
#[verifier::external_body]
pub struct ExPath(Path);

#[verifier::external_type_specification]
#[verifier::external_body]
pub struct ExPathBuf(PathBuf);

/// `Path::canonicalize`, with the error turned into its message. What comes back
/// depends on the file system, so nothing is promised of it.
#[verifier::external_body]
fn canonicalize(target: &Path) -> (found: Result<PathBuf, String>) {
    match target.canonicalize() {
        Ok(path) => Ok(path),
        Err(e) => Err(e.to_string()),
    }
}

/// What [`canonicalized_path`] makes of what the file system said.
pub fn canonical_or_io(found: Result<PathBuf, String>) -> (out: Result<PathBuf, Error>)
    ensures
        match (found, out) {
            (Ok(path), Ok(same)) => same == path,
            (Err(cause), Err(e)) => e@ == ErrorView::IO(cause@),
            _ => false,
        },
{
    match found {
        Ok(path) => Ok(path),
        Err(cause) => Err(Error::IO(cause)),
    }
}

/// Canonicalizes `target`: absolute, with symbolic links resolved. A path that the
/// file system cannot resolve gives [`Error::IO`].
pub fn canonicalized_path(target: &Path) -> (out: Result<PathBuf, Error>)
    ensures
        out is Err ==> out->Err_0@ is IO,
{
    canonical_or_io(canonicalize(target))
}

#[verifier::external_type_specification]
#[verifier::external_body]
pub struct ExBytes(sp_core::Bytes);

/// The bytes that a [`sp_core::Bytes`] holds, in order.
pub uninterp spec fn bytes_held(bytes: sp_core::Bytes) -> Seq<u8>;

/// `sp_core::Bytes::from` on a vector: the result holds the vector's bytes, unchanged.
#[verifier::external_body]
fn into_bytes(raw: Vec<u8>) -> (bytes: sp_core::Bytes)
    ensures
        bytes_held(bytes) == raw@,
{
    sp_core::Bytes::from(raw)
}

/// A hex decoder's verdict as this library reports it: the bytes, or the complaint
/// inside a hex parsing failure.
pub open spec fn bytes_of(verdict: Result<Seq<u8>, Seq<char>>) -> Result<Seq<u8>, ErrorView> {
    match verdict {
        Ok(bytes) => Ok(bytes),
        Err(cause) => Err(ErrorView::HexParsing(cause)),
    }
}

/// The views of a decoder's verdict.
pub open spec fn decoded_views(decoded: Result<Vec<u8>, String>) -> Result<Seq<u8>, Seq<char>> {
    match decoded {
        Ok(bytes) => Ok(bytes@),
        Err(cause) => Err(cause@),
    }
}

/// Wraps decoded bytes, or the decoder's complaint in [`Error::HexParsing`].
pub fn bytes_from(decoded: Result<Vec<u8>, String>) -> (out: Result<sp_core::Bytes, Error>)
    ensures
        match out {
            Ok(bytes) => bytes_of(decoded_views(decoded)) == Ok::<Seq<u8>, ErrorView>(
                bytes_held(bytes),
            ),
            Err(e) => bytes_of(decoded_views(decoded)) == Err::<Seq<u8>, ErrorView>(e@),
        },
{
    match decoded {
        Ok(bytes) => Ok(into_bytes(bytes)),
        Err(cause) => Err(Error::HexParsing(cause)),
    }
}

/// The manifest that belongs to a project directory: `Cargo.toml` right below it.
/// Without a directory there is nothing to name, and the manifest of the current
/// directory is meant.
pub open spec fn manifest_in(directory: Option<Seq<char>>) -> Option<Seq<char>> {
    match directory {
        Some(d) => Some(d + "/Cargo.toml"@),
        None => None,
    }
}

/// Names the manifest of the contract project in `directory`.
pub fn manifest_location(directory: Option<&str>) -> (manifest: Option<String>)
    ensures
        crate::cli::text_of(manifest) == manifest_in(str_of(directory)),
{
    match directory {
        Some(d) => Some(String::from_str(d).concat("/Cargo.toml")),
        None => None,
    }
}

/// What the operator is told where a path is refused as a manifest path for `cause`.
pub fn manifest_failure(cause: &str) -> (error: Error)
    ensures
        error@ == ErrorView::ManifestPath("Failed to get manifest path: "@ + cause@),
{
    Error::ManifestPath(String::from_str("Failed to get manifest path: ").concat(cause))
}

} // verus!
