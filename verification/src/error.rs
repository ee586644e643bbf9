//! The failures of the call pipeline.

use vstd::prelude::*;
use vstd::string::*;
use crate::decimal::{decimal_text, to_decimal};

verus! {

/// Why a call could not be configured, built or submitted.
#[derive(Debug)]
pub enum Error {
    /// The node did not hand out metadata that could be read.
    MetadataFetch(String),
    /// No pallet of that name exists on the chain.
    UnknownPallet(String),
    /// The pallet has no extrinsic of that name.
    UnknownExtrinsic { pallet: String, extrinsic: String },
    /// No pallet was named when the call was built.
    MissingPallet,
    /// No extrinsic was named when the call was built.
    MissingExtrinsic,
    /// No value could be obtained for the argument at `path`, the dot-separated
    /// names from the top-level argument down to the failing one.
    ArgumentResolution { path: String },
    /// The number of resolved arguments differs from what the extrinsic declares.
    ArgumentCountMismatch { pallet: String, extrinsic: String, expected: usize, supplied: usize },
    /// The argument at `index` cannot take the shape its descriptor demands.
    Encoding { pallet: String, extrinsic: String, index: usize },
    /// The text is no URL.
    InvalidUrl(String),
    /// A prompt outside argument resolution was canceled.
    Canceled,
    /// The node could not be connected to.
    Connection(String),
    /// Signing or submitting failed.
    Submission(String),
    /// The manifest of a contract project could not be located.
    ManifestPath(String),
    /// The text is no balance.
    BalanceParsing(String),
    /// The text is no run of hex digits.
    HexParsing(String),
    /// The file system refused.
    IO(String),
}

/// The mathematical value of an [`Error`].
pub enum ErrorView {
    MetadataFetch(Seq<char>),
    UnknownPallet(Seq<char>),
    UnknownExtrinsic { pallet: Seq<char>, extrinsic: Seq<char> },
    MissingPallet,
    MissingExtrinsic,
    ArgumentResolution { path: Seq<char> },
    ArgumentCountMismatch { pallet: Seq<char>, extrinsic: Seq<char>, expected: nat, supplied: nat },
    Encoding { pallet: Seq<char>, extrinsic: Seq<char>, index: nat },
    InvalidUrl(Seq<char>),
    Canceled,
    Connection(Seq<char>),
    Submission(Seq<char>),
    ManifestPath(Seq<char>),
    BalanceParsing(Seq<char>),
    HexParsing(Seq<char>),
    IO(Seq<char>),
}

impl View for Error {
    type V = ErrorView;

    open spec fn view(&self) -> ErrorView {
        match *self {
            Error::MetadataFetch(m) => ErrorView::MetadataFetch(m@),
            Error::UnknownPallet(n) => ErrorView::UnknownPallet(n@),
            Error::UnknownExtrinsic { pallet, extrinsic } => ErrorView::UnknownExtrinsic {
                pallet: pallet@,
                extrinsic: extrinsic@,
            },
            Error::MissingPallet => ErrorView::MissingPallet,
            Error::MissingExtrinsic => ErrorView::MissingExtrinsic,
            Error::ArgumentResolution { path } => ErrorView::ArgumentResolution { path: path@ },
            Error::ArgumentCountMismatch {
                pallet,
                extrinsic,
                expected,
                supplied,
            } => ErrorView::ArgumentCountMismatch {
                pallet: pallet@,
                extrinsic: extrinsic@,
                expected: expected as nat,
                supplied: supplied as nat,
            },
            Error::Encoding { pallet, extrinsic, index } => ErrorView::Encoding {
                pallet: pallet@,
                extrinsic: extrinsic@,
                index: index as nat,
            },
            Error::InvalidUrl(m) => ErrorView::InvalidUrl(m@),
            Error::Canceled => ErrorView::Canceled,
            Error::Connection(m) => ErrorView::Connection(m@),
            Error::Submission(m) => ErrorView::Submission(m@),
            Error::ManifestPath(m) => ErrorView::ManifestPath(m@),
            Error::BalanceParsing(m) => ErrorView::BalanceParsing(m@),
            Error::HexParsing(m) => ErrorView::HexParsing(m@),
            Error::IO(m) => ErrorView::IO(m@),
        }
    }
}

/// What the operator is told of a failure.
pub open spec fn message_of(e: ErrorView) -> Seq<char> {
    match e {
        ErrorView::MetadataFetch(cause) => "Unable to fetch the chain metadata: "@ + cause,
        ErrorView::UnknownPallet(name) => "Pallet not found: "@ + name,
        ErrorView::UnknownExtrinsic { pallet, extrinsic } => "Extrinsic not found: "@ + pallet
            + "."@ + extrinsic,
        ErrorView::MissingPallet => "Please specify the pallet."@,
        ErrorView::MissingExtrinsic => "Please specify the extrinsic."@,
        ErrorView::ArgumentResolution { path } => "No value for the argument: "@ + path,
        ErrorView::ArgumentCountMismatch { pallet, extrinsic, expected, supplied } =>
            "Error parsing the arguments: "@ + pallet + "."@ + extrinsic + " takes "@
                + decimal_text(expected) + ", got "@ + decimal_text(supplied),
        ErrorView::Encoding { pallet, extrinsic, index } => "Error parsing the arguments: "@
            + pallet + "."@ + extrinsic + ", argument "@ + decimal_text(index),
        ErrorView::InvalidUrl(cause) => "Invalid URL: "@ + cause,
        ErrorView::Canceled => "Operation canceled."@,
        ErrorView::Connection(cause) => "Failed to connect: "@ + cause,
        ErrorView::Submission(cause) => "ERROR: "@ + cause,
        ErrorView::ManifestPath(cause) => cause,
        ErrorView::BalanceParsing(cause) => "Failed to parse balance: "@ + cause,
        ErrorView::HexParsing(cause) => "Failed to parse hex encoded bytes: "@ + cause,
        ErrorView::IO(cause) => "IO error: "@ + cause,
    }
}

impl Error {
    /// What the operator is told of this failure.
    pub fn message(&self) -> (text: String)
        ensures
            text@ == message_of(self@),
    {
        match self {
            Error::MetadataFetch(cause) => String::from_str(
                "Unable to fetch the chain metadata: ",
            ).concat(cause.as_str()),
            Error::UnknownPallet(name) => String::from_str("Pallet not found: ").concat(
                name.as_str(),
            ),
            Error::UnknownExtrinsic { pallet, extrinsic } => String::from_str(
                "Extrinsic not found: ",
            ).concat(pallet.as_str()).concat(".").concat(extrinsic.as_str()),
            Error::MissingPallet => String::from_str("Please specify the pallet."),
            Error::MissingExtrinsic => String::from_str("Please specify the extrinsic."),
            Error::ArgumentResolution { path } => String::from_str(
                "No value for the argument: ",
            ).concat(path.as_str()),
            Error::ArgumentCountMismatch { pallet, extrinsic, expected, supplied } => {
                let takes = to_decimal(*expected);
                let got = to_decimal(*supplied);
                String::from_str("Error parsing the arguments: ").concat(pallet.as_str()).concat(
                    ".",
                ).concat(extrinsic.as_str()).concat(" takes ").concat(takes.as_str()).concat(
                    ", got ",
                ).concat(got.as_str())
            },
            Error::Encoding { pallet, extrinsic, index } => {
                let at = to_decimal(*index);
                String::from_str("Error parsing the arguments: ").concat(pallet.as_str()).concat(
                    ".",
                ).concat(extrinsic.as_str()).concat(", argument ").concat(at.as_str())
            },
            Error::InvalidUrl(cause) => String::from_str("Invalid URL: ").concat(cause.as_str()),
            Error::Canceled => String::from_str("Operation canceled."),
            Error::Connection(cause) => String::from_str("Failed to connect: ").concat(
                cause.as_str(),
            ),
            Error::Submission(cause) => String::from_str("ERROR: ").concat(cause.as_str()),
            Error::ManifestPath(cause) => cause.clone(),
            Error::BalanceParsing(cause) => String::from_str("Failed to parse balance: ").concat(
                cause.as_str(),
            ),
            Error::HexParsing(cause) => String::from_str(
                "Failed to parse hex encoded bytes: ",
            ).concat(cause.as_str()),
            Error::IO(cause) => String::from_str("IO error: ").concat(cause.as_str()),
        }
    }
}

} // verus!
