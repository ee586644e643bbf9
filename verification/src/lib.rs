//! Calls to a parachain whose pallets and extrinsics are known only from its metadata.
//!
//! The pipeline runs top to bottom:
//!
//! - [`registry`]: the pallets of a chain, their extrinsics and argument descriptors;
//! - [`cli`], [`supplied`], [`scripted`]: where values come from, and the record of
//!   what was asked and answered;
//! - [`selector`] and [`resolver`]: which call, and the representation of each argument;
//! - [`builder`]: the call itself, checked against the registry, and its wire form;
//! - [`call`] and [`configure`]: the command that names a call, and how it is filled in;
//! - [`session`]: the state machine that takes a call from configuration to
//!   submission, and on to the next call.
//!
//! [`laws`] and [`session_laws`] state what holds of resolution and of sessions in
//! general. [`utils`] and [`template`] serve contract and parachain projects.

pub mod builder;
pub mod call;
pub mod cli;
pub mod configure;
pub mod decimal;
pub mod endpoint;
pub mod error;
pub mod laws;
pub mod registry;
pub mod resolver;
pub mod scripted;
pub mod selector;
pub mod session;
pub mod session_laws;
pub mod supplied;
pub mod template;
pub mod text;
pub mod utils;
