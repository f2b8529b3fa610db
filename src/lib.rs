//! Decoding of FastCGI traffic into request and response records, with
//! per-connection performance accounting.
use vstd::prelude::*;

pub mod bytes;
pub mod config;
pub mod headers;
pub mod info;
pub mod laws;
pub mod params;
pub mod parser;
pub mod perf;
pub mod record;
pub mod sendlog;
pub mod text;

verus! {

/// The one way in which decoding fails: the payload is not FastCGI that
/// this library can read.
#[derive(Clone, Copy, Debug, PartialEq, Eq)]
pub enum Error {
    L7ProtocolUnknown,
}

} // verus!
