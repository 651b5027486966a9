//! Command-line options of the gateway, as plain values.

use vstd::prelude::*;

verus! {

/// The options the gateway runs with.
///
/// `server` is the broker's socket address in its textual form
/// (such as `127.0.0.1:8000`), `host` the name the broker's certificate is
/// checked against, `ca` the path (as bytes) of a DER certificate to trust.
#[derive(Debug, Clone)]
pub struct Opt {
    pub keylog: bool,
    pub server: String,
    pub host: String,
    pub ca: Option<Vec<u8>>,
    pub rebind: bool,
}

} // verus!
