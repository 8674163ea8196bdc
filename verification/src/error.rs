//! The single error channel of the proxy layer.
//!
//! Every failure of a read or write operation surfaces as one of these
//! values; nothing is swallowed and no operation panics. Where the
//! transport itself failed, the shell around the library keeps the
//! underlying I/O cause and this crate records only the class.

use vstd::prelude::*;

use crate::decode::DecodeError;

verus! {

/// Why a proxy operation failed.
#[derive(Clone, Copy, Debug, PartialEq, Eq, Structural)]
pub enum Error {
    /// The session holds no live link; a reconnect must come first.
    NotConnected,
    /// The caller-supplied deadline elapsed before the exchange ended.
    TimedOut,
    /// The transport reported an I/O failure during the exchange.
    Transport,
    /// The response held a different number of registers than requested.
    UnexpectedResponse,
    /// The returned register value could not be decoded.
    Decode(DecodeError),
}

impl From<DecodeError> for Error {
    fn from(from: DecodeError) -> (r: Self) {
        Error::Decode(from)
    }
}

impl vstd::std_specs::convert::FromSpecImpl<DecodeError> for Error {
    open spec fn obeys_from_spec() -> bool {
        true
    }

    open spec fn from_spec(from: DecodeError) -> Self {
        Error::Decode(from)
    }
}

} // verus!
