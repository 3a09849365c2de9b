//! The error type shared by the classifier, the session and the firewall.
use vstd::prelude::*;

verus! {

/// Why a connection was not served, or why a relay step stopped.
#[derive(Debug)]
pub enum ProxyError {
    /// A socket read or write failed for a reason other than would-block.
    IO(String),
    /// The request line was malformed or incomplete.
    Parse(String),
    /// Address resolution or another local failure.
    Other(String),
    /// The peer closed the stream in an orderly way.
    StreamClosed,
    /// The outbound connection to the requested destination failed.
    CannotConnectToDest,
    /// A non-blocking operation would have blocked; always retried.
    IOBlocked,
    /// The client's address is not on the whitelist.
    WhiteListDeny,
    /// The destination's address is on the blacklist.
    BlackListDeny,
}

/// Result of the proxy's per-connection operations.
pub type Result<T> = std::result::Result<T, ProxyError>;

} // verus!
