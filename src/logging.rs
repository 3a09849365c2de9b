//! The kinds of events the proxy reports, and how a line of the event log is
//! laid out. Writing the line, and the clock that stamps it, are the caller's.
use vstd::prelude::*;

verus! {

/// The kinds of reported events.
#[derive(Clone, Copy, Debug, PartialEq, Eq, Structural)]
pub enum Event {
    WhiteListDeny,
    BlackListDeny,
    Connection,
    DataTransfer,
    ProxyServer,
    SuspiciousActivity,
    Uncategorized,
}

/// The tag that marks an event's kind in the log.
pub open spec fn event_tag(e: Event) -> Seq<char> {
    match e {
        Event::BlackListDeny => "[Blacklist Deny]"@,
        Event::WhiteListDeny => "[Whitelist Deny]"@,
        Event::Connection => "[Connection]"@,
        Event::DataTransfer => "[Data Transfer]"@,
        Event::ProxyServer => "[Proxy Server]"@,
        Event::SuspiciousActivity => "[Suspicious Activity]"@,
        Event::Uncategorized => "[Uncategorized]"@,
    }
}

impl Event {
    /// The tag of this kind of event.
    pub fn tag(self) -> (r: &'static str)
        ensures
            r@ == event_tag(self),
    {
        match self {
            Event::BlackListDeny => "[Blacklist Deny]",
            Event::WhiteListDeny => "[Whitelist Deny]",
            Event::Connection => "[Connection]",
            Event::DataTransfer => "[Data Transfer]",
            Event::ProxyServer => "[Proxy Server]",
            Event::SuspiciousActivity => "[Suspicious Activity]",
            Event::Uncategorized => "[Uncategorized]",
        }
    }
}

/// A log line: the time stamp, the event's tag, a colon and the message.
pub fn event_line(stamp: &str, event: Event, msg: &str) -> (r: String)
    ensures
        r@ == stamp@ + " "@ + event_tag(event) + ": "@ + msg@,
{
    stamp.to_owned().concat(" ").concat(event.tag()).concat(": ").concat(msg)
}

} // verus!
