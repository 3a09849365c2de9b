//! Event statistics: how many lines of the event log fall under each kind.
//! Reading the log and writing the report are the caller's.
use vstd::prelude::*;

use crate::logging::Event;
use crate::text::{chars_of, contains_chars, contains_seq, split_chars, split_on, views};

verus! {

/// The kind a log line counts under: the first of the kinds, in this order,
/// whose name the line contains; a line with none is uncategorized.
pub open spec fn line_kind(line: Seq<char>) -> Event {
    if contains_seq(line, "Blacklist Deny"@) {
        Event::BlackListDeny
    } else if contains_seq(line, "Whitelist Deny"@) {
        Event::WhiteListDeny
    } else if contains_seq(line, "Connection"@) {
        Event::Connection
    } else if contains_seq(line, "Data Transfer"@) {
        Event::DataTransfer
    } else if contains_seq(line, "Proxy Server"@) {
        Event::ProxyServer
    } else if contains_seq(line, "Suspicious Activity"@) {
        Event::SuspiciousActivity
    } else {
        Event::Uncategorized
    }
}

/// How many of `lines` count under `kind`.
pub open spec fn count_kind(lines: Seq<Seq<char>>, kind: Event) -> nat
    decreases lines.len(),
{
    if lines.len() == 0 {
        0
    } else {
        count_kind(lines.drop_last(), kind) + if line_kind(lines.last()) == kind {
            1nat
        } else {
            0nat
        }
    }
}

proof fn lemma_count_bounded(lines: Seq<Seq<char>>, kind: Event)
    ensures
        count_kind(lines, kind) <= lines.len(),
    decreases lines.len(),
{
    if lines.len() > 0 {
        lemma_count_bounded(lines.drop_last(), kind);
    }
}

/// The number of log lines of each kind.
#[derive(Clone, Copy, Debug, PartialEq, Eq, Structural)]
pub struct EventCounts {
    pub connection: usize,
    pub whitelist_deny: usize,
    pub blacklist_deny: usize,
    pub data_transfer: usize,
    pub proxy_server: usize,
    pub suspicious_activity: usize,
    pub uncategorized: usize,
}

impl EventCounts {
    /// The count of `kind`.
    pub open spec fn count(self, kind: Event) -> nat {
        match kind {
            Event::Connection => self.connection as nat,
            Event::WhiteListDeny => self.whitelist_deny as nat,
            Event::BlackListDeny => self.blacklist_deny as nat,
            Event::DataTransfer => self.data_transfer as nat,
            Event::ProxyServer => self.proxy_server as nat,
            Event::SuspiciousActivity => self.suspicious_activity as nat,
            Event::Uncategorized => self.uncategorized as nat,
        }
    }
}

/// The kind a log line counts under.
pub fn kind_of_line(line: &Vec<char>) -> (r: Event)
    ensures
        r == line_kind(line@),
{
    if contains_chars(line, &chars_of("Blacklist Deny")) {
        Event::BlackListDeny
    } else if contains_chars(line, &chars_of("Whitelist Deny")) {
        Event::WhiteListDeny
    } else if contains_chars(line, &chars_of("Connection")) {
        Event::Connection
    } else if contains_chars(line, &chars_of("Data Transfer")) {
        Event::DataTransfer
    } else if contains_chars(line, &chars_of("Proxy Server")) {
        Event::ProxyServer
    } else if contains_chars(line, &chars_of("Suspicious Activity")) {
        Event::SuspiciousActivity
    } else {
        Event::Uncategorized
    }
}

/// Counts the lines of an event log by kind. Lines are the pieces between
/// newlines, so a log that ends with a newline has a last, empty, line, which
/// is uncategorized.
pub fn count_events(log: &str) -> (r: EventCounts)
    ensures
        forall|kind: Event| #[trigger] r.count(kind) == count_kind(split_on(log@, '\n'), kind),
{
    let text = chars_of(log);
    let lines = split_chars(&text, '\n');
    let mut c = EventCounts {
        connection: 0,
        whitelist_deny: 0,
        blacklist_deny: 0,
        data_transfer: 0,
        proxy_server: 0,
        suspicious_activity: 0,
        uncategorized: 0,
    };
    let mut i: usize = 0;
    while i < lines.len()
        invariant
            i <= lines.len(),
            forall|kind: Event| #[trigger] c.count(kind) == count_kind(views(lines@).take(i as int), kind),
        decreases lines.len() - i,
    {
        let ghost seen = views(lines@).take(i as int);
        let ghost next = views(lines@).take(i + 1);
        assert(next.drop_last() == seen);
        assert(next.last() == lines@[i as int]@);
        let kind = kind_of_line(&lines[i]);
        let ghost before = c;
        proof {
            lemma_count_bounded(seen, kind);
            assert(c.count(kind) == count_kind(seen, kind));
        }
        match kind {
            Event::Connection => c.connection = c.connection + 1,
            Event::WhiteListDeny => c.whitelist_deny = c.whitelist_deny + 1,
            Event::BlackListDeny => c.blacklist_deny = c.blacklist_deny + 1,
            Event::DataTransfer => c.data_transfer = c.data_transfer + 1,
            Event::ProxyServer => c.proxy_server = c.proxy_server + 1,
            Event::SuspiciousActivity => c.suspicious_activity = c.suspicious_activity + 1,
            Event::Uncategorized => c.uncategorized = c.uncategorized + 1,
        }
        i = i + 1;
        assert forall|k: Event| #[trigger] c.count(k) == count_kind(next, k) by {
            assert(before.count(k) == count_kind(seen, k));
            assert(line_kind(next.last()) == kind);
        }
    }
    assert(views(lines@).take(i as int) == views(lines@));
    c
}

} // verus!
