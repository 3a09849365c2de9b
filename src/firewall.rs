//! Two IP pattern lists, a whitelist for clients and a blacklist for
//! destinations, each reloaded when its source file's modification time moves.
use vstd::prelude::*;

use crate::proxy_listener::ProxyError;
use crate::text::{chars_of, same_chars, segments, split_dots, split_from, views};

verus! {

/// A file's modification time: seconds and nanoseconds away from the Unix
/// epoch, on the side that `before_epoch` tells.
#[derive(Clone, Copy, Debug, PartialEq, Eq, Structural)]
pub struct ModTime {
    pub before_epoch: bool,
    pub secs: u64,
    pub nanos: u32,
}

/// Which of the two lists an operation is about.
#[derive(Clone, Copy, Debug, PartialEq, Eq, Structural)]
pub enum ListKind {
    Whitelist,
    Blacklist,
}

/// A list file as it is read at startup: where it lives, its lines, and its
/// modification time where the file system reports one.
pub struct ListSource {
    pub path: String,
    pub lines: Vec<String>,
    pub modified: Option<ModTime>,
}

/// A list file as it is read again: its lines and its modification time.
pub struct ListFile {
    pub lines: Vec<String>,
    pub modified: ModTime,
}

/// The views of a sequence of strings.
pub open spec fn string_views(v: Seq<String>) -> Seq<Seq<char>> {
    v.map_values(|s: String| s@)
}

/// A pattern segment that matches any IP segment.
pub open spec fn is_wildcard(seg: Seq<char>) -> bool {
    seg == seq!['*']
}

/// `pattern` matches `ip`: both have four dot-separated segments and every
/// pattern segment is `*` or equals the IP's segment at that place.
pub open spec fn pattern_matches(pattern: Seq<char>, ip: Seq<char>) -> bool {
    let p = segments(pattern);
    let a = segments(ip);
    &&& p.len() == 4
    &&& a.len() == 4
    &&& forall|i: int| 0 <= i < 4 ==> is_wildcard(#[trigger] p[i]) || p[i] == a[i]
}

/// Some pattern of the list matches `ip`.
pub open spec fn listed(patterns: Seq<Seq<char>>, ip: Seq<char>) -> bool {
    exists|k: int| 0 <= k < patterns.len() && pattern_matches(#[trigger] patterns[k], ip)
}

/// A line is kept as a pattern when it has exactly four dot-separated segments.
pub open spec fn has_four_segments(line: Seq<char>) -> bool {
    segments(line).len() == 4
}

/// The patterns that a list file's lines yield, in file order.
pub open spec fn load_patterns(lines: Seq<Seq<char>>) -> Seq<Seq<char>>
    decreases lines.len(),
{
    if lines.len() == 0 {
        Seq::empty()
    } else {
        let rest = load_patterns(lines.drop_last());
        if has_four_segments(lines.last()) {
            rest.push(lines.last())
        } else {
            rest
        }
    }
}

/// Whether `pattern` matches `ip`.
pub fn ip_matches(pattern: &str, ip: &str) -> (r: bool)
    ensures
        r == pattern_matches(pattern@, ip@),
{
    let pc = chars_of(pattern);
    let ac = chars_of(ip);
    let p = split_dots(&pc);
    let a = split_dots(&ac);
    if p.len() != 4 || a.len() != 4 {
        return false;
    }
    let star: Vec<char> = vec!['*'];
    assert(star@ == seq!['*']);
    let mut i: usize = 0;
    while i < 4
        invariant
            i <= 4,
            p.len() == 4,
            a.len() == 4,
            star@ == seq!['*'],
            views(p@) == segments(pattern@),
            views(a@) == segments(ip@),
            forall|j: int| 0 <= j < i ==> is_wildcard(#[trigger] views(p@)[j]) || views(p@)[j] == views(a@)[j],
        decreases 4 - i,
    {
        if !same_chars(&p[i], &star) && !same_chars(&p[i], &a[i]) {
            assert(segments(pattern@)[i as int] == views(p@)[i as int]);
            assert(segments(ip@)[i as int] == views(a@)[i as int]);
            return false;
        }
        i = i + 1;
    }
    true
}

/// Whether some pattern of `patterns` matches `ip`; patterns are tried in order.
pub fn any_matches(patterns: &Vec<String>, ip: &str) -> (r: bool)
    ensures
        r == listed(string_views(patterns@), ip@),
{
    let mut i: usize = 0;
    while i < patterns.len()
        invariant
            i <= patterns.len(),
            forall|k: int| 0 <= k < i ==> !pattern_matches(#[trigger] string_views(patterns@)[k], ip@),
        decreases patterns.len() - i,
    {
        if ip_matches(patterns[i].as_str(), ip) {
            assert(pattern_matches(string_views(patterns@)[i as int], ip@));
            return true;
        }
        i = i + 1;
    }
    false
}

/// The lines of a list file that are patterns, in file order; the others are
/// skipped without complaint.
pub fn filter_patterns(lines: &Vec<String>) -> (r: Vec<String>)
    ensures
        string_views(r@) == load_patterns(string_views(lines@)),
{
    let mut r: Vec<String> = Vec::new();
    let mut i: usize = 0;
    while i < lines.len()
        invariant
            i <= lines.len(),
            string_views(r@) == load_patterns(string_views(lines@).take(i as int)),
        decreases lines.len() - i,
    {
        let ghost before = string_views(r@);
        assert(string_views(lines@).take(i + 1).drop_last() == string_views(lines@).take(i as int));
        let segs = split_dots(&chars_of(lines[i].as_str()));
        if segs.len() == 4 {
            r.push(lines[i].clone());
            assert(string_views(r@) == before.push(lines@[i as int]@));
        }
        i = i + 1;
    }
    assert(string_views(lines@).take(i as int) == string_views(lines@));
    r
}

/// One list as the firewall holds it.
pub struct FirewallList {
    source_path: String,
    patterns: Vec<String>,
    last_modified: ModTime,
}

/// The model of a list: where it is read from, its patterns in file order, and
/// the modification time of the file they were read from.
pub struct ListView {
    pub source_path: Seq<char>,
    pub patterns: Seq<Seq<char>>,
    pub last_modified: ModTime,
}

impl View for FirewallList {
    type V = ListView;

    closed spec fn view(&self) -> ListView {
        ListView {
            source_path: self.source_path@,
            patterns: string_views(self.patterns@),
            last_modified: self.last_modified,
        }
    }
}

/// The model of a list file read again.
pub struct ListFileView {
    pub lines: Seq<Seq<char>>,
    pub modified: ModTime,
}

impl View for ListFile {
    type V = ListFileView;

    open spec fn view(&self) -> ListFileView {
        ListFileView { lines: string_views(self.lines@), modified: self.modified }
    }
}

/// The model of an optional re-read list file.
pub open spec fn update_view(u: Option<ListFile>) -> Option<ListFileView> {
    match u {
        Some(f) => Some(f@),
        None => None,
    }
}

/// The modification time kept for a list whose file reports none.
pub open spec fn no_time() -> ModTime {
    ModTime { before_epoch: false, secs: 0, nanos: 0 }
}

/// A list as it is first loaded from `src`.
pub open spec fn initial_list(src: ListSource) -> ListView {
    ListView {
        source_path: src.path@,
        patterns: load_patterns(string_views(src.lines@)),
        last_modified: match src.modified {
            Some(m) => m,
            None => no_time(),
        },
    }
}

/// A list after a lookup that was handed `update`: it is replaced by the
/// update's patterns, and takes its time, exactly when times are tracked and
/// the update's time differs from the one held.
pub open spec fn refreshed(list: ListView, tracking: bool, update: Option<ListFileView>) -> ListView {
    if tracking && update is Some && update->0.modified != list.last_modified {
        ListView {
            source_path: list.source_path,
            patterns: load_patterns(update->0.lines),
            last_modified: update->0.modified,
        }
    } else {
        list
    }
}

/// The firewall: a whitelist of clients, a blacklist of destinations, and
/// whether the file system reports modification times (else the lists stay as
/// they were loaded).
pub struct Firewall {
    whitelist: FirewallList,
    blacklist: FirewallList,
    mtime_tracking_supported: bool,
}

/// The model of the firewall.
pub struct FirewallView {
    pub whitelist: ListView,
    pub blacklist: ListView,
    pub tracking: bool,
}

impl FirewallView {
    /// The list of the given kind.
    pub open spec fn list(self, kind: ListKind) -> ListView {
        match kind {
            ListKind::Whitelist => self.whitelist,
            ListKind::Blacklist => self.blacklist,
        }
    }

    /// The firewall after a lookup in the list of `kind` that was handed `update`.
    pub open spec fn queried(self, kind: ListKind, update: Option<ListFileView>) -> FirewallView {
        match kind {
            ListKind::Whitelist => FirewallView {
                whitelist: refreshed(self.whitelist, self.tracking, update),
                ..self
            },
            ListKind::Blacklist => FirewallView {
                blacklist: refreshed(self.blacklist, self.tracking, update),
                ..self
            },
        }
    }
}

/// The outcome of an authorization.
#[derive(Clone, Copy, Debug, PartialEq, Eq, Structural)]
pub enum Verdict {
    Allowed,
    WhitelistDeny,
    BlacklistDeny,
}

/// The firewall after authorizing a client, with the given list updates: the
/// whitelist is refreshed, and the blacklist too when the client is listed.
pub open spec fn authorized_firewall(
    fw: FirewallView,
    client: Seq<char>,
    wu: Option<ListFileView>,
    bu: Option<ListFileView>,
) -> FirewallView {
    let w = fw.queried(ListKind::Whitelist, wu);
    if listed(w.whitelist.patterns, client) {
        w.queried(ListKind::Blacklist, bu)
    } else {
        w
    }
}

/// The verdict on a tunnel from `client` to `dest`: denied when the client is
/// not on the refreshed whitelist, else denied when the destination is on the
/// refreshed blacklist, else allowed.
pub open spec fn authorization(
    fw: FirewallView,
    client: Seq<char>,
    dest: Seq<char>,
    wu: Option<ListFileView>,
    bu: Option<ListFileView>,
) -> Verdict {
    let after = authorized_firewall(fw, client, wu, bu);
    if !listed(after.whitelist.patterns, client) {
        Verdict::WhitelistDeny
    } else if listed(after.blacklist.patterns, dest) {
        Verdict::BlacklistDeny
    } else {
        Verdict::Allowed
    }
}

/// `r` reports verdict `v`.
pub open spec fn verdict_holds(r: Result<(), ProxyError>, v: Verdict) -> bool {
    match v {
        Verdict::Allowed => r is Ok,
        Verdict::WhitelistDeny => r matches Err(ProxyError::WhiteListDeny),
        Verdict::BlacklistDeny => r matches Err(ProxyError::BlackListDeny),
    }
}

impl View for Firewall {
    type V = FirewallView;

    closed spec fn view(&self) -> FirewallView {
        FirewallView {
            whitelist: self.whitelist@,
            blacklist: self.blacklist@,
            tracking: self.mtime_tracking_supported,
        }
    }
}

impl FirewallList {
    fn load(src: ListSource) -> (r: FirewallList)
        ensures
            r@ == initial_list(src),
    {
        let patterns = filter_patterns(&src.lines);
        let last_modified = match src.modified {
            Some(m) => m,
            None => ModTime { before_epoch: false, secs: 0, nanos: 0 },
        };
        FirewallList { source_path: src.path, patterns, last_modified }
    }

    fn refresh(&mut self, tracking: bool, update: Option<ListFile>)
        ensures
            final(self)@ == refreshed(old(self)@, tracking, update_view(update)),
    {
        if let Some(file) = update {
            if tracking && file.modified != self.last_modified {
                self.patterns = filter_patterns(&file.lines);
                self.last_modified = file.modified;
            }
        }
    }
}

impl Firewall {
    /// Builds the firewall from the two list files as read at startup.
    /// Modification times are tracked only when both files report one.
    pub fn new(whitelist: ListSource, blacklist: ListSource) -> (r: Firewall)
        ensures
            r@ == (FirewallView {
                whitelist: initial_list(whitelist),
                blacklist: initial_list(blacklist),
                tracking: whitelist.modified is Some && blacklist.modified is Some,
            }),
    {
        let tracking = whitelist.modified.is_some() && blacklist.modified.is_some();
        Firewall {
            whitelist: FirewallList::load(whitelist),
            blacklist: FirewallList::load(blacklist),
            mtime_tracking_supported: tracking,
        }
    }

    /// Whether the lists follow their files' modification times.
    pub fn tracks_modification(&self) -> (r: bool)
        ensures
            r == self@.tracking,
    {
        self.mtime_tracking_supported
    }

    /// The path of the file that the list of `kind` is read from.
    pub fn source_path(&self, kind: ListKind) -> (r: &str)
        ensures
            r@ == self@.list(kind).source_path,
    {
        match kind {
            ListKind::Whitelist => self.whitelist.source_path.as_str(),
            ListKind::Blacklist => self.blacklist.source_path.as_str(),
        }
    }

    /// The patterns of the list of `kind`, in file order.
    pub fn patterns(&self, kind: ListKind) -> (r: &Vec<String>)
        ensures
            string_views(r@) == self@.list(kind).patterns,
    {
        match kind {
            ListKind::Whitelist => &self.whitelist.patterns,
            ListKind::Blacklist => &self.blacklist.patterns,
        }
    }

    /// Whether a file of `kind` whose modification time is now `modified` must
    /// be read again before the next lookup in that list.
    pub fn needs_reload(&self, kind: ListKind, modified: ModTime) -> (r: bool)
        ensures
            r == (self@.tracking && modified != self@.list(kind).last_modified),
    {
        let held = match kind {
            ListKind::Whitelist => self.whitelist.last_modified,
            ListKind::Blacklist => self.blacklist.last_modified,
        };
        self.mtime_tracking_supported && modified != held
    }

    /// Whether `ip` matches a pattern of the list that `list` names
    /// (`"whitelist"` or `"blacklist"`); any other name matches nothing.
    pub fn check_list(&self, list: &str, ip: &str) -> (r: bool)
        ensures
            r == ((list@ == "whitelist"@ && listed(self@.whitelist.patterns, ip@)) || (list@
                == "blacklist"@ && listed(self@.blacklist.patterns, ip@))),
    {
        let name = chars_of(list);
        let white = chars_of("whitelist");
        let black = chars_of("blacklist");
        proof {
            reveal_strlit("whitelist");
            reveal_strlit("blacklist");
            assert(white@[0] != black@[0]);
        }
        if same_chars(&name, &white) {
            any_matches(&self.whitelist.patterns, ip)
        } else if same_chars(&name, &black) {
            any_matches(&self.blacklist.patterns, ip)
        } else {
            false
        }
    }

    /// Whether `ip` is on the whitelist. `update` is the whitelist file as read
    /// again, handed over when its modification time may have moved; it
    /// replaces the list first exactly when `refreshed` says so.
    pub fn in_whitelist(&mut self, ip: &str, update: Option<ListFile>) -> (r: bool)
        ensures
            final(self)@ == old(self)@.queried(ListKind::Whitelist, update_view(update)),
            r == listed(final(self)@.whitelist.patterns, ip@),
    {
        self.whitelist.refresh(self.mtime_tracking_supported, update);
        any_matches(&self.whitelist.patterns, ip)
    }

    /// Whether `ip` is on the blacklist, after the same refresh as `in_whitelist`.
    pub fn in_blacklist(&mut self, ip: &str, update: Option<ListFile>) -> (r: bool)
        ensures
            final(self)@ == old(self)@.queried(ListKind::Blacklist, update_view(update)),
            r == listed(final(self)@.blacklist.patterns, ip@),
    {
        self.blacklist.refresh(self.mtime_tracking_supported, update);
        any_matches(&self.blacklist.patterns, ip)
    }

    /// Authorizes a tunnel from `client_ip` to `dest_ip`. The whitelist is
    /// consulted first, and the blacklist (with its own update) only when the
    /// client is on the whitelist.
    pub fn authorize(
        &mut self,
        client_ip: &str,
        dest_ip: &str,
        whitelist_update: Option<ListFile>,
        blacklist_update: Option<ListFile>,
    ) -> (r: Result<(), ProxyError>)
        ensures
            final(self)@ == authorized_firewall(
                old(self)@,
                client_ip@,
                update_view(whitelist_update),
                update_view(blacklist_update),
            ),
            verdict_holds(
                r,
                authorization(
                    old(self)@,
                    client_ip@,
                    dest_ip@,
                    update_view(whitelist_update),
                    update_view(blacklist_update),
                ),
            ),
    {
        if !self.in_whitelist(client_ip, whitelist_update) {
            return Err(ProxyError::WhiteListDeny);
        }
        if self.in_blacklist(dest_ip, blacklist_update) {
            return Err(ProxyError::BlackListDeny);
        }
        Ok(())
    }
}

/// A sequence of characters without a dot.
pub open spec fn dot_free(s: Seq<char>) -> bool {
    forall|i: int| 0 <= i < s.len() ==> s[i] != '.'
}

/// Four segments joined by dots, as in `a.b.c.d`.
pub open spec fn dotted_quad(s: Seq<Seq<char>>) -> Seq<char> {
    s[0] + seq!['.'] + s[1] + seq!['.'] + s[2] + seq!['.'] + s[3]
}

proof fn lemma_split_dot_free(x: Seq<char>, rest: Seq<char>, cur: Seq<char>)
    requires
        dot_free(x),
    ensures
        split_from(x + rest, '.', cur) == split_from(rest, '.', cur + x),
    decreases x.len(),
{
    if x.len() == 0 {
        assert(x + rest == rest);
        assert(cur + x == cur);
    } else {
        assert((x + rest)[0] == x[0]);
        assert((x + rest).drop_first() == x.drop_first() + rest);
        lemma_split_dot_free(x.drop_first(), rest, cur.push(x[0]));
        assert(cur.push(x[0]) + x.drop_first() == cur + x);
    }
}

proof fn lemma_split_at_dot(x: Seq<char>, rest: Seq<char>)
    requires
        dot_free(x),
    ensures
        segments(x + (seq!['.'] + rest)) == seq![x] + segments(rest),
{
    let e = Seq::<char>::empty();
    lemma_split_dot_free(x, seq!['.'] + rest, e);
    assert(e + x == x);
    assert((seq!['.'] + rest)[0] == '.');
    assert((seq!['.'] + rest).drop_first() == rest);
}

proof fn lemma_segments_of_quad(s: Seq<Seq<char>>)
    requires
        s.len() == 4,
        forall|i: int| 0 <= i < 4 ==> dot_free(#[trigger] s[i]),
    ensures
        segments(dotted_quad(s)) == s,
{
    let d = seq!['.'];
    let e = Seq::<char>::empty();
    let r3 = s[3];
    let r2 = s[2] + (d + r3);
    let r1 = s[1] + (d + r2);
    let r0 = s[0] + (d + r1);
    assert(dotted_quad(s) == r0);
    assert(dot_free(s[0]) && dot_free(s[1]) && dot_free(s[2]) && dot_free(s[3]));
    lemma_split_at_dot(s[0], r1);
    lemma_split_at_dot(s[1], r2);
    lemma_split_at_dot(s[2], r3);
    lemma_split_dot_free(s[3], e, e);
    assert(s[3] + e == s[3]);
    assert(e + s[3] == s[3]);
    assert(segments(r3) == seq![s[3]]);
    assert(seq![s[0]] + (seq![s[1]] + (seq![s[2]] + seq![s[3]])) == s);
}

/// Pattern matching on dotted quads: for an IP `a.b.c.d` and a pattern
/// `p.q.r.s`, some of whose segments may be `*`, the pattern matches exactly
/// when every segment that is not `*` equals the IP's segment at that place;
/// and a pattern whose segment count is not four matches no IP.
pub proof fn lemma_wildcard_matching(pattern: Seq<Seq<char>>, ip: Seq<Seq<char>>, other: Seq<char>, any_ip: Seq<char>)
    requires
        pattern.len() == 4,
        ip.len() == 4,
        forall|i: int| 0 <= i < 4 ==> dot_free(#[trigger] pattern[i]),
        forall|i: int| 0 <= i < 4 ==> dot_free(#[trigger] ip[i]),
    ensures
        pattern_matches(dotted_quad(pattern), dotted_quad(ip)) <==> (forall|i: int|
            0 <= i < 4 ==> is_wildcard(#[trigger] pattern[i]) || pattern[i] == ip[i]),
        segments(other).len() != 4 ==> !pattern_matches(other, any_ip),
{
    lemma_segments_of_quad(pattern);
    lemma_segments_of_quad(ip);
}

/// Hot reload: when modification times are tracked, a lookup handed a list file
/// whose time differs from the one held answers from that file's patterns and
/// keeps its time; when they are not tracked, lookups leave the firewall as it
/// was loaded, whatever they are handed. The other list is never touched.
pub proof fn lemma_hot_reload(fw: FirewallView, kind: ListKind, update: Option<ListFileView>)
    ensures
        fw.tracking && update is Some && update->0.modified != fw.list(kind).last_modified ==> {
            &&& fw.queried(kind, update).list(kind).patterns == load_patterns(update->0.lines)
            &&& fw.queried(kind, update).list(kind).last_modified == update->0.modified
        },
        !fw.tracking ==> fw.queried(kind, update) == fw,
        fw.queried(kind, update).tracking == fw.tracking,
        kind == ListKind::Whitelist ==> fw.queried(kind, update).blacklist == fw.blacklist,
        kind == ListKind::Blacklist ==> fw.queried(kind, update).whitelist == fw.whitelist,
{
}

} // verus!
