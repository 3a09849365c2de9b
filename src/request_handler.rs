//! The request-line classifier: what a client's first bytes ask the proxy for.
use vstd::prelude::*;

use crate::firewall::{
    authorization, listed, verdict_holds, FirewallView, ListFileView, ListKind,
};
use crate::proxy_listener::ProxyError;

verus! {

/// The requests that the proxy tells apart.
#[derive(Debug)]
pub enum ReqType {
    /// A tunnel to the `host:port` target.
    CONNECT(String),
    /// A plain request for a path; observed only.
    GET(String),
}

/// What the HTTP parser made of a request head.
#[derive(Debug)]
pub enum HeadParse {
    /// The bytes are not a request head.
    Invalid,
    /// The bytes end before the head does.
    Partial,
    /// A whole head, with the request line's method and target.
    Complete { method: Option<String>, path: Option<String> },
}

/// The model of a parsed request head.
pub enum HeadView {
    Invalid,
    Partial,
    Complete { method: Option<Seq<char>>, path: Option<Seq<char>> },
}

/// The view of an optional string.
pub open spec fn opt_view(s: Option<String>) -> Option<Seq<char>> {
    match s {
        Some(t) => Some(t@),
        None => None,
    }
}

impl View for HeadParse {
    type V = HeadView;

    open spec fn view(&self) -> HeadView {
        match self {
            HeadParse::Invalid => HeadView::Invalid,
            HeadParse::Partial => HeadView::Partial,
            HeadParse::Complete { method, path } => HeadView::Complete {
                method: opt_view(*method),
                path: opt_view(*path),
            },
        }
    }
}

/// What httparse's request parser makes of the bytes `buf`.
pub uninterp spec fn parsed_head(buf: Seq<u8>) -> HeadView;

/// Relies on httparse::Request::parse, which reads a request head from `buf`:
/// `Err` when the bytes are not one, `Ok(Status::Partial)` when they stop
/// early, `Ok(Status::Complete(_))` with the method and path filled in. What it
/// yields depends on the bytes alone.
#[verifier::external_body]
fn parse_head(buf: &[u8]) -> (r: HeadParse)
    ensures
        r@ == parsed_head(buf@),
{
    let mut headers = [httparse::EMPTY_HEADER; 4096];
    let mut req = httparse::Request::new(&mut headers);
    match req.parse(buf) {
        Ok(httparse::Status::Complete(_)) => HeadParse::Complete {
            method: req.method.map(|m| m.to_owned()),
            path: req.path.map(|p| p.to_owned()),
        },
        Ok(httparse::Status::Partial) => HeadParse::Partial,
        Err(_) => HeadParse::Invalid,
    }
}

/// `r` is a parse error carrying `msg`.
pub open spec fn parse_error(r: Result<ReqType, ProxyError>, msg: Seq<char>) -> bool {
    r matches Err(ProxyError::Parse(m)) && m@ == msg
}

/// `r` is what the classifier answers for the parsed head `h`: a request only
/// for a complete head whose method is `CONNECT` or `GET` and whose target is
/// present, else a parse error that says what went wrong.
pub open spec fn classified(h: HeadView, r: Result<ReqType, ProxyError>) -> bool {
    match h {
        HeadView::Invalid => parse_error(r, "While parsing request"@),
        HeadView::Partial => parse_error(r, "Incomplete request"@),
        HeadView::Complete { method, path } => match method {
            None => parse_error(r, "Could not parse request"@),
            Some(m) => if m == "CONNECT"@ {
                match path {
                    Some(p) => r matches Ok(ReqType::CONNECT(t)) && t@ == p,
                    None => parse_error(r, "Could not parse path"@),
                }
            } else if m == "GET"@ {
                match path {
                    Some(p) => r matches Ok(ReqType::GET(t)) && t@ == p,
                    None => parse_error(r, "Could not parse path"@),
                }
            } else {
                parse_error(r, "Could not parse "@ + m)
            },
        },
    }
}

/// Classifies a parsed request head.
pub fn classify_head(head: HeadParse) -> (r: Result<ReqType, ProxyError>)
    ensures
        classified(head@, r),
{
    match head {
        HeadParse::Invalid => Err(ProxyError::Parse("While parsing request".to_owned())),
        HeadParse::Partial => Err(ProxyError::Parse("Incomplete request".to_owned())),
        HeadParse::Complete { method, path } => match method {
            None => Err(ProxyError::Parse("Could not parse request".to_owned())),
            Some(m) => {
                if m == "CONNECT".to_owned() {
                    match path {
                        Some(p) => Ok(ReqType::CONNECT(p)),
                        None => Err(ProxyError::Parse("Could not parse path".to_owned())),
                    }
                } else if m == "GET".to_owned() {
                    match path {
                        Some(p) => Ok(ReqType::GET(p)),
                        None => Err(ProxyError::Parse("Could not parse path".to_owned())),
                    }
                } else {
                    Err(ProxyError::Parse("Could not parse ".to_owned().concat(m.as_str())))
                }
            },
        },
    }
}

/// Classifies the first bytes a client sent: the head that httparse reads
/// from them, classified as `classified` says. Nothing is read again when the
/// head is incomplete.
pub fn determine_request(buf: &[u8]) -> (r: Result<ReqType, ProxyError>)
    ensures
        classified(parsed_head(buf@), r),
{
    classify_head(parse_head(buf))
}

/// The reply the proxy writes to a client that asked for a tunnel.
#[derive(Clone, Copy, Debug, PartialEq, Eq, Structural)]
pub enum Reply {
    /// The tunnel is open.
    Established,
    /// The firewall refused the tunnel.
    Forbidden,
}

/// The bytes of a reply's status line and the blank line after it.
pub open spec fn reply_text(r: Reply) -> Seq<char> {
    match r {
        Reply::Established => "HTTP/1.1 200 OK\r\n\r\n"@,
        Reply::Forbidden => "HTTP/1.1 403 Forbidden\r\n\r\n"@,
    }
}

impl Reply {
    /// What is written to the client for this reply; it has no body.
    pub fn text(self) -> (r: &'static str)
        ensures
            r@ == reply_text(self),
    {
        match self {
            Reply::Established => "HTTP/1.1 200 OK\r\n\r\n",
            Reply::Forbidden => "HTTP/1.1 403 Forbidden\r\n\r\n",
        }
    }
}

/// Where one client connection stands.
#[derive(Debug)]
pub enum Session {
    /// The request has not been classified yet.
    AwaitingRequest,
    /// A CONNECT was asked for; the destination is being connected to.
    Connecting(String),
    /// The destination is connected; the firewall is to be asked.
    Authorizing,
    /// The firewall refused; the refusal is being written to the client.
    Refusing(ProxyError),
    /// The firewall allowed; the acceptance is being written to the client.
    Accepting,
    /// Bytes are being relayed.
    Relaying,
    /// Nothing is left to do.
    Finished,
}

/// What happened when the session's last action was carried out.
#[derive(Debug)]
pub enum SessionEvent {
    /// The client's first bytes were read and classified.
    Classified(Result<ReqType, ProxyError>),
    /// The outbound connection succeeded.
    Connected,
    /// The outbound connection failed.
    ConnectFailed,
    /// The firewall's verdict on the client and the destination.
    Authorized(Result<(), ProxyError>),
    /// The reply was written to the client.
    Replied,
    /// The relay ended after delivering this many bytes.
    RelayFinished(u64),
    /// The action failed with this error.
    Failed(ProxyError),
}

/// What the caller is to do next.
#[derive(Debug)]
pub enum Action {
    /// Open an outbound connection to this target.
    Connect(String),
    /// Ask the firewall about the client and the connected destination.
    Authorize,
    /// Write this reply to the client.
    Reply(Reply),
    /// Relay bytes between client and destination until one side closes.
    Relay,
    /// The connection is over, with this outcome; close it.
    Finish(Result<(), ProxyError>),
    /// Nothing more: the session had finished already, or was handed an
    /// event that its state does not expect, which ends it.
    Idle,
}

/// The session's next state and action, given an event: a CONNECT leads to a
/// connection, a connection to the firewall, its verdict to a reply, and only
/// an acceptance written to the client leads to the relay. A GET, a parse
/// error, a failed connection or any failure ends the session, and so does an
/// event that does not answer the last action.
pub open spec fn next_spec(s: Session, e: SessionEvent) -> (Session, Action) {
    match (s, e) {
        (Session::AwaitingRequest, SessionEvent::Classified(Ok(ReqType::CONNECT(t)))) => (
            Session::Connecting(t),
            Action::Connect(t),
        ),
        (Session::AwaitingRequest, SessionEvent::Classified(Ok(ReqType::GET(_)))) => (
            Session::Finished,
            Action::Finish(Ok(())),
        ),
        (Session::AwaitingRequest, SessionEvent::Classified(Err(err))) => (
            Session::Finished,
            Action::Finish(Err(err)),
        ),
        (Session::Connecting(_), SessionEvent::Connected) => (Session::Authorizing, Action::Authorize),
        (Session::Connecting(_), SessionEvent::ConnectFailed) => (
            Session::Finished,
            Action::Finish(Err(ProxyError::CannotConnectToDest)),
        ),
        (Session::Authorizing, SessionEvent::Authorized(Ok(()))) => (
            Session::Accepting,
            Action::Reply(Reply::Established),
        ),
        (Session::Authorizing, SessionEvent::Authorized(Err(err))) => (
            Session::Refusing(err),
            Action::Reply(Reply::Forbidden),
        ),
        (Session::Refusing(err), SessionEvent::Replied) => (Session::Finished, Action::Finish(Err(err))),
        (Session::Accepting, SessionEvent::Replied) => (Session::Relaying, Action::Relay),
        (Session::Relaying, SessionEvent::RelayFinished(_)) => (Session::Finished, Action::Finish(Ok(()))),
        (Session::Finished, _) => (Session::Finished, Action::Idle),
        (_, SessionEvent::Failed(err)) => (Session::Finished, Action::Finish(Err(err))),
        (_, _) => (Session::Finished, Action::Idle),
    }
}

impl Session {
    /// A session for a newly accepted connection.
    pub fn new() -> (r: Session)
        ensures
            r == Session::AwaitingRequest,
    {
        Session::AwaitingRequest
    }

    /// Hands the session what came of its last action; returns its next state
    /// and what to do next.
    pub fn step(self, event: SessionEvent) -> (r: (Session, Action))
        ensures
            r == next_spec(self, event),
    {
        match (self, event) {
            (Session::AwaitingRequest, SessionEvent::Classified(Ok(ReqType::CONNECT(t)))) => (
                Session::Connecting(t.clone()),
                Action::Connect(t),
            ),
            (Session::AwaitingRequest, SessionEvent::Classified(Ok(ReqType::GET(_)))) => (
                Session::Finished,
                Action::Finish(Ok(())),
            ),
            (Session::AwaitingRequest, SessionEvent::Classified(Err(err))) => (
                Session::Finished,
                Action::Finish(Err(err)),
            ),
            (Session::Connecting(_), SessionEvent::Connected) => (Session::Authorizing, Action::Authorize),
            (Session::Connecting(_), SessionEvent::ConnectFailed) => (
                Session::Finished,
                Action::Finish(Err(ProxyError::CannotConnectToDest)),
            ),
            (Session::Authorizing, SessionEvent::Authorized(Ok(()))) => (
                Session::Accepting,
                Action::Reply(Reply::Established),
            ),
            (Session::Authorizing, SessionEvent::Authorized(Err(err))) => (
                Session::Refusing(err),
                Action::Reply(Reply::Forbidden),
            ),
            (Session::Refusing(err), SessionEvent::Replied) => (Session::Finished, Action::Finish(Err(err))),
            (Session::Accepting, SessionEvent::Replied) => (Session::Relaying, Action::Relay),
            (Session::Relaying, SessionEvent::RelayFinished(_)) => (Session::Finished, Action::Finish(Ok(()))),
            (Session::Finished, _) => (Session::Finished, Action::Idle),
            (_, SessionEvent::Failed(err)) => (Session::Finished, Action::Finish(Err(err))),
            (_, _) => (Session::Finished, Action::Idle),
        }
    }
}

/// The actions a session emits when handed `events` in order.
pub open spec fn run(s: Session, events: Seq<SessionEvent>) -> Seq<Action>
    decreases events.len(),
{
    if events.len() == 0 {
        Seq::empty()
    } else {
        let (next, a) = next_spec(s, events[0]);
        seq![a] + run(next, events.drop_first())
    }
}

/// None of the actions opens a tunnel, asks the firewall or connects out: no
/// acceptance is written and no byte is relayed.
pub open spec fn no_tunnel(actions: Seq<Action>) -> bool {
    forall|i: int|
        0 <= i < actions.len() ==> {
            &&& !(#[trigger] actions[i] is Relay)
            &&& actions[i] != Action::Reply(Reply::Established)
            &&& !(actions[i] is Authorize)
            &&& !(actions[i] is Connect)
        }
}

proof fn lemma_refusal_is_final(s: Session, events: Seq<SessionEvent>)
    requires
        s is Refusing || s is Finished,
    ensures
        no_tunnel(run(s, events)),
    decreases events.len(),
{
    if events.len() > 0 {
        let (next, a) = next_spec(s, events[0]);
        lemma_refusal_is_final(next, events.drop_first());
        let acts = run(s, events);
        assert forall|i: int| 0 <= i < acts.len() implies {
            &&& !(#[trigger] acts[i] is Relay)
            &&& acts[i] != Action::Reply(Reply::Established)
            &&& !(acts[i] is Authorize)
            &&& !(acts[i] is Connect)
        } by {
            if i > 0 {
                assert(acts[i] == run(next, events.drop_first())[i - 1]);
            }
        }
    }
}

/// Authorization order. When the destination cannot be reached the session
/// reports `CannotConnectToDest` and never asks the firewall. When the client
/// is not on the whitelist, the verdict is a whitelist denial whatever the
/// blacklist holds; when it is, but the destination is on the blacklist, the
/// verdict is a blacklist denial. Either denial makes the session write a 403,
/// and whatever happens after, it neither accepts nor relays a byte.
pub proof fn lemma_authorization_order(
    fw: FirewallView,
    client: Seq<char>,
    dest: Seq<char>,
    wu: Option<ListFileView>,
    bu: Option<ListFileView>,
    target: String,
    verdict: Result<(), ProxyError>,
    later: Seq<SessionEvent>,
)
    requires
        verdict_holds(verdict, authorization(fw, client, dest, wu, bu)),
    ensures
        next_spec(Session::Connecting(target), SessionEvent::ConnectFailed) == (
            Session::Finished,
            Action::Finish(Err(ProxyError::CannotConnectToDest)),
        ),
        no_tunnel(run(Session::Finished, later)),
        !listed(fw.queried(ListKind::Whitelist, wu).whitelist.patterns, client) ==> {
            &&& verdict matches Err(ProxyError::WhiteListDeny)
            &&& next_spec(Session::Authorizing, SessionEvent::Authorized(verdict)).1 == Action::Reply(
                Reply::Forbidden,
            )
            &&& no_tunnel(
                run(next_spec(Session::Authorizing, SessionEvent::Authorized(verdict)).0, later),
            )
        },
        ({
            let w = fw.queried(ListKind::Whitelist, wu);
            listed(w.whitelist.patterns, client) && listed(
                w.queried(ListKind::Blacklist, bu).blacklist.patterns,
                dest,
            )
        }) ==> {
            &&& verdict matches Err(ProxyError::BlackListDeny)
            &&& next_spec(Session::Authorizing, SessionEvent::Authorized(verdict)).1 == Action::Reply(
                Reply::Forbidden,
            )
            &&& no_tunnel(
                run(next_spec(Session::Authorizing, SessionEvent::Authorized(verdict)).0, later),
            )
        },
{
    lemma_refusal_is_final(Session::Finished, later);
    if verdict is Err {
        lemma_refusal_is_final(next_spec(Session::Authorizing, SessionEvent::Authorized(verdict)).0, later);
    }
}

/// Some action of `acts` asks to connect out.
pub open spec fn has_connect(acts: Seq<Action>) -> bool {
    exists|j: int| 0 <= j < acts.len() && #[trigger] acts[j] is Connect
}

/// Some action of `acts` asks the firewall.
pub open spec fn has_authorize(acts: Seq<Action>) -> bool {
    exists|j: int| 0 <= j < acts.len() && #[trigger] acts[j] is Authorize
}

/// Some action of `acts` writes the acceptance.
pub open spec fn has_acceptance(acts: Seq<Action>) -> bool {
    exists|j: int| 0 <= j < acts.len() && #[trigger] acts[j] == Action::Reply(Reply::Established)
}

/// In `acts`, every firewall check comes after a connection, every reply
/// after a firewall check, and every relay after an acceptance.
pub open spec fn ordered(acts: Seq<Action>) -> bool {
    forall|i: int|
        0 <= i < acts.len() ==> {
            &&& (#[trigger] acts[i] is Authorize ==> has_connect(acts.take(i)))
            &&& (acts[i] is Reply ==> has_authorize(acts.take(i)))
            &&& (acts[i] is Relay ==> has_acceptance(acts.take(i)))
        }
}

/// What the actions emitted before reaching state `s` must include.
spec fn fits_history(s: Session, acts: Seq<Action>) -> bool {
    &&& (s is Connecting || s is Authorizing || s is Refusing || s is Accepting) ==> has_connect(
        acts,
    )
    &&& (s is Authorizing || s is Refusing || s is Accepting) ==> has_authorize(acts)
    &&& s is Accepting ==> has_acceptance(acts)
}

proof fn lemma_push_keeps_history(acts: Seq<Action>, a: Action)
    ensures
        has_connect(acts) ==> has_connect(acts.push(a)),
        has_authorize(acts) ==> has_authorize(acts.push(a)),
        has_acceptance(acts) ==> has_acceptance(acts.push(a)),
        a is Connect ==> has_connect(acts.push(a)),
        a is Authorize ==> has_authorize(acts.push(a)),
        a == Action::Reply(Reply::Established) ==> has_acceptance(acts.push(a)),
        acts.push(a).take(acts.len() as int) == acts,
{
    let p = acts.push(a);
    assert(p.take(acts.len() as int) == acts);
    if has_connect(acts) {
        let j = choose|j: int| 0 <= j < acts.len() && #[trigger] acts[j] is Connect;
        assert(p[j] is Connect);
    }
    if has_authorize(acts) {
        let j = choose|j: int| 0 <= j < acts.len() && #[trigger] acts[j] is Authorize;
        assert(p[j] is Authorize);
    }
    if has_acceptance(acts) {
        let j = choose|j: int| 0 <= j < acts.len() && #[trigger] acts[j] == Action::Reply(Reply::Established);
        assert(p[j] == Action::Reply(Reply::Established));
    }
    assert(p[acts.len() as int] == a);
}

proof fn lemma_run_ordered(s: Session, before: Seq<Action>, events: Seq<SessionEvent>)
    requires
        ordered(before),
        fits_history(s, before),
    ensures
        ordered(before + run(s, events)),
    decreases events.len(),
{
    if events.len() == 0 {
        assert(before + run(s, events) == before);
    } else {
        let (next, a) = next_spec(s, events[0]);
        let now = before.push(a);
        lemma_push_keeps_history(before, a);
        assert forall|i: int| 0 <= i < now.len() implies {
            &&& (#[trigger] now[i] is Authorize ==> has_connect(now.take(i)))
            &&& (now[i] is Reply ==> has_authorize(now.take(i)))
            &&& (now[i] is Relay ==> has_acceptance(now.take(i)))
        } by {
            if i < before.len() {
                assert(now[i] == before[i]);
                assert(now.take(i) == before.take(i));
            } else {
                assert(now.take(i) == before);
            }
        }
        lemma_run_ordered(next, now, events.drop_first());
        assert(before + run(s, events) == now + run(next, events.drop_first()));
    }
}

/// Ordering within one connection: whatever happens, a session started for
/// a new connection asks the firewall only after connecting to the
/// destination, writes a reply only after asking the firewall, and relays
/// only after writing the acceptance.
pub proof fn lemma_session_order(events: Seq<SessionEvent>)
    ensures
        ordered(run(Session::AwaitingRequest, events)),
{
    lemma_run_ordered(Session::AwaitingRequest, Seq::empty(), events);
    assert(Seq::<Action>::empty() + run(Session::AwaitingRequest, events) == run(
        Session::AwaitingRequest,
        events,
    ));
}

} // verus!
