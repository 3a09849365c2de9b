//! The byte relay of a CONNECT tunnel, as a state machine. The caller performs
//! the non-blocking reads and writes that `phase` asks for and reports each
//! outcome; the relay keeps one buffer per direction and decides what comes next.
use vstd::prelude::*;
use vstd::slice::slice_subrange;
use vstd::utf8::{decode_utf8, valid_utf8};

use crate::proxy_listener::ProxyError;

verus! {

/// The size of each direction's buffer: the most bytes one read may hand over.
pub const TUNNEL_BUFFER_SIZE: usize = 10240;

/// Bytes read from one side and not yet all written to the other. While any
/// are pending the buffer takes no new read; it is emptied only once all of its
/// bytes have been written.
pub struct TunnelBuffer {
    pending: Vec<u8>,
    written: usize,
}

/// The model of a buffer: its bytes, and how many of them were written.
pub struct BufferView {
    pub pending: Seq<u8>,
    pub written: nat,
}

impl BufferView {
    /// The bytes still to be written.
    pub open spec fn unsent(self) -> Seq<u8> {
        self.pending.skip(self.written as int)
    }

    /// An empty buffer has written nothing; a full one has bytes left to write.
    pub open spec fn wf(self) -> bool {
        &&& self.pending.len() <= TUNNEL_BUFFER_SIZE
        &&& self.pending.len() == 0 ==> self.written == 0
        &&& self.pending.len() > 0 ==> self.written < self.pending.len()
    }
}

impl View for TunnelBuffer {
    type V = BufferView;

    closed spec fn view(&self) -> BufferView {
        BufferView { pending: self.pending@, written: self.written as nat }
    }
}

impl TunnelBuffer {
    /// An empty buffer.
    pub fn new() -> (r: TunnelBuffer)
        ensures
            r@.pending.len() == 0,
            r@.written == 0,
            r@.wf(),
    {
        TunnelBuffer { pending: Vec::new(), written: 0 }
    }

    /// A buffer holding `bytes`, none of them written yet.
    pub fn filled(bytes: Vec<u8>) -> (r: TunnelBuffer)
        requires
            bytes@.len() <= TUNNEL_BUFFER_SIZE,
        ensures
            r@.pending == bytes@,
            r@.written == 0,
            r@.wf(),
    {
        TunnelBuffer { pending: bytes, written: 0 }
    }

    /// The number of bytes held.
    pub fn len(&self) -> (r: usize)
        ensures
            r == self@.pending.len(),
    {
        self.pending.len()
    }

    /// The bytes still to be written.
    pub fn unsent(&self) -> (r: &[u8])
        requires
            self@.wf(),
        ensures
            r@ == self@.unsent(),
    {
        slice_subrange(self.pending.as_slice(), self.written, self.pending.len())
    }
}

/// A buffer after `k` more of its bytes were written.
pub open spec fn advanced(b: BufferView, k: nat) -> BufferView {
    if k == b.unsent().len() {
        BufferView { pending: Seq::empty(), written: 0 }
    } else {
        BufferView { pending: b.pending, written: b.written + k }
    }
}

/// The two directions of a tunnel.
#[derive(Clone, Copy, Debug, PartialEq, Eq, Structural)]
pub enum Direction {
    ClientToDest,
    DestToClient,
}

/// The direction opposite `d`.
pub open spec fn opposite(d: Direction) -> Direction {
    match d {
        Direction::ClientToDest => Direction::DestToClient,
        Direction::DestToClient => Direction::ClientToDest,
    }
}

/// What the relay asks for next: a read from the source of a direction, a
/// write of that direction's unsent bytes to its destination, or, once a side
/// has closed or failed, shutting both sockets down.
#[derive(Clone, Copy, Debug, PartialEq, Eq, Structural)]
pub enum Phase {
    Read(Direction),
    Write(Direction),
    Done,
}

/// How a non-blocking read went: the bytes it returned (none when the peer
/// closed), would-block, or another failure.
pub enum ReadOutcome {
    Data(Vec<u8>),
    WouldBlock,
    Failed,
}

/// How a non-blocking write went: how many bytes it took, would-block, or
/// another failure.
#[derive(Clone, Copy, Debug, PartialEq, Eq, Structural)]
pub enum WriteOutcome {
    Wrote(usize),
    WouldBlock,
    Failed,
}

/// The model of a read outcome.
pub enum ReadView {
    Data(Seq<u8>),
    WouldBlock,
    Failed,
}

impl View for ReadOutcome {
    type V = ReadView;

    open spec fn view(&self) -> ReadView {
        match self {
            ReadOutcome::Data(b) => ReadView::Data(b@),
            ReadOutcome::WouldBlock => ReadView::WouldBlock,
            ReadOutcome::Failed => ReadView::Failed,
        }
    }
}

/// One direction of the tunnel: its buffer, every byte read from its source so
/// far, and every byte written to its destination so far.
pub struct FlowView {
    pub buffer: BufferView,
    pub received: Seq<u8>,
    pub delivered: Seq<u8>,
}

impl FlowView {
    /// What was received is exactly what was delivered followed by what is
    /// still unsent: no byte is lost, repeated or reordered.
    pub open spec fn wf(self) -> bool {
        &&& self.buffer.wf()
        &&& self.received == self.delivered + self.buffer.unsent()
    }
}

/// `n`, capped at the largest `u64`.
pub open spec fn saturated(n: nat) -> nat {
    if n > u64::MAX {
        u64::MAX as nat
    } else {
        n
    }
}

/// The model of the relay.
pub struct RelayView {
    pub client_to_dest: FlowView,
    pub dest_to_client: FlowView,
    pub phase: Phase,
    pub total: nat,
}

impl RelayView {
    /// The flow of direction `d`.
    pub open spec fn flow(self, d: Direction) -> FlowView {
        match d {
            Direction::ClientToDest => self.client_to_dest,
            Direction::DestToClient => self.dest_to_client,
        }
    }

    /// The relay with the flow of direction `d` replaced by `f`.
    pub open spec fn with_flow(self, d: Direction, f: FlowView) -> RelayView {
        match d {
            Direction::ClientToDest => RelayView { client_to_dest: f, ..self },
            Direction::DestToClient => RelayView { dest_to_client: f, ..self },
        }
    }

    /// The relay with phase `p`.
    pub open spec fn with_phase(self, p: Phase) -> RelayView {
        RelayView { phase: p, ..self }
    }

    /// Both flows are well formed, a read is asked for only into an empty
    /// buffer and a write only from a full one, and the total counts every
    /// byte delivered in either direction.
    pub open spec fn wf(self) -> bool {
        &&& self.client_to_dest.wf()
        &&& self.dest_to_client.wf()
        &&& self.phase matches Phase::Read(d) ==> self.flow(d).buffer.pending.len() == 0
        &&& self.phase matches Phase::Write(d) ==> self.flow(d).buffer.pending.len() > 0
        &&& self.total == saturated(
            self.client_to_dest.delivered.len() + self.dest_to_client.delivered.len(),
        )
    }

    /// The phase that follows work on direction `d`: the opposite direction,
    /// read into when its buffer is empty and written from when it is not.
    pub open spec fn turn_from(self, d: Direction) -> Phase {
        let o = opposite(d);
        if self.flow(o).buffer.pending.len() == 0 {
            Phase::Read(o)
        } else {
            Phase::Write(o)
        }
    }

    /// The relay after a read for direction `d` that went as `outcome`.
    pub open spec fn after_read(self, d: Direction, outcome: ReadView) -> RelayView {
        match outcome {
            ReadView::Data(bytes) => if bytes.len() == 0 {
                self.with_phase(Phase::Done)
            } else {
                let f = self.flow(d);
                self.with_flow(
                    d,
                    FlowView {
                        buffer: BufferView { pending: bytes, written: 0 },
                        received: f.received + bytes,
                        delivered: f.delivered,
                    },
                ).with_phase(Phase::Write(d))
            },
            ReadView::WouldBlock => self.with_phase(self.turn_from(d)),
            ReadView::Failed => self.with_phase(Phase::Done),
        }
    }

    /// The relay after a write for direction `d` that went as `outcome`. A
    /// write that took no bytes, or more than were offered, ends the relay.
    pub open spec fn after_write(self, d: Direction, outcome: WriteOutcome) -> RelayView {
        match outcome {
            WriteOutcome::Wrote(k) => {
                let f = self.flow(d);
                let u = f.buffer.unsent();
                if 0 < k <= u.len() {
                    let moved = self.with_flow(
                        d,
                        FlowView {
                            buffer: advanced(f.buffer, k as nat),
                            received: f.received,
                            delivered: f.delivered + u.take(k as int),
                        },
                    );
                    RelayView { total: saturated((self.total + k) as nat), ..moved.with_phase(moved.turn_from(d)) }
                } else {
                    self.with_phase(Phase::Done)
                }
            },
            WriteOutcome::WouldBlock => self.with_phase(self.turn_from(d)),
            WriteOutcome::Failed => self.with_phase(Phase::Done),
        }
    }
}

/// The relay between a client and a destination. Each direction in turn is
/// read into when its buffer is empty and written from when it is not. A write
/// that blocks, or takes only part of the bytes, leaves the rest in the buffer
/// to be offered again on a later turn, so no byte is written twice. The ghost
/// fields record every byte read from, and written to, each side.
pub struct Relay {
    client_to_dest: TunnelBuffer,
    dest_to_client: TunnelBuffer,
    phase: Phase,
    total: u64,
    received_up: Ghost<Seq<u8>>,
    delivered_up: Ghost<Seq<u8>>,
    received_down: Ghost<Seq<u8>>,
    delivered_down: Ghost<Seq<u8>>,
}

impl View for Relay {
    type V = RelayView;

    closed spec fn view(&self) -> RelayView {
        RelayView {
            client_to_dest: FlowView {
                buffer: self.client_to_dest@,
                received: self.received_up@,
                delivered: self.delivered_up@,
            },
            dest_to_client: FlowView {
                buffer: self.dest_to_client@,
                received: self.received_down@,
                delivered: self.delivered_down@,
            },
            phase: self.phase,
            total: self.total as nat,
        }
    }
}

impl Relay {
    /// A relay with both buffers empty, about to read from the client.
    pub fn new() -> (r: Relay)
        ensures
            r@.wf(),
            r@.phase == Phase::Read(Direction::ClientToDest),
            r@.total == 0,
            r@.client_to_dest.received.len() == 0,
            r@.dest_to_client.received.len() == 0,
            r@.client_to_dest.delivered.len() == 0,
            r@.dest_to_client.delivered.len() == 0,
    {
        let r = Relay {
            client_to_dest: TunnelBuffer::new(),
            dest_to_client: TunnelBuffer::new(),
            phase: Phase::Read(Direction::ClientToDest),
            total: 0,
            received_up: Ghost(Seq::empty()),
            delivered_up: Ghost(Seq::empty()),
            received_down: Ghost(Seq::empty()),
            delivered_down: Ghost(Seq::empty()),
        };
        assert(r@.client_to_dest.buffer.unsent() =~= Seq::<u8>::empty());
        assert(r@.dest_to_client.buffer.unsent() =~= Seq::<u8>::empty());
        r
    }

    /// What the relay asks for next.
    pub fn phase(&self) -> (r: Phase)
        ensures
            r == self@.phase,
    {
        self.phase
    }

    /// The bytes delivered so far in both directions together.
    pub fn total(&self) -> (r: u64)
        ensures
            r == self@.total,
    {
        self.total
    }

    /// The bytes of direction `d` still to be written.
    pub fn unsent(&self, d: Direction) -> (r: &[u8])
        requires
            self@.wf(),
        ensures
            r@ == self@.flow(d).buffer.unsent(),
    {
        match d {
            Direction::ClientToDest => self.client_to_dest.unsent(),
            Direction::DestToClient => self.dest_to_client.unsent(),
        }
    }

    fn turn_from(&self, d: Direction) -> (r: Phase)
        ensures
            r == self@.turn_from(d),
    {
        match d {
            Direction::ClientToDest => if self.dest_to_client.pending.len() == 0 {
                Phase::Read(Direction::DestToClient)
            } else {
                Phase::Write(Direction::DestToClient)
            },
            Direction::DestToClient => if self.client_to_dest.pending.len() == 0 {
                Phase::Read(Direction::ClientToDest)
            } else {
                Phase::Write(Direction::ClientToDest)
            },
        }
    }

    /// Reports the outcome of the read that phase `Read(d)` asked for. At most
    /// a buffer's worth of bytes can be handed over.
    pub fn on_read(&mut self, outcome: ReadOutcome)
        requires
            old(self)@.wf(),
            old(self)@.phase is Read,
            outcome matches ReadOutcome::Data(b) ==> b@.len() <= TUNNEL_BUFFER_SIZE,
        ensures
            final(self)@ == old(self)@.after_read(old(self)@.phase->Read_0, outcome@),
            final(self)@.wf(),
    {
        let d = match self.phase {
            Phase::Read(d) => d,
            _ => Direction::ClientToDest,
        };
        match outcome {
            ReadOutcome::Data(bytes) => {
                if bytes.len() == 0 {
                    self.phase = Phase::Done;
                } else {
                    match d {
                        Direction::ClientToDest => {
                            self.received_up = Ghost(self.received_up@ + bytes@);
                            self.client_to_dest = TunnelBuffer::filled(bytes);
                        },
                        Direction::DestToClient => {
                            self.received_down = Ghost(self.received_down@ + bytes@);
                            self.dest_to_client = TunnelBuffer::filled(bytes);
                        },
                    }
                    self.phase = Phase::Write(d);
                    assert(self@.flow(d).buffer.unsent() == self@.flow(d).buffer.pending);
                }
            },
            ReadOutcome::WouldBlock => {
                self.phase = self.turn_from(d);
            },
            ReadOutcome::Failed => {
                self.phase = Phase::Done;
            },
        }
        assert(self@ == old(self)@.after_read(d, outcome@));
    }

    /// Reports the outcome of the write that phase `Write(d)` asked for.
    pub fn on_write(&mut self, outcome: WriteOutcome)
        requires
            old(self)@.wf(),
            old(self)@.phase is Write,
        ensures
            final(self)@ == old(self)@.after_write(old(self)@.phase->Write_0, outcome),
            final(self)@.wf(),
    {
        let d = match self.phase {
            Phase::Write(d) => d,
            _ => Direction::ClientToDest,
        };
        match outcome {
            WriteOutcome::Wrote(k) => {
                let left = match d {
                    Direction::ClientToDest => self.client_to_dest.pending.len() - self.client_to_dest.written,
                    Direction::DestToClient => self.dest_to_client.pending.len() - self.dest_to_client.written,
                };
                if 0 < k && k <= left {
                    let ghost u = self@.flow(d).buffer.unsent();
                    match d {
                        Direction::ClientToDest => {
                            self.delivered_up = Ghost(self.delivered_up@ + u.take(k as int));
                            if k == left {
                                self.client_to_dest.pending = Vec::new();
                                self.client_to_dest.written = 0;
                            } else {
                                self.client_to_dest.written = self.client_to_dest.written + k;
                            }
                        },
                        Direction::DestToClient => {
                            self.delivered_down = Ghost(self.delivered_down@ + u.take(k as int));
                            if k == left {
                                self.dest_to_client.pending = Vec::new();
                                self.dest_to_client.written = 0;
                            } else {
                                self.dest_to_client.written = self.dest_to_client.written + k;
                            }
                        },
                    }
                    self.total = self.total.saturating_add(k as u64);
                    self.phase = self.turn_from(d);
                    proof {
                        let b = old(self)@.flow(d).buffer;
                        assert(u == u.take(k as int) + u.skip(k as int));
                        assert(u.skip(k as int) == advanced(b, k as nat).unsent());
                        let f = old(self)@.flow(d);
                        assert(f.delivered + u.take(k as int) + u.skip(k as int) == f.delivered + u);
                        assert(self@.flow(d).received == self@.flow(d).delivered + self@.flow(d).buffer.unsent());
                    }
                } else {
                    self.phase = Phase::Done;
                }
            },
            WriteOutcome::WouldBlock => {
                self.phase = self.turn_from(d);
            },
            WriteOutcome::Failed => {
                self.phase = Phase::Done;
            },
        }
        assert(self@ == old(self)@.after_write(d, outcome));
    }
}

/// Relies on std::str::from_utf8: it succeeds exactly on valid UTF-8 and then
/// holds the characters that the bytes encode.
#[verifier::external_body]
fn utf8_text(bytes: &[u8]) -> (r: Option<String>)
    ensures
        r is Some <==> valid_utf8(bytes@),
        r is Some ==> r->0@ == decode_utf8(bytes@),
{
    match std::str::from_utf8(bytes) {
        Ok(s) => Some(s.to_owned()),
        Err(_) => None,
    }
}

/// The text of the bytes that `buf` holds, when they are valid UTF-8.
pub fn convert_tunnel_buffer(buf: TunnelBuffer) -> (r: Result<String, ProxyError>)
    ensures
        valid_utf8(buf@.pending) ==> r is Ok && r->Ok_0@ == decode_utf8(buf@.pending),
        !valid_utf8(buf@.pending) ==> (r matches Err(ProxyError::Parse(m)) && m@
            == "Could not parse UTF-8 string."@),
{
    match utf8_text(buf.pending.as_slice()) {
        Some(s) => Ok(s),
        None => Err(ProxyError::Parse("Could not parse UTF-8 string.".to_owned())),
    }
}

/// Byte accounting of the tunnel. In a well-formed relay each direction has
/// delivered a prefix of the bytes it received, with exactly its unsent bytes
/// in between, and the total is the count of bytes delivered both ways (capped
/// at the largest `u64`). A read adds exactly the bytes it returned to what was
/// received; a write adds to what was delivered exactly the first bytes it was
/// handed, as many as it took; and either keeps the relay well formed, so no
/// byte is dropped, duplicated or reordered on the way.
pub proof fn lemma_relay_accounting(v: RelayView, read: ReadView, write: WriteOutcome)
    requires
        v.wf(),
        read matches ReadView::Data(b) ==> b.len() <= TUNNEL_BUFFER_SIZE,
    ensures
        v.client_to_dest.delivered.is_prefix_of(v.client_to_dest.received),
        v.dest_to_client.delivered.is_prefix_of(v.dest_to_client.received),
        v.total == saturated(v.client_to_dest.delivered.len() + v.dest_to_client.delivered.len()),
        v.phase matches Phase::Read(d) ==> {
            &&& v.after_read(d, read).wf()
            &&& v.after_read(d, read).flow(d).delivered == v.flow(d).delivered
            &&& (read matches ReadView::Data(b) ==> v.after_read(d, read).flow(d).received
                == v.flow(d).received + b)
        },
        v.phase matches Phase::Write(d) ==> {
            &&& v.after_write(d, write).wf()
            &&& v.after_write(d, write).flow(d).received == v.flow(d).received
            &&& (write matches WriteOutcome::Wrote(k) ==> (0 < k <= v.flow(d).buffer.unsent().len()
                ==> v.after_write(d, write).flow(d).delivered == v.flow(d).delivered
                + v.flow(d).buffer.unsent().take(k as int)))
        },
{
    let up = v.client_to_dest;
    let down = v.dest_to_client;
    assert(up.received.take(up.delivered.len() as int) == up.delivered);
    assert(down.received.take(down.delivered.len() as int) == down.delivered);
    if let Phase::Read(d) = v.phase {
        if let ReadView::Data(b) = read {
            if b.len() > 0 {
                let n = v.after_read(d, read);
                assert(n.flow(d).buffer.unsent() == b);
                assert(n.flow(d).received == n.flow(d).delivered + n.flow(d).buffer.unsent());
            }
        }
    }
    if let Phase::Write(d) = v.phase {
        if let WriteOutcome::Wrote(k) = write {
            let f = v.flow(d);
            let u = f.buffer.unsent();
            if 0 < k <= u.len() {
                let n = v.after_write(d, write);
                assert(u == u.take(k as int) + u.skip(k as int));
                assert(u.skip(k as int) == advanced(f.buffer, k as nat).unsent());
                assert(f.delivered + u.take(k as int) + u.skip(k as int) == f.delivered + u);
                assert(n.flow(d).received == n.flow(d).delivered + n.flow(d).buffer.unsent());
            }
        }
    }
}

} // verus!
