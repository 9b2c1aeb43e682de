//! Server-side logic: the configuration builder over the screen topology,
//! the registry of currently connected clients, the handshake verdict, and
//! the per-connection session state machine.
//!
//! Everything here is pure decision logic over plain values.  The accept
//! loop, the timers and the sockets live with the caller, which feeds
//! arrival times and received messages in and carries the decided replies
//! and state transitions out.

use vstd::prelude::*;
use vstd::string::StringSliceAdditionalSpecFns;

use crate::topology::{ClientConfig, ClientConfigV, ScreenTopology, TopologyError, spec_add};

pub use crate::topology::Position;

verus! {

/// Why a handshake was refused; each reason maps onto the protocol error
/// message the peer is sent before the connection closes.
#[derive(Debug, Clone, Copy, PartialEq, Eq, Structural)]
pub enum RejectReason {
    /// The peer's advertised version is unsupported; carries the peer's
    /// major and minor version, echoed back in the error reply.
    IncompatibleVersion(u16, u16),
    /// A client of that name is already connected.
    ServerBusy,
    /// The name is not among the configured clients.
    UnknownClient,
    /// The reply was not a well-formed Hello-back (no client name).
    ProtocolViolation,
}

/// The per-connection handshake states.  A connection starts awaiting the
/// greeting, the server sends its Hello and awaits the reply, and the reply
/// either establishes the session or is rejected with a reason.
#[derive(Debug, Clone, Copy, PartialEq, Eq, Structural)]
pub enum HandshakeState {
    AwaitingGreeting,
    AwaitingReply,
    Established,
    Rejected(RejectReason),
}

impl HandshakeState {
    /// The server has sent its greeting: a connection awaiting the
    /// greeting now awaits the reply; any other state is unchanged.
    pub fn greeting_sent(self) -> (r: Self)
        ensures
            r == (if self == HandshakeState::AwaitingGreeting {
                HandshakeState::AwaitingReply
            } else {
                self
            }),
    {
        if self == HandshakeState::AwaitingGreeting {
            HandshakeState::AwaitingReply
        } else {
            self
        }
    }

    /// The verdict on the Hello reply lands: a connection awaiting the
    /// reply is established on acceptance and terminally rejected
    /// otherwise; any other state is unchanged.
    pub fn after_verdict(self, verdict: &HandshakeVerdict) -> (r: Self)
        ensures
            r == (if self == HandshakeState::AwaitingReply {
                match verdict {
                    HandshakeVerdict::Accept(_) => HandshakeState::Established,
                    HandshakeVerdict::Reject(reason) => HandshakeState::Rejected(*reason),
                }
            } else {
                self
            }),
    {
        if self == HandshakeState::AwaitingReply {
            match verdict {
                HandshakeVerdict::Accept(_) => HandshakeState::Established,
                HandshakeVerdict::Reject(reason) => HandshakeState::Rejected(*reason),
            }
        } else {
            self
        }
    }
}

/// Builds one [`ClientConfig`] entry for the topology.
#[derive(Debug, Clone)]
pub struct ClientBuilder {
    name: String,
    position: Position,
    relative_to: Option<String>,
    width: u16,
    height: u16,
}

impl View for ClientBuilder {
    type V = ClientConfigV;

    closed spec fn view(&self) -> ClientConfigV {
        ClientConfigV {
            name: self.name@,
            position: self.position,
            relative_to: match self.relative_to {
                Some(ref s) => Some(s@),
                None => None,
            },
            width: self.width,
            height: self.height,
            pointer_x: 0,
            pointer_y: 0,
        }
    }
}

impl ClientBuilder {
    /// Starts an entry with the given name, placed left in the root plane
    /// until a position is chosen.
    pub fn new(name: &str) -> (r: Self)
        ensures
            r@.name == name@,
            r@.position == Position::Left,
            r@.relative_to is None,
            r@.width == 0 && r@.height == 0,
    {
        ClientBuilder {
            name: String::from_str(name),
            position: Position::Left,
            relative_to: None,
            width: 0,
            height: 0,
        }
    }

    /// Chooses the direction of this screen within its plane.
    pub fn position(self, position: Position) -> (r: Self)
        ensures
            r@ == (ClientConfigV { position, ..self@ }),
    {
        ClientBuilder { position, ..self }
    }

    /// Places this screen relative to an already built client.
    pub fn relative_to(self, other: &ClientConfig) -> (r: Self)
        ensures
            r@ == (ClientConfigV { relative_to: Some(other.name@), ..self@ }),
    {
        ClientBuilder { relative_to: Some(other.name.clone()), ..self }
    }

    /// Sets the screen dimensions.
    pub fn dimensions(self, width: u16, height: u16) -> (r: Self)
        ensures
            r@ == (ClientConfigV { width, height, ..self@ }),
    {
        ClientBuilder { width, height, ..self }
    }

    /// Finishes the entry.
    pub fn build(self) -> (r: ClientConfig)
        ensures
            r@ == self@,
    {
        ClientConfig {
            name: self.name,
            position: self.position,
            relative_to: self.relative_to,
            width: self.width,
            height: self.height,
            pointer_x: 0,
            pointer_y: 0,
        }
    }
}

/// Collects the screen topology a server is configured with.  The topology
/// is fixed once the server starts listening: nothing can add clients to a
/// running server.
#[derive(Debug)]
pub struct Builder {
    topology: ScreenTopology,
}

impl View for Builder {
    type V = Seq<ClientConfigV>;

    closed spec fn view(&self) -> Seq<ClientConfigV> {
        self.topology@
    }
}

impl Builder {
    /// Whether the collected topology satisfies its invariants.
    pub closed spec fn wf(&self) -> bool {
        self.topology.wf()
    }

    /// An empty configuration.
    pub fn new() -> (r: Self)
        ensures
            r@ == Seq::<ClientConfigV>::empty(),
            r.wf(),
    {
        Builder { topology: ScreenTopology::new() }
    }

    /// Adds one configured client, with the topology's placement rules
    /// enforced; on refusal the whole builder is returned unchanged inside
    /// the error...
    pub fn add_client(self, config: ClientConfig) -> (r: Result<Self, TopologyError>)
        requires
            self.wf(),
        ensures
            match r {
                Ok(b) => b.wf() && b@ == self@.push(config@) && spec_add(self@, config@)
                    == Ok::<(), TopologyError>(()),
                Err(e) => spec_add(self@, config@) == Err::<(), TopologyError>(e),
            },
    {
        let mut topology = self.topology;
        match topology.add(config) {
            Ok(()) => Ok(Builder { topology }),
            Err(e) => Err(e),
        }
    }

    /// The collected topology.
    pub fn topology(&self) -> (r: &ScreenTopology)
        ensures
            r@ == self@,
    {
        &self.topology
    }
}

/// The set of currently connected client names, shared by all connection
/// handlers.  Distinct from the immutable topology: entries come and go
/// with handshakes and disconnects.
#[derive(Debug)]
pub struct ServerRegistry {
    connected: Vec<String>,
}

impl View for ServerRegistry {
    type V = Seq<Seq<char>>;

    closed spec fn view(&self) -> Seq<Seq<char>> {
        Seq::new(self.connected@.len(), |i: int| self.connected@[i]@)
    }
}

impl ServerRegistry {
    /// No two entries bear the same name.
    pub open spec fn wf(&self) -> bool {
        forall|i: int, j: int| 0 <= i < j < self@.len() ==> #[trigger] self@[i]
            != #[trigger] self@[j]
    }

    /// An empty registry.
    pub fn new() -> (r: Self)
        ensures
            r@ == Seq::<Seq<char>>::empty(),
            r.wf(),
    {
        let r = ServerRegistry { connected: Vec::new() };
        proof {
            assert(r@ =~= Seq::<Seq<char>>::empty());
        }
        r
    }

    /// How many clients are connected.
    pub fn len(&self) -> (r: usize)
        ensures
            r == self@.len(),
    {
        self.connected.len()
    }

    /// Whether a client of that name is connected.
    pub fn contains(&self, name: &String) -> (r: bool)
        ensures
            r == exists|i: int| 0 <= i < self@.len() && #[trigger] self@[i] == name@,
    {
        let mut i: usize = 0;
        while i < self.connected.len()
            invariant
                0 <= i <= self@.len(),
                self@.len() == self.connected@.len(),
                forall|j: int| 0 <= j < i ==> #[trigger] self@[j] != name@,
            decreases self.connected@.len() - i,
        {
            if self.connected[i] == *name {
                proof {
                    assert(self@[i as int] == name@);
                }
                return true;
            }
            proof {
                assert(self@[i as int] != name@);
            }
            i = i + 1;
        }
        false
    }

    /// Records a client as connected; refuses a name already present, so
    /// that names stay unique.
    pub fn insert(&mut self, name: String) -> (r: bool)
        requires
            old(self).wf(),
        ensures
            final(self).wf(),
            r == !(exists|i: int| 0 <= i < old(self)@.len() && #[trigger] old(self)@[i]
                == name@),
            r ==> final(self)@ == old(self)@.push(name@),
            !r ==> final(self)@ == old(self)@,
    {
        if self.contains(&name) {
            return false;
        }
        let ghost pre = self@;
        self.connected.push(name);
        proof {
            assert(self@ =~= pre.push(name@));
        }
        true
    }

    /// Removes a client on disconnect; without the name present the
    /// registry is unchanged.
    pub fn remove(&mut self, name: &String) -> (r: bool)
        requires
            old(self).wf(),
        ensures
            final(self).wf(),
            r == exists|i: int| 0 <= i < old(self)@.len() && #[trigger] old(self)@[i] == name@,
            r ==> exists|i: int| 0 <= i < old(self)@.len() && #[trigger] old(self)@[i] == name@
                && final(self)@ == old(self)@.remove(i),
            !r ==> final(self)@ == old(self)@,
    {
        let ghost pre = self@;
        let mut i: usize = 0;
        while i < self.connected.len()
            invariant
                0 <= i <= pre.len(),
                self@ == pre,
                old(self)@ == pre,
                old(self).wf(),
                pre.len() == self.connected@.len(),
                forall|j: int| 0 <= j < i ==> #[trigger] pre[j] != name@,
            decreases self.connected@.len() - i,
        {
            if self.connected[i] == *name {
                proof {
                    assert(pre[i as int] == name@);
                }
                self.connected.remove(i);
                proof {
                    assert(self@ =~= pre.remove(i as int));
                }
                return true;
            }
            proof {
                assert(self@[i as int] != name@);
            }
            i = i + 1;
        }
        false
    }

    /// A snapshot of the connected names, not a live view.
    pub fn clients(&self) -> (r: Vec<String>)
        ensures
            r@.len() == self@.len(),
            forall|i: int| 0 <= i < r@.len() ==> #[trigger] r@[i]@ == self@[i],
    {
        let mut out: Vec<String> = Vec::new();
        let mut i: usize = 0;
        while i < self.connected.len()
            invariant
                0 <= i <= self@.len(),
                self@.len() == self.connected@.len(),
                out@.len() == i,
                forall|j: int| 0 <= j < i ==> #[trigger] out@[j]@ == self@[j],
            decreases self.connected@.len() - i,
        {
            out.push(self.connected[i].clone());
            i = i + 1;
        }
        out
    }
}

/// The server's verdict on a client's Hello reply.
#[derive(Debug, Clone, PartialEq, Eq)]
pub enum HandshakeVerdict {
    /// Accept the named client: the connection becomes a session and the
    /// name is inserted into the registry.
    Accept(String),
    /// Send the matching error message and close the connection.
    Reject(RejectReason),
}

/// Decides what the server does with the Hello a client sent back: a
/// reply without a name is a protocol violation; a major version other
/// than the server's is incompatible and has the peer's version echoed
/// back; a name outside the configured topology is unknown; a name already
/// connected finds the server busy; everything else is accepted.
pub fn handshake_verdict(
    topology: &ScreenTopology,
    registry: &ServerRegistry,
    server_major: u16,
    hello_major: u16,
    hello_minor: u16,
    client_name: &Option<String>,
) -> (r: HandshakeVerdict)
    ensures
        match client_name {
            None => r == HandshakeVerdict::Reject(RejectReason::ProtocolViolation),
            Some(name) => {
                if hello_major != server_major {
                    r == HandshakeVerdict::Reject(
                        RejectReason::IncompatibleVersion(hello_major, hello_minor),
                    )
                } else if !(exists|i: int| 0 <= i < topology@.len()
                    && #[trigger] topology@[i].name == name@) {
                    r == HandshakeVerdict::Reject(RejectReason::UnknownClient)
                } else if exists|i: int| 0 <= i < registry@.len() && #[trigger] registry@[i]
                    == name@ {
                    r == HandshakeVerdict::Reject(RejectReason::ServerBusy)
                } else {
                    r == HandshakeVerdict::Accept(*name)
                }
            },
        },
{
    match client_name {
        None => HandshakeVerdict::Reject(RejectReason::ProtocolViolation),
        Some(name) => {
            if hello_major != server_major {
                return HandshakeVerdict::Reject(
                    RejectReason::IncompatibleVersion(hello_major, hello_minor),
                );
            }
            if !topology.contains_name(name) {
                return HandshakeVerdict::Reject(RejectReason::UnknownClient);
            }
            if registry.contains(name) {
                return HandshakeVerdict::Reject(RejectReason::ServerBusy);
            }
            HandshakeVerdict::Accept(name.clone())
        },
    }
}

/// The lifecycle states of an established session.
#[derive(Debug, Clone, Copy, PartialEq, Eq, Structural)]
pub enum SessionState {
    Active,
    Closing,
    Closed,
}

/// Per-connection session bookkeeping after the handshake: liveness by
/// keepalives, the cursor-enter sequence number that clipboard messages
/// must echo, the single-open-stream rule for chunked transfers, and the
/// negotiated option overlay.
#[derive(Debug)]
pub struct Session {
    state: SessionState,
    last_heard_ms: u64,
    last_keepalive_sent_ms: u64,
    enter_sequence: u32,
    stream_open: bool,
    options: Vec<(u32, u32)>,
}

/// Abstraction of a session.
pub struct SessionV {
    pub state: SessionState,
    pub last_heard_ms: u64,
    pub last_keepalive_sent_ms: u64,
    pub enter_sequence: u32,
    pub stream_open: bool,
    pub options: Seq<(u32, u32)>,
}

impl View for Session {
    type V = SessionV;

    closed spec fn view(&self) -> SessionV {
        SessionV {
            state: self.state,
            last_heard_ms: self.last_heard_ms,
            last_keepalive_sent_ms: self.last_keepalive_sent_ms,
            enter_sequence: self.enter_sequence,
            stream_open: self.stream_open,
            options: self.options@,
        }
    }
}

/// Whether an option key is present in an overlay.
pub open spec fn has_key(options: Seq<(u32, u32)>, key: u32) -> bool {
    exists|i: int| 0 <= i < options.len() && #[trigger] options[i].0 == key
}

impl Session {
    /// Option keys are unique, so the overlay is a mapping.
    pub open spec fn wf(&self) -> bool {
        forall|i: int, j: int| 0 <= i < j < self@.options.len() ==> (#[trigger] self@.options[i]).0
            != (#[trigger] self@.options[j]).0
    }

    /// A fresh session, active, heard from now, with an empty overlay.
    pub fn new(now_ms: u64) -> (r: Self)
        ensures
            r@.state == SessionState::Active,
            r@.last_heard_ms == now_ms,
            r@.last_keepalive_sent_ms == now_ms,
            r@.enter_sequence == 0,
            r@.stream_open == false,
            r@.options == Seq::<(u32, u32)>::empty(),
            r.wf(),
    {
        let r = Session {
            state: SessionState::Active,
            last_heard_ms: now_ms,
            last_keepalive_sent_ms: now_ms,
            enter_sequence: 0,
            stream_open: false,
            options: Vec::new(),
        };
        proof {
            assert(r@.options =~= Seq::<(u32, u32)>::empty());
        }
        r
    }

    /// The current lifecycle state.
    pub fn state(&self) -> (r: SessionState)
        ensures
            r == self@.state,
    {
        self.state
    }

    /// The sequence number the most recent cursor-enter carried.
    pub fn enter_sequence(&self) -> (r: u32)
        ensures
            r == self@.enter_sequence,
    {
        self.enter_sequence
    }

    /// The negotiated option overlay, in insertion order.
    pub fn options(&self) -> (r: &Vec<(u32, u32)>)
        ensures
            r@ == self@.options,
    {
        &self.options
    }

    /// Records that the peer was heard from.
    pub fn record_heard(&mut self, now_ms: u64)
        ensures
            final(self)@ == (SessionV { last_heard_ms: now_ms, ..old(self)@ }),
    {
        self.last_heard_ms = now_ms;
    }

    /// Whether a periodic keepalive is owed.
    pub fn keepalive_due(&self, now_ms: u64, interval_ms: u64) -> (r: bool)
        ensures
            r == (now_ms >= self@.last_keepalive_sent_ms + interval_ms),
    {
        now_ms >= self.last_keepalive_sent_ms
            && now_ms - self.last_keepalive_sent_ms >= interval_ms
    }

    /// Records that a keepalive went out.
    pub fn record_keepalive_sent(&mut self, now_ms: u64)
        ensures
            final(self)@ == (SessionV { last_keepalive_sent_ms: now_ms, ..old(self)@ }),
    {
        self.last_keepalive_sent_ms = now_ms;
    }

    /// Treats a peer silent beyond the threshold as dead: an active session
    /// moves to closing and the call reports false; otherwise nothing
    /// changes and the call reports whether the session is still active.
    pub fn check_liveness(&mut self, now_ms: u64, threshold_ms: u64) -> (r: bool)
        ensures
            final(self)@ == (SessionV {
                state: if old(self)@.state == SessionState::Active && now_ms
                    > old(self)@.last_heard_ms + threshold_ms {
                    SessionState::Closing
                } else {
                    old(self)@.state
                },
                ..old(self)@
            }),
            r == (final(self)@.state == SessionState::Active),
    {
        if self.state == SessionState::Active && now_ms > self.last_heard_ms
            && now_ms - self.last_heard_ms > threshold_ms {
            self.state = SessionState::Closing;
            return false;
        }
        self.state == SessionState::Active
    }

    /// An explicit close message or a transport error moves the session to
    /// closing; a closed session stays closed.
    pub fn begin_close(&mut self)
        ensures
            final(self)@ == (SessionV {
                state: if old(self)@.state == SessionState::Closed {
                    SessionState::Closed
                } else {
                    SessionState::Closing
                },
                ..old(self)@
            }),
    {
        if self.state != SessionState::Closed {
            self.state = SessionState::Closing;
        }
    }

    /// The connection teardown finished.
    pub fn finish_close(&mut self)
        ensures
            final(self)@ == (SessionV { state: SessionState::Closed, ..old(self)@ }),
    {
        self.state = SessionState::Closed;
    }

    /// A cursor entered the screen: its sequence number becomes the one
    /// that subsequent clipboard messages must echo.
    pub fn on_cursor_entered(&mut self, sequence: u32)
        ensures
            final(self)@ == (SessionV { enter_sequence: sequence, ..old(self)@ }),
    {
        self.enter_sequence = sequence;
    }

    /// Whether a clipboard message echoing `sequence` is in order.  A
    /// stale or out-of-order sequence number is a session-level anomaly:
    /// the message is dropped, not fatal.
    pub fn clipboard_in_order(&self, sequence: u32) -> (r: bool)
        ensures
            r == (sequence == self@.enter_sequence),
    {
        sequence == self.enter_sequence
    }

    /// Tracks the mark of a chunked clipboard or file-transfer message:
    /// 1 opens a stream, 2 continues it, 3 ends it, and anything out of
    /// order — a second start before an end, a middle or end with no open
    /// stream, an unknown mark — is an anomaly.  Reports whether the mark
    /// was in order.
    pub fn on_stream_mark(&mut self, mark: u8) -> (r: bool)
        ensures
            final(self)@ == (SessionV {
                stream_open: if mark == 1 {
                    true
                } else if mark == 3 {
                    false
                } else {
                    old(self)@.stream_open
                },
                ..old(self)@
            }),
            r == (if mark == 1 {
                !old(self)@.stream_open
            } else if mark == 2 || mark == 3 {
                old(self)@.stream_open
            } else {
                false
            }),
    {
        if mark == 1 {
            let ok = !self.stream_open;
            self.stream_open = true;
            ok
        } else if mark == 2 {
            self.stream_open
        } else if mark == 3 {
            let ok = self.stream_open;
            self.stream_open = false;
            ok
        } else {
            false
        }
    }

    /// Applies one negotiated option onto the overlay: a present key is
    /// overwritten in place, a new key is appended, and insertion order is
    /// kept either way.  Unknown keys are retained, not interpreted.
    pub fn apply_option(&mut self, key: u32, value: u32)
        requires
            old(self).wf(),
        ensures
            final(self).wf(),
            has_key(old(self)@.options, key) ==> exists|i: int| 0 <= i < old(self)@.options.len()
                && (#[trigger] old(self)@.options[i]).0 == key && final(self)@ == (SessionV {
                options: old(self)@.options.update(i, (key, value)),
                ..old(self)@
            }),
            !has_key(old(self)@.options, key) ==> final(self)@ == (SessionV {
                options: old(self)@.options.push((key, value)),
                ..old(self)@
            }),
    {
        let ghost pre = self@.options;
        let mut i: usize = 0;
        while i < self.options.len()
            invariant
                0 <= i <= pre.len(),
                self@.options == pre,
                old(self)@ == self@,
                old(self).wf(),
                pre.len() == self.options@.len(),
                forall|j: int| 0 <= j < i ==> (#[trigger] pre[j]).0 != key,
            decreases self.options@.len() - i,
        {
            if self.options[i].0 == key {
                self.options[i] = (key, value);
                proof {
                    assert(self@.options =~= pre.update(i as int, (key, value)));
                }
                return ;
            }
            i = i + 1;
        }
        self.options.push((key, value));
        proof {
            assert(self@.options =~= pre.push((key, value)));
        }
    }

    /// Resets the option overlay to its defaults.
    pub fn reset_options(&mut self)
        ensures
            final(self)@ == (SessionV { options: Seq::<(u32, u32)>::empty(), ..old(self)@ }),
            final(self).wf(),
    {
        self.options = Vec::new();
        proof {
            assert(self@.options =~= Seq::<(u32, u32)>::empty());
        }
    }
}

} // verus!
