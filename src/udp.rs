//! UDP listeners: the two sockets of a port, and the demultiplexer that
//! turns each received datagram into a conversation with its own reply path

use vstd::prelude::*;

use crate::tcp::Family;

verus! {

/// Size of the buffer a datagram is received into; longer datagrams are cut
pub const BUF_SIZE: usize = 1024;

/// How one UDP socket is created, configured and bound
#[derive(Clone, Copy, PartialEq, Eq, Structural, Debug)]
pub struct BindPlan {
    pub family: Family,
    pub port: u16,
    pub only_v6: bool,
    pub nonblocking: bool,
}

pub open spec fn bind_plans_spec(port: u16) -> Seq<BindPlan> {
    seq![
        BindPlan { family: Family::V4, port, only_v6: false, nonblocking: true },
        BindPlan { family: Family::V6, port, only_v6: true, nonblocking: true },
    ]
}

/// The two sockets that serve `port`: IPv4 first, then IPv6-only
pub fn bind_plans(port: u16) -> (r: Vec<BindPlan>)
    ensures
        r@ == bind_plans_spec(port),
{
    let r = vec![
        BindPlan { family: Family::V4, port, only_v6: false, nonblocking: true },
        BindPlan { family: Family::V6, port, only_v6: true, nonblocking: true },
    ];
    assert(r@ =~= bind_plans_spec(port));
    r
}

/// One emulated conversation, minted for one received datagram: its payload,
/// the address it came from, and the identity of the reply sink made for it
pub struct Session<A> {
    pub payload: Vec<u8>,
    pub peer: A,
    pub sink: Ghost<nat>,
}

/// Mints one session per received datagram
pub struct Demux {
    /// How many sessions were minted so far; the next sink gets this identity
    pub minted: Ghost<nat>,
}

/// The payload of a datagram of `n` bytes received into `buf`
pub open spec fn payload_spec(buf: Seq<u8>, n: usize) -> Seq<u8> {
    if n <= buf.len() {
        buf.take(n as int)
    } else {
        buf
    }
}

impl Demux {
    pub fn new() -> (d: Demux)
        ensures
            d.minted@ == 0,
    {
        Demux { minted: Ghost(0) }
    }

    /// A datagram of `n` bytes arrived in `buf` from `peer`: the session for
    /// it holds the received bytes only, and a sink no earlier session had
    pub fn receive<A>(&mut self, buf: Vec<u8>, n: usize, peer: A) -> (s: Session<A>)
        ensures
            s.payload@ == payload_spec(buf@, n),
            s.peer == peer,
            s.sink@ == old(self).minted@,
            final(self).minted@ == old(self).minted@ + 1,
    {
        let mut payload = buf;
        payload.truncate(n);
        let sink = Ghost(self.minted@);
        self.minted = Ghost(self.minted@ + 1);
        Session { payload, peer, sink }
    }

    /// One turn of the receive loop: a datagram received into `buf` becomes
    /// a session; a failed receive is only logged, and the loop goes on
    pub fn after_recv<A, E>(&mut self, buf: Vec<u8>, r: Result<(usize, A), E>) -> (s: Option<Session<A>>)
        ensures
            match r {
                Ok((n, peer)) => s matches Some(s) && s.payload@ == payload_spec(buf@, n) && s.peer
                    == peer && s.sink@ == old(self).minted@ && final(self).minted@ == old(self).minted@ + 1,
                Err(_) => s is None && final(self).minted@ == old(self).minted@,
            },
    {
        match r {
            Ok((n, peer)) => Some(self.receive(buf, n, peer)),
            Err(_) => None,
        }
    }
}

/// What the task that sends one session's replies is told
#[derive(Debug, Clone, PartialEq, Eq)]
pub enum ReplyEvent {
    /// The handler queued these bytes on the sink
    Queued(Vec<u8>),
    /// The handler dropped the sink: no more replies
    Closed,
    /// Sending the last reply failed
    SendFailed,
}

/// What the reply task does next
#[derive(Debug, Clone, PartialEq, Eq)]
pub enum ReplyAction<A> {
    /// Send these bytes as one datagram to this address
    Send { to: A, bytes: Vec<u8> },
    /// End the task
    Stop,
}

/// The state of the task that sends one session's replies
pub struct ReplySender<A> {
    pub peer: A,
    pub sink: Ghost<nat>,
    pub open: bool,
}

impl<A: Copy> Session<A> {
    /// The reply path of this session: it sends to this session's peer only
    pub fn reply_path(&self) -> (r: ReplySender<A>)
        ensures
            r.peer == self.peer,
            r.sink@ == self.sink@,
            r.open,
    {
        ReplySender { peer: self.peer, sink: Ghost(self.sink@), open: true }
    }
}

pub open spec fn reply_step_spec<A>(s: ReplySender<A>, ev: ReplyEvent) -> (ReplySender<A>, ReplyAction<A>) {
    if !s.open {
        (s, ReplyAction::Stop)
    } else {
        match ev {
            ReplyEvent::Queued(bytes) => (s, ReplyAction::Send { to: s.peer, bytes }),
            _ => (ReplySender { open: false, ..s }, ReplyAction::Stop),
        }
    }
}

impl<A: Copy> ReplySender<A> {
    /// Queued bytes go to the session's peer, unchanged; the task ends when
    /// the sink is closed or a send fails, and does nothing after that
    pub fn step(&mut self, ev: ReplyEvent) -> (a: ReplyAction<A>)
        ensures
            (*final(self), a) == reply_step_spec(*old(self), ev),
    {
        if !self.open {
            return ReplyAction::Stop;
        }
        match ev {
            ReplyEvent::Queued(bytes) => ReplyAction::Send { to: self.peer, bytes },
            _ => {
                self.open = false;
                ReplyAction::Stop
            },
        }
    }
}

/// The sessions a demultiplexer minted, one after another from the count
/// `start`, for datagrams that came from `peers` in this order
pub open spec fn minted_in_order<A>(start: nat, peers: Seq<A>, sessions: Seq<Session<A>>) -> bool {
    &&& sessions.len() == peers.len()
    &&& forall|k: int|
        0 <= k < sessions.len() ==> (#[trigger] sessions[k]).peer == peers[k] && sessions[k].sink@
            == start + k
}

pub open spec fn reply_path_spec<A>(s: Session<A>) -> ReplySender<A> {
    ReplySender { peer: s.peer, sink: s.sink, open: true }
}

/// For datagrams from pairwise distinct peers, the sessions minted for them
/// have pairwise distinct reply sinks, and bytes queued on one session's
/// sink are sent to that session's peer, never to another session's peer.
pub proof fn law_one_session_per_peer<A>(start: nat, peers: Seq<A>, sessions: Seq<Session<A>>)
    requires
        minted_in_order(start, peers, sessions),
        forall|i: int, j: int|
            0 <= i < peers.len() && 0 <= j < peers.len() && i != j ==> peers[i] != peers[j],
    ensures
        forall|i: int, j: int|
            0 <= i < sessions.len() && 0 <= j < sessions.len() && i != j ==> #[trigger] sessions[i].sink@
                != #[trigger] sessions[j].sink@,
        forall|i: int, j: int, bytes: Vec<u8>|
            0 <= i < sessions.len() && 0 <= j < sessions.len() && i != j ==> {
                let a = #[trigger] reply_step_spec(reply_path_spec(sessions[i]), ReplyEvent::Queued(bytes)).1;
                &&& a == ReplyAction::Send { to: peers[i], bytes }
                &&& a != ReplyAction::Send { to: #[trigger] peers[j], bytes }
            },
{
}

/// What a reply task does for a run of events, from state `s`
pub open spec fn run_replies<A>(s: ReplySender<A>, evs: Seq<ReplyEvent>) -> Seq<ReplyAction<A>>
    decreases evs.len(),
{
    if evs.len() == 0 {
        seq![]
    } else {
        let (next, a) = reply_step_spec(s, evs[0]);
        seq![a] + run_replies(next, evs.drop_first())
    }
}

/// Bytes queued one after another on a session's sink are sent in the
/// order they were queued, each unchanged and to the session's peer.
pub proof fn law_replies_in_order<A>(s: ReplySender<A>, items: Seq<Vec<u8>>)
    requires
        s.open,
    ensures
        run_replies(s, items.map_values(|b: Vec<u8>| ReplyEvent::Queued(b))) == items.map_values(
            |b: Vec<u8>| ReplyAction::Send { to: s.peer, bytes: b },
        ),
    decreases items.len(),
{
    let evs = items.map_values(|b: Vec<u8>| ReplyEvent::Queued(b));
    let sends = items.map_values(|b: Vec<u8>| ReplyAction::Send { to: s.peer, bytes: b });
    if items.len() == 0 {
        assert(sends =~= seq![]);
    } else {
        let rest = items.drop_first();
        law_replies_in_order(s, rest);
        assert(evs.drop_first() =~= rest.map_values(|b: Vec<u8>| ReplyEvent::Queued(b)));
        assert(sends =~= seq![sends[0]] + rest.map_values(
            |b: Vec<u8>| ReplyAction::Send { to: s.peer, bytes: b },
        ));
    }
}

/// Once a reply task has stopped (its sink closed or a send failed), it
/// sends nothing more, whatever it is told afterwards.
pub proof fn law_closed_sink_stays_closed<A>(s: ReplySender<A>, evs: Seq<ReplyEvent>)
    requires
        !s.open,
    ensures
        run_replies(s, evs) == Seq::new(evs.len(), |i: int| ReplyAction::<A>::Stop),
    decreases evs.len(),
{
    if evs.len() > 0 {
        law_closed_sink_stays_closed(s, evs.drop_first());
    }
    assert(run_replies(s, evs) =~= Seq::new(evs.len(), |i: int| ReplyAction::<A>::Stop));
}

} // verus!
