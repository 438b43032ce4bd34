//! Replay windows, the host medium that carries frames between nodes, and the send and
//! receive decisions of host transports over it.
use vstd::prelude::*;
use crate::seqs::{first_index, lemma_first_index, lemma_first_index_at};
use super::frame::{
    NodeId, SwarmDropTelemetry, SwarmError, SwarmFrame, SwarmSecurity, SWARM_FRAME_PAYLOAD_CAPACITY,
    spec_frame_auth_tag, spec_frame_verify, swarm_telemetry_after,
};

verus! {

pub const HOST_SWARM_REPLAY_SOURCES: usize = 8;

/// The highest sequence number accepted so far.
#[derive(Clone, Copy, Debug, PartialEq, Eq, Structural)]
pub struct ReplayWindow {
    pub highest_seq: Option<u32>,
}

/// Accepting `seq`: refused unless it is above every sequence number accepted before.
pub open spec fn spec_replay_accept(w: ReplayWindow, seq: u32) -> Result<ReplayWindow, SwarmError> {
    if w.highest_seq is Some && seq <= w.highest_seq->Some_0 {
        Err(SwarmError::Replay)
    } else {
        Ok(ReplayWindow { highest_seq: Some(seq) })
    }
}

impl ReplayWindow {
    pub fn new() -> (out: Self)
        ensures
            out.highest_seq is None,
    {
        ReplayWindow { highest_seq: None }
    }

    pub fn accept(&mut self, seq: u32) -> (out: Result<(), SwarmError>)
        ensures
            match spec_replay_accept(*old(self), seq) {
                Ok(w) => out is Ok && *final(self) == w,
                Err(e) => out == Err::<(), SwarmError>(e) && *final(self) == *old(self),
            },
    {
        match self.highest_seq {
            Some(highest) => {
                if seq <= highest {
                    return Err(SwarmError::Replay);
                }
            },
            None => {},
        }
        self.highest_seq = Some(seq);
        Ok(())
    }
}

impl Default for ReplayWindow {
    fn default() -> (out: Self)
        ensures
            out.highest_seq is None,
    {
        Self::new()
    }
}

/// Two accepted sequence numbers in a row strictly increase; the same number is never accepted twice.
pub proof fn lemma_replay_accepts_strictly_increasing(w: ReplayWindow, s1: u32, s2: u32)
    requires
        spec_replay_accept(w, s1) is Ok,
        spec_replay_accept(spec_replay_accept(w, s1)->Ok_0, s2) is Ok,
    ensures
        s1 < s2,
        spec_replay_accept(spec_replay_accept(w, s1)->Ok_0, s1) == Err::<ReplayWindow, SwarmError>(SwarmError::Replay),
{
}

pub open spec fn frame_for(node: NodeId) -> spec_fn(SwarmFrame) -> bool {
    |f: SwarmFrame| f.dst_node == node
}

/// A medium carrying up to `N` frames in order, shared by the nodes of a host swarm.
pub struct HostSwarmMedium<const N: usize> {
    queue: Vec<SwarmFrame>,
    drop_telemetry: SwarmDropTelemetry,
}

impl<const N: usize> HostSwarmMedium<N> {
    pub closed spec fn view(&self) -> Seq<SwarmFrame> {
        self.queue@
    }

    pub closed spec fn telemetry(&self) -> SwarmDropTelemetry {
        self.drop_telemetry
    }

    pub open spec fn wf(&self) -> bool {
        self.view().len() <= N
    }

    pub fn new() -> (out: Self)
        ensures
            out.wf(),
            out.view() == Seq::<SwarmFrame>::empty(),
            out.telemetry() == SwarmDropTelemetry::zero(),
    {
        HostSwarmMedium { queue: Vec::new(), drop_telemetry: SwarmDropTelemetry::new() }
    }

    pub fn send(&mut self, frame: SwarmFrame) -> (out: Result<(), SwarmError>)
        requires
            old(self).wf(),
        ensures
            final(self).wf(),
            final(self).telemetry() == old(self).telemetry(),
            old(self).view().len() == N ==> out == Err::<(), SwarmError>(SwarmError::QueueFull)
                && final(self).view() == old(self).view(),
            old(self).view().len() < N ==> out is Ok && final(self).view() == old(self).view().push(frame),
    {
        if self.queue.len() == N {
            return Err(SwarmError::QueueFull);
        }
        self.queue.push(frame);
        Ok(())
    }

    pub fn requeue_front(&mut self, frame: SwarmFrame) -> (out: Result<(), SwarmError>)
        requires
            old(self).wf(),
        ensures
            final(self).wf(),
            final(self).telemetry() == old(self).telemetry(),
            old(self).view().len() == N ==> out == Err::<(), SwarmError>(SwarmError::QueueFull)
                && final(self).view() == old(self).view(),
            old(self).view().len() < N ==> out is Ok && final(self).view() == old(self).view().insert(0, frame),
    {
        if self.queue.len() == N {
            return Err(SwarmError::QueueFull);
        }
        self.queue.insert(0, frame);
        Ok(())
    }

    fn find_for(&self, node: NodeId) -> (out: usize)
        ensures
            out == first_index(self.view(), frame_for(node)),
            out < self.view().len() ==> self.view()[out as int].dst_node == node,
    {
        let n = self.queue.len();
        let mut i: usize = 0;
        while i < n
            invariant
                n == self.view().len(),
                i <= n,
                forall|j: int| 0 <= j < i ==> !(#[trigger] frame_for(node)(self.view()[j])),
            decreases n - i,
        {
            if self.queue[i].dst_node == node {
                proof {
                    lemma_first_index_at(self.view(), frame_for(node), i as int);
                }
                return i;
            }
            i = i + 1;
        }
        proof {
            lemma_first_index(self.view(), frame_for(node));
        }
        n
    }

    /// The label of the first frame waiting for `node`.
    pub fn peek_label(&self, node: NodeId) -> (out: Option<u8>)
        ensures
            ({
                let i = first_index(self.view(), frame_for(node));
                if i < self.view().len() {
                    out == Some(self.view()[i].label_hint)
                } else {
                    out is None
                }
            }),
    {
        let i = self.find_for(node);
        if i < self.queue.len() {
            Some(self.queue[i].label_hint)
        } else {
            None
        }
    }

    fn take_for(&mut self, node: NodeId) -> (out: Result<SwarmFrame, SwarmError>)
        requires
            old(self).wf(),
        ensures
            final(self).wf(),
            final(self).telemetry() == old(self).telemetry(),
            ({
                let i = first_index(old(self).view(), frame_for(node));
                if i < old(self).view().len() {
                    out == Ok::<SwarmFrame, SwarmError>(old(self).view()[i]) && final(self).view() == old(self).view().remove(i)
                } else {
                    out == Err::<SwarmFrame, SwarmError>(SwarmError::QueueEmpty) && final(self).view() == old(self).view()
                }
            }),
    {
        let i = self.find_for(node);
        if i < self.queue.len() {
            let frame = self.queue.remove(i);
            Ok(frame)
        } else {
            Err(SwarmError::QueueEmpty)
        }
    }

    /// Takes the first frame waiting for `node` without checking it.
    pub fn drop_for(&mut self, node: NodeId) -> (out: Result<SwarmFrame, SwarmError>)
        requires
            old(self).wf(),
        ensures
            final(self).wf(),
            final(self).telemetry() == old(self).telemetry(),
            ({
                let i = first_index(old(self).view(), frame_for(node));
                if i < old(self).view().len() {
                    out == Ok::<SwarmFrame, SwarmError>(old(self).view()[i]) && final(self).view() == old(self).view().remove(i)
                } else {
                    out == Err::<SwarmFrame, SwarmError>(SwarmError::QueueEmpty) && final(self).view() == old(self).view()
                }
            }),
    {
        self.take_for(node)
    }

    pub fn drop_telemetry(&self) -> (out: SwarmDropTelemetry)
        ensures
            out == self.telemetry(),
    {
        self.drop_telemetry
    }

    fn record_drop(&mut self, error: SwarmError)
        ensures
            final(self).view() == old(self).view(),
            final(self).telemetry() == old(self).telemetry().recorded(error),
    {
        self.drop_telemetry.record(error);
    }

    /// Takes the first frame for `node`, checks it under `security` and against the replay window;
    /// a frame that fails either check is dropped and counted.
    pub fn recv(&mut self, node: NodeId, replay: &mut ReplayWindow, security: SwarmSecurity) -> (out: Result<SwarmFrame, SwarmError>)
        requires
            old(self).wf(),
        ensures
            final(self).wf(),
            ({
                let i = first_index(old(self).view(), frame_for(node));
                if i >= old(self).view().len() {
                    out == Err::<SwarmFrame, SwarmError>(SwarmError::QueueEmpty) && final(self).view() == old(self).view()
                        && final(self).telemetry() == old(self).telemetry() && *final(replay) == *old(replay)
                } else {
                    let f = old(self).view()[i];
                    &&& final(self).view() == old(self).view().remove(i)
                    &&& match spec_frame_verify(f, security) {
                        Err(e) => out == Err::<SwarmFrame, SwarmError>(e) && *final(replay) == *old(replay)
                            && final(self).telemetry() == old(self).telemetry().recorded(e),
                        Ok(_) => match spec_replay_accept(*old(replay), f.seq) {
                            Err(e) => out == Err::<SwarmFrame, SwarmError>(e) && *final(replay) == *old(replay)
                                && final(self).telemetry() == old(self).telemetry().recorded(e),
                            Ok(w) => out == Ok::<SwarmFrame, SwarmError>(f) && *final(replay) == w
                                && final(self).telemetry() == old(self).telemetry(),
                        },
                    }
                }
            }),
    {
        let frame = self.take_for(node)?;
        match frame.verify(security) {
            Ok(()) => {},
            Err(error) => {
                self.record_drop(error);
                return Err(error);
            },
        }
        match replay.accept(frame.seq()) {
            Ok(()) => {},
            Err(error) => {
                self.record_drop(error);
                return Err(error);
            },
        }
        Ok(frame)
    }
}

impl<const N: usize> Default for HostSwarmMedium<N> {
    fn default() -> (out: Self)
        ensures
            out.wf(),
            out.view() == Seq::<SwarmFrame>::empty(),
            out.telemetry() == SwarmDropTelemetry::zero(),
    {
        Self::new()
    }
}

/// The sending half of a host transport session.
#[derive(Clone, Copy, Debug, PartialEq, Eq, Structural)]
pub struct HostSwarmTx {
    pub session_id: u32,
}

impl HostSwarmTx {
    pub fn new(session_id: u32) -> (out: Self)
        ensures
            out.session_id == session_id,
    {
        HostSwarmTx { session_id }
    }
}

/// The receiving half of a host transport session: the frame handed out last, and per-source
/// replay state with what to restore if that frame is put back.
pub struct HostSwarmRx {
    session_id: u32,
    current: Option<SwarmFrame>,
    replay: Vec<Option<(NodeId, u32)>>,
    last_replay_slot: Option<usize>,
    previous_replay_entry: Option<(NodeId, u32)>,
}

pub open spec fn replay_slot_for(src: NodeId) -> spec_fn(Option<(NodeId, u32)>) -> bool {
    |e: Option<(NodeId, u32)>| e is Some && e->Some_0.0 == src
}

pub open spec fn free_replay_slot() -> spec_fn(Option<(NodeId, u32)>) -> bool {
    |e: Option<(NodeId, u32)>| e is None
}

/// Recording `src` at `seq` in a per-source replay table: the slot used, what it held, and the table afterwards.
pub open spec fn spec_accept_transport_replay(replay: Seq<Option<(NodeId, u32)>>, src: NodeId, seq: u32) -> Result<(int, Option<(NodeId, u32)>, Seq<Option<(NodeId, u32)>>), SwarmError> {
    let i = first_index(replay, replay_slot_for(src));
    if i < replay.len() {
        if seq <= replay[i]->Some_0.1 {
            Err(SwarmError::Replay)
        } else {
            Ok((i, replay[i], replay.update(i, Some((src, seq)))))
        }
    } else {
        let j = first_index(replay, free_replay_slot());
        if j < replay.len() {
            Ok((j, None, replay.update(j, Some((src, seq)))))
        } else {
            Err(SwarmError::TableFull)
        }
    }
}

impl HostSwarmRx {
    pub closed spec fn spec_session_id(&self) -> u32 {
        self.session_id
    }

    pub closed spec fn spec_current(&self) -> Option<SwarmFrame> {
        self.current
    }

    pub closed spec fn spec_replay(&self) -> Seq<Option<(NodeId, u32)>> {
        self.replay@
    }

    pub closed spec fn spec_last_replay_slot(&self) -> Option<usize> {
        self.last_replay_slot
    }

    pub closed spec fn spec_previous_replay_entry(&self) -> Option<(NodeId, u32)> {
        self.previous_replay_entry
    }

    pub closed spec fn wf(&self) -> bool {
        &&& self.replay@.len() == HOST_SWARM_REPLAY_SOURCES
        &&& (self.last_replay_slot is Some ==> self.last_replay_slot->Some_0 < HOST_SWARM_REPLAY_SOURCES)
    }

    pub fn new(session_id: u32) -> (out: Self)
        ensures
            out.wf(),
            out.spec_session_id() == session_id,
            out.spec_current() is None,
            out.spec_replay() == Seq::new(HOST_SWARM_REPLAY_SOURCES as nat, |i: int| None::<(NodeId, u32)>),
            out.spec_last_replay_slot() is None,
            out.spec_previous_replay_entry() is None,
    {
        let mut replay: Vec<Option<(NodeId, u32)>> = Vec::new();
        let mut i: usize = 0;
        while i < HOST_SWARM_REPLAY_SOURCES
            invariant
                i <= HOST_SWARM_REPLAY_SOURCES,
                replay@ == Seq::new(i as nat, |k: int| None::<(NodeId, u32)>),
            decreases HOST_SWARM_REPLAY_SOURCES - i,
        {
            replay.push(None);
            i = i + 1;
            assert(replay@ =~= Seq::new(i as nat, |k: int| None::<(NodeId, u32)>));
        }
        HostSwarmRx { session_id, current: None, replay, last_replay_slot: None, previous_replay_entry: None }
    }

    pub fn session_id(&self) -> (out: u32)
        ensures
            out == self.spec_session_id(),
    {
        self.session_id
    }

    /// The frame handed out by the last receive, if any.
    pub fn current(&self) -> (out: &Option<SwarmFrame>)
        ensures
            *out == self.spec_current(),
    {
        &self.current
    }

    fn accept_transport_replay(&mut self, src: NodeId, seq: u32) -> (out: Result<(usize, Option<(NodeId, u32)>), SwarmError>)
        requires
            old(self).wf(),
        ensures
            final(self).wf(),
            final(self).spec_session_id() == old(self).spec_session_id(),
            final(self).spec_current() == old(self).spec_current(),
            final(self).spec_last_replay_slot() == old(self).spec_last_replay_slot(),
            final(self).spec_previous_replay_entry() == old(self).spec_previous_replay_entry(),
            out is Ok ==> out->Ok_0.0 < HOST_SWARM_REPLAY_SOURCES,
            match spec_accept_transport_replay(old(self).spec_replay(), src, seq) {
                Ok(r) => out == Ok::<(usize, Option<(NodeId, u32)>), SwarmError>((r.0 as usize, r.1))
                    && final(self).spec_replay() == r.2 && r.0 < HOST_SWARM_REPLAY_SOURCES,
                Err(e) => out == Err::<(usize, Option<(NodeId, u32)>), SwarmError>(e)
                    && final(self).spec_replay() == old(self).spec_replay(),
            },
    {
        accept_transport_replay(&mut self.replay, src, seq)
    }
}

/// Records `src` at `seq` in a per-source replay table (see `spec_accept_transport_replay`):
/// the slot used and what it held before.
pub fn accept_transport_replay(replay: &mut Vec<Option<(NodeId, u32)>>, src: NodeId, seq: u32) -> (out: Result<(usize, Option<(NodeId, u32)>), SwarmError>)
    ensures
        final(replay)@.len() == old(replay)@.len(),
        out is Ok ==> out->Ok_0.0 < old(replay)@.len(),
        match spec_accept_transport_replay(old(replay)@, src, seq) {
            Ok(r) => out == Ok::<(usize, Option<(NodeId, u32)>), SwarmError>((r.0 as usize, r.1))
                && final(replay)@ == r.2 && 0 <= r.0 < old(replay)@.len(),
            Err(e) => out == Err::<(usize, Option<(NodeId, u32)>), SwarmError>(e)
                && final(replay)@ == old(replay)@,
        },
{
    let ghost s = replay@;
    let mut empty: Option<usize> = None;
    let mut index: usize = 0;
    let n = replay.len();
    while index < n
        invariant
            s == replay@,
            s == old(replay)@,
            n == s.len(),
            index <= n,
            forall|j: int| 0 <= j < index ==> !(#[trigger] replay_slot_for(src)(s[j])),
            match empty {
                Some(e) => e < index && free_replay_slot()(s[e as int]) && forall|j: int| 0 <= j < e ==> !(#[trigger] free_replay_slot()(s[j])),
                None => forall|j: int| 0 <= j < index ==> !(#[trigger] free_replay_slot()(s[j])),
            },
        decreases n - index,
    {
        match replay[index] {
            Some(entry) => {
                if entry.0 == src {
                    proof {
                        lemma_first_index_at(s, replay_slot_for(src), index as int);
                    }
                    if seq <= entry.1 {
                        return Err(SwarmError::Replay);
                    }
                    let previous = replay[index];
                    replay.set(index, Some((src, seq)));
                    return Ok((index, previous));
                }
            },
            None => {
                if empty.is_none() {
                    empty = Some(index);
                }
            },
        }
        index = index + 1;
    }
    proof {
        lemma_first_index(s, replay_slot_for(src));
        lemma_first_index(s, free_replay_slot());
    }
    match empty {
        None => Err(SwarmError::TableFull),
        Some(e) => {
            proof {
                lemma_first_index_at(s, free_replay_slot(), e as int);
            }
            replay.set(e, Some((src, seq)));
            Ok((e, None))
        },
    }
}

/// The sequence number after `current`: it wraps past the top and skips 0.
pub open spec fn spec_next_seq(current: u32) -> u32 {
    if current == u32::MAX { 1 } else { (current + 1) as u32 }
}

/// What a receive did: the answer (`false` while nothing waits for the node), the medium's queue and
/// telemetry, and the receiver's current frame and replay table afterwards.
pub open spec fn spec_receive(
    queue: Seq<SwarmFrame>,
    telemetry: SwarmDropTelemetry,
    replay: Seq<Option<(NodeId, u32)>>,
    local_node: NodeId,
    session_id: u32,
    session_generation: u16,
    security: SwarmSecurity,
) -> (Result<bool, SwarmError>, Seq<SwarmFrame>, SwarmDropTelemetry, Option<SwarmFrame>, Seq<Option<(NodeId, u32)>>) {
    let i = first_index(queue, frame_for(local_node));
    if i >= queue.len() {
        (Ok(false), queue, telemetry, None, replay)
    } else {
        let f = queue[i];
        let rest = queue.remove(i);
        if f.session_id != session_id || f.session_generation != session_generation {
            (Err(SwarmError::BadGeneration), rest, telemetry.recorded(SwarmError::BadGeneration), None, replay)
        } else {
            match spec_frame_verify(f, security) {
                Err(e) => (Err(e), rest, telemetry.recorded(e), None, replay),
                Ok(_) => match spec_accept_transport_replay(replay, f.src_node, f.seq) {
                    Err(e) => (Err(e), rest, telemetry.recorded(e), None, replay),
                    Ok(r) => (Ok(true), rest, telemetry, Some(f), r.2),
                },
            }
        }
    }
}

fn receive_frame<const N: usize>(
    medium: &mut HostSwarmMedium<N>,
    rx: &mut HostSwarmRx,
    local_node: NodeId,
    session_generation: u16,
    security: SwarmSecurity,
) -> (out: Result<bool, SwarmError>)
    requires
        old(medium).wf(),
        old(rx).wf(),
    ensures
        final(medium).wf(),
        final(rx).wf(),
        final(rx).spec_session_id() == old(rx).spec_session_id(),
        ({
            let r = spec_receive(old(medium).view(), old(medium).telemetry(), old(rx).spec_replay(), local_node,
                old(rx).spec_session_id(), session_generation, security);
            &&& out == r.0
            &&& final(medium).view() == r.1
            &&& final(medium).telemetry() == r.2
            &&& final(rx).spec_current() == r.3
            &&& final(rx).spec_replay() == r.4
        }),
{
    rx.current = None;
    let frame = match medium.take_for(local_node) {
        Ok(frame) => frame,
        Err(_) => return Ok(false),
    };
    if frame.session_id() != rx.session_id || frame.session_generation() != session_generation {
        medium.record_drop(SwarmError::BadGeneration);
        return Err(SwarmError::BadGeneration);
    }
    match frame.verify(security) {
        Ok(()) => {},
        Err(err) => {
            medium.record_drop(err);
            return Err(err);
        },
    }
    let (slot, previous) = match rx.accept_transport_replay(frame.src_node(), frame.seq()) {
        Ok(accepted) => accepted,
        Err(err) => {
            medium.record_drop(err);
            return Err(err);
        },
    };
    rx.last_replay_slot = Some(slot);
    rx.previous_replay_entry = previous;
    rx.current = Some(frame);
    Ok(true)
}

fn requeue_frame<const N: usize>(medium: &mut HostSwarmMedium<N>, rx: &mut HostSwarmRx) -> (out: Result<(), SwarmError>)
    requires
        old(medium).wf(),
        old(rx).wf(),
    ensures
        final(medium).wf(),
        final(rx).wf(),
        final(rx).spec_current() is None,
        final(medium).telemetry() == old(medium).telemetry(),
        final(rx).spec_session_id() == old(rx).spec_session_id(),
        match old(rx).spec_current() {
            None => out is Ok && final(medium).view() == old(medium).view() && final(rx).spec_replay() == old(rx).spec_replay(),
            Some(f) => {
                &&& final(rx).spec_replay() == (match old(rx).spec_last_replay_slot() {
                    Some(slot) => old(rx).spec_replay().update(slot as int, old(rx).spec_previous_replay_entry()),
                    None => old(rx).spec_replay(),
                })
                &&& (old(medium).view().len() < N ==> out is Ok && final(medium).view() == old(medium).view().insert(0, f))
                &&& (old(medium).view().len() == N ==> out == Err::<(), SwarmError>(SwarmError::QueueFull)
                    && final(medium).view() == old(medium).view())
            },
        },
{
    let taken = rx.current.take();
    match taken {
        None => Ok(()),
        Some(frame) => {
            match rx.last_replay_slot.take() {
                Some(slot) => {
                    rx.replay.set(slot, rx.previous_replay_entry);
                },
                None => {},
            }
            medium.requeue_front(frame)
        },
    }
}

/// A host transport between this node and one peer.
#[derive(Clone, Copy, Debug, PartialEq, Eq)]
pub struct HostSwarmTransport<const N: usize> {
    pub local_node: NodeId,
    pub peer_node: NodeId,
    pub session_generation: u16,
    pub security: SwarmSecurity,
    pub next_seq: u32,
}

impl<const N: usize> HostSwarmTransport<N> {
    pub fn new(local_node: NodeId, peer_node: NodeId, session_generation: u16, security: SwarmSecurity) -> (out: Self)
        ensures
            out.local_node == local_node,
            out.peer_node == peer_node,
            out.session_generation == session_generation,
            out.security == security,
            out.next_seq == 1,
    {
        HostSwarmTransport { local_node, peer_node, session_generation, security, next_seq: 1 }
    }

    fn alloc_seq(&mut self) -> (out: u32)
        ensures
            out == old(self).next_seq,
            final(self).next_seq == spec_next_seq(old(self).next_seq),
            final(self).local_node == old(self).local_node,
            final(self).peer_node == old(self).peer_node,
            final(self).session_generation == old(self).session_generation,
            final(self).security == old(self).security,
    {
        let current = self.next_seq;
        let next = if current == u32::MAX { 1 } else { current + 1 };
        self.next_seq = next;
        current
    }

    /// Sends a payload to the peer in a new frame with the next sequence number; the number is
    /// used up even when the payload is refused.
    pub fn send(&mut self, medium: &mut HostSwarmMedium<N>, tx: HostSwarmTx, lane: u8, label: u8, payload: &[u8]) -> (out: Result<(), SwarmError>)
        requires
            old(medium).wf(),
        ensures
            final(medium).wf(),
            final(self).next_seq == spec_next_seq(old(self).next_seq),
            final(medium).telemetry() == old(medium).telemetry(),
            payload@.len() > SWARM_FRAME_PAYLOAD_CAPACITY ==> out == Err::<(), SwarmError>(SwarmError::PayloadTooLarge)
                && final(medium).view() == old(medium).view(),
            payload@.len() <= SWARM_FRAME_PAYLOAD_CAPACITY && old(medium).view().len() == N ==>
                out == Err::<(), SwarmError>(SwarmError::QueueFull) && final(medium).view() == old(medium).view(),
            payload@.len() <= SWARM_FRAME_PAYLOAD_CAPACITY && old(medium).view().len() < N ==> out is Ok
                && final(medium).view().len() == old(medium).view().len() + 1
                && final(medium).view().subrange(0, old(medium).view().len() as int) == old(medium).view()
                && ({
                    let f = final(medium).view().last();
                    &&& f.src_node == old(self).local_node && f.dst_node == old(self).peer_node
                    &&& f.session_id == tx.session_id && f.session_generation == old(self).session_generation
                    &&& f.lane == lane && f.label_hint == label && f.seq == old(self).next_seq && f.ack == 0
                    &&& f.payload@ == payload@
                    &&& spec_frame_verify(f, old(self).security) is Ok
                }),
    {
        let seq = self.alloc_seq();
        let frame = SwarmFrame::new(self.local_node, self.peer_node, tx.session_id, self.session_generation,
            lane, label, seq, 0, payload, self.security)?;
        let ghost f = frame;
        let r = medium.send(frame);
        assert(r is Ok ==> medium.view().subrange(0, medium.view().len() - 1) =~= old(medium).view());
        r
    }

    /// Receives the next frame for this node into `rx`; `Ok(false)` while nothing waits.
    pub fn recv(&self, medium: &mut HostSwarmMedium<N>, rx: &mut HostSwarmRx) -> (out: Result<bool, SwarmError>)
        requires
            old(medium).wf(),
            old(rx).wf(),
        ensures
            final(medium).wf(),
            final(rx).wf(),
            final(rx).spec_session_id() == old(rx).spec_session_id(),
            ({
                let r = spec_receive(old(medium).view(), old(medium).telemetry(), old(rx).spec_replay(), self.local_node,
                    old(rx).spec_session_id(), self.session_generation, self.security);
                &&& out == r.0
                &&& final(medium).view() == r.1
                &&& final(medium).telemetry() == r.2
                &&& final(rx).spec_current() == r.3
                &&& final(rx).spec_replay() == r.4
            }),
    {
        receive_frame(medium, rx, self.local_node, self.session_generation, self.security)
    }

    /// Puts the frame handed out last back at the front and restores the replay entry it changed.
    pub fn requeue(&self, medium: &mut HostSwarmMedium<N>, rx: &mut HostSwarmRx) -> (out: Result<(), SwarmError>)
        requires
            old(medium).wf(),
            old(rx).wf(),
        ensures
            final(medium).wf(),
            final(rx).wf(),
            final(rx).spec_current() is None,
            final(medium).telemetry() == old(medium).telemetry(),
            match old(rx).spec_current() {
                None => out is Ok && final(medium).view() == old(medium).view(),
                Some(f) => (old(medium).view().len() < N ==> out is Ok && final(medium).view() == old(medium).view().insert(0, f))
                    && (old(medium).view().len() == N ==> out is Err && final(medium).view() == old(medium).view()),
            },
    {
        requeue_frame(medium, rx)
    }

    /// The label of the next frame waiting for this node.
    pub fn recv_frame_hint(&self, medium: &HostSwarmMedium<N>) -> (out: Option<u8>)
        ensures
            ({
                let i = first_index(medium.view(), frame_for(self.local_node));
                if i < medium.view().len() {
                    out == Some(medium.view()[i].label_hint)
                } else {
                    out is None
                }
            }),
    {
        medium.peek_label(self.local_node)
    }
}

/// A host transport that addresses peers by role through a table of nodes.
#[derive(Clone, Copy, Debug, PartialEq, Eq)]
pub struct HostSwarmRoleTransport<const N: usize, const R: usize> {
    pub local_node: NodeId,
    pub role_nodes: [NodeId; R],
    pub role_count: u8,
    pub session_generation: u16,
    pub security: SwarmSecurity,
    pub next_seq: u32,
}

impl<const N: usize, const R: usize> HostSwarmRoleTransport<N, R> {
    pub fn new(local_node: NodeId, role_nodes: [NodeId; R], role_count: u8, session_generation: u16, security: SwarmSecurity) -> (out: Self)
        ensures
            out.local_node == local_node,
            out.role_nodes@ == role_nodes@,
            out.role_count == role_count,
            out.session_generation == session_generation,
            out.security == security,
            out.next_seq == 1,
    {
        HostSwarmRoleTransport { local_node, role_nodes, role_count, session_generation, security, next_seq: 1 }
    }

    pub open spec fn spec_node_for_role(&self, role: u8) -> Result<NodeId, SwarmError> {
        if role >= self.role_count || role >= R {
            Err(SwarmError::BadRole)
        } else if self.role_nodes@[role as int].0 == 0 {
            Err(SwarmError::BadNode)
        } else {
            Ok(self.role_nodes@[role as int])
        }
    }

    fn node_for_role(&self, role: u8) -> (out: Result<NodeId, SwarmError>)
        ensures
            out == self.spec_node_for_role(role),
    {
        let index = role as usize;
        if role >= self.role_count || index >= R {
            return Err(SwarmError::BadRole);
        }
        let node = self.role_nodes[index];
        if node.0 == 0 {
            return Err(SwarmError::BadNode);
        }
        Ok(node)
    }

    fn alloc_seq(&mut self) -> (out: u32)
        ensures
            out == old(self).next_seq,
            final(self).next_seq == spec_next_seq(old(self).next_seq),
            final(self).local_node == old(self).local_node,
            final(self).role_nodes == old(self).role_nodes,
            final(self).role_count == old(self).role_count,
            final(self).session_generation == old(self).session_generation,
            final(self).security == old(self).security,
    {
        let current = self.next_seq;
        let next = if current == u32::MAX { 1 } else { current + 1 };
        self.next_seq = next;
        current
    }

    /// Sends a payload to the node that holds role `peer`; no sequence number is used when the role is unknown.
    pub fn send(&mut self, medium: &mut HostSwarmMedium<N>, tx: HostSwarmTx, peer: u8, lane: u8, label: u8, payload: &[u8]) -> (out: Result<(), SwarmError>)
        requires
            old(medium).wf(),
        ensures
            final(medium).wf(),
            final(medium).telemetry() == old(medium).telemetry(),
            match old(self).spec_node_for_role(peer) {
                Err(e) => out == Err::<(), SwarmError>(e) && final(medium).view() == old(medium).view()
                    && final(self).next_seq == old(self).next_seq,
                Ok(node) => {
                    &&& final(self).next_seq == spec_next_seq(old(self).next_seq)
                    &&& (payload@.len() > SWARM_FRAME_PAYLOAD_CAPACITY ==> out == Err::<(), SwarmError>(SwarmError::PayloadTooLarge)
                        && final(medium).view() == old(medium).view())
                    &&& (payload@.len() <= SWARM_FRAME_PAYLOAD_CAPACITY && old(medium).view().len() == N ==>
                        out == Err::<(), SwarmError>(SwarmError::QueueFull) && final(medium).view() == old(medium).view())
                    &&& (payload@.len() <= SWARM_FRAME_PAYLOAD_CAPACITY && old(medium).view().len() < N ==> out is Ok
                        && final(medium).view().len() == old(medium).view().len() + 1
                        && final(medium).view().subrange(0, old(medium).view().len() as int) == old(medium).view()
                        && ({
                            let f = final(medium).view().last();
                            &&& f.src_node == old(self).local_node && f.dst_node == node
                            &&& f.session_id == tx.session_id && f.session_generation == old(self).session_generation
                            &&& f.lane == lane && f.label_hint == label && f.seq == old(self).next_seq && f.ack == 0
                            &&& f.payload@ == payload@
                            &&& spec_frame_verify(f, old(self).security) is Ok
                        }))
                },
            },
    {
        let peer_node = self.node_for_role(peer)?;
        let seq = self.alloc_seq();
        let frame = SwarmFrame::new(self.local_node, peer_node, tx.session_id, self.session_generation,
            lane, label, seq, 0, payload, self.security)?;
        let r = medium.send(frame);
        assert(r is Ok ==> medium.view().subrange(0, medium.view().len() - 1) =~= old(medium).view());
        r
    }

    pub fn recv(&self, medium: &mut HostSwarmMedium<N>, rx: &mut HostSwarmRx) -> (out: Result<bool, SwarmError>)
        requires
            old(medium).wf(),
            old(rx).wf(),
        ensures
            final(medium).wf(),
            final(rx).wf(),
            final(rx).spec_session_id() == old(rx).spec_session_id(),
            ({
                let r = spec_receive(old(medium).view(), old(medium).telemetry(), old(rx).spec_replay(), self.local_node,
                    old(rx).spec_session_id(), self.session_generation, self.security);
                &&& out == r.0
                &&& final(medium).view() == r.1
                &&& final(medium).telemetry() == r.2
                &&& final(rx).spec_current() == r.3
                &&& final(rx).spec_replay() == r.4
            }),
    {
        receive_frame(medium, rx, self.local_node, self.session_generation, self.security)
    }

    pub fn requeue(&self, medium: &mut HostSwarmMedium<N>, rx: &mut HostSwarmRx) -> (out: Result<(), SwarmError>)
        requires
            old(medium).wf(),
            old(rx).wf(),
        ensures
            final(medium).wf(),
            final(rx).wf(),
            final(rx).spec_current() is None,
            final(medium).telemetry() == old(medium).telemetry(),
            match old(rx).spec_current() {
                None => out is Ok && final(medium).view() == old(medium).view(),
                Some(f) => (old(medium).view().len() < N ==> out is Ok && final(medium).view() == old(medium).view().insert(0, f))
                    && (old(medium).view().len() == N ==> out is Err && final(medium).view() == old(medium).view()),
            },
    {
        requeue_frame(medium, rx)
    }

    pub fn recv_frame_hint(&self, medium: &HostSwarmMedium<N>) -> (out: Option<u8>)
        ensures
            ({
                let i = first_index(medium.view(), frame_for(self.local_node));
                if i < medium.view().len() {
                    out == Some(medium.view()[i].label_hint)
                } else {
                    out is None
                }
            }),
    {
        medium.peek_label(self.local_node)
    }
}

} // verus!
