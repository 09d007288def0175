//! The session facade: the adapter state, the peers keyed by side,
//! the binding rules, the control-plane protocol and the 20 ms frame
//! scheduler, as one state machine over plain values.
//!
//! All I/O stands outside. A driver probes the adapter, enumerates
//! devices, reads and writes GATT characteristics and L2CAP sockets,
//! and between those steps feeds what it saw into this state machine
//! and carries its decisions back out.

use vstd::prelude::*;

use crate::binder::BindPlan;
use crate::binder::BindSkip;
use crate::binder::DeviceSnapshot;
use crate::caps::SIDE;
use crate::caps::spec_le16;
use crate::caps::spec_side;
use crate::frames::FRAME_BYTES;
use crate::frames::PAYLOAD_BYTES;
use crate::frames::make_frame;
use crate::frames::next_seq;
use crate::frames::spec_frame;
use crate::frames::spec_next_seq;
use crate::frames::spec_start_packet;
use crate::frames::spec_status_packet;
use crate::frames::spec_stop_packet;
use crate::frames::start_packet;
use crate::frames::status_packet;
use crate::frames::stop_packet;
use crate::pipeline::FrameQueue;
use crate::pipeline::PcmRing;
use crate::pipeline::queue_wf;
use crate::pipeline::spec_channel;
use crate::props::ReadOnlyProperties;
use crate::props::rop_matches;
use crate::props::spec_rop_valid;

verus! {

/// The session's outward state: what the host adapter allows, and
/// whether audio is flowing.
#[derive(Clone, Copy, Debug, PartialEq, Eq, Structural)]
pub enum State {
    Idle,
    NoAdapter,
    InadequateBtVersion,
    BluetoothOff,
    Streaming,
}

impl Default for State {
    /// Before any adapter probe the session assumes no adapter.
    fn default() -> (r: State)
        ensures
            r is NoAdapter,
    {
        State::NoAdapter
    }
}

/// Which ears are bound, as one derived summary.
#[allow(non_camel_case_types)]
#[derive(Clone, Copy, Debug, PartialEq, Eq, Hash, Structural)]
pub enum DevicesConnected {
    NONE,
    LEFT,
    RIGHT,
    BOTH,
}

impl Default for DevicesConnected {
    /// Before binding no device is connected.
    fn default() -> (r: DevicesConnected)
        ensures
            r is NONE,
    {
        DevicesConnected::NONE
    }
}

/// The control-plane state of one peer: Start written and awaiting
/// acknowledgement, acknowledged and streaming, or faulted.
#[derive(Clone, Copy, Debug, PartialEq, Eq, Structural)]
pub enum ControlState {
    Idle,
    Waiting,
    Streaming,
    Faulted,
}

/// One bound ear: its address, audio channel PSM, decoded properties,
/// control-plane state, sequence counter, PCM ring, payload queue and
/// the repeat-last bookkeeping of the scheduler.
#[derive(Debug)]
pub struct Peer {
    pub addr: u64,
    pub psm: u16,
    pub props: ReadOnlyProperties,
    pub control: ControlState,
    pub seq: u8,
    pub ring: PcmRing,
    pub queue: FrameQueue,
    /// The last payload sent, rewritten when the queue runs dry to
    /// preserve cadence.
    pub last_payload: Option<Vec<u8>>,
    /// Consecutive rewrites of `last_payload`; three signal a stalled
    /// producer.
    pub repeats: u8,
    /// The most recent Audio Status byte the driver reported.
    pub last_status: Option<u8>,
}

/// A bound peer carries validated properties, a well-formed queue, a
/// 160-byte retained payload if any, and at most three counted repeats.
pub open spec fn peer_wf(p: Peer) -> bool {
    &&& spec_rop_valid(p.props)
    &&& queue_wf(p.queue@)
    &&& (p.last_payload matches Some(l) ==> l@.len() == PAYLOAD_BYTES)
    &&& p.repeats <= 3
}

/// The session facade. It owns the peers exclusively; at most one per
/// side, by construction.
#[derive(Debug)]
pub struct ASHA {
    pub state: State,
    pub left: Option<Peer>,
    pub right: Option<Peer>,
    /// Addresses of the devices bound so far.
    pub addresses: Vec<u64>,
}

pub open spec fn spec_adapter_state(powered: Option<bool>) -> State {
    match powered {
        None => State::NoAdapter,
        Some(false) => State::BluetoothOff,
        Some(true) => State::Idle,
    }
}

impl ASHA {
    /// Every stored peer serves the side it is keyed under and is
    /// well-formed; while streaming, every remaining peer has an
    /// acknowledged Start.
    pub open spec fn wf(self) -> bool {
        &&& (self.left matches Some(p) ==> peer_wf(p) && p.props.capabilities.side is LEFT)
        &&& (self.right matches Some(p) ==> peer_wf(p) && p.props.capabilities.side is RIGHT)
        &&& (self.state is Streaming ==> (self.left matches Some(p) ==> p.control is Streaming))
        &&& (self.state is Streaming ==> (self.right matches Some(p) ==> p.control is Streaming))
    }

    /// Whether any ear is bound.
    pub open spec fn spec_has_peers(self) -> bool {
        self.left is Some || self.right is Some
    }

    /// Classifies an adapter probe: no session or adapter reachable
    /// maps to NoAdapter, otherwise the powered flag decides between
    /// BluetoothOff and Idle.
    pub fn get_adapter_state(powered: Option<bool>) -> (r: State)
        ensures
            r == spec_adapter_state(powered),
    {
        match powered {
            None => State::NoAdapter,
            Some(false) => State::BluetoothOff,
            Some(true) => State::Idle,
        }
    }

    /// A fresh session around one adapter probe: no peers, no bound
    /// addresses.
    pub fn new(powered: Option<bool>) -> (r: ASHA)
        ensures
            r.state == spec_adapter_state(powered),
            r.left is None,
            r.right is None,
            r.addresses@ == Seq::<u64>::empty(),
            r.wf(),
    {
        let r = ASHA {
            state: ASHA::get_adapter_state(powered),
            left: None,
            right: None,
            addresses: Vec::new(),
        };
        proof {
            assert(r.addresses@ =~= Seq::<u64>::empty());
        }
        r
    }

    /// The current session state.
    pub fn get_state(&self) -> (r: State)
        ensures
            r == self.state,
    {
        self.state
    }

    /// Which ears are currently bound.
    pub fn get_devices_connected(&self) -> (r: DevicesConnected)
        ensures
            self.left is Some && self.right is Some ==> r is BOTH,
            self.left is Some && self.right is None ==> r is LEFT,
            self.left is None && self.right is Some ==> r is RIGHT,
            self.left is None && self.right is None ==> r is NONE,
    {
        match (&self.left, &self.right) {
            (Option::Some(_), Option::Some(_)) => DevicesConnected::BOTH,
            (Option::Some(_), Option::None) => DevicesConnected::LEFT,
            (Option::None, Option::Some(_)) => DevicesConnected::RIGHT,
            (Option::None, Option::None) => DevicesConnected::NONE,
        }
    }

    /// Folds a fresh adapter probe into the session state. While
    /// streaming the probe is ignored: a transient probe failure must
    /// not disrupt the stream.
    pub fn update_state(&mut self, powered: Option<bool>)
        ensures
            old(self).state is Streaming ==> *final(self) == *old(self),
            !(old(self).state is Streaming) ==> {
                &&& final(self).state == spec_adapter_state(powered)
                &&& final(self).left == old(self).left
                &&& final(self).right == old(self).right
                &&& final(self).addresses == old(self).addresses
            },
            old(self).wf() ==> final(self).wf(),
    {
        match self.state {
            State::Streaming => (),
            _ => {
                self.state = ASHA::get_adapter_state(powered);
            },
        }
    }

    /// Drops every peer. The driver shuts the sockets; afterwards no
    /// peer remains and the adapter state is untouched.
    pub fn close_l2cap(&mut self)
        ensures
            final(self).left is None,
            final(self).right is None,
            final(self).state == old(self).state,
            final(self).addresses == old(self).addresses,
            final(self).wf(),
    {
        self.left = None;
        self.right = None;
    }
}

/// A GATT write the driver must perform: the payload goes to the
/// Audio Control Point of the peer on `side`.
#[derive(Clone, Debug)]
pub struct ControlWrite {
    pub side: SIDE,
    pub payload: Vec<u8>,
}

/// Why a Start could not be carried out.
#[derive(Clone, Copy, Debug, PartialEq, Eq, Structural)]
pub enum StartError {
    /// No ear is bound.
    NoPeers,
    /// No ear acknowledged the Start command.
    AllPeersFaulted,
    /// A control-plane write failed at the transport.
    ControlWriteFailed,
}

/// The ReadOnlyProperties bytes pass the binding checks: version 1,
/// credit-based flow control supported, G.722 at 16 kHz advertised.
pub open spec fn spec_ropc_ok(data: Seq<u8>) -> bool {
    &&& data[0] == 0x01
    &&& data[10] % 2 == 1
    &&& (spec_le16(data[15], data[16]) / 2) % 2 == 1
}

/// A peer freshly bound from `snap`: control idle, counter at zero,
/// empty ring and queue.
pub open spec fn spec_new_peer(p: Peer, snap: DeviceSnapshot) -> bool {
    &&& p.addr == snap.addr
    &&& p.psm == spec_le16(snap.psmc@[0], snap.psmc@[1])
    &&& rop_matches(p.props, snap.ropc@)
    &&& p.control is Idle
    &&& p.seq == 0
    &&& p.ring@ == Seq::<i16>::empty()
    &&& p.queue@ == Seq::<Seq<u8>>::empty()
    &&& p.last_payload is None
    &&& p.repeats == 0
    &&& p.last_status is None
}

/// A peer to which Start was just written: waiting for the status
/// read, sequence counter reset, repeat bookkeeping cleared.
pub open spec fn spec_started_peer(o: Peer, n: Peer) -> bool {
    &&& n.addr == o.addr
    &&& n.psm == o.psm
    &&& n.props == o.props
    &&& n.control is Waiting
    &&& n.seq == 0
    &&& n.ring@ == o.ring@
    &&& n.queue@ == o.queue@
    &&& n.last_payload is None
    &&& n.repeats == 0
    &&& n.last_status == o.last_status
}

/// A peer after Stop: control idle again, scheduler bookkeeping
/// flushed, the sequence counter left as it stood.
pub open spec fn spec_stopped_peer(o: Peer, n: Peer) -> bool {
    &&& n.addr == o.addr
    &&& n.psm == o.psm
    &&& n.props == o.props
    &&& n.control is Idle
    &&& n.seq == o.seq
    &&& n.ring@ == o.ring@
    &&& n.queue@ == Seq::<Seq<u8>>::empty()
    &&& n.last_payload is None
    &&& n.repeats == 0
    &&& n.last_status == o.last_status
}

/// A peer whose freshly reported Audio Status byte has been folded in:
/// a peer awaiting acknowledgement moves to Streaming on 0 and to
/// Faulted otherwise; any other control state only records the byte.
pub open spec fn spec_status_applied(o: Peer, n: Peer, status: u8) -> bool {
    &&& n.addr == o.addr
    &&& n.psm == o.psm
    &&& n.props == o.props
    &&& n.seq == o.seq
    &&& n.ring@ == o.ring@
    &&& n.queue@ == o.queue@
    &&& n.last_payload == o.last_payload
    &&& n.repeats == o.repeats
    &&& n.last_status == Some(status)
    &&& n.control == (if o.control is Waiting {
        if status == 0 {
            ControlState::Streaming
        } else {
            ControlState::Faulted
        }
    } else {
        o.control
    })
}

impl ASHA {
    /// Whether this ear's slot is still free.
    pub open spec fn spec_side_free(self, side: SIDE) -> bool {
        match side {
            SIDE::LEFT => self.left is None,
            SIDE::RIGHT => self.right is None,
        }
    }

    /// The first reason to skip a candidate device, if any: the checks
    /// of the binding algorithm in their order. `None` means the device
    /// qualifies and only the socket connection remains.
    pub open spec fn spec_skip(self, snap: DeviceSnapshot) -> Option<BindSkip> {
        if self.state is Streaming {
            Some(BindSkip::SessionStreaming)
        } else if self.addresses@.contains(snap.addr) {
            Some(BindSkip::AlreadyBound)
        } else if !snap.is_connected {
            Some(BindSkip::NotConnected)
        } else if !snap.services_resolved {
            Some(BindSkip::ServicesUnresolved)
        } else if !snap.advertises_asha {
            Some(BindSkip::NoAshaService)
        } else if !(snap.has_ropc && snap.has_acpc && snap.has_astc && snap.has_volc
            && snap.has_psmc) {
            Some(BindSkip::MissingCharacteristic)
        } else if !(snap.ropc@.len() == 17 && spec_ropc_ok(snap.ropc@)) {
            Some(BindSkip::BadProperties)
        } else if snap.psmc@.len() != 2 {
            Some(BindSkip::BadPsm)
        } else if !self.spec_side_free(spec_side(snap.ropc@[1])) {
            Some(BindSkip::SideTaken)
        } else {
            None
        }
    }

    /// Whether this address is already bound.
    pub fn is_bound(&self, addr: u64) -> (r: bool)
        ensures
            r == self.addresses@.contains(addr),
    {
        let mut i: usize = 0;
        while i < self.addresses.len()
            invariant
                i <= self.addresses@.len(),
                forall|j: int| 0 <= j < i ==> self.addresses@[j] != addr,
            decreases self.addresses@.len() - i,
        {
            if self.addresses[i] == addr {
                proof {
                    assert(self.addresses@[i as int] == addr);
                }
                return true;
            }
            i = i + 1;
        }
        false
    }

    /// Applies the binding checks to one candidate device: skip it for
    /// the first failing check, or hand back the plan for the L2CAP
    /// connection.
    pub fn evaluate_device(&self, snap: &DeviceSnapshot) -> (r: Result<BindPlan, BindSkip>)
        ensures
            r is Err <==> self.spec_skip(*snap) is Some,
            r matches Err(e) ==> Some(e) == self.spec_skip(*snap),
            r matches Ok(plan) ==> {
                &&& rop_matches(plan.props, snap.ropc@)
                &&& spec_rop_valid(plan.props)
                &&& plan.side == spec_side(snap.ropc@[1])
                &&& plan.psm == spec_le16(snap.psmc@[0], snap.psmc@[1])
            },
    {
        if matches!(self.state, State::Streaming) {
            return Err(BindSkip::SessionStreaming);
        }
        if self.is_bound(snap.addr) {
            return Err(BindSkip::AlreadyBound);
        }
        if !snap.is_connected {
            return Err(BindSkip::NotConnected);
        }
        if !snap.services_resolved {
            return Err(BindSkip::ServicesUnresolved);
        }
        if !snap.advertises_asha {
            return Err(BindSkip::NoAshaService);
        }
        if !(snap.has_ropc && snap.has_acpc && snap.has_astc && snap.has_volc && snap.has_psmc) {
            return Err(BindSkip::MissingCharacteristic);
        }
        let props = match ReadOnlyProperties::parse(&snap.ropc) {
            Option::Some(p) => p,
            Option::None => {
                return Err(BindSkip::BadProperties);
            },
        };
        if !props.is_valid() {
            return Err(BindSkip::BadProperties);
        }
        if snap.psmc.len() != 2 {
            return Err(BindSkip::BadPsm);
        }
        let psm: u16 = snap.psmc[0] as u16 + snap.psmc[1] as u16 * 256;
        let side = props.capabilities.side;
        let free = match side {
            SIDE::LEFT => self.left.is_none(),
            SIDE::RIGHT => self.right.is_none(),
        };
        if !free {
            return Err(BindSkip::SideTaken);
        }
        Ok(BindPlan { side, psm, props })
    }

    /// Folds the outcome of one candidate device into the session:
    /// re-runs the binding checks, and if the device qualified and the
    /// driver connected its L2CAP socket, binds it under its side. A
    /// device that failed any step is skipped and its address stays
    /// unrecorded, so a later pass may retry it.
    pub fn update_devices(&mut self, snap: &DeviceSnapshot, socket_connected: bool) -> (r: Result<
        SIDE,
        BindSkip,
    >)
        requires
            old(self).wf(),
        ensures
            final(self).wf(),
            old(self).spec_skip(*snap) matches Some(e) ==> r == Result::<SIDE, BindSkip>::Err(e)
                && *final(self) == *old(self),
            old(self).spec_skip(*snap) is None && !socket_connected ==> r == Result::<
                SIDE,
                BindSkip,
            >::Err(BindSkip::ConnectFailed) && *final(self) == *old(self),
            old(self).spec_skip(*snap) is None && socket_connected ==> {
                &&& r == Result::<SIDE, BindSkip>::Ok(spec_side(snap.ropc@[1]))
                &&& final(self).state == old(self).state
                &&& final(self).addresses@ == old(self).addresses@.push(snap.addr)
                &&& (spec_side(snap.ropc@[1]) is LEFT ==> final(self).right == old(self).right
                    && (final(self).left matches Some(p) && spec_new_peer(p, *snap)))
                &&& (spec_side(snap.ropc@[1]) is RIGHT ==> final(self).left == old(self).left && (
                final(self).right matches Some(p) && spec_new_peer(p, *snap)))
            },
    {
        let plan = match self.evaluate_device(snap) {
            Result::Ok(plan) => plan,
            Result::Err(e) => {
                return Err(e);
            },
        };
        if !socket_connected {
            return Err(BindSkip::ConnectFailed);
        }
        let peer = Peer {
            addr: snap.addr,
            psm: plan.psm,
            props: plan.props,
            control: ControlState::Idle,
            seq: 0,
            ring: PcmRing::new(),
            queue: FrameQueue::new(),
            last_payload: None,
            repeats: 0,
            last_status: None,
        };
        self.addresses.push(snap.addr);
        let side = plan.side;
        match side {
            SIDE::LEFT => {
                self.left = Some(peer);
            },
            SIDE::RIGHT => {
                self.right = Some(peer);
            },
        }
        Ok(side)
    }

    /// Writes Start to every bound peer: emits the Start command for
    /// each, with the other-ear flag set exactly when both ears are
    /// bound, resets every sequence counter, and leaves each peer
    /// awaiting its status read. With no peers bound the session is
    /// unchanged.
    pub fn issue_start_command(&mut self) -> (r: Result<Vec<ControlWrite>, StartError>)
        requires
            old(self).wf(),
            !(old(self).state is Streaming),
        ensures
            final(self).wf(),
            !old(self).spec_has_peers() ==> r == Result::<Vec<ControlWrite>, StartError>::Err(
                StartError::NoPeers,
            ) && *final(self) == *old(self),
            old(self).spec_has_peers() ==> (r matches Ok(w) && {
                let both = old(self).left is Some && old(self).right is Some;
                &&& final(self).state == old(self).state
                &&& final(self).addresses == old(self).addresses
                &&& w@.len() == (if both {
                    2int
                } else {
                    1int
                })
                &&& (old(self).left matches Some(p) ==> w@[0].side is LEFT && w@[0].payload@
                    == spec_start_packet(both) && (final(self).left matches Some(q)
                    && spec_started_peer(p, q)))
                &&& (old(self).left is None ==> final(self).left is None)
                &&& (old(self).right matches Some(p) ==> w@[w@.len() - 1].side is RIGHT && w@[w@.len()
                    - 1].payload@ == spec_start_packet(both) && (final(self).right matches Some(q)
                    && spec_started_peer(p, q)))
                &&& (old(self).right is None ==> final(self).right is None)
            }),
    {
        if self.left.is_none() && self.right.is_none() {
            return Err(StartError::NoPeers);
        }
        let both = self.left.is_some() && self.right.is_some();
        let mut writes: Vec<ControlWrite> = Vec::new();
        match &mut self.left {
            Option::Some(p) => {
                p.control = ControlState::Waiting;
                p.seq = 0;
                p.repeats = 0;
                p.last_payload = None;
                writes.push(ControlWrite { side: SIDE::LEFT, payload: start_packet(both) });
            },
            Option::None => {},
        }
        match &mut self.right {
            Option::Some(p) => {
                p.control = ControlState::Waiting;
                p.seq = 0;
                p.repeats = 0;
                p.last_payload = None;
                writes.push(ControlWrite { side: SIDE::RIGHT, payload: start_packet(both) });
            },
            Option::None => {},
        }
        Ok(writes)
    }

    /// Folds one Audio Status byte the driver read into the peer on
    /// `side`: a peer awaiting acknowledgement moves to Streaming on 0
    /// and to Faulted otherwise; for any other control state the byte
    /// is only recorded.
    pub fn record_status(&mut self, side: SIDE, status: u8)
        requires
            old(self).wf(),
        ensures
            final(self).wf(),
            final(self).state == old(self).state,
            final(self).addresses == old(self).addresses,
            side is LEFT ==> final(self).right == old(self).right,
            side is RIGHT ==> final(self).left == old(self).left,
            side is LEFT ==> (old(self).left is None ==> final(self).left is None) && (old(self).left matches Some(p) ==> (final(self).left matches Some(q) && spec_status_applied(
                p,
                q,
                status,
            ))),
            side is RIGHT ==> (old(self).right is None ==> final(self).right is None) && (old(self).right matches Some(p) ==> (final(self).right matches Some(q) && spec_status_applied(
                p,
                q,
                status,
            ))),
    {
        let slot = match side {
            SIDE::LEFT => &mut self.left,
            SIDE::RIGHT => &mut self.right,
        };
        match slot {
            Option::Some(p) => {
                p.last_status = Some(status);
                match p.control {
                    ControlState::Waiting => {
                        if status == 0 {
                            p.control = ControlState::Streaming;
                        } else {
                            p.control = ControlState::Faulted;
                        }
                    },
                    _ => {},
                }
            },
            Option::None => {},
        }
    }

    /// Marks the peer on `side` faulted if its Start is still
    /// unacknowledged; a control write that failed elsewhere is
    /// best-effort and changes nothing.
    pub fn control_write_failed(&mut self, side: SIDE)
        requires
            old(self).wf(),
        ensures
            final(self).wf(),
            final(self).state == old(self).state,
            final(self).addresses == old(self).addresses,
            side is LEFT ==> final(self).right == old(self).right,
            side is RIGHT ==> final(self).left == old(self).left,
            side is LEFT ==> (old(self).left is None ==> final(self).left is None) && (old(self).left matches Some(p) ==> (final(self).left matches Some(q) && spec_write_failed(
                p,
                q,
            ))),
            side is RIGHT ==> (old(self).right is None ==> final(self).right is None) && (old(self).right matches Some(p) ==> (final(self).right matches Some(q) && spec_write_failed(
                p,
                q,
            ))),
    {
        let slot = match side {
            SIDE::LEFT => &mut self.left,
            SIDE::RIGHT => &mut self.right,
        };
        match slot {
            Option::Some(p) => {
                match p.control {
                    ControlState::Waiting => {
                        p.control = ControlState::Faulted;
                    },
                    _ => {},
                }
            },
            Option::None => {},
        }
    }

    /// Settles a Start round: peers with an acknowledged Start stay,
    /// every other peer is dropped from the active set. If at least
    /// one peer acknowledged, the session streams; otherwise it falls
    /// back to idle.
    pub fn finish_start(&mut self) -> (r: Result<(), StartError>)
        requires
            old(self).wf(),
        ensures
            final(self).wf(),
            final(self).addresses == old(self).addresses,
            (old(self).left matches Some(p) && p.control is Streaming) ==> final(self).left == old(self).left,
            !(old(self).left matches Some(p) && p.control is Streaming) ==> final(self).left
                is None,
            (old(self).right matches Some(p) && p.control is Streaming) ==> final(self).right
                == old(self).right,
            !(old(self).right matches Some(p) && p.control is Streaming) ==> final(self).right
                is None,
            spec_any_streaming(*old(self)) ==> r == Result::<(), StartError>::Ok(()) && final(self).state is Streaming,
            !spec_any_streaming(*old(self)) ==> r == Result::<(), StartError>::Err(
                StartError::AllPeersFaulted,
            ) && final(self).state is Idle,
    {
        let left_ok = match &self.left {
            Option::Some(p) => matches!(p.control, ControlState::Streaming),
            Option::None => false,
        };
        let right_ok = match &self.right {
            Option::Some(p) => matches!(p.control, ControlState::Streaming),
            Option::None => false,
        };
        if !left_ok {
            self.left = None;
        }
        if !right_ok {
            self.right = None;
        }
        if left_ok || right_ok {
            self.state = State::Streaming;
            Ok(())
        } else {
            self.state = State::Idle;
            Err(StartError::AllPeersFaulted)
        }
    }

    /// Emits the Status command for every bound peer.
    pub fn issue_status_command(&self, code: u8) -> (w: Vec<ControlWrite>)
        ensures
            w@.len() == (if self.left is Some {
                1int
            } else {
                0int
            }) + (if self.right is Some {
                1int
            } else {
                0int
            }),
            self.left is Some ==> w@[0].side is LEFT && w@[0].payload@ == spec_status_packet(code),
            self.right is Some ==> w@[w@.len() - 1].side is RIGHT && w@[w@.len() - 1].payload@
                == spec_status_packet(code),
    {
        let mut writes: Vec<ControlWrite> = Vec::new();
        if self.left.is_some() {
            writes.push(ControlWrite { side: SIDE::LEFT, payload: status_packet(code) });
        }
        if self.right.is_some() {
            writes.push(ControlWrite { side: SIDE::RIGHT, payload: status_packet(code) });
        }
        writes
    }

    /// The most recent Audio Status byte of each bound peer, left
    /// before right.
    pub fn get_device_statuses(&self) -> (r: Vec<(SIDE, u8)>)
        ensures
            r@.len() == (if self.left matches Some(p) && p.last_status is Some {
                1int
            } else {
                0int
            }) + (if self.right matches Some(p) && p.last_status is Some {
                1int
            } else {
                0int
            }),
            self.left matches Some(p) ==> (p.last_status matches Some(st) ==> r@[0] == (
                SIDE::LEFT,
                st,
            )),
            self.right matches Some(p) ==> (p.last_status matches Some(st) ==> r@[r@.len() - 1]
                == (SIDE::RIGHT, st)),
    {
        let mut out: Vec<(SIDE, u8)> = Vec::new();
        match &self.left {
            Option::Some(p) => {
                match p.last_status {
                    Option::Some(st) => {
                        out.push((SIDE::LEFT, st));
                    },
                    Option::None => {},
                }
            },
            Option::None => {},
        }
        match &self.right {
            Option::Some(p) => {
                match p.last_status {
                    Option::Some(st) => {
                        out.push((SIDE::RIGHT, st));
                    },
                    Option::None => {},
                }
            },
            Option::None => {},
        }
        out
    }

    /// Writes Stop to every bound peer, flushes the scheduler
    /// bookkeeping, and returns the session to idle; the scheduler
    /// emits nothing afterwards.
    pub fn issue_stop_command(&mut self) -> (w: Vec<ControlWrite>)
        requires
            old(self).wf(),
        ensures
            final(self).wf(),
            final(self).state is Idle,
            final(self).addresses == old(self).addresses,
            w@.len() == (if old(self).left is Some {
                1int
            } else {
                0int
            }) + (if old(self).right is Some {
                1int
            } else {
                0int
            }),
            old(self).left matches Some(p) ==> w@[0].side is LEFT && w@[0].payload@
                == spec_stop_packet() && (final(self).left matches Some(q) && spec_stopped_peer(
                p,
                q,
            )),
            old(self).left is None ==> final(self).left is None,
            old(self).right matches Some(p) ==> w@[w@.len() - 1].side is RIGHT && w@[w@.len()
                - 1].payload@ == spec_stop_packet() && (final(self).right matches Some(q)
                && spec_stopped_peer(p, q)),
            old(self).right is None ==> final(self).right is None,
    {
        let mut writes: Vec<ControlWrite> = Vec::new();
        match &mut self.left {
            Option::Some(p) => {
                p.control = ControlState::Idle;
                p.queue = FrameQueue::new();
                p.last_payload = None;
                p.repeats = 0;
                writes.push(ControlWrite { side: SIDE::LEFT, payload: stop_packet() });
            },
            Option::None => {},
        }
        match &mut self.right {
            Option::Some(p) => {
                p.control = ControlState::Idle;
                p.queue = FrameQueue::new();
                p.last_payload = None;
                p.repeats = 0;
                writes.push(ControlWrite { side: SIDE::RIGHT, payload: stop_packet() });
            },
            Option::None => {},
        }
        self.state = State::Idle;
        writes
    }

    /// Drops the peer on `side` after its L2CAP transport failed.
    /// The other ear streams on with its own sequence; when no peer
    /// remains the session falls back to idle.
    pub fn transport_lost(&mut self, side: SIDE) -> (any_left: bool)
        requires
            old(self).wf(),
        ensures
            final(self).wf(),
            final(self).addresses == old(self).addresses,
            side is LEFT ==> final(self).left is None && final(self).right == old(self).right,
            side is RIGHT ==> final(self).right is None && final(self).left == old(self).left,
            any_left == final(self).spec_has_peers(),
            any_left ==> final(self).state == old(self).state,
            !any_left ==> final(self).state == (if old(self).state is Streaming {
                State::Idle
            } else {
                old(self).state
            }),
    {
        match side {
            SIDE::LEFT => {
                self.left = None;
            },
            SIDE::RIGHT => {
                self.right = None;
            },
        }
        let any = self.left.is_some() || self.right.is_some();
        if !any {
            if matches!(self.state, State::Streaming) {
                self.state = State::Idle;
            }
        }
        any
    }
}

/// A framed L2CAP write the driver must perform on the audio socket
/// of the peer on `side`; the frame is always 161 bytes.
#[derive(Clone, Debug)]
pub struct FrameWrite {
    pub side: SIDE,
    pub frame: Vec<u8>,
}

/// Whether the scheduler has something to write for this peer: it
/// streams, and either a payload is queued or the last payload can
/// still be repeated.
pub open spec fn spec_tick_emits(p: Peer) -> bool {
    &&& p.control is Streaming
    &&& (p.queue@.len() > 0 || (p.last_payload is Some && p.repeats < 3))
}

/// The frame the scheduler writes for this peer on its next slot: the
/// current sequence byte, then the queued payload, or the last payload
/// again when the queue ran dry.
pub open spec fn spec_tick_frame(p: Peer) -> Seq<u8> {
    spec_frame(
        p.seq,
        if p.queue@.len() > 0 {
            p.queue@[0]
        } else {
            p.last_payload->0@
        },
    )
}

/// How one scheduler slot changes a peer. A peer that emits consumes
/// the queued payload (or counts a repeat) and steps its sequence
/// counter; one that does not emit is untouched. The control state,
/// identity and PCM ring never change.
pub open spec fn spec_tick_rel(o: Peer, n: Peer) -> bool {
    &&& n.addr == o.addr
    &&& n.psm == o.psm
    &&& n.props == o.props
    &&& n.control == o.control
    &&& n.ring@ == o.ring@
    &&& n.last_status == o.last_status
    &&& if o.control is Streaming && o.queue@.len() > 0 {
        &&& n.queue@ == o.queue@.drop_first()
        &&& (n.last_payload matches Some(l) && l@ == o.queue@[0])
        &&& n.repeats == 0
        &&& n.seq == spec_next_seq(o.seq)
    } else if o.control is Streaming && o.queue@.len() == 0 && o.last_payload is Some
        && o.repeats < 3 {
        &&& n.queue@ == o.queue@
        &&& (n.last_payload matches Some(l) && l@ == o.last_payload->0@)
        &&& n.repeats == o.repeats + 1
        &&& n.seq == spec_next_seq(o.seq)
    } else {
        &&& n.queue@ == o.queue@
        &&& n.last_payload == o.last_payload
        &&& n.repeats == o.repeats
        &&& n.seq == o.seq
    }
}

/// One slot applied to one optional peer slot.
pub open spec fn spec_tick_opt_rel(o: Option<Peer>, n: Option<Peer>) -> bool {
    &&& (o is None ==> n is None)
    &&& (o matches Some(p) ==> (n matches Some(q) && spec_tick_rel(p, q)))
}

/// How many frames one scheduler slot emits for this session.
pub open spec fn spec_emit_count(s: ASHA) -> int {
    (if s.left matches Some(p) && spec_tick_emits(p) {
        1int
    } else {
        0int
    }) + (if s.right matches Some(p) && spec_tick_emits(p) {
        1int
    } else {
        0int
    })
}

impl Peer {
    /// One scheduler slot for this peer: dequeue the next payload and
    /// frame it under the current sequence number, or repeat the last
    /// payload (at most three times in a row) to preserve cadence.
    fn tick(&mut self) -> (r: Option<Vec<u8>>)
        requires
            peer_wf(*old(self)),
        ensures
            peer_wf(*final(self)),
            spec_tick_rel(*old(self), *final(self)),
            spec_tick_emits(*old(self)) ==> (r matches Some(f) && f@ == spec_tick_frame(
                *old(self),
            ) && f@.len() == FRAME_BYTES),
            !spec_tick_emits(*old(self)) ==> r is None,
    {
        if !matches!(self.control, ControlState::Streaming) {
            return None;
        }
        match self.queue.dequeue() {
            Option::Some(p) => {
                let f = make_frame(self.seq, &p);
                self.last_payload = Some(p);
                self.repeats = 0;
                self.seq = next_seq(self.seq);
                Some(f)
            },
            Option::None => {
                if self.repeats < 3 {
                    match &self.last_payload {
                        Option::Some(l) => {
                            let f = make_frame(self.seq, l);
                            self.repeats = self.repeats + 1;
                            self.seq = next_seq(self.seq);
                            Some(f)
                        },
                        Option::None => None,
                    }
                } else {
                    None
                }
            },
        }
    }
}

impl ASHA {
    /// One 20 ms scheduler slot: while streaming, emits the next frame
    /// for the left ear and then the right ear; after a Stop (or any
    /// non-streaming state) it emits nothing and changes nothing.
    pub fn send_audio_packet(&mut self) -> (writes: Vec<FrameWrite>)
        requires
            old(self).wf(),
        ensures
            final(self).wf(),
            !(old(self).state is Streaming) ==> *final(self) == *old(self) && writes@.len() == 0,
            old(self).state is Streaming ==> {
                &&& final(self).state == old(self).state
                &&& final(self).addresses == old(self).addresses
                &&& spec_tick_opt_rel(old(self).left, final(self).left)
                &&& spec_tick_opt_rel(old(self).right, final(self).right)
                &&& writes@.len() == spec_emit_count(*old(self))
                &&& (old(self).left matches Some(p) ==> (spec_tick_emits(p) ==> writes@[0].side
                    is LEFT && writes@[0].frame@ == spec_tick_frame(p)))
                &&& (old(self).right matches Some(p) ==> (spec_tick_emits(p) ==> writes@[writes@.len()
                    - 1].side is RIGHT && writes@[writes@.len() - 1].frame@ == spec_tick_frame(p)))
                &&& (forall|i: int|
                    0 <= i < writes@.len() ==> (#[trigger] writes@[i]).frame@.len() == FRAME_BYTES)
            },
    {
        let mut writes: Vec<FrameWrite> = Vec::new();
        if !matches!(self.state, State::Streaming) {
            return writes;
        }
        match &mut self.left {
            Option::Some(p) => {
                match p.tick() {
                    Option::Some(f) => {
                        writes.push(FrameWrite { side: SIDE::LEFT, frame: f });
                    },
                    Option::None => {},
                }
            },
            Option::None => {},
        }
        match &mut self.right {
            Option::Some(p) => {
                match p.tick() {
                    Option::Some(f) => {
                        writes.push(FrameWrite { side: SIDE::RIGHT, frame: f });
                    },
                    Option::None => {},
                }
            },
            Option::None => {},
        }
        writes
    }

    /// Whether a streaming peer has repeated its last payload three
    /// times in a row: the producer has stalled and the driver should
    /// stop the session.
    pub fn producer_stalled(&self) -> (r: bool)
        ensures
            r == ((self.left matches Some(p) && p.control is Streaming && p.repeats >= 3) || (
            self.right matches Some(p) && p.control is Streaming && p.repeats >= 3)),
    {
        let left_stalled = match &self.left {
            Option::Some(p) => matches!(p.control, ControlState::Streaming) && p.repeats >= 3,
            Option::None => false,
        };
        let right_stalled = match &self.right {
            Option::Some(p) => matches!(p.control, ControlState::Streaming) && p.repeats >= 3,
            Option::None => false,
        };
        left_stalled || right_stalled
    }
}

/// A peer whose PCM ring just took `s`; nothing else moved.
pub open spec fn spec_fed_rel(o: Peer, n: Peer, s: Seq<i16>) -> bool {
    &&& n.addr == o.addr
    &&& n.psm == o.psm
    &&& n.props == o.props
    &&& n.control == o.control
    &&& n.seq == o.seq
    &&& n.ring@ == o.ring@ + s
    &&& n.queue@ == o.queue@
    &&& n.last_payload == o.last_payload
    &&& n.repeats == o.repeats
    &&& n.last_status == o.last_status
}

/// `s` appended to one optional peer slot.
pub open spec fn spec_fed_opt_rel(o: Option<Peer>, n: Option<Peer>, s: Seq<i16>) -> bool {
    &&& (o is None ==> n is None)
    &&& (o matches Some(p) ==> (n matches Some(q) && spec_fed_rel(p, q, s)))
}

/// The chunk and channel count the capture back-end delivered fit this
/// session: a mono chunk always does; a stereo chunk needs both ears
/// bound and a whole number of sample pairs.
pub open spec fn spec_feed_ok(s: ASHA, chunk: Seq<i16>, channels: usize) -> bool {
    ||| channels == 1
    ||| (channels == 2 && s.left is Some && s.right is Some && chunk.len() % 2 == 0)
}

impl ASHA {
    /// Accepts one PCM chunk from the capture back-end. A mono chunk
    /// is duplicated to every bound ear; a stereo chunk is
    /// deinterleaved, even samples to the left ear and odd to the
    /// right. Any other channel count is a configuration error and
    /// changes nothing.
    pub fn feed(&mut self, chunk: &[i16], channels: usize) -> (ok: bool)
        requires
            old(self).wf(),
        ensures
            final(self).wf(),
            ok == spec_feed_ok(*old(self), chunk@, channels),
            !ok ==> *final(self) == *old(self),
            ok ==> {
                &&& final(self).state == old(self).state
                &&& final(self).addresses == old(self).addresses
                &&& (channels == 1 ==> spec_fed_opt_rel(old(self).left, final(self).left, chunk@)
                    && spec_fed_opt_rel(old(self).right, final(self).right, chunk@))
                &&& (channels == 2 ==> spec_fed_opt_rel(
                    old(self).left,
                    final(self).left,
                    spec_channel(chunk@, 0),
                ) && spec_fed_opt_rel(old(self).right, final(self).right, spec_channel(chunk@, 1)))
            },
    {
        if channels == 1 {
            match &mut self.left {
                Option::Some(p) => {
                    p.ring.append(chunk);
                },
                Option::None => {},
            }
            match &mut self.right {
                Option::Some(p) => {
                    p.ring.append(chunk);
                },
                Option::None => {},
            }
            true
        } else if channels == 2 && self.left.is_some() && self.right.is_some() && chunk.len() % 2
            == 0 {
            match &mut self.left {
                Option::Some(p) => {
                    p.ring.append_channel(chunk, 0);
                },
                Option::None => {},
            }
            match &mut self.right {
                Option::Some(p) => {
                    p.ring.append_channel(chunk, 1);
                },
                Option::None => {},
            }
            true
        } else {
            false
        }
    }

    /// Drains one 320-sample encoder block from the ear on `side`, if
    /// that ear is bound and has enough samples waiting.
    pub fn take_pcm_block(&mut self, side: SIDE) -> (r: Option<Vec<i16>>)
        requires
            old(self).wf(),
        ensures
            final(self).wf(),
            final(self).state == old(self).state,
            final(self).addresses == old(self).addresses,
            side is LEFT ==> final(self).right == old(self).right,
            side is RIGHT ==> final(self).left == old(self).left,
            side is LEFT ==> spec_block_taken(old(self).left, final(self).left, r),
            side is RIGHT ==> spec_block_taken(old(self).right, final(self).right, r),
    {
        let slot = match side {
            SIDE::LEFT => &mut self.left,
            SIDE::RIGHT => &mut self.right,
        };
        match slot {
            Option::Some(p) => p.ring.take_block(),
            Option::None => None,
        }
    }

    /// Queues one encoded 160-byte payload for the ear on `side`; at
    /// capacity the oldest payload gives way. Nothing happens when
    /// that ear is not bound.
    pub fn enqueue_payload(&mut self, side: SIDE, payload: Vec<u8>) -> (ok: bool)
        requires
            old(self).wf(),
            payload@.len() == PAYLOAD_BYTES,
        ensures
            final(self).wf(),
            final(self).state == old(self).state,
            final(self).addresses == old(self).addresses,
            side is LEFT ==> final(self).right == old(self).right,
            side is RIGHT ==> final(self).left == old(self).left,
            side is LEFT ==> ok == (old(self).left is Some) && spec_enqueued(
                old(self).left,
                final(self).left,
                payload@,
            ),
            side is RIGHT ==> ok == (old(self).right is Some) && spec_enqueued(
                old(self).right,
                final(self).right,
                payload@,
            ),
    {
        let slot = match side {
            SIDE::LEFT => &mut self.left,
            SIDE::RIGHT => &mut self.right,
        };
        match slot {
            Option::Some(p) => {
                p.queue.enqueue(payload);
                true
            },
            Option::None => false,
        }
    }
}

/// One optional peer slot whose ring either gave up a 320-sample block
/// or was left alone for want of samples.
pub open spec fn spec_block_taken(o: Option<Peer>, n: Option<Peer>, r: Option<Vec<i16>>) -> bool {
    &&& (o is None ==> n is None && r is None)
    &&& (o matches Some(p) ==> (n matches Some(q) && {
        &&& q.addr == p.addr
        &&& q.psm == p.psm
        &&& q.props == p.props
        &&& q.control == p.control
        &&& q.seq == p.seq
        &&& q.queue@ == p.queue@
        &&& q.last_payload == p.last_payload
        &&& q.repeats == p.repeats
        &&& q.last_status == p.last_status
        &&& (p.ring@.len() >= 320 ==> (r matches Some(b) && b@ == p.ring@.take(320) && q.ring@
            == p.ring@.skip(320)))
        &&& (p.ring@.len() < 320 ==> r is None && q.ring@ == p.ring@)
    }))
}

/// One optional peer slot whose queue took `payload`, the oldest
/// entry giving way at capacity.
pub open spec fn spec_enqueued(o: Option<Peer>, n: Option<Peer>, payload: Seq<u8>) -> bool {
    &&& (o is None ==> n is None)
    &&& (o matches Some(p) ==> (n matches Some(q) && {
        &&& q.addr == p.addr
        &&& q.psm == p.psm
        &&& q.props == p.props
        &&& q.control == p.control
        &&& q.seq == p.seq
        &&& q.ring@ == p.ring@
        &&& q.last_payload == p.last_payload
        &&& q.repeats == p.repeats
        &&& q.last_status == p.last_status
        &&& (p.queue@.len() < 4 ==> q.queue@ == p.queue@.push(payload))
        &&& (p.queue@.len() == 4 ==> q.queue@ == p.queue@.drop_first().push(payload))
    }))
}

/// An emitted frame carries the peer's sequence number of that slot,
/// and the counter then steps by exactly one modulo 256.
pub proof fn lemma_frame_cadence(o: Peer, n: Peer)
    requires
        spec_tick_rel(o, n),
        spec_tick_emits(o),
    ensures
        spec_tick_frame(o)[0] == o.seq,
        (n.seq - o.seq) % 256 == 1,
{
    crate::frames::lemma_seq_cadence(o.seq);
}

/// Every frame the scheduler emits is exactly 161 bytes: one sequence
/// byte and one 160-byte payload.
pub proof fn lemma_frame_length(p: Peer)
    requires
        peer_wf(p),
        spec_tick_emits(p),
    ensures
        spec_tick_frame(p).len() == FRAME_BYTES,
{
}

/// A peer after the driver reported a failed control write: a peer
/// awaiting acknowledgement is faulted, anything else is untouched.
pub open spec fn spec_write_failed(o: Peer, n: Peer) -> bool {
    &&& n.addr == o.addr
    &&& n.psm == o.psm
    &&& n.props == o.props
    &&& n.seq == o.seq
    &&& n.ring@ == o.ring@
    &&& n.queue@ == o.queue@
    &&& n.last_payload == o.last_payload
    &&& n.repeats == o.repeats
    &&& n.last_status == o.last_status
    &&& n.control == (if o.control is Waiting {
        ControlState::Faulted
    } else {
        o.control
    })
}

/// At least one bound peer has an acknowledged Start.
pub open spec fn spec_any_streaming(s: ASHA) -> bool {
    ||| (s.left matches Some(p) && p.control is Streaming)
    ||| (s.right matches Some(p) && p.control is Streaming)
}

/// No two bound peers share a side: the left slot serves the left ear,
/// the right slot the right ear.
pub proof fn lemma_one_peer_per_side(s: ASHA)
    requires
        s.wf(),
    ensures
        s.left matches Some(p) ==> p.props.capabilities.side is LEFT,
        s.right matches Some(p) ==> p.props.capabilities.side is RIGHT,
        s.left matches Some(p) ==> (s.right matches Some(q) ==> p.props.capabilities.side
            != q.props.capabilities.side),
{
}

/// Opening a session and closing it again with no devices bound is a
/// no-op: the adapter state is exactly what the probe gave, and no
/// peer or socket is held.
pub proof fn lemma_open_close_no_op(opened: ASHA, closed: ASHA, powered: Option<bool>)
    requires
        // what `new` ensures of a fresh session
        opened.state == spec_adapter_state(powered),
        opened.left is None,
        opened.right is None,
        // what `close_l2cap` ensures of the session it closed
        closed.state == opened.state,
        closed.left is None,
        closed.right is None,
    ensures
        closed.state == spec_adapter_state(powered),
        !closed.spec_has_peers(),
{
}

} // verus!
