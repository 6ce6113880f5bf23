//! When audio is streamed: the transmit gate opens on a loud frame, stays
//! open through short silences, and closes once the silence has lasted the
//! configured timeout. Also the set of endpoints a sender connects.

use vstd::prelude::*;

verus! {

/// What to do with one captured frame.
#[derive(Clone, Copy, Debug, PartialEq, Eq, Structural)]
pub enum GateAction {
    /// Nothing is sent; no sender is open.
    Hold,
    /// Open a sender, then send the frame.
    Open,
    /// Send the frame on the open sender.
    Send,
    /// Send the frame, then close the sender: the silence lasted the timeout.
    Close,
}

/// State of the transmit gate. Times are nanoseconds on a monotonic clock.
#[derive(Clone, Copy, Debug, PartialEq, Eq, Structural)]
pub struct TransmitGate {
    /// A sender is open.
    pub sending: bool,
    /// Time of the last frame above the threshold (or of creation): the
    /// silence is measured from here.
    pub first_silent_ns: u64,
}

/// Time since `since`, zero when the clock reads earlier.
pub open spec fn elapsed_ns(since: u64, now: u64) -> int {
    if now >= since {
        now - since
    } else {
        0
    }
}

/// How the transmit gate reacts to one frame, loud or quiet, seen at time `now`:
/// its next state and the action taken on the frame.
pub open spec fn gate_step(g: TransmitGate, loud: bool, now: u64, timeout: u64) -> (
    TransmitGate,
    GateAction,
) {
    if !loud && !g.sending {
        (g, GateAction::Hold)
    } else if loud {
        (
            TransmitGate { sending: true, first_silent_ns: now },
            if g.sending {
                GateAction::Send
            } else {
                GateAction::Open
            },
        )
    } else if elapsed_ns(g.first_silent_ns, now) >= timeout {
        (TransmitGate { sending: false, first_silent_ns: g.first_silent_ns }, GateAction::Close)
    } else {
        (g, GateAction::Send)
    }
}

/// The state after a run of frames, each a loudness and a time.
pub open spec fn gate_run(g: TransmitGate, frames: Seq<(bool, u64)>, timeout: u64) -> TransmitGate
    decreases frames.len(),
{
    if frames.len() == 0 {
        g
    } else {
        gate_step(
            gate_run(g, frames.drop_last(), timeout),
            frames.last().0,
            frames.last().1,
            timeout,
        ).0
    }
}

impl TransmitGate {
    /// A closed gate whose silence clock starts at `now_ns`.
    pub fn new(now_ns: u64) -> (r: TransmitGate)
        ensures
            !r.sending,
            r.first_silent_ns == now_ns,
    {
        TransmitGate { sending: false, first_silent_ns: now_ns }
    }

    /// Decide what to do with one frame. The frame is loud when the threshold
    /// is bypassed or its SNR reached the threshold; `timeout_ns` is the
    /// silence after which the sender closes.
    pub fn step(&mut self, bypass: bool, snr_reached: bool, now_ns: u64, timeout_ns: u64) -> (r:
        GateAction)
        ensures
            (*final(self), r) == gate_step(*old(self), bypass || snr_reached, now_ns, timeout_ns),
    {
        let loud = bypass || snr_reached;
        if !loud && !self.sending {
            return GateAction::Hold;
        }
        let action = if !self.sending {
            GateAction::Open
        } else {
            GateAction::Send
        };
        if loud {
            self.sending = true;
            self.first_silent_ns = now_ns;
            action
        } else {
            let elapsed = if now_ns >= self.first_silent_ns {
                now_ns - self.first_silent_ns
            } else {
                0
            };
            if elapsed >= timeout_ns {
                self.sending = false;
                GateAction::Close
            } else {
                action
            }
        }
    }

    /// A sender is open.
    pub fn is_sending(&self) -> (r: bool)
        ensures
            r == self.sending,
    {
        self.sending
    }
}

/// A loud frame is always sent, and leaves the sender open with the silence
/// clock restarted at that frame.
pub proof fn lemma_loud_frame_is_sent(g: TransmitGate, now: u64, timeout: u64)
    ensures
        gate_step(g, true, now, timeout).1 == GateAction::Open || gate_step(g, true, now, timeout).1
            == GateAction::Send,
        gate_step(g, true, now, timeout).1 == GateAction::Open <==> !g.sending,
        gate_step(g, true, now, timeout).0.sending,
        gate_step(g, true, now, timeout).0.first_silent_ns == now,
{
}

/// While no sender is open, quiet frames send nothing and change nothing.
pub proof fn lemma_closed_gate_stays_closed(g: TransmitGate, times: Seq<u64>, timeout: u64)
    requires
        !g.sending,
    ensures
        gate_run(g, times.map_values(|t: u64| (false, t)), timeout) == g,
        forall|t: u64| gate_step(g, false, t, timeout) == (g, GateAction::Hold),
    decreases times.len(),
{
    let frames = times.map_values(|t: u64| (false, t));
    if times.len() > 0 {
        lemma_closed_gate_stays_closed(g, times.drop_last(), timeout);
        assert(frames.drop_last() == times.drop_last().map_values(|t: u64| (false, t)));
    }
}

/// Once a loud frame opened the transmit gate at `start`, every quiet frame that
/// comes less than `timeout` later is still sent and keeps the transmit gate as it
/// was; the first quiet frame that comes `timeout` or more later closes
/// the sender.
pub proof fn lemma_silence_hangover(
    g: TransmitGate,
    start: u64,
    quiet: Seq<u64>,
    later: u64,
    timeout: u64,
)
    requires
        forall|i: int| 0 <= i < quiet.len() ==> start <= #[trigger] quiet[i] && quiet[i] - start
            < timeout,
        start <= later,
    ensures
        ({
            let opened = gate_step(g, true, start, timeout).0;
            let held = gate_run(opened, quiet.map_values(|t: u64| (false, t)), timeout);
            &&& held == opened
            &&& forall|i: int|
                0 <= i < quiet.len() ==> #[trigger] gate_step(held, false, quiet[i], timeout) == (
                    held,
                    GateAction::Send,
                )
            &&& later - start >= timeout ==> gate_step(held, false, later, timeout) == (
                TransmitGate { sending: false, first_silent_ns: start },
                GateAction::Close,
            )
            &&& later - start < timeout ==> gate_step(held, false, later, timeout) == (
                held,
                GateAction::Send,
            )
        }),
    decreases quiet.len(),
{
    let opened = gate_step(g, true, start, timeout).0;
    let frames = quiet.map_values(|t: u64| (false, t));
    if quiet.len() > 0 {
        let rest = quiet.drop_last();
        assert forall|i: int| 0 <= i < rest.len() implies start <= #[trigger] rest[i] && rest[i]
            - start < timeout by {
            assert(rest[i] == quiet[i]);
        }
        lemma_silence_hangover(g, start, rest, later, timeout);
        assert(frames.drop_last() == rest.map_values(|t: u64| (false, t)));
        assert(frames.last() == (false, quiet[quiet.len() - 1]));
    }
}

/// Protocol of a sender endpoint.
#[derive(Clone, Copy, Debug, PartialEq, Eq, Structural)]
pub enum Protocol {
    /// RTP with Reed-Solomon (m=8) source packets.
    RtpRs8mSource,
    /// Reed-Solomon (m=8) repair packets.
    Rs8mRepair,
    /// RTCP control packets.
    Rtcp,
}

/// Slot interface an endpoint is connected to.
#[derive(Clone, Copy, Debug, PartialEq, Eq, Structural)]
pub enum Interface {
    AudioSource,
    AudioRepair,
    AudioControl,
}

/// One endpoint of a sender: the interface it is connected to, its protocol
/// and its port on the destination host.
#[derive(Clone, Copy, Debug, PartialEq, Eq, Structural)]
pub struct EndpointPlan {
    pub interface: Interface,
    pub protocol: Protocol,
    pub port: u16,
}

/// The endpoints of a sender, in the order they are connected: the source,
/// then the control endpoint if a control port is given, then the repair
/// endpoint if a repair port is given.
pub open spec fn planned_endpoints(
    source_port: u16,
    repair_port: Option<u16>,
    control_port: Option<u16>,
) -> Seq<EndpointPlan> {
    let source = seq![
        EndpointPlan {
            interface: Interface::AudioSource,
            protocol: Protocol::RtpRs8mSource,
            port: source_port,
        },
    ];
    let control = match control_port {
        Some(p) => seq![
            EndpointPlan { interface: Interface::AudioControl, protocol: Protocol::Rtcp, port: p },
        ],
        None => Seq::empty(),
    };
    let repair = match repair_port {
        Some(p) => seq![
            EndpointPlan {
                interface: Interface::AudioRepair,
                protocol: Protocol::Rs8mRepair,
                port: p,
            },
        ],
        None => Seq::empty(),
    };
    source + control + repair
}

/// The source endpoint at `port`.
pub open spec fn source_endpoint(port: u16) -> EndpointPlan {
    EndpointPlan { interface: Interface::AudioSource, protocol: Protocol::RtpRs8mSource, port }
}

/// The RTCP control endpoint at `port`.
pub open spec fn control_endpoint(port: u16) -> EndpointPlan {
    EndpointPlan { interface: Interface::AudioControl, protocol: Protocol::Rtcp, port }
}

/// The repair endpoint at `port`.
pub open spec fn repair_endpoint(port: u16) -> EndpointPlan {
    EndpointPlan { interface: Interface::AudioRepair, protocol: Protocol::Rs8mRepair, port }
}

/// The source endpoint is always connected first; a control endpoint is
/// connected exactly when a control port is given, whether or not a repair
/// port is; a repair endpoint is connected exactly when a repair port is
/// given, whether or not a control port is; nothing else is connected.
pub proof fn lemma_endpoints_follow_configuration(
    source: u16,
    repair: Option<u16>,
    control: Option<u16>,
)
    ensures
        planned_endpoints(source, repair, control)[0] == source_endpoint(source),
        planned_endpoints(source, repair, control).len() == 1 + (if repair is Some {
            1int
        } else {
            0
        }) + (if control is Some {
            1int
        } else {
            0
        }),
        forall|p: u16|
            planned_endpoints(source, repair, control).contains(control_endpoint(p)) <==> control
                == Some(p),
        forall|p: u16|
            planned_endpoints(source, repair, control).contains(repair_endpoint(p)) <==> repair
                == Some(p),
        planned_endpoints(source, None, None) == seq![source_endpoint(source)],
        forall|c: u16|
            planned_endpoints(source, None, Some(c)) == seq![
                source_endpoint(source),
                control_endpoint(c),
            ],
        forall|r: u16|
            planned_endpoints(source, Some(r), None) == seq![
                source_endpoint(source),
                repair_endpoint(r),
            ],
        forall|r: u16, c: u16|
            planned_endpoints(source, Some(r), Some(c)) == seq![
                source_endpoint(source),
                control_endpoint(c),
                repair_endpoint(r),
            ],
{
    let plan = planned_endpoints(source, repair, control);
    assert forall|p: u16| plan.contains(control_endpoint(p)) <==> control == Some(p) by {
        if control == Some(p) {
            assert(plan[1] == control_endpoint(p));
        }
        if plan.contains(control_endpoint(p)) {
            let k = choose|k: int| 0 <= k < plan.len() && plan[k] == control_endpoint(p);
            assert(control == Some(p));
        }
    }
    assert forall|p: u16| plan.contains(repair_endpoint(p)) <==> repair == Some(p) by {
        if repair == Some(p) {
            assert(plan[plan.len() - 1] == repair_endpoint(p));
        }
        if plan.contains(repair_endpoint(p)) {
            let k = choose|k: int| 0 <= k < plan.len() && plan[k] == repair_endpoint(p);
            assert(repair == Some(p));
        }
    }
    assert(planned_endpoints(source, None, None) =~= seq![source_endpoint(source)]);
    assert forall|c: u16|
        planned_endpoints(source, None, Some(c)) == seq![
            source_endpoint(source),
            control_endpoint(c),
        ] by {
        assert(planned_endpoints(source, None, Some(c)) =~= seq![
            source_endpoint(source),
            control_endpoint(c),
        ]);
    }
    assert forall|r: u16|
        planned_endpoints(source, Some(r), None) == seq![
            source_endpoint(source),
            repair_endpoint(r),
        ] by {
        assert(planned_endpoints(source, Some(r), None) =~= seq![
            source_endpoint(source),
            repair_endpoint(r),
        ]);
    }
    assert forall|r: u16, c: u16|
        planned_endpoints(source, Some(r), Some(c)) == seq![
            source_endpoint(source),
            control_endpoint(c),
            repair_endpoint(r),
        ] by {
        assert(planned_endpoints(source, Some(r), Some(c)) =~= seq![
            source_endpoint(source),
            control_endpoint(c),
            repair_endpoint(r),
        ]);
    }
}

/// The endpoints a sender connects, in order.
pub fn sender_endpoints(source_port: u16, repair_port: Option<u16>, control_port: Option<u16>) -> (r:
    Vec<EndpointPlan>)
    ensures
        r@ == planned_endpoints(source_port, repair_port, control_port),
        r@[0] == source_endpoint(source_port),
        forall|p: u16| r@.contains(control_endpoint(p)) <==> control_port == Some(p),
        forall|p: u16| r@.contains(repair_endpoint(p)) <==> repair_port == Some(p),
{
    proof {
        lemma_endpoints_follow_configuration(source_port, repair_port, control_port);
    }
    let mut r: Vec<EndpointPlan> = Vec::new();
    r.push(
        EndpointPlan {
            interface: Interface::AudioSource,
            protocol: Protocol::RtpRs8mSource,
            port: source_port,
        },
    );
    if let Some(p) = control_port {
        r.push(EndpointPlan { interface: Interface::AudioControl, protocol: Protocol::Rtcp, port: p });
    }
    if let Some(p) = repair_port {
        r.push(
            EndpointPlan { interface: Interface::AudioRepair, protocol: Protocol::Rs8mRepair, port: p },
        );
    }
    r
}

} // verus!
