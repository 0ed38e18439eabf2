//! The trace engine: one probe per time-to-live toward one destination,
//! classification of each responder, and the rule that ends a trace.

use crate::probe::HopOutcome;
use crate::record::{views, HopView, NodeType, SHop};
use vstd::prelude::*;

verus! {

/// Maximum hop count when none is configured.
pub const DEFAULT_MAX_HOPS: u64 = 30;

/// Role of the node that answered the probe sent with time-to-live `ttl`:
/// the first hop is the default gateway, whatever its address.
pub open spec fn classify_spec(ttl: int, responder: Seq<char>, destination: Seq<char>) -> NodeType {
    if ttl == 1 {
        NodeType::DefaultGateway
    } else if responder == destination {
        NodeType::Destination
    } else {
        NodeType::Relay
    }
}

/// The record of the probe with time-to-live `ttl`. A timeout has no
/// responder: its round-trip time is zero, its names are empty and it
/// counts as a relay.
pub open spec fn hop_view(destination: Seq<char>, observed_at: u64, ttl: u64, outcome: HopOutcome) -> HopView {
    match outcome {
        HopOutcome::Received { address, host, rtt } => HopView {
            rtt,
            seq: ttl,
            host: host@,
            ip: address@,
            timeout: false,
            final_dest: destination,
            node_type: classify_spec(ttl as int, address@, destination),
            time: observed_at,
        },
        HopOutcome::TimedOut => HopView {
            rtt: 0,
            seq: ttl,
            host: Seq::empty(),
            ip: Seq::empty(),
            timeout: true,
            final_dest: destination,
            node_type: NodeType::Relay,
            time: observed_at,
        },
    }
}

/// The outcome of the probe with time-to-live `ttl`, where `outcomes[i]` is
/// that of time-to-live `i + 1`; past the end every probe times out.
pub open spec fn outcome_at(outcomes: Seq<HopOutcome>, ttl: int) -> HopOutcome {
    if 1 <= ttl <= outcomes.len() {
        outcomes[ttl - 1]
    } else {
        HopOutcome::TimedOut
    }
}

/// The records of a trace from time-to-live `ttl` on: it stops after the
/// first record classified as the destination, or after `max_hops`.
pub open spec fn hops_from(
    destination: Seq<char>,
    observed_at: u64,
    max_hops: u64,
    outcomes: Seq<HopOutcome>,
    ttl: int,
) -> Seq<HopView>
    decreases max_hops - ttl + 1,
{
    if ttl < 1 || ttl > max_hops {
        Seq::empty()
    } else {
        let h = hop_view(destination, observed_at, ttl as u64, outcome_at(outcomes, ttl));
        if h.node_type == NodeType::Destination {
            seq![h]
        } else {
            seq![h] + hops_from(destination, observed_at, max_hops, outcomes, ttl + 1)
        }
    }
}

/// The whole trace toward `destination` when the probes have the given outcomes.
pub open spec fn trace_spec(
    destination: Seq<char>,
    observed_at: u64,
    max_hops: u64,
    outcomes: Seq<HopOutcome>,
) -> Seq<HopView> {
    hops_from(destination, observed_at, max_hops, outcomes, 1)
}

/// Role of the node at `responder` that answered the probe with time-to-live `ttl`.
pub fn classify(ttl: u64, responder: &String, destination: &String) -> (r: NodeType)
    ensures
        r == classify_spec(ttl as int, responder@, destination@),
{
    if ttl == 1 {
        NodeType::DefaultGateway
    } else if responder.eq(destination) {
        NodeType::Destination
    } else {
        NodeType::Relay
    }
}

/// The record of one probe of a trace.
pub fn hop_record(destination: &String, observed_at: u64, ttl: u64, outcome: &HopOutcome) -> (r: SHop)
    ensures
        r@ == hop_view(destination@, observed_at, ttl, *outcome),
{
    match outcome {
        HopOutcome::Received { address, host, rtt } => SHop {
            rtt: *rtt,
            seq: ttl,
            host: host.clone(),
            ip: address.clone(),
            timeout: false,
            final_dest: destination.clone(),
            node_type: classify(ttl, address, destination),
            time: observed_at,
        },
        HopOutcome::TimedOut => SHop {
            rtt: 0,
            seq: ttl,
            host: String::new(),
            ip: String::new(),
            timeout: true,
            final_dest: destination.clone(),
            node_type: NodeType::Relay,
            time: observed_at,
        },
    }
}

/// The trace of one destination while it runs. Records are only ever
/// appended; the trace is finished once a record is classified as the
/// destination or `max_hops` records exist.
pub struct TraceSession {
    destination: String,
    observed_at: u64,
    max_hops: u64,
    hops: Vec<SHop>,
    finished: bool,
}

impl TraceSession {
    /// Address the trace is aimed at.
    pub closed spec fn spec_destination(&self) -> Seq<char> {
        self.destination@
    }

    /// Start of the trace, shared by all its records.
    pub closed spec fn spec_observed_at(&self) -> u64 {
        self.observed_at
    }

    /// Largest time-to-live probed.
    pub closed spec fn spec_max_hops(&self) -> u64 {
        self.max_hops
    }

    /// The records so far, in the order of their probes.
    pub closed spec fn spec_hops(&self) -> Seq<HopView> {
        views(self.hops@)
    }

    /// Whether no further probe is to be sent.
    pub closed spec fn spec_finished(&self) -> bool {
        self.finished
    }

    /// The records so far are those of probes 1, 2, ... toward this
    /// destination, taken at this trace's start; none but the last is
    /// classified as the destination; and the trace is finished exactly when
    /// the last one is, or when the hop limit is reached.
    pub open spec fn wf(&self) -> bool {
        let hops = self.spec_hops();
        &&& hops.len() <= self.spec_max_hops()
        &&& forall|i: int|
            #![trigger hops[i]]
            0 <= i < hops.len() ==> {
                &&& hops[i].seq == i + 1
                &&& hops[i].final_dest == self.spec_destination()
                &&& hops[i].time == self.spec_observed_at()
            }
        &&& forall|i: int|
            #![trigger hops[i]]
            0 <= i < hops.len() - 1 ==> hops[i].node_type != NodeType::Destination
        &&& self.spec_finished() == (hops.len() == self.spec_max_hops() || (hops.len() > 0
            && hops.last().node_type == NodeType::Destination))
    }

    /// A trace with no records yet, whose start is `observed_at`.
    pub fn new(destination: String, observed_at: u64, max_hops: u64) -> (r: TraceSession)
        ensures
            r.wf(),
            r.spec_destination() == destination@,
            r.spec_observed_at() == observed_at,
            r.spec_max_hops() == max_hops,
            r.spec_hops() == Seq::<HopView>::empty(),
    {
        let r = TraceSession {
            destination,
            observed_at,
            max_hops,
            hops: Vec::new(),
            finished: max_hops == 0,
        };
        assert(r.spec_hops() =~= Seq::<HopView>::empty());
        r
    }

    /// The time-to-live of the next probe, or `None` once the trace is finished.
    pub fn next_ttl(&self) -> (r: Option<u64>)
        requires
            self.wf(),
        ensures
            self.spec_finished() ==> r is None,
            !self.spec_finished() ==> r == Some((self.spec_hops().len() + 1) as u64),
    {
        if self.finished {
            None
        } else {
            Some(self.hops.len() as u64 + 1)
        }
    }

    /// Whether no further probe is to be sent.
    pub fn is_finished(&self) -> (r: bool)
        ensures
            r == self.spec_finished(),
    {
        self.finished
    }

    /// Appends the record of the next probe, whose outcome is given.
    pub fn record(&mut self, outcome: &HopOutcome)
        requires
            old(self).wf(),
            !old(self).spec_finished(),
        ensures
            final(self).wf(),
            final(self).spec_hops() == old(self).spec_hops().push(
                hop_view(
                    old(self).spec_destination(),
                    old(self).spec_observed_at(),
                    (old(self).spec_hops().len() + 1) as u64,
                    *outcome,
                ),
            ),
            final(self).spec_destination() == old(self).spec_destination(),
            final(self).spec_observed_at() == old(self).spec_observed_at(),
            final(self).spec_max_hops() == old(self).spec_max_hops(),
    {
        assert(self.hops@.len() == old(self).spec_hops().len());
        let ttl = self.hops.len() as u64 + 1;
        let hop = hop_record(&self.destination, self.observed_at, ttl, outcome);
        let reached = hop.node_type == NodeType::Destination;
        self.hops.push(hop);
        self.finished = reached || self.hops.len() as u64 == self.max_hops;
        proof {
            let prev = old(self).spec_hops();
            let hops = self.spec_hops();
            assert(hops =~= prev.push(hop@));
            assert forall|i: int|
                #![trigger hops[i]]
                0 <= i < hops.len() - 1 implies hops[i].node_type != NodeType::Destination by {
                assert(hops[i] == prev[i]);
            }
            assert forall|i: int|
                #![trigger hops[i]]
                0 <= i < hops.len() implies {
                &&& hops[i].seq == i + 1
                &&& hops[i].final_dest == self.spec_destination()
                &&& hops[i].time == self.spec_observed_at()
            } by {
                if i < prev.len() {
                    assert(hops[i] == prev[i]);
                } else {
                    assert(hops[i] == hop@);
                    assert(ttl == prev.len() + 1);
                    match *outcome {
                        HopOutcome::Received { .. } => {},
                        HopOutcome::TimedOut => {},
                    }
                }
            }
        }
    }

    /// The records of the trace, in the order of their probes.
    pub fn into_hops(self) -> (r: Vec<SHop>)
        ensures
            views(r@) == self.spec_hops(),
    {
        self.hops
    }
}

/// Runs a whole trace toward `destination`, one probe at a time, where
/// `outcomes[i]` is what the probe with time-to-live `i + 1` observes and
/// probes past the end of `outcomes` time out.
pub fn run_trace(destination: &String, observed_at: u64, max_hops: u64, outcomes: &Vec<HopOutcome>) -> (r: Vec<SHop>)
    ensures
        views(r@) == trace_spec(destination@, observed_at, max_hops, outcomes@),
{
    let ghost whole = trace_spec(destination@, observed_at, max_hops, outcomes@);
    let mut session = TraceSession::new(destination.clone(), observed_at, max_hops);
    while !session.is_finished()
        invariant
            session.wf(),
            session.spec_destination() == destination@,
            session.spec_observed_at() == observed_at,
            session.spec_max_hops() == max_hops,
            !session.spec_finished() ==> session.spec_hops() + hops_from(
                destination@,
                observed_at,
                max_hops,
                outcomes@,
                session.spec_hops().len() + 1 as int,
            ) == whole,
            session.spec_finished() ==> session.spec_hops() == whole,
        decreases max_hops - session.spec_hops().len(),
    {
        let ghost prev = session.spec_hops();
        let timed_out = HopOutcome::TimedOut;
        let ttl: u64 = match session.next_ttl() {
            Some(t) => t,
            None => 0,
        };
        let outcome = if ttl - 1 < outcomes.len() as u64 {
            let o = &outcomes[(ttl - 1) as usize];
            assert(*o == outcome_at(outcomes@, ttl as int));
            o
        } else {
            assert(timed_out == outcome_at(outcomes@, ttl as int));
            &timed_out
        };
        assert(*outcome == outcome_at(outcomes@, ttl as int));
        session.record(outcome);
        proof {
            let k = ttl as int;
            let h = hop_view(destination@, observed_at, ttl, *outcome);
            let rest = hops_from(destination@, observed_at, max_hops, outcomes@, k + 1);
            assert(k == prev.len() + 1);
            assert(1 <= k <= max_hops);
            assert(h == hop_view(destination@, observed_at, k as u64, outcome_at(outcomes@, k)));
            assert(hops_from(destination@, observed_at, max_hops, outcomes@, k) == if h.node_type
                == NodeType::Destination {
                seq![h]
            } else {
                seq![h] + rest
            });
            assert(session.spec_hops() == prev.push(h));
            if h.node_type == NodeType::Destination {
                assert(prev.push(h) =~= prev + seq![h]);
            } else {
                assert(prev.push(h) + rest =~= prev + (seq![h] + rest));
                if session.spec_finished() {
                    assert(rest =~= Seq::<HopView>::empty());
                    assert(prev.push(h) =~= prev.push(h) + rest);
                }
            }
        }
    }
    proof {
        if max_hops == 0 {
            assert(whole =~= Seq::<HopView>::empty());
        }
    }
    session.into_hops()
}

proof fn lemma_hops_from_shape(
    destination: Seq<char>,
    observed_at: u64,
    max_hops: u64,
    outcomes: Seq<HopOutcome>,
    ttl: int,
)
    requires
        1 <= ttl,
    ensures
        ({
            let r = hops_from(destination, observed_at, max_hops, outcomes, ttl);
            &&& ttl > max_hops ==> r.len() == 0
            &&& ttl <= max_hops ==> 1 <= r.len() <= max_hops - ttl + 1
            &&& forall|i: int|
                #![trigger r[i]]
                0 <= i < r.len() ==> r[i] == hop_view(
                    destination,
                    observed_at,
                    (ttl + i) as u64,
                    outcome_at(outcomes, ttl + i),
                )
            &&& forall|i: int|
                #![trigger r[i]]
                0 <= i < r.len() - 1 ==> r[i].node_type != NodeType::Destination
            &&& r.len() > 0 ==> (r.last().node_type == NodeType::Destination || ttl + r.len() - 1
                == max_hops)
        }),
    decreases max_hops - ttl + 1,
{
    if ttl <= max_hops {
        let h = hop_view(destination, observed_at, ttl as u64, outcome_at(outcomes, ttl));
        if h.node_type != NodeType::Destination {
            lemma_hops_from_shape(destination, observed_at, max_hops, outcomes, ttl + 1);
            let rest = hops_from(destination, observed_at, max_hops, outcomes, ttl + 1);
            let r = hops_from(destination, observed_at, max_hops, outcomes, ttl);
            assert(r == seq![h] + rest);
            assert forall|i: int| #![trigger r[i]] 1 <= i < r.len() implies r[i] == rest[i - 1] by {
            }
            assert forall|i: int|
                #![trigger r[i]]
                0 <= i < r.len() implies r[i] == hop_view(
                    destination,
                    observed_at,
                    (ttl + i) as u64,
                    outcome_at(outcomes, ttl + i),
                ) by {
                if i > 0 {
                    assert(r[i] == rest[i - 1]);
                }
            }
            assert forall|i: int|
                #![trigger r[i]]
                0 <= i < r.len() - 1 implies r[i].node_type != NodeType::Destination by {
                if i > 0 {
                    assert(r[i] == rest[i - 1]);
                }
            }
            if rest.len() > 0 {
                assert(r.last() == rest.last());
            }
        }
    }
}

/// Within a trace the records carry the sequence numbers 1, 2, 3, ... with no
/// gap; there are at most `max_hops` of them, at least one when `max_hops` is
/// positive; none but the last is classified as the destination; and a trace
/// shorter than `max_hops` ends with the destination.
pub proof fn lemma_trace_sequence_numbers(
    destination: Seq<char>,
    observed_at: u64,
    max_hops: u64,
    outcomes: Seq<HopOutcome>,
)
    ensures
        ({
            let t = trace_spec(destination, observed_at, max_hops, outcomes);
            &&& t.len() <= max_hops
            &&& max_hops > 0 ==> t.len() >= 1
            &&& forall|i: int| #![trigger t[i]] 0 <= i < t.len() ==> t[i].seq == i + 1
            &&& forall|i: int|
                #![trigger t[i]]
                0 <= i < t.len() - 1 ==> t[i].node_type != NodeType::Destination
            &&& t.len() < max_hops ==> t.len() > 0 && t.last().node_type == NodeType::Destination
        }),
{
    lemma_hops_from_shape(destination, observed_at, max_hops, outcomes, 1);
    let t = trace_spec(destination, observed_at, max_hops, outcomes);
    assert forall|i: int| #![trigger t[i]] 0 <= i < t.len() implies t[i].seq == i + 1 by {
        match outcome_at(outcomes, 1 + i) {
            HopOutcome::Received { .. } => {},
            HopOutcome::TimedOut => {},
        }
    }
}

/// A destination that first answers the probe with time-to-live `k`, for
/// `1 < k <= max_hops`, ends the trace there: the trace holds exactly `k`
/// records and the last is classified as the destination.
pub proof fn lemma_trace_stops_at_destination(
    destination: Seq<char>,
    observed_at: u64,
    max_hops: u64,
    outcomes: Seq<HopOutcome>,
    k: int,
)
    requires
        1 < k <= max_hops,
        outcome_at(outcomes, k) matches HopOutcome::Received { address, .. } && address@
            == destination,
        forall|j: int|
            1 < j < k ==> !(#[trigger] outcome_at(outcomes, j) matches HopOutcome::Received {
                address,
                ..
            } && address@ == destination),
    ensures
        ({
            let t = trace_spec(destination, observed_at, max_hops, outcomes);
            &&& t.len() == k
            &&& t[k - 1].node_type == NodeType::Destination
            &&& t[k - 1].seq == k
        }),
{
    lemma_hops_from_shape(destination, observed_at, max_hops, outcomes, 1);
    let t = trace_spec(destination, observed_at, max_hops, outcomes);
    if t.len() < k {
        let j = t.len() as int;
        assert(t[j - 1] == hop_view(destination, observed_at, j as u64, outcome_at(outcomes, j)));
        assert(outcome_at(outcomes, j) matches HopOutcome::Received { address, .. } && address@
            == destination ==> j == 1);
    } else if t.len() > k {
        assert(t[k - 1] == hop_view(destination, observed_at, k as u64, outcome_at(outcomes, k)));
    }
    assert(t[k - 1] == hop_view(destination, observed_at, k as u64, outcome_at(outcomes, k)));
}

/// A destination whose probes all time out gives a trace of exactly
/// `max_hops` records, every one a timeout and none classified as the destination.
pub proof fn lemma_silent_trace_exhausts(
    destination: Seq<char>,
    observed_at: u64,
    max_hops: u64,
    outcomes: Seq<HopOutcome>,
)
    requires
        forall|j: int| 1 <= j <= max_hops ==> #[trigger] outcome_at(outcomes, j) is TimedOut,
    ensures
        ({
            let t = trace_spec(destination, observed_at, max_hops, outcomes);
            &&& t.len() == max_hops
            &&& forall|i: int|
                #![trigger t[i]]
                0 <= i < t.len() ==> t[i].timeout && t[i].node_type != NodeType::Destination
        }),
{
    lemma_hops_from_shape(destination, observed_at, max_hops, outcomes, 1);
    let t = trace_spec(destination, observed_at, max_hops, outcomes);
    assert forall|i: int|
        #![trigger t[i]]
        0 <= i < t.len() implies t[i].timeout && t[i].node_type != NodeType::Destination by {
        assert(outcome_at(outcomes, 1 + i) is TimedOut);
    }
    if t.len() > 0 && t.len() < max_hops {
        assert(outcome_at(outcomes, t.len() as int) is TimedOut);
    }
}

/// A record with sequence number 1 that received a reply is classified as
/// the default gateway, whatever the responder's address.
pub proof fn lemma_first_hop_is_gateway(
    destination: Seq<char>,
    observed_at: u64,
    max_hops: u64,
    outcomes: Seq<HopOutcome>,
)
    ensures
        ({
            let t = trace_spec(destination, observed_at, max_hops, outcomes);
            forall|i: int|
                #![trigger t[i]]
                0 <= i < t.len() && t[i].seq == 1 && !t[i].timeout ==> t[i].node_type
                    == NodeType::DefaultGateway
        }),
{
    lemma_hops_from_shape(destination, observed_at, max_hops, outcomes, 1);
    let t = trace_spec(destination, observed_at, max_hops, outcomes);
    assert forall|i: int|
        #![trigger t[i]]
        0 <= i < t.len() && t[i].seq == 1 && !t[i].timeout implies t[i].node_type
            == NodeType::DefaultGateway by {
        match outcome_at(outcomes, 1 + i) {
            HopOutcome::Received { .. } => {},
            HopOutcome::TimedOut => {},
        }
    }
}

/// A reply that a tracer observed, tagged with the time-to-live of the probe
/// that it answers.
#[derive(Clone, Debug)]
pub struct ProbeReply {
    /// Time-to-live of the probe answered.
    pub ttl: u64,
    /// Address of the node that answered.
    pub address: String,
    /// Its resolved name, or the address again.
    pub host: String,
    /// Round-trip time in nanoseconds.
    pub rtt: u64,
}

/// The outcome of the probe with time-to-live `ttl`: the first reply from
/// index `from` on that answers it, else a timeout.
pub open spec fn first_reply(replies: Seq<ProbeReply>, ttl: int, from: int) -> HopOutcome
    decreases replies.len() - from,
{
    if from < 0 || from >= replies.len() {
        HopOutcome::TimedOut
    } else if replies[from].ttl == ttl {
        HopOutcome::Received {
            address: replies[from].address,
            host: replies[from].host,
            rtt: replies[from].rtt,
        }
    } else {
        first_reply(replies, ttl, from + 1)
    }
}

/// The outcomes of the probes with time-to-live 1 to `max_hops`, as `replies` report them.
pub open spec fn replies_outcomes(replies: Seq<ProbeReply>, max_hops: u64) -> Seq<HopOutcome> {
    Seq::new(max_hops as nat, |i: int| first_reply(replies, i + 1, 0))
}

/// The outcome of the probe with time-to-live `ttl`, as `replies` report it.
pub fn outcome_for_ttl(replies: &Vec<ProbeReply>, ttl: u64) -> (r: HopOutcome)
    ensures
        r == first_reply(replies@, ttl as int, 0),
{
    let mut j: usize = 0;
    while j < replies.len()
        invariant
            j <= replies@.len(),
            first_reply(replies@, ttl as int, 0) == first_reply(replies@, ttl as int, j as int),
        decreases replies@.len() - j,
    {
        if replies[j].ttl == ttl {
            return HopOutcome::Received {
                address: replies[j].address.clone(),
                host: replies[j].host.clone(),
                rtt: replies[j].rtt,
            };
        }
        j = j + 1;
    }
    HopOutcome::TimedOut
}

/// Runs a trace toward `destination` on the replies that a tracer reported:
/// a probe that no reply answers is a timeout.
pub fn trace_replies(destination: &String, observed_at: u64, max_hops: u64, replies: &Vec<ProbeReply>) -> (r: Vec<SHop>)
    ensures
        views(r@) == trace_spec(
            destination@,
            observed_at,
            max_hops,
            replies_outcomes(replies@, max_hops),
        ),
{
    let mut outcomes: Vec<HopOutcome> = Vec::new();
    let mut n: u64 = 0;
    while n < max_hops
        invariant
            n <= max_hops,
            outcomes@.len() == n,
            forall|i: int|
                #![trigger outcomes@[i]]
                0 <= i < outcomes@.len() ==> outcomes@[i] == first_reply(replies@, i + 1, 0),
        decreases max_hops - n,
    {
        outcomes.push(outcome_for_ttl(replies, n + 1));
        n = n + 1;
    }
    assert(outcomes@ =~= replies_outcomes(replies@, max_hops));
    run_trace(destination, observed_at, max_hops, &outcomes)
}

/// Start time of a trace in nanoseconds since the Unix epoch, from a clock
/// reading given in nanoseconds (`None` when they overflow `i64`) and in
/// microseconds. A reading before the epoch gives zero; one past the range
/// of `u64` gives its largest value.
pub open spec fn epoch_nanos_spec(nanos: Option<i64>, micros: i64) -> int {
    match nanos {
        Some(n) => if n >= 0 {
            n as int
        } else {
            0
        },
        None => if micros < 0 {
            0
        } else if micros as int * 1000 > u64::MAX {
            u64::MAX as int
        } else {
            micros as int * 1000
        },
    }
}

/// Start time of a trace in nanoseconds since the Unix epoch.
pub fn epoch_nanos(nanos: Option<i64>, micros: i64) -> (r: u64)
    ensures
        r as int == epoch_nanos_spec(nanos, micros),
{
    match nanos {
        Some(n) => if n >= 0 {
            n as u64
        } else {
            0
        },
        None => if micros < 0 {
            0
        } else if micros as u64 > u64::MAX / 1000 {
            u64::MAX
        } else {
            micros as u64 * 1000
        },
    }
}

} // verus!
