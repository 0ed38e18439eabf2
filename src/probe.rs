//! One probe: the send / wait / receive cycle for a single time-to-live,
//! as a state machine that the caller drives with socket events.

use crate::codec::{
    build_echo_request, echo_request, parse_reply, ECHO_REPLY, IP_HEADER_LEN,
    MIN_REPLY_LEN, TIME_EXCEEDED,
};
use crate::text::{dotted_quad, dotted_quad_text};
use vstd::prelude::*;

verus! {

/// What one probe observed.
#[derive(Clone, Debug)]
pub enum HopOutcome {
    /// A node answered before the deadline.
    Received {
        /// Address of the node that answered.
        address: String,
        /// Its resolved name, or the address again when it was not resolved.
        host: String,
        /// Round-trip time in nanoseconds.
        rtt: u64,
    },
    /// No usable reply arrived before the deadline.
    TimedOut,
}

/// Where a probe stands.
#[derive(Clone, Copy, Debug, PartialEq, Eq, Structural)]
pub enum ProbeState {
    /// Nothing sent yet.
    Idle,
    /// The Echo Request is out; waiting for a reply or the deadline.
    Sent,
    /// The outcome has been handed out.
    Done,
}

/// Whether a decoded reply answers a probe: an Echo Reply from the
/// destination or a Time Exceeded message from a router on the way.
pub open spec fn is_answer(icmp_type: u8) -> bool {
    icmp_type == ECHO_REPLY || icmp_type == TIME_EXCEEDED
}

/// Time between two readings of a nanosecond clock, zero if the clock went back.
pub open spec fn elapsed(sent_at: u64, received_at: u64) -> u64 {
    if received_at >= sent_at {
        (received_at - sent_at) as u64
    } else {
        0
    }
}

/// The outcome that a reply buffer gives: a reply too short to decode, or
/// one of a type that answers no probe, counts as a timeout.
pub open spec fn reply_outcome(r: HopOutcome, bytes: Seq<u8>, sent_at: u64, received_at: u64) -> bool {
    if bytes.len() >= MIN_REPLY_LEN && is_answer(bytes[IP_HEADER_LEN as int]) {
        r matches HopOutcome::Received { address, host, rtt } && address@ == dotted_quad(
            bytes.subrange(12, 16),
        ) && host@ == address@ && rtt == elapsed(sent_at, received_at)
    } else {
        r is TimedOut
    }
}

/// The probe for one time-to-live toward one destination.
pub struct ProbeSession {
    identifier: u16,
    ttl: u16,
    state: ProbeState,
    sent_at: u64,
}

impl ProbeSession {
    /// Identifier written into the Echo Request.
    pub closed spec fn spec_identifier(&self) -> u16 {
        self.identifier
    }

    /// Time-to-live of the probe, also its Echo sequence number.
    pub closed spec fn spec_ttl(&self) -> u16 {
        self.ttl
    }

    /// Where the probe stands.
    pub closed spec fn spec_state(&self) -> ProbeState {
        self.state
    }

    /// Clock reading taken when the request was sent.
    pub closed spec fn spec_sent_at(&self) -> u64 {
        self.sent_at
    }

    /// A probe that has sent nothing yet.
    pub fn new(identifier: u16, ttl: u16) -> (r: ProbeSession)
        ensures
            r.spec_identifier() == identifier,
            r.spec_ttl() == ttl,
            r.spec_state() == ProbeState::Idle,
    {
        ProbeSession { identifier, ttl, state: ProbeState::Idle, sent_at: 0 }
    }

    /// The time-to-live to set on the socket before sending.
    pub fn ttl(&self) -> (r: u16)
        ensures
            r == self.spec_ttl(),
    {
        self.ttl
    }

    /// Where the probe stands.
    pub fn state(&self) -> (r: ProbeState)
        ensures
            r == self.spec_state(),
    {
        self.state
    }

    /// Sends the probe: hands out the Echo Request to transmit, whose
    /// sequence number is the time-to-live, and remembers the send time.
    pub fn send(&mut self, now: u64) -> (r: Vec<u8>)
        requires
            old(self).spec_state() == ProbeState::Idle,
        ensures
            r@ == echo_request(old(self).spec_identifier(), old(self).spec_ttl()),
            final(self).spec_state() == ProbeState::Sent,
            final(self).spec_sent_at() == now,
            final(self).spec_identifier() == old(self).spec_identifier(),
            final(self).spec_ttl() == old(self).spec_ttl(),
    {
        self.state = ProbeState::Sent;
        self.sent_at = now;
        build_echo_request(self.identifier, self.ttl)
    }

    /// A reply arrived at clock reading `now`: decodes it and ends the probe.
    pub fn on_reply(&mut self, bytes: &[u8], now: u64) -> (r: HopOutcome)
        requires
            old(self).spec_state() == ProbeState::Sent,
        ensures
            reply_outcome(r, bytes@, old(self).spec_sent_at(), now),
            final(self).spec_state() == ProbeState::Done,
            final(self).spec_ttl() == old(self).spec_ttl(),
    {
        self.state = ProbeState::Done;
        match parse_reply(bytes) {
            Ok(reply) => {
                if reply.icmp_type == ECHO_REPLY || reply.icmp_type == TIME_EXCEEDED {
                    let address = dotted_quad_text(&reply.source);
                    let host = address.clone();
                    let rtt = if now >= self.sent_at {
                        now - self.sent_at
                    } else {
                        0
                    };
                    HopOutcome::Received { address, host, rtt }
                } else {
                    HopOutcome::TimedOut
                }
            },
            Err(_) => HopOutcome::TimedOut,
        }
    }

    /// The deadline passed without a reply, or the transport failed: ends
    /// the probe as a timeout.
    pub fn on_deadline(&mut self) -> (r: HopOutcome)
        requires
            old(self).spec_state() == ProbeState::Sent,
        ensures
            r is TimedOut,
            final(self).spec_state() == ProbeState::Done,
            final(self).spec_ttl() == old(self).spec_ttl(),
    {
        self.state = ProbeState::Done;
        HopOutcome::TimedOut
    }
}

} // verus!
