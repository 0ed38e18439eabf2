//! Hop records and their line-protocol text for a time-series sink.

use crate::text::{decimal, decimal_text};
use vstd::prelude::*;

verus! {

/// Role of a node that answered a probe.
#[derive(Clone, Copy, Debug, PartialEq, Eq, Structural)]
pub enum NodeType {
    /// The first hop, answering the probe sent with time-to-live 1.
    DefaultGateway,
    /// A node between the gateway and the destination.
    Relay,
    /// The destination itself.
    Destination,
}

/// Name of a node type as it appears in exported records.
pub open spec fn node_name(t: NodeType) -> Seq<char> {
    match t {
        NodeType::DefaultGateway => "DefaultGateway"@,
        NodeType::Relay => "Relay"@,
        NodeType::Destination => "Destination"@,
    }
}

impl NodeType {
    /// Name of this node type as it appears in exported records.
    pub fn as_str(&self) -> (r: &'static str)
        ensures
            r@ == node_name(*self),
    {
        match self {
            NodeType::DefaultGateway => "DefaultGateway",
            NodeType::Relay => "Relay",
            NodeType::Destination => "Destination",
        }
    }
}

/// One observed hop of one trace.
#[derive(Clone, Debug)]
pub struct SHop {
    /// Round-trip time in nanoseconds; zero when no reply arrived.
    pub rtt: u64,
    /// Time-to-live of the probe, counting from 1.
    pub seq: u64,
    /// Resolved name of the responder, or its address; empty on a timeout.
    pub host: String,
    /// Address of the responder; empty on a timeout.
    pub ip: String,
    /// True when no reply arrived before the deadline.
    pub timeout: bool,
    /// Address the trace was aimed at.
    pub final_dest: String,
    /// Role of the responder.
    pub node_type: NodeType,
    /// Start of the trace, in nanoseconds since the Unix epoch.
    pub time: u64,
}

/// A hop record with its text fields as character sequences; the fields
/// mean what those of `SHop` mean.
pub struct HopView {
    pub rtt: u64,
    pub seq: u64,
    pub host: Seq<char>,
    pub ip: Seq<char>,
    pub timeout: bool,
    pub final_dest: Seq<char>,
    pub node_type: NodeType,
    pub time: u64,
}

impl View for SHop {
    type V = HopView;

    open spec fn view(&self) -> HopView {
        HopView {
            rtt: self.rtt,
            seq: self.seq,
            host: self.host@,
            ip: self.ip@,
            timeout: self.timeout,
            final_dest: self.final_dest@,
            node_type: self.node_type,
            time: self.time,
        }
    }
}

/// The views of a sequence of hop records.
pub open spec fn views(hops: Seq<SHop>) -> Seq<HopView> {
    hops.map_values(|h: SHop| h@)
}

/// `true` or `false`.
pub open spec fn bool_text(b: bool) -> Seq<char> {
    if b {
        "true"@
    } else {
        "false"@
    }
}

/// One line of the line protocol: the measurement with its tags, the
/// round-trip time as the value field, then the timestamp in nanoseconds.
pub open spec fn line_protocol(h: HopView, measurement: Seq<char>) -> Seq<char> {
    measurement + ",seq="@ + decimal(h.seq as nat) + ",host=\""@ + h.host + "\",ip=\""@ + h.ip
        + "\",timeout="@ + bool_text(h.timeout) + ",final_dest=\""@ + h.final_dest
        + "\",node_type=\""@ + node_name(h.node_type) + "\" rtt="@ + decimal(h.rtt as nat) + " "@
        + decimal(h.time as nat)
}

/// The lines of a batch of records, joined by newlines.
pub open spec fn batch_text(hops: Seq<HopView>, measurement: Seq<char>) -> Seq<char>
    decreases hops.len(),
{
    if hops.len() == 0 {
        Seq::empty()
    } else if hops.len() == 1 {
        line_protocol(hops[0], measurement)
    } else {
        batch_text(hops.drop_last(), measurement) + "\n"@ + line_protocol(hops.last(), measurement)
    }
}

fn bool_str(b: bool) -> (r: &'static str)
    ensures
        r@ == bool_text(b),
{
    if b {
        "true"
    } else {
        "false"
    }
}

impl SHop {
    /// The line-protocol line of this record under `measurement`.
    pub fn to_line_protocol_v2(&self, measurement: &str) -> (r: String)
        ensures
            r@ == line_protocol(self@, measurement@),
    {
        let mut s = String::from_str(measurement);
        s.append(",seq=");
        s.append(decimal_text(self.seq).as_str());
        s.append(",host=\"");
        s.append(self.host.as_str());
        s.append("\",ip=\"");
        s.append(self.ip.as_str());
        s.append("\",timeout=");
        s.append(bool_str(self.timeout));
        s.append(",final_dest=\"");
        s.append(self.final_dest.as_str());
        s.append("\",node_type=\"");
        s.append(self.node_type.as_str());
        s.append("\" rtt=");
        s.append(decimal_text(self.rtt).as_str());
        s.append(" ");
        s.append(decimal_text(self.time).as_str());
        assert(s@ =~= line_protocol(self@, measurement@));
        s
    }
}

/// The line-protocol lines of every record of `batch`, in order, joined by newlines.
pub fn batch_to_line(batch: Vec<SHop>, measurement: &str) -> (r: String)
    ensures
        r@ == batch_text(views(batch@), measurement@),
{
    let mut s = String::new();
    let mut i: usize = 0;
    while i < batch.len()
        invariant
            i <= batch@.len(),
            s@ == batch_text(views(batch@).subrange(0, i as int), measurement@),
        decreases batch@.len() - i,
    {
        let line = batch[i].to_line_protocol_v2(measurement);
        if i > 0 {
            s.append("\n");
        }
        s.append(line.as_str());
        proof {
            let sub = views(batch@).subrange(0, i + 1);
            assert(sub.drop_last() =~= views(batch@).subrange(0, i as int));
            assert(sub.last() == batch@[i as int]@);
            if i == 0 {
                assert(views(batch@).subrange(0, i as int) =~= Seq::<HopView>::empty());
                assert(s@ =~= batch_text(sub, measurement@));
            } else {
                assert(s@ =~= batch_text(sub, measurement@));
            }
        }
        i = i + 1;
    }
    assert(views(batch@).subrange(0, i as int) =~= views(batch@));
    s
}

} // verus!
