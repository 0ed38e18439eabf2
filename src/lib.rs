//! Path discovery toward network destinations with ICMP Echo probes: packet
//! encoding and checksums, the per-hop probe session, the trace engine that
//! classifies responders and decides when a trace ends, and the text encoding
//! of hop records for a time-series sink.

pub mod codec;
pub mod text;
pub mod record;
pub mod probe;
pub mod trace;
pub mod export;
pub mod batch;
