//! Kinds of fault events reported while a request is proxied.

use vstd::prelude::*;
use vstd::string::*;

verus! {

/// The kind of a fault event.
#[derive(Clone, Copy, Debug, PartialEq, Eq, Structural)]
pub enum FaultEventKind {
    Latency,
    Dns,
    Bandwidth,
    Jitter,
    PacketLoss,
    HttpResponseFault,
}

impl FaultEventKind {
    /// Name under which events of this kind are counted in reports.
    pub open spec fn spec_event_type(self) -> Seq<char> {
        match self {
            FaultEventKind::Latency => "latency"@,
            FaultEventKind::Dns => "dns"@,
            FaultEventKind::Bandwidth => "bandwidth"@,
            FaultEventKind::Jitter => "jitter"@,
            FaultEventKind::PacketLoss => "packetloss"@,
            FaultEventKind::HttpResponseFault => "httperror"@,
        }
    }

    /// The event type name ("latency", "dns", ..., "httperror").
    pub fn event_type(&self) -> (r: String)
        ensures
            r@ == self.spec_event_type(),
    {
        match self {
            FaultEventKind::Latency => String::from_str("latency"),
            FaultEventKind::Dns => String::from_str("dns"),
            FaultEventKind::Bandwidth => String::from_str("bandwidth"),
            FaultEventKind::Jitter => String::from_str("jitter"),
            FaultEventKind::PacketLoss => String::from_str("packetloss"),
            FaultEventKind::HttpResponseFault => String::from_str("httperror"),
        }
    }
}

} // verus!
