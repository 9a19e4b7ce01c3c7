//! Transports by speed.
use std::cmp::Ordering;
use vstd::prelude::*;
use vstd::std_specs::cmp::PartialOrdSpec;

verus! {

/// The level of a transport for single-sided communication, from the slowest to
/// the fastest.
#[derive(Debug, Clone, Copy, PartialEq, Eq, Structural, Ord, Hash)]
pub enum RdmaTransportLevel {
    /// TCP/IP sockets, the fallback.
    Tcp,
    /// An RDMA NIC (RoCE, InfiniBand, EFA).
    Nic,
    /// The HCCS interconnect inside a supernode of Ascend NPUs.
    Hccs,
    /// Direct memory access (NVLink, shared memory).
    Memory,
}

impl RdmaTransportLevel {
    /// How many levels are slower.
    pub open spec fn slower_levels(self) -> u8 {
        match self {
            RdmaTransportLevel::Tcp => 0,
            RdmaTransportLevel::Nic => 1,
            RdmaTransportLevel::Hccs => 2,
            RdmaTransportLevel::Memory => 3,
        }
    }

    fn level(self) -> (level: u8)
        ensures
            level == self.slower_levels(),
    {
        match self {
            RdmaTransportLevel::Tcp => 0,
            RdmaTransportLevel::Nic => 1,
            RdmaTransportLevel::Hccs => 2,
            RdmaTransportLevel::Memory => 3,
        }
    }
}

impl PartialOrd for RdmaTransportLevel {
    fn partial_cmp(&self, other: &Self) -> (order: Option<Ordering>) {
        let left: u8 = self.level();
        let right: u8 = other.level();
        if left < right {
            Some(Ordering::Less)
        } else if left == right {
            Some(Ordering::Equal)
        } else {
            Some(Ordering::Greater)
        }
    }
}

impl vstd::std_specs::cmp::PartialOrdSpecImpl for RdmaTransportLevel {
    open spec fn obeys_partial_cmp_spec() -> bool {
        true
    }

    open spec fn partial_cmp_spec(&self, other: &Self) -> Option<Ordering> {
        if self.slower_levels() < other.slower_levels() {
            Some(Ordering::Less)
        } else if self.slower_levels() == other.slower_levels() {
            Some(Ordering::Equal)
        } else {
            Some(Ordering::Greater)
        }
    }
}

/// Two levels compare as equal exactly when they are the same, and of two
/// different levels one is the slower.
pub proof fn law_levels_are_in_line(left: RdmaTransportLevel, right: RdmaTransportLevel)
    ensures
        left.partial_cmp_spec(&right) == Some(Ordering::Equal) <==> left == right,
        left.partial_cmp_spec(&right) == Some(Ordering::Less) <==> right.partial_cmp_spec(&left)
            == Some(Ordering::Greater),
        left.partial_cmp_spec(&right) is Some,
{
}

/// The levels are, from the slowest to the fastest: TCP, NIC, HCCS, memory.
pub proof fn law_slowest_to_fastest(level: RdmaTransportLevel)
    ensures
        level != RdmaTransportLevel::Tcp ==> RdmaTransportLevel::Tcp.partial_cmp_spec(&level)
            == Some(Ordering::Less),
        level != RdmaTransportLevel::Memory ==> level.partial_cmp_spec(&RdmaTransportLevel::Memory)
            == Some(Ordering::Less),
        RdmaTransportLevel::Nic.partial_cmp_spec(&RdmaTransportLevel::Hccs) == Some(
            Ordering::Less,
        ),
{
}

} // verus!
