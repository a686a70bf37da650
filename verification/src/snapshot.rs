//! The record that one probe call returns.

use crate::interfaces::distinct_names;
use crate::interfaces::sum_totals;
use crate::interfaces::total_received;
use crate::interfaces::total_transmitted;
use crate::interfaces::InterfaceReading;
use vstd::prelude::*;

verus! {

/// What the CPU and memory sampler showed after one refresh.
///
/// The CPU usage is a single-precision percentage, carried as its bit
/// pattern: the probe hands it through and never computes with it.
#[derive(Debug, Clone, Copy, PartialEq, Eq, Structural)]
pub struct SystemReading {
    pub cpu_usage_bits: u32,
    pub used_memory: u64,
    pub total_memory: u64,
}

/// One point-in-time read of all telemetry fields.
#[derive(Debug, Clone, Copy, PartialEq, Eq, Structural)]
pub struct Snapshot {
    /// Global CPU usage in percent, as the bit pattern of a single-precision number.
    pub cpu_usage_bits: u32,
    /// Memory in use, in bytes.
    pub used_memory: u64,
    /// Memory installed, in bytes.
    pub total_memory: u64,
    /// Cumulative bytes received, summed over the enumerated interfaces.
    pub total_received: u64,
    /// Cumulative bytes transmitted, summed over the enumerated interfaces.
    pub total_transmitted: u64,
}

/// Why a probe call returned no snapshot.
#[derive(Debug, Clone, Copy, PartialEq, Eq, Structural)]
pub enum ProbeError {
    /// A handle's lock was left poisoned by a holder that panicked.
    Unavailable,
    /// The counters of the interfaces sum to more than 64 bits hold.
    CounterOverflow,
}

/// A snapshot together with the interface list that its totals were summed
/// over.
#[derive(Debug, PartialEq, Eq)]
pub struct Observation {
    pub snapshot: Snapshot,
    pub interfaces: Vec<InterfaceReading>,
}

impl ProbeError {
    /// The text under which the error is reported to a caller.
    pub fn message(&self) -> (text: String)
        ensures
            *self == ProbeError::Unavailable ==> text@ == "probe unavailable"@,
            *self == ProbeError::CounterOverflow ==> text@ == "interface counters overflow"@,
    {
        match self {
            ProbeError::Unavailable => "probe unavailable".to_owned(),
            ProbeError::CounterOverflow => "interface counters overflow".to_owned(),
        }
    }
}

impl Snapshot {
    /// The snapshot reports no more memory in use than is installed.
    pub open spec fn memory_within_total(self) -> bool {
        self.used_memory <= self.total_memory
    }

    /// Combines a sampler reading with the totals over the enumerated
    /// interfaces.
    ///
    /// The sampler's values are kept as they are and each total is the exact
    /// sum of the listed counters; a sum that does not fit in 64 bits is
    /// reported as `CounterOverflow`. The snapshot keeps memory use within
    /// the total whenever the reading does.
    pub fn assemble(system: SystemReading, interfaces: &[InterfaceReading]) -> (result: Result<
        Snapshot,
        ProbeError,
    >)
        ensures
            result is Ok <==> total_received(interfaces@) <= u64::MAX && total_transmitted(
                interfaces@,
            ) <= u64::MAX,
            result matches Ok(s) ==> {
                &&& s.cpu_usage_bits == system.cpu_usage_bits
                &&& s.used_memory == system.used_memory
                &&& s.total_memory == system.total_memory
                &&& s.total_received == total_received(interfaces@)
                &&& s.total_transmitted == total_transmitted(interfaces@)
            },
            result matches Ok(s) ==> (system.used_memory <= system.total_memory
                ==> s.memory_within_total()),
            result matches Err(e) ==> e == ProbeError::CounterOverflow,
    {
        match sum_totals(interfaces) {
            Some(totals) => Ok(
                Snapshot {
                    cpu_usage_bits: system.cpu_usage_bits,
                    used_memory: system.used_memory,
                    total_memory: system.total_memory,
                    total_received: totals.received,
                    total_transmitted: totals.transmitted,
                },
            ),
            None => Err(ProbeError::CounterOverflow),
        }
    }

    /// The five fields in the order in which a host receives them.
    pub fn as_tuple(&self) -> (fields: (u32, u64, u64, u64, u64))
        ensures
            fields == (
                self.cpu_usage_bits,
                self.used_memory,
                self.total_memory,
                self.total_received,
                self.total_transmitted,
            ),
    {
        (
            self.cpu_usage_bits,
            self.used_memory,
            self.total_memory,
            self.total_received,
            self.total_transmitted,
        )
    }
}

impl Observation {
    /// The list names each interface once, and the snapshot's totals are the
    /// sums of the list's counters.
    pub open spec fn consistent(self) -> bool {
        &&& distinct_names(self.interfaces@)
        &&& self.snapshot.total_received == total_received(self.interfaces@)
        &&& self.snapshot.total_transmitted == total_transmitted(self.interfaces@)
    }

    /// Decides what a probe call returns from what its two handles gave. A
    /// handle gives `None` where its lock could not be taken.
    ///
    /// With either handle missing the probe is `Unavailable`. With both read,
    /// the result is the snapshot assembled from them, together with the
    /// list, or `CounterOverflow` where a total does not fit in 64 bits.
    pub fn conclude(
        system: Option<SystemReading>,
        interfaces: Option<Vec<InterfaceReading>>,
    ) -> (result: Result<Observation, ProbeError>)
        ensures
            result is Ok <==> system is Some && interfaces is Some && total_received(
                interfaces->Some_0@,
            ) <= u64::MAX && total_transmitted(interfaces->Some_0@) <= u64::MAX,
            result matches Ok(observation) ==> {
                &&& observation.interfaces == interfaces->Some_0
                &&& observation.snapshot.cpu_usage_bits == system->Some_0.cpu_usage_bits
                &&& observation.snapshot.used_memory == system->Some_0.used_memory
                &&& observation.snapshot.total_memory == system->Some_0.total_memory
                &&& observation.snapshot.total_received == total_received(interfaces->Some_0@)
                &&& observation.snapshot.total_transmitted == total_transmitted(
                    interfaces->Some_0@,
                )
            },
            result matches Err(error) ==> error == if system is None || interfaces is None {
                ProbeError::Unavailable
            } else {
                ProbeError::CounterOverflow
            },
    {
        match (system, interfaces) {
            (Some(reading), Some(list)) => match Snapshot::assemble(reading, list.as_slice()) {
                Ok(snapshot) => Ok(Observation { snapshot, interfaces: list }),
                Err(error) => Err(error),
            },
            _ => Err(ProbeError::Unavailable),
        }
    }
}

} // verus!
