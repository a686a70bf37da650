//! The shared telemetry probe.
//!
//! A probe owns two handles into the operating system, a CPU and memory
//! sampler and an enumerator of network interfaces, each behind a lock of its
//! own. One call refreshes and reads the first under its lock, lets go of it,
//! and only then does the same with the second: the two locks are never held
//! together.

use crate::interfaces::distinct_names;
use crate::interfaces::InterfaceReading;
use crate::snapshot::Observation;
use crate::snapshot::ProbeError;
use crate::snapshot::SystemReading;
use std::sync::Mutex;
use std::sync::MutexGuard;
use sysinfo::Networks;
use sysinfo::System;
use vstd::prelude::*;

verus! {

/// `sysinfo::System`, the CPU and memory sampler. Opaque: nothing is claimed
/// of what a value holds.
#[verifier::external_type_specification]
#[verifier::external_body]
pub struct ExSystem(sysinfo::System);

/// `sysinfo::Networks`, the enumerator of network interfaces. Opaque.
#[verifier::external_type_specification]
#[verifier::external_body]
pub struct ExNetworks(sysinfo::Networks);

/// `sysinfo::NetworkData`, the counters of one interface inside a
/// `Networks`. Opaque; declared because `Networks` hands it out.
#[verifier::external_type_specification]
#[verifier::external_body]
pub struct ExNetworkData(sysinfo::NetworkData);

/// `std::sync::Mutex`. Opaque.
#[verifier::external_type_specification]
#[verifier::external_body]
#[verifier::reject_recursive_types(T)]
pub struct ExMutex<T: ?Sized>(std::sync::Mutex<T>);

/// `std::sync::MutexGuard`, which holds a lock until it is dropped. Opaque.
#[verifier::external_type_specification]
#[verifier::external_body]
#[verifier::reject_recursive_types(T)]
pub struct ExMutexGuard<'a, T: ?Sized + 'a>(std::sync::MutexGuard<'a, T>);

/// `System::new` creates a sampler with nothing loaded.
pub assume_specification[ sysinfo::System::new ]() -> (system: System);

/// `System::refresh_cpu_all` samples the usage of all CPUs again. What the
/// sampler holds afterwards depends on the machine: nothing is claimed.
pub assume_specification[ sysinfo::System::refresh_cpu_all ](system: &mut System);

/// `System::refresh_memory` reads RAM and swap usage again. What the sampler
/// holds afterwards depends on the machine: nothing is claimed.
pub assume_specification[ sysinfo::System::refresh_memory ](system: &mut System);

/// `System::used_memory` returns the bytes of RAM in use as of the last
/// refresh. Nothing is claimed of the number.
pub assume_specification[ sysinfo::System::used_memory ](system: &System) -> (bytes: u64);

/// `System::total_memory` returns the RAM size in bytes as of the last
/// refresh. Nothing is claimed of the number.
pub assume_specification[ sysinfo::System::total_memory ](system: &System) -> (bytes: u64);

/// `Networks::new_with_refreshed_list` creates an enumerator and loads the
/// interface list once. Nothing is claimed of what it lists.
pub assume_specification[ sysinfo::Networks::new_with_refreshed_list ]() -> (networks: Networks);

/// `Networks::refresh` reads the interfaces again; with `true` it drops those
/// that are gone. What is listed afterwards depends on the machine: nothing
/// is claimed.
pub assume_specification[ sysinfo::Networks::refresh ](
    networks: &mut Networks,
    remove_not_listed_interfaces: bool,
);

/// `sysinfo::MINIMUM_CPU_UPDATE_INTERVAL`, the shortest time between two CPU
/// refreshes that gives a usable reading, in milliseconds. The value differs
/// between platforms: nothing is claimed of it.
#[verifier::external_body]
fn minimum_cpu_interval_millis() -> (millis: u64) {
    sysinfo::MINIMUM_CPU_UPDATE_INTERVAL.as_millis() as u64
}

/// `System::global_cpu_usage`, the usage over all CPUs in percent as of the
/// last refresh, handed on as the bit pattern of the number. Nothing is
/// claimed of the bits.
#[verifier::external_body]
fn cpu_usage_bits(system: &System) -> (bits: u32) {
    system.global_cpu_usage().to_bits()
}

/// Walks the map of interfaces inside a `Networks` and hands out, for each
/// entry, its name with `NetworkData::total_received` and
/// `NetworkData::total_transmitted`. The entries are the keys of a hash map,
/// so no name comes twice; the order of the walk is not fixed and nothing is
/// claimed of it.
#[verifier::external_body]
fn list_interfaces(networks: &Networks) -> (list: Vec<InterfaceReading>)
    ensures
        distinct_names(list@),
{
    networks.iter().map(
        |(name, data)|
            InterfaceReading {
                name: name.clone(),
                received: data.total_received(),
                transmitted: data.total_transmitted(),
            },
    ).collect()
}

/// `Mutex::new` puts a value behind a lock.
#[verifier::external_body]
fn behind_lock<T>(value: T) -> (handle: Mutex<T>) {
    Mutex::new(value)
}

/// `Mutex::lock` waits for the lock and returns its guard, or an error where
/// an earlier holder panicked, which comes out as `None`. The lock is held
/// until the guard is dropped. A thread that holds the lock must not ask for
/// it again: the probe takes each lock in a function of its own and lets the
/// guard go before that function returns.
#[verifier::external_body]
fn lock<T>(handle: &Mutex<T>) -> (guard: Option<MutexGuard<'_, T>>) {
    handle.lock().ok()
}

/// `DerefMut::deref_mut` of a `MutexGuard`: the value that the lock protects.
#[verifier::external_body]
fn guarded<'a, T>(guard: &'a mut MutexGuard<'_, T>) -> (value: &'a mut T) {
    &mut **guard
}

/// Both handles right after they were created, with the first CPU sample
/// taken. A CPU usage reading compares two samples, so the second must wait:
/// let `wait_millis` pass, then call `warm_up`.
pub struct ColdProbe {
    system: System,
    networks: Networks,
    /// The shortest wait before `warm_up` that gives a usable CPU reading.
    pub wait_millis: u64,
}

/// The process-wide probe.
pub struct TelemetryProbe {
    system: Mutex<System>,
    networks: Mutex<Networks>,
}

impl ColdProbe {
    /// Creates the sampler, with memory and CPU read once, and the
    /// enumerator, with the interface list loaded.
    pub fn start() -> (cold: ColdProbe) {
        let mut system = System::new();
        system.refresh_memory();
        system.refresh_cpu_all();
        let networks = Networks::new_with_refreshed_list();
        ColdProbe { system, networks, wait_millis: minimum_cpu_interval_millis() }
    }

    /// Takes the second CPU and memory sample and puts each handle behind its
    /// lock.
    pub fn warm_up(self) -> (probe: TelemetryProbe) {
        let mut system = self.system;
        system.refresh_cpu_all();
        system.refresh_memory();
        TelemetryProbe { system: behind_lock(system), networks: behind_lock(self.networks) }
    }
}

impl TelemetryProbe {
    /// Refreshes the sampler and reads it, all under the sampler's lock. The
    /// lock is free again on return.
    fn sample_system(&self) -> (reading: Option<SystemReading>) {
        read_sampler(lock(&self.system))
    }

    /// Enumerates the interfaces again, dropping those that are gone, and
    /// reads their counters, all under the enumerator's lock. The lock is
    /// free again on return.
    fn sample_interfaces(&self) -> (list: Option<Vec<InterfaceReading>>)
        ensures
            list matches Some(l) ==> distinct_names(l@),
    {
        list_enumerator(lock(&self.networks))
    }

    /// Takes one snapshot and returns it with the interfaces it was summed
    /// over.
    ///
    /// The sampler is refreshed and read first, the enumerator after it. The
    /// call waits for a lock that another caller holds. A poisoned lock gives
    /// `Unavailable`, totals beyond 64 bits give `CounterOverflow`. What the
    /// snapshot holds is what the operating system reported: of a snapshot
    /// that is returned, the totals are the exact sums over the returned
    /// list.
    pub fn observe(&self) -> (result: Result<Observation, ProbeError>)
        ensures
            result matches Ok(observation) ==> observation.consistent(),
    {
        let system = self.sample_system();
        let interfaces = if system.is_some() {
            self.sample_interfaces()
        } else {
            None
        };
        Observation::conclude(system, interfaces)
    }
}

/// What the sampler gives once its lock was asked for. With the lock in hand
/// the sampler is refreshed, CPU first and memory after, and then read; the
/// guard, and with it the lock, is let go before the function returns. A
/// reading is owed whenever the lock was acquired: `None` stands for a lock
/// that could not be taken, and for nothing else.
fn read_sampler(guard: Option<MutexGuard<'_, System>>) -> (reading: Option<SystemReading>)
    ensures
        reading is Some <==> guard is Some,
{
    match guard {
        Some(mut guard) => {
            let system = guarded(&mut guard);
            system.refresh_cpu_all();
            system.refresh_memory();
            let cpu_usage_bits: u32 = cpu_usage_bits(system);
            let used_memory: u64 = system.used_memory();
            let total_memory: u64 = system.total_memory();
            Some(SystemReading { cpu_usage_bits, used_memory, total_memory })
        },
        None => None,
    }
}

/// What the enumerator gives once its lock was asked for. With the lock in
/// hand the interfaces are enumerated again, those that are gone are dropped,
/// and the counters of the rest are read; the guard, and with it the lock, is
/// let go before the function returns. A list is owed whenever the lock was
/// acquired, and it names each interface once.
fn list_enumerator(guard: Option<MutexGuard<'_, Networks>>) -> (list: Option<
    Vec<InterfaceReading>,
>)
    ensures
        list is Some <==> guard is Some,
        list matches Some(l) ==> distinct_names(l@),
{
    match guard {
        Some(mut guard) => {
            let networks = guarded(&mut guard);
            networks.refresh(true);
            Some(list_interfaces(networks))
        },
        None => None,
    }
}

} // verus!
