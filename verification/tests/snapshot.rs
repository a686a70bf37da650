use hostprobe::interfaces::InterfaceReading;
use hostprobe::snapshot::Observation;
use hostprobe::snapshot::ProbeError;
use hostprobe::snapshot::Snapshot;
use hostprobe::snapshot::SystemReading;

fn reading(name: &str, received: u64, transmitted: u64) -> InterfaceReading {
    InterfaceReading { name: name.to_string(), received, transmitted }
}

#[test]
fn assemble_keeps_the_reading_and_sums_the_counters() {
    let system = SystemReading {
        cpu_usage_bits: 12.5f32.to_bits(),
        used_memory: 3_000_000_000,
        total_memory: 8_000_000_000,
    };
    let list = vec![reading("lo", 5, 7), reading("eth0", 10, 1)];
    let snapshot = Snapshot::assemble(system, &list);
    assert_eq!(
        snapshot,
        Ok(Snapshot {
            cpu_usage_bits: 0x4148_0000,
            used_memory: 3_000_000_000,
            total_memory: 8_000_000_000,
            total_received: 15,
            total_transmitted: 8,
        })
    );
}

#[test]
fn assemble_without_interfaces_has_zero_totals() {
    let system = SystemReading { cpu_usage_bits: 0, used_memory: 1, total_memory: 2 };
    let snapshot = Snapshot::assemble(system, &[]).unwrap();
    assert_eq!(snapshot.total_received, 0);
    assert_eq!(snapshot.total_transmitted, 0);
}

#[test]
fn assemble_reports_totals_that_do_not_fit() {
    let system = SystemReading { cpu_usage_bits: 0, used_memory: 1, total_memory: 2 };
    let list = vec![reading("a", u64::MAX, 0), reading("b", 1, 0)];
    assert_eq!(Snapshot::assemble(system, &list), Err(ProbeError::CounterOverflow));
}

#[test]
fn memory_in_use_stays_within_the_total() {
    let system = SystemReading { cpu_usage_bits: 0, used_memory: 4_096, total_memory: 4_096 };
    let snapshot = Snapshot::assemble(system, &[reading("lo", 1, 1)]).unwrap();
    assert!(snapshot.used_memory <= snapshot.total_memory);
}

#[test]
fn the_tuple_lists_the_fields_in_order() {
    let snapshot = Snapshot {
        cpu_usage_bits: 50.0f32.to_bits(),
        used_memory: 2,
        total_memory: 3,
        total_received: 4,
        total_transmitted: 5,
    };
    let (cpu, used, total, received, transmitted) = snapshot.as_tuple();
    assert_eq!(f32::from_bits(cpu), 50.0);
    assert_eq!((used, total, received, transmitted), (2, 3, 4, 5));
}

#[test]
fn probe_errors_have_their_messages() {
    assert_eq!(ProbeError::Unavailable.message(), "probe unavailable");
    assert_eq!(ProbeError::CounterOverflow.message(), "interface counters overflow");
}

#[test]
fn a_probe_that_read_both_handles_returns_the_snapshot_and_the_list() {
    let system = SystemReading { cpu_usage_bits: 7, used_memory: 10, total_memory: 20 };
    let list = vec![reading("lo", 5, 7), reading("eth0", 10, 1)];
    let observation = Observation::conclude(Some(system), Some(list)).unwrap();
    assert_eq!(
        observation.snapshot,
        Snapshot {
            cpu_usage_bits: 7,
            used_memory: 10,
            total_memory: 20,
            total_received: 15,
            total_transmitted: 8,
        }
    );
    assert_eq!(observation.interfaces, vec![reading("lo", 5, 7), reading("eth0", 10, 1)]);
}

#[test]
fn a_probe_without_its_sampler_is_unavailable() {
    let list = vec![reading("lo", 5, 7)];
    assert_eq!(Observation::conclude(None, Some(list)), Err(ProbeError::Unavailable));
}

#[test]
fn a_probe_without_its_enumerator_is_unavailable() {
    let system = SystemReading { cpu_usage_bits: 7, used_memory: 10, total_memory: 20 };
    assert_eq!(Observation::conclude(Some(system), None), Err(ProbeError::Unavailable));
    assert_eq!(Observation::conclude(None, None), Err(ProbeError::Unavailable));
}

#[test]
fn a_probe_whose_counters_overflow_says_so() {
    let system = SystemReading { cpu_usage_bits: 7, used_memory: 10, total_memory: 20 };
    let list = vec![reading("a", 0, u64::MAX), reading("b", 0, 1)];
    assert_eq!(Observation::conclude(Some(system), Some(list)), Err(ProbeError::CounterOverflow));
}

#[test]
fn a_missing_handle_outweighs_an_overflow() {
    let list = vec![reading("a", u64::MAX, 0), reading("b", 1, 0)];
    assert_eq!(Observation::conclude(None, Some(list)), Err(ProbeError::Unavailable));
}
