//! Byte counters of the enumerated network interfaces, and their totals.

use vstd::prelude::*;

verus! {

/// The cumulative byte counters of one named network interface.
#[derive(Debug, PartialEq, Eq)]
pub struct InterfaceReading {
    pub name: String,
    pub received: u64,
    pub transmitted: u64,
}

/// Received and transmitted bytes, summed over a list of interfaces.
#[derive(Debug, Clone, Copy, PartialEq, Eq)]
pub struct Totals {
    pub received: u64,
    pub transmitted: u64,
}

/// The sum of a sequence of counters, as an unbounded number.
pub open spec fn sum(values: Seq<u64>) -> nat
    decreases values.len(),
{
    if values.len() == 0 {
        0
    } else {
        sum(values.drop_last()) + values.last() as nat
    }
}

/// The received-bytes counter of each interface, in list order.
pub open spec fn received_column(list: Seq<InterfaceReading>) -> Seq<u64> {
    Seq::new(list.len(), |i: int| list[i].received)
}

/// The transmitted-bytes counter of each interface, in list order.
pub open spec fn transmitted_column(list: Seq<InterfaceReading>) -> Seq<u64> {
    Seq::new(list.len(), |i: int| list[i].transmitted)
}

/// Bytes received over all listed interfaces.
pub open spec fn total_received(list: Seq<InterfaceReading>) -> nat {
    sum(received_column(list))
}

/// Bytes transmitted over all listed interfaces.
pub open spec fn total_transmitted(list: Seq<InterfaceReading>) -> nat {
    sum(transmitted_column(list))
}

/// No two entries of the list carry the same interface name.
pub open spec fn distinct_names(list: Seq<InterfaceReading>) -> bool {
    forall|i: int, j: int|
        #![trigger list[i], list[j]]
        0 <= i < j < list.len() ==> list[i].name@ != list[j].name@
}

/// `after` is a later reading of the interface that `before` was read from:
/// the name is the same and neither counter has gone down.
pub open spec fn continues(before: InterfaceReading, after: InterfaceReading) -> bool {
    &&& after.name@ == before.name@
    &&& before.received <= after.received
    &&& before.transmitted <= after.transmitted
}

/// `later` holds a later reading of the interface that `before` was read from.
pub open spec fn still_listed(before: InterfaceReading, later: Seq<InterfaceReading>) -> bool {
    exists|j: int| 0 <= j < later.len() && #[trigger] continues(before, later[j])
}

/// Every interface of `earlier` is still listed in `later`, with counters
/// that have not gone down. `later` may list further interfaces.
pub open spec fn carried_over(earlier: Seq<InterfaceReading>, later: Seq<InterfaceReading>) -> bool {
    forall|i: int| 0 <= i < earlier.len() ==> #[trigger] still_listed(earlier[i], later)
}

/// Extending a prefix by one element adds that element to the sum.
proof fn lemma_sum_step(values: Seq<u64>, k: int)
    requires
        0 <= k < values.len(),
    ensures
        sum(values.take(k + 1)) == sum(values.take(k)) + values[k] as nat,
{
    assert(values.take(k + 1).drop_last() =~= values.take(k));
}

/// A prefix never sums to more than the whole sequence.
proof fn lemma_sum_prefix(values: Seq<u64>, k: int)
    requires
        0 <= k <= values.len(),
    ensures
        sum(values.take(k)) <= sum(values),
    decreases values.len() - k,
{
    if k == values.len() {
        assert(values.take(k) =~= values);
    } else {
        lemma_sum_step(values, k);
        lemma_sum_prefix(values, k + 1);
    }
}

/// Taking one element out of a sequence lowers the sum by that element.
proof fn lemma_sum_remove(values: Seq<u64>, j: int)
    requires
        0 <= j < values.len(),
    ensures
        sum(values) == sum(values.remove(j)) + values[j] as nat,
    decreases values.len(),
{
    if j == values.len() - 1 {
        assert(values.remove(j) =~= values.drop_last());
    } else {
        lemma_sum_remove(values.drop_last(), j);
        assert(values.remove(j).drop_last() =~= values.drop_last().remove(j));
    }
}

/// Cumulative totals never shrink while no interface is removed: if every
/// interface of an earlier enumeration is still listed in a later one, with
/// counters that have not gone down, then neither total has gone down.
pub proof fn lemma_totals_never_shrink(
    earlier: Seq<InterfaceReading>,
    later: Seq<InterfaceReading>,
)
    requires
        distinct_names(earlier),
        carried_over(earlier, later),
    ensures
        total_received(earlier) <= total_received(later),
        total_transmitted(earlier) <= total_transmitted(later),
    decreases earlier.len(),
{
    if earlier.len() > 0 {
        let last = earlier.len() - 1;
        assert(still_listed(earlier[last], later));
        let j = choose|j: int| 0 <= j < later.len() && continues(earlier[last], later[j]);
        let rest = earlier.drop_last();
        let others = later.remove(j);
        assert forall|i: int| 0 <= i < rest.len() implies #[trigger] still_listed(
            rest[i],
            others,
        ) by {
            assert(still_listed(earlier[i], later));
            let m = choose|m: int| 0 <= m < later.len() && continues(earlier[i], later[m]);
            assert(earlier[i].name@ != earlier[last].name@);
            if m < j {
                assert(continues(rest[i], others[m]));
            } else {
                assert(continues(rest[i], others[m - 1]));
            }
        }
        assert forall|a: int, b: int| 0 <= a < b < rest.len() implies rest[a].name@
            != rest[b].name@ by {
            assert(earlier[a].name@ != earlier[b].name@);
        }
        lemma_totals_never_shrink(rest, others);
        lemma_sum_remove(received_column(later), j);
        lemma_sum_remove(transmitted_column(later), j);
        assert(received_column(later).remove(j) =~= received_column(others));
        assert(transmitted_column(later).remove(j) =~= transmitted_column(others));
        assert(received_column(earlier).drop_last() =~= received_column(rest));
        assert(transmitted_column(earlier).drop_last() =~= transmitted_column(rest));
    }
}

/// The totals do not depend on the order of the list: two enumerations that
/// name each interface once, and in which every interface of either is
/// carried over into the other, sum to the same totals.
pub proof fn lemma_totals_ignore_order(first: Seq<InterfaceReading>, second: Seq<InterfaceReading>)
    requires
        distinct_names(first),
        distinct_names(second),
        carried_over(first, second),
        carried_over(second, first),
    ensures
        total_received(first) == total_received(second),
        total_transmitted(first) == total_transmitted(second),
{
    lemma_totals_never_shrink(first, second);
    lemma_totals_never_shrink(second, first);
}

/// Sums the counters of the listed interfaces.
///
/// The totals are exact: where either of them does not fit in 64 bits the
/// result is `None`.
pub fn sum_totals(list: &[InterfaceReading]) -> (totals: Option<Totals>)
    ensures
        totals is Some <==> total_received(list@) <= u64::MAX && total_transmitted(list@)
            <= u64::MAX,
        totals matches Some(t) ==> t.received == total_received(list@) && t.transmitted
            == total_transmitted(list@),
{
    let mut received: u64 = 0;
    let mut transmitted: u64 = 0;
    let mut i: usize = 0;
    while i < list.len()
        invariant
            i <= list.len(),
            received == sum(received_column(list@).take(i as int)),
            transmitted == sum(transmitted_column(list@).take(i as int)),
        decreases list.len() - i,
    {
        proof {
            lemma_sum_step(received_column(list@), i as int);
            lemma_sum_step(transmitted_column(list@), i as int);
            lemma_sum_prefix(received_column(list@), i + 1);
            lemma_sum_prefix(transmitted_column(list@), i + 1);
        }
        match received.checked_add(list[i].received) {
            Some(next) => {
                received = next;
            },
            None => {
                return None;
            },
        }
        match transmitted.checked_add(list[i].transmitted) {
            Some(next) => {
                transmitted = next;
            },
            None => {
                return None;
            },
        }
        i += 1;
    }
    proof {
        assert(received_column(list@).take(i as int) =~= received_column(list@));
        assert(transmitted_column(list@).take(i as int) =~= transmitted_column(list@));
    }
    Some(Totals { received, transmitted })
}

} // verus!
