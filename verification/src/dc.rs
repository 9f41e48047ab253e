//! Distributed Clocks (DC): parent/child relationships and propagation delays.
//!
//! SubDevices are discovered in network order. Each SubDevice's parent is found among the ones
//! before it, the parent's next free port is linked to it, and the time a frame takes to reach it
//! is accumulated from the receive times latched in the ports of both.
use vstd::prelude::*;
use crate::error::Error;
use crate::ports::{Port, Ports, Topology};
use crate::subdevice::SubDevice;
use vstd::slice::slice_subrange;

verus! {

/// The first position at or after `j` in `s` whose SubDevice has index `idx`, or -1.
pub open spec fn position_of_index(s: Seq<SubDevice>, idx: u16, j: int) -> int
    decreases s.len() - j,
{
    if j < 0 || j >= s.len() {
        -1
    } else if s[j].index == idx {
        j
    } else {
        position_of_index(s, idx, j + 1)
    }
}

/// The last position at or before `k` whose SubDevice is a fork or a cross, or -1.
pub open spec fn junction_at_or_before(s: Seq<SubDevice>, k: int) -> int
    decreases k + 1,
{
    if k < 0 {
        -1
    } else if s[k].ports.spec_topology().spec_is_junction() {
        k
    } else {
        junction_at_or_before(s, k - 1)
    }
}

/// Every SubDevice visited by the backward search from `k` has an open port.
pub open spec fn junction_search_defined(s: Seq<SubDevice>, k: int) -> bool
    decreases k + 1,
{
    k < 0 || (s[k].ports.active_count() >= 1 && (s[k].ports.spec_topology().spec_is_junction()
        || junction_search_defined(s, k - 1)))
}

/// The parent search over `parents` looks only at SubDevices with an open port.
pub open spec fn parent_search_defined(parents: Seq<SubDevice>) -> bool {
    parents.len() == 0 || {
        let last = parents[parents.len() - 1];
        &&& last.ports.active_count() >= 1
        &&& (last.ports.spec_topology() == Topology::LineEnd ==> junction_search_defined(
            parents,
            parents.len() - 2,
        ))
    }
}

/// The parent of a SubDevice that follows `parents` in the network: none for the first one, the
/// closest junction when the previous SubDevice ends a line, else the previous SubDevice.
pub open spec fn spec_find_parent(parents: Seq<SubDevice>) -> Result<Option<u16>, Error> {
    if parents.len() == 0 {
        Ok(None)
    } else if parents[parents.len() - 1].ports.spec_topology() == Topology::LineEnd {
        let k = junction_at_or_before(parents, parents.len() - 2);
        if k >= 0 {
            Ok(Some(parents[k].index))
        } else {
            Err(Error::Topology)
        }
    } else {
        Ok(Some(parents[parents.len() - 1].index))
    }
}

/// An optional time, or zero.
pub open spec fn or_zero(t: Option<u32>) -> int {
    match t {
        Some(v) => v as int,
        None => 0,
    }
}

/// The propagation delay from `parent` to `sub`, before it is added to the accumulated delay.
pub open spec fn spec_propagation_delay(sub: SubDevice, parent: SubDevice, accum: u32) -> int {
    let parent_time = or_zero(parent.ports.spec_total_propagation_time());
    let this_time = or_zero(sub.ports.spec_total_propagation_time());
    let k = parent.ports.assigned_index(sub.index);
    match parent.ports.spec_topology() {
        Topology::Passthrough => (parent_time - this_time) / 2,
        Topology::Fork => if sub.spec_is_child_of(parent) {
            (or_zero(parent.ports.spec_propagation_time_to(k)) - this_time) / 2
        } else {
            (parent_time - this_time) / 2
        },
        Topology::Cross => if sub.spec_is_child_of(parent) {
            (parent.ports.spec_intermediate_time(k) - this_time) / 2
        } else {
            parent_time - accum
        },
        Topology::LineEnd => 0,
    }
}

/// The position in `parents` of the parent of `sub`, or -1.
pub open spec fn parent_position(sub: SubDevice, parents: Seq<SubDevice>) -> int {
    match sub.parent_index {
        Some(p) => position_of_index(parents, p, 0),
        None => -1,
    }
}

/// The delay computation for `sub` takes no value out of range: its parent has a port assigned
/// to it, both have an open port, no time difference is negative and the sum fits in a `u32`.
pub open spec fn offsets_defined(sub: SubDevice, parents: Seq<SubDevice>, accum: u32) -> bool {
    let j = parent_position(sub, parents);
    j < 0 || {
        let parent = parents[j];
        let parent_time = or_zero(parent.ports.spec_total_propagation_time());
        let this_time = or_zero(sub.ports.spec_total_propagation_time());
        let k = parent.ports.assigned_index(sub.index);
        &&& k >= 0
        &&& sub.ports.active_count() >= 1
        &&& parent.ports.active_count() >= 1
        &&& parent.ports.wf()
        &&& match parent.ports.spec_topology() {
            Topology::Passthrough => parent_time >= this_time,
            Topology::Fork => if sub.spec_is_child_of(parent) {
                or_zero(parent.ports.spec_propagation_time_to(k)) >= this_time
            } else {
                parent_time >= this_time
            },
            Topology::Cross => if sub.spec_is_child_of(parent) {
                parent.ports.intermediate_time_defined(k) && parent.ports.spec_intermediate_time(k)
                    >= this_time
            } else {
                parent_time >= accum
            },
            Topology::LineEnd => true,
        }
        &&& accum + spec_propagation_delay(sub, parent, accum) <= u32::MAX
    }
}

/// `sub` with its propagation delay set, and the new accumulated delay.
pub open spec fn spec_offsets(sub: SubDevice, parents: Seq<SubDevice>, accum: u32) -> (
    SubDevice,
    u32,
) {
    let j = parent_position(sub, parents);
    if j < 0 {
        (sub, accum)
    } else {
        let delay = (accum + spec_propagation_delay(sub, parents[j], accum)) as u32;
        (SubDevice { propagation_delay: delay, ..sub }, delay)
    }
}

/// The propagation delay of a SubDevice behind a passthrough parent is half the difference of
/// the two SubDevices' frame pass times, rounded down; the same holds behind a fork for a
/// SubDevice that is not on the fork's branch. Behind a line end it is zero.
pub proof fn lemma_propagation_delay_halves(sub: SubDevice, parent: SubDevice, accum: u32)
    ensures
        ({
            let d = spec_propagation_delay(sub, parent, accum);
            let diff = or_zero(parent.ports.spec_total_propagation_time()) - or_zero(
                sub.ports.spec_total_propagation_time(),
            );
            (parent.ports.spec_topology() == Topology::Passthrough || (parent.ports.spec_topology()
                == Topology::Fork && !sub.spec_is_child_of(parent))) && diff >= 0 ==> 2 * d <= diff
                < 2 * d + 2
        }),
        parent.ports.spec_topology() == Topology::LineEnd ==> spec_propagation_delay(
            sub,
            parent,
            accum,
        ) == 0,
{
}

/// Setting a SubDevice's delay accumulates: with a parent, the new running delay is the old one
/// plus the delay from the parent, and it is what the SubDevice records; without a parent,
/// neither the SubDevice nor the running delay changes. Nothing else of the SubDevice changes.
pub proof fn lemma_offsets_accumulate(sub: SubDevice, parents: Seq<SubDevice>, accum: u32)
    requires
        offsets_defined(sub, parents, accum),
    ensures
        parent_position(sub, parents) < 0 ==> spec_offsets(sub, parents, accum) == (sub, accum),
        parent_position(sub, parents) >= 0 ==> {
            let (s2, a2) = spec_offsets(sub, parents, accum);
            &&& a2 == accum + spec_propagation_delay(sub, parents[parent_position(sub, parents)], accum)
            &&& s2.propagation_delay == a2
            &&& s2 == (SubDevice { propagation_delay: a2, ..sub })
        },
{
}

/// One iteration of [`assign_parent_relationships`] at position `i`.
pub open spec fn dc_step(s: Seq<SubDevice>, i: int, accum: u32) -> (
    Seq<SubDevice>,
    u32,
    Option<Error>,
) {
    let parents = s.subrange(0, i);
    match spec_find_parent(parents) {
        Err(e) => (s, accum, Some(e)),
        Ok(pi) => {
            let sub = SubDevice { parent_index: pi, ..s[i] };
            let s1 = match pi {
                Some(p) => {
                    let j = position_of_index(parents, p, 0);
                    let ports = s[j].ports;
                    s.update(
                        j,
                        SubDevice {
                            ports: ports.with_downstream(ports.next_assignable_index(), sub.index),
                            ..s[j]
                        },
                    )
                },
                None => s,
            };
            if sub.flags.dc_supported {
                let (sub2, accum2) = spec_offsets(sub, s1.subrange(0, i), accum);
                (s1.update(i, sub2), accum2, None)
            } else {
                (s1.update(i, sub), accum, None)
            }
        },
    }
}

/// The iteration at position `i` takes no value out of range.
pub open spec fn dc_step_defined(s: Seq<SubDevice>, i: int, accum: u32) -> bool {
    let parents = s.subrange(0, i);
    &&& parent_search_defined(parents)
    &&& match spec_find_parent(parents) {
        Ok(Some(p)) => {
            let j = position_of_index(parents, p, 0);
            &&& 0 <= j
            &&& s[j].ports.active_count() >= 1
            &&& s[j].ports.wf()
            &&& s[j].ports.next_assignable_index() >= 0
        },
        _ => true,
    }
    &&& match spec_find_parent(parents) {
        Ok(pi) => s[i].flags.dc_supported ==> offsets_defined(
            SubDevice { parent_index: pi, ..s[i] },
            dc_step(s, i, accum).0.subrange(0, i),
            accum,
        ),
        Err(_) => true,
    }
}

/// The SubDevices, the accumulated delay and the error, if any, after the first `n` iterations of
/// [`assign_parent_relationships`] on `s0`.
pub open spec fn dc_run(s0: Seq<SubDevice>, n: nat) -> (Seq<SubDevice>, u32, Option<Error>)
    decreases n,
{
    if n == 0 {
        (s0, 0, None)
    } else {
        let prev = dc_run(s0, (n - 1) as nat);
        if prev.2 is Some {
            prev
        } else {
            dc_step(prev.0, n - 1, prev.1)
        }
    }
}

/// None of the first `n` iterations on `s0` takes a value out of range.
pub open spec fn dc_run_defined(s0: Seq<SubDevice>, n: nat) -> bool
    decreases n,
{
    n == 0 || {
        let prev = dc_run(s0, (n - 1) as nat);
        &&& dc_run_defined(s0, (n - 1) as nat)
        &&& (prev.2 is None ==> dc_step_defined(prev.0, n - 1, prev.1))
    }
}

proof fn lemma_junction_range(s: Seq<SubDevice>, k: int)
    ensures
        junction_at_or_before(s, k) == -1 || (0 <= junction_at_or_before(s, k) <= k
            && s[junction_at_or_before(s, k)].ports.spec_topology().spec_is_junction()),
    decreases k + 1,
{
    if k >= 0 && !s[k].ports.spec_topology().spec_is_junction() {
        lemma_junction_range(s, k - 1);
    }
}

/// The backward search from `k` stops at the nearest fork or cross: none of the SubDevices after
/// it, up to `k`, is one, and when there is none at all the search gives -1.
proof fn lemma_junction_nearest(s: Seq<SubDevice>, k: int)
    requires
        k < s.len(),
    ensures
        junction_at_or_before(s, k) == -1 ==> forall|i: int|
            0 <= i <= k ==> !(#[trigger] s[i].ports.spec_topology().spec_is_junction()),
        junction_at_or_before(s, k) != -1 ==> {
            let j = junction_at_or_before(s, k);
            &&& 0 <= j <= k
            &&& s[j].ports.spec_topology().spec_is_junction()
            &&& forall|i: int|
                j < i <= k ==> !(#[trigger] s[i].ports.spec_topology().spec_is_junction())
        },
    decreases k + 1,
{
    if k >= 0 && !s[k].ports.spec_topology().spec_is_junction() {
        lemma_junction_nearest(s, k - 1);
    }
}

/// The parent of a SubDevice in network order. The first SubDevice has none. After a SubDevice
/// that is not a line end, the parent is that SubDevice. After a line end, the parent is the
/// nearest fork or cross before the line end, searching backwards: no SubDevice strictly between
/// the two is a fork or a cross. When there is no fork or cross before a line end the topology is
/// refused.
pub proof fn lemma_parent_is_nearest_junction(parents: Seq<SubDevice>)
    ensures
        parents.len() == 0 ==> spec_find_parent(parents) == Ok::<Option<u16>, Error>(None),
        parents.len() > 0 && parents[parents.len() - 1].ports.spec_topology() != Topology::LineEnd
            ==> spec_find_parent(parents) == Ok::<Option<u16>, Error>(
            Some(parents[parents.len() - 1].index),
        ),
        parents.len() > 0 && parents[parents.len() - 1].ports.spec_topology() == Topology::LineEnd
            ==> (spec_find_parent(parents) == Err::<Option<u16>, Error>(Error::Topology) <==> forall|
            i: int,
        | 0 <= i < parents.len() - 1 ==> !(
        #[trigger] parents[i].ports.spec_topology().spec_is_junction())),
        parents.len() > 0 && parents[parents.len() - 1].ports.spec_topology() == Topology::LineEnd
            ==> (spec_find_parent(parents) is Err || exists|k: int|
            {
                &&& 0 <= k < parents.len() - 1
                &&& spec_find_parent(parents) == Ok::<Option<u16>, Error>(Some(parents[k].index))
                &&& #[trigger] parents[k].ports.spec_topology().spec_is_junction()
                &&& forall|i: int|
                    k < i < parents.len() - 1 ==> !(
                    #[trigger] parents[i].ports.spec_topology().spec_is_junction())
            }),
{
    let n = parents.len();
    if n > 0 && parents[n - 1].ports.spec_topology() == Topology::LineEnd {
        lemma_junction_nearest(parents, n - 2);
        let j = junction_at_or_before(parents, n - 2);
        if j != -1 {
            assert(parents[j].ports.spec_topology().spec_is_junction());
        }
    }
}

proof fn lemma_position_found(s: Seq<SubDevice>, idx: u16, j: int, k: int)
    requires
        0 <= j <= k < s.len(),
        s[k].index == idx,
    ensures
        j <= position_of_index(s, idx, j) <= k,
        s[position_of_index(s, idx, j)].index == idx,
    decreases k - j,
{
    if s[j].index != idx {
        lemma_position_found(s, idx, j + 1, k);
    }
}

/// The parent found among `parents` is one of them.
proof fn lemma_found_parent_position(parents: Seq<SubDevice>)
    requires
        spec_find_parent(parents) matches Ok(Some(_)),
    ensures
        spec_find_parent(parents) matches Ok(Some(p)) && 0 <= position_of_index(parents, p, 0)
            < parents.len(),
{
    let n = parents.len();
    if parents[n - 1].ports.spec_topology() == Topology::LineEnd {
        lemma_junction_range(parents, n - 2);
        let k = junction_at_or_before(parents, n - 2);
        lemma_position_found(parents, parents[k].index, 0, k);
    } else {
        lemma_position_found(parents, parents[n - 1].index, 0, n - 1);
    }
}

proof fn lemma_dc_run_len(s0: Seq<SubDevice>, n: nat)
    requires
        n <= s0.len(),
    ensures
        dc_run(s0, n).0.len() == s0.len(),
    decreases n,
{
    if n > 0 {
        lemma_dc_run_len(s0, (n - 1) as nat);
        let prev = dc_run(s0, (n - 1) as nat);
        if prev.2 is None {
            let parents = prev.0.subrange(0, n - 1);
            if let Ok(Some(p)) = spec_find_parent(parents) {
                lemma_found_parent_position(parents);
            }
        }
    }
}

proof fn lemma_position_in_range(s: Seq<SubDevice>, idx: u16, j: int)
    ensures
        position_of_index(s, idx, j) == -1 || (j <= position_of_index(s, idx, j) < s.len()
            && s[position_of_index(s, idx, j)].index == idx),
    decreases s.len() - j,
{
    if 0 <= j < s.len() && s[j].index != idx {
        lemma_position_in_range(s, idx, j + 1);
    }
}

proof fn lemma_dc_run_defined_prefix(s0: Seq<SubDevice>, m: nat, n: nat)
    requires
        m <= n,
        dc_run_defined(s0, n),
    ensures
        dc_run_defined(s0, m),
    decreases n,
{
    if m < n {
        lemma_dc_run_defined_prefix(s0, m, (n - 1) as nat);
    }
}

proof fn lemma_dc_run_error_stays(s0: Seq<SubDevice>, m: nat, n: nat)
    requires
        m <= n,
        dc_run(s0, m).2 is Some,
    ensures
        dc_run(s0, n) == dc_run(s0, m),
    decreases n,
{
    if m < n {
        lemma_dc_run_error_stays(s0, m, (n - 1) as nat);
    }
}

/// What the first `n` iterations keep: every index stays where it was, positions from `n` on keep
/// their parent, and each position before `n` that has a parent has it among the positions before
/// it.
pub open spec fn dc_run_keeps(s0: Seq<SubDevice>, n: nat) -> bool {
    let s = dc_run(s0, n).0;
    &&& s.len() == s0.len()
    &&& forall|k: int| 0 <= k < s0.len() ==> #[trigger] s[k].index == s0[k].index
    &&& forall|k: int| n <= k < s0.len() ==> #[trigger] s[k].parent_index == s0[k].parent_index
    &&& forall|k: int|
        0 <= k < n && k < s0.len() && (#[trigger] s[k].parent_index) is Some ==> exists|j: int|
            0 <= j < k && s0[j].index == s[k].parent_index->0
}

proof fn lemma_dc_run_keeps(s0: Seq<SubDevice>, n: nat)
    requires
        n <= s0.len(),
    ensures
        dc_run(s0, n).2 is None ==> dc_run_keeps(s0, n),
    decreases n,
{
    if n > 0 {
        lemma_dc_run_keeps(s0, (n - 1) as nat);
        let prev = dc_run(s0, (n - 1) as nat);
        if prev.2 is None && dc_run(s0, n).2 is None {
            let i = n - 1;
            let s = prev.0;
            let parents = s.subrange(0, i);
            let pi = spec_find_parent(parents)->Ok_0;
            let sub = SubDevice { parent_index: pi, ..s[i] };
            let s1 = match pi {
                Some(p) => {
                    let j = position_of_index(parents, p, 0);
                    let ports = s[j].ports;
                    s.update(
                        j,
                        SubDevice {
                            ports: ports.with_downstream(ports.next_assignable_index(), sub.index),
                            ..s[j]
                        },
                    )
                },
                None => s,
            };
            if let Some(p) = pi {
                lemma_found_parent_position(parents);
                let j = position_of_index(parents, p, 0);
                lemma_position_in_range(parents, p, 0);
                assert(parents[j].index == p);
                assert(s0[j].index == p);
            }
            assert(s1.len() == s.len());
            let t = dc_run(s0, n).0;
            assert(t == dc_step(s, i, prev.1).0);
            assert forall|k: int| 0 <= k < s0.len() implies #[trigger] t[k].index == s0[k].index by {
                if k != i {
                    assert(t[k].index == s1[k].index);
                }
            }
            assert forall|k: int| n <= k < s0.len() implies #[trigger] t[k].parent_index
                == s0[k].parent_index by {
                assert(t[k] == s1[k]);
            }
            assert forall|k: int|
                0 <= k < n && k < s0.len() && (#[trigger] t[k].parent_index) is Some implies exists|
                j: int,
            | 0 <= j < k && s0[j].index == t[k].parent_index->0 by {
                if k < i {
                    assert(t[k].parent_index == s1[k].parent_index);
                    assert(s1[k].parent_index == s[k].parent_index);
                } else {
                    assert(t[k].parent_index == pi);
                    let p = pi->0;
                    let j = position_of_index(parents, p, 0);
                    assert(0 <= j < k && s0[j].index == p);
                }
            }
        }
    }
}

/// Every SubDevice's parent comes before it in network order, and the network order of the
/// SubDevices does not change.
pub proof fn lemma_parents_precede(s0: Seq<SubDevice>)
    requires
        dc_run(s0, s0.len()).2 is None,
    ensures
        dc_run(s0, s0.len()).0.len() == s0.len(),
        forall|k: int|
            0 <= k < s0.len() ==> #[trigger] dc_run(s0, s0.len()).0[k].index == s0[k].index,
        forall|k: int|
            0 <= k < s0.len() && (#[trigger] dc_run(s0, s0.len()).0[k].parent_index) is Some
                ==> exists|j: int|
                0 <= j < k && dc_run(s0, s0.len()).0[j].index == dc_run(
                    s0,
                    s0.len(),
                ).0[k].parent_index->0,
{
    lemma_dc_run_keeps(s0, s0.len());
    let t = dc_run(s0, s0.len()).0;
    assert forall|k: int|
        0 <= k < s0.len() && (#[trigger] t[k].parent_index) is Some implies exists|j: int|
        0 <= j < k && t[j].index == t[k].parent_index->0 by {
        let j = choose|j: int| 0 <= j < k && s0[j].index == t[k].parent_index->0;
        assert(t[j].index == s0[j].index);
    }
}

/// The number of SubDevices among the first `n` that support distributed clocks.
pub open spec fn dc_supported_count(s: Seq<SubDevice>, n: int) -> int
    decreases n,
{
    if n <= 0 {
        0
    } else {
        dc_supported_count(s, n - 1) + (if s[n - 1].flags.dc_supported {
            1int
        } else {
            0
        })
    }
}

proof fn lemma_dc_supported_count_bound(s: Seq<SubDevice>, n: int)
    requires
        0 <= n,
    ensures
        0 <= dc_supported_count(s, n) <= n,
    decreases n,
{
    if n > 0 {
        lemma_dc_supported_count_bound(s, n - 1);
    }
}

/// How many SubDevices support distributed clocks: the working counter a receive time latch
/// broadcast is expected to come back with.
pub fn count_dc_supported(subdevices: &[SubDevice]) -> (r: usize)
    ensures
        r == dc_supported_count(subdevices@, subdevices@.len() as int),
{
    let mut count: usize = 0;
    let mut i: usize = 0;
    while i < subdevices.len()
        invariant
            i <= subdevices@.len(),
            count == dc_supported_count(subdevices@, i as int),
        decreases subdevices@.len() - i,
    {
        proof {
            lemma_dc_supported_count_bound(subdevices@, i as int);
        }
        if subdevices[i].flags.dc_supported {
            count = count + 1;
        }
        i = i + 1;
    }
    count
}

/// Store the receive times latched by a SubDevice: its DC receive time and the receive time of
/// each port, as read in port number order 0, 1, 2, 3.
pub fn store_dc_receive_times(subdevice: &mut SubDevice, dc_receive_time: u64, port_times: [u32; 4])
    ensures
        *final(subdevice) == (SubDevice {
            dc_receive_time,
            ports: Ports(
                vstd::array::spec_array_update(
                    vstd::array::spec_array_update(
                        vstd::array::spec_array_update(
                            vstd::array::spec_array_update(
                                old(subdevice).ports.0,
                                0,
                                Port { dc_receive_time: port_times[0], ..old(subdevice).ports.0[0] },
                            ),
                            1,
                            Port { dc_receive_time: port_times[3], ..old(subdevice).ports.0[1] },
                        ),
                        2,
                        Port { dc_receive_time: port_times[1], ..old(subdevice).ports.0[2] },
                    ),
                    3,
                    Port { dc_receive_time: port_times[2], ..old(subdevice).ports.0[3] },
                ),
            ),
            ..*old(subdevice)
        }),
{
    subdevice.dc_receive_time = dc_receive_time;
    let mut ports = subdevice.ports;
    ports.set_receive_times(port_times[0], port_times[3], port_times[1], port_times[2]);
    subdevice.ports = ports;
    proof {
        broadcast use vstd::array::group_array_axioms;

        let expected = vstd::array::spec_array_update(
            vstd::array::spec_array_update(
                vstd::array::spec_array_update(
                    vstd::array::spec_array_update(
                        old(subdevice).ports.0,
                        0,
                        Port { dc_receive_time: port_times[0], ..old(subdevice).ports.0[0] },
                    ),
                    1,
                    Port { dc_receive_time: port_times[3], ..old(subdevice).ports.0[1] },
                ),
                2,
                Port { dc_receive_time: port_times[1], ..old(subdevice).ports.0[2] },
            ),
            3,
            Port { dc_receive_time: port_times[2], ..old(subdevice).ports.0[3] },
        );
        assert(subdevice.ports.0@ =~= expected@);
        assert(subdevice.ports.0 =~= expected);
    }
}

/// The system time offset written to a SubDevice: the MainDevice's time less the SubDevice's
/// latched receive time, both taken as signed 64 bit numbers.
pub fn system_time_offset(dc_receive_time: u64, now_nanos: u64) -> (r: i64)
    requires
        dc_receive_time as i64 != i64::MIN,
        i64::MIN <= now_nanos as i64 - dc_receive_time as i64 <= i64::MAX,
    ensures
        r == now_nanos as i64 - dc_receive_time as i64,
{
    -(dc_receive_time as i64) + now_nanos as i64
}

/// The position of the first SubDevice that supports distributed clocks: the DC reference.
pub fn first_dc_subdevice(subdevices: &[SubDevice]) -> (r: Option<usize>)
    ensures
        match r {
            Some(i) => i < subdevices@.len() && subdevices@[i as int].flags.dc_supported && forall|
                j: int,
            | 0 <= j < i ==> !(#[trigger] subdevices@[j]).flags.dc_supported,
            None => forall|j: int|
                0 <= j < subdevices@.len() ==> !(#[trigger] subdevices@[j]).flags.dc_supported,
        },
{
    let mut i: usize = 0;
    while i < subdevices.len()
        invariant
            i <= subdevices@.len(),
            forall|j: int| 0 <= j < i ==> !(#[trigger] subdevices@[j]).flags.dc_supported,
        decreases subdevices@.len() - i,
    {
        if subdevices[i].flags.dc_supported {
            return Some(i);
        }
        i = i + 1;
    }
    None
}

/// Find the parent of `subdevice` among the SubDevices before it in network order.
///
/// The parent of the first SubDevice is none. If the SubDevice before this one ends a line, the
/// parent is the closest fork or cross before that, as SubDevices are discovered depth-first.
/// Otherwise the parent is the previous SubDevice.
pub fn find_subdevice_parent(parents: &[SubDevice], subdevice: &SubDevice) -> (r: Result<
    Option<u16>,
    Error,
>)
    requires
        parent_search_defined(parents@),
    ensures
        r == spec_find_parent(parents@),
{
    let n = parents.len();
    if n == 0 {
        return Ok(None);
    }
    let parent = &parents[n - 1];
    if parent.ports.topology() == Topology::LineEnd {
        let mut k = n - 1;
        while k > 0
            invariant
                0 <= k <= n - 1,
                n == parents@.len(),
                parents@[n - 1].ports.spec_topology() == Topology::LineEnd,
                junction_search_defined(parents@, k - 1),
                junction_at_or_before(parents@, n - 2) == junction_at_or_before(parents@, k - 1),
            decreases k,
        {
            if parents[k - 1].ports.topology().is_junction() {
                assert(junction_at_or_before(parents@, k - 1) == k - 1);
                return Ok(Some(parents[k - 1].index));
            }
            k = k - 1;
        }
        Err(Error::Topology)
    } else {
        Ok(Some(parent.index))
    }
}

/// The first position in `parents` of a SubDevice with the given index.
fn find_position(parents: &[SubDevice], idx: u16) -> (r: Option<usize>)
    ensures
        match r {
            Some(j) => j as int == position_of_index(parents@, idx, 0) && j < parents@.len(),
            None => position_of_index(parents@, idx, 0) == -1,
        },
{
    let mut j: usize = 0;
    while j < parents.len()
        invariant
            j <= parents@.len(),
            position_of_index(parents@, idx, 0) == position_of_index(parents@, idx, j as int),
        decreases parents@.len() - j,
    {
        if parents[j].index == idx {
            return Some(j);
        }
        j = j + 1;
    }
    None
}

/// Calculate and assign a SubDevice's propagation delay, i.e. the time it takes for a frame to
/// reach it when sent from the MainDevice, and add it to the accumulated delay.
///
/// Nothing changes for a SubDevice without a parent among `parents`.
pub fn configure_subdevice_offsets(
    subdevice: &mut SubDevice,
    parents: &[SubDevice],
    delay_accum: &mut u32,
)
    requires
        offsets_defined(*old(subdevice), parents@, *old(delay_accum)),
    ensures
        (*final(subdevice), *final(delay_accum)) == spec_offsets(
            *old(subdevice),
            parents@,
            *old(delay_accum),
        ),
{
    let parent_pos = match subdevice.parent_index {
        Some(parent_index) => find_position(parents, parent_index),
        None => None,
    };
    if let Some(j) = parent_pos {
        let parent = &parents[j];
        let parent_port = match parent.ports.port_assigned_to(subdevice.index) {
            Some(port) => port,
            None => {
                return;
            },
        };
        // The port the MainDevice is connected to on this SubDevice.
        let _this_port = subdevice.ports.entry_port();
        let parent_prop_time: u32 = match parent.ports.total_propagation_time() {
            Some(t) => t,
            None => 0,
        };
        let this_prop_time: u32 = match subdevice.ports.total_propagation_time() {
            Some(t) => t,
            None => 0,
        };
        let propagation_delay: u32 = match parent.ports.topology() {
            Topology::Passthrough => (parent_prop_time - this_prop_time) / 2,
            Topology::Fork => {
                if subdevice.is_child_of(parent) {
                    let children_loop_time: u32 = match parent.ports.propagation_time_to(
                        &parent_port,
                    ) {
                        Some(t) => t,
                        None => 0,
                    };
                    (children_loop_time - this_prop_time) / 2
                } else {
                    (parent_prop_time - this_prop_time) / 2
                }
            },
            Topology::Cross => {
                if subdevice.is_child_of(parent) {
                    let children_loop_time = parent.ports.intermediate_propagation_time_to(
                        &parent_port,
                    );
                    (children_loop_time - this_prop_time) / 2
                } else {
                    parent_prop_time - *delay_accum
                }
            },
            // A parent always has at least two open ports: one towards the MainDevice and one
            // towards this SubDevice.
            Topology::LineEnd => 0,
        };
        *delay_accum = *delay_accum + propagation_delay;
        subdevice.propagation_delay = *delay_accum;
    }
}

/// One iteration of [`assign_parent_relationships`]: find the parent of the SubDevice at `i`,
/// link the parent's next free port to it and, if it supports distributed clocks, compute its
/// propagation delay. On error nothing changes.
fn assign_step(subdevices: &mut [SubDevice], i: usize, delay_accum: &mut u32) -> (r: Result<(), Error>)
    requires
        i < old(subdevices)@.len(),
        dc_step_defined(old(subdevices)@, i as int, *old(delay_accum)),
    ensures
        final(subdevices)@.len() == old(subdevices)@.len(),
        (final(subdevices)@, *final(delay_accum), match r {
            Ok(()) => None::<Error>,
            Err(e) => Some(e),
        }) == dc_step(old(subdevices)@, i as int, *old(delay_accum)),
{
    let ghost s = subdevices@;
    let ghost parents_view = s.subrange(0, i as int);
    let mut subdevice = subdevices[i];
    let parent_index = {
        let parents = slice_subrange(subdevices, 0, i);
        assert(parents@ == parents_view);
        find_subdevice_parent(parents, &subdevice)
    };
    let parent_index = match parent_index {
        Ok(p) => p,
        Err(e) => {
            return Err(e);
        },
    };
    subdevice.parent_index = parent_index;
    // Link the parent's next open port to this SubDevice.
    if let Some(parent_idx) = parent_index {
        let j = {
            let parents = slice_subrange(subdevices, 0, i);
            assert(parents@ == parents_view);
            find_position(parents, parent_idx)
        };
        if let Some(j) = j {
            let mut parent = subdevices[j];
            let _ = parent.ports.assign_next_downstream_port(subdevice.index);
            subdevices[j] = parent;
        }
    }
    if subdevice.flags.dc_supported {
        let parents = slice_subrange(subdevices, 0, i);
        assert(parents@ == dc_step(s, i as int, *old(delay_accum)).0.subrange(0, i as int)) by {
            assert(parents@ =~= subdevices@.subrange(0, i as int));
        }
        configure_subdevice_offsets(&mut subdevice, parents, delay_accum);
    }
    subdevices[i] = subdevice;
    proof {
        assert(subdevices@ =~= dc_step(s, i as int, *old(delay_accum)).0);
    }
    Ok(())
}

/// Assign parent/child relationships and compute propagation delays for all SubDevices, in
/// network order.
///
/// On error the SubDevices before the failing one keep what was assigned to them.
pub fn assign_parent_relationships(subdevices: &mut [SubDevice]) -> (r: Result<(), Error>)
    requires
        dc_run_defined(old(subdevices)@, old(subdevices)@.len()),
    ensures
        final(subdevices)@ == dc_run(old(subdevices)@, old(subdevices)@.len()).0,
        r == (match dc_run(old(subdevices)@, old(subdevices)@.len()).2 {
            Some(e) => Err(e),
            None => Ok(()),
        }),
{
    let ghost s0 = subdevices@;
    let mut delay_accum: u32 = 0;
    let mut i: usize = 0;
    while i < subdevices.len()
        invariant
            i <= s0.len(),
            s0 == old(subdevices)@,
            subdevices@.len() == s0.len(),
            dc_run_defined(s0, s0.len()),
            dc_run(s0, i as nat) == (subdevices@, delay_accum, None::<Error>),
        decreases s0.len() - i,
    {
        proof {
            lemma_dc_run_defined_prefix(s0, (i + 1) as nat, s0.len());
        }
        match assign_step(subdevices, i, &mut delay_accum) {
            Ok(()) => {},
            Err(e) => {
                proof {
                    lemma_dc_run_error_stays(s0, (i + 1) as nat, s0.len());
                }
                return Err(e);
            },
        }
        i = i + 1;
    }
    Ok(())
}

/// Once an iteration has failed, the remaining ones take no value out of range.
proof fn lemma_dc_run_defined_after_error(s0: Seq<SubDevice>, m: nat, n: nat)
    requires
        m <= n,
        dc_run_defined(s0, m),
        dc_run(s0, m).2 is Some,
    ensures
        dc_run_defined(s0, n),
    decreases n,
{
    if m < n {
        lemma_dc_run_defined_after_error(s0, m, (n - 1) as nat);
        lemma_dc_run_error_stays(s0, m, (n - 1) as nat);
    }
}

/// Whether the parent search over `parents` looks only at SubDevices with an open port.
fn parent_search_ok(parents: &[SubDevice]) -> (r: bool)
    ensures
        r == parent_search_defined(parents@),
{
    let n = parents.len();
    if n == 0 {
        return true;
    }
    if parents[n - 1].ports.open_ports() < 1 {
        return false;
    }
    if parents[n - 1].ports.topology() != Topology::LineEnd {
        return true;
    }
    let mut k = n - 1;
    while k > 0
        invariant
            0 <= k <= n - 1,
            n == parents@.len(),
            parents@[n - 1].ports.active_count() >= 1,
            parents@[n - 1].ports.spec_topology() == Topology::LineEnd,
            junction_search_defined(parents@, n - 2) == junction_search_defined(parents@, k - 1),
        decreases k,
    {
        if parents[k - 1].ports.open_ports() < 1 {
            return false;
        }
        if parents[k - 1].ports.topology().is_junction() {
            return true;
        }
        k = k - 1;
    }
    true
}

/// Whether the delay computation for `sub` after `parents` takes no value out of range.
fn offsets_ok(sub: &SubDevice, parents: &[SubDevice], accum: u32) -> (r: bool)
    ensures
        r == offsets_defined(*sub, parents@, accum),
{
    let j = match sub.parent_index {
        Some(parent_index) => find_position(parents, parent_index),
        None => None,
    };
    let j = match j {
        Some(j) => j,
        None => {
            return true;
        },
    };
    let parent = &parents[j];
    let port = match parent.ports.port_assigned_to(sub.index) {
        Some(port) => port,
        None => {
            return false;
        },
    };
    if sub.ports.open_ports() < 1 || parent.ports.open_ports() < 1 || !parent.ports.is_well_formed() {
        return false;
    }
    let parent_time: u32 = match parent.ports.total_propagation_time() {
        Some(t) => t,
        None => 0,
    };
    let this_time: u32 = match sub.ports.total_propagation_time() {
        Some(t) => t,
        None => 0,
    };
    let delay: u32 = match parent.ports.topology() {
        Topology::Passthrough => {
            if parent_time < this_time {
                return false;
            }
            (parent_time - this_time) / 2
        },
        Topology::Fork => {
            if sub.is_child_of(parent) {
                let children_loop_time: u32 = match parent.ports.propagation_time_to(&port) {
                    Some(t) => t,
                    None => 0,
                };
                if children_loop_time < this_time {
                    return false;
                }
                (children_loop_time - this_time) / 2
            } else {
                if parent_time < this_time {
                    return false;
                }
                (parent_time - this_time) / 2
            }
        },
        Topology::Cross => {
            if sub.is_child_of(parent) {
                if !parent.ports.intermediate_time_fits(&port) {
                    return false;
                }
                let children_loop_time = parent.ports.intermediate_propagation_time_to(&port);
                if children_loop_time < this_time {
                    return false;
                }
                (children_loop_time - this_time) / 2
            } else {
                if parent_time < accum {
                    return false;
                }
                parent_time - accum
            }
        },
        Topology::LineEnd => 0,
    };
    accum as u64 + delay as u64 <= u32::MAX as u64
}

/// Whether iteration `i` of [`assign_parent_relationships`] on `s` with accumulated delay
/// `accum` takes no value out of range.
fn step_ok(s: &[SubDevice], i: usize, accum: u32) -> (r: bool)
    requires
        i < s@.len(),
    ensures
        r == dc_step_defined(s@, i as int, accum),
{
    let parents = slice_subrange(s, 0, i);
    assert(parents@ == s@.subrange(0, i as int));
    if !parent_search_ok(parents) {
        return false;
    }
    let mut sub = s[i];
    let found = find_subdevice_parent(parents, &sub);
    let mut updated: Vec<SubDevice> = Vec::new();
    let mut k: usize = 0;
    while k < i
        invariant
            k <= i,
            i < s@.len(),
            updated@ == s@.subrange(0, k as int),
        decreases i - k,
    {
        updated.push(s[k]);
        k = k + 1;
        assert(updated@ =~= s@.subrange(0, k as int));
    }
    if let Ok(Some(p)) = found {
        proof {
            lemma_found_parent_position(parents@);
        }
        let j = match find_position(parents, p) {
            Some(j) => j,
            None => {
                return false;
            },
        };
        if s[j].ports.open_ports() < 1 || !s[j].ports.is_well_formed() {
            return false;
        }
        let mut parent = s[j];
        if parent.ports.assign_next_downstream_port(sub.index).is_none() {
            return false;
        }
        updated.set(j, parent);
    }
    match found {
        Ok(pi) => {
            if !s[i].flags.dc_supported {
                return true;
            }
            sub.parent_index = pi;
            assert(updated@ =~= dc_step(s@, i as int, accum).0.subrange(0, i as int));
            offsets_ok(&sub, updated.as_slice(), accum)
        },
        Err(_) => true,
    }
}

/// Whether [`assign_parent_relationships`] keeps every value in range on `subdevices`: the
/// parent searches only look at SubDevices with an open port, every parent has a free port for
/// its child and no propagation delay subtracts a larger time from a smaller one or exceeds a
/// `u32`.
pub fn parent_relationships_defined(subdevices: &[SubDevice]) -> (r: bool)
    ensures
        r == dc_run_defined(subdevices@, subdevices@.len()),
{
    let ghost s0 = subdevices@;
    let mut s: Vec<SubDevice> = Vec::new();
    let mut k: usize = 0;
    while k < subdevices.len()
        invariant
            k <= s0.len(),
            s0 == subdevices@,
            s@ == s0.subrange(0, k as int),
        decreases s0.len() - k,
    {
        s.push(subdevices[k]);
        k = k + 1;
        assert(s@ =~= s0.subrange(0, k as int));
    }
    assert(s@ =~= s0);
    let mut accum: u32 = 0;
    let mut i: usize = 0;
    while i < s.len()
        invariant
            i <= s0.len(),
            s0 == subdevices@,
            s@.len() == s0.len(),
            dc_run_defined(s0, i as nat),
            dc_run(s0, i as nat) == (s@, accum, None::<Error>),
        decreases s0.len() - i,
    {
        if !step_ok(s.as_slice(), i, accum) {
            proof {
                assert(!dc_run_defined(s0, (i + 1) as nat));
                if dc_run_defined(s0, s0.len()) {
                    lemma_dc_run_defined_prefix(s0, (i + 1) as nat, s0.len());
                }
            }
            return false;
        }
        assert(dc_run_defined(s0, (i + 1) as nat));
        let result = assign_step(s.as_mut_slice(), i, &mut accum);
        if result.is_err() {
            proof {
                lemma_dc_run_defined_after_error(s0, (i + 1) as nat, s0.len());
            }
            return true;
        }
        i = i + 1;
    }
    true
}

/// [`assign_parent_relationships`] where it keeps every value in range, and `None`, with the
/// SubDevices unchanged, where it would not.
pub fn try_assign_parent_relationships(subdevices: &mut [SubDevice]) -> (r: Option<Result<(), Error>>)
    ensures
        dc_run_defined(old(subdevices)@, old(subdevices)@.len()) ==> {
            &&& final(subdevices)@ == dc_run(old(subdevices)@, old(subdevices)@.len()).0
            &&& r == Some(
                match dc_run(old(subdevices)@, old(subdevices)@.len()).2 {
                    Some(e) => Err::<(), Error>(e),
                    None => Ok(()),
                },
            )
        },
        !dc_run_defined(old(subdevices)@, old(subdevices)@.len()) ==> r is None
            && final(subdevices)@ == old(subdevices)@,
{
    if parent_relationships_defined(subdevices) {
        Some(assign_parent_relationships(subdevices))
    } else {
        None
    }
}

} // verus!
