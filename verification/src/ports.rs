//! The four ports of a SubDevice and the network topology they form.
//!
//! Ports are stored in the order EtherCAT frames travel through them: 0, 3, 1, 2. A port's
//! position in that order is its index.
use vstd::prelude::*;

verus! {

/// The port number stored at index `k`.
pub open spec fn port_number_at(k: int) -> u8 {
    if k == 0 {
        0
    } else if k == 1 {
        3
    } else if k == 2 {
        1
    } else {
        2
    }
}

/// The index of port number `n` in frame order (numbers above 3 have none).
pub open spec fn port_index_of(n: u8) -> int {
    if n == 0 {
        0
    } else if n == 3 {
        1
    } else if n == 1 {
        2
    } else {
        3
    }
}

/// `1` for `true`, `0` for `false`.
pub open spec fn bool_count(b: bool) -> int {
    if b {
        1
    } else {
        0
    }
}

/// A single port of a SubDevice.
#[derive(Default, Debug, PartialEq, Eq, Structural, Copy, Clone)]
pub struct Port {
    /// Whether the port has a link.
    pub active: bool,
    /// The time in nanoseconds at which a latched frame passed through this port.
    pub dc_receive_time: u32,
    /// The EtherCAT port number, ordered as 0 -> 3 -> 1 -> 2.
    pub number: u8,
    /// Holds the index of the downstream SubDevice this port is connected to.
    pub downstream_to: Option<u16>,
}

impl Port {
    /// The position of this port in frame order.
    pub fn index(&self) -> (r: usize)
        requires
            self.number <= 3,
        ensures
            r == port_index_of(self.number),
    {
        match self.number {
            0 => 0,
            3 => 1,
            1 => 2,
            _ => 3,
        }
    }
}

/// The shape a SubDevice gives the network, by how many of its ports are open.
#[derive(Debug, Copy, Clone, PartialEq, Eq, Structural)]
pub enum Topology {
    /// Two open ports: frames pass through.
    Passthrough,
    /// One open port: the end of a line.
    LineEnd,
    /// Three open ports: a branch.
    Fork,
    /// Four open ports.
    Cross,
}

impl Topology {
    /// A fork or a cross, i.e. a SubDevice with children on a branch.
    pub open spec fn spec_is_junction(self) -> bool {
        self is Fork || self is Cross
    }

    /// Whether this topology splits the network into branches.
    pub fn is_junction(&self) -> (r: bool)
        ensures
            r == self.spec_is_junction(),
    {
        match self {
            Topology::Fork | Topology::Cross => true,
            _ => false,
        }
    }
}

/// The four ports of a SubDevice, in frame order 0, 3, 1, 2.
#[derive(Default, Debug, PartialEq, Eq, Copy, Clone)]
pub struct Ports(pub [Port; 4]);

impl Ports {
    /// Every port holds the number of its position in frame order.
    pub open spec fn wf(self) -> bool {
        forall|k: int| 0 <= k < 4 ==> #[trigger] self.0[k].number == port_number_at(k)
    }

    /// The number of ports with a link.
    pub open spec fn active_count(self) -> int {
        bool_count(self.0[0].active) + bool_count(self.0[1].active) + bool_count(self.0[2].active)
            + bool_count(self.0[3].active)
    }

    /// The topology for a SubDevice with at least one open port.
    pub open spec fn spec_topology(self) -> Topology {
        let n = self.active_count();
        if n == 1 {
            Topology::LineEnd
        } else if n == 2 {
            Topology::Passthrough
        } else if n == 3 {
            Topology::Fork
        } else {
            Topology::Cross
        }
    }

    /// One step of the search for the first active port with the smallest receive time.
    pub open spec fn earliest_step(self, k: int, best: int) -> int {
        if self.0[k].active && (best < 0 || self.0[k].dc_receive_time
            < self.0[best].dc_receive_time) {
            k
        } else {
            best
        }
    }

    /// The index of the entry port: the first active port with the smallest receive time, or -1.
    pub open spec fn entry_index(self) -> int {
        self.earliest_step(3, self.earliest_step(2, self.earliest_step(1, self.earliest_step(0, -1))))
    }

    /// The index of the last active port, or -1.
    pub open spec fn last_active_index(self) -> int {
        if self.0[3].active {
            3
        } else if self.0[2].active {
            2
        } else if self.0[1].active {
            1
        } else if self.0[0].active {
            0
        } else {
            -1
        }
    }

    /// The index of the first port assigned to the downstream SubDevice `idx`, or -1.
    pub open spec fn assigned_index(self, idx: u16) -> int {
        if self.0[0].downstream_to == Some(idx) {
            0
        } else if self.0[1].downstream_to == Some(idx) {
            1
        } else if self.0[2].downstream_to == Some(idx) {
            2
        } else if self.0[3].downstream_to == Some(idx) {
            3
        } else {
            -1
        }
    }

    /// Whether port `k` is active and lies in the index range `lo..=hi`.
    pub open spec fn counted(self, k: int, lo: int, hi: int) -> bool {
        self.0[k].active && lo <= k <= hi
    }

    /// One step of the largest receive time of the counted ports.
    pub open spec fn max_step(self, k: int, lo: int, hi: int, acc: Option<u32>) -> Option<u32> {
        if self.counted(k, lo, hi) {
            match acc {
                None => Some(self.0[k].dc_receive_time),
                Some(a) => Some(
                    if self.0[k].dc_receive_time > a {
                        self.0[k].dc_receive_time
                    } else {
                        a
                    },
                ),
            }
        } else {
            acc
        }
    }

    /// One step of the smallest receive time of the counted ports.
    pub open spec fn min_step(self, k: int, lo: int, hi: int, acc: Option<u32>) -> Option<u32> {
        if self.counted(k, lo, hi) {
            match acc {
                None => Some(self.0[k].dc_receive_time),
                Some(a) => Some(
                    if self.0[k].dc_receive_time < a {
                        self.0[k].dc_receive_time
                    } else {
                        a
                    },
                ),
            }
        } else {
            acc
        }
    }

    /// The largest receive time among active ports with index in `lo..=hi`.
    pub open spec fn range_max(self, lo: int, hi: int) -> Option<u32> {
        self.max_step(
            3,
            lo,
            hi,
            self.max_step(2, lo, hi, self.max_step(1, lo, hi, self.max_step(0, lo, hi, None))),
        )
    }

    /// The smallest receive time among active ports with index in `lo..=hi`.
    pub open spec fn range_min(self, lo: int, hi: int) -> Option<u32> {
        self.min_step(
            3,
            lo,
            hi,
            self.min_step(2, lo, hi, self.min_step(1, lo, hi, self.min_step(0, lo, hi, None))),
        )
    }

    /// The spread of receive times among active ports with index in `lo..=hi`.
    pub open spec fn range_spread(self, lo: int, hi: int) -> Option<u32> {
        match (self.range_max(lo, hi), self.range_min(lo, hi)) {
            (Some(a), Some(b)) => Some((a - b) as u32),
            _ => None,
        }
    }

    /// The time a frame takes to pass all active ports, when it is not zero.
    pub open spec fn spec_total_propagation_time(self) -> Option<u32> {
        match self.range_spread(0, 3) {
            Some(t) => if t > 0 {
                Some(t)
            } else {
                None
            },
            None => None,
        }
    }

    /// The time from the entry port up to the port at index `k`.
    pub open spec fn spec_propagation_time_to(self, k: int) -> Option<u32> {
        self.range_spread(self.entry_index(), k)
    }

    /// The receive time delta between ports `k` and `k + 1`, counted before index `k_end`.
    pub open spec fn window_delta(self, k: int, k_end: int) -> int {
        if k < k_end && self.0[k].active && self.0[k + 1].active {
            self.0[k + 1].dc_receive_time - self.0[k].dc_receive_time
        } else {
            0
        }
    }

    /// The sum of deltas between neighbouring active ports before index `k_end`.
    pub open spec fn spec_intermediate_time(self, k_end: int) -> int {
        self.window_delta(0, k_end) + self.window_delta(1, k_end) + self.window_delta(2, k_end)
    }

    /// The intermediate time up to index `k_end` can be summed in a `u32` without wrapping.
    pub open spec fn intermediate_time_defined(self, k_end: int) -> bool {
        &&& self.window_delta(0, k_end) >= 0
        &&& self.window_delta(1, k_end) >= 0
        &&& self.window_delta(2, k_end) >= 0
        &&& self.spec_intermediate_time(k_end) <= u32::MAX
    }

    /// The position of the `m`th active port (counting from 0), or -1.
    pub open spec fn nth_active(self, m: int) -> int {
        let c0 = bool_count(self.0[0].active);
        let c1 = c0 + bool_count(self.0[1].active);
        let c2 = c1 + bool_count(self.0[2].active);
        if self.0[0].active && m == 0 {
            0
        } else if self.0[1].active && m == c0 {
            1
        } else if self.0[2].active && m == c1 {
            2
        } else if self.0[3].active && m == c2 {
            3
        } else {
            -1
        }
    }

    /// The `j`th port considered for the next downstream link: active ports are cycled through,
    /// starting after as many of them as the entry port's index plus one.
    pub open spec fn candidate(self, j: int) -> int {
        self.nth_active((self.entry_index() + 1 + j) % self.active_count())
    }

    /// The first unassigned port among candidates `j..4`, or -1.
    pub open spec fn free_candidate_from(self, j: int) -> int
        decreases 4 - j,
    {
        if j >= 4 {
            -1
        } else if self.0[self.candidate(j)].downstream_to is None {
            self.candidate(j)
        } else {
            self.free_candidate_from(j + 1)
        }
    }

    /// The port that the next downstream SubDevice is assigned to, or -1.
    pub open spec fn next_assignable_index(self) -> int {
        self.free_candidate_from(0)
    }

    /// These ports with the port at index `k` linked to the downstream SubDevice `idx`.
    pub open spec fn with_downstream(self, k: int, idx: u16) -> Ports {
        Ports(vstd::array::spec_array_update(self.0, k, Port { downstream_to: Some(idx), ..self.0[k] }))
    }

    /// Create ports with the given link states, in frame order.
    pub fn new(active0: bool, active3: bool, active1: bool, active2: bool) -> (r: Self)
        ensures
            r.wf(),
            r.0[0] == (Port { active: active0, dc_receive_time: 0, number: 0, downstream_to: None }),
            r.0[1] == (Port { active: active3, dc_receive_time: 0, number: 3, downstream_to: None }),
            r.0[2] == (Port { active: active1, dc_receive_time: 0, number: 1, downstream_to: None }),
            r.0[3] == (Port { active: active2, dc_receive_time: 0, number: 2, downstream_to: None }),
    {
        Ports(
            [
                Port { active: active0, dc_receive_time: 0, number: 0, downstream_to: None },
                Port { active: active3, dc_receive_time: 0, number: 3, downstream_to: None },
                Port { active: active1, dc_receive_time: 0, number: 1, downstream_to: None },
                Port { active: active2, dc_receive_time: 0, number: 2, downstream_to: None },
            ],
        )
    }

    /// Set the latched receive time of each port, given in frame order.
    pub fn set_receive_times(&mut self, time_p0: u32, time_p3: u32, time_p1: u32, time_p2: u32)
        ensures
            final(self).0[0] == (Port { dc_receive_time: time_p0, ..old(self).0[0] }),
            final(self).0[1] == (Port { dc_receive_time: time_p3, ..old(self).0[1] }),
            final(self).0[2] == (Port { dc_receive_time: time_p1, ..old(self).0[2] }),
            final(self).0[3] == (Port { dc_receive_time: time_p2, ..old(self).0[3] }),
    {
        let (a, b, c, d) = (self.0[0], self.0[1], self.0[2], self.0[3]);
        self.0 = [
            Port { dc_receive_time: time_p0, ..a },
            Port { dc_receive_time: time_p3, ..b },
            Port { dc_receive_time: time_p1, ..c },
            Port { dc_receive_time: time_p2, ..d },
        ];
    }

    /// Set the downstream SubDevice of each port, given in frame order.
    pub fn set_downstreams(
        &mut self,
        d0: Option<u16>,
        d3: Option<u16>,
        d1: Option<u16>,
        d2: Option<u16>,
    )
        ensures
            final(self).0[0] == (Port { downstream_to: d0, ..old(self).0[0] }),
            final(self).0[1] == (Port { downstream_to: d3, ..old(self).0[1] }),
            final(self).0[2] == (Port { downstream_to: d1, ..old(self).0[2] }),
            final(self).0[3] == (Port { downstream_to: d2, ..old(self).0[3] }),
    {
        let (a, b, c, d) = (self.0[0], self.0[1], self.0[2], self.0[3]);
        self.0 = [
            Port { downstream_to: d0, ..a },
            Port { downstream_to: d3, ..b },
            Port { downstream_to: d1, ..c },
            Port { downstream_to: d2, ..d },
        ];
    }

    /// Whether every port holds the number of its position in frame order.
    pub fn is_well_formed(&self) -> (r: bool)
        ensures
            r == self.wf(),
    {
        let r = self.0[0].number == 0 && self.0[1].number == 3 && self.0[2].number == 1
            && self.0[3].number == 2;
        proof {
            if !r {
                if self.0[0].number != 0 {
                    assert(self.0[0].number != port_number_at(0));
                } else if self.0[1].number != 3 {
                    assert(self.0[1].number != port_number_at(1));
                } else if self.0[2].number != 1 {
                    assert(self.0[2].number != port_number_at(2));
                } else {
                    assert(self.0[3].number != port_number_at(3));
                }
            }
        }
        r
    }

    /// Whether the receive time deltas between neighbouring active ports before `port` are all
    /// non-negative and sum to a `u32`.
    pub fn intermediate_time_fits(&self, port: &Port) -> (r: bool)
        requires
            port.number <= 3,
        ensures
            r == self.intermediate_time_defined(port_index_of(port.number)),
    {
        let end = port.index();
        let mut sum: i64 = 0;
        let mut k: usize = 0;
        while k < 3
            invariant
                k <= 3,
                end == port_index_of(port.number),
                forall|j: int| 0 <= j < k ==> self.window_delta(j, end as int) >= 0,
                sum == (if k == 0 {
                    0
                } else if k == 1 {
                    self.window_delta(0, end as int)
                } else if k == 2 {
                    self.window_delta(0, end as int) + self.window_delta(1, end as int)
                } else {
                    self.spec_intermediate_time(end as int)
                }),
                0 <= sum <= 3 * (u32::MAX as int),
            decreases 3 - k,
        {
            if k < end && self.0[k].active && self.0[k + 1].active {
                let later = self.0[k + 1].dc_receive_time;
                let earlier = self.0[k].dc_receive_time;
                if later < earlier {
                    assert(self.window_delta(k as int, end as int) < 0);
                    return false;
                }
                sum = sum + (later - earlier) as i64;
            }
            k = k + 1;
        }
        sum <= u32::MAX as i64
    }

    /// The number of ports with a link.
    pub fn open_ports(&self) -> (r: u8)
        ensures
            r == self.active_count(),
    {
        let mut n: u8 = 0;
        if self.0[0].active {
            n = n + 1;
        }
        if self.0[1].active {
            n = n + 1;
        }
        if self.0[2].active {
            n = n + 1;
        }
        if self.0[3].active {
            n = n + 1;
        }
        n
    }

    /// The topology this SubDevice gives the network.
    pub fn topology(&self) -> (r: Topology)
        requires
            self.active_count() >= 1,
        ensures
            r == self.spec_topology(),
    {
        let n = self.open_ports();
        if n == 1 {
            Topology::LineEnd
        } else if n == 2 {
            Topology::Passthrough
        } else if n == 3 {
            Topology::Fork
        } else {
            Topology::Cross
        }
    }

    /// The position of the entry port: the active port that saw the frame first.
    fn entry_port_index(&self) -> (r: usize)
        requires
            self.active_count() >= 1,
        ensures
            r == self.entry_index(),
            r < 4,
    {
        let mut best: usize = 4;
        let mut k: usize = 0;
        while k < 4
            invariant
                k <= 4,
                best == 4 || best < k,
                (if best == 4 { -1int } else { best as int }) == (if k == 0 {
                    -1int
                } else if k == 1 {
                    self.earliest_step(0, -1)
                } else if k == 2 {
                    self.earliest_step(1, self.earliest_step(0, -1))
                } else if k == 3 {
                    self.earliest_step(2, self.earliest_step(1, self.earliest_step(0, -1)))
                } else {
                    self.entry_index()
                }),
            decreases 4 - k,
        {
            if self.0[k].active && (best == 4 || self.0[k].dc_receive_time
                < self.0[best].dc_receive_time) {
                best = k;
            }
            k = k + 1;
        }
        best
    }

    /// The port of the SubDevice that first sees EtherCAT traffic.
    pub fn entry_port(&self) -> (r: Port)
        requires
            self.active_count() >= 1,
        ensures
            0 <= self.entry_index() < 4,
            r == self.0[self.entry_index()],
    {
        let k = self.entry_port_index();
        self.0[k]
    }

    /// Whether the given port is the last active port.
    pub fn is_last_port(&self, port: &Port) -> (r: bool)
        ensures
            r == (self.last_active_index() >= 0 && self.0[self.last_active_index()] == *port),
    {
        let mut k: usize = 4;
        while k > 0
            invariant
                k <= 4,
                forall|j: int| k <= j < 4 ==> !(#[trigger] self.0[j]).active,
            decreases k,
        {
            if self.0[k - 1].active {
                return self.0[k - 1] == *port;
            }
            k = k - 1;
        }
        false
    }

    /// The port assigned to the downstream SubDevice with the given index.
    pub fn port_assigned_to(&self, downstream_index: u16) -> (r: Option<Port>)
        ensures
            r == (if self.assigned_index(downstream_index) >= 0 {
                Some(self.0[self.assigned_index(downstream_index)])
            } else {
                None
            }),
    {
        let mut k: usize = 0;
        while k < 4
            invariant
                k <= 4,
                forall|j: int| 0 <= j < k ==> (#[trigger] self.0[j]).downstream_to != Some(
                    downstream_index,
                ),
            decreases 4 - k,
        {
            if self.0[k].downstream_to == Some(downstream_index) {
                return Some(self.0[k]);
            }
            k = k + 1;
        }
        None
    }

    /// The spread of receive times of active ports with index in `lo..=hi`.
    fn spread(&self, lo: usize, hi: usize) -> (r: Option<u32>)
        ensures
            r == self.range_spread(lo as int, hi as int),
    {
        let mut max: Option<u32> = None;
        let mut min: Option<u32> = None;
        let mut k: usize = 0;
        while k < 4
            invariant
                k <= 4,
                max == (if k == 0 {
                    None
                } else if k == 1 {
                    self.max_step(0, lo as int, hi as int, None)
                } else if k == 2 {
                    self.max_step(1, lo as int, hi as int, self.max_step(0, lo as int, hi as int, None))
                } else if k == 3 {
                    self.max_step(2, lo as int, hi as int, self.max_step(1, lo as int, hi as int, self.max_step(0, lo as int, hi as int, None)))
                } else {
                    self.range_max(lo as int, hi as int)
                }),
                min == (if k == 0 {
                    None
                } else if k == 1 {
                    self.min_step(0, lo as int, hi as int, None)
                } else if k == 2 {
                    self.min_step(1, lo as int, hi as int, self.min_step(0, lo as int, hi as int, None))
                } else if k == 3 {
                    self.min_step(2, lo as int, hi as int, self.min_step(1, lo as int, hi as int, self.min_step(0, lo as int, hi as int, None)))
                } else {
                    self.range_min(lo as int, hi as int)
                }),
                max is Some <==> min is Some,
                max matches Some(a) ==> min matches Some(b) && b <= a,
            decreases 4 - k,
        {
            if self.0[k].active && lo <= k && k <= hi {
                let t = self.0[k].dc_receive_time;
                max = match max {
                    None => Some(t),
                    Some(a) => Some(if t > a { t } else { a }),
                };
                min = match min {
                    None => Some(t),
                    Some(b) => Some(if t < b { t } else { b }),
                };
            }
            k = k + 1;
        }
        match (max, min) {
            (Some(a), Some(b)) => Some(a - b),
            _ => None,
        }
    }

    /// The time in nanoseconds for a frame to pass all active ports of a SubDevice, if not zero.
    pub fn total_propagation_time(&self) -> (r: Option<u32>)
        ensures
            r == self.spec_total_propagation_time(),
    {
        match self.spread(0, 3) {
            Some(t) => if t > 0 {
                Some(t)
            } else {
                None
            },
            None => None,
        }
    }

    /// The time taken from the entry port up to the given port.
    pub fn propagation_time_to(&self, this_port: &Port) -> (r: Option<u32>)
        requires
            self.wf(),
            self.active_count() >= 1,
            this_port.number <= 3,
        ensures
            r == self.spec_propagation_time_to(port_index_of(this_port.number)),
    {
        let entry = self.entry_port_index();
        let to = this_port.index();
        self.spread(entry, to)
    }

    /// The sum of receive time deltas between neighbouring active ports before the given port.
    pub fn intermediate_propagation_time_to(&self, port: &Port) -> (r: u32)
        requires
            self.wf(),
            port.number <= 3,
            self.intermediate_time_defined(port_index_of(port.number)),
        ensures
            r == self.spec_intermediate_time(port_index_of(port.number)),
    {
        let end = port.index();
        let mut acc: u32 = 0;
        let mut k: usize = 0;
        while k < 3
            invariant
                k <= 3,
                end == port_index_of(port.number),
                self.intermediate_time_defined(end as int),
                acc == (if k == 0 {
                    0
                } else if k == 1 {
                    self.window_delta(0, end as int)
                } else if k == 2 {
                    self.window_delta(0, end as int) + self.window_delta(1, end as int)
                } else {
                    self.spec_intermediate_time(end as int)
                }),
            decreases 3 - k,
        {
            if k < end && self.0[k].active && self.0[k + 1].active {
                acc = acc + (self.0[k + 1].dc_receive_time - self.0[k].dc_receive_time);
            }
            k = k + 1;
        }
        acc
    }

    /// The position of the `m`th active port.
    fn nth_active_index(&self, m: usize) -> (r: usize)
        requires
            m < self.active_count(),
        ensures
            r == self.nth_active(m as int),
            r < 4,
            self.0[r as int].active,
    {
        let mut seen: usize = 0;
        let mut k: usize = 0;
        while k < 4
            invariant
                k <= 4,
                m < self.active_count(),
                seen == (if k == 0 {
                    0
                } else if k == 1 {
                    bool_count(self.0[0].active)
                } else if k == 2 {
                    bool_count(self.0[0].active) + bool_count(self.0[1].active)
                } else if k == 3 {
                    bool_count(self.0[0].active) + bool_count(self.0[1].active) + bool_count(self.0[2].active)
                } else {
                    self.active_count()
                }),
                seen <= m,
                forall|j: int|
                    0 <= j < k ==> !(self.0[j].active && #[trigger] self.nth_active(m as int) == j),
                self.nth_active(m as int) == -1 || k <= self.nth_active(m as int),
            decreases 4 - k,
        {
            if self.0[k].active {
                if seen == m {
                    return k;
                }
                seen = seen + 1;
            }
            k = k + 1;
        }
        0
    }

    /// Link the next free port after the entry port to the downstream SubDevice `index`, and
    /// return its number.
    pub fn assign_next_downstream_port(&mut self, downstream_index: u16) -> (r: Option<u8>)
        requires
            old(self).wf(),
            old(self).active_count() >= 1,
        ensures
            final(self).wf(),
            old(self).next_assignable_index() >= 0 ==> {
                &&& r == Some(old(self).0[old(self).next_assignable_index()].number)
                &&& *final(self) == old(self).with_downstream(
                    old(self).next_assignable_index(),
                    downstream_index,
                )
            },
            old(self).next_assignable_index() < 0 ==> r is None && *final(self) == *old(self),
    {
        let count = self.open_ports() as usize;
        let entry = self.entry_port_index();
        let mut j: usize = 0;
        while j < 4
            invariant
                j <= 4,
                count == self.active_count(),
                count >= 1,
                entry == self.entry_index(),
                entry < 4,
                *self == *old(self),
                self.wf(),
                self.next_assignable_index() == self.free_candidate_from(j as int),
            decreases 4 - j,
        {
            let k = self.nth_active_index((entry + 1 + j) % count);
            if self.0[k].downstream_to.is_none() {
                let p = self.0[k];
                let n = p.number;
                self.0[k] = Port { downstream_to: Some(downstream_index), ..p };
                proof {
                    broadcast use vstd::array::group_array_axioms;

                    assert(self.0@ =~= old(self).with_downstream(k as int, downstream_index).0@);
                    assert(self.0 =~= old(self).with_downstream(k as int, downstream_index).0);
                    assert forall|q: int| 0 <= q < 4 implies #[trigger] self.0[q].number
                        == port_number_at(q) by {
                        assert(self.0[q] == self.0@[q]);
                        assert(old(self).0[q] == old(self).0@[q]);
                    }
                }
                return Some(n);
            }
            j = j + 1;
        }
        None
    }
}

/// The topology names how many ports have a link: one for a line end, two for a passthrough,
/// three for a fork and four for a cross; only forks and crosses are junctions.
pub proof fn lemma_topology_counts(p: Ports)
    requires
        p.active_count() >= 1,
    ensures
        p.spec_topology() == Topology::LineEnd <==> p.active_count() == 1,
        p.spec_topology() == Topology::Passthrough <==> p.active_count() == 2,
        p.spec_topology() == Topology::Fork <==> p.active_count() == 3,
        p.spec_topology() == Topology::Cross <==> p.active_count() == 4,
        p.spec_topology().spec_is_junction() <==> p.active_count() >= 3,
{
}

/// The time a frame takes to pass a SubDevice is the spread of the receive times of its ports
/// with a link: the latest less the earliest, both among those ports. It is none when that
/// spread is zero, i.e. when every port with a link has the same receive time, or when no port
/// has one.
pub proof fn lemma_total_propagation_time(p: Ports)
    ensures
        p.spec_total_propagation_time() matches Some(t) ==> t > 0 && exists|i: int, j: int|
            0 <= i < 4 && 0 <= j < 4 && p.0[i].active && p.0[j].active && t
                == p.0[i].dc_receive_time - p.0[j].dc_receive_time && forall|k: int|
                0 <= k < 4 && p.0[k].active ==> p.0[j].dc_receive_time <= #[trigger] p.0[k].dc_receive_time
                    <= p.0[i].dc_receive_time,
        p.spec_total_propagation_time() is None ==> forall|i: int, j: int|
            0 <= i < 4 && 0 <= j < 4 && p.0[i].active && p.0[j].active ==> #[trigger] p.0[i].dc_receive_time
                == #[trigger] p.0[j].dc_receive_time,
{
    let mx = p.range_max(0, 3);
    let mn = p.range_min(0, 3);
    assert(mx is Some <==> (p.0[0].active || p.0[1].active || p.0[2].active || p.0[3].active));
    assert(mn is Some <==> (p.0[0].active || p.0[1].active || p.0[2].active || p.0[3].active));
    if mx is Some {
        let a = mx->0;
        let b = mn->0;
        assert(forall|k: int| 0 <= k < 4 && p.0[k].active ==> b <= #[trigger] p.0[k].dc_receive_time <= a);
        let i: int = if p.0[0].active && p.0[0].dc_receive_time == a {
            0
        } else if p.0[1].active && p.0[1].dc_receive_time == a {
            1
        } else if p.0[2].active && p.0[2].dc_receive_time == a {
            2
        } else {
            3
        };
        let j: int = if p.0[0].active && p.0[0].dc_receive_time == b {
            0
        } else if p.0[1].active && p.0[1].dc_receive_time == b {
            1
        } else if p.0[2].active && p.0[2].dc_receive_time == b {
            2
        } else {
            3
        };
        assert(p.0[i].active && p.0[i].dc_receive_time == a);
        assert(p.0[j].active && p.0[j].dc_receive_time == b);
    }
}

/// The entry port, where frames first reach a SubDevice, is the port with a link whose receive
/// time is the earliest; of several with that time, the first in frame order.
pub proof fn lemma_entry_port_earliest(p: Ports)
    requires
        p.active_count() >= 1,
    ensures
        0 <= p.entry_index() < 4,
        p.0[p.entry_index()].active,
        forall|k: int|
            0 <= k < 4 && p.0[k].active ==> p.0[p.entry_index()].dc_receive_time
                <= #[trigger] p.0[k].dc_receive_time,
        forall|k: int|
            0 <= k < p.entry_index() && p.0[k].active ==> p.0[p.entry_index()].dc_receive_time
                < #[trigger] p.0[k].dc_receive_time,
{
}

/// The last port with a link, in frame order; -1 when no port has one.
pub proof fn lemma_last_active(p: Ports)
    ensures
        p.last_active_index() == -1 <==> p.active_count() == 0,
        p.last_active_index() >= 0 ==> p.last_active_index() < 4 && p.0[p.last_active_index()].active
            && forall|k: int| p.last_active_index() < k < 4 ==> !(#[trigger] p.0[k]).active,
{
}

/// The port the next downstream SubDevice is linked to has a link and is not yet linked to
/// another SubDevice; none is found only when every port with a link is already linked.
pub proof fn lemma_next_assignable(p: Ports)
    requires
        p.active_count() >= 1,
    ensures
        p.next_assignable_index() >= 0 ==> {
            &&& p.next_assignable_index() < 4
            &&& p.0[p.next_assignable_index()].active
            &&& p.0[p.next_assignable_index()].downstream_to is None
        },
        p.next_assignable_index() < 0 ==> forall|k: int|
            0 <= k < 4 && (#[trigger] p.0[k]).active ==> p.0[k].downstream_to is Some,
{
    let c = p.active_count();
    let e = p.entry_index();
    assert forall|m: int| 0 <= m < c implies 0 <= #[trigger] p.nth_active(m) < 4 && p.0[p.nth_active(m)].active by {}
    assert forall|j: int| 0 <= j < 4 implies 0 <= #[trigger] p.candidate(j) < 4 && p.0[p.candidate(j)].active by {
        assert(0 <= (e + 1 + j) % c < c);
    }
    lemma_free_candidate(p, 0);
    assert forall|k: int| 0 <= k < 4 && (#[trigger] p.0[k]).active implies exists|j: int| 0 <= j < 4 && p.candidate(j) == k by {
        // position of k among the active ports
        let m: int = if k == 0 {
            0
        } else if k == 1 {
            bool_count(p.0[0].active)
        } else if k == 2 {
            bool_count(p.0[0].active) + bool_count(p.0[1].active)
        } else {
            bool_count(p.0[0].active) + bool_count(p.0[1].active) + bool_count(p.0[2].active)
        };
        assert(p.nth_active(m) == k);
        assert(0 <= m < c);
        let j: int = (m - (e + 1)) % c;
        assert(0 <= j < c);
        assert((e + 1 + j) % c == m) by (nonlinear_arith)
            requires
                j == (m - (e + 1)) % c,
                0 <= m < c,
                c >= 1,
        ;
        assert(p.candidate(j) == k);
    }
}

proof fn lemma_free_candidate(p: Ports, j: int)
    requires
        0 <= j <= 4,
        forall|i: int| 0 <= i < 4 ==> 0 <= #[trigger] p.candidate(i) < 4,
    ensures
        p.free_candidate_from(j) >= 0 ==> p.0[p.free_candidate_from(j)].downstream_to is None
            && exists|i: int| j <= i < 4 && p.candidate(i) == p.free_candidate_from(j),
        p.free_candidate_from(j) < 0 ==> forall|i: int|
            j <= i < 4 ==> p.0[#[trigger] p.candidate(i)].downstream_to is Some,
    decreases 4 - j,
{
    if j < 4 {
        lemma_free_candidate(p, j + 1);
        assert(0 <= p.candidate(j) < 4);
    }
}

} // verus!
