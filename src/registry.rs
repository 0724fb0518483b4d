use vstd::prelude::*;

use crate::records::{
    is_not_found_record, NetworkStats, Operator, RegistryError, VPNNode, REWARD_PER_GB,
};

verus! {

/// The registry as a mathematical value: the node counter, the node records
/// in id order (id `i + 1` at position `i`) and the aggregate counters.
#[verifier::ext_equal]
pub struct RegistryView {
    pub node_count: u64,
    pub nodes: Seq<VPNNode>,
    pub stats: NetworkStats,
}

/// How many of `nodes` are active.
pub open spec fn count_active(nodes: Seq<VPNNode>) -> nat
    decreases nodes.len(),
{
    if nodes.len() == 0 {
        0
    } else {
        count_active(nodes.drop_last()) + if nodes.last().is_active {
            1nat
        } else {
            0nat
        }
    }
}

/// The record of node `node_id`, if it was ever registered.
pub open spec fn node_at(v: RegistryView, node_id: u64) -> Option<VPNNode> {
    if 1 <= node_id && node_id <= v.nodes.len() {
        Some(v.nodes[node_id - 1])
    } else {
        None
    }
}

impl RegistryView {
    /// The counter and the totals agree with the node records.
    pub open spec fn wf(self) -> bool {
        &&& self.nodes.len() == self.node_count
        &&& self.stats.total_nodes == self.node_count
        &&& self.stats.active_nodes == count_active(self.nodes)
        &&& self.stats.total_tokens_distributed == self.stats.total_bandwidth * REWARD_PER_GB
        &&& forall|i: int| 0 <= i < self.nodes.len() ==> (#[trigger] self.nodes[i]).node_id == i + 1
    }
}

/// The registry after `operator` registers a node at ledger time `time`.
pub open spec fn register_spec(v: RegistryView, operator: Operator, time: u64) -> Result<
    RegistryView,
    RegistryError,
> {
    if v.node_count == u64::MAX || v.stats.total_nodes == u64::MAX || v.stats.active_nodes
        == u64::MAX {
        Err(RegistryError::Overflow)
    } else {
        let id = (v.node_count + 1) as u64;
        Ok(
            RegistryView {
                node_count: id,
                nodes: v.nodes.push(
                    VPNNode {
                        node_id: id,
                        operator,
                        bandwidth_provided: 0,
                        tokens_earned: 0,
                        is_active: true,
                        registration_time: time,
                    },
                ),
                stats: NetworkStats {
                    total_nodes: (v.stats.total_nodes + 1) as u64,
                    active_nodes: (v.stats.active_nodes + 1) as u64,
                    ..v.stats
                },
            },
        )
    }
}

/// The registry after `gb` gigabytes are reported for node `node_id`.
pub open spec fn report_spec(v: RegistryView, node_id: u64, gb: u64) -> Result<
    RegistryView,
    RegistryError,
> {
    match node_at(v, node_id) {
        None => Err(RegistryError::NodeUnavailable),
        Some(n) => match n.credit_spec(gb) {
            Err(e) => Err(e),
            Ok(credited) => if v.stats.total_bandwidth + gb <= u64::MAX
                && v.stats.total_tokens_distributed + gb * REWARD_PER_GB <= u64::MAX {
                Ok(
                    RegistryView {
                        nodes: v.nodes.update(node_id - 1, credited),
                        stats: NetworkStats {
                            total_bandwidth: (v.stats.total_bandwidth + gb) as u64,
                            total_tokens_distributed: (v.stats.total_tokens_distributed + gb
                                * REWARD_PER_GB) as u64,
                            ..v.stats
                        },
                        ..v
                    },
                )
            } else {
                Err(RegistryError::Overflow)
            },
        },
    }
}

/// The registry after `operator` deactivates node `node_id`.
pub open spec fn deactivate_spec(v: RegistryView, node_id: u64, operator: Operator) -> Result<
    RegistryView,
    RegistryError,
> {
    match node_at(v, node_id) {
        None => Err(RegistryError::NotFound),
        Some(n) => match n.deactivate_spec(operator) {
            Err(e) => Err(e),
            Ok(stopped) => if v.stats.active_nodes > 0 {
                Ok(
                    RegistryView {
                        nodes: v.nodes.update(node_id - 1, stopped),
                        stats: NetworkStats {
                            active_nodes: (v.stats.active_nodes - 1) as u64,
                            ..v.stats
                        },
                        ..v
                    },
                )
            } else {
                Err(RegistryError::Overflow)
            },
        },
    }
}

/// No more nodes are active than there are nodes.
pub proof fn lemma_count_active_bounded(nodes: Seq<VPNNode>)
    ensures
        count_active(nodes) <= nodes.len(),
    decreases nodes.len(),
{
    if nodes.len() > 0 {
        lemma_count_active_bounded(nodes.drop_last());
    }
}

proof fn lemma_count_active_push(nodes: Seq<VPNNode>, n: VPNNode)
    ensures
        count_active(nodes.push(n)) == count_active(nodes) + if n.is_active {
            1nat
        } else {
            0nat
        },
{
    assert(nodes.push(n).drop_last() =~= nodes);
}

proof fn lemma_count_active_update(nodes: Seq<VPNNode>, i: int, n: VPNNode)
    requires
        0 <= i < nodes.len(),
    ensures
        count_active(nodes.update(i, n)) + (if nodes[i].is_active {
            1nat
        } else {
            0nat
        }) == count_active(nodes) + if n.is_active {
            1nat
        } else {
            0nat
        },
    decreases nodes.len(),
{
    let updated = nodes.update(i, n);
    if i == nodes.len() - 1 {
        assert(updated.drop_last() =~= nodes.drop_last());
    } else {
        assert(updated.drop_last() =~= nodes.drop_last().update(i, n));
        lemma_count_active_update(nodes.drop_last(), i, n);
    }
}

/// In a consistent registry the tokens distributed are always ten times the
/// bandwidth reported, and no more nodes are active than were registered.
pub proof fn lemma_stats_consistent(v: RegistryView)
    requires
        v.wf(),
    ensures
        v.stats.consistent(),
        v.stats.total_tokens_distributed == v.stats.total_bandwidth * 10,
        v.stats.active_nodes <= v.stats.total_nodes,
{
    lemma_count_active_bounded(v.nodes);
}

/// Every operation that succeeds on a consistent registry leaves it
/// consistent; the number of active nodes grows by one only on registration,
/// shrinks by exactly one on deactivation and is left alone by reports.
pub proof fn lemma_operations_keep_wf(
    v: RegistryView,
    operator: Operator,
    time: u64,
    node_id: u64,
    gb: u64,
)
    requires
        v.wf(),
    ensures
        register_spec(v, operator, time) matches Ok(w) ==> w.wf() && w.stats.active_nodes
            == v.stats.active_nodes + 1,
        report_spec(v, node_id, gb) matches Ok(w) ==> w.wf() && w.stats.active_nodes
            == v.stats.active_nodes,
        deactivate_spec(v, node_id, operator) matches Ok(w) ==> w.wf() && w.stats.active_nodes
            == v.stats.active_nodes - 1,
{
    let n = VPNNode {
        node_id: (v.node_count + 1) as u64,
        operator,
        bandwidth_provided: 0,
        tokens_earned: 0,
        is_active: true,
        registration_time: time,
    };
    lemma_count_active_push(v.nodes, n);
    if register_spec(v, operator, time) is Ok {
        let w = register_spec(v, operator, time)->Ok_0;
        assert forall|i: int| 0 <= i < w.nodes.len() implies (#[trigger] w.nodes[i]).node_id == i
            + 1 by {
            if i < v.nodes.len() {
                assert(w.nodes[i] == v.nodes[i]);
            }
        }
    }
    if 1 <= node_id && node_id <= v.nodes.len() {
        let i = node_id - 1;
        let old_node = v.nodes[i];
        if report_spec(v, node_id, gb) is Ok {
            let w = report_spec(v, node_id, gb)->Ok_0;
            let credited = old_node.credit_spec(gb)->Ok_0;
            lemma_count_active_update(v.nodes, i, credited);
            assert forall|j: int| 0 <= j < w.nodes.len() implies (#[trigger] w.nodes[j]).node_id
                == j + 1 by {
                if j != i {
                    assert(w.nodes[j] == v.nodes[j]);
                }
            }
            assert(w.stats.total_tokens_distributed == w.stats.total_bandwidth * REWARD_PER_GB)
                by (nonlinear_arith)
                requires
                    w.stats.total_tokens_distributed == v.stats.total_tokens_distributed + gb
                        * REWARD_PER_GB,
                    w.stats.total_bandwidth == v.stats.total_bandwidth + gb,
                    v.stats.total_tokens_distributed == v.stats.total_bandwidth * REWARD_PER_GB,
            ;
        }
        if deactivate_spec(v, node_id, operator) is Ok {
            let w = deactivate_spec(v, node_id, operator)->Ok_0;
            let stopped = old_node.deactivate_spec(operator)->Ok_0;
            lemma_count_active_update(v.nodes, i, stopped);
            assert forall|j: int| 0 <= j < w.nodes.len() implies (#[trigger] w.nodes[j]).node_id
                == j + 1 by {
                if j != i {
                    assert(w.nodes[j] == v.nodes[j]);
                }
            }
        }
    }
}

/// Registration is sequential: on a consistent registry, a registration that
/// succeeds hands out the id one past the number of registrations so far,
/// and no other operation changes that number, whatever nodes were
/// deactivated before.
pub proof fn lemma_registration_is_sequential(
    v: RegistryView,
    operator: Operator,
    time: u64,
    node_id: u64,
    gb: u64,
)
    requires
        v.wf(),
    ensures
        register_spec(v, operator, time) matches Ok(w) ==> w.nodes.last().node_id
            == v.stats.total_nodes + 1 && w.stats.total_nodes == v.stats.total_nodes + 1,
        report_spec(v, node_id, gb) matches Ok(w) ==> w.stats.total_nodes
            == v.stats.total_nodes && w.node_count == v.node_count,
        deactivate_spec(v, node_id, operator) matches Ok(w) ==> w.stats.total_nodes
            == v.stats.total_nodes && w.node_count == v.node_count,
{
}

/// Deactivation is one-way: once a node has been deactivated, deactivating
/// it again by its operator is refused as already inactive, and reports for
/// it are refused.
pub proof fn lemma_deactivate_is_final(v: RegistryView, node_id: u64, operator: Operator, gb: u64)
    requires
        v.wf(),
        deactivate_spec(v, node_id, operator) is Ok,
    ensures
        deactivate_spec(deactivate_spec(v, node_id, operator)->Ok_0, node_id, operator) == Err::<
            RegistryView,
            RegistryError,
        >(RegistryError::AlreadyInactive),
        report_spec(deactivate_spec(v, node_id, operator)->Ok_0, node_id, gb) == Err::<
            RegistryView,
            RegistryError,
        >(RegistryError::NodeUnavailable),
{
}

/// Bandwidth reported for a node id that was never registered is refused.
pub proof fn lemma_report_unregistered_refused(v: RegistryView, node_id: u64, gb: u64)
    requires
        v.wf(),
        node_id == 0 || node_id > v.node_count,
    ensures
        report_spec(v, node_id, gb) == Err::<RegistryView, RegistryError>(
            RegistryError::NodeUnavailable,
        ),
{
}

/// The registry: the node counter, every node record ever registered, and
/// the aggregate counters, updated together by each operation.
pub struct DecentralizedVPNContract {
    node_count: u64,
    nodes: Vec<VPNNode>,
    stats: NetworkStats,
}

impl View for DecentralizedVPNContract {
    type V = RegistryView;

    closed spec fn view(&self) -> RegistryView {
        RegistryView { node_count: self.node_count, nodes: self.nodes@, stats: self.stats }
    }
}

impl DecentralizedVPNContract {
    /// An empty registry: no nodes, all counters zero.
    pub fn new() -> (r: DecentralizedVPNContract)
        ensures
            r@.wf(),
            r@.node_count == 0,
            r@.nodes.len() == 0,
            r@.stats == NetworkStats::zero_spec(),
    {
        let r = DecentralizedVPNContract { node_count: 0, nodes: Vec::new(), stats: NetworkStats::zero() };
        assert(r@.nodes =~= Seq::<VPNNode>::empty());
        r
    }

    /// Registers a node run by `operator` at ledger time `time` and returns
    /// its id, one past the number of nodes registered before.
    pub fn register_node(&mut self, operator: Operator, time: u64) -> (r: Result<u64, RegistryError>)
        requires
            old(self)@.wf(),
        ensures
            final(self)@.wf(),
            match register_spec(old(self)@, operator, time) {
                Ok(v) => r == Ok::<u64, RegistryError>(v.node_count) && final(self)@ == v,
                Err(e) => r == Err::<u64, RegistryError>(e) && final(self)@ == old(self)@,
            },
    {
        proof {
            lemma_operations_keep_wf(self@, operator, time, 0, 0);
        }
        let node = match VPNNode::registered(self.node_count, operator, time) {
            Ok(n) => n,
            Err(e) => return Err(e),
        };
        let mut stats = self.stats;
        match stats.record_registration() {
            Ok(()) => {},
            Err(e) => return Err(e),
        }
        let id = node.node_id;
        self.nodes.push(node);
        self.stats = stats;
        self.node_count = id;
        assert(self@ =~= register_spec(old(self)@, operator, time)->Ok_0);
        Ok(id)
    }

    /// Credits `bandwidth_gb` gigabytes, and ten tokens for each, to the
    /// active node `node_id` and to the network totals.
    pub fn report_bandwidth(&mut self, node_id: u64, bandwidth_gb: u64) -> (r: Result<
        (),
        RegistryError,
    >)
        requires
            old(self)@.wf(),
        ensures
            final(self)@.wf(),
            match report_spec(old(self)@, node_id, bandwidth_gb) {
                Ok(v) => r is Ok && final(self)@ == v,
                Err(e) => r == Err::<(), RegistryError>(e) && final(self)@ == old(self)@,
            },
    {
        proof {
            lemma_operations_keep_wf(self@, arbitrary(), 0, node_id, bandwidth_gb);
        }
        let idx = match self.slot(node_id) {
            Some(i) => i,
            None => return Err(RegistryError::NodeUnavailable),
        };
        let mut node = self.nodes[idx].copy();
        match node.credit(bandwidth_gb) {
            Ok(()) => {},
            Err(e) => return Err(e),
        }
        let mut stats = self.stats;
        match stats.record_bandwidth(bandwidth_gb) {
            Ok(()) => {},
            Err(e) => return Err(e),
        }
        self.nodes.set(idx, node);
        self.stats = stats;
        assert(self@ =~= report_spec(old(self)@, node_id, bandwidth_gb)->Ok_0);
        Ok(())
    }

    /// Marks node `node_id` inactive on behalf of `operator`. Refused, in this
    /// order, when the node does not exist, when `operator` does not own it,
    /// and when it is already inactive.
    pub fn deactivate_node(&mut self, node_id: u64, operator: &Operator) -> (r: Result<
        (),
        RegistryError,
    >)
        requires
            old(self)@.wf(),
        ensures
            final(self)@.wf(),
            match deactivate_spec(old(self)@, node_id, *operator) {
                Ok(v) => r is Ok && final(self)@ == v,
                Err(e) => r == Err::<(), RegistryError>(e) && final(self)@ == old(self)@,
            },
    {
        proof {
            lemma_operations_keep_wf(self@, *operator, 0, node_id, 0);
        }
        let idx = match self.slot(node_id) {
            Some(i) => i,
            None => return Err(RegistryError::NotFound),
        };
        let mut node = self.nodes[idx].copy();
        match node.deactivate_by(operator) {
            Ok(()) => {},
            Err(e) => return Err(e),
        }
        let mut stats = self.stats;
        match stats.record_deactivation() {
            Ok(()) => {},
            Err(e) => return Err(e),
        }
        self.nodes.set(idx, node);
        self.stats = stats;
        assert(self@ =~= deactivate_spec(old(self)@, node_id, *operator)->Ok_0);
        Ok(())
    }

    /// The record of node `node_id`, or the not-found record (id 0, inactive)
    /// where no such node was registered.
    pub fn get_node_info(&self, node_id: u64) -> (r: VPNNode)
        requires
            self@.wf(),
        ensures
            match node_at(self@, node_id) {
                Some(n) => r == n,
                None => is_not_found_record(r),
            },
    {
        match self.find_node(node_id) {
            Some(n) => n,
            None => VPNNode::not_found(),
        }
    }

    /// The record of node `node_id`, if it was registered.
    pub fn find_node(&self, node_id: u64) -> (r: Option<VPNNode>)
        requires
            self@.wf(),
        ensures
            r == node_at(self@, node_id),
    {
        match self.slot(node_id) {
            Some(i) => Some(self.nodes[i].copy()),
            None => None,
        }
    }

    /// The position of node `node_id` among the records, if it was
    /// registered.
    fn slot(&self, node_id: u64) -> (r: Option<usize>)
        requires
            self@.wf(),
        ensures
            match r {
                Some(i) => node_at(self@, node_id) is Some && i == node_id - 1,
                None => node_at(self@, node_id) is None,
            },
    {
        let len: usize = self.nodes.len();
        if node_id == 0 || node_id > len as u64 {
            None
        } else {
            Some((node_id - 1) as usize)
        }
    }

    /// The aggregate counters.
    pub fn get_network_stats(&self) -> (r: NetworkStats)
        ensures
            r == self@.stats,
    {
        self.stats
    }
}

} // verus!
