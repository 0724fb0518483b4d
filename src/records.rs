use vstd::prelude::*;

verus! {

/// Tokens awarded for each gigabyte of reported bandwidth.
pub const REWARD_PER_GB: u64 = 10;

/// Strkey of the all-zero account, which stands as the operator of the
/// not-found record.
pub const ZERO_ACCOUNT: &'static str = "GAAAAAAAAAAAAAAAAAAAAAAAAAAAAAAAAAAAAAAAAAAAAAAAAAAAAWHF";

/// Why an operation on the registry was refused. A refused operation changes
/// nothing.
#[derive(Clone, Copy, PartialEq, Eq, Structural, Debug)]
pub enum RegistryError {
    /// Bandwidth was reported for a node that does not exist or is inactive.
    NodeUnavailable,
    /// The node to deactivate does not exist.
    NotFound,
    /// The caller is not the operator of the node.
    Unauthorized,
    /// The node to deactivate is already inactive.
    AlreadyInactive,
    /// A counter would leave the range of `u64`.
    Overflow,
}

/// The identity of a node operator, held as its strkey text.
#[derive(Clone, Debug, PartialEq, Eq)]
pub struct Operator {
    pub strkey: String,
}

impl Operator {
    pub fn new(strkey: String) -> (r: Operator)
        ensures
            r.strkey == strkey,
    {
        Operator { strkey }
    }

    /// The operator recorded on the not-found record.
    pub fn zero_account() -> (r: Operator)
        ensures
            r.strkey@ == ZERO_ACCOUNT@,
    {
        Operator { strkey: ZERO_ACCOUNT.to_owned() }
    }

    /// Whether both values name the same identity.
    pub fn same_as(&self, other: &Operator) -> (r: bool)
        ensures
            r == (self.strkey@ == other.strkey@),
    {
        self.strkey == other.strkey
    }

    pub fn copy(&self) -> (r: Operator)
        ensures
            r == *self,
    {
        Operator { strkey: self.strkey.clone() }
    }
}

/// The storage key of a node record.
#[derive(Clone, Copy, PartialEq, Eq, Structural, Debug)]
pub enum NodeBook {
    Node(u64),
}

impl NodeBook {
    pub fn for_node(node_id: u64) -> (r: NodeBook)
        ensures
            r == NodeBook::Node(node_id),
    {
        NodeBook::Node(node_id)
    }
}

/// Tokens owed for `gb` gigabytes, when that fits in a `u64`.
pub open spec fn reward_for_spec(gb: u64) -> Option<u64> {
    if gb * REWARD_PER_GB <= u64::MAX {
        Some((gb * REWARD_PER_GB) as u64)
    } else {
        None
    }
}

/// Aggregate counters over the whole network.
#[derive(Clone, Copy, PartialEq, Eq, Structural, Debug)]
pub struct NetworkStats {
    pub total_nodes: u64,
    pub active_nodes: u64,
    pub total_bandwidth: u64,
    pub total_tokens_distributed: u64,
}

impl NetworkStats {
    /// The counters before the first registration: all zero.
    pub open spec fn zero_spec() -> NetworkStats {
        NetworkStats { total_nodes: 0, active_nodes: 0, total_bandwidth: 0, total_tokens_distributed: 0 }
    }

    pub fn zero() -> (r: NetworkStats)
        ensures
            r == NetworkStats::zero_spec(),
    {
        NetworkStats { total_nodes: 0, active_nodes: 0, total_bandwidth: 0, total_tokens_distributed: 0 }
    }

    /// Tokens match bandwidth at the fixed rate, and no more nodes are active
    /// than were ever registered.
    pub open spec fn consistent(&self) -> bool {
        &&& self.total_tokens_distributed == self.total_bandwidth * REWARD_PER_GB
        &&& self.active_nodes <= self.total_nodes
    }

    /// Counts one more registered, active node.
    pub fn record_registration(&mut self) -> (r: Result<(), RegistryError>)
        ensures
            r is Ok <==> (old(self).total_nodes < u64::MAX && old(self).active_nodes < u64::MAX),
            r is Ok ==> *final(self) == (NetworkStats {
                total_nodes: (old(self).total_nodes + 1) as u64,
                active_nodes: (old(self).active_nodes + 1) as u64,
                ..*old(self)
            }),
            r is Err ==> r == Err::<(), RegistryError>(RegistryError::Overflow) && *final(self) == *old(self),
    {
        if self.total_nodes == u64::MAX || self.active_nodes == u64::MAX {
            return Err(RegistryError::Overflow);
        }
        self.total_nodes = self.total_nodes + 1;
        self.active_nodes = self.active_nodes + 1;
        Ok(())
    }

    /// Adds `gb` gigabytes and the tokens they earn to the totals.
    pub fn record_bandwidth(&mut self, gb: u64) -> (r: Result<(), RegistryError>)
        ensures
            r is Ok <==> (gb * REWARD_PER_GB <= u64::MAX && old(self).total_bandwidth + gb
                <= u64::MAX && old(self).total_tokens_distributed + gb * REWARD_PER_GB
                <= u64::MAX),
            r is Ok ==> *final(self) == (NetworkStats {
                total_bandwidth: (old(self).total_bandwidth + gb) as u64,
                total_tokens_distributed: (old(self).total_tokens_distributed + gb
                    * REWARD_PER_GB) as u64,
                ..*old(self)
            }),
            r is Err ==> r == Err::<(), RegistryError>(RegistryError::Overflow) && *final(self) == *old(self),
    {
        let tokens = match reward_for(gb) {
            Some(t) => t,
            None => return Err(RegistryError::Overflow),
        };
        if self.total_bandwidth > u64::MAX - gb || self.total_tokens_distributed > u64::MAX
            - tokens {
            return Err(RegistryError::Overflow);
        }
        self.total_bandwidth = self.total_bandwidth + gb;
        self.total_tokens_distributed = self.total_tokens_distributed + tokens;
        Ok(())
    }

    /// Counts one node less as active.
    pub fn record_deactivation(&mut self) -> (r: Result<(), RegistryError>)
        ensures
            r is Ok <==> old(self).active_nodes > 0,
            r is Ok ==> *final(self) == (NetworkStats {
                active_nodes: (old(self).active_nodes - 1) as u64,
                ..*old(self)
            }),
            r is Err ==> r == Err::<(), RegistryError>(RegistryError::Overflow) && *final(self) == *old(self),
    {
        if self.active_nodes == 0 {
            return Err(RegistryError::Overflow);
        }
        self.active_nodes = self.active_nodes - 1;
        Ok(())
    }
}

/// Tokens owed for `gb` gigabytes of bandwidth, or `None` where that
/// exceeds `u64`.
pub fn reward_for(gb: u64) -> (r: Option<u64>)
    ensures
        r == reward_for_spec(gb),
{
    if gb > u64::MAX / REWARD_PER_GB {
        None
    } else {
        Some(gb * REWARD_PER_GB)
    }
}

/// The record of one registered node.
#[derive(Clone, Debug, PartialEq, Eq)]
pub struct VPNNode {
    pub node_id: u64,
    pub operator: Operator,
    pub bandwidth_provided: u64,
    pub tokens_earned: u64,
    pub is_active: bool,
    pub registration_time: u64,
}

/// The record that a lookup of a missing node gives.
pub open spec fn is_not_found_record(n: VPNNode) -> bool {
    &&& n.node_id == 0
    &&& n.operator.strkey@ == ZERO_ACCOUNT@
    &&& n.bandwidth_provided == 0
    &&& n.tokens_earned == 0
    &&& !n.is_active
    &&& n.registration_time == 0
}

impl VPNNode {
    /// The fresh record of the node registered after `prev_count` others.
    pub fn registered(prev_count: u64, operator: Operator, time: u64) -> (r: Result<
        VPNNode,
        RegistryError,
    >)
        ensures
            prev_count < u64::MAX ==> r == Ok::<VPNNode, RegistryError>(
                VPNNode {
                    node_id: (prev_count + 1) as u64,
                    operator,
                    bandwidth_provided: 0,
                    tokens_earned: 0,
                    is_active: true,
                    registration_time: time,
                },
            ),
            prev_count == u64::MAX ==> r == Err::<VPNNode, RegistryError>(RegistryError::Overflow),
    {
        if prev_count == u64::MAX {
            return Err(RegistryError::Overflow);
        }
        Ok(
            VPNNode {
                node_id: prev_count + 1,
                operator,
                bandwidth_provided: 0,
                tokens_earned: 0,
                is_active: true,
                registration_time: time,
            },
        )
    }

    /// The placeholder a lookup returns for a node that does not exist.
    pub fn not_found() -> (r: VPNNode)
        ensures
            is_not_found_record(r),
    {
        VPNNode {
            node_id: 0,
            operator: Operator::zero_account(),
            bandwidth_provided: 0,
            tokens_earned: 0,
            is_active: false,
            registration_time: 0,
        }
    }

    pub fn copy(&self) -> (r: VPNNode)
        ensures
            r == *self,
    {
        VPNNode {
            node_id: self.node_id,
            operator: self.operator.copy(),
            bandwidth_provided: self.bandwidth_provided,
            tokens_earned: self.tokens_earned,
            is_active: self.is_active,
            registration_time: self.registration_time,
        }
    }

    /// The bandwidth and reward that crediting `gb` gigabytes adds, when the
    /// node can take them.
    pub open spec fn credit_spec(self, gb: u64) -> Result<VPNNode, RegistryError> {
        if self.node_id == 0 || !self.is_active {
            Err(RegistryError::NodeUnavailable)
        } else if !(gb * REWARD_PER_GB <= u64::MAX && self.bandwidth_provided + gb <= u64::MAX
            && self.tokens_earned + gb * REWARD_PER_GB <= u64::MAX) {
            Err(RegistryError::Overflow)
        } else {
            Ok(
                VPNNode {
                    bandwidth_provided: (self.bandwidth_provided + gb) as u64,
                    tokens_earned: (self.tokens_earned + gb * REWARD_PER_GB) as u64,
                    ..self
                },
            )
        }
    }

    /// Credits `gb` gigabytes, and the tokens they earn, to an active node.
    pub fn credit(&mut self, gb: u64) -> (r: Result<(), RegistryError>)
        ensures
            match old(self).credit_spec(gb) {
                Ok(n) => r is Ok && *final(self) == n,
                Err(e) => r == Err::<(), RegistryError>(e) && *final(self) == *old(self),
            },
    {
        if !self.is_active || self.node_id == 0 {
            return Err(RegistryError::NodeUnavailable);
        }
        let tokens = match reward_for(gb) {
            Some(t) => t,
            None => return Err(RegistryError::Overflow),
        };
        if self.bandwidth_provided > u64::MAX - gb || self.tokens_earned > u64::MAX - tokens {
            return Err(RegistryError::Overflow);
        }
        self.bandwidth_provided = self.bandwidth_provided + gb;
        self.tokens_earned = self.tokens_earned + tokens;
        Ok(())
    }

    /// The outcome of `operator` deactivating this node, checked in order:
    /// the node exists, `operator` owns it, it is still active.
    pub open spec fn deactivate_spec(self, operator: Operator) -> Result<VPNNode, RegistryError> {
        if self.node_id == 0 {
            Err(RegistryError::NotFound)
        } else if self.operator.strkey@ != operator.strkey@ {
            Err(RegistryError::Unauthorized)
        } else if !self.is_active {
            Err(RegistryError::AlreadyInactive)
        } else {
            Ok(VPNNode { is_active: false, ..self })
        }
    }

    /// Marks the node inactive on behalf of `operator`.
    pub fn deactivate_by(&mut self, operator: &Operator) -> (r: Result<(), RegistryError>)
        ensures
            match old(self).deactivate_spec(*operator) {
                Ok(n) => r is Ok && *final(self) == n,
                Err(e) => r == Err::<(), RegistryError>(e) && *final(self) == *old(self),
            },
    {
        if self.node_id == 0 {
            return Err(RegistryError::NotFound);
        }
        if !self.operator.same_as(operator) {
            return Err(RegistryError::Unauthorized);
        }
        if !self.is_active {
            return Err(RegistryError::AlreadyInactive);
        }
        self.is_active = false;
        Ok(())
    }
}

} // verus!
