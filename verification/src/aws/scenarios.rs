//! The reconciler's entry points: bringing a network and a swarm up, finding
//! them again, and taking them down.
//!
//! `init` creates whatever is missing, in the order in which the resources
//! build on each other. `load` finds what exists and creates nothing. `drop`
//! removes what the reconciler manages, in the opposite order, and leaves
//! alone whatever the configuration supplied by id.

use crate::aws::ec2::{Bee, BeeView};
use crate::aws::network::{Goal, NetworkRun, NetworkRunView, Turn};
use crate::aws::swarm::{SwarmPhase, SwarmRun, SwarmRunView};
use crate::config::{SwarmConfig, SwarmConfigView};
use vstd::prelude::*;

verus! {

/// The network that a swarm lives in.
#[derive(Debug, Clone, PartialEq, Eq)]
pub struct AWSNetwork {
    pub vpc_id: String,
    pub subnet_id: String,
    pub security_group_id: String,
}

/// An `AWSNetwork` as plain values: texts are sequences of characters.
pub struct AWSNetworkView {
    pub vpc_id: Seq<char>,
    pub subnet_id: Seq<char>,
    pub security_group_id: Seq<char>,
}

impl DeepView for AWSNetwork {
    type V = AWSNetworkView;

    open spec fn deep_view(&self) -> AWSNetworkView {
        AWSNetworkView {
            vpc_id: self.vpc_id@,
            subnet_id: self.subnet_id@,
            security_group_id: self.security_group_id@,
        }
    }
}

impl View for AWSNetwork {
    type V = AWSNetworkView;

    open spec fn view(&self) -> AWSNetworkView {
        self.deep_view()
    }
}

impl AWSNetworkView {
    /// The report of a network: a title and one line per resource.
    pub open spec fn report(self) -> Seq<char> {
        "NETWORK ]--------------------------\n"@ + "VPC ID:    "@ + self.vpc_id + "\n"@
            + "Subnet ID: "@ + self.subnet_id + "\n"@ + "SG ID:     "@ + self.security_group_id
    }
}

impl AWSNetwork {
    /// Starts the run that brings the swarm's network up: whatever is missing
    /// of VPC, subnet, security group and gateway is created, in that order.
    pub fn init(sc: &SwarmConfig) -> (out: (NetworkRun, Turn))
        ensures
            (out.0@, out.1@) == NetworkRunView::start(Goal::Init, sc@),
            out.0.wf(),
    {
        NetworkRun::start(Goal::Init, sc)
    }

    /// Starts the run that finds the swarm's network, and creates nothing.
    pub fn load(sc: &SwarmConfig) -> (out: (NetworkRun, Turn))
        ensures
            (out.0@, out.1@) == NetworkRunView::start(Goal::Load, sc@),
            out.0.wf(),
    {
        NetworkRun::start(Goal::Load, sc)
    }

    /// Starts the run that takes the swarm's network down: gateway, security
    /// group, subnet and VPC, in that order, each unless the configuration
    /// supplied it.
    pub fn drop(sc: &SwarmConfig) -> (out: (NetworkRun, Turn))
        ensures
            (out.0@, out.1@) == NetworkRunView::start(Goal::Drop, sc@),
            out.0.wf(),
    {
        NetworkRun::start(Goal::Drop, sc)
    }

    /// The report of the network for the user.
    pub fn report(&self) -> (text: String)
        ensures
            text@ == self@.report(),
    {
        let mut out = "NETWORK ]--------------------------\n".to_owned();
        out.append("VPC ID:    ");
        out.append(self.vpc_id.as_str());
        out.append("\n");
        out.append("Subnet ID: ");
        out.append(self.subnet_id.as_str());
        out.append("\n");
        out.append("SG ID:     ");
        out.append(self.security_group_id.as_str());
        out
    }

    /// A copy of the network.
    pub fn duplicate(&self) -> (copy: AWSNetwork)
        ensures
            copy@ == self@,
    {
        AWSNetwork {
            vpc_id: self.vpc_id.clone(),
            subnet_id: self.subnet_id.clone(),
            security_group_id: self.security_group_id.clone(),
        }
    }
}

/// A swarm: its configuration, its network, its key pair and its instances.
#[derive(Debug, Clone, PartialEq, Eq)]
pub struct Swarm {
    pub config: SwarmConfig,
    pub network: AWSNetwork,
    pub key_pair: String,
    pub instances: Vec<Bee>,
}

/// A `Swarm` as plain values: texts are sequences of characters.
pub struct SwarmView {
    pub config: SwarmConfigView,
    pub network: AWSNetworkView,
    pub key_pair: Seq<char>,
    pub instances: Seq<BeeView>,
}

impl DeepView for Swarm {
    type V = SwarmView;

    open spec fn deep_view(&self) -> SwarmView {
        SwarmView {
            config: self.config@,
            network: self.network@,
            key_pair: self.key_pair@,
            instances: self.instances.deep_view(),
        }
    }
}

impl View for Swarm {
    type V = SwarmView;

    open spec fn view(&self) -> SwarmView {
        self.deep_view()
    }
}

/// The texts of `items`, with `separator` between each two of them.
pub open spec fn separated(items: Seq<Seq<char>>, separator: Seq<char>) -> Seq<char>
    decreases items.len(),
{
    if items.len() == 0 {
        Seq::empty()
    } else if items.len() == 1 {
        items[0]
    } else {
        separated(items.drop_last(), separator) + separator + items.last()
    }
}

impl SwarmView {
    /// A swarm is ready when every instance has a public address.
    pub open spec fn ready(self) -> bool {
        forall|i: int| 0 <= i < self.instances.len() ==> (#[trigger] self.instances[i]).ip is Some
    }

    /// The public addresses of the instances, in order.
    pub open spec fn hosts(self) -> Seq<Seq<char>> {
        self.instances.map_values(|b: BeeView| b.ip->0)
    }

    /// The report of a swarm: a title, the addresses, the key pair, and the
    /// report of the network.
    pub open spec fn report(self) -> Seq<char> {
        "SWARM ]----------------------------\n"@ + "Instances: "@ + separated(self.hosts(), ", "@)
            + "\n"@ + "SSH Key:   "@ + self.key_pair + "\n"@ + self.network.report()
    }
}

impl SwarmRunView {
    /// The swarm that a finished run has found or brought up.
    pub open spec fn swarm(self, sc: SwarmConfigView) -> Option<SwarmView> {
        if self.phase == SwarmPhase::Finished && self.goal != Goal::Drop && self.network is Some
            && self.key_pair is Some {
            Some(
                SwarmView {
                    config: sc,
                    network: self.network->0,
                    key_pair: self.key_pair->0,
                    instances: self.beez,
                },
            )
        } else {
            None
        }
    }
}

impl Swarm {
    /// Starts the run that brings the swarm up in its network: the key pair
    /// is imported if it is missing, and the number of running instances is
    /// brought to the configured number.
    pub fn init(sc: &SwarmConfig, network: &AWSNetwork) -> (out: (SwarmRun, Turn))
        ensures
            (out.0@, out.1@) == SwarmRunView::start(Goal::Init, sc@, Some(network@)),
            out.0.wf(),
    {
        SwarmRun::start(Goal::Init, sc, Some(network.duplicate()))
    }

    /// Starts the run that finds the swarm in its network: its key pair and
    /// its running instances. Nothing is created.
    pub fn load(sc: &SwarmConfig, network: &AWSNetwork) -> (out: (SwarmRun, Turn))
        ensures
            (out.0@, out.1@) == SwarmRunView::start(Goal::Load, sc@, Some(network@)),
            out.0.wf(),
    {
        SwarmRun::start(Goal::Load, sc, Some(network.duplicate()))
    }

    /// Starts the run that takes the swarm down: its running instances are
    /// terminated and waited for, then the key pair is removed unless the
    /// configuration supplied it.
    pub fn drop(sc: &SwarmConfig) -> (out: (SwarmRun, Turn))
        ensures
            (out.0@, out.1@) == SwarmRunView::start(Goal::Drop, sc@, None),
            out.0.wf(),
    {
        SwarmRun::start(Goal::Drop, sc, None)
    }

    /// The swarm that a finished run has found or brought up.
    pub fn of(run: SwarmRun, sc: &SwarmConfig) -> (swarm: Option<Swarm>)
        ensures
            swarm.deep_view() == run@.swarm(sc@),
    {
        if run.phase != SwarmPhase::Finished || run.goal == Goal::Drop {
            return None;
        }
        match (run.network, run.key_pair) {
            (Some(network), Some(key_pair)) => Some(
                Swarm { config: sc.duplicate(), network, key_pair, instances: run.beez },
            ),
            _ => None,
        }
    }

    /// Whether every instance has a public address.
    pub fn is_ready(&self) -> (yes: bool)
        ensures
            yes == self@.ready(),
    {
        let mut i: usize = 0;
        while i < self.instances.len()
            invariant
                i <= self.instances.len(),
                forall|k: int| 0 <= k < i ==> (#[trigger] self.instances.deep_view()[k]).ip is Some,
            decreases self.instances.len() - i,
        {
            if self.instances[i].ip.is_none() {
                assert(self.instances.deep_view()[i as int].ip is None);
                return false;
            }
            i += 1;
        }
        true
    }

    /// The public addresses of the instances, in order: the hosts that the
    /// session pool connects to.
    pub fn hosts(&self) -> (hosts: Vec<String>)
        requires
            self@.ready(),
        ensures
            hosts.deep_view() == self@.hosts(),
    {
        let mut hosts: Vec<String> = Vec::new();
        let mut i: usize = 0;
        while i < self.instances.len()
            invariant
                i <= self.instances.len(),
                self@.ready(),
                hosts.len() == i,
                forall|k: int| 0 <= k < i ==> hosts@[k]@ == self.instances.deep_view()[k].ip->0,
            decreases self.instances.len() - i,
        {
            assert(self.instances.deep_view()[i as int].ip is Some);
            hosts.push(self.instances[i].ip.as_ref().unwrap().clone());
            i += 1;
        }
        assert(hosts.deep_view() =~= self@.hosts());
        hosts
    }

    /// The report of the swarm for the user.
    pub fn report(&self) -> (text: String)
        requires
            self@.ready(),
        ensures
            text@ == self@.report(),
    {
        let hosts = self.hosts();
        let mut list = String::new();
        let mut i: usize = 0;
        while i < hosts.len()
            invariant
                i <= hosts.len(),
                list@ == separated(hosts.deep_view().take(i as int), ", "@),
            decreases hosts.len() - i,
        {
            proof {
                let now = hosts.deep_view().take(i + 1);
                assert(now.drop_last() =~= hosts.deep_view().take(i as int));
                assert(now.last() == hosts@[i as int]@);
            }
            if i > 0 {
                list.append(", ");
            }
            list.append(hosts[i].as_str());
            i += 1;
        }
        proof {
            assert(hosts.deep_view().take(hosts.len() as int) =~= hosts.deep_view());
        }
        let mut out = "SWARM ]----------------------------\n".to_owned();
        out.append("Instances: ");
        out.append(list.as_str());
        out.append("\n");
        out.append("SSH Key:   ");
        out.append(self.key_pair.as_str());
        out.append("\n");
        let network = self.network.report();
        out.append(network.as_str());
        out
    }
}

} // verus!
