//! A model of the cloud, to reason about whole runs of the reconciler.
//!
//! The model holds what the reconciler can see and change: the resources of
//! each kind with their tags, the key pairs, and the instances. It answers
//! a request as the provider does, but at once: an instance that is
//! launched is running, one that is terminated is gone. Nothing else
//! changes the model, so a run meets a cloud that stands still.

use crate::aws::ec2::{
    CloudRequestView, CloudResponseView, InstanceState, InstanceView, ResourceKind,
    ResourceMatcherView, SSHKeyMatcherView,
};
use vstd::prelude::*;

verus! {

/// A resource of the network, or a key pair: its id, and its `Name` tag or,
/// for a key pair, its name.
pub struct Resource {
    pub id: Seq<char>,
    pub tag: Seq<char>,
}

/// An instance: its id, its `Name` tag and its state.
pub struct Machine {
    pub id: Seq<char>,
    pub tag: Seq<char>,
    pub state: InstanceState,
}

impl Machine {
    /// The instance as the provider describes it. The model knows no
    /// addresses.
    pub open spec fn described(self) -> InstanceView {
        InstanceView { id: self.id, ip: None, state: Some(self.state) }
    }
}

/// The cloud.
pub struct Cloud {
    pub vpcs: Seq<Resource>,
    pub subnets: Seq<Resource>,
    pub groups: Seq<Resource>,
    pub gateways: Seq<Resource>,
    /// The network that each attached gateway is attached to.
    pub attachments: Map<Seq<char>, Seq<char>>,
    pub keys: Seq<Resource>,
    pub machines: Seq<Machine>,
    /// The ids that the cloud gives out: `names(n)` to the n-th thing that
    /// it makes.
    pub names: spec_fn(nat) -> Seq<char>,
    /// How many things the cloud has made.
    pub made: nat,
}

/// Whether a resource is one that a matcher looks for.
pub open spec fn is_sought(resource: Resource, matcher: ResourceMatcherView) -> bool {
    match matcher {
        ResourceMatcherView::Id(ids) => ids.contains(resource.id),
        ResourceMatcherView::Tagged(tag) => resource.tag == tag,
    }
}

/// Whether a key pair is one that a matcher looks for.
pub open spec fn is_sought_key(key: Resource, matcher: SSHKeyMatcherView) -> bool {
    match matcher {
        SSHKeyMatcherView::Id(id) => key.id == id,
        SSHKeyMatcherView::Name(name) => key.tag == name,
    }
}

/// Whether an instance is one that a matcher looks for.
pub open spec fn is_sought_machine(machine: Machine, matcher: ResourceMatcherView) -> bool {
    match matcher {
        ResourceMatcherView::Id(ids) => ids.contains(machine.id),
        ResourceMatcherView::Tagged(tag) => machine.tag == tag,
    }
}

/// The ids of the resources that a matcher finds, in the order of the cloud.
pub open spec fn sought(resources: Seq<Resource>, matcher: ResourceMatcherView) -> Seq<Seq<char>> {
    resources.filter(|r: Resource| is_sought(r, matcher)).map_values(|r: Resource| r.id)
}

/// The ids of the key pairs that a matcher finds, in the order of the cloud.
pub open spec fn sought_keys(keys: Seq<Resource>, matcher: SSHKeyMatcherView) -> Seq<Seq<char>> {
    keys.filter(|k: Resource| is_sought_key(k, matcher)).map_values(|k: Resource| k.id)
}

/// The instances that a matcher finds, in the order of the cloud.
pub open spec fn sought_machines(machines: Seq<Machine>, matcher: ResourceMatcherView) -> Seq<
    InstanceView,
> {
    machines.filter(|m: Machine| is_sought_machine(m, matcher)).map_values(
        |m: Machine| m.described(),
    )
}

/// The main route table of a network: every network has one.
pub open spec fn main_route_table(vpc_id: Seq<char>) -> Seq<char> {
    vpc_id + "/main"@
}

impl Cloud {
    /// The resources of a kind.
    pub open spec fn of_kind(self, kind: ResourceKind) -> Seq<Resource> {
        match kind {
            ResourceKind::Vpc => self.vpcs,
            ResourceKind::Subnet => self.subnets,
            ResourceKind::SecurityGroup => self.groups,
            ResourceKind::InternetGateway => self.gateways,
        }
    }

    /// The cloud with other resources of a kind.
    pub open spec fn with_kind(self, kind: ResourceKind, resources: Seq<Resource>) -> Cloud {
        match kind {
            ResourceKind::Vpc => Cloud { vpcs: resources, ..self },
            ResourceKind::Subnet => Cloud { subnets: resources, ..self },
            ResourceKind::SecurityGroup => Cloud { groups: resources, ..self },
            ResourceKind::InternetGateway => Cloud { gateways: resources, ..self },
        }
    }

    /// The id of the next thing that the cloud makes.
    pub open spec fn next_id(self) -> Seq<char> {
        (self.names)(self.made)
    }

    /// The cloud with one more resource of a kind, under the next id.
    pub open spec fn create(self, kind: ResourceKind, tag: Seq<char>) -> Cloud {
        Cloud {
            made: self.made + 1,
            ..self.with_kind(
                kind,
                self.of_kind(kind).push(Resource { id: self.next_id(), tag }),
            )
        }
    }

    /// The cloud with one more key pair, under the next id.
    pub open spec fn import(self, name: Seq<char>) -> Cloud {
        Cloud {
            made: self.made + 1,
            keys: self.keys.push(Resource { id: self.next_id(), tag: name }),
            ..self
        }
    }

    /// The instances that a launch of so many makes: they run at once.
    pub open spec fn launched(self, count: nat, tag: Seq<char>) -> Seq<Machine> {
        Seq::new(
            count,
            |j: int|
                Machine {
                    id: (self.names)((self.made + j) as nat),
                    tag,
                    state: InstanceState::Running,
                },
        )
    }

    /// The cloud with so many more instances.
    pub open spec fn launch(self, count: nat, tag: Seq<char>) -> Cloud {
        Cloud {
            made: self.made + count,
            machines: self.machines + self.launched(count, tag),
            ..self
        }
    }

    /// The cloud with the instances of the given ids terminated.
    pub open spec fn terminate(self, ids: Seq<Seq<char>>) -> Cloud {
        Cloud {
            machines: self.machines.map_values(
                |m: Machine|
                    if ids.contains(m.id) {
                        Machine { state: InstanceState::Terminated, ..m }
                    } else {
                        m
                    },
            ),
            ..self
        }
    }

    /// What the cloud answers to a request, and what it is afterwards.
    pub open spec fn answer(self, request: CloudRequestView) -> (Cloud, CloudResponseView) {
        match request {
            CloudRequestView::Describe { kind, matcher } => (
                self,
                CloudResponseView::Found(sought(self.of_kind(kind), matcher)),
            ),
            CloudRequestView::Delete { kind, id } => (
                self.with_kind(kind, self.of_kind(kind).filter(|r: Resource| r.id != id)),
                CloudResponseView::Done,
            ),
            CloudRequestView::CreateVpc { tag, .. } => (
                self.create(ResourceKind::Vpc, tag),
                CloudResponseView::Created(self.next_id()),
            ),
            CloudRequestView::CreateSubnet { tag, .. } => (
                self.create(ResourceKind::Subnet, tag),
                CloudResponseView::Created(self.next_id()),
            ),
            CloudRequestView::CreateSecurityGroup { tag, .. } => (
                self.create(ResourceKind::SecurityGroup, tag),
                CloudResponseView::Created(self.next_id()),
            ),
            CloudRequestView::CreateInternetGateway { tag } => (
                self.create(ResourceKind::InternetGateway, tag),
                CloudResponseView::Created(self.next_id()),
            ),
            CloudRequestView::AttachInternetGateway { gateway_id, vpc_id } => (
                Cloud { attachments: self.attachments.insert(gateway_id, vpc_id), ..self },
                CloudResponseView::Done,
            ),
            CloudRequestView::DetachInternetGateway { gateway_id, .. } => (
                Cloud { attachments: self.attachments.remove(gateway_id), ..self },
                CloudResponseView::Done,
            ),
            CloudRequestView::DescribeAttachments { gateway_id } => (
                self,
                CloudResponseView::Found(
                    if self.attachments.contains_key(gateway_id) {
                        seq![self.attachments[gateway_id]]
                    } else {
                        Seq::empty()
                    },
                ),
            ),
            CloudRequestView::DescribeRouteTables { vpc_id } => (
                self,
                CloudResponseView::Found(seq![main_route_table(vpc_id)]),
            ),
            CloudRequestView::DescribeKeyPairs { key: matcher } => (
                self,
                CloudResponseView::Found(sought_keys(self.keys, matcher)),
            ),
            CloudRequestView::ImportKeyPair { key_name, .. } => (
                self.import(key_name),
                CloudResponseView::Created(self.next_id()),
            ),
            CloudRequestView::DeleteKeyPair { key: matcher } => (
                Cloud { keys: self.keys.filter(|k: Resource| !is_sought_key(k, matcher)), ..self },
                CloudResponseView::Done,
            ),
            CloudRequestView::DescribeInstances { matcher } => (
                self,
                CloudResponseView::Reservations(seq![sought_machines(self.machines, matcher)]),
            ),
            CloudRequestView::RunInstances { count, tag, .. } => if count >= 0 {
                (
                    self.launch(count as nat, tag),
                    CloudResponseView::Launched(
                        self.launched(count as nat, tag).map_values(
                            |m: Machine| m.described().bee(),
                        ),
                    ),
                )
            } else {
                (self, CloudResponseView::Failed("a count cannot be negative"@))
            },
            CloudRequestView::TerminateInstances { instance_ids } => (
                self.terminate(instance_ids),
                CloudResponseView::Done,
            ),
            // Rules, routes and subnet settings are not part of the model.
            _ => (self, CloudResponseView::Done),
        }
    }

    /// The ids that the cloud gives out are all different, and none that it
    /// has yet to give out is the id of an instance.
    pub open spec fn wf(self) -> bool {
        &&& forall|i: nat, j: nat| i != j ==> #[trigger] (self.names)(i) != #[trigger] (self.names)(j)
        &&& forall|i: int, j: nat|
            0 <= i < self.machines.len() && j >= self.made ==> (#[trigger] self.machines[i]).id
                != #[trigger] (self.names)(j)
    }

    /// Whether the cloud holds nothing of a swarm: no resource and no key
    /// pair bears the tag, and every instance that bears it is terminated.
    pub open spec fn holds_nothing_of(self, tag: Seq<char>) -> bool {
        &&& forall|i: int| 0 <= i < self.vpcs.len() ==> (#[trigger] self.vpcs[i]).tag != tag
        &&& forall|i: int| 0 <= i < self.subnets.len() ==> (#[trigger] self.subnets[i]).tag != tag
        &&& forall|i: int| 0 <= i < self.groups.len() ==> (#[trigger] self.groups[i]).tag != tag
        &&& forall|i: int| 0 <= i < self.gateways.len() ==> (#[trigger] self.gateways[i]).tag != tag
        &&& forall|i: int| 0 <= i < self.keys.len() ==> (#[trigger] self.keys[i]).tag != tag
        &&& forall|i: int|
            0 <= i < self.machines.len() && (#[trigger] self.machines[i]).tag == tag
                ==> self.machines[i].state == InstanceState::Terminated
    }

    /// Whether the cloud holds a resource of a kind with an id.
    pub open spec fn holds(self, kind: ResourceKind, id: Seq<char>) -> bool {
        exists|i: int| 0 <= i < self.of_kind(kind).len() && (#[trigger] self.of_kind(kind)[i]).id == id
    }

    /// Whether the cloud holds a key pair with an id.
    pub open spec fn holds_key(self, id: Seq<char>) -> bool {
        exists|i: int| 0 <= i < self.keys.len() && (#[trigger] self.keys[i]).id == id
    }
}

/// A request that only looks leaves the cloud as it is.
pub proof fn lemma_looking_changes_nothing(cloud: Cloud, request: CloudRequestView)
    requires
        request.is_harmless(),
    ensures
        cloud.answer(request).0 == cloud,
{
}

} // verus!
