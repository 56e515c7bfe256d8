//! Runs of the reconciler on the network: bringing it up, finding it again,
//! and taking it down.
//!
//! A run is a state that is stepped: it names the next request, a driver
//! carries the request out, and the answer steps the run again. What a run
//! asks for depends on nothing but the configuration and the answers so far.

use crate::aws::ec2::{
    delete_request, describe_request, CloudRequest, CloudRequestView, CloudResponse,
    CloudResponseView, InternetGateway, ResourceKind, ResourceMatcher, ResourceMatcherView,
    SecurityGroup, Subnet, CIDR_GATEWAY, CIDR_SUBNET, CIDR_VPC, SECURITY_GROUP_DESCRIPTION,
    SECURITY_GROUP_NAME, SETTLE_SECONDS, VPC,
};
use crate::aws::errors::{Ec2Error, Operation};
use crate::aws::scenarios::{AWSNetwork, AWSNetworkView};
use crate::config::{SwarmConfig, SwarmConfigView};
use vstd::prelude::*;

verus! {

/// Said when an answer is of a kind that the request in flight cannot have.
pub const STRAY_ANSWER: &'static str = "the answer does not fit the request";

/// Said when a run that has failed is stepped again.
pub const RUN_HAS_FAILED: &'static str = "the run has failed";

/// Said when a network that should exist has no VPC.
pub const NO_VPC: &'static str = "no vpc found";

/// Said when a network that should exist has no subnet.
pub const NO_SUBNET: &'static str = "no subnet found";

/// Said when a network that should exist has no security group.
pub const NO_SECURITY_GROUP: &'static str = "no security group found";

/// Said when a network that should exist has no internet gateway.
pub const NO_GATEWAY: &'static str = "no internet gateway found";

/// Said when a network has no route table to put the default route in.
pub const NO_ROUTE_TABLE: &'static str = "no route table found";

/// What a run is for.
#[derive(Debug, Clone, Copy, PartialEq, Eq, Structural)]
pub enum Goal {
    /// Create whatever is missing.
    Init,
    /// Find what exists, and create nothing.
    Load,
    /// Remove what the reconciler manages.
    Drop,
}

/// What a run tells its driver.
#[derive(Debug, Clone, PartialEq, Eq)]
pub enum Turn {
    /// Carry out the request and step the run with the answer.
    Call(CloudRequest),
    /// The run has reached its goal.
    Finished,
    /// The run has failed and asks for nothing more.
    Failed(Ec2Error),
}

/// A `Turn` as plain values: texts are sequences of characters.
pub enum TurnView {
    Call(CloudRequestView),
    Finished,
    Failed((Operation, Seq<char>)),
}

impl View for Turn {
    type V = TurnView;

    open spec fn view(&self) -> TurnView {
        match self {
            Turn::Call(request) => TurnView::Call(request@),
            Turn::Finished => TurnView::Finished,
            Turn::Failed(error) => TurnView::Failed(error@),
        }
    }
}

/// The request in flight of a run on the network, or how the run ended.
#[derive(Debug, Clone, Copy, PartialEq, Eq, Structural)]
pub enum NetworkPhase {
    FindVpc,
    CreateVpc,
    FindSubnet,
    CreateSubnet,
    MapPublicIp,
    FindSecurityGroup,
    CreateSecurityGroup,
    AllowSshIn,
    AllowAllOut,
    FindGateway,
    CreateGateway,
    AttachGateway,
    Settle,
    FindRouteTable,
    CreateRoute,
    DropFindGateway,
    DropFindAttachment,
    DropDetachGateway,
    DropDeleteGateway,
    DropFindSecurityGroup,
    DropDeleteSecurityGroup,
    DropFindSubnet,
    DropDeleteSubnet,
    DropFindVpc,
    DropDeleteVpc,
    Finished,
    Failed,
}

impl NetworkPhase {
    /// The operation that a failed answer in this phase is charged to. The
    /// steps that make a fresh gateway usable count as its creation, and
    /// detaching a gateway counts as its removal.
    pub open spec fn blame(self) -> Operation {
        match self {
            NetworkPhase::FindVpc => Operation::DescribeVpcs,
            NetworkPhase::CreateVpc => Operation::CreateVpc,
            NetworkPhase::FindSubnet => Operation::DescribeSubnets,
            NetworkPhase::CreateSubnet => Operation::CreateSubnet,
            NetworkPhase::MapPublicIp => Operation::ModifySubnetAttribute,
            NetworkPhase::FindSecurityGroup => Operation::DescribeSecurityGroups,
            NetworkPhase::CreateSecurityGroup => Operation::CreateSecurityGroup,
            NetworkPhase::AllowSshIn => Operation::AuthorizeSecurityGroupIngress,
            NetworkPhase::AllowAllOut => Operation::AuthorizeSecurityGroupEgress,
            NetworkPhase::FindGateway => Operation::DescribeInternetGateways,
            NetworkPhase::CreateGateway => Operation::CreateInternetGateway,
            NetworkPhase::AttachGateway => Operation::CreateInternetGateway,
            NetworkPhase::Settle => Operation::CreateInternetGateway,
            NetworkPhase::FindRouteTable => Operation::CreateInternetGateway,
            NetworkPhase::CreateRoute => Operation::CreateInternetGateway,
            NetworkPhase::DropFindGateway => Operation::DescribeInternetGateways,
            NetworkPhase::DropFindAttachment => Operation::DescribeInternetGateways,
            NetworkPhase::DropDetachGateway => Operation::DeleteInternetGateway,
            NetworkPhase::DropDeleteGateway => Operation::DeleteInternetGateway,
            NetworkPhase::DropFindSecurityGroup => Operation::DescribeSecurityGroups,
            NetworkPhase::DropDeleteSecurityGroup => Operation::DeleteSecurityGroup,
            NetworkPhase::DropFindSubnet => Operation::DescribeSubnets,
            NetworkPhase::DropDeleteSubnet => Operation::DeleteSubnet,
            NetworkPhase::DropFindVpc => Operation::DescribeVpcs,
            NetworkPhase::DropDeleteVpc => Operation::DeleteVpc,
            NetworkPhase::Finished => Operation::Unexpected,
            NetworkPhase::Failed => Operation::Unexpected,
        }
    }

    /// Whether the phase belongs to taking a network down.
    pub open spec fn is_dropping(self) -> bool {
        match self {
            NetworkPhase::DropFindGateway => true,
            NetworkPhase::DropFindAttachment => true,
            NetworkPhase::DropDetachGateway => true,
            NetworkPhase::DropDeleteGateway => true,
            NetworkPhase::DropFindSecurityGroup => true,
            NetworkPhase::DropDeleteSecurityGroup => true,
            NetworkPhase::DropFindSubnet => true,
            NetworkPhase::DropDeleteSubnet => true,
            NetworkPhase::DropFindVpc => true,
            NetworkPhase::DropDeleteVpc => true,
            _ => false,
        }
    }

    /// Whether the phase waits for a listing while a network is found or
    /// brought up. These are all the phases of a run that only loads.
    pub open spec fn is_finding(self) -> bool {
        match self {
            NetworkPhase::FindVpc => true,
            NetworkPhase::FindSubnet => true,
            NetworkPhase::FindSecurityGroup => true,
            NetworkPhase::FindGateway => true,
            _ => false,
        }
    }

    /// Whether the run is over.
    pub open spec fn is_over(self) -> bool {
        self == NetworkPhase::Finished || self == NetworkPhase::Failed
    }

    /// Whether the VPC is known in this phase.
    pub open spec fn knows_vpc(self) -> bool {
        match self {
            NetworkPhase::FindVpc => false,
            NetworkPhase::CreateVpc => false,
            NetworkPhase::Failed => false,
            p => !p.is_dropping(),
        }
    }

    /// Whether the subnet is known in this phase.
    pub open spec fn knows_subnet(self) -> bool {
        match self {
            NetworkPhase::FindSubnet => false,
            NetworkPhase::CreateSubnet => false,
            p => p.knows_vpc(),
        }
    }

    /// Whether the security group is known in this phase.
    pub open spec fn knows_security_group(self) -> bool {
        match self {
            NetworkPhase::MapPublicIp => false,
            NetworkPhase::FindSecurityGroup => false,
            NetworkPhase::CreateSecurityGroup => false,
            p => p.knows_subnet(),
        }
    }

    /// Whether the gateway is known in this phase.
    pub open spec fn knows_gateway(self) -> bool {
        match self {
            NetworkPhase::AttachGateway => true,
            NetworkPhase::Settle => true,
            NetworkPhase::FindRouteTable => true,
            NetworkPhase::CreateRoute => true,
            NetworkPhase::DropFindAttachment => true,
            NetworkPhase::DropDetachGateway => true,
            NetworkPhase::DropDeleteGateway => true,
            _ => false,
        }
    }
}

/// A run of the reconciler on the network.
#[derive(Debug, Clone, PartialEq, Eq)]
pub struct NetworkRun {
    pub goal: Goal,
    pub phase: NetworkPhase,
    pub vpc_id: Option<String>,
    pub subnet_id: Option<String>,
    pub security_group_id: Option<String>,
    pub gateway_id: Option<String>,
}

/// A `NetworkRun` as plain values: texts are sequences of characters.
pub struct NetworkRunView {
    pub goal: Goal,
    pub phase: NetworkPhase,
    pub vpc_id: Option<Seq<char>>,
    pub subnet_id: Option<Seq<char>>,
    pub security_group_id: Option<Seq<char>>,
    pub gateway_id: Option<Seq<char>>,
}

impl View for NetworkRun {
    type V = NetworkRunView;

    open spec fn view(&self) -> NetworkRunView {
        NetworkRunView {
            goal: self.goal,
            phase: self.phase,
            vpc_id: self.vpc_id.deep_view(),
            subnet_id: self.subnet_id.deep_view(),
            security_group_id: self.security_group_id.deep_view(),
            gateway_id: self.gateway_id.deep_view(),
        }
    }
}

impl NetworkRunView {
    /// A run is well formed when its phase fits its goal and it knows every
    /// id that its phase builds on.
    pub open spec fn wf(self) -> bool {
        &&& self.goal == Goal::Drop ==> self.phase.is_dropping() || self.phase.is_over()
        &&& self.goal == Goal::Load ==> self.phase.is_finding() || self.phase.is_over()
        &&& self.goal == Goal::Init ==> !self.phase.is_dropping()
        &&& self.phase.knows_vpc() && self.goal != Goal::Drop ==> self.vpc_id is Some
        &&& self.phase.knows_subnet() && self.goal != Goal::Drop ==> self.subnet_id is Some
        &&& self.phase.knows_security_group() && self.goal != Goal::Drop
            ==> self.security_group_id is Some
        &&& self.phase.knows_gateway() ==> self.gateway_id is Some
    }

    /// A run fits a configuration when it is well formed and does not deal
    /// with the removal of a resource that the configuration supplies.
    /// Every run that was started and stepped under a configuration fits it.
    pub open spec fn fits(self, sc: SwarmConfigView) -> bool {
        &&& self.wf()
        &&& sc.security_group_id is Some ==> self.phase != NetworkPhase::DropFindSecurityGroup
            && self.phase != NetworkPhase::DropDeleteSecurityGroup
        &&& sc.subnet_id is Some ==> self.phase != NetworkPhase::DropFindSubnet && self.phase
            != NetworkPhase::DropDeleteSubnet
        &&& sc.vpc_id is Some ==> self.phase != NetworkPhase::DropFindVpc && self.phase
            != NetworkPhase::DropDeleteVpc
    }

    /// The run as it starts.
    pub open spec fn fresh(goal: Goal) -> NetworkRunView {
        NetworkRunView {
            goal,
            phase: NetworkPhase::FindVpc,
            vpc_id: None,
            subnet_id: None,
            security_group_id: None,
            gateway_id: None,
        }
    }

    /// The run goes on with `request` in flight.
    pub open spec fn call(self, phase: NetworkPhase, request: CloudRequestView) -> (
        NetworkRunView,
        TurnView,
    ) {
        (NetworkRunView { phase, ..self }, TurnView::Call(request))
    }

    /// The run ends in failure.
    pub open spec fn fail(self, operation: Operation, detail: Seq<char>) -> (
        NetworkRunView,
        TurnView,
    ) {
        (NetworkRunView { phase: NetworkPhase::Failed, ..self }, TurnView::Failed((operation, detail)))
    }

    /// The run ends at its goal.
    pub open spec fn finish(self) -> (NetworkRunView, TurnView) {
        (NetworkRunView { phase: NetworkPhase::Finished, ..self }, TurnView::Finished)
    }

    /// Looks for the VPC: by the configured id, else by the swarm's tag.
    pub open spec fn load_vpc(self, sc: SwarmConfigView) -> (NetworkRunView, TurnView) {
        self.call(
            NetworkPhase::FindVpc,
            CloudRequestView::Describe {
                kind: ResourceKind::Vpc,
                matcher: ResourceMatcher::chosen(sc.vpc_id, sc.tag_name),
            },
        )
    }

    /// Looks for the subnet: by the configured id, else by the swarm's tag.
    pub open spec fn load_subnet(self, sc: SwarmConfigView) -> (NetworkRunView, TurnView) {
        self.call(
            NetworkPhase::FindSubnet,
            CloudRequestView::Describe {
                kind: ResourceKind::Subnet,
                matcher: ResourceMatcher::chosen(sc.subnet_id, sc.tag_name),
            },
        )
    }

    /// Looks for the security group: by the configured id, else by the swarm's tag.
    pub open spec fn load_security_group(self, sc: SwarmConfigView) -> (NetworkRunView, TurnView) {
        self.call(
            NetworkPhase::FindSecurityGroup,
            CloudRequestView::Describe {
                kind: ResourceKind::SecurityGroup,
                matcher: ResourceMatcher::chosen(sc.security_group_id, sc.tag_name),
            },
        )
    }

    /// Looks for the gateway, by the swarm's tag.
    pub open spec fn load_internet_gateway(self, sc: SwarmConfigView) -> (
        NetworkRunView,
        TurnView,
    ) {
        self.call(
            NetworkPhase::FindGateway,
            CloudRequestView::Describe {
                kind: ResourceKind::InternetGateway,
                matcher: ResourceMatcherView::Tagged(sc.tag_name),
            },
        )
    }

    /// Takes the gateway down: it is always the reconciler's own, and is
    /// looked for by the swarm's tag.
    pub open spec fn drop_internet_gateway(self, sc: SwarmConfigView) -> (
        NetworkRunView,
        TurnView,
    ) {
        self.call(
            NetworkPhase::DropFindGateway,
            CloudRequestView::Describe {
                kind: ResourceKind::InternetGateway,
                matcher: ResourceMatcherView::Tagged(sc.tag_name),
            },
        )
    }

    /// Takes the security group down, unless the configuration supplied it.
    pub open spec fn drop_security_group(self, sc: SwarmConfigView) -> (NetworkRunView, TurnView) {
        if sc.security_group_id is Some {
            self.drop_subnet(sc)
        } else {
            self.call(
                NetworkPhase::DropFindSecurityGroup,
                CloudRequestView::Describe {
                    kind: ResourceKind::SecurityGroup,
                    matcher: ResourceMatcherView::Tagged(sc.tag_name),
                },
            )
        }
    }

    /// Takes the subnet down, unless the configuration supplied it.
    pub open spec fn drop_subnet(self, sc: SwarmConfigView) -> (NetworkRunView, TurnView) {
        if sc.subnet_id is Some {
            self.drop_vpc(sc)
        } else {
            self.call(
                NetworkPhase::DropFindSubnet,
                CloudRequestView::Describe {
                    kind: ResourceKind::Subnet,
                    matcher: ResourceMatcherView::Tagged(sc.tag_name),
                },
            )
        }
    }

    /// Takes the VPC down, unless the configuration supplied it.
    pub open spec fn drop_vpc(self, sc: SwarmConfigView) -> (NetworkRunView, TurnView) {
        if sc.vpc_id is Some {
            self.finish()
        } else {
            self.call(
                NetworkPhase::DropFindVpc,
                CloudRequestView::Describe {
                    kind: ResourceKind::Vpc,
                    matcher: ResourceMatcherView::Tagged(sc.tag_name),
                },
            )
        }
    }

    /// How a run starts: bringing up and loading begin with the VPC, taking
    /// down begins with the gateway.
    pub open spec fn start(goal: Goal, sc: SwarmConfigView) -> (NetworkRunView, TurnView) {
        if goal == Goal::Drop {
            Self::fresh(goal).drop_internet_gateway(sc)
        } else {
            Self::fresh(goal).load_vpc(sc)
        }
    }

    /// What is missing is created when the run brings a network up, and is a
    /// failure when the run only loads one.
    pub open spec fn create_or_fail(
        self,
        phase: NetworkPhase,
        request: CloudRequestView,
        missing: Seq<char>,
    ) -> (NetworkRunView, TurnView) {
        if self.goal == Goal::Init {
            self.call(phase, request)
        } else {
            self.fail(Operation::Unexpected, missing)
        }
    }

    /// The step after a listing has come back.
    pub open spec fn after_found(self, sc: SwarmConfigView, ids: Seq<Seq<char>>) -> (
        NetworkRunView,
        TurnView,
    ) {
        match self.phase {
            NetworkPhase::FindVpc => if ids.len() > 0 {
                NetworkRunView { vpc_id: Some(ids[0]), ..self }.load_subnet(sc)
            } else {
                self.create_or_fail(
                    NetworkPhase::CreateVpc,
                    CloudRequestView::CreateVpc { cidr_block: CIDR_VPC@, tag: sc.tag_name },
                    NO_VPC@,
                )
            },
            NetworkPhase::FindSubnet => if ids.len() > 0 {
                NetworkRunView { subnet_id: Some(ids[0]), ..self }.load_security_group(sc)
            } else {
                self.create_or_fail(
                    NetworkPhase::CreateSubnet,
                    CloudRequestView::CreateSubnet {
                        vpc_id: self.vpc_id->0,
                        cidr_block: CIDR_SUBNET@,
                        tag: sc.tag_name,
                    },
                    NO_SUBNET@,
                )
            },
            NetworkPhase::FindSecurityGroup => if ids.len() > 0 {
                NetworkRunView { security_group_id: Some(ids[0]), ..self }.load_internet_gateway(sc)
            } else {
                self.create_or_fail(
                    NetworkPhase::CreateSecurityGroup,
                    CloudRequestView::CreateSecurityGroup {
                        vpc_id: self.vpc_id->0,
                        group_name: SECURITY_GROUP_NAME@,
                        description: SECURITY_GROUP_DESCRIPTION@,
                        tag: sc.tag_name,
                    },
                    NO_SECURITY_GROUP@,
                )
            },
            NetworkPhase::FindGateway => if ids.len() > 0 {
                NetworkRunView { gateway_id: Some(ids[0]), ..self }.finish()
            } else {
                self.create_or_fail(
                    NetworkPhase::CreateGateway,
                    CloudRequestView::CreateInternetGateway { tag: sc.tag_name },
                    NO_GATEWAY@,
                )
            },
            NetworkPhase::FindRouteTable => if ids.len() > 0 {
                self.call(
                    NetworkPhase::CreateRoute,
                    CloudRequestView::CreateRoute {
                        route_table_id: ids[0],
                        destination: CIDR_GATEWAY@,
                        gateway_id: self.gateway_id->0,
                    },
                )
            } else {
                self.fail(Operation::CreateInternetGateway, NO_ROUTE_TABLE@)
            },
            NetworkPhase::DropFindGateway => if ids.len() > 0 {
                NetworkRunView { gateway_id: Some(ids[0]), ..self }.call(
                    NetworkPhase::DropFindAttachment,
                    CloudRequestView::DescribeAttachments { gateway_id: ids[0] },
                )
            } else {
                self.drop_security_group(sc)
            },
            NetworkPhase::DropFindAttachment => if ids.len() > 0 {
                self.call(
                    NetworkPhase::DropDetachGateway,
                    CloudRequestView::DetachInternetGateway {
                        gateway_id: self.gateway_id->0,
                        vpc_id: ids[0],
                    },
                )
            } else {
                self.call(
                    NetworkPhase::DropDeleteGateway,
                    CloudRequestView::Delete {
                        kind: ResourceKind::InternetGateway,
                        id: self.gateway_id->0,
                    },
                )
            },
            NetworkPhase::DropFindSecurityGroup => if ids.len() > 0 {
                self.call(
                    NetworkPhase::DropDeleteSecurityGroup,
                    CloudRequestView::Delete { kind: ResourceKind::SecurityGroup, id: ids[0] },
                )
            } else {
                self.drop_subnet(sc)
            },
            NetworkPhase::DropFindSubnet => if ids.len() > 0 {
                self.call(
                    NetworkPhase::DropDeleteSubnet,
                    CloudRequestView::Delete { kind: ResourceKind::Subnet, id: ids[0] },
                )
            } else {
                self.drop_vpc(sc)
            },
            NetworkPhase::DropFindVpc => if ids.len() > 0 {
                self.call(
                    NetworkPhase::DropDeleteVpc,
                    CloudRequestView::Delete { kind: ResourceKind::Vpc, id: ids[0] },
                )
            } else {
                self.finish()
            },
            _ => self.fail(Operation::Unexpected, STRAY_ANSWER@),
        }
    }

    /// The step after a resource has been created.
    pub open spec fn after_created(self, sc: SwarmConfigView, id: Seq<char>) -> (
        NetworkRunView,
        TurnView,
    ) {
        match self.phase {
            NetworkPhase::CreateVpc => NetworkRunView { vpc_id: Some(id), ..self }.load_subnet(sc),
            NetworkPhase::CreateSubnet => NetworkRunView { subnet_id: Some(id), ..self }.call(
                NetworkPhase::MapPublicIp,
                CloudRequestView::MapPublicIpOnLaunch { subnet_id: id },
            ),
            NetworkPhase::CreateSecurityGroup => NetworkRunView {
                security_group_id: Some(id),
                ..self
            }.call(
                NetworkPhase::AllowSshIn,
                CloudRequestView::AuthorizeIngress {
                    group_id: id,
                    rule: SecurityGroup::inbound_rule(sc),
                },
            ),
            NetworkPhase::CreateGateway => NetworkRunView { gateway_id: Some(id), ..self }.call(
                NetworkPhase::AttachGateway,
                CloudRequestView::AttachInternetGateway {
                    gateway_id: id,
                    vpc_id: self.vpc_id->0,
                },
            ),
            _ => self.fail(Operation::Unexpected, STRAY_ANSWER@),
        }
    }

    /// The step after a request that has nothing to tell was carried out.
    pub open spec fn after_done(self, sc: SwarmConfigView) -> (NetworkRunView, TurnView) {
        match self.phase {
            NetworkPhase::MapPublicIp => self.load_security_group(sc),
            NetworkPhase::AllowSshIn => self.call(
                NetworkPhase::AllowAllOut,
                CloudRequestView::AuthorizeEgress {
                    group_id: self.security_group_id->0,
                    rule: SecurityGroup::outbound_rule(),
                },
            ),
            NetworkPhase::AllowAllOut => self.load_internet_gateway(sc),
            NetworkPhase::AttachGateway => self.call(
                NetworkPhase::Settle,
                CloudRequestView::Pause { seconds: SETTLE_SECONDS as nat },
            ),
            NetworkPhase::Settle => self.call(
                NetworkPhase::FindRouteTable,
                CloudRequestView::DescribeRouteTables { vpc_id: self.vpc_id->0 },
            ),
            NetworkPhase::CreateRoute => self.finish(),
            NetworkPhase::DropDetachGateway => self.call(
                NetworkPhase::DropDeleteGateway,
                CloudRequestView::Delete {
                    kind: ResourceKind::InternetGateway,
                    id: self.gateway_id->0,
                },
            ),
            NetworkPhase::DropDeleteGateway => self.drop_security_group(sc),
            NetworkPhase::DropDeleteSecurityGroup => self.drop_subnet(sc),
            NetworkPhase::DropDeleteSubnet => self.drop_vpc(sc),
            NetworkPhase::DropDeleteVpc => self.finish(),
            _ => self.fail(Operation::Unexpected, STRAY_ANSWER@),
        }
    }

    /// One step of a run: the answer to the request in flight decides the
    /// next request. A failed request ends the run, charged to the operation
    /// of its phase. A run that is over stays as it is.
    pub open spec fn step(self, sc: SwarmConfigView, response: CloudResponseView) -> (
        NetworkRunView,
        TurnView,
    ) {
        match self.phase {
            NetworkPhase::Finished => (self, TurnView::Finished),
            NetworkPhase::Failed => (
                self,
                TurnView::Failed((Operation::Unexpected, RUN_HAS_FAILED@)),
            ),
            _ => match response {
                CloudResponseView::Failed(detail) => self.fail(self.phase.blame(), detail),
                CloudResponseView::Found(ids) => self.after_found(sc, ids),
                CloudResponseView::Created(id) => self.after_created(sc, id),
                CloudResponseView::Done => self.after_done(sc),
                _ => self.fail(Operation::Unexpected, STRAY_ANSWER@),
            },
        }
    }

    /// The network that a finished run has found or brought up.
    pub open spec fn network(self) -> Option<AWSNetworkView> {
        if self.phase == NetworkPhase::Finished && self.goal != Goal::Drop
            && self.vpc_id is Some && self.subnet_id is Some && self.security_group_id is Some {
            Some(
                AWSNetworkView {
                    vpc_id: self.vpc_id->0,
                    subnet_id: self.subnet_id->0,
                    security_group_id: self.security_group_id->0,
                },
            )
        } else {
            None
        }
    }
}

impl NetworkPhase {
    /// The operation that a failed answer in this phase is charged to.
    pub fn charged(self) -> (operation: Operation)
        ensures
            operation == self.blame(),
    {
        match self {
            NetworkPhase::FindVpc => Operation::DescribeVpcs,
            NetworkPhase::CreateVpc => Operation::CreateVpc,
            NetworkPhase::FindSubnet => Operation::DescribeSubnets,
            NetworkPhase::CreateSubnet => Operation::CreateSubnet,
            NetworkPhase::MapPublicIp => Operation::ModifySubnetAttribute,
            NetworkPhase::FindSecurityGroup => Operation::DescribeSecurityGroups,
            NetworkPhase::CreateSecurityGroup => Operation::CreateSecurityGroup,
            NetworkPhase::AllowSshIn => Operation::AuthorizeSecurityGroupIngress,
            NetworkPhase::AllowAllOut => Operation::AuthorizeSecurityGroupEgress,
            NetworkPhase::FindGateway => Operation::DescribeInternetGateways,
            NetworkPhase::CreateGateway => Operation::CreateInternetGateway,
            NetworkPhase::AttachGateway => Operation::CreateInternetGateway,
            NetworkPhase::Settle => Operation::CreateInternetGateway,
            NetworkPhase::FindRouteTable => Operation::CreateInternetGateway,
            NetworkPhase::CreateRoute => Operation::CreateInternetGateway,
            NetworkPhase::DropFindGateway => Operation::DescribeInternetGateways,
            NetworkPhase::DropFindAttachment => Operation::DescribeInternetGateways,
            NetworkPhase::DropDetachGateway => Operation::DeleteInternetGateway,
            NetworkPhase::DropDeleteGateway => Operation::DeleteInternetGateway,
            NetworkPhase::DropFindSecurityGroup => Operation::DescribeSecurityGroups,
            NetworkPhase::DropDeleteSecurityGroup => Operation::DeleteSecurityGroup,
            NetworkPhase::DropFindSubnet => Operation::DescribeSubnets,
            NetworkPhase::DropDeleteSubnet => Operation::DeleteSubnet,
            NetworkPhase::DropFindVpc => Operation::DescribeVpcs,
            NetworkPhase::DropDeleteVpc => Operation::DeleteVpc,
            NetworkPhase::Finished => Operation::Unexpected,
            NetworkPhase::Failed => Operation::Unexpected,
        }
    }
}

/// The request that lists the resources of a kind that a matcher finds, if
/// one is needed.
fn describe(kind: ResourceKind, matcher: &ResourceMatcher) -> (request: Option<CloudRequest>)
    ensures
        request.deep_view() == describe_request(kind, matcher@),
{
    match kind {
        ResourceKind::Vpc => VPC::describe(matcher),
        ResourceKind::Subnet => Subnet::describe(matcher),
        ResourceKind::SecurityGroup => SecurityGroup::describe(matcher),
        ResourceKind::InternetGateway => InternetGateway::describe(matcher),
    }
}

/// The request that removes the first of the resources of a kind that a
/// listing has found, if it has found any.
fn remove(kind: ResourceKind, found: &Vec<String>) -> (request: Option<CloudRequest>)
    ensures
        request.deep_view() == delete_request(kind, found.deep_view()),
{
    match kind {
        ResourceKind::Vpc => VPC::delete(found),
        ResourceKind::Subnet => Subnet::delete(found),
        ResourceKind::SecurityGroup => SecurityGroup::delete(found),
        ResourceKind::InternetGateway => InternetGateway::delete(found),
    }
}

/// The request that lists the resources of a kind that bear the swarm's tag.
fn tagged(kind: ResourceKind, sc: &SwarmConfig) -> (request: CloudRequest)
    ensures
        request@ == (CloudRequestView::Describe {
            kind,
            matcher: ResourceMatcherView::Tagged(sc@.tag_name),
        }),
{
    let matcher = ResourceMatcher::Tagged(sc.tag_name.clone());
    describe(kind, &matcher).unwrap()
}

/// The request that lists one kind of resource by the id that the
/// configuration supplies, else by the swarm's tag.
fn sought(kind: ResourceKind, config_id: &Option<String>, sc: &SwarmConfig) -> (request:
    CloudRequest)
    ensures
        request@ == (CloudRequestView::Describe {
            kind,
            matcher: ResourceMatcher::chosen(config_id.deep_view(), sc@.tag_name),
        }),
{
    let matcher = ResourceMatcher::select(config_id, &sc.tag_name);
    describe(kind, &matcher).unwrap()
}

/// The request that removes a gateway.
fn delete_gateway(gateway_id: &str) -> (request: CloudRequest)
    ensures
        request@ == (CloudRequestView::Delete {
            kind: ResourceKind::InternetGateway,
            id: gateway_id@,
        }),
{
    let mut found: Vec<String> = Vec::new();
    found.push(gateway_id.to_owned());
    assert(found.deep_view()[0] == gateway_id@);
    remove(ResourceKind::InternetGateway, &found).unwrap()
}

/// The first of the ids that a listing found.
fn first_of(ids: &Vec<String>) -> (id: String)
    requires
        ids.len() > 0,
    ensures
        id@ == ids.deep_view()[0],
{
    ids[0].clone()
}

/// The text of an id that is known.
fn known(id: &Option<String>) -> (text: &str)
    requires
        id is Some,
    ensures
        text@ == id.deep_view()->0,
{
    id.as_ref().unwrap().as_str()
}

impl NetworkRun {
    /// Whether the run is well formed.
    pub open spec fn wf(&self) -> bool {
        self@.wf()
    }

    fn call(self, phase: NetworkPhase, request: CloudRequest) -> (out: (NetworkRun, Turn))
        ensures
            (out.0@, out.1@) == self@.call(phase, request@),
    {
        (NetworkRun { phase, ..self }, Turn::Call(request))
    }

    fn fail(self, operation: Operation, detail: String) -> (out: (NetworkRun, Turn))
        ensures
            (out.0@, out.1@) == self@.fail(operation, detail@),
    {
        (
            NetworkRun { phase: NetworkPhase::Failed, ..self },
            Turn::Failed(Ec2Error::new(operation, detail)),
        )
    }

    fn stray(self) -> (out: (NetworkRun, Turn))
        ensures
            (out.0@, out.1@) == self@.fail(Operation::Unexpected, STRAY_ANSWER@),
    {
        self.fail(Operation::Unexpected, STRAY_ANSWER.to_owned())
    }

    fn finish(self) -> (out: (NetworkRun, Turn))
        ensures
            (out.0@, out.1@) == self@.finish(),
    {
        (NetworkRun { phase: NetworkPhase::Finished, ..self }, Turn::Finished)
    }

    fn create_or_fail(self, phase: NetworkPhase, request: CloudRequest, missing: &str) -> (out: (
        NetworkRun,
        Turn,
    ))
        ensures
            (out.0@, out.1@) == self@.create_or_fail(phase, request@, missing@),
    {
        match self.goal {
            Goal::Init => self.call(phase, request),
            _ => self.fail(Operation::Unexpected, missing.to_owned()),
        }
    }

    fn load_vpc(self, sc: &SwarmConfig) -> (out: (NetworkRun, Turn))
        ensures
            (out.0@, out.1@) == self@.load_vpc(sc@),
    {
        let request = sought(ResourceKind::Vpc, &sc.vpc_id, sc);
        self.call(NetworkPhase::FindVpc, request)
    }

    fn load_subnet(self, sc: &SwarmConfig) -> (out: (NetworkRun, Turn))
        ensures
            (out.0@, out.1@) == self@.load_subnet(sc@),
    {
        let request = sought(ResourceKind::Subnet, &sc.subnet_id, sc);
        self.call(NetworkPhase::FindSubnet, request)
    }

    fn load_security_group(self, sc: &SwarmConfig) -> (out: (NetworkRun, Turn))
        ensures
            (out.0@, out.1@) == self@.load_security_group(sc@),
    {
        let request = sought(ResourceKind::SecurityGroup, &sc.security_group_id, sc);
        self.call(NetworkPhase::FindSecurityGroup, request)
    }

    fn load_internet_gateway(self, sc: &SwarmConfig) -> (out: (NetworkRun, Turn))
        ensures
            (out.0@, out.1@) == self@.load_internet_gateway(sc@),
    {
        self.call(NetworkPhase::FindGateway, tagged(ResourceKind::InternetGateway, sc))
    }

    fn drop_internet_gateway(self, sc: &SwarmConfig) -> (out: (NetworkRun, Turn))
        ensures
            (out.0@, out.1@) == self@.drop_internet_gateway(sc@),
    {
        self.call(NetworkPhase::DropFindGateway, tagged(ResourceKind::InternetGateway, sc))
    }

    fn drop_security_group(self, sc: &SwarmConfig) -> (out: (NetworkRun, Turn))
        ensures
            (out.0@, out.1@) == self@.drop_security_group(sc@),
    {
        if sc.security_group_id.is_some() {
            self.drop_subnet(sc)
        } else {
            self.call(NetworkPhase::DropFindSecurityGroup, tagged(ResourceKind::SecurityGroup, sc))
        }
    }

    fn drop_subnet(self, sc: &SwarmConfig) -> (out: (NetworkRun, Turn))
        ensures
            (out.0@, out.1@) == self@.drop_subnet(sc@),
    {
        if sc.subnet_id.is_some() {
            self.drop_vpc(sc)
        } else {
            self.call(NetworkPhase::DropFindSubnet, tagged(ResourceKind::Subnet, sc))
        }
    }

    fn drop_vpc(self, sc: &SwarmConfig) -> (out: (NetworkRun, Turn))
        ensures
            (out.0@, out.1@) == self@.drop_vpc(sc@),
    {
        if sc.vpc_id.is_some() {
            self.finish()
        } else {
            self.call(NetworkPhase::DropFindVpc, tagged(ResourceKind::Vpc, sc))
        }
    }

    /// Starts a run and names its first request.
    pub fn start(goal: Goal, sc: &SwarmConfig) -> (out: (NetworkRun, Turn))
        ensures
            (out.0@, out.1@) == NetworkRunView::start(goal, sc@),
            out.0.wf(),
            out.0@.fits(sc@),
    {
        let fresh = NetworkRun {
            goal,
            phase: NetworkPhase::FindVpc,
            vpc_id: None,
            subnet_id: None,
            security_group_id: None,
            gateway_id: None,
        };
        match goal {
            Goal::Drop => fresh.drop_internet_gateway(sc),
            _ => fresh.load_vpc(sc),
        }
    }

    fn after_found(self, sc: &SwarmConfig, ids: &Vec<String>) -> (out: (NetworkRun, Turn))
        requires
            self.wf(),
        ensures
            (out.0@, out.1@) == self@.after_found(sc@, ids.deep_view()),
    {
        let any = ids.len() > 0;
        match self.phase {
            NetworkPhase::FindVpc => if any {
                NetworkRun { vpc_id: Some(first_of(ids)), ..self }.load_subnet(sc)
            } else {
                self.create_or_fail(NetworkPhase::CreateVpc, VPC::create(sc), NO_VPC)
            },
            NetworkPhase::FindSubnet => if any {
                NetworkRun { subnet_id: Some(first_of(ids)), ..self }.load_security_group(sc)
            } else {
                let request = Subnet::create(sc, known(&self.vpc_id));
                self.create_or_fail(NetworkPhase::CreateSubnet, request, NO_SUBNET)
            },
            NetworkPhase::FindSecurityGroup => if any {
                NetworkRun { security_group_id: Some(first_of(ids)), ..self }.load_internet_gateway(
                    sc,
                )
            } else {
                let request = SecurityGroup::create(sc, known(&self.vpc_id));
                self.create_or_fail(NetworkPhase::CreateSecurityGroup, request, NO_SECURITY_GROUP)
            },
            NetworkPhase::FindGateway => if any {
                NetworkRun { gateway_id: Some(first_of(ids)), ..self }.finish()
            } else {
                self.create_or_fail(
                    NetworkPhase::CreateGateway,
                    InternetGateway::create(sc),
                    NO_GATEWAY,
                )
            },
            NetworkPhase::FindRouteTable => if any {
                let request = InternetGateway::default_route(
                    ids[0].as_str(),
                    known(&self.gateway_id),
                );
                self.call(NetworkPhase::CreateRoute, request)
            } else {
                self.fail(Operation::CreateInternetGateway, NO_ROUTE_TABLE.to_owned())
            },
            NetworkPhase::DropFindGateway => if any {
                let request = InternetGateway::attached_vpc_id(ids[0].as_str());
                NetworkRun { gateway_id: Some(first_of(ids)), ..self }.call(
                    NetworkPhase::DropFindAttachment,
                    request,
                )
            } else {
                self.drop_security_group(sc)
            },
            NetworkPhase::DropFindAttachment => if any {
                let request = InternetGateway::detach(known(&self.gateway_id), ids[0].as_str());
                self.call(NetworkPhase::DropDetachGateway, request)
            } else {
                let request = delete_gateway(known(&self.gateway_id));
                self.call(NetworkPhase::DropDeleteGateway, request)
            },
            NetworkPhase::DropFindSecurityGroup => match remove(ResourceKind::SecurityGroup, ids) {
                Some(request) => self.call(NetworkPhase::DropDeleteSecurityGroup, request),
                None => self.drop_subnet(sc),
            },
            NetworkPhase::DropFindSubnet => match remove(ResourceKind::Subnet, ids) {
                Some(request) => self.call(NetworkPhase::DropDeleteSubnet, request),
                None => self.drop_vpc(sc),
            },
            NetworkPhase::DropFindVpc => match remove(ResourceKind::Vpc, ids) {
                Some(request) => self.call(NetworkPhase::DropDeleteVpc, request),
                None => self.finish(),
            },
            _ => self.stray(),
        }
    }

    fn after_created(self, sc: &SwarmConfig, id: &String) -> (out: (NetworkRun, Turn))
        requires
            self.wf(),
        ensures
            (out.0@, out.1@) == self@.after_created(sc@, id@),
    {
        match self.phase {
            NetworkPhase::CreateVpc => NetworkRun { vpc_id: Some(id.clone()), ..self }.load_subnet(
                sc,
            ),
            NetworkPhase::CreateSubnet => {
                let request = Subnet::map_public_ip(id.as_str());
                NetworkRun { subnet_id: Some(id.clone()), ..self }.call(
                    NetworkPhase::MapPublicIp,
                    request,
                )
            },
            NetworkPhase::CreateSecurityGroup => {
                let request = SecurityGroup::allow_ssh_in(sc, id.as_str());
                NetworkRun { security_group_id: Some(id.clone()), ..self }.call(
                    NetworkPhase::AllowSshIn,
                    request,
                )
            },
            NetworkPhase::CreateGateway => {
                let request = InternetGateway::attach(id.as_str(), known(&self.vpc_id));
                NetworkRun { gateway_id: Some(id.clone()), ..self }.call(
                    NetworkPhase::AttachGateway,
                    request,
                )
            },
            _ => self.stray(),
        }
    }

    fn after_done(self, sc: &SwarmConfig) -> (out: (NetworkRun, Turn))
        requires
            self.wf(),
        ensures
            (out.0@, out.1@) == self@.after_done(sc@),
    {
        match self.phase {
            NetworkPhase::MapPublicIp => self.load_security_group(sc),
            NetworkPhase::AllowSshIn => {
                let request = SecurityGroup::allow_all_out(known(&self.security_group_id));
                self.call(NetworkPhase::AllowAllOut, request)
            },
            NetworkPhase::AllowAllOut => self.load_internet_gateway(sc),
            NetworkPhase::AttachGateway => self.call(
                NetworkPhase::Settle,
                CloudRequest::Pause { seconds: SETTLE_SECONDS },
            ),
            NetworkPhase::Settle => {
                let request = InternetGateway::route_tables(known(&self.vpc_id));
                self.call(NetworkPhase::FindRouteTable, request)
            },
            NetworkPhase::CreateRoute => self.finish(),
            NetworkPhase::DropDetachGateway => {
                let request = delete_gateway(known(&self.gateway_id));
                self.call(NetworkPhase::DropDeleteGateway, request)
            },
            NetworkPhase::DropDeleteGateway => self.drop_security_group(sc),
            NetworkPhase::DropDeleteSecurityGroup => self.drop_subnet(sc),
            NetworkPhase::DropDeleteSubnet => self.drop_vpc(sc),
            NetworkPhase::DropDeleteVpc => self.finish(),
            _ => self.stray(),
        }
    }

    /// Steps the run with the answer to the request that it named last, and
    /// names the next one.
    pub fn step(self, sc: &SwarmConfig, response: &CloudResponse) -> (out: (NetworkRun, Turn))
        requires
            self.wf(),
        ensures
            (out.0@, out.1@) == self@.step(sc@, response@),
            out.0.wf(),
            self@.fits(sc@) ==> out.0@.fits(sc@),
    {
        proof {
            lemma_step_keeps_wf(self@, sc@, response@);
        }
        match self.phase {
            NetworkPhase::Finished => (self, Turn::Finished),
            NetworkPhase::Failed => (
                self,
                Turn::Failed(Ec2Error::new(Operation::Unexpected, RUN_HAS_FAILED.to_owned())),
            ),
            _ => match response {
                CloudResponse::Failed(detail) => {
                    let operation = self.phase.charged();
                    self.fail(operation, detail.clone())
                },
                CloudResponse::Found(ids) => self.after_found(sc, ids),
                CloudResponse::Created(id) => self.after_created(sc, id),
                CloudResponse::Done => self.after_done(sc),
                _ => self.stray(),
            },
        }
    }

    /// Whether the run has reached its goal.
    pub fn is_finished(&self) -> (yes: bool)
        ensures
            yes == (self.phase == NetworkPhase::Finished),
    {
        self.phase == NetworkPhase::Finished
    }

    /// The network that a finished run has found or brought up.
    pub fn network(&self) -> (network: Option<AWSNetwork>)
        ensures
            network.deep_view() == self@.network(),
    {
        if self.phase != NetworkPhase::Finished || self.goal == Goal::Drop {
            return None;
        }
        match (&self.vpc_id, &self.subnet_id, &self.security_group_id) {
            (Some(vpc_id), Some(subnet_id), Some(security_group_id)) => Some(
                AWSNetwork {
                    vpc_id: vpc_id.clone(),
                    subnet_id: subnet_id.clone(),
                    security_group_id: security_group_id.clone(),
                },
            ),
            _ => None,
        }
    }
}

/// A step leads from a well-formed run to a well-formed run, and from a run
/// that fits the configuration to one that fits it.
pub proof fn lemma_step_keeps_wf(run: NetworkRunView, sc: SwarmConfigView, response: CloudResponseView)
    requires
        run.wf(),
    ensures
        run.step(sc, response).0.wf(),
        run.fits(sc) ==> run.step(sc, response).0.fits(sc),
        NetworkRunView::start(run.goal, sc).0.fits(sc),
{
}

impl NetworkPhase {
    /// How far a phase is along its run. Bringing a network up goes from the
    /// VPC over the subnet and the security group to the gateway; taking it
    /// down goes the other way.
    pub open spec fn rank(self) -> nat {
        match self {
            NetworkPhase::FindVpc => 0,
            NetworkPhase::CreateVpc => 1,
            NetworkPhase::FindSubnet => 2,
            NetworkPhase::CreateSubnet => 3,
            NetworkPhase::MapPublicIp => 4,
            NetworkPhase::FindSecurityGroup => 5,
            NetworkPhase::CreateSecurityGroup => 6,
            NetworkPhase::AllowSshIn => 7,
            NetworkPhase::AllowAllOut => 8,
            NetworkPhase::FindGateway => 9,
            NetworkPhase::CreateGateway => 10,
            NetworkPhase::AttachGateway => 11,
            NetworkPhase::Settle => 12,
            NetworkPhase::FindRouteTable => 13,
            NetworkPhase::CreateRoute => 14,
            NetworkPhase::DropFindGateway => 15,
            NetworkPhase::DropFindAttachment => 16,
            NetworkPhase::DropDetachGateway => 17,
            NetworkPhase::DropDeleteGateway => 18,
            NetworkPhase::DropFindSecurityGroup => 19,
            NetworkPhase::DropDeleteSecurityGroup => 20,
            NetworkPhase::DropFindSubnet => 21,
            NetworkPhase::DropDeleteSubnet => 22,
            NetworkPhase::DropFindVpc => 23,
            NetworkPhase::DropDeleteVpc => 24,
            NetworkPhase::Finished => 25,
            NetworkPhase::Failed => 25,
        }
    }
}

impl CloudRequestView {
    /// The kind of resource that the request creates, if it creates one.
    pub open spec fn creates(self) -> Option<ResourceKind> {
        match self {
            CloudRequestView::CreateVpc { .. } => Some(ResourceKind::Vpc),
            CloudRequestView::CreateSubnet { .. } => Some(ResourceKind::Subnet),
            CloudRequestView::CreateSecurityGroup { .. } => Some(ResourceKind::SecurityGroup),
            CloudRequestView::CreateInternetGateway { .. } => Some(ResourceKind::InternetGateway),
            _ => None,
        }
    }
}

/// The id of a kind of resource that the configuration supplies.
pub open spec fn supplied(sc: SwarmConfigView, kind: ResourceKind) -> Option<Seq<char>> {
    match kind {
        ResourceKind::Vpc => sc.vpc_id,
        ResourceKind::Subnet => sc.subnet_id,
        ResourceKind::SecurityGroup => sc.security_group_id,
        ResourceKind::InternetGateway => None,
    }
}

/// The phase in which a run that does not take the network down waits for
/// the listing of a kind of resource.
pub open spec fn finding(kind: ResourceKind) -> NetworkPhase {
    match kind {
        ResourceKind::Vpc => NetworkPhase::FindVpc,
        ResourceKind::Subnet => NetworkPhase::FindSubnet,
        ResourceKind::SecurityGroup => NetworkPhase::FindSecurityGroup,
        ResourceKind::InternetGateway => NetworkPhase::FindGateway,
    }
}

/// Every step takes a run further along: a run on the network is over after
/// twenty-five steps at the most, and it never goes back to a resource that
/// it has dealt with.
pub proof fn lemma_step_advances(run: NetworkRunView, sc: SwarmConfigView, response: CloudResponseView)
    requires
        run.wf(),
        !run.phase.is_over(),
    ensures
        run.step(sc, response).0.phase.rank() > run.phase.rank(),
        run.step(sc, response).1 is Call <==> !run.step(sc, response).0.phase.is_over(),
{
}

/// A run that loads the network asks for listings and for nothing else.
pub proof fn lemma_load_only_lists(run: NetworkRunView, sc: SwarmConfigView, response: CloudResponseView)
    requires
        run.wf(),
        run.goal == Goal::Load,
    ensures
        run.step(sc, response).1 matches TurnView::Call(request) ==> request is Describe,
        (NetworkRunView::start(Goal::Load, sc).1 matches TurnView::Call(request) && request
            is Describe),
{
}

/// A resource is created only by a run that brings the network up, and only
/// when the listing of its kind has just found none.
pub proof fn lemma_create_follows_an_empty_listing(
    run: NetworkRunView,
    sc: SwarmConfigView,
    response: CloudResponseView,
)
    requires
        run.wf(),
        (run.step(sc, response).1 matches TurnView::Call(request) && request.creates() is Some),
    ensures
        run.goal == Goal::Init,
        run.phase == finding(run.step(sc, response).1->Call_0.creates()->0),
        response == CloudResponseView::Found(Seq::<Seq<char>>::empty()),
{
    if let CloudResponseView::Found(ids) = response {
        assert(ids =~= Seq::<Seq<char>>::empty());
    }
}

/// What a listing finds is taken: the first resource found is the one that
/// the run goes on with, and nothing of its kind is created.
pub proof fn lemma_found_is_taken(
    run: NetworkRunView,
    sc: SwarmConfigView,
    kind: ResourceKind,
    ids: Seq<Seq<char>>,
)
    requires
        run.wf(),
        run.goal != Goal::Drop,
        run.phase == finding(kind),
        ids.len() > 0,
    ensures
        ({
            let (next, turn) = run.step(sc, CloudResponseView::Found(ids));
            &&& match kind {
                ResourceKind::Vpc => next.vpc_id == Some(ids[0]),
                ResourceKind::Subnet => next.subnet_id == Some(ids[0]),
                ResourceKind::SecurityGroup => next.security_group_id == Some(ids[0]),
                ResourceKind::InternetGateway => next.gateway_id == Some(ids[0]),
            }
            &&& match turn {
                TurnView::Call(request) => request is Describe,
                TurnView::Finished => kind == ResourceKind::InternetGateway,
                TurnView::Failed(_) => false,
            }
        }),
{
}

/// A resource whose id the configuration supplies is looked for by that id,
/// and one that it does not supply by the swarm's tag.
pub proof fn lemma_supplied_is_sought_by_id(
    run: NetworkRunView,
    sc: SwarmConfigView,
    response: CloudResponseView,
    kind: ResourceKind,
    matcher: ResourceMatcherView,
)
    requires
        run.wf(),
        run.goal != Goal::Drop,
        run.step(sc, response).1 == TurnView::Call(CloudRequestView::Describe { kind, matcher })
            || NetworkRunView::start(run.goal, sc).1 == TurnView::Call(
            CloudRequestView::Describe { kind, matcher },
        ),
    ensures
        matcher == ResourceMatcher::chosen(supplied(sc, kind), sc.tag_name),
{
}

/// A resource whose id the configuration supplies is never removed: a run
/// that takes the network down does not even look for its kind.
pub proof fn lemma_supplied_is_left_alone(
    run: NetworkRunView,
    sc: SwarmConfigView,
    response: CloudResponseView,
    kind: ResourceKind,
)
    requires
        run.fits(sc),
        run.goal == Goal::Drop,
        supplied(sc, kind) is Some,
    ensures
        match run.step(sc, response).1 {
            TurnView::Call(CloudRequestView::Delete { kind: k, .. }) => k != kind,
            TurnView::Call(CloudRequestView::Describe { kind: k, .. }) => k != kind,
            _ => true,
        },
        match NetworkRunView::start(Goal::Drop, sc).1 {
            TurnView::Call(CloudRequestView::Delete { kind: k, .. }) => k != kind,
            TurnView::Call(CloudRequestView::Describe { kind: k, .. }) => k != kind,
            _ => true,
        },
{
}

/// A run removes resources only when it takes the network down, and what it
/// removes is the first resource that the listing of its kind has just
/// found; a gateway may have been looked at or detached in between.
pub proof fn lemma_delete_follows_a_listing(
    run: NetworkRunView,
    sc: SwarmConfigView,
    response: CloudResponseView,
    kind: ResourceKind,
    id: Seq<char>,
)
    requires
        run.wf(),
        run.step(sc, response).1 == TurnView::Call(CloudRequestView::Delete { kind, id }),
    ensures
        run.goal == Goal::Drop,
        kind == ResourceKind::InternetGateway ==> run.gateway_id == Some(id),
        kind != ResourceKind::InternetGateway ==> (response matches CloudResponseView::Found(ids)
            && ids.len() > 0 && ids[0] == id),
{
}

/// A run that has brought a network up or found it knows the network.
pub proof fn lemma_finished_run_has_a_network(run: NetworkRunView)
    requires
        run.wf(),
        run.goal != Goal::Drop,
        run.phase == NetworkPhase::Finished,
    ensures
        run.network() is Some,
{
}

} // verus!
