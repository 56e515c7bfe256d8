//! The cloud resources of a swarm, and the requests that create, find and
//! remove them.
//!
//! Nothing here talks to the provider. Each function says which request is to
//! be made, or reads what came back; a driver outside the library carries the
//! requests out.

use crate::aws::scenarios::AWSNetwork;
use crate::config::{SwarmConfig, SwarmConfigView, DEFAULT_AMI, DEFAULT_SSH_CIDR};
use crate::text::{copy_all, copy_opt};
use vstd::prelude::*;

verus! {

/// The address range of a network that the reconciler creates.
pub const CIDR_VPC: &'static str = "10.0.0.0/16";

/// The address range of a subnet that the reconciler creates.
pub const CIDR_SUBNET: &'static str = "10.0.1.0/24";

/// Every address: the destination of the default route and of outbound traffic.
pub const CIDR_GATEWAY: &'static str = "0.0.0.0/0";

/// The key of the tag that marks a managed resource.
pub const TAG_KEY: &'static str = "Name";

/// The name of the security group that the reconciler creates.
pub const SECURITY_GROUP_NAME: &'static str = "allow-ssh";

/// The description of the security group that the reconciler creates.
pub const SECURITY_GROUP_DESCRIPTION: &'static str = "Allow SSH inbound traffic";

/// The protocol of the inbound rule.
pub const PROTOCOL_TCP: &'static str = "tcp";

/// Stands for every protocol in a rule.
pub const PROTOCOL_ANY: &'static str = "-1";

/// The port of the shell service.
pub const SSH_PORT: i32 = 22;

/// Seconds to let a fresh gateway attachment settle before routes are looked up.
pub const SETTLE_SECONDS: u64 = 5;

/// Seconds between two looks at the instances that are waited for.
pub const POLL_SECONDS: u64 = 15;

/// Finds resources by their ids or by their `Name` tag.
#[derive(Debug, Clone, PartialEq, Eq)]
pub enum ResourceMatcher {
    Id(Vec<String>),
    Tagged(String),
}

/// A `ResourceMatcher` as plain values: texts are sequences of characters.
pub enum ResourceMatcherView {
    Id(Seq<Seq<char>>),
    Tagged(Seq<char>),
}

impl View for ResourceMatcher {
    type V = ResourceMatcherView;

    open spec fn view(&self) -> ResourceMatcherView {
        match self {
            ResourceMatcher::Id(ids) => ResourceMatcherView::Id(ids.deep_view()),
            ResourceMatcher::Tagged(tag) => ResourceMatcherView::Tagged(tag@),
        }
    }
}

impl ResourceMatcherView {
    /// A list of no ids matches nothing, so nothing needs to be asked.
    pub open spec fn is_vacuous(self) -> bool {
        self matches ResourceMatcherView::Id(ids) && ids.len() == 0
    }
}

impl ResourceMatcher {
    /// The matcher for a resource whose id the configuration may supply: that
    /// id where it does, the swarm's tag where it does not.
    pub open spec fn chosen(config_id: Option<Seq<char>>, tag: Seq<char>) -> ResourceMatcherView {
        match config_id {
            Some(id) => ResourceMatcherView::Id(seq![id]),
            None => ResourceMatcherView::Tagged(tag),
        }
    }

    /// Chooses how to look for a resource: by the id that the configuration
    /// supplies, else by the swarm's tag.
    pub fn select(config_id: &Option<String>, tag: &String) -> (matcher: ResourceMatcher)
        ensures
            matcher@ == Self::chosen(config_id.deep_view(), tag@),
    {
        match config_id {
            Some(id) => {
                let mut ids: Vec<String> = Vec::new();
                ids.push(id.clone());
                assert(ids.deep_view() =~= seq![id@]);
                ResourceMatcher::Id(ids)
            },
            None => ResourceMatcher::Tagged(tag.clone()),
        }
    }

    /// A copy of the matcher.
    pub fn duplicate(&self) -> (copy: ResourceMatcher)
        ensures
            copy@ == self@,
    {
        match self {
            ResourceMatcher::Id(ids) => ResourceMatcher::Id(copy_all(ids)),
            ResourceMatcher::Tagged(tag) => ResourceMatcher::Tagged(tag.clone()),
        }
    }
}

/// Finds a key pair by its id or by its name.
#[derive(Debug, Clone, PartialEq, Eq)]
pub enum SSHKeyMatcher {
    Id(String),
    Name(String),
}

/// An `SSHKeyMatcher` as plain values: texts are sequences of characters.
pub enum SSHKeyMatcherView {
    Id(Seq<char>),
    Name(Seq<char>),
}

impl View for SSHKeyMatcher {
    type V = SSHKeyMatcherView;

    open spec fn view(&self) -> SSHKeyMatcherView {
        match self {
            SSHKeyMatcher::Id(id) => SSHKeyMatcherView::Id(id@),
            SSHKeyMatcher::Name(name) => SSHKeyMatcherView::Name(name@),
        }
    }
}

impl SSHKeyMatcher {
    /// The matcher for the swarm's key pair: the id that the configuration
    /// supplies, else the swarm's tag as the key's name.
    pub open spec fn chosen(sc: SwarmConfigView) -> SSHKeyMatcherView {
        match sc.key_id {
            Some(id) => SSHKeyMatcherView::Id(id),
            None => SSHKeyMatcherView::Name(sc.tag_name),
        }
    }

    /// Chooses how to look for the swarm's key pair.
    pub fn select(sc: &SwarmConfig) -> (matcher: SSHKeyMatcher)
        ensures
            matcher@ == Self::chosen(sc@),
    {
        match &sc.key_id {
            Some(id) => SSHKeyMatcher::Id(id.clone()),
            None => SSHKeyMatcher::Name(sc.tag_name.clone()),
        }
    }
}

/// A `Bee` is an instance id and its public IP address.
#[derive(Debug, Clone, PartialEq, Eq)]
pub struct Bee {
    pub id: String,
    pub ip: Option<String>,
}

/// A `Bee` as plain values: texts are sequences of characters.
pub struct BeeView {
    pub id: Seq<char>,
    pub ip: Option<Seq<char>>,
}

impl DeepView for Bee {
    type V = BeeView;

    open spec fn deep_view(&self) -> BeeView {
        BeeView { id: self.id@, ip: self.ip.deep_view() }
    }
}

impl View for Bee {
    type V = BeeView;

    open spec fn view(&self) -> BeeView {
        self.deep_view()
    }
}

impl Bee {
    /// A copy of the bee.
    pub fn duplicate(&self) -> (copy: Bee)
        ensures
            copy@ == self@,
    {
        Bee { id: self.id.clone(), ip: copy_opt(&self.ip) }
    }
}

/// The ids of some bees, in order.
pub open spec fn ids_of(beez: Seq<BeeView>) -> Seq<Seq<char>> {
    beez.map_values(|b: BeeView| b.id)
}

/// The ids of `beez`, in order.
pub fn bee_ids(beez: &Vec<Bee>) -> (ids: Vec<String>)
    ensures
        ids.deep_view() == ids_of(beez.deep_view()),
{
    let mut ids: Vec<String> = Vec::new();
    let mut i: usize = 0;
    while i < beez.len()
        invariant
            i <= beez.len(),
            ids.len() == i,
            forall|k: int| 0 <= k < i ==> ids@[k]@ == beez@[k].id@,
        decreases beez.len() - i,
    {
        ids.push(beez[i].id.clone());
        i += 1;
    }
    assert(ids.deep_view() =~= ids_of(beez.deep_view()));
    ids
}

/// A copy of `beez[from..to]`.
pub fn copy_beez(beez: &Vec<Bee>, from: usize, to: usize) -> (out: Vec<Bee>)
    requires
        from <= to <= beez.len(),
    ensures
        out.deep_view() == beez.deep_view().subrange(from as int, to as int),
{
    let mut out: Vec<Bee> = Vec::new();
    let mut i: usize = from;
    while i < to
        invariant
            from <= i <= to <= beez.len(),
            out.len() == i - from,
            forall|k: int| 0 <= k < i - from ==> out@[k]@ == beez@[from + k]@,
        decreases to - i,
    {
        out.push(beez[i].duplicate());
        i += 1;
    }
    assert(out.deep_view() =~= beez.deep_view().subrange(from as int, to as int));
    out
}

/// Beez can be found by a list of them or by a resource tag.
#[derive(Debug, Clone, PartialEq, Eq)]
pub enum BeeMatcher {
    Ids(Vec<Bee>),
    Tagged(String),
}

/// A `BeeMatcher` as plain values: texts are sequences of characters.
pub enum BeeMatcherView {
    Ids(Seq<BeeView>),
    Tagged(Seq<char>),
}

impl View for BeeMatcher {
    type V = BeeMatcherView;

    open spec fn view(&self) -> BeeMatcherView {
        match self {
            BeeMatcher::Ids(beez) => BeeMatcherView::Ids(beez.deep_view()),
            BeeMatcher::Tagged(tag) => BeeMatcherView::Tagged(tag@),
        }
    }
}

impl BeeMatcherView {
    /// The same search, by ids or by tag.
    pub open spec fn as_resource_matcher(self) -> ResourceMatcherView {
        match self {
            BeeMatcherView::Ids(beez) => ResourceMatcherView::Id(ids_of(beez)),
            BeeMatcherView::Tagged(tag) => ResourceMatcherView::Tagged(tag),
        }
    }
}

/// The states of an instance's life.
#[derive(Debug, Clone, Copy, PartialEq, Eq, Structural)]
pub enum InstanceState {
    Pending,
    Running,
    ShuttingDown,
    Terminated,
    Stopping,
    Stopped,
}

/// An instance as the provider describes it.
#[derive(Debug, Clone, PartialEq, Eq)]
pub struct Instance {
    pub id: String,
    /// The public address, once the instance has one.
    pub ip: Option<String>,
    /// The state, where the provider reports one that is known.
    pub state: Option<InstanceState>,
}

/// An `Instance` as plain values: texts are sequences of characters.
pub struct InstanceView {
    pub id: Seq<char>,
    pub ip: Option<Seq<char>>,
    pub state: Option<InstanceState>,
}

impl InstanceView {
    /// The instance as a bee.
    pub open spec fn bee(self) -> BeeView {
        BeeView { id: self.id, ip: self.ip }
    }
}

impl DeepView for Instance {
    type V = InstanceView;

    open spec fn deep_view(&self) -> InstanceView {
        InstanceView { id: self.id@, ip: self.ip.deep_view(), state: self.state }
    }
}

impl View for Instance {
    type V = InstanceView;

    open spec fn view(&self) -> InstanceView {
        self.deep_view()
    }
}

/// The kinds of resource that are found by a `ResourceMatcher` and removed by id.
#[derive(Debug, Clone, Copy, PartialEq, Eq, Structural)]
pub enum ResourceKind {
    Vpc,
    Subnet,
    SecurityGroup,
    InternetGateway,
}

/// A rule of a security group: a protocol, a range of ports and the range of
/// addresses on the other side.
#[derive(Debug, Clone, PartialEq, Eq)]
pub struct IpRule {
    pub protocol: String,
    pub from_port: i32,
    pub to_port: i32,
    pub cidr: String,
}

/// An `IpRule` as plain values: texts are sequences of characters.
pub struct IpRuleView {
    pub protocol: Seq<char>,
    pub from_port: int,
    pub to_port: int,
    pub cidr: Seq<char>,
}

impl View for IpRule {
    type V = IpRuleView;

    open spec fn view(&self) -> IpRuleView {
        IpRuleView {
            protocol: self.protocol@,
            from_port: self.from_port as int,
            to_port: self.to_port as int,
            cidr: self.cidr@,
        }
    }
}

/// One request to the cloud provider, or a pause. Every resource that a request
/// creates gets the tag `Name` with the value of its `tag`.
#[derive(Debug, Clone, PartialEq, Eq)]
pub enum CloudRequest {
    /// List the ids of the resources of a kind that match.
    Describe { kind: ResourceKind, matcher: ResourceMatcher },
    /// Remove one resource of a kind.
    Delete { kind: ResourceKind, id: String },
    CreateVpc { cidr_block: String, tag: String },
    CreateSubnet { vpc_id: String, cidr_block: String, tag: String },
    /// Make the subnet give each instance a public address at launch.
    MapPublicIpOnLaunch { subnet_id: String },
    CreateSecurityGroup { vpc_id: String, group_name: String, description: String, tag: String },
    AuthorizeIngress { group_id: String, rule: IpRule },
    AuthorizeEgress { group_id: String, rule: IpRule },
    CreateInternetGateway { tag: String },
    AttachInternetGateway { gateway_id: String, vpc_id: String },
    DetachInternetGateway { gateway_id: String, vpc_id: String },
    /// List the ids of the networks that a gateway is attached to.
    DescribeAttachments { gateway_id: String },
    /// List the ids of the route tables of a network, the main one first.
    DescribeRouteTables { vpc_id: String },
    CreateRoute { route_table_id: String, destination: String, gateway_id: String },
    /// List the ids of the key pairs that match.
    DescribeKeyPairs { key: SSHKeyMatcher },
    /// Import the public key that the file holds, under a name.
    ImportKeyPair { key_name: String, public_key_file: String, tag: String },
    DeleteKeyPair { key: SSHKeyMatcher },
    /// Describe the instances that match, in whatever state they are.
    DescribeInstances { matcher: ResourceMatcher },
    /// Launch exactly `count` instances.
    RunInstances {
        count: i32,
        image_id: String,
        key_name: String,
        subnet_id: String,
        security_group_id: String,
        tag: String,
    },
    TerminateInstances { instance_ids: Vec<String> },
    /// Let time pass.
    Pause { seconds: u64 },
}

/// A `CloudRequest` as plain values: texts are sequences of characters.
pub enum CloudRequestView {
    Describe { kind: ResourceKind, matcher: ResourceMatcherView },
    Delete { kind: ResourceKind, id: Seq<char> },
    CreateVpc { cidr_block: Seq<char>, tag: Seq<char> },
    CreateSubnet { vpc_id: Seq<char>, cidr_block: Seq<char>, tag: Seq<char> },
    MapPublicIpOnLaunch { subnet_id: Seq<char> },
    CreateSecurityGroup {
        vpc_id: Seq<char>,
        group_name: Seq<char>,
        description: Seq<char>,
        tag: Seq<char>,
    },
    AuthorizeIngress { group_id: Seq<char>, rule: IpRuleView },
    AuthorizeEgress { group_id: Seq<char>, rule: IpRuleView },
    CreateInternetGateway { tag: Seq<char> },
    AttachInternetGateway { gateway_id: Seq<char>, vpc_id: Seq<char> },
    DetachInternetGateway { gateway_id: Seq<char>, vpc_id: Seq<char> },
    DescribeAttachments { gateway_id: Seq<char> },
    DescribeRouteTables { vpc_id: Seq<char> },
    CreateRoute { route_table_id: Seq<char>, destination: Seq<char>, gateway_id: Seq<char> },
    DescribeKeyPairs { key: SSHKeyMatcherView },
    ImportKeyPair { key_name: Seq<char>, public_key_file: Seq<char>, tag: Seq<char> },
    DeleteKeyPair { key: SSHKeyMatcherView },
    DescribeInstances { matcher: ResourceMatcherView },
    RunInstances {
        count: int,
        image_id: Seq<char>,
        key_name: Seq<char>,
        subnet_id: Seq<char>,
        security_group_id: Seq<char>,
        tag: Seq<char>,
    },
    TerminateInstances { instance_ids: Seq<Seq<char>> },
    Pause { seconds: nat },
}

impl View for CloudRequest {
    type V = CloudRequestView;

    open spec fn view(&self) -> CloudRequestView {
        self.deep_view()
    }
}

impl DeepView for CloudRequest {
    type V = CloudRequestView;

    open spec fn deep_view(&self) -> CloudRequestView {
        match self {
            CloudRequest::Describe { kind, matcher } => CloudRequestView::Describe {
                kind: *kind,
                matcher: matcher@,
            },
            CloudRequest::Delete { kind, id } => CloudRequestView::Delete { kind: *kind, id: id@ },
            CloudRequest::CreateVpc { cidr_block, tag } => CloudRequestView::CreateVpc {
                cidr_block: cidr_block@,
                tag: tag@,
            },
            CloudRequest::CreateSubnet { vpc_id, cidr_block, tag } => CloudRequestView::CreateSubnet {
                vpc_id: vpc_id@,
                cidr_block: cidr_block@,
                tag: tag@,
            },
            CloudRequest::MapPublicIpOnLaunch { subnet_id } => CloudRequestView::MapPublicIpOnLaunch {
                subnet_id: subnet_id@,
            },
            CloudRequest::CreateSecurityGroup {
                vpc_id,
                group_name,
                description,
                tag,
            } => CloudRequestView::CreateSecurityGroup {
                vpc_id: vpc_id@,
                group_name: group_name@,
                description: description@,
                tag: tag@,
            },
            CloudRequest::AuthorizeIngress { group_id, rule } => CloudRequestView::AuthorizeIngress {
                group_id: group_id@,
                rule: rule@,
            },
            CloudRequest::AuthorizeEgress { group_id, rule } => CloudRequestView::AuthorizeEgress {
                group_id: group_id@,
                rule: rule@,
            },
            CloudRequest::CreateInternetGateway { tag } => CloudRequestView::CreateInternetGateway {
                tag: tag@,
            },
            CloudRequest::AttachInternetGateway {
                gateway_id,
                vpc_id,
            } => CloudRequestView::AttachInternetGateway { gateway_id: gateway_id@, vpc_id: vpc_id@ },
            CloudRequest::DetachInternetGateway {
                gateway_id,
                vpc_id,
            } => CloudRequestView::DetachInternetGateway { gateway_id: gateway_id@, vpc_id: vpc_id@ },
            CloudRequest::DescribeAttachments { gateway_id } => CloudRequestView::DescribeAttachments {
                gateway_id: gateway_id@,
            },
            CloudRequest::DescribeRouteTables { vpc_id } => CloudRequestView::DescribeRouteTables {
                vpc_id: vpc_id@,
            },
            CloudRequest::CreateRoute {
                route_table_id,
                destination,
                gateway_id,
            } => CloudRequestView::CreateRoute {
                route_table_id: route_table_id@,
                destination: destination@,
                gateway_id: gateway_id@,
            },
            CloudRequest::DescribeKeyPairs { key: matcher } => CloudRequestView::DescribeKeyPairs {
                key: matcher@,
            },
            CloudRequest::ImportKeyPair {
                key_name,
                public_key_file,
                tag,
            } => CloudRequestView::ImportKeyPair {
                key_name: key_name@,
                public_key_file: public_key_file@,
                tag: tag@,
            },
            CloudRequest::DeleteKeyPair { key: matcher } => CloudRequestView::DeleteKeyPair {
                key: matcher@,
            },
            CloudRequest::DescribeInstances { matcher } => CloudRequestView::DescribeInstances {
                matcher: matcher@,
            },
            CloudRequest::RunInstances {
                count,
                image_id,
                key_name,
                subnet_id,
                security_group_id,
                tag,
            } => CloudRequestView::RunInstances {
                count: *count as int,
                image_id: image_id@,
                key_name: key_name@,
                subnet_id: subnet_id@,
                security_group_id: security_group_id@,
                tag: tag@,
            },
            CloudRequest::TerminateInstances { instance_ids } => CloudRequestView::TerminateInstances {
                instance_ids: instance_ids.deep_view(),
            },
            CloudRequest::Pause { seconds } => CloudRequestView::Pause { seconds: *seconds as nat },
        }
    }
}

impl CloudRequestView {
    /// Whether the request only reads, or lets time pass: it leaves every
    /// resource as it is.
    pub open spec fn is_harmless(self) -> bool {
        match self {
            CloudRequestView::Describe { .. } => true,
            CloudRequestView::DescribeAttachments { .. } => true,
            CloudRequestView::DescribeRouteTables { .. } => true,
            CloudRequestView::DescribeKeyPairs { .. } => true,
            CloudRequestView::DescribeInstances { .. } => true,
            CloudRequestView::Pause { .. } => true,
            _ => false,
        }
    }
}

/// What came back from a request.
#[derive(Debug, Clone, PartialEq, Eq)]
pub enum CloudResponse {
    /// The ids that a listing found, in the order of the provider's answer.
    Found(Vec<String>),
    /// The id of the resource that was created.
    Created(String),
    /// The instances that were described, grouped as the provider groups them.
    Reservations(Vec<Vec<Instance>>),
    /// The instances that were launched.
    Launched(Vec<Bee>),
    /// The request was carried out and has nothing to tell.
    Done,
    /// The request failed, with what the provider said.
    Failed(String),
}

/// A `CloudResponse` as plain values: texts are sequences of characters.
pub enum CloudResponseView {
    Found(Seq<Seq<char>>),
    Created(Seq<char>),
    Reservations(Seq<Seq<InstanceView>>),
    Launched(Seq<BeeView>),
    Done,
    Failed(Seq<char>),
}

impl View for CloudResponse {
    type V = CloudResponseView;

    open spec fn view(&self) -> CloudResponseView {
        match self {
            CloudResponse::Found(ids) => CloudResponseView::Found(ids.deep_view()),
            CloudResponse::Created(id) => CloudResponseView::Created(id@),
            CloudResponse::Reservations(groups) => CloudResponseView::Reservations(
                groups.deep_view(),
            ),
            CloudResponse::Launched(beez) => CloudResponseView::Launched(beez.deep_view()),
            CloudResponse::Done => CloudResponseView::Done,
            CloudResponse::Failed(detail) => CloudResponseView::Failed(detail@),
        }
    }
}

/// The request that lists the resources of `kind` that match; none where the
/// matcher is a list of no ids, which matches nothing.
pub open spec fn describe_request(kind: ResourceKind, matcher: ResourceMatcherView) -> Option<
    CloudRequestView,
> {
    if matcher.is_vacuous() {
        None
    } else {
        Some(CloudRequestView::Describe { kind, matcher })
    }
}

/// The request that removes the first of the resources found; none where none
/// was found.
pub open spec fn delete_request(kind: ResourceKind, found: Seq<Seq<char>>) -> Option<
    CloudRequestView,
> {
    if found.len() == 0 {
        None
    } else {
        Some(CloudRequestView::Delete { kind, id: found[0] })
    }
}

fn describe(kind: ResourceKind, matcher: &ResourceMatcher) -> (request: Option<CloudRequest>)
    ensures
        request.deep_view() == describe_request(kind, matcher@),
{
    let vacuous = match matcher {
        ResourceMatcher::Id(ids) => ids.len() == 0,
        ResourceMatcher::Tagged(_) => false,
    };
    if vacuous {
        None
    } else {
        Some(CloudRequest::Describe { kind, matcher: matcher.duplicate() })
    }
}

fn delete(kind: ResourceKind, found: &Vec<String>) -> (request: Option<CloudRequest>)
    ensures
        request.deep_view() == delete_request(kind, found.deep_view()),
{
    if found.len() == 0 {
        None
    } else {
        Some(CloudRequest::Delete { kind, id: found[0].clone() })
    }
}

/// The source range that may reach the shell port: the configured one, or every
/// address where none is configured.
pub open spec fn ssh_cidr(sc: SwarmConfigView) -> Seq<char> {
    match sc.ssh_cidr_block {
        Some(cidr) => cidr,
        None => DEFAULT_SSH_CIDR@,
    }
}

/// The machine image of the instances: the configured one, or the default.
pub open spec fn image(sc: SwarmConfigView) -> Seq<char> {
    match sc.ami {
        Some(ami) => ami,
        None => DEFAULT_AMI@,
    }
}

// VPCs

/// The virtual network that holds the swarm.
pub struct VPC {}

impl VPC {
    /// The request that creates the swarm's network.
    pub fn create(sc: &SwarmConfig) -> (request: CloudRequest)
        ensures
            request@ == (CloudRequestView::CreateVpc { cidr_block: CIDR_VPC@, tag: sc@.tag_name }),
    {
        CloudRequest::CreateVpc { cidr_block: CIDR_VPC.to_owned(), tag: sc.tag_name.clone() }
    }

    /// The request that lists the networks that match, if one is needed.
    pub fn describe(matcher: &ResourceMatcher) -> (request: Option<CloudRequest>)
        ensures
            request.deep_view() == describe_request(ResourceKind::Vpc, matcher@),
    {
        describe(ResourceKind::Vpc, matcher)
    }

    /// The request that removes the first of the networks found, if any was.
    pub fn delete(found: &Vec<String>) -> (request: Option<CloudRequest>)
        ensures
            request.deep_view() == delete_request(
                ResourceKind::Vpc,
                found.deep_view(),
            ),
    {
        delete(ResourceKind::Vpc, found)
    }
}

// Subnets

/// The subnet that the instances are launched into.
pub struct Subnet {}

impl Subnet {
    /// The request that creates the swarm's subnet in a network.
    pub fn create(sc: &SwarmConfig, vpc_id: &str) -> (request: CloudRequest)
        ensures
            request@ == (CloudRequestView::CreateSubnet {
                vpc_id: vpc_id@,
                cidr_block: CIDR_SUBNET@,
                tag: sc@.tag_name,
            }),
    {
        CloudRequest::CreateSubnet {
            vpc_id: vpc_id.to_owned(),
            cidr_block: CIDR_SUBNET.to_owned(),
            tag: sc.tag_name.clone(),
        }
    }

    /// The request that follows the creation of a subnet: instances launched
    /// into it get a public address.
    pub fn map_public_ip(subnet_id: &str) -> (request: CloudRequest)
        ensures
            request@ == (CloudRequestView::MapPublicIpOnLaunch { subnet_id: subnet_id@ }),
    {
        CloudRequest::MapPublicIpOnLaunch { subnet_id: subnet_id.to_owned() }
    }

    /// The request that lists the subnets that match, if one is needed.
    pub fn describe(matcher: &ResourceMatcher) -> (request: Option<CloudRequest>)
        ensures
            request.deep_view() == describe_request(ResourceKind::Subnet, matcher@),
    {
        describe(ResourceKind::Subnet, matcher)
    }

    /// The request that removes the first of the subnets found, if any was.
    pub fn delete(found: &Vec<String>) -> (request: Option<CloudRequest>)
        ensures
            request.deep_view() == delete_request(
                ResourceKind::Subnet,
                found.deep_view(),
            ),
    {
        delete(ResourceKind::Subnet, found)
    }
}

// Security Groups

/// The security group of the instances: the shell port is open to the
/// configured source range, and nothing holds outbound traffic back.
pub struct SecurityGroup {}

impl SecurityGroup {
    /// The rule that lets the configured source range reach the shell port.
    pub open spec fn inbound_rule(sc: SwarmConfigView) -> IpRuleView {
        IpRuleView {
            protocol: PROTOCOL_TCP@,
            from_port: SSH_PORT as int,
            to_port: SSH_PORT as int,
            cidr: ssh_cidr(sc),
        }
    }

    /// The rule that lets everything out.
    pub open spec fn outbound_rule() -> IpRuleView {
        IpRuleView { protocol: PROTOCOL_ANY@, from_port: 0, to_port: 0, cidr: CIDR_GATEWAY@ }
    }

    /// The request that creates the swarm's security group in a network.
    pub fn create(sc: &SwarmConfig, vpc_id: &str) -> (request: CloudRequest)
        ensures
            request@ == (CloudRequestView::CreateSecurityGroup {
                vpc_id: vpc_id@,
                group_name: SECURITY_GROUP_NAME@,
                description: SECURITY_GROUP_DESCRIPTION@,
                tag: sc@.tag_name,
            }),
    {
        CloudRequest::CreateSecurityGroup {
            vpc_id: vpc_id.to_owned(),
            group_name: SECURITY_GROUP_NAME.to_owned(),
            description: SECURITY_GROUP_DESCRIPTION.to_owned(),
            tag: sc.tag_name.clone(),
        }
    }

    /// The first request that follows the creation of a security group: the
    /// shell port is opened to the configured source range.
    pub fn allow_ssh_in(sc: &SwarmConfig, group_id: &str) -> (request: CloudRequest)
        ensures
            request@ == (CloudRequestView::AuthorizeIngress {
                group_id: group_id@,
                rule: Self::inbound_rule(sc@),
            }),
    {
        let cidr = match &sc.ssh_cidr_block {
            Some(cidr) => cidr.clone(),
            None => DEFAULT_SSH_CIDR.to_owned(),
        };
        CloudRequest::AuthorizeIngress {
            group_id: group_id.to_owned(),
            rule: IpRule {
                protocol: PROTOCOL_TCP.to_owned(),
                from_port: SSH_PORT,
                to_port: SSH_PORT,
                cidr,
            },
        }
    }

    /// The second request that follows the creation of a security group:
    /// outbound traffic is let through.
    pub fn allow_all_out(group_id: &str) -> (request: CloudRequest)
        ensures
            request@ == (CloudRequestView::AuthorizeEgress {
                group_id: group_id@,
                rule: Self::outbound_rule(),
            }),
    {
        CloudRequest::AuthorizeEgress {
            group_id: group_id.to_owned(),
            rule: IpRule {
                protocol: PROTOCOL_ANY.to_owned(),
                from_port: 0,
                to_port: 0,
                cidr: CIDR_GATEWAY.to_owned(),
            },
        }
    }

    /// The request that lists the security groups that match, if one is needed.
    pub fn describe(matcher: &ResourceMatcher) -> (request: Option<CloudRequest>)
        ensures
            request.deep_view() == describe_request(
                ResourceKind::SecurityGroup,
                matcher@,
            ),
    {
        describe(ResourceKind::SecurityGroup, matcher)
    }

    /// The request that removes the first of the security groups found, if any was.
    pub fn delete(found: &Vec<String>) -> (request: Option<CloudRequest>)
        ensures
            request.deep_view() == delete_request(
                ResourceKind::SecurityGroup,
                found.deep_view(),
            ),
    {
        delete(ResourceKind::SecurityGroup, found)
    }
}

// Internet Gateway

/// The gateway that connects the swarm's network to the internet.
pub struct InternetGateway {}

impl InternetGateway {
    /// The request that creates the swarm's gateway.
    pub fn create(sc: &SwarmConfig) -> (request: CloudRequest)
        ensures
            request@ == (CloudRequestView::CreateInternetGateway { tag: sc@.tag_name }),
    {
        CloudRequest::CreateInternetGateway { tag: sc.tag_name.clone() }
    }

    /// The request that lists the gateways that match, if one is needed.
    pub fn describe(matcher: &ResourceMatcher) -> (request: Option<CloudRequest>)
        ensures
            request.deep_view() == describe_request(
                ResourceKind::InternetGateway,
                matcher@,
            ),
    {
        describe(ResourceKind::InternetGateway, matcher)
    }

    /// The request that removes the first of the gateways found, if any was.
    /// A gateway has to be detached before it can be removed.
    pub fn delete(found: &Vec<String>) -> (request: Option<CloudRequest>)
        ensures
            request.deep_view() == delete_request(
                ResourceKind::InternetGateway,
                found.deep_view(),
            ),
    {
        delete(ResourceKind::InternetGateway, found)
    }

    /// The request that lists the networks that a gateway is attached to.
    pub fn attached_vpc_id(gateway_id: &str) -> (request: CloudRequest)
        ensures
            request@ == (CloudRequestView::DescribeAttachments { gateway_id: gateway_id@ }),
    {
        CloudRequest::DescribeAttachments { gateway_id: gateway_id.to_owned() }
    }

    /// The request that attaches a gateway to a network.
    pub fn attach(gateway_id: &str, vpc_id: &str) -> (request: CloudRequest)
        ensures
            request@ == (CloudRequestView::AttachInternetGateway {
                gateway_id: gateway_id@,
                vpc_id: vpc_id@,
            }),
    {
        CloudRequest::AttachInternetGateway {
            gateway_id: gateway_id.to_owned(),
            vpc_id: vpc_id.to_owned(),
        }
    }

    /// The request that lists the route tables of the network that a gateway
    /// was attached to.
    pub fn route_tables(vpc_id: &str) -> (request: CloudRequest)
        ensures
            request@ == (CloudRequestView::DescribeRouteTables { vpc_id: vpc_id@ }),
    {
        CloudRequest::DescribeRouteTables { vpc_id: vpc_id.to_owned() }
    }

    /// The request that sends all traffic of a route table through a gateway.
    pub fn default_route(route_table_id: &str, gateway_id: &str) -> (request: CloudRequest)
        ensures
            request@ == (CloudRequestView::CreateRoute {
                route_table_id: route_table_id@,
                destination: CIDR_GATEWAY@,
                gateway_id: gateway_id@,
            }),
    {
        CloudRequest::CreateRoute {
            route_table_id: route_table_id.to_owned(),
            destination: CIDR_GATEWAY.to_owned(),
            gateway_id: gateway_id.to_owned(),
        }
    }

    /// The request that detaches a gateway from a network.
    pub fn detach(gateway_id: &str, vpc_id: &str) -> (request: CloudRequest)
        ensures
            request@ == (CloudRequestView::DetachInternetGateway {
                gateway_id: gateway_id@,
                vpc_id: vpc_id@,
            }),
    {
        CloudRequest::DetachInternetGateway {
            gateway_id: gateway_id.to_owned(),
            vpc_id: vpc_id.to_owned(),
        }
    }
}

// Key Pairs

/// The key pair that the instances are launched with.
pub struct SSHKey {}

impl SSHKey {
    /// The request that imports the configured public key file under the
    /// swarm's tag as its name; none where no file is configured.
    pub open spec fn import_request(sc: SwarmConfigView) -> Option<CloudRequestView> {
        match sc.public_key_file {
            Some(file) => Some(
                CloudRequestView::ImportKeyPair {
                    key_name: sc.tag_name,
                    public_key_file: file,
                    tag: sc.tag_name,
                },
            ),
            None => None,
        }
    }

    /// The request that imports the configured public key file, if there is one.
    pub fn import(sc: &SwarmConfig) -> (request: Option<CloudRequest>)
        ensures
            request.deep_view() == Self::import_request(sc@),
    {
        match &sc.public_key_file {
            Some(file) => Some(
                CloudRequest::ImportKeyPair {
                    key_name: sc.tag_name.clone(),
                    public_key_file: file.clone(),
                    tag: sc.tag_name.clone(),
                },
            ),
            None => None,
        }
    }

    /// The request that lists the key pairs that match.
    pub fn describe(matcher: SSHKeyMatcher) -> (request: CloudRequest)
        ensures
            request@ == (CloudRequestView::DescribeKeyPairs { key: matcher@ }),
    {
        CloudRequest::DescribeKeyPairs { key: matcher }
    }

    /// The request that removes the key pair that matches.
    pub fn delete(matcher: SSHKeyMatcher) -> (request: CloudRequest)
        ensures
            request@ == (CloudRequestView::DeleteKeyPair { key: matcher@ }),
    {
        CloudRequest::DeleteKeyPair { key: matcher }
    }
}

// Instances

/// The instances described that are in `state`, as bees, in the order of the
/// provider's answer.
pub open spec fn beez_in_state(groups: Seq<Seq<InstanceView>>, state: InstanceState) -> Seq<
    BeeView,
> {
    groups.flatten().filter(|i: InstanceView| i.state == Some(state)).map_values(
        |i: InstanceView| i.bee(),
    )
}

/// The instances of a swarm.
pub struct Instances {}

impl Instances {
    /// How many instances a launch asks for: the given number, or the whole
    /// fleet where none is given.
    pub open spec fn launch_count(sc: SwarmConfigView, count_delta: Option<i32>) -> int {
        match count_delta {
            Some(count) => count as int,
            None => sc.num_beez,
        }
    }

    /// The request that launches instances of the swarm into its network.
    pub open spec fn launch(
        sc: SwarmConfigView,
        subnet_id: Seq<char>,
        security_group_id: Seq<char>,
        count: int,
    ) -> CloudRequestView {
        CloudRequestView::RunInstances {
            count,
            image_id: image(sc),
            key_name: sc.tag_name,
            subnet_id,
            security_group_id,
            tag: sc.tag_name,
        }
    }

    /// The request that launches `count_delta` instances, or as many as the
    /// configuration asks for where no number is given.
    pub fn create(sc: &SwarmConfig, network: &AWSNetwork, count_delta: Option<i32>) -> (request:
        CloudRequest)
        ensures
            request@ == Self::launch(
                sc@,
                network@.subnet_id,
                network@.security_group_id,
                Self::launch_count(sc@, count_delta),
            ),
    {
        let count = match count_delta {
            Some(count) => count,
            None => sc.num_beez,
        };
        let image_id = match &sc.ami {
            Some(ami) => ami.clone(),
            None => DEFAULT_AMI.to_owned(),
        };
        CloudRequest::RunInstances {
            count,
            image_id,
            key_name: sc.tag_name.clone(),
            subnet_id: network.subnet_id.clone(),
            security_group_id: network.security_group_id.clone(),
            tag: sc.tag_name.clone(),
        }
    }

    /// The request that describes the instances that match; none where the
    /// matcher is a list of no bees.
    pub open spec fn describe_request(matcher: BeeMatcherView) -> Option<CloudRequestView> {
        if matcher.as_resource_matcher().is_vacuous() {
            None
        } else {
            Some(CloudRequestView::DescribeInstances { matcher: matcher.as_resource_matcher() })
        }
    }

    /// The request that describes the instances that match, if one is needed.
    /// What comes back is read with `in_state`.
    pub fn describe(matcher: &BeeMatcher) -> (request: Option<CloudRequest>)
        ensures
            request.deep_view() == Self::describe_request(matcher@),
    {
        match matcher {
            BeeMatcher::Ids(beez) => {
                if beez.len() == 0 {
                    None
                } else {
                    Some(CloudRequest::DescribeInstances {
                        matcher: ResourceMatcher::Id(bee_ids(beez)),
                    })
                }
            },
            BeeMatcher::Tagged(tag) => Some(
                CloudRequest::DescribeInstances { matcher: ResourceMatcher::Tagged(tag.clone()) },
            ),
        }
    }

    /// Reads a description of instances: those in `state`, as bees, in the
    /// order of the provider's answer.
    pub fn in_state(groups: &Vec<Vec<Instance>>, state: InstanceState) -> (beez: Vec<Bee>)
        ensures
            beez.deep_view() == beez_in_state(groups.deep_view(), state),
    {
        let ghost wanted = |i: InstanceView| i.state == Some(state);
        let ghost as_bee = |i: InstanceView| i.bee();
        let ghost all = groups.deep_view();
        let mut beez: Vec<Bee> = Vec::new();
        let mut g: usize = 0;
        proof {
            assert(all.take(0).flatten() =~= Seq::<InstanceView>::empty());
            assert(beez.deep_view() =~= Seq::<InstanceView>::empty().filter(wanted).map_values(
                as_bee,
            ));
        }
        while g < groups.len()
            invariant
                g <= groups.len(),
                all == groups.deep_view(),
                wanted == (|i: InstanceView| i.state == Some(state)),
                as_bee == (|i: InstanceView| i.bee()),
                beez.deep_view() == all.take(g as int).flatten().filter(wanted).map_values(as_bee),
            decreases groups.len() - g,
        {
            let group = &groups[g];
            let ghost done = all.take(g as int).flatten();
            let ghost this = group.deep_view();
            let mut k: usize = 0;
            proof {
                assert(this.take(0) =~= Seq::<InstanceView>::empty());
                assert(done + this.take(0) =~= done);
            }
            while k < group.len()
                invariant
                    k <= group.len(),
                    this == group.deep_view(),
                    wanted == (|i: InstanceView| i.state == Some(state)),
                    as_bee == (|i: InstanceView| i.bee()),
                    beez.deep_view() == (done + this.take(k as int)).filter(wanted).map_values(
                        as_bee,
                    ),
                decreases group.len() - k,
            {
                let instance = &group[k];
                let ghost before = beez.deep_view();
                let ghost seen = done + this.take(k as int);
                proof {
                    assert(this.take(k + 1) =~= this.take(k as int).push(this[k as int]));
                    assert(done + this.take(k + 1) =~= seen.push(this[k as int]));
                    Seq::lemma_filter_push(seen, this[k as int], wanted);
                    assert(this[k as int] == instance@);
                }
                let keep = match instance.state {
                    Some(s) => s == state,
                    None => false,
                };
                if keep {
                    beez.push(Bee { id: instance.id.clone(), ip: copy_opt(&instance.ip) });
                    proof {
                        assert(beez.deep_view() =~= before.push(instance@.bee()));
                        assert(seen.filter(wanted).push(instance@).map_values(as_bee)
                            =~= seen.filter(wanted).map_values(as_bee).push(instance@.bee()));
                    }
                } else {
                    proof {
                        assert(beez.deep_view() =~= before);
                    }
                }
                k += 1;
            }
            proof {
                assert(this.take(group.len() as int) =~= this);
                assert(all.take(g + 1) =~= all.take(g as int).push(this));
                Seq::lemma_flatten_push(all.take(g as int), this);
            }
            g += 1;
        }
        proof {
            assert(all.take(groups.len() as int) =~= all);
        }
        beez
    }

    /// The request that terminates the given bees; none where there are none.
    pub open spec fn terminate_request(beez: Seq<BeeView>) -> Option<CloudRequestView> {
        if beez.len() == 0 {
            None
        } else {
            Some(CloudRequestView::TerminateInstances { instance_ids: ids_of(beez) })
        }
    }

    /// The request that terminates the given bees, if there are any.
    pub fn delete(beez: &Vec<Bee>) -> (request: Option<CloudRequest>)
        ensures
            request.deep_view() == Self::terminate_request(beez.deep_view()),
    {
        if beez.len() == 0 {
            None
        } else {
            Some(CloudRequest::TerminateInstances { instance_ids: bee_ids(beez) })
        }
    }

    /// Whether a wait is over: as many instances are in the awaited state as
    /// are waited for.
    pub open spec fn arrived(awaited: Seq<BeeView>, groups: Seq<Seq<InstanceView>>, state:
        InstanceState) -> bool {
        beez_in_state(groups, state).len() == awaited.len()
    }

    /// Reads one look at the instances that are waited for. Where as many of
    /// them are in `state` as are waited for, the wait is over and those are
    /// returned, as described now. Else there is nothing yet, and the next
    /// look follows after `POLL_SECONDS`.
    pub fn wait(awaited: &Vec<Bee>, groups: &Vec<Vec<Instance>>, state: InstanceState) -> (ready:
        Option<Vec<Bee>>)
        ensures
            ready is Some == Self::arrived(awaited.deep_view(), groups.deep_view(), state),
            ready is Some ==> ready->0.deep_view() == beez_in_state(groups.deep_view(), state),
    {
        let seen = Self::in_state(groups, state);
        if seen.len() == awaited.len() {
            Some(seen)
        } else {
            None
        }
    }
}

} // verus!
