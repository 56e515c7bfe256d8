use killabeez::actions::commands::{cmd_init, cmd_terminate, FleetRun};
use killabeez::aws::ec2::{
    Bee, BeeMatcher, CloudRequest, CloudResponse, Instance, InstanceState, Instances,
    InternetGateway, IpRule, ResourceKind, ResourceMatcher, SSHKey, SSHKeyMatcher, SecurityGroup,
    Subnet, CIDR_GATEWAY, CIDR_SUBNET, CIDR_VPC, POLL_SECONDS, SETTLE_SECONDS, TAG_KEY, VPC,
};
use killabeez::aws::errors::{Ec2Error, Operation};
use killabeez::aws::network::{Goal, NetworkPhase, NetworkRun, Turn};
use killabeez::aws::scenarios::{AWSNetwork, Swarm};
use killabeez::aws::swarm::{SwarmPhase, SwarmRun};
use killabeez::config::SwarmConfig;

fn config(tag: &str, count: i32) -> SwarmConfig {
    SwarmConfig::read(SwarmConfig {
        tag_name: tag.to_string(),
        num_beez: count,
        ssh_cidr_block: None,
        username: None,
        ami: None,
        public_key_file: Some("keys/beez.pub".to_string()),
        key_id: None,
        vpc_id: None,
        subnet_id: None,
        security_group_id: None,
    })
    .unwrap()
}

fn s(text: &str) -> String {
    text.to_string()
}

/// A cloud that keeps what it is asked to create, under ids of its own.
#[derive(Debug, Clone, PartialEq, Eq, Default)]
struct Cloud {
    made: u32,
    /// (id, tag)
    vpcs: Vec<(String, String)>,
    /// (id, tag, vpc, public addresses at launch)
    subnets: Vec<(String, String, String, bool)>,
    /// (id, tag, vpc, rules in, rules out)
    groups: Vec<(String, String, String, Vec<IpRule>, Vec<IpRule>)>,
    /// (id, tag, the vpc that it is attached to)
    gateways: Vec<(String, String, Option<String>)>,
    /// (id, vpc, routes as (destination, gateway))
    route_tables: Vec<(String, String, Vec<(String, String)>)>,
    /// (id, name)
    keys: Vec<(String, String)>,
    /// (id, tag, state, pauses until it gets to the state it heads for)
    instances: Vec<(String, String, InstanceState, u32)>,
    /// How many pauses a launched instance needs to be running.
    boot_pauses: u32,
    seconds_paused: u64,
}

impl Cloud {
    fn fresh_id(&mut self, kind: &str) -> String {
        self.made += 1;
        format!("{}-{}", kind, self.made)
    }

    fn matching(ids: Vec<(String, String)>, matcher: &ResourceMatcher) -> Vec<String> {
        ids.into_iter()
            .filter(|(id, tag)| match matcher {
                ResourceMatcher::Id(wanted) => wanted.contains(id),
                ResourceMatcher::Tagged(wanted) => tag == wanted,
            })
            .map(|(id, _)| id)
            .collect()
    }

    fn of_kind(&self, kind: ResourceKind) -> Vec<(String, String)> {
        match kind {
            ResourceKind::Vpc => self.vpcs.clone(),
            ResourceKind::Subnet => self
                .subnets
                .iter()
                .map(|x| (x.0.clone(), x.1.clone()))
                .collect(),
            ResourceKind::SecurityGroup => self
                .groups
                .iter()
                .map(|x| (x.0.clone(), x.1.clone()))
                .collect(),
            ResourceKind::InternetGateway => self
                .gateways
                .iter()
                .map(|x| (x.0.clone(), x.1.clone()))
                .collect(),
        }
    }

    fn managed(&self, tag: &str) -> usize {
        self.vpcs.iter().filter(|x| x.1 == tag).count()
            + self.subnets.iter().filter(|x| x.1 == tag).count()
            + self.groups.iter().filter(|x| x.1 == tag).count()
            + self.gateways.iter().filter(|x| x.1 == tag).count()
            + self.keys.iter().filter(|x| x.1 == tag).count()
            + self
                .instances
                .iter()
                .filter(|x| x.1 == tag && x.2 != InstanceState::Terminated)
                .count()
    }

    fn answer(&mut self, request: &CloudRequest) -> CloudResponse {
        match request {
            CloudRequest::Describe { kind, matcher } => {
                CloudResponse::Found(Cloud::matching(self.of_kind(*kind), matcher))
            }
            CloudRequest::Delete { kind, id } => {
                match kind {
                    ResourceKind::Vpc => {
                        if self.subnets.iter().any(|x| &x.2 == id)
                            || self.gateways.iter().any(|x| x.2.as_ref() == Some(id))
                        {
                            return CloudResponse::Failed(s("DependencyViolation"));
                        }
                        self.vpcs.retain(|x| &x.0 != id);
                        self.route_tables.retain(|x| &x.1 != id);
                    }
                    ResourceKind::Subnet => self.subnets.retain(|x| &x.0 != id),
                    ResourceKind::SecurityGroup => self.groups.retain(|x| &x.0 != id),
                    ResourceKind::InternetGateway => {
                        if self.gateways.iter().any(|x| &x.0 == id && x.2.is_some()) {
                            return CloudResponse::Failed(s("DependencyViolation"));
                        }
                        self.gateways.retain(|x| &x.0 != id)
                    }
                }
                CloudResponse::Done
            }
            CloudRequest::CreateVpc { cidr_block, tag } => {
                assert_eq!(cidr_block, "10.0.0.0/16");
                let id = self.fresh_id("vpc");
                let table = self.fresh_id("rtb");
                self.vpcs.push((id.clone(), tag.clone()));
                self.route_tables.push((table, id.clone(), Vec::new()));
                CloudResponse::Created(id)
            }
            CloudRequest::CreateSubnet {
                vpc_id,
                cidr_block,
                tag,
            } => {
                assert_eq!(cidr_block, "10.0.1.0/24");
                let id = self.fresh_id("subnet");
                self.subnets
                    .push((id.clone(), tag.clone(), vpc_id.clone(), false));
                CloudResponse::Created(id)
            }
            CloudRequest::MapPublicIpOnLaunch { subnet_id } => {
                for subnet in self.subnets.iter_mut() {
                    if &subnet.0 == subnet_id {
                        subnet.3 = true;
                    }
                }
                CloudResponse::Done
            }
            CloudRequest::CreateSecurityGroup {
                vpc_id,
                group_name,
                description,
                tag,
            } => {
                assert_eq!(group_name, "allow-ssh");
                assert_eq!(description, "Allow SSH inbound traffic");
                let id = self.fresh_id("sg");
                self.groups.push((
                    id.clone(),
                    tag.clone(),
                    vpc_id.clone(),
                    Vec::new(),
                    Vec::new(),
                ));
                CloudResponse::Created(id)
            }
            CloudRequest::AuthorizeIngress { group_id, rule } => {
                for group in self.groups.iter_mut() {
                    if &group.0 == group_id {
                        group.3.push(rule.clone());
                    }
                }
                CloudResponse::Done
            }
            CloudRequest::AuthorizeEgress { group_id, rule } => {
                for group in self.groups.iter_mut() {
                    if &group.0 == group_id {
                        group.4.push(rule.clone());
                    }
                }
                CloudResponse::Done
            }
            CloudRequest::CreateInternetGateway { tag } => {
                let id = self.fresh_id("igw");
                self.gateways.push((id.clone(), tag.clone(), None));
                CloudResponse::Created(id)
            }
            CloudRequest::AttachInternetGateway { gateway_id, vpc_id } => {
                for gateway in self.gateways.iter_mut() {
                    if &gateway.0 == gateway_id {
                        gateway.2 = Some(vpc_id.clone());
                    }
                }
                CloudResponse::Done
            }
            CloudRequest::DetachInternetGateway { gateway_id, vpc_id } => {
                for gateway in self.gateways.iter_mut() {
                    if &gateway.0 == gateway_id && gateway.2.as_ref() == Some(vpc_id) {
                        gateway.2 = None;
                    }
                }
                CloudResponse::Done
            }
            CloudRequest::DescribeAttachments { gateway_id } => CloudResponse::Found(
                self.gateways
                    .iter()
                    .filter(|x| &x.0 == gateway_id)
                    .filter_map(|x| x.2.clone())
                    .collect(),
            ),
            CloudRequest::DescribeRouteTables { vpc_id } => CloudResponse::Found(
                self.route_tables
                    .iter()
                    .filter(|x| &x.1 == vpc_id)
                    .map(|x| x.0.clone())
                    .collect(),
            ),
            CloudRequest::CreateRoute {
                route_table_id,
                destination,
                gateway_id,
            } => {
                for table in self.route_tables.iter_mut() {
                    if &table.0 == route_table_id {
                        table.2.push((destination.clone(), gateway_id.clone()));
                    }
                }
                CloudResponse::Done
            }
            CloudRequest::DescribeKeyPairs { key: matcher } => CloudResponse::Found(
                self.keys
                    .iter()
                    .filter(|(id, name)| match matcher {
                        SSHKeyMatcher::Id(wanted) => id == wanted,
                        SSHKeyMatcher::Name(wanted) => name == wanted,
                    })
                    .map(|(id, _)| id.clone())
                    .collect(),
            ),
            CloudRequest::ImportKeyPair {
                key_name,
                public_key_file,
                tag,
            } => {
                assert_eq!(key_name, tag);
                assert_eq!(public_key_file, "keys/beez.pub");
                let id = self.fresh_id("key");
                self.keys.push((id.clone(), key_name.clone()));
                CloudResponse::Created(id)
            }
            CloudRequest::DeleteKeyPair { key: matcher } => {
                self.keys.retain(|(id, name)| match matcher {
                    SSHKeyMatcher::Id(wanted) => id != wanted,
                    SSHKeyMatcher::Name(wanted) => name != wanted,
                });
                CloudResponse::Done
            }
            CloudRequest::DescribeInstances { matcher } => {
                let found: Vec<Instance> = self
                    .instances
                    .iter()
                    .filter(|x| match matcher {
                        ResourceMatcher::Id(wanted) => wanted.contains(&x.0),
                        ResourceMatcher::Tagged(wanted) => &x.1 == wanted,
                    })
                    .map(|x| Instance {
                        id: x.0.clone(),
                        ip: if x.2 == InstanceState::Running {
                            Some(format!("10.0.1.{}", &x.0[2..]))
                        } else {
                            None
                        },
                        state: Some(x.2),
                    })
                    .collect();
                // The provider groups instances as it likes: here in twos.
                CloudResponse::Reservations(found.chunks(2).map(|c| c.to_vec()).collect())
            }
            CloudRequest::RunInstances {
                count,
                image_id,
                key_name,
                subnet_id,
                security_group_id,
                tag,
            } => {
                assert_eq!(image_id, "ami-04b4f1a9cf54c11d0");
                assert_eq!(key_name, tag);
                assert!(self.subnets.iter().any(|x| &x.0 == subnet_id));
                assert!(self.groups.iter().any(|x| &x.0 == security_group_id));
                let mut launched = Vec::new();
                for _ in 0..*count {
                    let id = self.fresh_id("i");
                    let state = if self.boot_pauses == 0 {
                        InstanceState::Running
                    } else {
                        InstanceState::Pending
                    };
                    self.instances
                        .push((id.clone(), tag.clone(), state, self.boot_pauses));
                    launched.push(Bee { id, ip: None });
                }
                CloudResponse::Launched(launched)
            }
            CloudRequest::TerminateInstances { instance_ids } => {
                for instance in self.instances.iter_mut() {
                    if instance_ids.contains(&instance.0) {
                        instance.2 = InstanceState::ShuttingDown;
                        instance.3 = 1;
                    }
                }
                CloudResponse::Done
            }
            CloudRequest::Pause { seconds } => {
                self.seconds_paused += seconds;
                for instance in self.instances.iter_mut() {
                    if instance.3 > 0 {
                        instance.3 -= 1;
                        if instance.3 == 0 {
                            instance.2 = match instance.2 {
                                InstanceState::Pending => InstanceState::Running,
                                InstanceState::ShuttingDown => InstanceState::Terminated,
                                other => other,
                            };
                        }
                    }
                }
                CloudResponse::Done
            }
        }
    }
}

/// Carries a run on the fleet out on a cloud, and keeps the requests.
fn drive(
    cloud: &mut Cloud,
    sc: &SwarmConfig,
    start: (FleetRun, Turn),
) -> (Result<FleetRun, Ec2Error>, Vec<CloudRequest>) {
    let (mut run, mut turn) = start;
    let mut asked = Vec::new();
    for _ in 0..1000 {
        match turn {
            Turn::Call(request) => {
                let response = cloud.answer(&request);
                asked.push(request);
                let (next, then) = run.step(sc, &response);
                run = next;
                turn = then;
            }
            Turn::Finished => return (Ok(run), asked),
            Turn::Failed(error) => return (Err(error), asked),
        }
    }
    panic!("the run does not end");
}

fn tagged(kind: ResourceKind, tag: &str) -> CloudRequest {
    CloudRequest::Describe {
        kind,
        matcher: ResourceMatcher::Tagged(s(tag)),
    }
}

fn by_id(kind: ResourceKind, id: &str) -> CloudRequest {
    CloudRequest::Describe {
        kind,
        matcher: ResourceMatcher::Id(vec![s(id)]),
    }
}

#[test]
fn init_creates_everything_in_order_in_an_empty_cloud() {
    let sc = config("beez", 2);
    let mut cloud = Cloud::default();
    let (run, asked) = drive(&mut cloud, &sc, cmd_init(&sc));
    let swarm = run.unwrap().swarm(&sc).unwrap();

    let ssh_in = IpRule {
        protocol: s("tcp"),
        from_port: 22,
        to_port: 22,
        cidr: s("0.0.0.0/0"),
    };
    let all_out = IpRule {
        protocol: s("-1"),
        from_port: 0,
        to_port: 0,
        cidr: s("0.0.0.0/0"),
    };
    assert_eq!(
        asked,
        vec![
            tagged(ResourceKind::Vpc, "beez"),
            CloudRequest::CreateVpc {
                cidr_block: s("10.0.0.0/16"),
                tag: s("beez")
            },
            tagged(ResourceKind::Subnet, "beez"),
            CloudRequest::CreateSubnet {
                vpc_id: s("vpc-1"),
                cidr_block: s("10.0.1.0/24"),
                tag: s("beez")
            },
            CloudRequest::MapPublicIpOnLaunch {
                subnet_id: s("subnet-3")
            },
            tagged(ResourceKind::SecurityGroup, "beez"),
            CloudRequest::CreateSecurityGroup {
                vpc_id: s("vpc-1"),
                group_name: s("allow-ssh"),
                description: s("Allow SSH inbound traffic"),
                tag: s("beez")
            },
            CloudRequest::AuthorizeIngress {
                group_id: s("sg-4"),
                rule: ssh_in.clone()
            },
            CloudRequest::AuthorizeEgress {
                group_id: s("sg-4"),
                rule: all_out.clone()
            },
            tagged(ResourceKind::InternetGateway, "beez"),
            CloudRequest::CreateInternetGateway { tag: s("beez") },
            CloudRequest::AttachInternetGateway {
                gateway_id: s("igw-5"),
                vpc_id: s("vpc-1")
            },
            CloudRequest::Pause { seconds: 5 },
            CloudRequest::DescribeRouteTables { vpc_id: s("vpc-1") },
            CloudRequest::CreateRoute {
                route_table_id: s("rtb-2"),
                destination: s("0.0.0.0/0"),
                gateway_id: s("igw-5")
            },
            CloudRequest::DescribeKeyPairs {
                key: SSHKeyMatcher::Name(s("beez"))
            },
            CloudRequest::ImportKeyPair {
                key_name: s("beez"),
                public_key_file: s("keys/beez.pub"),
                tag: s("beez")
            },
            CloudRequest::DescribeInstances {
                matcher: ResourceMatcher::Tagged(s("beez"))
            },
            CloudRequest::RunInstances {
                count: 2,
                image_id: s("ami-04b4f1a9cf54c11d0"),
                key_name: s("beez"),
                subnet_id: s("subnet-3"),
                security_group_id: s("sg-4"),
                tag: s("beez")
            },
            CloudRequest::Pause { seconds: 15 },
            CloudRequest::DescribeInstances {
                matcher: ResourceMatcher::Id(vec![s("i-7"), s("i-8")])
            },
        ]
    );
    assert_eq!(
        swarm.network,
        AWSNetwork {
            vpc_id: s("vpc-1"),
            subnet_id: s("subnet-3"),
            security_group_id: s("sg-4")
        }
    );
    assert_eq!(swarm.key_pair, "key-6");
    assert_eq!(
        swarm.instances,
        vec![
            Bee {
                id: s("i-7"),
                ip: Some(s("10.0.1.7"))
            },
            Bee {
                id: s("i-8"),
                ip: Some(s("10.0.1.8"))
            },
        ]
    );
    assert_eq!(swarm.config, sc);
    assert!(cloud.subnets[0].3);
    assert_eq!(cloud.groups[0].3, vec![ssh_in]);
    assert_eq!(cloud.groups[0].4, vec![all_out]);
    assert_eq!(cloud.gateways[0].2, Some(s("vpc-1")));
    assert_eq!(cloud.route_tables[0].2, vec![(s("0.0.0.0/0"), s("igw-5"))]);
    assert_eq!(cloud.managed("beez"), 7);
}

#[test]
fn init_twice_changes_nothing_and_drop_leaves_nothing() {
    let sc = config("beez", 3);
    let mut cloud = Cloud::default();
    cloud.boot_pauses = 2;
    let (first, _) = drive(&mut cloud, &sc, cmd_init(&sc));
    let first = first.unwrap().swarm(&sc).unwrap();
    let after_first = cloud.clone();
    assert_eq!(cloud.managed("beez"), 8);

    let (second, asked) = drive(&mut cloud, &sc, cmd_init(&sc));
    let second = second.unwrap().swarm(&sc).unwrap();
    assert_eq!(second, first);
    assert_eq!(
        asked,
        vec![
            tagged(ResourceKind::Vpc, "beez"),
            tagged(ResourceKind::Subnet, "beez"),
            tagged(ResourceKind::SecurityGroup, "beez"),
            tagged(ResourceKind::InternetGateway, "beez"),
            CloudRequest::DescribeKeyPairs {
                key: SSHKeyMatcher::Name(s("beez"))
            },
            CloudRequest::DescribeInstances {
                matcher: ResourceMatcher::Tagged(s("beez"))
            },
            CloudRequest::Pause { seconds: 15 },
            CloudRequest::DescribeInstances {
                matcher: ResourceMatcher::Id(vec![s("i-7"), s("i-8"), s("i-9")])
            },
        ]
    );
    let mut expected = after_first.clone();
    expected.seconds_paused += 15;
    assert_eq!(cloud, expected);

    let (down, asked) = drive(&mut cloud, &sc, cmd_terminate(&sc));
    assert!(down.is_ok());
    assert_eq!(cloud.managed("beez"), 0);
    assert_eq!(
        asked,
        vec![
            CloudRequest::DescribeInstances {
                matcher: ResourceMatcher::Tagged(s("beez"))
            },
            CloudRequest::TerminateInstances {
                instance_ids: vec![s("i-7"), s("i-8"), s("i-9")]
            },
            CloudRequest::Pause { seconds: 15 },
            CloudRequest::DescribeInstances {
                matcher: ResourceMatcher::Id(vec![s("i-7"), s("i-8"), s("i-9")])
            },
            CloudRequest::DeleteKeyPair {
                key: SSHKeyMatcher::Name(s("beez"))
            },
            tagged(ResourceKind::InternetGateway, "beez"),
            CloudRequest::DescribeAttachments {
                gateway_id: s("igw-5")
            },
            CloudRequest::DetachInternetGateway {
                gateway_id: s("igw-5"),
                vpc_id: s("vpc-1")
            },
            CloudRequest::Delete {
                kind: ResourceKind::InternetGateway,
                id: s("igw-5")
            },
            tagged(ResourceKind::SecurityGroup, "beez"),
            CloudRequest::Delete {
                kind: ResourceKind::SecurityGroup,
                id: s("sg-4")
            },
            tagged(ResourceKind::Subnet, "beez"),
            CloudRequest::Delete {
                kind: ResourceKind::Subnet,
                id: s("subnet-3")
            },
            tagged(ResourceKind::Vpc, "beez"),
            CloudRequest::Delete {
                kind: ResourceKind::Vpc,
                id: s("vpc-1")
            },
        ]
    );
}

#[test]
fn drop_in_an_empty_cloud_removes_nothing() {
    let sc = config("beez", 3);
    let mut cloud = Cloud::default();
    let (down, asked) = drive(&mut cloud, &sc, cmd_terminate(&sc));
    assert!(down.is_ok());
    assert!(asked.iter().all(|r| matches!(
        r,
        CloudRequest::Describe { .. }
            | CloudRequest::DescribeInstances { .. }
            | CloudRequest::Pause { .. }
            | CloudRequest::DeleteKeyPair { .. }
    )));
    assert_eq!(cloud.seconds_paused, 15);
}

#[test]
fn three_running_and_five_wanted_launches_two() {
    let sc = config("beez", 3);
    let mut cloud = Cloud::default();
    let (first, _) = drive(&mut cloud, &sc, cmd_init(&sc));
    let network = first.unwrap().swarm(&sc).unwrap().network;

    let sc = config("beez", 5);
    cloud.boot_pauses = 3;
    let (mut run, mut turn) = Swarm::init(&sc, &network);
    let mut asked = Vec::new();
    let mut looks = Vec::new();
    while let Turn::Call(request) = turn {
        let response = cloud.answer(&request);
        if run.phase == SwarmPhase::Look {
            looks.push(Instances::in_state(
                match &response {
                    CloudResponse::Reservations(groups) => groups,
                    _ => panic!("a look describes instances"),
                },
                InstanceState::Running,
            ));
        }
        asked.push(request);
        let (next, then) = run.step(&sc, &response);
        run = next;
        turn = then;
    }
    assert_eq!(turn, Turn::Finished);

    let launches: Vec<&CloudRequest> = asked
        .iter()
        .filter(|r| matches!(r, CloudRequest::RunInstances { .. }))
        .collect();
    assert_eq!(launches.len(), 1);
    assert!(matches!(
        launches[0],
        CloudRequest::RunInstances { count: 2, .. }
    ));
    assert!(!asked
        .iter()
        .any(|r| matches!(r, CloudRequest::TerminateInstances { .. })));
    // The wait goes on until five are running, and no longer.
    assert_eq!(
        looks.iter().map(|l| l.len()).collect::<Vec<usize>>(),
        vec![3, 3, 5]
    );
    assert_eq!(run.beez.len(), 5);
    assert!(run.beez.iter().all(|b| b.ip.is_some()));
    let all = Vec::from([s("i-7"), s("i-8"), s("i-9"), s("i-10"), s("i-11")]);
    assert_eq!(
        run.beez.iter().map(|b| b.id.clone()).collect::<Vec<String>>(),
        all
    );
    assert_eq!(
        asked.last(),
        Some(&CloudRequest::DescribeInstances {
            matcher: ResourceMatcher::Id(all)
        })
    );
}

#[test]
fn five_running_and_two_wanted_terminates_the_first_three() {
    let sc = config("beez", 5);
    let mut cloud = Cloud::default();
    let (first, _) = drive(&mut cloud, &sc, cmd_init(&sc));
    let network = first.unwrap().swarm(&sc).unwrap().network;

    let sc = config("beez", 2);
    let (mut run, mut turn) = Swarm::init(&sc, &network);
    let mut asked = Vec::new();
    while let Turn::Call(request) = turn {
        let response = cloud.answer(&request);
        asked.push(request);
        let (next, then) = run.step(&sc, &response);
        run = next;
        turn = then;
    }
    assert_eq!(turn, Turn::Finished);
    assert_eq!(
        asked,
        vec![
            CloudRequest::DescribeKeyPairs {
                key: SSHKeyMatcher::Name(s("beez"))
            },
            CloudRequest::DescribeInstances {
                matcher: ResourceMatcher::Tagged(s("beez"))
            },
            CloudRequest::TerminateInstances {
                instance_ids: vec![s("i-7"), s("i-8"), s("i-9")]
            },
            CloudRequest::Pause { seconds: 15 },
            CloudRequest::DescribeInstances {
                matcher: ResourceMatcher::Id(vec![s("i-10"), s("i-11")])
            },
        ]
    );
    assert_eq!(
        Swarm::of(run, &sc).unwrap().instances,
        vec![
            Bee {
                id: s("i-10"),
                ip: Some(s("10.0.1.10"))
            },
            Bee {
                id: s("i-11"),
                ip: Some(s("10.0.1.11"))
            },
        ]
    );
}

#[test]
fn a_supplied_vpc_is_neither_created_nor_deleted() {
    let mut sc = config("beez", 1);
    sc.vpc_id = Some(s("V1"));
    let mut cloud = Cloud::default();
    cloud.vpcs.push((s("V1"), s("someone else")));
    cloud.route_tables.push((s("rtb-main"), s("V1"), Vec::new()));

    let (run, asked) = drive(&mut cloud, &sc, cmd_init(&sc));
    let swarm = run.unwrap().swarm(&sc).unwrap();
    assert_eq!(swarm.network.vpc_id, "V1");
    assert_eq!(asked[0], by_id(ResourceKind::Vpc, "V1"));
    assert!(!asked
        .iter()
        .any(|r| matches!(r, CloudRequest::CreateVpc { .. })));
    assert_eq!(cloud.vpcs, vec![(s("V1"), s("someone else"))]);
    assert_eq!(cloud.subnets[0].2, "V1");

    let (down, asked) = drive(&mut cloud, &sc, cmd_terminate(&sc));
    assert!(down.is_ok());
    assert!(!asked.iter().any(|r| matches!(
        r,
        CloudRequest::Delete {
            kind: ResourceKind::Vpc,
            ..
        }
    )));
    assert!(!asked.contains(&tagged(ResourceKind::Vpc, "beez")));
    assert_eq!(cloud.vpcs, vec![(s("V1"), s("someone else"))]);
    assert_eq!(cloud.managed("beez"), 0);
}

#[test]
fn supplied_resources_are_left_alone_by_drop() {
    let mut sc = config("beez", 0);
    sc.public_key_file = None;
    sc.key_id = Some(s("key-mine"));
    sc.vpc_id = Some(s("V1"));
    sc.subnet_id = Some(s("S1"));
    sc.security_group_id = Some(s("G1"));
    let (run, turn) = AWSNetwork::drop(&sc);
    assert_eq!(turn, Turn::Call(tagged(ResourceKind::InternetGateway, "beez")));
    let (run, turn) = run.step(&sc, &CloudResponse::Found(vec![]));
    assert_eq!(turn, Turn::Finished);
    assert!(run.is_finished());
    assert_eq!(run.network(), None);

    let (run, turn) = Swarm::drop(&sc);
    assert_eq!(
        turn,
        Turn::Call(CloudRequest::DescribeInstances {
            matcher: ResourceMatcher::Tagged(s("beez"))
        })
    );
    let (run, turn) = run.step(&sc, &CloudResponse::Reservations(vec![]));
    assert_eq!(turn, Turn::Call(CloudRequest::Pause { seconds: 15 }));
    let (run, turn) = run.step(&sc, &CloudResponse::Done);
    assert_eq!(turn, Turn::Finished);
    assert!(run.is_finished());
}

#[test]
fn load_finds_and_never_creates() {
    let two = config("beez", 2);
    let mut cloud = Cloud::default();
    let (up, _) = drive(&mut cloud, &two, cmd_init(&two));
    let up = up.unwrap().swarm(&two).unwrap();
    let before = cloud.clone();

    // Four are wanted and two are running: a load takes the two.
    let sc = config("beez", 4);
    let (run, asked) = drive(&mut cloud, &sc, FleetRun::start(Goal::Load, &sc));
    let swarm = run.unwrap().swarm(&sc).unwrap();
    assert_eq!(swarm.network, up.network);
    assert_eq!(swarm.key_pair, up.key_pair);
    assert_eq!(swarm.instances, up.instances);
    assert_eq!(swarm.instances.len(), 2);
    assert_eq!(swarm.config, sc);
    assert_eq!(cloud, before);
    assert_eq!(
        asked,
        vec![
            tagged(ResourceKind::Vpc, "beez"),
            tagged(ResourceKind::Subnet, "beez"),
            tagged(ResourceKind::SecurityGroup, "beez"),
            tagged(ResourceKind::InternetGateway, "beez"),
            CloudRequest::DescribeKeyPairs {
                key: SSHKeyMatcher::Name(s("beez"))
            },
            CloudRequest::DescribeInstances {
                matcher: ResourceMatcher::Tagged(s("beez"))
            },
        ]
    );
}

#[test]
fn load_fails_where_something_is_missing() {
    let sc = config("beez", 1);
    let mut cloud = Cloud::default();
    let (run, asked) = drive(&mut cloud, &sc, FleetRun::start(Goal::Load, &sc));
    assert_eq!(run, Err(Ec2Error::Unexpected(s("no vpc found"))));
    assert_eq!(asked, vec![tagged(ResourceKind::Vpc, "beez")]);
    assert_eq!(cloud, Cloud::default());

    let (run, _) = AWSNetwork::load(&sc);
    let (run, _) = run.step(&sc, &CloudResponse::Found(vec![s("vpc-1")]));
    let (run, turn) = run.step(&sc, &CloudResponse::Found(vec![]));
    assert_eq!(turn, Turn::Failed(Ec2Error::Unexpected(s("no subnet found"))));
    assert_eq!(run.phase, NetworkPhase::Failed);

    let (run, _) = AWSNetwork::load(&sc);
    let (run, _) = run.step(&sc, &CloudResponse::Found(vec![s("vpc-1")]));
    let (run, _) = run.step(&sc, &CloudResponse::Found(vec![s("subnet-1")]));
    let (run, turn) = run.step(&sc, &CloudResponse::Found(vec![]));
    assert_eq!(
        turn,
        Turn::Failed(Ec2Error::Unexpected(s("no security group found")))
    );
    let (_, again) = run.step(&sc, &CloudResponse::Done);
    assert_eq!(
        again,
        Turn::Failed(Ec2Error::Unexpected(s("the run has failed")))
    );

    let network = AWSNetwork {
        vpc_id: s("vpc-1"),
        subnet_id: s("subnet-1"),
        security_group_id: s("sg-1"),
    };
    let (run, _) = Swarm::load(&sc, &network);
    let (_, turn) = run.step(&sc, &CloudResponse::Found(vec![]));
    assert_eq!(turn, Turn::Failed(Ec2Error::Unexpected(s("no key pair found"))));
}

#[test]
fn a_failed_request_is_charged_to_its_operation() {
    let sc = config("beez", 1);
    let failed = CloudResponse::Failed(s("boom"));

    let (run, _) = AWSNetwork::init(&sc);
    let (_, turn) = run.step(&sc, &failed);
    assert_eq!(turn, Turn::Failed(Ec2Error::DescribeVpcs(s("boom"))));

    let (run, _) = AWSNetwork::init(&sc);
    let (run, _) = run.step(&sc, &CloudResponse::Found(vec![]));
    let (_, turn) = run.step(&sc, &failed);
    assert_eq!(turn, Turn::Failed(Ec2Error::CreateVpc(s("boom"))));

    let (run, _) = AWSNetwork::init(&sc);
    let (run, _) = run.step(&sc, &CloudResponse::Found(vec![s("vpc-1")]));
    let (run, _) = run.step(&sc, &CloudResponse::Found(vec![]));
    assert_eq!(run.phase, NetworkPhase::CreateSubnet);
    let (run, _) = run.step(&sc, &CloudResponse::Created(s("subnet-1")));
    let (_, turn) = run.step(&sc, &failed);
    assert_eq!(turn, Turn::Failed(Ec2Error::ModifySubnetAttribute(s("boom"))));

    let (run, _) = AWSNetwork::drop(&sc);
    let (run, _) = run.step(&sc, &CloudResponse::Found(vec![s("igw-1")]));
    let (run, _) = run.step(&sc, &CloudResponse::Found(vec![s("vpc-1")]));
    let (_, turn) = run.step(&sc, &failed);
    assert_eq!(turn, Turn::Failed(Ec2Error::DeleteInternetGateway(s("boom"))));

    let (run, _) = Swarm::drop(&sc);
    let (_, turn) = run.step(&sc, &failed);
    assert_eq!(turn, Turn::Failed(Ec2Error::DescribeInstances(s("boom"))));
}

#[test]
fn an_answer_that_does_not_fit_ends_the_run() {
    let sc = config("beez", 1);
    let (run, _) = AWSNetwork::init(&sc);
    let (run, turn) = run.step(&sc, &CloudResponse::Done);
    assert_eq!(
        turn,
        Turn::Failed(Ec2Error::Unexpected(s("the answer does not fit the request")))
    );
    assert_eq!(run.phase, NetworkPhase::Failed);

    let (run, _) = AWSNetwork::init(&sc);
    let (_, turn) = run.step(&sc, &CloudResponse::Launched(vec![]));
    assert_eq!(
        turn,
        Turn::Failed(Ec2Error::Unexpected(s("the answer does not fit the request")))
    );
}

#[test]
fn a_network_without_a_route_table_cannot_get_its_gateway() {
    let sc = config("beez", 1);
    let (run, _) = AWSNetwork::init(&sc);
    let (run, _) = run.step(&sc, &CloudResponse::Found(vec![s("vpc-1")]));
    let (run, _) = run.step(&sc, &CloudResponse::Found(vec![s("subnet-1")]));
    let (run, _) = run.step(&sc, &CloudResponse::Found(vec![s("sg-1")]));
    let (run, turn) = run.step(&sc, &CloudResponse::Found(vec![]));
    assert_eq!(
        turn,
        Turn::Call(CloudRequest::CreateInternetGateway { tag: s("beez") })
    );
    let (run, _) = run.step(&sc, &CloudResponse::Created(s("igw-1")));
    let (run, turn) = run.step(&sc, &CloudResponse::Done);
    assert_eq!(turn, Turn::Call(CloudRequest::Pause { seconds: 5 }));
    let (run, _) = run.step(&sc, &CloudResponse::Done);
    let (_, turn) = run.step(&sc, &CloudResponse::Found(vec![]));
    assert_eq!(
        turn,
        Turn::Failed(Ec2Error::CreateInternetGateway(s("no route table found")))
    );
}

#[test]
fn a_gateway_that_is_not_attached_is_deleted_at_once() {
    let sc = config("beez", 1);
    let (run, _) = AWSNetwork::drop(&sc);
    let (run, turn) = run.step(&sc, &CloudResponse::Found(vec![s("igw-1"), s("igw-2")]));
    assert_eq!(
        turn,
        Turn::Call(CloudRequest::DescribeAttachments {
            gateway_id: s("igw-1")
        })
    );
    let (_, turn) = run.step(&sc, &CloudResponse::Found(vec![]));
    assert_eq!(
        turn,
        Turn::Call(CloudRequest::Delete {
            kind: ResourceKind::InternetGateway,
            id: s("igw-1")
        })
    );
}

#[test]
fn a_look_that_fails_is_a_reason_to_wait() {
    let sc = config("beez", 1);
    let network = AWSNetwork {
        vpc_id: s("vpc-1"),
        subnet_id: s("subnet-1"),
        security_group_id: s("sg-1"),
    };
    let running = |id: &str| Instance {
        id: s(id),
        ip: Some(s("1.2.3.4")),
        state: Some(InstanceState::Running),
    };
    let (run, _) = Swarm::init(&sc, &network);
    let (run, _) = run.step(&sc, &CloudResponse::Found(vec![s("key-1")]));
    let (run, turn) = run.step(&sc, &CloudResponse::Reservations(vec![vec![running("i-1")]]));
    assert_eq!(turn, Turn::Call(CloudRequest::Pause { seconds: 15 }));
    let (run, turn) = run.step(&sc, &CloudResponse::Done);
    assert_eq!(
        turn,
        Turn::Call(CloudRequest::DescribeInstances {
            matcher: ResourceMatcher::Id(vec![s("i-1")])
        })
    );
    let (run, turn) = run.step(&sc, &CloudResponse::Failed(s("throttled")));
    assert_eq!(turn, Turn::Call(CloudRequest::Pause { seconds: 15 }));
    assert_eq!(run.phase, SwarmPhase::Pause);
    let (run, _) = run.step(&sc, &CloudResponse::Done);
    let (run, turn) = run.step(&sc, &CloudResponse::Reservations(vec![vec![running("i-1")]]));
    assert_eq!(turn, Turn::Finished);
    assert_eq!(
        run.beez,
        vec![Bee {
            id: s("i-1"),
            ip: Some(s("1.2.3.4"))
        }]
    );
}

#[test]
fn a_launch_that_brings_nothing_fails() {
    let sc = config("beez", 1);
    let network = AWSNetwork {
        vpc_id: s("vpc-1"),
        subnet_id: s("subnet-1"),
        security_group_id: s("sg-1"),
    };
    let (run, _) = Swarm::init(&sc, &network);
    let (run, _) = run.step(&sc, &CloudResponse::Found(vec![s("key-1")]));
    let (run, turn) = run.step(&sc, &CloudResponse::Reservations(vec![]));
    assert!(matches!(
        turn,
        Turn::Call(CloudRequest::RunInstances { count: 1, .. })
    ));
    let (_, turn) = run.step(&sc, &CloudResponse::Launched(vec![]));
    assert_eq!(
        turn,
        Turn::Failed(Ec2Error::CreateInstances(s("no instances created")))
    );
}

#[test]
fn a_missing_key_pair_without_a_key_file_cannot_be_imported() {
    let mut sc = config("beez", 1);
    sc.public_key_file = None;
    sc.key_id = Some(s("key-gone"));
    let network = AWSNetwork {
        vpc_id: s("vpc-1"),
        subnet_id: s("subnet-1"),
        security_group_id: s("sg-1"),
    };
    let (run, turn) = Swarm::init(&sc, &network);
    assert_eq!(
        turn,
        Turn::Call(CloudRequest::DescribeKeyPairs {
            key: SSHKeyMatcher::Id(s("key-gone"))
        })
    );
    let (_, turn) = run.step(&sc, &CloudResponse::Found(vec![]));
    assert_eq!(
        turn,
        Turn::Failed(Ec2Error::ImportSSHKey(s("no public key file to import")))
    );
}

#[test]
fn requests_are_built_from_the_configuration() {
    let sc = config("beez", 4);
    assert_eq!(
        VPC::create(&sc),
        CloudRequest::CreateVpc {
            cidr_block: s(CIDR_VPC),
            tag: s("beez")
        }
    );
    assert_eq!(
        Subnet::create(&sc, "vpc-9"),
        CloudRequest::CreateSubnet {
            vpc_id: s("vpc-9"),
            cidr_block: s(CIDR_SUBNET),
            tag: s("beez")
        }
    );
    assert_eq!(
        Subnet::map_public_ip("subnet-9"),
        CloudRequest::MapPublicIpOnLaunch {
            subnet_id: s("subnet-9")
        }
    );
    assert_eq!(
        SecurityGroup::create(&sc, "vpc-9"),
        CloudRequest::CreateSecurityGroup {
            vpc_id: s("vpc-9"),
            group_name: s("allow-ssh"),
            description: s("Allow SSH inbound traffic"),
            tag: s("beez")
        }
    );
    let mut narrow = sc.clone();
    narrow.ssh_cidr_block = Some(s("192.168.0.0/16"));
    assert_eq!(
        SecurityGroup::allow_ssh_in(&narrow, "sg-9"),
        CloudRequest::AuthorizeIngress {
            group_id: s("sg-9"),
            rule: IpRule {
                protocol: s("tcp"),
                from_port: 22,
                to_port: 22,
                cidr: s("192.168.0.0/16")
            }
        }
    );
    assert_eq!(
        SecurityGroup::allow_all_out("sg-9"),
        CloudRequest::AuthorizeEgress {
            group_id: s("sg-9"),
            rule: IpRule {
                protocol: s("-1"),
                from_port: 0,
                to_port: 0,
                cidr: s(CIDR_GATEWAY)
            }
        }
    );
    assert_eq!(
        InternetGateway::create(&sc),
        CloudRequest::CreateInternetGateway { tag: s("beez") }
    );
    assert_eq!(
        InternetGateway::attach("igw-9", "vpc-9"),
        CloudRequest::AttachInternetGateway {
            gateway_id: s("igw-9"),
            vpc_id: s("vpc-9")
        }
    );
    assert_eq!(
        InternetGateway::detach("igw-9", "vpc-9"),
        CloudRequest::DetachInternetGateway {
            gateway_id: s("igw-9"),
            vpc_id: s("vpc-9")
        }
    );
    assert_eq!(
        InternetGateway::attached_vpc_id("igw-9"),
        CloudRequest::DescribeAttachments {
            gateway_id: s("igw-9")
        }
    );
    assert_eq!(
        InternetGateway::route_tables("vpc-9"),
        CloudRequest::DescribeRouteTables { vpc_id: s("vpc-9") }
    );
    assert_eq!(
        InternetGateway::default_route("rtb-9", "igw-9"),
        CloudRequest::CreateRoute {
            route_table_id: s("rtb-9"),
            destination: s("0.0.0.0/0"),
            gateway_id: s("igw-9")
        }
    );
    assert_eq!(
        SSHKey::import(&sc),
        Some(CloudRequest::ImportKeyPair {
            key_name: s("beez"),
            public_key_file: s("keys/beez.pub"),
            tag: s("beez")
        })
    );
    assert_eq!(
        SSHKey::describe(SSHKeyMatcher::select(&sc)),
        CloudRequest::DescribeKeyPairs {
            key: SSHKeyMatcher::Name(s("beez"))
        }
    );
    assert_eq!(
        SSHKey::delete(SSHKeyMatcher::Id(s("key-9"))),
        CloudRequest::DeleteKeyPair {
            key: SSHKeyMatcher::Id(s("key-9"))
        }
    );
    let network = AWSNetwork {
        vpc_id: s("vpc-9"),
        subnet_id: s("subnet-9"),
        security_group_id: s("sg-9"),
    };
    let launch = |count: i32| CloudRequest::RunInstances {
        count,
        image_id: s("ami-04b4f1a9cf54c11d0"),
        key_name: s("beez"),
        subnet_id: s("subnet-9"),
        security_group_id: s("sg-9"),
        tag: s("beez"),
    };
    assert_eq!(Instances::create(&sc, &network, None), launch(4));
    assert_eq!(Instances::create(&sc, &network, Some(1)), launch(1));
    assert_eq!(TAG_KEY, "Name");
    assert_eq!(SETTLE_SECONDS, 5);
    assert_eq!(POLL_SECONDS, 15);
}

#[test]
fn a_list_of_no_ids_asks_for_nothing() {
    let none = ResourceMatcher::Id(vec![]);
    assert_eq!(VPC::describe(&none), None);
    assert_eq!(Subnet::describe(&none), None);
    assert_eq!(SecurityGroup::describe(&none), None);
    assert_eq!(InternetGateway::describe(&none), None);
    assert_eq!(Instances::describe(&BeeMatcher::Ids(vec![])), None);
    assert_eq!(VPC::delete(&vec![]), None);
    assert_eq!(Subnet::delete(&vec![]), None);
    assert_eq!(SecurityGroup::delete(&vec![]), None);
    assert_eq!(InternetGateway::delete(&vec![]), None);
    assert_eq!(Instances::delete(&vec![]), None);

    let some = ResourceMatcher::Id(vec![s("a"), s("b")]);
    assert_eq!(
        VPC::describe(&some),
        Some(CloudRequest::Describe {
            kind: ResourceKind::Vpc,
            matcher: some.clone()
        })
    );
    assert_eq!(
        Subnet::describe(&ResourceMatcher::Tagged(s("t"))),
        Some(tagged(ResourceKind::Subnet, "t"))
    );
    assert_eq!(
        SecurityGroup::delete(&vec![s("a"), s("b")]),
        Some(CloudRequest::Delete {
            kind: ResourceKind::SecurityGroup,
            id: s("a")
        })
    );
    let beez = vec![
        Bee {
            id: s("i-1"),
            ip: None,
        },
        Bee {
            id: s("i-2"),
            ip: Some(s("1.1.1.1")),
        },
    ];
    assert_eq!(
        Instances::describe(&BeeMatcher::Ids(beez.clone())),
        Some(CloudRequest::DescribeInstances {
            matcher: ResourceMatcher::Id(vec![s("i-1"), s("i-2")])
        })
    );
    assert_eq!(
        Instances::describe(&BeeMatcher::Tagged(s("t"))),
        Some(CloudRequest::DescribeInstances {
            matcher: ResourceMatcher::Tagged(s("t"))
        })
    );
    assert_eq!(
        Instances::delete(&beez),
        Some(CloudRequest::TerminateInstances {
            instance_ids: vec![s("i-1"), s("i-2")]
        })
    );
}

#[test]
fn matchers_are_chosen_by_what_the_configuration_supplies() {
    assert_eq!(
        ResourceMatcher::select(&Some(s("vpc-1")), &s("beez")),
        ResourceMatcher::Id(vec![s("vpc-1")])
    );
    assert_eq!(
        ResourceMatcher::select(&None, &s("beez")),
        ResourceMatcher::Tagged(s("beez"))
    );
    let mut sc = config("beez", 1);
    assert_eq!(SSHKeyMatcher::select(&sc), SSHKeyMatcher::Name(s("beez")));
    sc.key_id = Some(s("key-1"));
    assert_eq!(SSHKeyMatcher::select(&sc), SSHKeyMatcher::Id(s("key-1")));
}

#[test]
fn instances_are_read_by_their_state_in_the_order_of_the_answer() {
    let instance = |id: &str, state: Option<InstanceState>| Instance {
        id: s(id),
        ip: Some(format!("ip-{}", id)),
        state,
    };
    let groups = vec![
        vec![
            instance("a", Some(InstanceState::Running)),
            instance("b", Some(InstanceState::Pending)),
        ],
        vec![],
        vec![
            instance("c", None),
            instance("d", Some(InstanceState::Running)),
            instance("e", Some(InstanceState::Terminated)),
        ],
        vec![instance("f", Some(InstanceState::Running))],
    ];
    let ids = |beez: Vec<Bee>| beez.into_iter().map(|b| b.id).collect::<Vec<String>>();
    assert_eq!(
        Instances::in_state(&groups, InstanceState::Running),
        vec![
            Bee {
                id: s("a"),
                ip: Some(s("ip-a"))
            },
            Bee {
                id: s("d"),
                ip: Some(s("ip-d"))
            },
            Bee {
                id: s("f"),
                ip: Some(s("ip-f"))
            },
        ]
    );
    assert_eq!(
        ids(Instances::in_state(&groups, InstanceState::Pending)),
        vec![s("b")]
    );
    assert_eq!(
        ids(Instances::in_state(&groups, InstanceState::Terminated)),
        vec![s("e")]
    );
    assert_eq!(
        Instances::in_state(&groups, InstanceState::Stopped),
        Vec::<Bee>::new()
    );
    assert_eq!(
        Instances::in_state(&vec![], InstanceState::Running),
        Vec::<Bee>::new()
    );

    let awaited = vec![
        Bee {
            id: s("a"),
            ip: None,
        },
        Bee {
            id: s("d"),
            ip: None,
        },
        Bee {
            id: s("f"),
            ip: None,
        },
    ];
    assert_eq!(
        Instances::wait(&awaited, &groups, InstanceState::Running).map(ids),
        Some(vec![s("a"), s("d"), s("f")])
    );
    assert_eq!(
        Instances::wait(&awaited, &groups, InstanceState::Terminated),
        None
    );
    assert_eq!(
        Instances::wait(&vec![], &vec![], InstanceState::Running),
        Some(vec![])
    );
}

#[test]
fn errors_name_the_operation_that_failed() {
    assert_eq!(
        Ec2Error::CreateVpc(s("quota")).message(),
        "Failed to create vpc: quota"
    );
    assert_eq!(
        Ec2Error::DescribeInternetGateways(s("x")).message(),
        "Failed to describe internet gateways: x"
    );
    assert_eq!(
        Ec2Error::ModifySubnetAttribute(s("x")).message(),
        "Failed to modify subnet: x"
    );
    assert_eq!(
        Ec2Error::TerminateInstances(s("")).message(),
        "Failed to terminate instance: "
    );
    assert_eq!(
        Ec2Error::Unexpected(s("no vpc found")).message(),
        "Unexpected error: no vpc found"
    );
    let all = [
        (Operation::CreateVpc, "Failed to create vpc: "),
        (Operation::DeleteVpc, "Failed to delete vpc: "),
        (Operation::DescribeVpcs, "Failed to describe vpcs: "),
        (Operation::CreateSubnet, "Failed to create subnet: "),
        (Operation::DeleteSubnet, "Failed to delete subnet: "),
        (Operation::DescribeSubnets, "Failed to describe subnets: "),
        (Operation::ModifySubnetAttribute, "Failed to modify subnet: "),
        (
            Operation::CreateSecurityGroup,
            "Failed to create security group: ",
        ),
        (
            Operation::DeleteSecurityGroup,
            "Failed to delete security group: ",
        ),
        (
            Operation::DescribeSecurityGroups,
            "Failed to describe security groups: ",
        ),
        (
            Operation::CreateInternetGateway,
            "Failed to create internet gateway: ",
        ),
        (
            Operation::DeleteInternetGateway,
            "Failed to delete internet gateway: ",
        ),
        (
            Operation::DescribeInternetGateways,
            "Failed to describe internet gateways: ",
        ),
        (
            Operation::AuthorizeSecurityGroupIngress,
            "Failed to authorize ingress: ",
        ),
        (
            Operation::AuthorizeSecurityGroupEgress,
            "Failed to authorize egress: ",
        ),
        (Operation::ImportSSHKey, "Failed to import SSH key: "),
        (Operation::DeleteSSHKey, "Failed to delete SSH key: "),
        (Operation::DescribeSSHKey, "Failed to describe SSH key: "),
        (Operation::CreateInstances, "Failed to create instance: "),
        (
            Operation::TerminateInstances,
            "Failed to terminate instance: ",
        ),
        (
            Operation::DescribeInstances,
            "Failed to describe instances: ",
        ),
        (Operation::Unexpected, "Unexpected error: "),
    ];
    for (operation, headline) in all {
        let error = Ec2Error::new(operation, s("why"));
        assert_eq!(error.operation(), operation);
        assert_eq!(error.detail(), "why");
        assert_eq!(error.message(), format!("{}why", headline));
    }
}

#[test]
fn the_network_and_the_swarm_are_reported() {
    let network = AWSNetwork {
        vpc_id: s("vpc-1"),
        subnet_id: s("subnet-2"),
        security_group_id: s("sg-3"),
    };
    assert_eq!(
        network.report(),
        "NETWORK ]--------------------------\n\
         VPC ID:    vpc-1\n\
         Subnet ID: subnet-2\n\
         SG ID:     sg-3"
    );
    assert_eq!(network.duplicate(), network);
    let mut swarm = Swarm {
        config: config("beez", 2),
        network: network.clone(),
        key_pair: s("key-4"),
        instances: vec![
            Bee {
                id: s("i-1"),
                ip: Some(s("10.0.0.1")),
            },
            Bee {
                id: s("i-2"),
                ip: Some(s("10.0.0.2")),
            },
        ],
    };
    assert!(swarm.is_ready());
    assert_eq!(swarm.hosts(), vec![s("10.0.0.1"), s("10.0.0.2")]);
    assert_eq!(
        swarm.report(),
        "SWARM ]----------------------------\n\
         Instances: 10.0.0.1, 10.0.0.2\n\
         SSH Key:   key-4\n\
         NETWORK ]--------------------------\n\
         VPC ID:    vpc-1\n\
         Subnet ID: subnet-2\n\
         SG ID:     sg-3"
    );
    swarm.instances.truncate(1);
    assert!(swarm.report().contains("Instances: 10.0.0.1\n"));
    swarm.instances.clear();
    assert!(swarm.is_ready());
    assert!(swarm.report().contains("Instances: \n"));
    swarm.instances.push(Bee {
        id: s("i-3"),
        ip: None,
    });
    assert!(!swarm.is_ready());
}

#[test]
fn a_run_that_is_not_finished_has_no_result() {
    let sc = config("beez", 1);
    let (run, _) = AWSNetwork::init(&sc);
    assert!(!run.is_finished());
    assert_eq!(run.network(), None);
    let (run, _) = NetworkRun::start(Goal::Load, &sc);
    let (run, _) = run.step(&sc, &CloudResponse::Found(vec![s("vpc-1")]));
    let (run, _) = run.step(&sc, &CloudResponse::Found(vec![s("subnet-1")]));
    let (run, _) = run.step(&sc, &CloudResponse::Found(vec![s("sg-1")]));
    assert_eq!(run.network(), None);
    let (run, turn) = run.step(&sc, &CloudResponse::Found(vec![s("igw-1")]));
    assert_eq!(turn, Turn::Finished);
    assert_eq!(
        run.network(),
        Some(AWSNetwork {
            vpc_id: s("vpc-1"),
            subnet_id: s("subnet-1"),
            security_group_id: s("sg-1")
        })
    );
    let (run, again) = run.step(&sc, &CloudResponse::Done);
    assert_eq!(again, Turn::Finished);
    assert!(run.is_finished());

    let (swarm_run, _) = SwarmRun::start(Goal::Drop, &sc, None);
    assert!(!swarm_run.is_finished());
    assert_eq!(Swarm::of(swarm_run, &sc), None);
}

/// The operation that a failure of a request is charged to; none for a look
/// at awaited instances, which is taken up again.
fn charged(request: &CloudRequest, waiting: bool) -> Option<Operation> {
    Some(match request {
        CloudRequest::Describe { kind, .. } => match kind {
            ResourceKind::Vpc => Operation::DescribeVpcs,
            ResourceKind::Subnet => Operation::DescribeSubnets,
            ResourceKind::SecurityGroup => Operation::DescribeSecurityGroups,
            ResourceKind::InternetGateway => Operation::DescribeInternetGateways,
        },
        CloudRequest::Delete { kind, .. } => match kind {
            ResourceKind::Vpc => Operation::DeleteVpc,
            ResourceKind::Subnet => Operation::DeleteSubnet,
            ResourceKind::SecurityGroup => Operation::DeleteSecurityGroup,
            ResourceKind::InternetGateway => Operation::DeleteInternetGateway,
        },
        CloudRequest::CreateVpc { .. } => Operation::CreateVpc,
        CloudRequest::CreateSubnet { .. } => Operation::CreateSubnet,
        CloudRequest::MapPublicIpOnLaunch { .. } => Operation::ModifySubnetAttribute,
        CloudRequest::CreateSecurityGroup { .. } => Operation::CreateSecurityGroup,
        CloudRequest::AuthorizeIngress { .. } => Operation::AuthorizeSecurityGroupIngress,
        CloudRequest::AuthorizeEgress { .. } => Operation::AuthorizeSecurityGroupEgress,
        CloudRequest::CreateInternetGateway { .. }
        | CloudRequest::AttachInternetGateway { .. }
        | CloudRequest::DescribeRouteTables { .. }
        | CloudRequest::CreateRoute { .. } => Operation::CreateInternetGateway,
        CloudRequest::DescribeAttachments { .. } => Operation::DescribeInternetGateways,
        CloudRequest::DetachInternetGateway { .. } => Operation::DeleteInternetGateway,
        CloudRequest::DescribeKeyPairs { .. } => Operation::DescribeSSHKey,
        CloudRequest::ImportKeyPair { .. } => Operation::ImportSSHKey,
        CloudRequest::DeleteKeyPair { .. } => Operation::DeleteSSHKey,
        CloudRequest::DescribeInstances {
            matcher: ResourceMatcher::Id(_),
        } if waiting => return None,
        CloudRequest::DescribeInstances { .. } => Operation::DescribeInstances,
        CloudRequest::RunInstances { .. } => Operation::CreateInstances,
        CloudRequest::TerminateInstances { .. } => Operation::TerminateInstances,
        CloudRequest::Pause { seconds: 5 } => Operation::CreateInternetGateway,
        CloudRequest::Pause { .. } => Operation::Unexpected,
    })
}

/// Carries a run out on a cloud, but lets the request of a given place fail.
fn drive_with_failure(
    cloud: &mut Cloud,
    sc: &SwarmConfig,
    start: (FleetRun, Turn),
    place: usize,
) -> Option<(CloudRequest, Turn)> {
    let (mut run, mut turn) = start;
    let mut asked = 0;
    while let Turn::Call(request) = turn {
        let fails = asked == place;
        let response = if fails {
            CloudResponse::Failed(s("boom"))
        } else {
            cloud.answer(&request)
        };
        let (next, then) = run.step(sc, &response);
        if fails {
            return Some((request, then));
        }
        run = next;
        turn = then;
        asked += 1;
    }
    None
}

#[test]
fn every_failure_is_charged_to_its_operation() {
    let sc = config("beez", 2);
    let mut seen = Vec::new();
    // Bringing the fleet up in an empty cloud.
    let mut place = 0;
    loop {
        let mut cloud = Cloud::default();
        match drive_with_failure(&mut cloud, &sc, cmd_init(&sc), place) {
            Some((request, turn)) => {
                match charged(&request, true) {
                    Some(operation) => {
                        assert_eq!(turn, Turn::Failed(Ec2Error::new(operation, s("boom"))));
                        seen.push(operation);
                    }
                    None => assert_eq!(turn, Turn::Call(CloudRequest::Pause { seconds: 15 })),
                }
                place += 1;
            }
            None => break,
        }
    }
    assert_eq!(place, 21);
    // Taking it down again.
    let mut up = Cloud::default();
    assert!(drive(&mut up, &sc, cmd_init(&sc)).0.is_ok());
    let mut place = 0;
    loop {
        let mut cloud = up.clone();
        match drive_with_failure(&mut cloud, &sc, cmd_terminate(&sc), place) {
            Some((request, turn)) => {
                match charged(&request, true) {
                    Some(operation) => {
                        assert_eq!(turn, Turn::Failed(Ec2Error::new(operation, s("boom"))));
                        seen.push(operation);
                    }
                    None => assert_eq!(turn, Turn::Call(CloudRequest::Pause { seconds: 15 })),
                }
                place += 1;
            }
            None => break,
        }
    }
    assert_eq!(place, 15);
    for operation in [
        Operation::CreateVpc,
        Operation::DeleteVpc,
        Operation::DescribeVpcs,
        Operation::CreateSubnet,
        Operation::DeleteSubnet,
        Operation::DescribeSubnets,
        Operation::ModifySubnetAttribute,
        Operation::CreateSecurityGroup,
        Operation::DeleteSecurityGroup,
        Operation::DescribeSecurityGroups,
        Operation::CreateInternetGateway,
        Operation::DeleteInternetGateway,
        Operation::DescribeInternetGateways,
        Operation::AuthorizeSecurityGroupIngress,
        Operation::AuthorizeSecurityGroupEgress,
        Operation::ImportSSHKey,
        Operation::DeleteSSHKey,
        Operation::DescribeSSHKey,
        Operation::CreateInstances,
        Operation::TerminateInstances,
        Operation::DescribeInstances,
        Operation::Unexpected,
    ] {
        assert!(seen.contains(&operation), "{:?} was never charged", operation);
    }
}
