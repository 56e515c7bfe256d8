//! Whole runs of the reconciler in the model of the cloud: what `init`
//! leaves behind, that a second `init` changes nothing, and that `drop`
//! then leaves nothing of the swarm.

use crate::actions::commands::FleetRunView;
use crate::aws::ec2::{
    beez_in_state, ids_of, BeeView, CloudRequestView, InstanceState, InstanceView, ResourceKind,
    ResourceMatcher, ResourceMatcherView, SSHKeyMatcher, SSHKeyMatcherView, POLL_SECONDS,
};
use crate::aws::model::{
    is_sought, is_sought_key, is_sought_machine, sought, sought_keys, sought_machines, Cloud,
    Machine, Resource,
};
use crate::aws::network::{Goal, NetworkPhase, NetworkRunView, TurnView};
use crate::aws::scenarios::AWSNetworkView;
use crate::aws::swarm::{SwarmPhase, SwarmRunView};
use crate::config::SwarmConfigView;
use vstd::prelude::*;

verus! {

impl FleetRunView {
    /// Where a run and the cloud stand after so many steps at the most,
    /// when the cloud answers each request of the run.
    pub open spec fn run_in(self, turn: TurnView, sc: SwarmConfigView, cloud: Cloud, steps: nat)
        -> (FleetRunView, TurnView, Cloud)
        decreases steps,
    {
        if steps == 0 {
            (self, turn, cloud)
        } else {
            match turn {
                TurnView::Call(request) => {
                    let (after, response) = cloud.answer(request);
                    let (next, then) = self.step(sc, response);
                    next.run_in(then, sc, after, (steps - 1) as nat)
                },
                _ => (self, turn, cloud),
            }
        }
    }
}

/// A run of so many steps and of so many more is a run of as many as both.
pub proof fn lemma_run_in_parts(
    run: FleetRunView,
    turn: TurnView,
    sc: SwarmConfigView,
    cloud: Cloud,
    first: nat,
    then: nat,
)
    ensures
        run.run_in(turn, sc, cloud, first + then) == ({
            let (r, t, c) = run.run_in(turn, sc, cloud, first);
            r.run_in(t, sc, c, then)
        }),
    decreases first,
{
    if first > 0 {
        match turn {
            TurnView::Call(request) => {
                let (after, response) = cloud.answer(request);
                let (next, t) = run.step(sc, response);
                lemma_run_in_parts(next, t, sc, after, (first - 1) as nat, then);
                assert(run.run_in(turn, sc, cloud, first + then) == next.run_in(
                    t,
                    sc,
                    after,
                    (first + then - 1) as nat,
                ));
            },
            _ => {},
        }
    }
}

/// A run that is over stays where it is.
pub proof fn lemma_run_in_stays(
    run: FleetRunView,
    turn: TurnView,
    sc: SwarmConfigView,
    cloud: Cloud,
    steps: nat,
)
    requires
        !(turn is Call),
    ensures
        run.run_in(turn, sc, cloud, steps) == (run, turn, cloud),
{
}

/// Nothing is found where nothing is sought.
pub proof fn lemma_none_found<A>(s: Seq<A>, wanted: spec_fn(A) -> bool)
    requires
        forall|i: int| 0 <= i < s.len() ==> !wanted(#[trigger] s[i]),
    ensures
        s.filter(wanted) == Seq::<A>::empty(),
    decreases s.len(),
{
    reveal(Seq::filter);
    if s.len() > 0 {
        lemma_none_found(s.drop_last(), wanted);
    }
}

/// Everything is found where everything is sought.
pub proof fn lemma_all_found<A>(s: Seq<A>, wanted: spec_fn(A) -> bool)
    requires
        forall|i: int| 0 <= i < s.len() ==> wanted(#[trigger] s[i]),
    ensures
        s.filter(wanted) == s,
    decreases s.len(),
{
    reveal(Seq::filter);
    if s.len() > 0 {
        lemma_all_found(s.drop_last(), wanted);
        assert(s.drop_last().push(s.last()) =~= s);
    }
}

/// What is sought and is there is found, and what is found first is sought.
pub proof fn lemma_some_found<A>(s: Seq<A>, wanted: spec_fn(A) -> bool, at: int)
    requires
        0 <= at < s.len(),
        wanted(s[at]),
    ensures
        s.filter(wanted).len() > 0,
        wanted(s.filter(wanted)[0]),
    decreases s.len(),
{
    reveal(Seq::filter);
    let rest = s.drop_last();
    if at < s.len() - 1 {
        lemma_some_found(rest, wanted, at);
        if wanted(s.last()) {
            assert(rest.filter(wanted).push(s.last())[0] == rest.filter(wanted)[0]);
        }
    } else {
        if rest.filter(wanted).len() > 0 {
            rest.lemma_filter_pred(wanted, 0);
            assert(rest.filter(wanted).push(s.last())[0] == rest.filter(wanted)[0]);
        }
    }
}

/// What holds of all that is sought holds of all that is found.
pub proof fn lemma_found_keep<A>(s: Seq<A>, wanted: spec_fn(A) -> bool, holds: spec_fn(A) -> bool)
    requires
        forall|i: int| 0 <= i < s.len() && wanted(#[trigger] s[i]) ==> holds(s[i]),
    ensures
        forall|k: int| 0 <= k < s.filter(wanted).len() ==> holds(#[trigger] s.filter(wanted)[k]),
    decreases s.len(),
{
    reveal(Seq::filter);
    if s.len() > 0 {
        let rest = s.drop_last();
        lemma_found_keep(rest, wanted, holds);
        assert forall|k: int| 0 <= k < s.filter(wanted).len() implies holds(
            #[trigger] s.filter(wanted)[k],
        ) by {
            if k < rest.filter(wanted).len() {
                assert(s.filter(wanted)[k] == rest.filter(wanted)[k]);
            } else {
                assert(s.filter(wanted)[k] == s[s.len() - 1]);
            }
        }
    }
}

/// The id that a run goes on with for a kind of resource, and the cloud
/// after the run has dealt with that kind: a supplied resource is taken as
/// it is, or else one is made.
pub open spec fn taken_or_made(
    cloud: Cloud,
    kind: ResourceKind,
    supplied: Option<Seq<char>>,
    tag: Seq<char>,
) -> (Cloud, Seq<char>) {
    match supplied {
        Some(id) => (cloud, id),
        None => (cloud.create(kind, tag), cloud.next_id()),
    }
}

/// The network that `init` finds or makes in a cloud that holds nothing of
/// the swarm.
pub open spec fn network_after_init(cloud: Cloud, sc: SwarmConfigView) -> AWSNetworkView {
    let (c1, vpc_id) = taken_or_made(cloud, ResourceKind::Vpc, sc.vpc_id, sc.tag_name);
    let (c2, subnet_id) = taken_or_made(c1, ResourceKind::Subnet, sc.subnet_id, sc.tag_name);
    let (c3, security_group_id) = taken_or_made(
        c2,
        ResourceKind::SecurityGroup,
        sc.security_group_id,
        sc.tag_name,
    );
    AWSNetworkView { vpc_id, subnet_id, security_group_id }
}

/// The cloud when the network stands: whatever was not supplied is made, in
/// the order of VPC, subnet, security group and gateway, and the gateway is
/// attached.
pub open spec fn with_network(cloud: Cloud, sc: SwarmConfigView) -> Cloud {
    let (c1, vpc_id) = taken_or_made(cloud, ResourceKind::Vpc, sc.vpc_id, sc.tag_name);
    let (c2, subnet_id) = taken_or_made(c1, ResourceKind::Subnet, sc.subnet_id, sc.tag_name);
    let (c3, group_id) = taken_or_made(
        c2,
        ResourceKind::SecurityGroup,
        sc.security_group_id,
        sc.tag_name,
    );
    let c4 = c3.create(ResourceKind::InternetGateway, sc.tag_name);
    Cloud { attachments: c4.attachments.insert(c3.next_id(), vpc_id), ..c4 }
}

/// The cloud when the key pair is there as well.
pub open spec fn with_key(cloud: Cloud, sc: SwarmConfigView) -> Cloud {
    let c = with_network(cloud, sc);
    if sc.key_id is Some {
        c
    } else {
        c.import(sc.tag_name)
    }
}

/// The cloud after `init`, in a cloud that held nothing of the swarm.
pub open spec fn after_init(cloud: Cloud, sc: SwarmConfigView) -> Cloud {
    let c = with_key(cloud, sc);
    if sc.num_beez > 0 {
        c.launch(sc.num_beez as nat, sc.tag_name)
    } else {
        c
    }
}

/// What `init` needs of the cloud that it begins in, to end as this module
/// says: the cloud holds nothing of the swarm, and it holds whatever the
/// configuration supplies.
pub open spec fn ready_for(cloud: Cloud, sc: SwarmConfigView) -> bool {
    &&& sc.valid()
    &&& cloud.wf()
    &&& cloud.holds_nothing_of(sc.tag_name)
    &&& sc.vpc_id matches Some(id) ==> cloud.holds(ResourceKind::Vpc, id)
    &&& sc.subnet_id matches Some(id) ==> cloud.holds(ResourceKind::Subnet, id)
    &&& sc.security_group_id matches Some(id) ==> cloud.holds(ResourceKind::SecurityGroup, id)
    &&& sc.key_id matches Some(id) ==> cloud.holds_key(id)
}

/// The first resource that is found by the id that the configuration
/// supplies has that id; and nothing is found by the tag where nothing
/// bears it.
pub proof fn lemma_listing(resources: Seq<Resource>, supplied: Option<Seq<char>>, tag: Seq<char>)
    requires
        forall|i: int| 0 <= i < resources.len() ==> (#[trigger] resources[i]).tag != tag,
        supplied matches Some(id) ==> exists|i: int|
            0 <= i < resources.len() && (#[trigger] resources[i]).id == id,
    ensures
        supplied matches Some(id) ==> sought(
            resources,
            ResourceMatcher::chosen(supplied, tag),
        ).len() > 0 && sought(resources, ResourceMatcher::chosen(supplied, tag))[0] == id,
        supplied is None ==> sought(resources, ResourceMatcher::chosen(supplied, tag))
            == Seq::<Seq<char>>::empty(),
        sought(resources, ResourceMatcherView::Tagged(tag)) == Seq::<Seq<char>>::empty(),
{
    let by_tag = |r: Resource| is_sought(r, ResourceMatcherView::Tagged(tag));
    lemma_none_found(resources, by_tag);
    assert(resources.filter(by_tag).map_values(|r: Resource| r.id) =~= Seq::<Seq<char>>::empty());
    if let Some(id) = supplied {
        let matcher = ResourceMatcher::chosen(supplied, tag);
        let by_id = |r: Resource| is_sought(r, matcher);
        let at = choose|i: int| 0 <= i < resources.len() && (#[trigger] resources[i]).id == id;
        assert(seq![id].contains(id)) by {
            assert(seq![id][0] == id);
        }
        lemma_some_found(resources, by_id, at);
        let first = resources.filter(by_id)[0];
        assert(seq![id].contains(first.id));
        assert(first.id == id);
    }
}

/// A run that brings the network up, where it stands in a phase and with
/// the ids that it knows.
pub open spec fn bringing_up(
    phase: NetworkPhase,
    vpc_id: Option<Seq<char>>,
    subnet_id: Option<Seq<char>>,
    security_group_id: Option<Seq<char>>,
    gateway_id: Option<Seq<char>>,
) -> FleetRunView {
    FleetRunView::Network(
        NetworkRunView { goal: Goal::Init, phase, vpc_id, subnet_id, security_group_id, gateway_id },
    )
}

/// The turn that asks for the listing of a kind of resource.
pub open spec fn listing(kind: ResourceKind, supplied: Option<Seq<char>>, tag: Seq<char>) -> TurnView {
    TurnView::Call(
        CloudRequestView::Describe { kind, matcher: ResourceMatcher::chosen(supplied, tag) },
    )
}

/// Whether no resource of a kind bears a tag.
pub open spec fn none_bears(resources: Seq<Resource>, tag: Seq<char>) -> bool {
    forall|i: int| 0 <= i < resources.len() ==> (#[trigger] resources[i]).tag != tag
}

/// Whether a resource with an id that the configuration supplies is there.
pub open spec fn is_there(resources: Seq<Resource>, supplied: Option<Seq<char>>) -> bool {
    supplied matches Some(id) ==> exists|i: int|
        0 <= i < resources.len() && (#[trigger] resources[i]).id == id
}

/// `init` deals with the VPC in one step where it is supplied, and in two
/// where it is made.
pub proof fn lemma_vpc_stage(sc: SwarmConfigView, cloud: Cloud)
    requires
        none_bears(cloud.vpcs, sc.tag_name),
        is_there(cloud.vpcs, sc.vpc_id),
    ensures
        ({
            let (start, first) = FleetRunView::start(Goal::Init, sc);
            let (after, vpc_id) = taken_or_made(cloud, ResourceKind::Vpc, sc.vpc_id, sc.tag_name);
            let steps: nat = if sc.vpc_id is Some {
                1
            } else {
                2
            };
            start.run_in(first, sc, cloud, steps) == (
                bringing_up(NetworkPhase::FindSubnet, Some(vpc_id), None, None, None),
                listing(ResourceKind::Subnet, sc.subnet_id, sc.tag_name),
                after,
            )
        }),
{
    reveal_with_fuel(FleetRunView::run_in, 3);
    lemma_listing(cloud.vpcs, sc.vpc_id, sc.tag_name);
}

/// `init` deals with the subnet in one step where it is supplied, and in
/// three where it is made.
pub proof fn lemma_subnet_stage(sc: SwarmConfigView, cloud: Cloud, vpc_id: Seq<char>)
    requires
        none_bears(cloud.subnets, sc.tag_name),
        is_there(cloud.subnets, sc.subnet_id),
    ensures
        ({
            let (after, subnet_id) = taken_or_made(
                cloud,
                ResourceKind::Subnet,
                sc.subnet_id,
                sc.tag_name,
            );
            let steps: nat = if sc.subnet_id is Some {
                1
            } else {
                3
            };
            bringing_up(NetworkPhase::FindSubnet, Some(vpc_id), None, None, None).run_in(
                listing(ResourceKind::Subnet, sc.subnet_id, sc.tag_name),
                sc,
                cloud,
                steps,
            ) == (
                bringing_up(
                    NetworkPhase::FindSecurityGroup,
                    Some(vpc_id),
                    Some(subnet_id),
                    None,
                    None,
                ),
                listing(ResourceKind::SecurityGroup, sc.security_group_id, sc.tag_name),
                after,
            )
        }),
{
    reveal_with_fuel(FleetRunView::run_in, 4);
    lemma_listing(cloud.subnets, sc.subnet_id, sc.tag_name);
}

/// `init` deals with the security group in one step where it is supplied,
/// and in four where it is made.
pub proof fn lemma_group_stage(
    sc: SwarmConfigView,
    cloud: Cloud,
    vpc_id: Seq<char>,
    subnet_id: Seq<char>,
)
    requires
        none_bears(cloud.groups, sc.tag_name),
        is_there(cloud.groups, sc.security_group_id),
    ensures
        ({
            let (after, group_id) = taken_or_made(
                cloud,
                ResourceKind::SecurityGroup,
                sc.security_group_id,
                sc.tag_name,
            );
            let steps: nat = if sc.security_group_id is Some {
                1
            } else {
                4
            };
            bringing_up(
                NetworkPhase::FindSecurityGroup,
                Some(vpc_id),
                Some(subnet_id),
                None,
                None,
            ).run_in(
                listing(ResourceKind::SecurityGroup, sc.security_group_id, sc.tag_name),
                sc,
                cloud,
                steps,
            ) == (
                bringing_up(
                    NetworkPhase::FindGateway,
                    Some(vpc_id),
                    Some(subnet_id),
                    Some(group_id),
                    None,
                ),
                listing(ResourceKind::InternetGateway, None, sc.tag_name),
                after,
            )
        }),
{
    reveal_with_fuel(FleetRunView::run_in, 5);
    lemma_listing(cloud.groups, sc.security_group_id, sc.tag_name);
}

/// A run that brings the swarm up, as it begins in a network.
pub open spec fn begins_swarm(sc: SwarmConfigView, network: AWSNetworkView) -> (FleetRunView, TurnView) {
    let (run, turn) = SwarmRunView::start(Goal::Init, sc, Some(network));
    (FleetRunView::Swarm(run), turn)
}

/// `init` makes the gateway, attaches it and routes through it in six
/// steps, and goes on with the swarm.
pub proof fn lemma_gateway_stage(
    sc: SwarmConfigView,
    cloud: Cloud,
    vpc_id: Seq<char>,
    subnet_id: Seq<char>,
    security_group_id: Seq<char>,
)
    requires
        none_bears(cloud.gateways, sc.tag_name),
    ensures
        ({
            let made = cloud.create(ResourceKind::InternetGateway, sc.tag_name);
            let after = Cloud {
                attachments: made.attachments.insert(cloud.next_id(), vpc_id),
                ..made
            };
            let (swarm, first) = begins_swarm(
                sc,
                AWSNetworkView { vpc_id, subnet_id, security_group_id },
            );
            bringing_up(
                NetworkPhase::FindGateway,
                Some(vpc_id),
                Some(subnet_id),
                Some(security_group_id),
                None,
            ).run_in(listing(ResourceKind::InternetGateway, None, sc.tag_name), sc, cloud, 6) == (
                swarm,
                first,
                after,
            )
        }),
{
    reveal_with_fuel(FleetRunView::run_in, 7);
    lemma_listing(cloud.gateways, None, sc.tag_name);
}

/// A run that brings the swarm up, where it stands in a phase.
pub open spec fn swarming(
    phase: SwarmPhase,
    network: AWSNetworkView,
    key_pair: Option<Seq<char>>,
    beez: Seq<BeeView>,
) -> FleetRunView {
    FleetRunView::Swarm(
        SwarmRunView { goal: Goal::Init, phase, network: Some(network), key_pair, beez },
    )
}

/// The turn that asks for the instances that bear the swarm's tag.
pub open spec fn listing_instances(sc: SwarmConfigView) -> TurnView {
    TurnView::Call(
        CloudRequestView::DescribeInstances { matcher: ResourceMatcherView::Tagged(sc.tag_name) },
    )
}

/// The key pair that a run goes on with: the supplied one, or else the one
/// that is imported next.
pub open spec fn key_after(cloud: Cloud, sc: SwarmConfigView) -> Seq<char> {
    match sc.key_id {
        Some(id) => id,
        None => cloud.next_id(),
    }
}

/// `init` deals with the key pair in one step where it is supplied, and in
/// two where it is imported.
pub proof fn lemma_key_stage(sc: SwarmConfigView, cloud: Cloud, network: AWSNetworkView)
    requires
        sc.valid(),
        none_bears(cloud.keys, sc.tag_name),
        is_there(cloud.keys, sc.key_id),
    ensures
        ({
            let (start, first) = begins_swarm(sc, network);
            let after = if sc.key_id is Some {
                cloud
            } else {
                cloud.import(sc.tag_name)
            };
            let steps: nat = if sc.key_id is Some {
                1
            } else {
                2
            };
            start.run_in(first, sc, cloud, steps) == (
                swarming(
                    SwarmPhase::ListInstances,
                    network,
                    Some(key_after(cloud, sc)),
                    Seq::empty(),
                ),
                listing_instances(sc),
                after,
            )
        }),
{
    reveal_with_fuel(FleetRunView::run_in, 3);
    let matcher = SSHKeyMatcher::chosen(sc);
    let wanted = |k: Resource| is_sought_key(k, matcher);
    match sc.key_id {
        Some(id) => {
            let at = choose|i: int| 0 <= i < cloud.keys.len() && (#[trigger] cloud.keys[i]).id == id;
            lemma_some_found(cloud.keys, wanted, at);
            assert(sought_keys(cloud.keys, matcher)[0] == id);
        },
        None => {
            lemma_none_found(cloud.keys, wanted);
            assert(sought_keys(cloud.keys, matcher) =~= Seq::<Seq<char>>::empty());
        },
    }
}

/// The instances as bees.
pub open spec fn as_beez(machines: Seq<Machine>) -> Seq<BeeView> {
    machines.map_values(|m: Machine| m.described().bee())
}

/// Whether every instance that bears a tag is terminated.
pub open spec fn all_gone(machines: Seq<Machine>, tag: Seq<char>) -> bool {
    forall|i: int|
        0 <= i < machines.len() && (#[trigger] machines[i]).tag == tag ==> machines[i].state
            == InstanceState::Terminated
}

/// The instances in a state among those that one description shows.
pub proof fn lemma_one_description(shown: Seq<InstanceView>, state: InstanceState)
    ensures
        beez_in_state(seq![shown], state) == shown.filter(
            |i: InstanceView| i.state == Some(state),
        ).map_values(|i: InstanceView| i.bee()),
{
    seq![shown].lemma_flatten_one_element();
    assert(seq![shown].first() == shown);
}

/// Where every instance of the swarm is terminated, the listing of the
/// swarm shows none that runs.
pub proof fn lemma_none_runs(machines: Seq<Machine>, tag: Seq<char>)
    requires
        all_gone(machines, tag),
    ensures
        beez_in_state(
            seq![sought_machines(machines, ResourceMatcherView::Tagged(tag))],
            InstanceState::Running,
        ) == Seq::<BeeView>::empty(),
{
    let matcher = ResourceMatcherView::Tagged(tag);
    let wanted = |m: Machine| is_sought_machine(m, matcher);
    let shown = sought_machines(machines, matcher);
    let runs = |i: InstanceView| i.state == Some(InstanceState::Running);
    lemma_one_description(shown, InstanceState::Running);
    let gone = |m: Machine| m.state == InstanceState::Terminated;
    lemma_found_keep(machines, wanted, gone);
    assert forall|k: int| 0 <= k < shown.len() implies !runs(#[trigger] shown[k]) by {
        assert(gone(machines.filter(wanted)[k]));
    }
    lemma_none_found(shown, runs);
    assert(shown.filter(runs).map_values(|i: InstanceView| i.bee()) =~= Seq::<BeeView>::empty());
}

/// The instances that a launch has made are the ones that are found by
/// their ids, and they are in the state that the cloud has left them in.
pub proof fn lemma_look_finds_the_launched(
    cloud: Cloud,
    fleet: Seq<Machine>,
    state: InstanceState,
)
    requires
        forall|i: int, j: int|
            0 <= i < cloud.machines.len() && 0 <= j < fleet.len() ==> (#[trigger] cloud.machines[i]).id
                != (#[trigger] fleet[j]).id,
        forall|j: int| 0 <= j < fleet.len() ==> (#[trigger] fleet[j]).state == state,
    ensures
        sought_machines(
            cloud.machines + fleet,
            ResourceMatcherView::Id(ids_of(as_beez(fleet))),
        ) == fleet.map_values(|m: Machine| m.described()),
        beez_in_state(
            seq![
                sought_machines(
                    cloud.machines + fleet,
                    ResourceMatcherView::Id(ids_of(as_beez(fleet))),
                ),
            ],
            state,
        ) == as_beez(fleet),
{
    let ids = ids_of(as_beez(fleet));
    let matcher = ResourceMatcherView::Id(ids);
    let wanted = |m: Machine| is_sought_machine(m, matcher);
    assert forall|i: int| 0 <= i < cloud.machines.len() implies !wanted(
        #[trigger] cloud.machines[i],
    ) by {
        if ids.contains(cloud.machines[i].id) {
            let k = choose|k: int| 0 <= k < ids.len() && ids[k] == cloud.machines[i].id;
            assert(ids[k] == fleet[k].id);
        }
    }
    assert forall|j: int| 0 <= j < fleet.len() implies wanted(#[trigger] fleet[j]) by {
        assert(ids[j] == fleet[j].id);
    }
    lemma_none_found(cloud.machines, wanted);
    lemma_all_found(fleet, wanted);
    Seq::filter_distributes_over_add(cloud.machines, fleet, wanted);
    assert((cloud.machines + fleet).filter(wanted) =~= fleet);
    let shown = fleet.map_values(|m: Machine| m.described());
    let in_state = |i: InstanceView| i.state == Some(state);
    lemma_one_description(shown, state);
    assert forall|j: int| 0 <= j < shown.len() implies in_state(#[trigger] shown[j]) by {
        assert(shown[j] == fleet[j].described());
    }
    lemma_all_found(shown, in_state);
    assert(shown.map_values(|i: InstanceView| i.bee()) =~= as_beez(fleet));
}

/// `init` launches the whole fleet where none of it runs, and waits for it:
/// in four steps, or in two where no instance is asked for.
pub proof fn lemma_fleet_stage(
    sc: SwarmConfigView,
    cloud: Cloud,
    network: AWSNetworkView,
    key_pair: Seq<char>,
)
    requires
        sc.num_beez >= 0,
        cloud.wf(),
        all_gone(cloud.machines, sc.tag_name),
    ensures
        ({
            let fleet = cloud.launched(sc.num_beez as nat, sc.tag_name);
            let after = if sc.num_beez > 0 {
                cloud.launch(sc.num_beez as nat, sc.tag_name)
            } else {
                cloud
            };
            let steps: nat = if sc.num_beez > 0 {
                4
            } else {
                2
            };
            swarming(SwarmPhase::ListInstances, network, Some(key_pair), Seq::empty()).run_in(
                listing_instances(sc),
                sc,
                cloud,
                steps,
            ) == (
                swarming(SwarmPhase::Finished, network, Some(key_pair), as_beez(fleet)),
                TurnView::Finished,
                after,
            )
        }),
{
    reveal_with_fuel(FleetRunView::run_in, 5);
    let fleet = cloud.launched(sc.num_beez as nat, sc.tag_name);
    lemma_none_runs(cloud.machines, sc.tag_name);
    if sc.num_beez > 0 {
        lemma_look_finds_the_launched(cloud, fleet, InstanceState::Running);
        assert(Seq::<BeeView>::empty() + as_beez(fleet) =~= as_beez(fleet));
        assert(as_beez(fleet).len() == sc.num_beez);
    } else {
        assert(as_beez(fleet) =~= Seq::<BeeView>::empty());
    }
}

/// After a resource was made under the tag where none bore it, the listing
/// by the tag finds that resource alone.
pub proof fn lemma_listing_after_create(resources: Seq<Resource>, made: Resource)
    requires
        forall|i: int| 0 <= i < resources.len() ==> (#[trigger] resources[i]).tag != made.tag,
    ensures
        sought(resources.push(made), ResourceMatcherView::Tagged(made.tag)) == seq![made.id],
{
    let by_tag = |r: Resource| is_sought(r, ResourceMatcherView::Tagged(made.tag));
    lemma_none_found(resources, by_tag);
    Seq::lemma_filter_push(resources, made, by_tag);
    assert(resources.push(made).filter(by_tag) =~= seq![made]);
    assert(seq![made].map_values(|r: Resource| r.id) =~= seq![made.id]);
}

/// How many steps bring any fleet up in a cloud that holds nothing of it.
pub open spec fn init_steps() -> nat {
    21
}

/// The run and the cloud after `init`, in a cloud that held nothing of the
/// swarm: the run has finished with the network, the key pair and the
/// fleet, and the cloud holds them.
pub open spec fn init_ends(cloud: Cloud, sc: SwarmConfigView) -> (FleetRunView, TurnView, Cloud) {
    (
        swarming(
            SwarmPhase::Finished,
            network_after_init(cloud, sc),
            Some(key_after(with_network(cloud, sc), sc)),
            as_beez(with_key(cloud, sc).launched(sc.num_beez as nat, sc.tag_name)),
        ),
        TurnView::Finished,
        after_init(cloud, sc),
    )
}

/// `init` brings the fleet up. In a cloud that holds nothing of the swarm
/// but whatever the configuration supplies, the run ends within twenty-one
/// steps: it has made what was not supplied, one of each, and as many
/// instances as the configuration asks for.
pub proof fn lemma_init_brings_the_fleet_up(sc: SwarmConfigView, cloud: Cloud)
    requires
        ready_for(cloud, sc),
    ensures
        ({
            let (start, first) = FleetRunView::start(Goal::Init, sc);
            start.run_in(first, sc, cloud, init_steps()) == init_ends(cloud, sc)
        }),
        init_ends(cloud, sc).0.swarm(sc) matches Some(swarm) && swarm.instances.len()
            == sc.num_beez,
{
    let tag = sc.tag_name;
    let (start, first) = FleetRunView::start(Goal::Init, sc);
    let (c1, vpc_id) = taken_or_made(cloud, ResourceKind::Vpc, sc.vpc_id, tag);
    let (c2, subnet_id) = taken_or_made(c1, ResourceKind::Subnet, sc.subnet_id, tag);
    let (c3, group_id) = taken_or_made(c2, ResourceKind::SecurityGroup, sc.security_group_id, tag);
    let c4 = with_network(cloud, sc);
    let c5 = with_key(cloud, sc);
    let network = network_after_init(cloud, sc);
    let key_pair = key_after(c4, sc);
    let k1: nat = if sc.vpc_id is Some {
        1
    } else {
        2
    };
    let k2: nat = if sc.subnet_id is Some {
        1
    } else {
        3
    };
    let k3: nat = if sc.security_group_id is Some {
        1
    } else {
        4
    };
    let k5: nat = if sc.key_id is Some {
        1
    } else {
        2
    };
    let k6: nat = if sc.num_beez > 0 {
        4
    } else {
        2
    };
    assert(cloud.of_kind(ResourceKind::Vpc) == cloud.vpcs);
    assert(cloud.of_kind(ResourceKind::Subnet) == cloud.subnets);
    assert(cloud.of_kind(ResourceKind::SecurityGroup) == cloud.groups);
    lemma_vpc_stage(sc, cloud);
    lemma_subnet_stage(sc, c1, vpc_id);
    lemma_run_in_parts(start, first, sc, cloud, k1, k2);
    lemma_group_stage(sc, c2, vpc_id, subnet_id);
    lemma_run_in_parts(start, first, sc, cloud, k1 + k2, k3);
    lemma_gateway_stage(sc, c3, vpc_id, subnet_id, group_id);
    lemma_run_in_parts(start, first, sc, cloud, k1 + k2 + k3, 6);
    lemma_key_stage(sc, c4, network);
    lemma_run_in_parts(start, first, sc, cloud, k1 + k2 + k3 + 6, k5);
    lemma_fleet_stage(sc, c5, network, key_pair);
    lemma_run_in_parts(start, first, sc, cloud, k1 + k2 + k3 + 6 + k5, k6);
    let total = k1 + k2 + k3 + 6 + k5 + k6;
    lemma_run_in_parts(start, first, sc, cloud, total, (init_steps() - total) as nat);
    assert(as_beez(c5.launched(sc.num_beez as nat, tag)).len() == sc.num_beez);
}

/// Among instances of which the old ones that bear the tag are terminated
/// and the new ones bear it and run, the listing by the tag shows the new
/// ones as the running ones.
pub proof fn lemma_listing_shows_the_fleet(old: Seq<Machine>, fleet: Seq<Machine>, tag: Seq<char>)
    requires
        all_gone(old, tag),
        forall|j: int|
            0 <= j < fleet.len() ==> (#[trigger] fleet[j]).tag == tag && fleet[j].state
                == InstanceState::Running,
    ensures
        beez_in_state(
            seq![sought_machines(old + fleet, ResourceMatcherView::Tagged(tag))],
            InstanceState::Running,
        ) == as_beez(fleet),
{
    let matcher = ResourceMatcherView::Tagged(tag);
    let wanted = |m: Machine| is_sought_machine(m, matcher);
    let runs = |i: InstanceView| i.state == Some(InstanceState::Running);
    let gone = |m: Machine| m.state == InstanceState::Terminated;
    let described = |m: Machine| m.described();
    Seq::filter_distributes_over_add(old, fleet, wanted);
    lemma_all_found(fleet, wanted);
    lemma_found_keep(old, wanted, gone);
    let before = old.filter(wanted).map_values(described);
    let new = fleet.map_values(described);
    let shown = sought_machines(old + fleet, matcher);
    assert(shown =~= before + new);
    assert forall|k: int| 0 <= k < before.len() implies !runs(#[trigger] before[k]) by {
        assert(gone(old.filter(wanted)[k]));
    }
    assert forall|k: int| 0 <= k < new.len() implies runs(#[trigger] new[k]) by {
        assert(new[k] == fleet[k].described());
    }
    lemma_none_found(before, runs);
    lemma_all_found(new, runs);
    Seq::filter_distributes_over_add(before, new, runs);
    assert(before.filter(runs) + new.filter(runs) =~= new);
    lemma_one_description(shown, InstanceState::Running);
    assert(new.map_values(|i: InstanceView| i.bee()) =~= as_beez(fleet));
}

/// After a key pair was imported under a name that none bore, the listing
/// by the name finds that key pair alone.
pub proof fn lemma_listing_after_import(keys: Seq<Resource>, made: Resource)
    requires
        none_bears(keys, made.tag),
    ensures
        sought_keys(keys.push(made), SSHKeyMatcherView::Name(made.tag)) == seq![made.id],
{
    let by_name = |k: Resource| is_sought_key(k, SSHKeyMatcherView::Name(made.tag));
    lemma_none_found(keys, by_name);
    Seq::lemma_filter_push(keys, made, by_name);
    assert(keys.push(made).filter(by_name) =~= seq![made]);
    assert(seq![made].map_values(|k: Resource| k.id) =~= seq![made.id]);
}

/// What a run finds in the cloud that `init` has left behind.
pub open spec fn holds_the_fleet(after: Cloud, cloud: Cloud, sc: SwarmConfigView) -> bool {
    let tag = sc.tag_name;
    let network = network_after_init(cloud, sc);
    let (c1, vpc_id) = taken_or_made(cloud, ResourceKind::Vpc, sc.vpc_id, tag);
    let (c2, subnet_id) = taken_or_made(c1, ResourceKind::Subnet, sc.subnet_id, tag);
    let (c3, group_id) = taken_or_made(c2, ResourceKind::SecurityGroup, sc.security_group_id, tag);
    let gateway_id = c3.next_id();
    let key_pair = key_after(with_network(cloud, sc), sc);
    let fleet = with_key(cloud, sc).launched(sc.num_beez as nat, tag);
    let vpcs = sought(after.vpcs, ResourceMatcher::chosen(sc.vpc_id, tag));
    let subnets = sought(after.subnets, ResourceMatcher::chosen(sc.subnet_id, tag));
    let groups = sought(after.groups, ResourceMatcher::chosen(sc.security_group_id, tag));
    let keys = sought_keys(after.keys, SSHKeyMatcher::chosen(sc));
    &&& vpcs.len() > 0 && vpcs[0] == network.vpc_id
    &&& subnets.len() > 0 && subnets[0] == network.subnet_id
    &&& groups.len() > 0 && groups[0] == network.security_group_id
    &&& sc.vpc_id is None ==> vpcs == seq![vpc_id]
    &&& sc.subnet_id is None ==> subnets == seq![subnet_id]
    &&& sc.security_group_id is None ==> groups == seq![group_id]
    &&& sought(after.gateways, ResourceMatcherView::Tagged(tag)) == seq![gateway_id]
    &&& after.attachments.contains_key(gateway_id)
    &&& after.attachments[gateway_id] == network.vpc_id
    &&& keys.len() > 0 && keys[0] == key_pair
    &&& after.machines == with_key(cloud, sc).machines + (if sc.num_beez > 0 {
        fleet
    } else {
        Seq::<Machine>::empty()
    })
    &&& beez_in_state(
        seq![sought_machines(after.machines, ResourceMatcherView::Tagged(tag))],
        InstanceState::Running,
    ) == as_beez(fleet)
    &&& beez_in_state(
        seq![sought_machines(after.machines, ResourceMatcherView::Id(ids_of(as_beez(fleet))))],
        InstanceState::Running,
    ) == as_beez(fleet)
    &&& as_beez(fleet).len() == sc.num_beez
}

/// The cloud that `init` has left behind holds the fleet: a listing of each
/// kind finds what the run has gone on with, and the instances of the fleet
/// are the ones that run under the swarm's tag.
pub proof fn lemma_after_init_holds_the_fleet(sc: SwarmConfigView, cloud: Cloud)
    requires
        ready_for(cloud, sc),
    ensures
        holds_the_fleet(after_init(cloud, sc), cloud, sc),
{
    let tag = sc.tag_name;
    let after = after_init(cloud, sc);
    let (c1, vpc_id) = taken_or_made(cloud, ResourceKind::Vpc, sc.vpc_id, tag);
    let (c2, subnet_id) = taken_or_made(c1, ResourceKind::Subnet, sc.subnet_id, tag);
    let (c3, group_id) = taken_or_made(c2, ResourceKind::SecurityGroup, sc.security_group_id, tag);
    let c5 = with_key(cloud, sc);
    let fleet = c5.launched(sc.num_beez as nat, tag);
    assert(cloud.of_kind(ResourceKind::Vpc) == cloud.vpcs);
    assert(cloud.of_kind(ResourceKind::Subnet) == cloud.subnets);
    assert(cloud.of_kind(ResourceKind::SecurityGroup) == cloud.groups);
    lemma_listing(cloud.vpcs, sc.vpc_id, tag);
    lemma_listing(cloud.subnets, sc.subnet_id, tag);
    lemma_listing(cloud.groups, sc.security_group_id, tag);
    lemma_listing_after_create(cloud.vpcs, Resource { id: vpc_id, tag });
    lemma_listing_after_create(cloud.subnets, Resource { id: subnet_id, tag });
    lemma_listing_after_create(cloud.groups, Resource { id: group_id, tag });
    lemma_listing_after_create(cloud.gateways, Resource { id: c3.next_id(), tag });
    match sc.key_id {
        Some(id) => {
            let wanted = |k: Resource| is_sought_key(k, SSHKeyMatcher::chosen(sc));
            let at = choose|i: int| 0 <= i < cloud.keys.len() && (#[trigger] cloud.keys[i]).id == id;
            lemma_some_found(cloud.keys, wanted, at);
        },
        None => {
            lemma_listing_after_import(
                cloud.keys,
                Resource { id: with_network(cloud, sc).next_id(), tag },
            );
        },
    }
    assert(c5.machines == cloud.machines);
    if sc.num_beez > 0 {
        lemma_listing_shows_the_fleet(cloud.machines, fleet, tag);
        lemma_look_finds_the_launched(c5, fleet, InstanceState::Running);
    } else {
        assert(fleet =~= Seq::<Machine>::empty());
        assert(cloud.machines + fleet =~= cloud.machines);
        lemma_listing_shows_the_fleet(cloud.machines, fleet, tag);
        lemma_look_finds_the_launched(c5, fleet, InstanceState::Running);
    }
}

/// How many steps a run needs that finds everything in its place.
pub open spec fn look_steps() -> nat {
    8
}

/// Reconciliation is idempotent. A second `init`, in the cloud that a first
/// one has left behind, changes nothing: it ends within eight steps with
/// the same network, the same key pair and the same fleet, and the cloud is
/// the same as before.
pub proof fn lemma_init_again_changes_nothing(sc: SwarmConfigView, cloud: Cloud)
    requires
        ready_for(cloud, sc),
    ensures
        ({
            let (start, first) = FleetRunView::start(Goal::Init, sc);
            start.run_in(first, sc, after_init(cloud, sc), look_steps()) == init_ends(cloud, sc)
        }),
{
    reveal_with_fuel(FleetRunView::run_in, 9);
    lemma_after_init_holds_the_fleet(sc, cloud);
    let after = after_init(cloud, sc);
    let (s0, t0) = FleetRunView::start(Goal::Init, sc);
    let (s1, t1) = s0.step(sc, after.answer(t0->Call_0).1);
    let (s2, t2) = s1.step(sc, after.answer(t1->Call_0).1);
    let (s3, t3) = s2.step(sc, after.answer(t2->Call_0).1);
    let (s4, t4) = s3.step(sc, after.answer(t3->Call_0).1);
    assert(s4 is Swarm);
    let (s5, t5) = s4.step(sc, after.answer(t4->Call_0).1);
    let (s6, t6) = s5.step(sc, after.answer(t5->Call_0).1);
    assert(t6 == TurnView::Call(CloudRequestView::Pause { seconds: POLL_SECONDS as nat }));
    let (s7, t7) = s6.step(sc, after.answer(t6->Call_0).1);
    if sc.num_beez > 0 {
        let (s8, t8) = s7.step(sc, after.answer(t7->Call_0).1);
        assert(t8 is Finished);
    } else {
        assert(t7 is Finished);
    }
}

/// A run on the network and its turn, as a run on the fleet.
pub open spec fn on_network(step: (NetworkRunView, TurnView)) -> (FleetRunView, TurnView) {
    (FleetRunView::Network(step.0), step.1)
}

/// The instances with their state set to terminated.
pub open spec fn terminated(fleet: Seq<Machine>) -> Seq<Machine> {
    fleet.map_values(|m: Machine| Machine { state: InstanceState::Terminated, ..m })
}

/// The cloud without the key pairs of a name.
pub open spec fn without_key(cloud: Cloud, name: Seq<char>) -> Cloud {
    Cloud {
        keys: cloud.keys.filter(|k: Resource| !is_sought_key(k, SSHKeyMatcherView::Name(name))),
        ..cloud
    }
}

/// The cloud without the resources of a kind and an id.
pub open spec fn without(cloud: Cloud, kind: ResourceKind, id: Seq<char>) -> Cloud {
    cloud.with_kind(kind, cloud.of_kind(kind).filter(|r: Resource| r.id != id))
}

/// `drop` takes the swarm down: the fleet is terminated and waited for,
/// then the key pair is removed unless it was supplied. Then the run goes
/// on with the network.
pub proof fn lemma_drop_swarm_stage(
    sc: SwarmConfigView,
    cloud: Cloud,
    old: Seq<Machine>,
    fleet: Seq<Machine>,
)
    requires
        cloud.machines == old + fleet,
        all_gone(old, sc.tag_name),
        forall|j: int|
            0 <= j < fleet.len() ==> (#[trigger] fleet[j]).tag == sc.tag_name && fleet[j].state
                == InstanceState::Running,
        forall|i: int, j: int|
            0 <= i < old.len() && 0 <= j < fleet.len() ==> (#[trigger] old[i]).id != (
            #[trigger] fleet[j]).id,
    ensures
        ({
            let (start, first) = FleetRunView::start(Goal::Drop, sc);
            let steps: nat = (if fleet.len() > 0 {
                4nat
            } else {
                2nat
            }) + (if sc.key_id is Some {
                0nat
            } else {
                1nat
            });
            let down = Cloud { machines: old + terminated(fleet), ..cloud };
            let after = if sc.key_id is Some {
                down
            } else {
                without_key(down, sc.tag_name)
            };
            start.run_in(first, sc, cloud, steps) == (
                on_network(NetworkRunView::start(Goal::Drop, sc)).0,
                on_network(NetworkRunView::start(Goal::Drop, sc)).1,
                after,
            )
        }),
{
    reveal_with_fuel(FleetRunView::run_in, 6);
    let tag = sc.tag_name;
    let ids = ids_of(as_beez(fleet));
    lemma_listing_shows_the_fleet(old, fleet, tag);
    let gone = terminated(fleet);
    if fleet.len() > 0 {
        // What the cloud is after the fleet was terminated.
        let after = cloud.terminate(ids);
        assert(after.machines =~= old + gone) by {
            assert forall|k: int| 0 <= k < old.len() + fleet.len() implies after.machines[k] == (old
                + gone)[k] by {
                if k < old.len() {
                    if ids.contains(old[k].id) {
                        let j = choose|j: int| 0 <= j < ids.len() && ids[j] == old[k].id;
                        assert(ids[j] == fleet[j].id);
                    }
                } else {
                    let j = k - old.len();
                    assert(ids[j] == fleet[j].id);
                    assert(ids.contains(fleet[j].id));
                }
            }
        }
        assert(ids_of(as_beez(gone)) =~= ids);
        lemma_look_finds_the_launched(
            Cloud { machines: old, ..cloud },
            gone,
            InstanceState::Terminated,
        );
        assert(as_beez(gone).len() == as_beez(fleet).len());
    } else {
        assert(gone =~= fleet);
        assert(as_beez(fleet) =~= Seq::<BeeView>::empty());
    }
}

/// `drop` removes the gateway in four steps: it is found by the tag, looked
/// at, detached and deleted. Then the run goes on with the security group.
pub proof fn lemma_drop_gateway_stage(sc: SwarmConfigView, cloud: Cloud, gateway_id: Seq<char>)
    requires
        sought(cloud.gateways, ResourceMatcherView::Tagged(sc.tag_name)) == seq![gateway_id],
        cloud.attachments.contains_key(gateway_id),
    ensures
        ({
            let (start, first) = on_network(NetworkRunView::start(Goal::Drop, sc));
            let run = NetworkRunView {
                phase: NetworkPhase::DropDeleteGateway,
                gateway_id: Some(gateway_id),
                ..NetworkRunView::fresh(Goal::Drop)
            };
            let detached = Cloud { attachments: cloud.attachments.remove(gateway_id), ..cloud };
            start.run_in(first, sc, cloud, 4) == (
                on_network(run.drop_security_group(sc)).0,
                on_network(run.drop_security_group(sc)).1,
                without(detached, ResourceKind::InternetGateway, gateway_id),
            )
        }),
{
    reveal_with_fuel(FleetRunView::run_in, 5);
}

/// The phase in which a run that takes the network down deletes a kind of
/// resource.
pub open spec fn deleting(kind: ResourceKind) -> NetworkPhase {
    match kind {
        ResourceKind::Vpc => NetworkPhase::DropDeleteVpc,
        ResourceKind::Subnet => NetworkPhase::DropDeleteSubnet,
        ResourceKind::SecurityGroup => NetworkPhase::DropDeleteSecurityGroup,
        ResourceKind::InternetGateway => NetworkPhase::DropDeleteGateway,
    }
}

/// How a run that takes the network down begins with a kind of resource.
pub open spec fn dropping(run: NetworkRunView, sc: SwarmConfigView, kind: ResourceKind) -> (
    FleetRunView,
    TurnView,
) {
    on_network(
        match kind {
            ResourceKind::SecurityGroup => run.drop_security_group(sc),
            ResourceKind::Subnet => run.drop_subnet(sc),
            ResourceKind::Vpc => run.drop_vpc(sc),
            ResourceKind::InternetGateway => run.drop_internet_gateway(sc),
        },
    )
}

/// How a run that takes the network down goes on after a kind of resource.
pub open spec fn dropped(run: NetworkRunView, sc: SwarmConfigView, kind: ResourceKind) -> (
    FleetRunView,
    TurnView,
) {
    on_network(
        match kind {
            ResourceKind::SecurityGroup => run.drop_subnet(sc),
            ResourceKind::Subnet => run.drop_vpc(sc),
            ResourceKind::Vpc => run.finish(),
            ResourceKind::InternetGateway => run.drop_security_group(sc),
        },
    )
}

/// `drop` leaves a resource alone that the configuration supplies, and
/// removes in two steps the one that bears the tag: it is found and
/// deleted. Then the run goes on with the next kind.
pub proof fn lemma_drop_stage(
    sc: SwarmConfigView,
    cloud: Cloud,
    run: NetworkRunView,
    kind: ResourceKind,
    id: Seq<char>,
)
    requires
        run.goal == Goal::Drop,
        kind != ResourceKind::InternetGateway,
        crate::aws::network::supplied(sc, kind) is None ==> sought(
            cloud.of_kind(kind),
            ResourceMatcherView::Tagged(sc.tag_name),
        ) == seq![id],
    ensures
        ({
            let start = dropping(run, sc, kind);
            if crate::aws::network::supplied(sc, kind) is Some {
                start == dropped(run, sc, kind)
            } else {
                start.0.run_in(start.1, sc, cloud, 2) == (
                    dropped(NetworkRunView { phase: deleting(kind), ..run }, sc, kind).0,
                    dropped(NetworkRunView { phase: deleting(kind), ..run }, sc, kind).1,
                    without(cloud, kind, id),
                )
            }
        }),
{
    reveal_with_fuel(FleetRunView::run_in, 3);
}

/// What is left of some resources, one of which was made under the tag,
/// when those of its id are removed: nothing that bears the tag.
pub proof fn lemma_nothing_left(resources: Seq<Resource>, made: Resource)
    requires
        none_bears(resources, made.tag),
    ensures
        none_bears(resources.push(made).filter(|r: Resource| r.id != made.id), made.tag),
        none_bears(resources.filter(|r: Resource| r.id != made.id), made.tag),
{
    let others = |r: Resource| r.id != made.id;
    let untagged = |r: Resource| r.tag != made.tag;
    lemma_found_keep(resources.push(made), others, untagged);
    lemma_found_keep(resources, others, untagged);
}

/// How many steps take any fleet down.
pub open spec fn drop_steps() -> nat {
    15
}

/// `drop` leaves nothing behind. In the cloud that `init` has left behind,
/// `drop` ends within fifteen steps, and the cloud then holds nothing of
/// the swarm: no resource and no key pair bears the tag, and every instance
/// that bears it is terminated. Whatever the configuration supplied is
/// still there.
pub proof fn lemma_drop_leaves_nothing(sc: SwarmConfigView, cloud: Cloud)
    requires
        ready_for(cloud, sc),
    ensures
        ({
            let (start, first) = FleetRunView::start(Goal::Drop, sc);
            let (end, turn, left) = start.run_in(first, sc, after_init(cloud, sc), drop_steps());
            &&& turn is Finished
            &&& left.holds_nothing_of(sc.tag_name)
            &&& sc.vpc_id matches Some(id) ==> left.holds(ResourceKind::Vpc, id)
            &&& sc.subnet_id matches Some(id) ==> left.holds(ResourceKind::Subnet, id)
            &&& sc.security_group_id matches Some(id) ==> left.holds(
                ResourceKind::SecurityGroup,
                id,
            )
            &&& sc.key_id matches Some(id) ==> left.holds_key(id)
        }),
{
    let tag = sc.tag_name;
    lemma_after_init_holds_the_fleet(sc, cloud);
    let up = after_init(cloud, sc);
    let (c1, vpc_id) = taken_or_made(cloud, ResourceKind::Vpc, sc.vpc_id, tag);
    let (c2, subnet_id) = taken_or_made(c1, ResourceKind::Subnet, sc.subnet_id, tag);
    let (c3, group_id) = taken_or_made(c2, ResourceKind::SecurityGroup, sc.security_group_id, tag);
    let gateway_id = c3.next_id();
    let c5 = with_key(cloud, sc);
    let fleet = if sc.num_beez > 0 {
        c5.launched(sc.num_beez as nat, tag)
    } else {
        Seq::<Machine>::empty()
    };
    let (start, first) = FleetRunView::start(Goal::Drop, sc);

    // The swarm.
    let ka: nat = (if fleet.len() > 0 {
        4nat
    } else {
        2nat
    }) + (if sc.key_id is Some {
        0nat
    } else {
        1nat
    });
    lemma_drop_swarm_stage(sc, up, cloud.machines, fleet);
    let down = Cloud { machines: cloud.machines + terminated(fleet), ..up };
    let ca = if sc.key_id is Some {
        down
    } else {
        without_key(down, tag)
    };

    // The gateway.
    let (sb, tb) = on_network(NetworkRunView::start(Goal::Drop, sc));
    lemma_drop_gateway_stage(sc, ca, gateway_id);
    lemma_run_in_parts(start, first, sc, up, ka, 4);
    let rb = NetworkRunView {
        phase: NetworkPhase::DropDeleteGateway,
        gateway_id: Some(gateway_id),
        ..NetworkRunView::fresh(Goal::Drop)
    };
    let cb = without(
        Cloud { attachments: ca.attachments.remove(gateway_id), ..ca },
        ResourceKind::InternetGateway,
        gateway_id,
    );

    // The security group.
    let kc: nat = if sc.security_group_id is Some {
        0
    } else {
        2
    };
    lemma_drop_stage(sc, cb, rb, ResourceKind::SecurityGroup, group_id);
    lemma_run_in_parts(start, first, sc, up, ka + 4, kc);
    let rc = if sc.security_group_id is Some {
        rb
    } else {
        NetworkRunView { phase: NetworkPhase::DropDeleteSecurityGroup, ..rb }
    };
    let cc = if sc.security_group_id is Some {
        cb
    } else {
        without(cb, ResourceKind::SecurityGroup, group_id)
    };

    // The subnet.
    let kd: nat = if sc.subnet_id is Some {
        0
    } else {
        2
    };
    lemma_drop_stage(sc, cc, rc, ResourceKind::Subnet, subnet_id);
    lemma_run_in_parts(start, first, sc, up, ka + 4 + kc, kd);
    let rd = if sc.subnet_id is Some {
        rc
    } else {
        NetworkRunView { phase: NetworkPhase::DropDeleteSubnet, ..rc }
    };
    let cd = if sc.subnet_id is Some {
        cc
    } else {
        without(cc, ResourceKind::Subnet, subnet_id)
    };

    // The VPC.
    let ke: nat = if sc.vpc_id is Some {
        0
    } else {
        2
    };
    lemma_drop_stage(sc, cd, rd, ResourceKind::Vpc, vpc_id);
    lemma_run_in_parts(start, first, sc, up, ka + 4 + kc + kd, ke);
    let ce = if sc.vpc_id is Some {
        cd
    } else {
        without(cd, ResourceKind::Vpc, vpc_id)
    };
    let total = ka + 4 + kc + kd + ke;
    lemma_run_in_parts(start, first, sc, up, total, (drop_steps() - total) as nat);

    // What is left.
    lemma_nothing_left(cloud.vpcs, Resource { id: vpc_id, tag });
    lemma_nothing_left(cloud.subnets, Resource { id: subnet_id, tag });
    lemma_nothing_left(cloud.groups, Resource { id: group_id, tag });
    lemma_nothing_left(cloud.gateways, Resource { id: gateway_id, tag });
    let named = |k: Resource| !is_sought_key(k, SSHKeyMatcherView::Name(tag));
    lemma_found_keep(down.keys, named, named);
    assert(ce.holds_nothing_of(tag));
    if let Some(id) = sc.vpc_id {
        assert(ce.of_kind(ResourceKind::Vpc) == cloud.of_kind(ResourceKind::Vpc));
    }
    if let Some(id) = sc.subnet_id {
        assert(ce.of_kind(ResourceKind::Subnet) == cloud.of_kind(ResourceKind::Subnet));
    }
    if let Some(id) = sc.security_group_id {
        assert(ce.of_kind(ResourceKind::SecurityGroup) == cloud.of_kind(
            ResourceKind::SecurityGroup,
        ));
    }
    if let Some(id) = sc.key_id {
        assert(ce.keys == cloud.keys);
    }
}

/// Reconciliation converges and is idempotent. In a cloud that holds
/// nothing of the swarm but whatever the configuration supplies, `init`
/// brings the fleet up; a second `init` leaves the cloud exactly as the
/// first one has left it, with nothing made twice; and `drop` after that
/// leaves nothing of the swarm.
pub proof fn lemma_init_twice_then_drop(sc: SwarmConfigView, cloud: Cloud)
    requires
        ready_for(cloud, sc),
    ensures
        ({
            let (up, first_up) = FleetRunView::start(Goal::Init, sc);
            let (down, first_down) = FleetRunView::start(Goal::Drop, sc);
            let once = up.run_in(first_up, sc, cloud, init_steps());
            let twice = up.run_in(first_up, sc, once.2, init_steps());
            let gone = down.run_in(first_down, sc, twice.2, drop_steps());
            &&& once.1 is Finished
            &&& twice == once
            &&& gone.1 is Finished
            &&& gone.2.holds_nothing_of(sc.tag_name)
        }),
{
    let (up, first_up) = FleetRunView::start(Goal::Init, sc);
    lemma_init_brings_the_fleet_up(sc, cloud);
    lemma_init_again_changes_nothing(sc, cloud);
    lemma_run_in_parts(
        up,
        first_up,
        sc,
        after_init(cloud, sc),
        look_steps(),
        (init_steps() - look_steps()) as nat,
    );
    lemma_drop_leaves_nothing(sc, cloud);
}

} // verus!
