//! The commands of the controller: what each of them asks of the cloud and
//! of the pool of sessions, and in which order.

use crate::actions::plans::{
    parse_commands, plan_of, ParsedAction, ParsedActionView, PlanFault, PlanParseError,
};
use crate::aws::ec2::{
    beez_in_state, ids_of, BeeView, CloudRequestView, CloudResponse, CloudResponseView,
    InstanceState, ResourceKind, ResourceMatcher, ResourceMatcherView, SSHKeyMatcher,
    POLL_SECONDS,
};
use crate::aws::network::{Goal, NetworkRun, NetworkRunView, Turn, TurnView};
use crate::aws::scenarios::{Swarm, SwarmView};
use crate::aws::swarm::{SwarmRun, SwarmRunView};
use crate::config::{SwarmConfig, SwarmConfigView};
use crate::ssh::client::{AuthView, ClientStep};
use crate::ssh::io::IOConfig;
use crate::ssh::pools::{SSHConnectionView, SSHPool};
use vstd::prelude::*;

verus! {

/// The configuration file when the command line names none.
pub const DEFAULT_CONFIG: &'static str = "swarm.toml";

/// The plan file when the command line names none.
pub const DEFAULT_PLAN: &'static str = "swarm.plan";

/// One call on the pool. Every host works on it, with no more than the
/// pool's bound in flight, and the next call begins when every host has
/// ended this one.
#[derive(Debug, Clone, PartialEq, Eq)]
pub enum PoolCall {
    /// Run a command on every host.
    Execute { command: String },
    /// Send a local file to every host.
    Upload { source: String, destination: String },
    /// Get a remote file from every host.
    Download { source: String, destination: String },
    /// End the sessions: fetch what the hosts have kept.
    Finish,
}

/// A `PoolCall` as plain values: texts are sequences of characters.
pub enum PoolCallView {
    Execute { command: Seq<char> },
    Upload { source: Seq<char>, destination: Seq<char> },
    Download { source: Seq<char>, destination: Seq<char> },
    Finish,
}

impl DeepView for PoolCall {
    type V = PoolCallView;

    open spec fn deep_view(&self) -> PoolCallView {
        match self {
            PoolCall::Execute { command } => PoolCallView::Execute { command: command@ },
            PoolCall::Upload { source, destination } => PoolCallView::Upload {
                source: source@,
                destination: destination@,
            },
            PoolCall::Download { source, destination } => PoolCallView::Download {
                source: source@,
                destination: destination@,
            },
            PoolCall::Finish => PoolCallView::Finish,
        }
    }
}

impl View for PoolCall {
    type V = PoolCallView;

    open spec fn view(&self) -> PoolCallView {
        self.deep_view()
    }
}

/// The call that carries an action out. A file keeps its name on the other
/// side.
pub open spec fn call_of(action: ParsedActionView) -> PoolCallView {
    match action {
        ParsedActionView::Execute { command } => PoolCallView::Execute { command },
        ParsedActionView::Upload { source } => PoolCallView::Upload { source, destination: source },
        ParsedActionView::Download { source } => PoolCallView::Download {
            source,
            destination: source,
        },
    }
}

/// The calls that carry a plan out: one per action, in the order of the
/// plan, and the end of the sessions after the last.
pub open spec fn calls_of(actions: Seq<ParsedActionView>) -> Seq<PoolCallView> {
    actions.map_values(|a: ParsedActionView| call_of(a)).push(PoolCallView::Finish)
}

fn call_for(action: &ParsedAction) -> (call: PoolCall)
    ensures
        call@ == call_of(action@),
{
    match action {
        ParsedAction::Execute { command } => PoolCall::Execute { command: command.clone() },
        ParsedAction::Upload { source } => PoolCall::Upload {
            source: source.clone(),
            destination: source.clone(),
        },
        ParsedAction::Download { source } => PoolCall::Download {
            source: source.clone(),
            destination: source.clone(),
        },
    }
}

/// The calls of `exec`: the command on every host, then the end of the
/// sessions.
pub fn cmd_execute(command: &str) -> (calls: Vec<PoolCall>)
    ensures
        calls.deep_view() == seq![
            PoolCallView::Execute { command: command@ },
            PoolCallView::Finish,
        ],
{
    let mut calls: Vec<PoolCall> = Vec::new();
    calls.push(PoolCall::Execute { command: command.to_owned() });
    calls.push(PoolCall::Finish);
    assert(calls.deep_view() =~= seq![
        PoolCallView::Execute { command: command@ },
        PoolCallView::Finish,
    ]);
    calls
}

/// The call of `upload`: the file to every host, under its own name.
pub fn cmd_upload(source: &str) -> (calls: Vec<PoolCall>)
    ensures
        calls.deep_view() == seq![PoolCallView::Upload { source: source@, destination: source@ }],
{
    let mut calls: Vec<PoolCall> = Vec::new();
    calls.push(PoolCall::Upload { source: source.to_owned(), destination: source.to_owned() });
    assert(calls.deep_view() =~= seq![
        PoolCallView::Upload { source: source@, destination: source@ },
    ]);
    calls
}

/// The call of `download`: the file from every host, under its own name.
pub fn cmd_download(source: &str) -> (calls: Vec<PoolCall>)
    ensures
        calls.deep_view() == seq![PoolCallView::Download { source: source@, destination: source@ }],
{
    let mut calls: Vec<PoolCall> = Vec::new();
    calls.push(PoolCall::Download { source: source.to_owned(), destination: source.to_owned() });
    assert(calls.deep_view() =~= seq![
        PoolCallView::Download { source: source@, destination: source@ },
    ]);
    calls
}

/// The calls of `plan`, from the text of the plan file: one call per action
/// in the order of the plan, then the end of the sessions. A plan with a
/// fault gives no call at all.
pub fn cmd_plan(plan: &str) -> (calls: Result<Vec<PoolCall>, PlanParseError>)
    ensures
        match calls {
            Ok(calls) => plan_of(plan@) matches Ok(actions) && calls.deep_view() == calls_of(
                actions,
            ),
            Err(error) => plan_of(plan@) == Err::<Seq<ParsedActionView>, (int, PlanFault)>(
                (error.offset as int, error.fault),
            ),
        },
{
    let mut input: &str = plan;
    let actions = match parse_commands(&mut input) {
        Ok(actions) => actions,
        Err(error) => {
            return Err(error);
        },
    };
    let mut calls: Vec<PoolCall> = Vec::new();
    let mut i: usize = 0;
    while i < actions.len()
        invariant
            i <= actions.len(),
            calls.len() == i,
            forall|k: int| 0 <= k < i ==> (#[trigger] calls@[k])@ == call_of(actions@[k]@),
        decreases actions.len() - i,
    {
        calls.push(call_for(&actions[i]));
        i += 1;
    }
    calls.push(PoolCall::Finish);
    assert(calls.deep_view() =~= calls_of(actions.deep_view()));
    Ok(calls)
}

/// A run of the reconciler on the whole fleet: the network and the swarm,
/// one after the other.
#[derive(Debug, Clone, PartialEq, Eq)]
pub enum FleetRun {
    Network(NetworkRun),
    Swarm(SwarmRun),
}

/// A `FleetRun` as plain values: texts are sequences of characters.
pub enum FleetRunView {
    Network(NetworkRunView),
    Swarm(SwarmRunView),
}

impl View for FleetRun {
    type V = FleetRunView;

    open spec fn view(&self) -> FleetRunView {
        match self {
            FleetRun::Network(run) => FleetRunView::Network(run@),
            FleetRun::Swarm(run) => FleetRunView::Swarm(run@),
        }
    }
}

impl FleetRunView {
    /// Whether the part of the run that is going on is well formed.
    pub open spec fn wf(self) -> bool {
        match self {
            FleetRunView::Network(run) => run.wf(),
            FleetRunView::Swarm(run) => run.wf(),
        }
    }

    /// How a run on the fleet starts: the network comes first when the fleet
    /// is brought up or loaded, the swarm comes first when it is taken down.
    pub open spec fn start(goal: Goal, sc: SwarmConfigView) -> (FleetRunView, TurnView) {
        if goal == Goal::Drop {
            let (run, turn) = SwarmRunView::start(goal, sc, None);
            (FleetRunView::Swarm(run), turn)
        } else {
            let (run, turn) = NetworkRunView::start(goal, sc);
            (FleetRunView::Network(run), turn)
        }
    }

    /// One step of a run on the fleet: a step of the part that is going on.
    /// When the network stands, the run goes on with the swarm in it; when
    /// the swarm is down, the run goes on with taking the network down.
    pub open spec fn step(self, sc: SwarmConfigView, response: CloudResponseView) -> (
        FleetRunView,
        TurnView,
    ) {
        match self {
            FleetRunView::Network(run) => {
                let (next, turn) = run.step(sc, response);
                if turn is Finished && next.network() is Some {
                    let (swarm, first) = SwarmRunView::start(next.goal, sc, next.network());
                    (FleetRunView::Swarm(swarm), first)
                } else {
                    (FleetRunView::Network(next), turn)
                }
            },
            FleetRunView::Swarm(run) => {
                let (next, turn) = run.step(sc, response);
                if turn is Finished && next.goal == Goal::Drop {
                    let (network, first) = NetworkRunView::start(Goal::Drop, sc);
                    (FleetRunView::Network(network), first)
                } else {
                    (FleetRunView::Swarm(next), turn)
                }
            },
        }
    }

    /// The swarm that a finished run has found or brought up.
    pub open spec fn swarm(self, sc: SwarmConfigView) -> Option<SwarmView> {
        match self {
            FleetRunView::Swarm(run) => run.swarm(sc),
            FleetRunView::Network(_) => None,
        }
    }
}

impl FleetRun {
    /// Whether the run is well formed.
    pub open spec fn wf(&self) -> bool {
        self@.wf()
    }

    /// Starts a run on the fleet and names its first request.
    pub fn start(goal: Goal, sc: &SwarmConfig) -> (out: (FleetRun, Turn))
        ensures
            (out.0@, out.1@) == FleetRunView::start(goal, sc@),
            out.0.wf(),
    {
        match goal {
            Goal::Drop => {
                let (run, turn) = SwarmRun::start(goal, sc, None);
                (FleetRun::Swarm(run), turn)
            },
            _ => {
                let (run, turn) = NetworkRun::start(goal, sc);
                (FleetRun::Network(run), turn)
            },
        }
    }

    /// Steps the run with the answer to the request that it named last, and
    /// names the next one.
    pub fn step(self, sc: &SwarmConfig, response: &CloudResponse) -> (out: (FleetRun, Turn))
        requires
            self.wf(),
            sc@.num_beez >= 0,
        ensures
            (out.0@, out.1@) == self@.step(sc@, response@),
            out.0.wf(),
    {
        match self {
            FleetRun::Network(run) => {
                let (next, turn) = run.step(sc, response);
                let stands = match &turn {
                    Turn::Finished => next.network(),
                    _ => None,
                };
                match stands {
                    Some(network) => {
                        let (swarm, first) = SwarmRun::start(next.goal, sc, Some(network));
                        (FleetRun::Swarm(swarm), first)
                    },
                    None => (FleetRun::Network(next), turn),
                }
            },
            FleetRun::Swarm(run) => {
                let (next, turn) = run.step(sc, response);
                let down = match (&turn, next.goal) {
                    (Turn::Finished, Goal::Drop) => true,
                    _ => false,
                };
                if down {
                    let (network, first) = NetworkRun::start(Goal::Drop, sc);
                    (FleetRun::Network(network), first)
                } else {
                    (FleetRun::Swarm(next), turn)
                }
            },
        }
    }

    /// The swarm that a finished run has found or brought up.
    pub fn swarm(self, sc: &SwarmConfig) -> (swarm: Option<Swarm>)
        ensures
            swarm.deep_view() == self@.swarm(sc@),
    {
        match self {
            FleetRun::Swarm(run) => Swarm::of(run, sc),
            FleetRun::Network(_) => None,
        }
    }
}

impl FleetRunView {
    /// Where a run stands after so many steps at the most, when each of its
    /// requests is answered by `cloud`. A cloud that is a function of the
    /// request is one that does not change while the run goes on.
    pub open spec fn run(
        self,
        turn: TurnView,
        sc: SwarmConfigView,
        cloud: spec_fn(CloudRequestView) -> CloudResponseView,
        steps: nat,
    ) -> (FleetRunView, TurnView)
        decreases steps,
    {
        if steps == 0 {
            (self, turn)
        } else {
            match turn {
                TurnView::Call(request) => {
                    let (next, then) = self.step(sc, cloud(request));
                    next.run(then, sc, cloud, (steps - 1) as nat)
                },
                _ => (self, turn),
            }
        }
    }

    /// Whether a run asks only for what changes nothing, for so many steps
    /// at the most, when each of its requests is answered by `cloud`.
    pub open spec fn only_looks(
        self,
        turn: TurnView,
        sc: SwarmConfigView,
        cloud: spec_fn(CloudRequestView) -> CloudResponseView,
        steps: nat,
    ) -> bool
        decreases steps,
    {
        if steps == 0 {
            true
        } else {
            match turn {
                TurnView::Call(request) => {
                    let (next, then) = self.step(sc, cloud(request));
                    request.is_harmless() && next.only_looks(then, sc, cloud, (steps - 1) as nat)
                },
                _ => true,
            }
        }
    }
}

/// Whether a listing has found something.
pub open spec fn found_some(response: CloudResponseView) -> bool {
    response matches CloudResponseView::Found(ids) && ids.len() > 0
}

/// The instances that a description shows as running.
pub open spec fn shown_running(response: CloudResponseView) -> Seq<BeeView> {
    match response {
        CloudResponseView::Reservations(groups) => beez_in_state(groups, InstanceState::Running),
        _ => Seq::empty(),
    }
}

/// A cloud is settled for a configuration when it holds all that the
/// configuration declares: a resource of each kind of the network is found
/// as the reconciler looks for it, so is the key pair, and as many instances
/// of the swarm are running as the configuration asks for.
pub open spec fn settled(
    cloud: spec_fn(CloudRequestView) -> CloudResponseView,
    sc: SwarmConfigView,
) -> bool {
    let listing = cloud(
        CloudRequestView::DescribeInstances { matcher: ResourceMatcherView::Tagged(sc.tag_name) },
    );
    let look = cloud(
        CloudRequestView::DescribeInstances {
            matcher: ResourceMatcherView::Id(ids_of(shown_running(listing))),
        },
    );
    &&& found_some(
        cloud(
            CloudRequestView::Describe {
                kind: ResourceKind::Vpc,
                matcher: ResourceMatcher::chosen(sc.vpc_id, sc.tag_name),
            },
        ),
    )
    &&& found_some(
        cloud(
            CloudRequestView::Describe {
                kind: ResourceKind::Subnet,
                matcher: ResourceMatcher::chosen(sc.subnet_id, sc.tag_name),
            },
        ),
    )
    &&& found_some(
        cloud(
            CloudRequestView::Describe {
                kind: ResourceKind::SecurityGroup,
                matcher: ResourceMatcher::chosen(sc.security_group_id, sc.tag_name),
            },
        ),
    )
    &&& found_some(
        cloud(
            CloudRequestView::Describe {
                kind: ResourceKind::InternetGateway,
                matcher: ResourceMatcherView::Tagged(sc.tag_name),
            },
        ),
    )
    &&& found_some(cloud(CloudRequestView::DescribeKeyPairs { key: SSHKeyMatcher::chosen(sc) }))
    &&& listing is Reservations
    &&& shown_running(listing).len() == sc.num_beez
    &&& look is Reservations
    &&& shown_running(look).len() == sc.num_beez
    &&& cloud(CloudRequestView::Pause { seconds: POLL_SECONDS as nat }) == CloudResponseView::Done
}

/// Reconciliation is idempotent. In a cloud that is settled for the
/// configuration, as a cloud is in which `init` has run to its end, `init`
/// creates nothing and removes nothing: it looks, eight times at the most,
/// and ends with the swarm that it has found.
pub proof fn lemma_init_changes_nothing_when_settled(
    sc: SwarmConfigView,
    cloud: spec_fn(CloudRequestView) -> CloudResponseView,
)
    requires
        sc.num_beez >= 0,
        settled(cloud, sc),
    ensures
        ({
            let (start, first) = FleetRunView::start(Goal::Init, sc);
            let (end, turn) = start.run(first, sc, cloud, 8);
            &&& turn is Finished
            &&& start.only_looks(first, sc, cloud, 8)
            &&& end.swarm(sc) matches Some(swarm)
            &&& swarm.instances.len() == sc.num_beez
            &&& Some(swarm.network.vpc_id) == first_found(
                cloud(
                    CloudRequestView::Describe {
                        kind: ResourceKind::Vpc,
                        matcher: ResourceMatcher::chosen(sc.vpc_id, sc.tag_name),
                    },
                ),
            )
        }),
{
    reveal_with_fuel(FleetRunView::run, 9);
    reveal_with_fuel(FleetRunView::only_looks, 9);
    let tag = ResourceMatcherView::Tagged(sc.tag_name);
    let (s0, t0) = FleetRunView::start(Goal::Init, sc);
    let (s1, t1) = s0.step(sc, cloud(t0->Call_0));
    let (s2, t2) = s1.step(sc, cloud(t1->Call_0));
    let (s3, t3) = s2.step(sc, cloud(t2->Call_0));
    let (s4, t4) = s3.step(sc, cloud(t3->Call_0));
    assert(s4 is Swarm);
    let (s5, t5) = s4.step(sc, cloud(t4->Call_0));
    let (s6, t6) = s5.step(sc, cloud(t5->Call_0));
    assert(t6 == TurnView::Call(CloudRequestView::Pause { seconds: POLL_SECONDS as nat }));
    let (s7, t7) = s6.step(sc, cloud(t6->Call_0));
    if sc.num_beez > 0 {
        let (s8, t8) = s7.step(sc, cloud(t7->Call_0));
        assert(t8 is Finished);
    } else {
        assert(t7 is Finished);
    }
}

/// The first id that a listing has found.
pub open spec fn first_found(response: CloudResponseView) -> Option<Seq<char>> {
    match response {
        CloudResponseView::Found(ids) => if ids.len() > 0 {
            Some(ids[0])
        } else {
            None
        },
        _ => None,
    }
}

/// Starts `init`: whatever is missing of the network is created, then the
/// key pair, then the instances.
pub fn cmd_init(sc: &SwarmConfig) -> (out: (FleetRun, Turn))
    ensures
        (out.0@, out.1@) == FleetRunView::start(Goal::Init, sc@),
        out.0.wf(),
{
    FleetRun::start(Goal::Init, sc)
}

/// Starts `terminate`: the swarm is taken down, then the network.
pub fn cmd_terminate(sc: &SwarmConfig) -> (out: (FleetRun, Turn))
    ensures
        (out.0@, out.1@) == FleetRunView::start(Goal::Drop, sc@),
        out.0.wf(),
{
    FleetRun::start(Goal::Drop, sc)
}

/// Whether a pool can be made for a swarm: the configuration names the user
/// and a public key file whose private key can be derived, and every
/// instance has a public address.
pub open spec fn can_pool(sc: SwarmConfigView, swarm: SwarmView) -> bool {
    &&& sc.username is Some
    &&& sc.public_key_file is Some
    &&& sc.key_file_is_public()
    &&& swarm.ready()
}

/// Tells whether a pool can be made for a swarm.
pub fn pool_is_possible(sc: &SwarmConfig, swarm: &Swarm) -> (yes: bool)
    ensures
        yes == can_pool(sc@, swarm@),
{
    sc.username.is_some() && sc.public_key_file.is_some() && sc.key_file_is_public()
        && swarm.is_ready()
}

/// Prepares the pool of the sessions of a swarm: one session per instance,
/// in the order of the instances, to its public address, as the configured
/// user with the private key of the configuration, and with the output kept
/// as the flags of the command line ask. Each session comes with the first
/// step of its handshake.
pub fn load_ssh_pool(sc: &SwarmConfig, swarm: &Swarm, datadir: &str, verbose: bool, remote: bool)
    -> (out: (SSHPool, Vec<ClientStep>))
    requires
        can_pool(sc@, swarm@),
    ensures
        out.0.conns.len() == swarm@.instances.len(),
        out.1.len() == swarm@.instances.len(),
        out.0.io_config@ == IOConfig::chosen(datadir@, verbose, remote),
        forall|i: int|
            0 <= i < swarm@.instances.len() ==> (#[trigger] out.0.conns.deep_view()[i])
                == SSHConnectionView::open(
                swarm@.hosts()[i],
                sc@.username->0,
                AuthView::KeyFile(sc@.private_key_file()->0, None),
                IOConfig::chosen(datadir@, verbose, remote),
            ).0,
        forall|i: int|
            0 <= i < swarm@.instances.len() ==> (#[trigger] out.1@[i])@ == SSHConnectionView::open(
                swarm@.hosts()[i],
                sc@.username->0,
                AuthView::KeyFile(sc@.private_key_file()->0, None),
                IOConfig::chosen(datadir@, verbose, remote),
            ).1,
{
    let hosts = swarm.hosts();
    assert(hosts.len() == hosts.deep_view().len());
    assert(swarm@.hosts().len() == swarm@.instances.len());
    let auth = SSHPool::load_key(sc);
    let io_config = IOConfig::select(datadir, verbose, remote);
    let username = sc.username.as_ref().unwrap();
    let out = SSHPool::new(&hosts, username.as_str(), auth.as_ref().unwrap(), io_config);
    proof {
        assert forall|i: int| 0 <= i < swarm@.instances.len() implies hosts@[i]@
            == swarm@.hosts()[i] by {
            assert(hosts.deep_view()[i] == hosts@[i]@);
        }
    }
    out
}

} // verus!
