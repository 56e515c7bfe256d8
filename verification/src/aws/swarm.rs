//! Runs of the reconciler on the swarm: its key pair and its instances.
//!
//! A run on the swarm is stepped like a run on the network. It brings the
//! number of running instances to the number that the configuration asks
//! for, and waits until every one of them has got there.

use crate::aws::ec2::{
    beez_in_state, copy_beez, ids_of, Bee, BeeMatcher, BeeView, CloudRequest, CloudRequestView,
    CloudResponse, CloudResponseView, Instance, InstanceState, InstanceView, Instances,
    ResourceMatcherView, SSHKey, SSHKeyMatcher, SSHKeyMatcherView, POLL_SECONDS,
};
use crate::aws::errors::{Ec2Error, Operation};
use crate::aws::network::{Goal, Turn, TurnView, RUN_HAS_FAILED, STRAY_ANSWER};
use crate::aws::scenarios::{AWSNetwork, AWSNetworkView};
use crate::config::{SwarmConfig, SwarmConfigView};
use vstd::prelude::*;

verus! {

/// Said when a swarm that should exist has no key pair.
pub const NO_KEY_PAIR: &'static str = "no key pair found";

/// Said when a key pair is to be imported and no public key file is configured.
pub const NO_KEY_FILE: &'static str = "no public key file to import";

/// Said when a launch brought no instance.
pub const NONE_LAUNCHED: &'static str = "no instances created";

/// The request in flight of a run on the swarm, or how the run ended.
#[derive(Debug, Clone, Copy, PartialEq, Eq, Structural)]
pub enum SwarmPhase {
    FindKeyPair,
    ImportKeyPair,
    /// The running instances that bear the swarm's tag are being listed.
    ListInstances,
    Launch,
    Terminate,
    /// Time passes before the next look at the awaited instances.
    Pause,
    /// The awaited instances are being described.
    Look,
    DeleteKeyPair,
    Finished,
    Failed,
}

impl SwarmPhase {
    /// The operation that a failed answer in this phase is charged to.
    pub open spec fn blame(self) -> Operation {
        match self {
            SwarmPhase::FindKeyPair => Operation::DescribeSSHKey,
            SwarmPhase::ImportKeyPair => Operation::ImportSSHKey,
            SwarmPhase::ListInstances => Operation::DescribeInstances,
            SwarmPhase::Launch => Operation::CreateInstances,
            SwarmPhase::Terminate => Operation::TerminateInstances,
            SwarmPhase::Look => Operation::DescribeInstances,
            SwarmPhase::DeleteKeyPair => Operation::DeleteSSHKey,
            SwarmPhase::Pause => Operation::Unexpected,
            SwarmPhase::Finished => Operation::Unexpected,
            SwarmPhase::Failed => Operation::Unexpected,
        }
    }

    /// The operation that a failed answer in this phase is charged to.
    pub fn charged(self) -> (operation: Operation)
        ensures
            operation == self.blame(),
    {
        match self {
            SwarmPhase::FindKeyPair => Operation::DescribeSSHKey,
            SwarmPhase::ImportKeyPair => Operation::ImportSSHKey,
            SwarmPhase::ListInstances => Operation::DescribeInstances,
            SwarmPhase::Launch => Operation::CreateInstances,
            SwarmPhase::Terminate => Operation::TerminateInstances,
            SwarmPhase::Look => Operation::DescribeInstances,
            SwarmPhase::DeleteKeyPair => Operation::DeleteSSHKey,
            SwarmPhase::Pause => Operation::Unexpected,
            SwarmPhase::Finished => Operation::Unexpected,
            SwarmPhase::Failed => Operation::Unexpected,
        }
    }

    /// Whether the run is over.
    pub open spec fn is_over(self) -> bool {
        self == SwarmPhase::Finished || self == SwarmPhase::Failed
    }
}

/// A run of the reconciler on the swarm.
#[derive(Debug, Clone, PartialEq, Eq)]
pub struct SwarmRun {
    pub goal: Goal,
    pub phase: SwarmPhase,
    /// The network that instances are launched into.
    pub network: Option<AWSNetwork>,
    /// The swarm's key pair, once it is known.
    pub key_pair: Option<String>,
    /// The instances that the run has settled on so far: those it keeps, and
    /// those it waits for.
    pub beez: Vec<Bee>,
}

/// A `SwarmRun` as plain values: texts are sequences of characters.
pub struct SwarmRunView {
    pub goal: Goal,
    pub phase: SwarmPhase,
    pub network: Option<AWSNetworkView>,
    pub key_pair: Option<Seq<char>>,
    pub beez: Seq<BeeView>,
}

impl View for SwarmRun {
    type V = SwarmRunView;

    open spec fn view(&self) -> SwarmRunView {
        SwarmRunView {
            goal: self.goal,
            phase: self.phase,
            network: self.network.deep_view(),
            key_pair: self.key_pair.deep_view(),
            beez: self.beez.deep_view(),
        }
    }
}

/// The state that a run waits for its instances to reach: a run that takes
/// the swarm down waits for their end, every other for their running.
pub open spec fn awaited_state(goal: Goal) -> InstanceState {
    if goal == Goal::Drop {
        InstanceState::Terminated
    } else {
        InstanceState::Running
    }
}

impl SwarmRunView {
    /// A run is well formed when its phase fits its goal, it has a network
    /// unless it takes the swarm down, and it knows the key pair from the
    /// listing of the instances on.
    pub open spec fn wf(self) -> bool {
        &&& self.goal != Goal::Drop ==> self.network is Some
        &&& self.goal == Goal::Load ==> self.phase == SwarmPhase::FindKeyPair || self.phase
            == SwarmPhase::ListInstances || self.phase.is_over()
        &&& self.goal == Goal::Drop ==> self.phase != SwarmPhase::FindKeyPair && self.phase
            != SwarmPhase::ImportKeyPair && self.phase != SwarmPhase::Launch
        &&& self.goal == Goal::Init ==> self.phase != SwarmPhase::DeleteKeyPair
        &&& self.goal != Goal::Drop && self.phase != SwarmPhase::FindKeyPair && self.phase
            != SwarmPhase::ImportKeyPair && self.phase != SwarmPhase::Failed
            ==> self.key_pair is Some
    }

    /// The run as it starts.
    pub open spec fn fresh(goal: Goal, network: Option<AWSNetworkView>) -> SwarmRunView {
        SwarmRunView {
            goal,
            phase: SwarmPhase::FindKeyPair,
            network,
            key_pair: None,
            beez: Seq::empty(),
        }
    }

    /// The run goes on with `request` in flight.
    pub open spec fn call(self, phase: SwarmPhase, request: CloudRequestView) -> (
        SwarmRunView,
        TurnView,
    ) {
        (SwarmRunView { phase, ..self }, TurnView::Call(request))
    }

    /// The run ends in failure.
    pub open spec fn fail(self, operation: Operation, detail: Seq<char>) -> (
        SwarmRunView,
        TurnView,
    ) {
        (SwarmRunView { phase: SwarmPhase::Failed, ..self }, TurnView::Failed((operation, detail)))
    }

    /// The run ends at its goal.
    pub open spec fn finish(self) -> (SwarmRunView, TurnView) {
        (SwarmRunView { phase: SwarmPhase::Finished, ..self }, TurnView::Finished)
    }

    /// Looks for the key pair: by the configured id, else by the swarm's tag
    /// as its name.
    pub open spec fn load_key_pair(self, sc: SwarmConfigView) -> (SwarmRunView, TurnView) {
        self.call(
            SwarmPhase::FindKeyPair,
            CloudRequestView::DescribeKeyPairs { key: SSHKeyMatcher::chosen(sc) },
        )
    }

    /// Lists the instances that bear the swarm's tag.
    pub open spec fn list_instances(self, sc: SwarmConfigView) -> (SwarmRunView, TurnView) {
        self.call(
            SwarmPhase::ListInstances,
            CloudRequestView::DescribeInstances {
                matcher: ResourceMatcherView::Tagged(sc.tag_name),
            },
        )
    }

    /// Lets time pass before the next look at the awaited instances.
    pub open spec fn pause(self) -> (SwarmRunView, TurnView) {
        self.call(SwarmPhase::Pause, CloudRequestView::Pause { seconds: POLL_SECONDS as nat })
    }

    /// Removes the key pair by its name, unless the configuration supplied it.
    pub open spec fn drop_key_pair(self, sc: SwarmConfigView) -> (SwarmRunView, TurnView) {
        if sc.key_id is Some {
            self.finish()
        } else {
            self.call(
                SwarmPhase::DeleteKeyPair,
                CloudRequestView::DeleteKeyPair { key: SSHKeyMatcherView::Name(sc.tag_name) },
            )
        }
    }

    /// What follows a wait: a run that takes the swarm down goes on to the
    /// key pair, every other is finished.
    pub open spec fn arrive(self, sc: SwarmConfigView) -> (SwarmRunView, TurnView) {
        if self.goal == Goal::Drop {
            self.drop_key_pair(sc)
        } else {
            self.finish()
        }
    }

    /// How a run starts: bringing up and loading begin with the key pair,
    /// taking down begins with the instances.
    pub open spec fn start(goal: Goal, sc: SwarmConfigView, network: Option<AWSNetworkView>) -> (
        SwarmRunView,
        TurnView,
    ) {
        if goal == Goal::Drop {
            Self::fresh(goal, network).list_instances(sc)
        } else {
            Self::fresh(goal, network).load_key_pair(sc)
        }
    }

    /// The step after the key pairs have been listed: the first one found is
    /// the swarm's. Where none is found, a run that brings the swarm up
    /// imports the configured public key file.
    pub open spec fn init_key_pair(self, sc: SwarmConfigView, ids: Seq<Seq<char>>) -> (
        SwarmRunView,
        TurnView,
    ) {
        if ids.len() > 0 {
            SwarmRunView { key_pair: Some(ids[0]), ..self }.list_instances(sc)
        } else if self.goal == Goal::Init {
            match SSHKey::import_request(sc) {
                Some(request) => self.call(SwarmPhase::ImportKeyPair, request),
                None => self.fail(Operation::ImportSSHKey, NO_KEY_FILE@),
            }
        } else {
            self.fail(Operation::Unexpected, NO_KEY_PAIR@)
        }
    }

    /// The step after the running instances have been listed.
    ///
    /// A run that brings the swarm up launches what is missing, or terminates
    /// the first instances of the listing that are too many, and then waits
    /// for whatever is to stay. A run that loads takes what it finds. A run
    /// that takes the swarm down terminates all of them.
    pub open spec fn run_instances(self, sc: SwarmConfigView, running: Seq<BeeView>) -> (
        SwarmRunView,
        TurnView,
    ) {
        match self.goal {
            Goal::Init => if running.len() < sc.num_beez {
                SwarmRunView { beez: running, ..self }.call(
                    SwarmPhase::Launch,
                    Instances::launch(
                        sc,
                        self.network->0.subnet_id,
                        self.network->0.security_group_id,
                        sc.num_beez - running.len(),
                    ),
                )
            } else if running.len() > sc.num_beez {
                let excess = running.len() - sc.num_beez;
                SwarmRunView { beez: running.skip(excess), ..self }.call(
                    SwarmPhase::Terminate,
                    CloudRequestView::TerminateInstances {
                        instance_ids: ids_of(running.take(excess)),
                    },
                )
            } else {
                SwarmRunView { beez: running, ..self }.pause()
            },
            Goal::Load => SwarmRunView { beez: running, ..self }.finish(),
            Goal::Drop => if running.len() > 0 {
                SwarmRunView { beez: running, ..self }.call(
                    SwarmPhase::Terminate,
                    CloudRequestView::TerminateInstances { instance_ids: ids_of(running) },
                )
            } else {
                SwarmRunView { beez: running, ..self }.pause()
            },
        }
    }

    /// The step after a look at the awaited instances: the wait is over when
    /// as many of them are in the awaited state as are waited for.
    pub open spec fn wait(self, sc: SwarmConfigView, groups: Seq<Seq<InstanceView>>) -> (
        SwarmRunView,
        TurnView,
    ) {
        let seen = beez_in_state(groups, awaited_state(self.goal));
        if seen.len() == self.beez.len() {
            SwarmRunView { beez: seen, ..self }.arrive(sc)
        } else {
            self.pause()
        }
    }

    /// The step after instances have been described.
    pub open spec fn after_described(self, sc: SwarmConfigView, groups: Seq<Seq<InstanceView>>)
        -> (SwarmRunView, TurnView) {
        match self.phase {
            SwarmPhase::ListInstances => self.run_instances(
                sc,
                beez_in_state(groups, InstanceState::Running),
            ),
            SwarmPhase::Look => self.wait(sc, groups),
            _ => self.fail(Operation::Unexpected, STRAY_ANSWER@),
        }
    }

    /// The step after a request that has nothing to tell was carried out.
    pub open spec fn after_done(self, sc: SwarmConfigView) -> (SwarmRunView, TurnView) {
        match self.phase {
            SwarmPhase::Terminate => self.pause(),
            SwarmPhase::Pause => if self.beez.len() == 0 {
                self.arrive(sc)
            } else {
                self.call(
                    SwarmPhase::Look,
                    CloudRequestView::DescribeInstances {
                        matcher: ResourceMatcherView::Id(ids_of(self.beez)),
                    },
                )
            },
            SwarmPhase::DeleteKeyPair => self.finish(),
            _ => self.fail(Operation::Unexpected, STRAY_ANSWER@),
        }
    }

    /// One step of a run: the answer to the request in flight decides the
    /// next request. A failed request ends the run, charged to the operation
    /// of its phase; but a look that fails is only a reason to wait and look
    /// again. A run that is over stays as it is.
    pub open spec fn step(self, sc: SwarmConfigView, response: CloudResponseView) -> (
        SwarmRunView,
        TurnView,
    ) {
        match self.phase {
            SwarmPhase::Finished => (self, TurnView::Finished),
            SwarmPhase::Failed => (
                self,
                TurnView::Failed((Operation::Unexpected, RUN_HAS_FAILED@)),
            ),
            _ => match response {
                CloudResponseView::Failed(detail) => if self.phase == SwarmPhase::Look {
                    self.pause()
                } else {
                    self.fail(self.phase.blame(), detail)
                },
                CloudResponseView::Found(ids) => if self.phase == SwarmPhase::FindKeyPair {
                    self.init_key_pair(sc, ids)
                } else {
                    self.fail(Operation::Unexpected, STRAY_ANSWER@)
                },
                CloudResponseView::Created(id) => if self.phase == SwarmPhase::ImportKeyPair {
                    SwarmRunView { key_pair: Some(id), ..self }.list_instances(sc)
                } else {
                    self.fail(Operation::Unexpected, STRAY_ANSWER@)
                },
                CloudResponseView::Reservations(groups) => self.after_described(sc, groups),
                CloudResponseView::Launched(fresh) => if self.phase == SwarmPhase::Launch {
                    if fresh.len() == 0 {
                        self.fail(Operation::CreateInstances, NONE_LAUNCHED@)
                    } else {
                        SwarmRunView { beez: self.beez + fresh, ..self }.pause()
                    }
                } else {
                    self.fail(Operation::Unexpected, STRAY_ANSWER@)
                },
                CloudResponseView::Done => self.after_done(sc),
            },
        }
    }
}

/// The bees of `first`, then those of `second`.
fn both(first: Vec<Bee>, second: &Vec<Bee>) -> (all: Vec<Bee>)
    ensures
        all.deep_view() == first.deep_view() + second.deep_view(),
{
    let mut all = first;
    let ghost start = all.deep_view();
    let mut i: usize = 0;
    while i < second.len()
        invariant
            i <= second.len(),
            all.deep_view() == start + second.deep_view().take(i as int),
        decreases second.len() - i,
    {
        let ghost before = all.deep_view();
        all.push(second[i].duplicate());
        proof {
            assert(all.deep_view() =~= before.push(second@[i as int]@));
            assert(second.deep_view().take(i + 1) =~= second.deep_view().take(i as int).push(
                second@[i as int]@,
            ));
        }
        i += 1;
    }
    proof {
        assert(second.deep_view().take(second.len() as int) =~= second.deep_view());
    }
    all
}

impl SwarmRun {
    /// Whether the run is well formed.
    pub open spec fn wf(&self) -> bool {
        self@.wf()
    }

    fn call(self, phase: SwarmPhase, request: CloudRequest) -> (out: (SwarmRun, Turn))
        ensures
            (out.0@, out.1@) == self@.call(phase, request@),
    {
        (SwarmRun { phase, ..self }, Turn::Call(request))
    }

    fn fail(self, operation: Operation, detail: String) -> (out: (SwarmRun, Turn))
        ensures
            (out.0@, out.1@) == self@.fail(operation, detail@),
    {
        (
            SwarmRun { phase: SwarmPhase::Failed, ..self },
            Turn::Failed(Ec2Error::new(operation, detail)),
        )
    }

    fn stray(self) -> (out: (SwarmRun, Turn))
        ensures
            (out.0@, out.1@) == self@.fail(Operation::Unexpected, STRAY_ANSWER@),
    {
        self.fail(Operation::Unexpected, STRAY_ANSWER.to_owned())
    }

    fn finish(self) -> (out: (SwarmRun, Turn))
        ensures
            (out.0@, out.1@) == self@.finish(),
    {
        (SwarmRun { phase: SwarmPhase::Finished, ..self }, Turn::Finished)
    }

    fn load_key_pair(self, sc: &SwarmConfig) -> (out: (SwarmRun, Turn))
        ensures
            (out.0@, out.1@) == self@.load_key_pair(sc@),
    {
        self.call(SwarmPhase::FindKeyPair, SSHKey::describe(SSHKeyMatcher::select(sc)))
    }

    fn list_instances(self, sc: &SwarmConfig) -> (out: (SwarmRun, Turn))
        ensures
            (out.0@, out.1@) == self@.list_instances(sc@),
    {
        let matcher = BeeMatcher::Tagged(sc.tag_name.clone());
        let request = Instances::describe(&matcher).unwrap();
        self.call(SwarmPhase::ListInstances, request)
    }

    fn pause(self) -> (out: (SwarmRun, Turn))
        ensures
            (out.0@, out.1@) == self@.pause(),
    {
        self.call(SwarmPhase::Pause, CloudRequest::Pause { seconds: POLL_SECONDS })
    }

    fn drop_key_pair(self, sc: &SwarmConfig) -> (out: (SwarmRun, Turn))
        ensures
            (out.0@, out.1@) == self@.drop_key_pair(sc@),
    {
        if sc.key_id.is_some() {
            self.finish()
        } else {
            let request = SSHKey::delete(SSHKeyMatcher::Name(sc.tag_name.clone()));
            self.call(SwarmPhase::DeleteKeyPair, request)
        }
    }

    fn arrive(self, sc: &SwarmConfig) -> (out: (SwarmRun, Turn))
        ensures
            (out.0@, out.1@) == self@.arrive(sc@),
    {
        match self.goal {
            Goal::Drop => self.drop_key_pair(sc),
            _ => self.finish(),
        }
    }

    /// Starts a run and names its first request. A run that brings the swarm
    /// up or loads it needs the network that the swarm lives in.
    pub fn start(goal: Goal, sc: &SwarmConfig, network: Option<AWSNetwork>) -> (out: (
        SwarmRun,
        Turn,
    ))
        requires
            goal != Goal::Drop ==> network is Some,
        ensures
            (out.0@, out.1@) == SwarmRunView::start(goal, sc@, network.deep_view()),
            out.0.wf(),
    {
        let fresh = SwarmRun {
            goal,
            phase: SwarmPhase::FindKeyPair,
            network,
            key_pair: None,
            beez: Vec::new(),
        };
        assert(fresh.beez.deep_view() =~= Seq::<BeeView>::empty());
        match goal {
            Goal::Drop => fresh.list_instances(sc),
            _ => fresh.load_key_pair(sc),
        }
    }

    fn init_key_pair(self, sc: &SwarmConfig, ids: &Vec<String>) -> (out: (SwarmRun, Turn))
        ensures
            (out.0@, out.1@) == self@.init_key_pair(sc@, ids.deep_view()),
    {
        if ids.len() > 0 {
            SwarmRun { key_pair: Some(ids[0].clone()), ..self }.list_instances(sc)
        } else {
            match self.goal {
                Goal::Init => match SSHKey::import(sc) {
                    Some(request) => self.call(SwarmPhase::ImportKeyPair, request),
                    None => self.fail(Operation::ImportSSHKey, NO_KEY_FILE.to_owned()),
                },
                _ => self.fail(Operation::Unexpected, NO_KEY_PAIR.to_owned()),
            }
        }
    }

    fn run_instances(self, sc: &SwarmConfig, running: Vec<Bee>) -> (out: (SwarmRun, Turn))
        requires
            self.wf(),
            sc@.num_beez >= 0,
        ensures
            (out.0@, out.1@) == self@.run_instances(sc@, running.deep_view()),
    {
        match self.goal {
            Goal::Init => {
                let target: usize = sc.num_beez as usize;
                if running.len() < target {
                    let missing: i32 = (target - running.len()) as i32;
                    let request = Instances::create(
                        sc,
                        self.network.as_ref().unwrap(),
                        Some(missing),
                    );
                    SwarmRun { beez: running, ..self }.call(SwarmPhase::Launch, request)
                } else if running.len() > target {
                    let excess: usize = running.len() - target;
                    let doomed = copy_beez(&running, 0, excess);
                    let kept = copy_beez(&running, excess, running.len());
                    let request = Instances::delete(&doomed).unwrap();
                    proof {
                        assert(running.deep_view().take(excess as int) =~= running.deep_view().subrange(
                            0,
                            excess as int,
                        ));
                        assert(running.deep_view().skip(excess as int)
                            =~= running.deep_view().subrange(excess as int, running.len() as int));
                    }
                    SwarmRun { beez: kept, ..self }.call(SwarmPhase::Terminate, request)
                } else {
                    SwarmRun { beez: running, ..self }.pause()
                }
            },
            Goal::Load => SwarmRun { beez: running, ..self }.finish(),
            Goal::Drop => match Instances::delete(&running) {
                Some(request) => SwarmRun { beez: running, ..self }.call(
                    SwarmPhase::Terminate,
                    request,
                ),
                None => SwarmRun { beez: running, ..self }.pause(),
            },
        }
    }

    fn wait(self, sc: &SwarmConfig, groups: &Vec<Vec<Instance>>) -> (out: (SwarmRun, Turn))
        ensures
            (out.0@, out.1@) == self@.wait(sc@, groups.deep_view()),
    {
        let state = match self.goal {
            Goal::Drop => InstanceState::Terminated,
            _ => InstanceState::Running,
        };
        match Instances::wait(&self.beez, groups, state) {
            Some(seen) => SwarmRun { beez: seen, ..self }.arrive(sc),
            None => self.pause(),
        }
    }

    fn after_done(self, sc: &SwarmConfig) -> (out: (SwarmRun, Turn))
        ensures
            (out.0@, out.1@) == self@.after_done(sc@),
    {
        match self.phase {
            SwarmPhase::Terminate => self.pause(),
            SwarmPhase::Pause => {
                let awaited = BeeMatcher::Ids(copy_beez(&self.beez, 0, self.beez.len()));
                proof {
                    assert(self.beez.deep_view().subrange(0, self.beez.len() as int)
                        =~= self.beez.deep_view());
                }
                match Instances::describe(&awaited) {
                    Some(request) => self.call(SwarmPhase::Look, request),
                    None => self.arrive(sc),
                }
            },
            SwarmPhase::DeleteKeyPair => self.finish(),
            _ => self.stray(),
        }
    }

    /// Steps the run with the answer to the request that it named last, and
    /// names the next one.
    pub fn step(self, sc: &SwarmConfig, response: &CloudResponse) -> (out: (SwarmRun, Turn))
        requires
            self.wf(),
            sc@.num_beez >= 0,
        ensures
            (out.0@, out.1@) == self@.step(sc@, response@),
            out.0.wf(),
    {
        proof {
            lemma_step_keeps_wf(self@, sc@, response@);
        }
        match self.phase {
            SwarmPhase::Finished => (self, Turn::Finished),
            SwarmPhase::Failed => (
                self,
                Turn::Failed(Ec2Error::new(Operation::Unexpected, RUN_HAS_FAILED.to_owned())),
            ),
            _ => match response {
                CloudResponse::Failed(detail) => match self.phase {
                    SwarmPhase::Look => self.pause(),
                    _ => {
                        let operation = self.phase.charged();
                        self.fail(operation, detail.clone())
                    },
                },
                CloudResponse::Found(ids) => match self.phase {
                    SwarmPhase::FindKeyPair => self.init_key_pair(sc, ids),
                    _ => self.stray(),
                },
                CloudResponse::Created(id) => match self.phase {
                    SwarmPhase::ImportKeyPair => SwarmRun {
                        key_pair: Some(id.clone()),
                        ..self
                    }.list_instances(sc),
                    _ => self.stray(),
                },
                CloudResponse::Reservations(groups) => match self.phase {
                    SwarmPhase::ListInstances => {
                        let running = Instances::in_state(groups, InstanceState::Running);
                        self.run_instances(sc, running)
                    },
                    SwarmPhase::Look => self.wait(sc, groups),
                    _ => self.stray(),
                },
                CloudResponse::Launched(fresh) => match self.phase {
                    SwarmPhase::Launch => if fresh.len() == 0 {
                        self.fail(Operation::CreateInstances, NONE_LAUNCHED.to_owned())
                    } else {
                        let SwarmRun { goal, phase, network, key_pair, beez } = self;
                        let all = both(beez, fresh);
                        SwarmRun { goal, phase, network, key_pair, beez: all }.pause()
                    },
                    _ => self.stray(),
                },
                CloudResponse::Done => self.after_done(sc),
            },
        }
    }

    /// Whether the run has reached its goal.
    pub fn is_finished(&self) -> (yes: bool)
        ensures
            yes == (self.phase == SwarmPhase::Finished),
    {
        self.phase == SwarmPhase::Finished
    }
}

/// A step leads from a well-formed run to a well-formed run.
pub proof fn lemma_step_keeps_wf(run: SwarmRunView, sc: SwarmConfigView, response: CloudResponseView)
    requires
        run.wf(),
    ensures
        run.step(sc, response).0.wf(),
{
}

impl SwarmPhase {
    /// How far a phase is along its run.
    pub open spec fn rank(self) -> nat {
        match self {
            SwarmPhase::FindKeyPair => 0,
            SwarmPhase::ImportKeyPair => 1,
            SwarmPhase::ListInstances => 2,
            SwarmPhase::Launch => 3,
            SwarmPhase::Terminate => 3,
            SwarmPhase::Pause => 4,
            SwarmPhase::Look => 5,
            SwarmPhase::DeleteKeyPair => 6,
            SwarmPhase::Finished => 7,
            SwarmPhase::Failed => 7,
        }
    }
}

/// Every step takes a run on the swarm further along, but for the wait: a
/// look that does not find every awaited instance where it is awaited
/// leads back to a pause and to another look. Nothing else is ever done
/// twice, and there is no bound on the wait.
pub proof fn lemma_step_advances(run: SwarmRunView, sc: SwarmConfigView, response: CloudResponseView)
    requires
        run.wf(),
        !run.phase.is_over(),
    ensures
        run.step(sc, response).0.phase.rank() > run.phase.rank() || (run.phase == SwarmPhase::Look
            && run.step(sc, response).0.phase == SwarmPhase::Pause),
        run.step(sc, response).1 is Call <==> !run.step(sc, response).0.phase.is_over(),
{
}

/// A run that loads the swarm asks for listings and for nothing else.
pub proof fn lemma_load_only_lists(run: SwarmRunView, sc: SwarmConfigView, response: CloudResponseView)
    requires
        run.wf(),
        run.goal == Goal::Load,
    ensures
        run.step(sc, response).1 matches TurnView::Call(request) ==> request.is_harmless(),
        run.step(sc, response).1 matches TurnView::Call(request) ==> !(request is Pause),
{
}

/// The number of instances converges to the number that the configuration
/// asks for. When the running instances have been listed, a run that brings
/// the swarm up
///
/// - launches exactly as many as are missing, and keeps all that run;
/// - or terminates exactly as many as are too many, the first ones of the
///   listing, and keeps the others in their order;
/// - or keeps all, where the number is right.
///
/// Then it waits for the instances that it keeps.
pub proof fn lemma_count_converges(run: SwarmRunView, sc: SwarmConfigView, groups: Seq<
    Seq<InstanceView>,
>)
    requires
        run.wf(),
        sc.num_beez >= 0,
        run.goal == Goal::Init,
        run.phase == SwarmPhase::ListInstances,
    ensures
        ({
            let running = beez_in_state(groups, InstanceState::Running);
            let (next, turn) = run.step(sc, CloudResponseView::Reservations(groups));
            if running.len() < sc.num_beez {
                &&& turn matches TurnView::Call(CloudRequestView::RunInstances { count, .. })
                &&& count == sc.num_beez - running.len()
                &&& next.beez == running
                &&& next.phase == SwarmPhase::Launch
            } else if running.len() > sc.num_beez {
                &&& turn == TurnView::Call(
                    CloudRequestView::TerminateInstances {
                        instance_ids: ids_of(running.take(running.len() - sc.num_beez)),
                    },
                )
                &&& running == running.take(running.len() - sc.num_beez) + next.beez
                &&& next.beez.len() == sc.num_beez
                &&& next.phase == SwarmPhase::Terminate
            } else {
                &&& turn == TurnView::Call(CloudRequestView::Pause { seconds: POLL_SECONDS as nat })
                &&& next.beez == running
                &&& next.phase == SwarmPhase::Pause
            }
        }),
{
    let running = beez_in_state(groups, InstanceState::Running);
    if running.len() > sc.num_beez {
        let excess = running.len() - sc.num_beez;
        assert(running =~= running.take(excess) + running.skip(excess));
    }
}

/// After a launch, the run waits for the instances that ran before and for
/// those that were launched: where the launch brought as many as were asked
/// for, these are as many as the configuration asks for.
pub proof fn lemma_launch_fills_the_gap(
    run: SwarmRunView,
    sc: SwarmConfigView,
    groups: Seq<Seq<InstanceView>>,
    launched: Seq<BeeView>,
)
    requires
        run.wf(),
        sc.num_beez >= 0,
        run.goal == Goal::Init,
        run.phase == SwarmPhase::ListInstances,
        beez_in_state(groups, InstanceState::Running).len() < sc.num_beez,
        launched.len() == sc.num_beez - beez_in_state(groups, InstanceState::Running).len(),
    ensures
        ({
            let listed = run.step(sc, CloudResponseView::Reservations(groups)).0;
            let (next, turn) = listed.step(sc, CloudResponseView::Launched(launched));
            &&& next.beez == beez_in_state(groups, InstanceState::Running) + launched
            &&& next.beez.len() == sc.num_beez
            &&& turn == TurnView::Call(CloudRequestView::Pause { seconds: POLL_SECONDS as nat })
        }),
{
}

/// A wait is over exactly when a look finds as many of the awaited
/// instances in the awaited state as are waited for. Until then, and after
/// a look that failed, the run pauses and looks again; it asks for nothing
/// else while it waits.
pub proof fn lemma_wait_ends_on_arrival(run: SwarmRunView, sc: SwarmConfigView, response: CloudResponseView)
    requires
        run.wf(),
        run.phase == SwarmPhase::Look,
    ensures
        ({
            let (next, turn) = run.step(sc, response);
            let arrived = response matches CloudResponseView::Reservations(groups)
                && beez_in_state(groups, awaited_state(run.goal)).len() == run.beez.len();
            let stray = !(response is Reservations) && !(response is Failed);
            &&& arrived ==> next.phase != SwarmPhase::Pause && next.beez == beez_in_state(
                response->Reservations_0,
                awaited_state(run.goal),
            )
            &&& arrived && run.goal != Goal::Drop ==> turn is Finished
            &&& !arrived && !stray ==> turn == TurnView::Call(
                CloudRequestView::Pause { seconds: POLL_SECONDS as nat },
            ) && next.beez == run.beez
        }),
{
}

/// A key pair whose id the configuration supplies is never removed, and
/// instances are terminated only when the running ones have just been
/// listed: those that are too many, or all when the swarm is taken down.
pub proof fn lemma_swarm_removes_what_it_listed(
    run: SwarmRunView,
    sc: SwarmConfigView,
    response: CloudResponseView,
)
    requires
        run.wf(),
        sc.num_beez >= 0,
    ensures
        run.step(sc, response).1 matches TurnView::Call(CloudRequestView::DeleteKeyPair { key: matcher })
            ==> sc.key_id is None && run.goal == Goal::Drop && matcher == SSHKeyMatcherView::Name(
            sc.tag_name,
        ),
        run.step(sc, response).1 matches TurnView::Call(
            CloudRequestView::TerminateInstances { instance_ids },
        ) ==> run.phase == SwarmPhase::ListInstances && (response matches CloudResponseView::Reservations(
            groups,
        ) && ids_of(beez_in_state(groups, InstanceState::Running)).take(instance_ids.len() as int)
            == instance_ids),
{
    if let CloudResponseView::Reservations(groups) = response {
        let running = beez_in_state(groups, InstanceState::Running);
        if run.phase == SwarmPhase::ListInstances {
            if run.goal == Goal::Init && running.len() > sc.num_beez {
                let excess = running.len() - sc.num_beez;
                assert(ids_of(running).take(excess) =~= ids_of(running.take(excess)));
            }
            if run.goal == Goal::Drop {
                assert(ids_of(running).take(ids_of(running).len() as int) =~= ids_of(running));
            }
        }
    }
}

} // verus!
