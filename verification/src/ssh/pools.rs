//! The session pool: one session per host, and the fan-out that works on all
//! of them at once without ever having too many operations in flight.

use crate::config::SwarmConfig;
use crate::ssh::client::{Auth, AuthView, ChannelMsgView, Client, ClientPhase, ClientStep,
    ClientStepView, ClientView, Execution};
use crate::ssh::errors::{SshError, SshFault};
use crate::ssh::files::{join_path, SessionData, SessionDataView};
use crate::ssh::io::{
    Delivery, IOConfig, IOConfigView, IOHandler, RemoteIO, RemoteIOView, StreamIO, StreamIOView,
    STDERR_FILE, STDOUT_FILE,
};
use crate::text::join3;
use vstd::prelude::*;

verus! {

/// The greatest number of remote operations that are in flight at once.
pub const FAN_OUT: usize = 10;

/// The state of one host's operation within a fan-out.
#[derive(Debug, Clone, PartialEq, Eq)]
pub enum Slot<T> {
    /// The operation has not been started.
    Waiting,
    /// The operation is in flight.
    Running,
    /// The operation has ended, with this result.
    Done(T),
}

/// How many of the slots are in flight.
pub open spec fn running<T>(slots: Seq<Slot<T>>) -> nat
    decreases slots.len(),
{
    if slots.len() == 0 {
        0
    } else {
        running(slots.drop_last()) + if slots.last() is Running {
            1nat
        } else {
            0nat
        }
    }
}

/// A fan-out as plain values: the bound, how many operations have been
/// started, and the state of each.
pub struct FanOutView<T> {
    pub limit: nat,
    pub started: nat,
    pub slots: Seq<Slot<T>>,
}

impl<T> FanOutView<T> {
    /// How many operations are in flight.
    pub open spec fn in_flight(self) -> nat {
        running(self.slots)
    }

    /// A fan-out is well formed when the operations are started in the
    /// order of the hosts, and no more of them are in flight than the bound
    /// allows.
    pub open spec fn wf(self) -> bool {
        &&& self.limit > 0
        &&& self.started <= self.slots.len()
        &&& forall|i: int|
            0 <= i < self.slots.len() ==> ((#[trigger] self.slots[i]) is Waiting <==> i
                >= self.started)
        &&& self.in_flight() <= self.limit
    }

    /// The fan-out over so many hosts, before anything is started.
    pub open spec fn fresh(hosts: nat, limit: nat) -> FanOutView<T> {
        FanOutView { limit, started: 0, slots: Seq::new(hosts, |i: int| Slot::Waiting) }
    }

    /// Whether another operation may be started now.
    pub open spec fn can_start(self) -> bool {
        self.in_flight() < self.limit && self.started < self.slots.len()
    }

    /// The fan-out after the next operation has been started.
    pub open spec fn start(self) -> FanOutView<T> {
        FanOutView {
            started: self.started + 1,
            slots: self.slots.update(self.started as int, Slot::Running),
            ..self
        }
    }

    /// Whether the operation of a slot is in flight.
    pub open spec fn is_running(self, slot: int) -> bool {
        0 <= slot < self.slots.len() && self.slots[slot] is Running
    }

    /// The fan-out after the operation of `slot` has ended with `result`.
    /// Nothing changes but that slot.
    pub open spec fn complete(self, slot: int, result: T) -> FanOutView<T> {
        if self.is_running(slot) {
            FanOutView { slots: self.slots.update(slot, Slot::Done(result)), ..self }
        } else {
            self
        }
    }

    /// Whether every operation has been started and has ended.
    pub open spec fn finished(self) -> bool {
        self.started == self.slots.len() && self.in_flight() == 0
    }

    /// The results, one per host, in the order of the hosts.
    pub open spec fn results(self) -> Seq<T> {
        self.slots.map_values(|s: Slot<T>| s->Done_0)
    }
}

/// Nothing is in flight among slots that all wait.
pub proof fn lemma_none_running<T>(slots: Seq<Slot<T>>)
    requires
        forall|i: int| 0 <= i < slots.len() ==> (#[trigger] slots[i]) is Waiting,
    ensures
        running(slots) == 0,
    decreases slots.len(),
{
    if slots.len() > 0 {
        lemma_none_running(slots.drop_last());
    }
}

/// A change of one slot changes the number in flight by that slot alone.
pub proof fn lemma_running_update<T>(slots: Seq<Slot<T>>, at: int, state: Slot<T>)
    requires
        0 <= at < slots.len(),
    ensures
        running(slots.update(at, state)) + (if slots[at] is Running {
            1nat
        } else {
            0nat
        }) == running(slots) + (if state is Running {
            1nat
        } else {
            0nat
        }),
    decreases slots.len(),
{
    let changed = slots.update(at, state);
    if at == slots.len() - 1 {
        assert(changed.drop_last() =~= slots.drop_last());
    } else {
        lemma_running_update(slots.drop_last(), at, state);
        assert(changed.drop_last() =~= slots.drop_last().update(at, state));
    }
}

/// Where nothing is in flight, no slot is running.
pub proof fn lemma_all_ended<T>(slots: Seq<Slot<T>>)
    requires
        running(slots) == 0,
    ensures
        forall|i: int| 0 <= i < slots.len() ==> !((#[trigger] slots[i]) is Running),
    decreases slots.len(),
{
    if slots.len() > 0 {
        lemma_all_ended(slots.drop_last());
        assert forall|i: int| 0 <= i < slots.len() implies !((#[trigger] slots[i]) is Running) by {
            if i < slots.len() - 1 {
                assert(slots[i] == slots.drop_last()[i]);
            }
        }
    }
}

/// The fan-out of one operation over the hosts of a pool.
///
/// Operations are started in the order of the hosts, the next one as soon as
/// fewer than the bound are in flight. Each ends on its own, and its result
/// is kept in the slot of its host.
pub struct FanOut<T> {
    limit: usize,
    started: usize,
    in_flight: usize,
    slots: Vec<Slot<T>>,
}

impl<T> View for FanOut<T> {
    type V = FanOutView<T>;

    closed spec fn view(&self) -> FanOutView<T> {
        FanOutView { limit: self.limit as nat, started: self.started as nat, slots: self.slots@ }
    }
}

impl<T> FanOut<T> {
    #[verifier::type_invariant]
    spec fn inv(&self) -> bool {
        &&& self@.wf()
        &&& self.in_flight == self@.in_flight()
    }

    /// The fan-out over `hosts` hosts with the pool's bound.
    pub fn new(hosts: usize) -> (fan: FanOut<T>)
        ensures
            fan@ == FanOutView::<T>::fresh(hosts as nat, FAN_OUT as nat),
            fan@.wf(),
            fan@.in_flight() == 0,
    {
        Self::with_limit(hosts, FAN_OUT)
    }

    /// The fan-out over `hosts` hosts with a bound of its own. A bound of
    /// zero would start nothing, and counts as one.
    pub fn with_limit(hosts: usize, limit: usize) -> (fan: FanOut<T>)
        ensures
            fan@ == FanOutView::<T>::fresh(
                hosts as nat,
                if limit == 0 {
                    1nat
                } else {
                    limit as nat
                },
            ),
            fan@.wf(),
            fan@.in_flight() == 0,
    {
        let mut slots: Vec<Slot<T>> = Vec::new();
        let mut i: usize = 0;
        while i < hosts
            invariant
                i <= hosts,
                slots.len() == i,
                forall|k: int| 0 <= k < i ==> (#[trigger] slots@[k]) is Waiting,
            decreases hosts - i,
        {
            slots.push(Slot::Waiting);
            i += 1;
        }
        proof {
            lemma_none_running(slots@);
            assert(slots@ =~= Seq::new(hosts as nat, |i: int| Slot::<T>::Waiting));
        }
        FanOut {
            limit: if limit == 0 {
                1
            } else {
                limit
            },
            started: 0,
            in_flight: 0,
            slots,
        }
    }

    /// The number of hosts.
    pub fn len(&self) -> (hosts: usize)
        ensures
            hosts == self@.slots.len(),
    {
        self.slots.len()
    }

    /// The number of operations in flight.
    pub fn in_flight(&self) -> (count: usize)
        ensures
            count == self@.in_flight(),
            count <= self@.limit,
    {
        proof {
            use_type_invariant(self);
        }
        self.in_flight
    }

    /// Starts the operation of the next host, if another one may be in
    /// flight and a host is left, and tells which host it is.
    pub fn start_next(self) -> (out: (FanOut<T>, Option<usize>))
        ensures
            self@.can_start() ==> out.1 is Some && out.1->0 == self@.started && out.0@
                == self@.start(),
            !self@.can_start() ==> out.1 is None && out.0@ == self@,
            self@.can_start() ==> out.0@.in_flight() == self@.in_flight() + 1,
            self@.wf(),
            out.0@.wf(),
            out.0@.in_flight() <= out.0@.limit,
    {
        proof {
            use_type_invariant(&self);
        }
        if self.in_flight < self.limit && self.started < self.slots.len() {
            let FanOut { limit, started, in_flight, mut slots } = self;
            proof {
                lemma_running_update(slots@, started as int, Slot::Running);
            }
            slots[started] = Slot::Running;
            (FanOut { limit, started: started + 1, in_flight: in_flight + 1, slots }, Some(started))
        } else {
            (self, None)
        }
    }

    /// Takes the result of the operation of `slot`, and tells whether that
    /// operation was in flight. A result for a slot that is not in flight
    /// is dropped, and nothing changes.
    pub fn complete(self, slot: usize, result: T) -> (out: (FanOut<T>, bool))
        ensures
            out.1 == self@.is_running(slot as int),
            out.0@ == self@.complete(slot as int, result),
            out.1 ==> out.0@.in_flight() + 1 == self@.in_flight(),
            self@.wf(),
            out.0@.wf(),
            out.0@.in_flight() <= out.0@.limit,
    {
        proof {
            use_type_invariant(&self);
        }
        if slot >= self.slots.len() {
            return (self, false);
        }
        let is_running = match &self.slots[slot] {
            Slot::Running => true,
            _ => false,
        };
        if !is_running {
            return (self, false);
        }
        let FanOut { limit, started, in_flight, mut slots } = self;
        proof {
            lemma_running_update(slots@, slot as int, Slot::Done(result));
        }
        slots[slot] = Slot::Done(result);
        (FanOut { limit, started, in_flight: in_flight - 1, slots }, true)
    }

    /// Whether every operation has been started and has ended.
    pub fn is_finished(&self) -> (yes: bool)
        ensures
            yes == self@.finished(),
    {
        proof {
            use_type_invariant(self);
        }
        self.started == self.slots.len() && self.in_flight == 0
    }

    /// The results, one per host, in the order of the hosts: the entry of a
    /// host is the result that was taken for its slot. There are none
    /// before the fan-out is finished.
    pub fn into_results(self) -> (results: Option<Vec<T>>)
        ensures
            self@.finished() ==> results is Some && results->0@ == self@.results() && results->0.len()
                == self@.slots.len(),
            !self@.finished() ==> results is None,
    {
        proof {
            use_type_invariant(&self);
        }
        if !(self.started == self.slots.len() && self.in_flight == 0) {
            return None;
        }
        let ghost all = self@.slots;
        proof {
            lemma_all_ended(all);
        }
        let FanOut { limit, started, in_flight, mut slots } = self;
        // The results, the last host's first.
        let mut last_first: Vec<T> = Vec::new();
        while slots.len() > 0
            invariant
                slots.len() <= all.len(),
                slots@ == all.take(slots.len() as int),
                forall|i: int| 0 <= i < all.len() ==> (#[trigger] all[i]) is Done,
                last_first.len() == all.len() - slots.len(),
                forall|k: int|
                    0 <= k < last_first.len() ==> all[all.len() - 1 - k] == Slot::Done(
                        #[trigger] last_first@[k],
                    ),
            decreases slots.len(),
        {
            let ghost n = slots.len();
            let slot = slots.pop();
            proof {
                assert(slot->0 == all[n - 1]);
                assert(slots@ =~= all.take(n - 1));
            }
            match slot {
                Some(Slot::Done(result)) => {
                    last_first.push(result);
                },
                _ => {},
            }
        }
        let mut results: Vec<T> = Vec::new();
        while last_first.len() > 0
            invariant
                last_first.len() <= all.len(),
                results.len() == all.len() - last_first.len(),
                forall|k: int|
                    0 <= k < last_first.len() ==> all[all.len() - 1 - k] == Slot::Done(
                        #[trigger] last_first@[k],
                    ),
                forall|i: int| 0 <= i < results.len() ==> all[i] == Slot::Done(#[trigger] results@[i]),
            decreases last_first.len(),
        {
            let ghost n = last_first.len();
            let result = last_first.pop();
            proof {
                assert(all[all.len() - n] == Slot::Done(result->0));
            }
            match result {
                Some(result) => {
                    results.push(result);
                },
                None => {},
            }
        }
        proof {
            assert(results@ =~= all.map_values(|s: Slot<T>| s->Done_0));
        }
        Some(results)
    }
}

/// While no new operation can be started, an operation is in flight or the
/// fan-out is finished: a fan-out never stalls.
pub proof fn lemma_fan_out_goes_on<T>(fan: FanOutView<T>)
    requires
        fan.wf(),
        !fan.can_start(),
    ensures
        fan.in_flight() > 0 || fan.finished(),
{
}

/// Starting and completing keep a fan-out well formed, so that the bound
/// holds after every step.
pub proof fn lemma_fan_out_stays_bounded<T>(fan: FanOutView<T>, slot: int, result: T)
    requires
        fan.wf(),
    ensures
        fan.can_start() ==> fan.start().wf(),
        fan.complete(slot, result).wf(),
        fan.complete(slot, result).in_flight() <= fan.in_flight(),
{
    if fan.can_start() {
        lemma_running_update(fan.slots, fan.started as int, Slot::Running);
    }
    if fan.is_running(slot) {
        lemma_running_update(fan.slots, slot, Slot::Done(result));
    }
}

/// A result changes the slot of its own host and no other: what the other
/// hosts gave or will give stays as it is.
pub proof fn lemma_hosts_are_isolated<T>(fan: FanOutView<T>, slot: int, result: T, other: int)
    requires
        fan.wf(),
        0 <= other < fan.slots.len(),
        other != slot,
    ensures
        fan.complete(slot, result).slots[other] == fan.slots[other],
        fan.is_running(slot) ==> fan.complete(slot, result).slots[slot] == Slot::Done(result),
{
}

/// The handler of a session's output: one of the two strategies.
#[derive(Debug, Clone, PartialEq, Eq)]
pub enum Handler {
    Stream(StreamIO),
    Remote(RemoteIO),
}

/// A `Handler` as plain values: texts are sequences of characters.
pub enum HandlerView {
    Stream(StreamIOView),
    Remote(RemoteIOView),
}

impl View for Handler {
    type V = HandlerView;

    open spec fn view(&self) -> HandlerView {
        match self {
            Handler::Stream(handler) => HandlerView::Stream(handler@),
            Handler::Remote(handler) => HandlerView::Remote(handler@),
        }
    }
}

impl IOHandler for Handler {
    open spec fn host(&self) -> Seq<char> {
        match self {
            Handler::Stream(handler) => handler.host(),
            Handler::Remote(handler) => handler.host(),
        }
    }

    open spec fn logs_locally(&self) -> bool {
        match self {
            Handler::Stream(handler) => handler.logs_locally(),
            Handler::Remote(handler) => handler.logs_locally(),
        }
    }

    open spec fn mirrors(&self) -> bool {
        match self {
            Handler::Stream(handler) => handler.mirrors(),
            Handler::Remote(handler) => handler.mirrors(),
        }
    }

    open spec fn rewritten(&self, command: Seq<char>) -> Seq<char> {
        match self {
            Handler::Stream(handler) => handler.rewritten(command),
            Handler::Remote(handler) => handler.rewritten(command),
        }
    }

    open spec fn kept_remotely(&self) -> Seq<Seq<char>> {
        match self {
            Handler::Stream(handler) => handler.kept_remotely(),
            Handler::Remote(handler) => handler.kept_remotely(),
        }
    }

    fn host_id(&self) -> (id: &str) {
        match self {
            Handler::Stream(handler) => handler.host_id(),
            Handler::Remote(handler) => handler.host_id(),
        }
    }

    fn stdout(&self, data: &[u8]) -> (delivery: Delivery) {
        match self {
            Handler::Stream(handler) => handler.stdout(data),
            Handler::Remote(handler) => handler.stdout(data),
        }
    }

    fn stderr(&self, data: &[u8]) -> (delivery: Delivery) {
        match self {
            Handler::Stream(handler) => handler.stderr(data),
            Handler::Remote(handler) => handler.stderr(data),
        }
    }

    fn update_command(&self, command: &str) -> (out: String) {
        match self {
            Handler::Stream(handler) => handler.update_command(command),
            Handler::Remote(handler) => handler.update_command(command),
        }
    }

    fn artifacts(&self) -> (names: Vec<String>) {
        match self {
            Handler::Stream(handler) => handler.artifacts(),
            Handler::Remote(handler) => handler.artifacts(),
        }
    }
}

/// One remote file to fetch when a session ends, and where to put it.
#[derive(Debug, Clone, PartialEq, Eq)]
pub struct Fetch {
    pub remote_path: String,
    pub local_path: String,
}

/// A `Fetch` as plain values: texts are sequences of characters.
pub struct FetchView {
    pub remote_path: Seq<char>,
    pub local_path: Seq<char>,
}

impl DeepView for Fetch {
    type V = FetchView;

    open spec fn deep_view(&self) -> FetchView {
        FetchView { remote_path: self.remote_path@, local_path: self.local_path@ }
    }
}

impl View for Fetch {
    type V = FetchView;

    open spec fn view(&self) -> FetchView {
        self.deep_view()
    }
}

/// One file to send to a host or to get from it.
#[derive(Debug, Clone, PartialEq, Eq)]
pub struct FileCopy {
    pub source: String,
    pub destination: String,
}

/// A `FileCopy` as plain values: texts are sequences of characters.
pub struct FileCopyView {
    pub source: Seq<char>,
    pub destination: Seq<char>,
}

impl DeepView for FileCopy {
    type V = FileCopyView;

    open spec fn deep_view(&self) -> FileCopyView {
        FileCopyView { source: self.source@, destination: self.destination@ }
    }
}

impl View for FileCopy {
    type V = FileCopyView;

    open spec fn view(&self) -> FileCopyView {
        self.deep_view()
    }
}

/// Tracks the basic elements of an SSH connection.
#[derive(Debug, Clone, PartialEq, Eq)]
pub struct SSHConnection {
    /// The client of the session.
    pub client: Client,
    /// The handler of the session's output.
    pub io_handler: Handler,
    /// Settings for data management.
    pub data: SessionData,
    /// Remote host address, as hostname or IP, with or without a port.
    pub host: String,
    /// Remote username.
    pub username: String,
}

/// An `SSHConnection` as plain values: texts are sequences of characters.
pub struct SSHConnectionView {
    pub client: ClientView,
    pub io_handler: HandlerView,
    pub data: SessionDataView,
    pub host: Seq<char>,
    pub username: Seq<char>,
}

impl DeepView for SSHConnection {
    type V = SSHConnectionView;

    open spec fn deep_view(&self) -> SSHConnectionView {
        SSHConnectionView {
            client: self.client@,
            io_handler: self.io_handler@,
            data: self.data@,
            host: self.host@,
            username: self.username@,
        }
    }
}

impl View for SSHConnection {
    type V = SSHConnectionView;

    open spec fn view(&self) -> SSHConnectionView {
        self.deep_view()
    }
}

/// Said of a session that was never opened.
pub const NOT_CONNECTED: &'static str = "not connected";

impl SSHConnectionView {
    /// The paths of the session of a host under a policy.
    pub open spec fn data_for(host: Seq<char>, io_config: IOConfigView) -> SessionDataView {
        match io_config {
            IOConfigView::Stream(local_root, _) => SessionDataView::of(host, local_root, None),
            IOConfigView::Remote(local_root, remote_root, _) => SessionDataView::of(
                host,
                local_root,
                remote_root,
            ),
        }
    }

    /// The handler of the session of a host under a policy: a streaming one
    /// logs into the local directory of the session, a remote one into the
    /// remote directory.
    pub open spec fn handler_for(data: SessionDataView, io_config: IOConfigView) -> HandlerView {
        match io_config {
            IOConfigView::Stream(_, verbose) => HandlerView::Stream(
                StreamIOView {
                    host_id: data.host_id,
                    stdout_path: data.local_root + "/"@ + STDOUT_FILE@,
                    stderr_path: data.local_root + "/"@ + STDERR_FILE@,
                    verbose,
                },
            ),
            IOConfigView::Remote(_, _, verbose) => HandlerView::Remote(
                RemoteIOView {
                    host_id: data.host_id,
                    out_path: data.remote_root + "/"@ + STDOUT_FILE@,
                    err_path: data.remote_root + "/"@ + STDERR_FILE@,
                    verbose,
                },
            ),
        }
    }

    /// The session of a host as it begins to be opened.
    pub open spec fn open(
        host: Seq<char>,
        username: Seq<char>,
        auth: AuthView,
        io_config: IOConfigView,
    ) -> (SSHConnectionView, ClientStepView) {
        let data = Self::data_for(host, io_config);
        let (client, step) = ClientView::connect(host, username, auth);
        (
            SSHConnectionView {
                client,
                io_handler: Self::handler_for(data, io_config),
                data,
                host,
                username,
            },
            step,
        )
    }

    /// Whether the session is open and authenticated.
    pub open spec fn ready(self) -> bool {
        self.client.phase == ClientPhase::Ready
    }

    /// Why a session is not ready, with its host named first.
    pub open spec fn refusal(self) -> (SshFault, Seq<char>) {
        match self.client.failure {
            Some((fault, detail)) => (fault, self.host + ": "@ + detail),
            None => (SshFault::ConnectionError, self.host + ": "@ + NOT_CONNECTED@),
        }
    }

    /// The file of the session that an artifact is fetched from, and the one
    /// that it is put into.
    pub open spec fn fetch(self, name: Seq<char>) -> FetchView {
        FetchView {
            remote_path: self.data.remote_root + "/"@ + name,
            local_path: self.data.local_root + "/"@ + name,
        }
    }
}

/// Where the first failure stands among the results of some transfers, if
/// there is one.
pub open spec fn first_failure(results: Seq<Result<u64, SshError>>) -> Option<int> {
    if exists|i: int| 0 <= i < results.len() && (#[trigger] results[i]) is Err {
        Some(
            choose|i: int|
                0 <= i < results.len() && (#[trigger] results[i]) is Err && forall|k: int|
                    0 <= k < i ==> (#[trigger] results[k]) is Ok,
        )
    } else {
        None
    }
}

impl SSHConnection {
    /// Prepares the session of `host`: its paths, the handler of its output,
    /// and its client, which names the first step of the handshake.
    pub fn open(host: &str, username: &str, auth: Auth, io_config: &IOConfig) -> (out: (
        SSHConnection,
        ClientStep,
    ))
        ensures
            (out.0@, out.1@) == SSHConnectionView::open(host@, username@, auth@, io_config@),
    {
        let (data, io_handler) = match io_config {
            IOConfig::Stream(local_root, verbose) => {
                let data = SessionData::new(host.to_owned(), local_root.clone(), None);
                let handler = StreamIO::new(data.host_id(), data.local_root.as_str(), *verbose);
                (data, Handler::Stream(handler))
            },
            IOConfig::Remote(local_root, remote_root, verbose) => {
                let remote_root = match remote_root {
                    Some(dir) => Some(dir.clone()),
                    None => None,
                };
                let data = SessionData::new(host.to_owned(), local_root.clone(), remote_root);
                let handler = RemoteIO::new(data.host_id(), Some(&data.remote_root), *verbose);
                (data, Handler::Remote(handler))
            },
        };
        let (client, step) = Client::connect(host, username, auth);
        (
            SSHConnection {
                client,
                io_handler,
                data,
                host: host.to_owned(),
                username: username.to_owned(),
            },
            step,
        )
    }

    /// Begins the run of a command: the command is rewritten by the handler
    /// of the session, and the rewritten one is to be sent.
    pub fn execute(&self, command: &str) -> (out: (Execution, String))
        requires
            self@.ready(),
        ensures
            out.0.wf(),
            out.0.seen@ == Seq::<ChannelMsgView>::empty(),
            out.1@ == self.io_handler.rewritten(command@),
    {
        self.client.execute(&self.io_handler, command)
    }

    /// The files to fetch when the session ends: each artifact of the
    /// handler, from the remote directory of the session into its local one.
    pub fn finish(&self) -> (fetches: Vec<Fetch>)
        ensures
            fetches.deep_view() == self.io_handler.kept_remotely().map_values(
                |name: Seq<char>| self@.fetch(name),
            ),
    {
        let names = self.io_handler.artifacts();
        let mut fetches: Vec<Fetch> = Vec::new();
        let mut i: usize = 0;
        while i < names.len()
            invariant
                i <= names.len(),
                names.deep_view() == self.io_handler.kept_remotely(),
                fetches.len() == i,
                forall|k: int| 0 <= k < i ==> fetches@[k]@ == self@.fetch(names@[k]@),
            decreases names.len() - i,
        {
            let name = names[i].as_str();
            fetches.push(
                Fetch {
                    remote_path: join_path(self.data.remote_root.as_str(), name),
                    local_path: join_path(self.data.local_root.as_str(), name),
                },
            );
            i += 1;
        }
        proof {
            assert(fetches.deep_view() =~= self.io_handler.kept_remotely().map_values(
                |name: Seq<char>| self@.fetch(name),
            ));
        }
        fetches
    }

    /// The outcome of the end of a session, after every fetch was tried:
    /// the first failure, if there is one.
    pub fn finished(results: &Vec<Result<u64, SshError>>) -> (outcome: Result<(), SshError>)
        ensures
            match first_failure(results@) {
                Some(at) => outcome is Err && outcome->Err_0@ == results@[at]->Err_0@,
                None => outcome is Ok,
            },
    {
        let mut i: usize = 0;
        while i < results.len()
            invariant
                i <= results.len(),
                forall|k: int| 0 <= k < i ==> (#[trigger] results@[k]) is Ok,
            decreases results.len() - i,
        {
            match &results[i] {
                Err(error) => {
                    return Err(error.duplicate());
                },
                Ok(_) => {},
            }
            i += 1;
        }
        Ok(())
    }
}

/// The pool of the sessions of a swarm, one per host, in the order of the
/// hosts.
#[derive(Debug, Clone, PartialEq, Eq)]
pub struct SSHPool {
    pub conns: Vec<SSHConnection>,
    pub io_config: IOConfig,
}

impl SSHPool {
    /// A pool may be worked with when every session is open and
    /// authenticated.
    pub open spec fn wf(&self) -> bool {
        forall|i: int| 0 <= i < self.conns.len() ==> (#[trigger] self.conns.deep_view()[i]).ready()
    }

    /// The credentials of the swarm: the private key file that belongs to
    /// the configured public key file, without a passphrase.
    pub fn load_key(sc: &SwarmConfig) -> (auth: Option<Auth>)
        requires
            sc@.key_file_is_public(),
        ensures
            auth.deep_view() == match sc@.private_key_file() {
                Some(file) => Some(AuthView::KeyFile(file, None)),
                None => None,
            },
    {
        match sc.private_key_file() {
            Some(file) => Some(Auth::KeyFile(file, None)),
            None => None,
        }
    }

    /// Prepares one session per host, in the order of the hosts, each with
    /// the first step of its handshake. The sessions are to be opened with
    /// no more than `FAN_OUT` handshakes in flight.
    pub fn new(hosts: &Vec<String>, username: &str, auth: &Auth, io_config: IOConfig) -> (out: (
        SSHPool,
        Vec<ClientStep>,
    ))
        ensures
            out.0.conns.len() == hosts.len(),
            out.1.len() == hosts.len(),
            out.0.io_config@ == io_config@,
            forall|i: int|
                0 <= i < hosts.len() ==> (#[trigger] out.0.conns.deep_view()[i])
                    == SSHConnectionView::open(hosts@[i]@, username@, auth@, io_config@).0,
            forall|i: int|
                0 <= i < hosts.len() ==> (#[trigger] out.1@[i])@ == SSHConnectionView::open(
                    hosts@[i]@,
                    username@,
                    auth@,
                    io_config@,
                ).1,
    {
        let mut conns: Vec<SSHConnection> = Vec::new();
        let mut steps: Vec<ClientStep> = Vec::new();
        let mut i: usize = 0;
        while i < hosts.len()
            invariant
                i <= hosts.len(),
                conns.len() == i,
                steps.len() == i,
                forall|k: int|
                    0 <= k < i ==> (#[trigger] conns.deep_view()[k]) == SSHConnectionView::open(
                        hosts@[k]@,
                        username@,
                        auth@,
                        io_config@,
                    ).0,
                forall|k: int|
                    0 <= k < i ==> (#[trigger] steps@[k])@ == SSHConnectionView::open(
                        hosts@[k]@,
                        username@,
                        auth@,
                        io_config@,
                    ).1,
            decreases hosts.len() - i,
        {
            let (conn, step) = SSHConnection::open(
                hosts[i].as_str(),
                username,
                auth.duplicate(),
                &io_config,
            );
            let ghost before = conns.deep_view();
            conns.push(conn);
            steps.push(step);
            proof {
                assert(conns.deep_view() =~= before.push(conn@));
            }
            i += 1;
        }
        (SSHPool { conns, io_config }, steps)
    }

    /// The number of hosts.
    pub fn len(&self) -> (hosts: usize)
        ensures
            hosts == self.conns.len(),
    {
        self.conns.len()
    }

    /// Tells whether every session is open and authenticated. Where one is
    /// not, the pool cannot be used: the failure of the first such host is
    /// returned, with the host named in it.
    pub fn ready(&self) -> (outcome: Result<(), SshError>)
        ensures
            outcome is Ok <==> self.wf(),
            outcome matches Err(error) ==> exists|i: int|
                {
                    &&& 0 <= i < self.conns.len()
                    &&& !(#[trigger] self.conns.deep_view()[i]).ready()
                    &&& forall|k: int| 0 <= k < i ==> (#[trigger] self.conns.deep_view()[k]).ready()
                    &&& error@ == self.conns.deep_view()[i].refusal()
                },
    {
        let mut i: usize = 0;
        while i < self.conns.len()
            invariant
                i <= self.conns.len(),
                forall|k: int| 0 <= k < i ==> (#[trigger] self.conns.deep_view()[k]).ready(),
            decreases self.conns.len() - i,
        {
            let conn = &self.conns[i];
            if !conn.client.is_ready() {
                let error = match &conn.client.failure {
                    Some(cause) => SshError::new(
                        cause.fault(),
                        join3(conn.host.as_str(), ": ", cause.detail()),
                    ),
                    None => SshError::ConnectionError(
                        join3(conn.host.as_str(), ": ", NOT_CONNECTED),
                    ),
                };
                proof {
                    assert(self.conns.deep_view()[i as int] == conn@);
                    assert(!self.conns.deep_view()[i as int].ready());
                }
                return Err(error);
            }
            proof {
                assert(self.conns.deep_view()[i as int] == conn@);
            }
            i += 1;
        }
        Ok(())
    }

    /// The command that each host is to run for `command`, in the order of
    /// the hosts: the one that the handler of its session makes of it.
    pub fn execute(&self, command: &str) -> (commands: Vec<String>)
        requires
            self.wf(),
        ensures
            commands.len() == self.conns.len(),
            forall|i: int|
                0 <= i < self.conns.len() ==> (#[trigger] commands@[i])@
                    == self.conns@[i].io_handler.rewritten(command@),
    {
        let mut commands: Vec<String> = Vec::new();
        let mut i: usize = 0;
        while i < self.conns.len()
            invariant
                i <= self.conns.len(),
                commands.len() == i,
                forall|k: int|
                    0 <= k < i ==> (#[trigger] commands@[k])@
                        == self.conns@[k].io_handler.rewritten(command@),
            decreases self.conns.len() - i,
        {
            commands.push(self.conns[i].io_handler.update_command(command));
            i += 1;
        }
        commands
    }

    /// The file that each host is to be sent, in the order of the hosts: the
    /// same local source to the same remote destination for every host.
    pub fn upload(&self, source: &str, destination: &str) -> (copies: Vec<FileCopy>)
        requires
            self.wf(),
        ensures
            copies.len() == self.conns.len(),
            forall|i: int|
                0 <= i < self.conns.len() ==> (#[trigger] copies@[i])@ == (FileCopyView {
                    source: source@,
                    destination: destination@,
                }),
    {
        self.copies(source, destination)
    }

    /// The file that is to be got from each host, in the order of the
    /// hosts: the same remote source into the same local destination for
    /// every host.
    pub fn download(&self, source: &str, destination: &str) -> (copies: Vec<FileCopy>)
        requires
            self.wf(),
        ensures
            copies.len() == self.conns.len(),
            forall|i: int|
                0 <= i < self.conns.len() ==> (#[trigger] copies@[i])@ == (FileCopyView {
                    source: source@,
                    destination: destination@,
                }),
    {
        self.copies(source, destination)
    }

    fn copies(&self, source: &str, destination: &str) -> (copies: Vec<FileCopy>)
        ensures
            copies.len() == self.conns.len(),
            forall|i: int|
                0 <= i < self.conns.len() ==> (#[trigger] copies@[i])@ == (FileCopyView {
                    source: source@,
                    destination: destination@,
                }),
    {
        let mut copies: Vec<FileCopy> = Vec::new();
        let mut i: usize = 0;
        while i < self.conns.len()
            invariant
                i <= self.conns.len(),
                copies.len() == i,
                forall|k: int|
                    0 <= k < i ==> (#[trigger] copies@[k])@ == (FileCopyView {
                        source: source@,
                        destination: destination@,
                    }),
            decreases self.conns.len() - i,
        {
            copies.push(
                FileCopy { source: source.to_owned(), destination: destination.to_owned() },
            );
            i += 1;
        }
        copies
    }

    /// The files to fetch from each host when the sessions end, in the
    /// order of the hosts.
    pub fn finish(&self) -> (fetches: Vec<Vec<Fetch>>)
        requires
            self.wf(),
        ensures
            fetches.len() == self.conns.len(),
            forall|i: int|
                0 <= i < self.conns.len() ==> (#[trigger] fetches@[i]).deep_view()
                    == self.conns@[i].io_handler.kept_remotely().map_values(
                    |name: Seq<char>| self.conns@[i]@.fetch(name),
                ),
    {
        let mut fetches: Vec<Vec<Fetch>> = Vec::new();
        let mut i: usize = 0;
        while i < self.conns.len()
            invariant
                i <= self.conns.len(),
                fetches.len() == i,
                forall|k: int|
                    0 <= k < i ==> (#[trigger] fetches@[k]).deep_view()
                        == self.conns@[k].io_handler.kept_remotely().map_values(
                        |name: Seq<char>| self.conns@[k]@.fetch(name),
                    ),
            decreases self.conns.len() - i,
        {
            fetches.push(self.conns[i].finish());
            i += 1;
        }
        fetches
    }

    /// The fan-out of one operation over the hosts of the pool.
    pub fn fan_out<T>(&self) -> (fan: FanOut<T>)
        ensures
            fan@ == FanOutView::<T>::fresh(self.conns.len() as nat, FAN_OUT as nat),
            fan@.wf(),
            fan@.in_flight() == 0,
    {
        FanOut::new(self.conns.len())
    }
}

} // verus!
