//! The server: starting the media workers, and the rooms that run on them.

use std::collections::HashMap;

use crate::uid::Uid;
use vstd::prelude::*;

verus! {

/// The channel on which a room hears from its peers.
#[derive(Debug, Copy, Clone, PartialEq, Eq, Hash, Structural)]
pub struct RoomTx(pub u64);

/// Why the server could not do something.
#[derive(Debug, Copy, Clone, PartialEq, Eq, Structural)]
pub enum Error {
    Unknown,
    Worker,
    RtcServer,
    RoomAlreadyExists(Uid),
}

/// An IP address, as the number that its bytes spell.
#[derive(Debug, Copy, Clone, PartialEq, Eq, Structural)]
pub enum IpAddress {
    V4(u32),
    V6(u128),
}

/// How the media workers are to run.
#[derive(Debug, PartialEq, Eq)]
pub struct LaunchOptions {
    pub num_workers: usize,
    pub local_ip: IpAddress,
    pub announced_ip: String,
    pub worker_min_port: u16,
    pub worker_max_port: u16,
    pub server_port: u16,
}

#[derive(Debug, Copy, Clone, PartialEq, Eq, Structural)]
pub enum WorkerLogLevel {
    Debug,
    Warn,
    Error,
    Off,
}

#[derive(Debug, Copy, Clone, PartialEq, Eq, Structural)]
pub enum WorkerLogTag {
    Info,
    Ice,
    Dtls,
    Rtp,
    Srtp,
    Rtcp,
    Rtx,
    Bwe,
    Score,
    Simulcast,
    Svc,
    Sctp,
    Message,
}

/// What is asked of the media layer for a new worker; what is not named here stays at its
/// default.
#[derive(Debug, PartialEq, Eq)]
pub struct WorkerSettings {
    pub rtc_min_port: u16,
    pub rtc_max_port: u16,
    pub log_level: WorkerLogLevel,
    pub log_tags: Vec<WorkerLogTag>,
}

#[derive(Debug, Copy, Clone, PartialEq, Eq, Structural)]
pub enum Protocol {
    Tcp,
    Udp,
}

/// Where a worker's server listens; what is not named here stays unset.
#[derive(Debug, PartialEq, Eq)]
pub struct ListenInfo {
    pub protocol: Protocol,
    pub ip: IpAddress,
    pub announced_address: Option<String>,
    pub port: Option<u16>,
    pub port_range: Option<(u16, u16)>,
}

/// The port of a worker's server: the first worker's, and so on upwards. Workers are counted
/// in 16 bits.
pub open spec fn port_of(server_port: u16, idx: usize) -> int {
    server_port + idx % 0x1_0000
}

impl LaunchOptions {
    /// The settings of every worker.
    pub fn worker_settings(&self) -> (r: WorkerSettings)
        ensures
            r.rtc_min_port == self.worker_min_port,
            r.rtc_max_port == self.worker_max_port,
            r.log_level == WorkerLogLevel::Debug,
            r.log_tags@ == seq![
                WorkerLogTag::Info,
                WorkerLogTag::Ice,
                WorkerLogTag::Dtls,
                WorkerLogTag::Rtp,
                WorkerLogTag::Srtp,
                WorkerLogTag::Rtcp,
                WorkerLogTag::Rtx,
                WorkerLogTag::Bwe,
                WorkerLogTag::Score,
                WorkerLogTag::Simulcast,
                WorkerLogTag::Svc,
                WorkerLogTag::Sctp,
                WorkerLogTag::Message,
            ],
    {
        let mut log_tags: Vec<WorkerLogTag> = Vec::new();
        log_tags.push(WorkerLogTag::Info);
        log_tags.push(WorkerLogTag::Ice);
        log_tags.push(WorkerLogTag::Dtls);
        log_tags.push(WorkerLogTag::Rtp);
        log_tags.push(WorkerLogTag::Srtp);
        log_tags.push(WorkerLogTag::Rtcp);
        log_tags.push(WorkerLogTag::Rtx);
        log_tags.push(WorkerLogTag::Bwe);
        log_tags.push(WorkerLogTag::Score);
        log_tags.push(WorkerLogTag::Simulcast);
        log_tags.push(WorkerLogTag::Svc);
        log_tags.push(WorkerLogTag::Sctp);
        log_tags.push(WorkerLogTag::Message);
        WorkerSettings {
            rtc_min_port: self.worker_min_port,
            rtc_max_port: self.worker_max_port,
            log_level: WorkerLogLevel::Debug,
            log_tags,
        }
    }

    /// Whether there is a port for the server of worker `idx`.
    pub fn has_port(&self, idx: usize) -> (r: bool)
        ensures
            r == (port_of(self.server_port, idx) <= u16::MAX),
    {
        (idx % 0x1_0000) as u16 <= u16::MAX - self.server_port
    }

    /// Where the server of worker `idx` listens. There must be a port for it.
    pub fn listen_info(&self, idx: usize) -> (r: ListenInfo)
        requires
            port_of(self.server_port, idx) <= u16::MAX,
        ensures
            r == (ListenInfo {
                protocol: Protocol::Udp,
                ip: self.local_ip,
                announced_address: Some(self.announced_ip),
                port: Some(port_of(self.server_port, idx) as u16),
                port_range: Some((self.worker_min_port, self.worker_max_port)),
            }),
    {
        ListenInfo {
            protocol: Protocol::Udp,
            ip: self.local_ip,
            announced_address: Some(self.announced_ip.clone()),
            port: Some(self.server_port + (idx % 0x1_0000) as u16),
            port_range: Some((self.worker_min_port, self.worker_max_port)),
        }
    }
}

/// Two workers whose servers have a port each, and who are not a full round of the port
/// numbers apart, do not share it.
pub proof fn law_ports_differ(server_port: u16, a: usize, b: usize)
    requires
        a < b < a + 0x1_0000,
    ensures
        port_of(server_port, a) != port_of(server_port, b),
{
}

/// Where the start of the media workers stands: what is to be created next, for which worker,
/// or how it ended.
#[derive(Debug, Copy, Clone, PartialEq, Eq, Structural)]
pub enum Stage {
    CreateWorker { idx: usize },
    CreateRtcServer { idx: usize },
    Ready,
    Failed(Error),
}

/// The stage before worker `idx`, of `num_workers`.
pub open spec fn stage_at(num_workers: nat, idx: nat) -> Stage {
    if idx < num_workers {
        Stage::CreateWorker { idx: idx as usize }
    } else {
        Stage::Ready
    }
}

/// The stage after a report: each worker is created, then its server, one worker after the
/// other; the first failure ends it.
pub open spec fn stage_after(num_workers: nat, stage: Stage, created: bool) -> Stage {
    match stage {
        Stage::CreateWorker { idx } => if created {
            Stage::CreateRtcServer { idx }
        } else {
            Stage::Failed(Error::Worker)
        },
        Stage::CreateRtcServer { idx } => if created {
            stage_at(num_workers, (idx + 1) as nat)
        } else {
            Stage::Failed(Error::RtcServer)
        },
        Stage::Ready => Stage::Ready,
        Stage::Failed(e) => Stage::Failed(e),
    }
}

/// The start of the media workers.
#[derive(Debug)]
pub struct Launch {
    num_workers: usize,
    stage: Stage,
}

impl Launch {
    /// The number of workers to start.
    pub closed spec fn workers(self) -> nat {
        self.num_workers as nat
    }

    /// The stage.
    pub closed spec fn at(self) -> Stage {
        self.stage
    }

    /// No worker is spoken of that there is not to be.
    pub open spec fn wf(self) -> bool {
        match self.at() {
            Stage::CreateWorker { idx } => idx < self.workers(),
            Stage::CreateRtcServer { idx } => idx < self.workers(),
            _ => true,
        }
    }

    pub fn new(num_workers: usize) -> (r: Self)
        ensures
            r.wf(),
            r.workers() == num_workers,
            r.at() == stage_at(num_workers as nat, 0),
    {
        let stage = if num_workers > 0 {
            Stage::CreateWorker { idx: 0 }
        } else {
            Stage::Ready
        };
        Launch { num_workers, stage }
    }

    pub fn stage(&self) -> (r: Stage)
        ensures
            r == self.at(),
    {
        self.stage
    }

    /// Takes note of whether what was to be created was created.
    pub fn report(&mut self, created: bool)
        requires
            old(self).wf(),
        ensures
            final(self).wf(),
            final(self).workers() == old(self).workers(),
            final(self).at() == stage_after(old(self).workers(), old(self).at(), created),
    {
        self.stage = match self.stage {
            Stage::CreateWorker { idx } => if created {
                Stage::CreateRtcServer { idx }
            } else {
                Stage::Failed(Error::Worker)
            },
            Stage::CreateRtcServer { idx } => if !created {
                Stage::Failed(Error::RtcServer)
            } else if idx + 1 < self.num_workers {
                Stage::CreateWorker { idx: idx + 1 }
            } else {
                Stage::Ready
            },
            Stage::Ready => Stage::Ready,
            Stage::Failed(e) => Stage::Failed(e),
        };
    }
}

/// The stage after several reports.
pub open spec fn stage_after_all(num_workers: nat, reports: Seq<bool>) -> Stage
    decreases reports.len(),
{
    if reports.len() == 0 {
        stage_at(num_workers, 0)
    } else {
        stage_after(
            num_workers,
            stage_after_all(num_workers, reports.drop_last()),
            reports.last(),
        )
    }
}

/// While nothing fails, workers and servers are created in turn, and all is ready after
/// exactly two reports for each worker.
pub proof fn law_launch_succeeds(num_workers: usize, reports: Seq<bool>)
    requires
        forall|i: int| 0 <= i < reports.len() ==> #[trigger] reports[i],
    ensures
        stage_after_all(num_workers as nat, reports) == if reports.len() >= 2 * num_workers {
            Stage::Ready
        } else if reports.len() % 2 == 0 {
            Stage::CreateWorker { idx: (reports.len() / 2) as usize }
        } else {
            Stage::CreateRtcServer { idx: (reports.len() / 2) as usize }
        },
    decreases reports.len(),
{
    if reports.len() > 0 {
        let before = reports.drop_last();
        assert forall|i: int| 0 <= i < before.len() implies #[trigger] before[i] by {
            assert(before[i] == reports[i]);
        }
        law_launch_succeeds(num_workers, before);
        assert(reports.last());
    }
}

/// The first failure decides: what it was that failed, whatever is reported after it.
pub proof fn law_launch_fails(num_workers: usize, reports: Seq<bool>, at: int)
    requires
        0 <= at < reports.len(),
        at < 2 * num_workers,
        forall|i: int| 0 <= i < at ==> #[trigger] reports[i],
        !reports[at],
    ensures
        stage_after_all(num_workers as nat, reports) == Stage::Failed(
            if at % 2 == 0 {
                Error::Worker
            } else {
                Error::RtcServer
            },
        ),
    decreases reports.len(),
{
    let before = reports.drop_last();
    if at == before.len() {
        assert forall|i: int| 0 <= i < before.len() implies #[trigger] before[i] by {
            assert(before[i] == reports[i]);
        }
        law_launch_succeeds(num_workers, before);
    } else {
        assert forall|i: int| 0 <= i < at implies #[trigger] before[i] by {
            assert(before[i] == reports[i]);
        }
        law_launch_fails(num_workers, before, at);
    }
}

/// A launch that is over stays as it ended, whatever is reported after that; one that is not over
/// goes on with every report.
pub proof fn law_launches_end_once(num_workers: nat, stage: Stage, created: bool)
    requires
        num_workers <= usize::MAX,
        stage matches Stage::CreateRtcServer { idx } ==> idx < num_workers,
    ensures
        stage is Ready || stage is Failed <==> stage_after(num_workers, stage, created) == stage,
{
}

/// The rooms and the workers that they run on.
pub struct Server {
    workers: usize,
    nex_worker_idx: usize,
    rooms: HashMap<u64, RoomTx>,
}

/// A server's contents: how many workers there are, whose turn it is, and the rooms.
#[verifier::ext_equal]
pub struct ServerView {
    pub workers: nat,
    pub next: nat,
    pub rooms: Map<u64, RoomTx>,
}

impl View for Server {
    type V = ServerView;

    closed spec fn view(&self) -> ServerView {
        ServerView {
            workers: self.workers as nat,
            next: self.nex_worker_idx as nat,
            rooms: self.rooms@,
        }
    }
}

impl ServerView {
    /// The turn is a worker's, where there are any.
    pub open spec fn wf(self) -> bool {
        if self.workers > 0 {
            self.next < self.workers
        } else {
            self.next == 0
        }
    }

    /// The server once the turn has gone to the next worker.
    pub open spec fn turned(self) -> ServerView {
        ServerView { next: (self.next + 1) % self.workers, ..self }
    }

    /// The server once a room was entered and the turn has gone to the next worker.
    pub open spec fn placed(self, id: Uid, room_tx: RoomTx) -> ServerView {
        ServerView { rooms: self.rooms.insert(id.0, room_tx), ..self.turned() }
    }
}

/// A room that was created: its identifier, and the worker that it runs on.
#[derive(Debug, Copy, Clone, PartialEq, Eq, Structural)]
pub struct NewRoom {
    pub id: Uid,
    pub worker: usize,
}

/// What a client that asks for a room is answered: the room's channel, or that there is none.
#[derive(Debug, Copy, Clone, PartialEq, Eq, Structural)]
pub enum JoinAnswer {
    Upgrade(RoomTx),
    NotFound,
}

impl Server {
    /// A server without rooms, once its workers have started; what went wrong, if they have
    /// not.
    pub fn new(launch: Launch) -> (r: Result<Self, Error>)
        requires
            launch.at() is Ready || launch.at() is Failed,
        ensures
            match launch.at() {
                Stage::Failed(e) => r == Err::<Server, Error>(e),
                _ => r matches Ok(server) && server@ == (ServerView {
                    workers: launch.workers(),
                    next: 0,
                    rooms: Map::empty(),
                }) && server@.wf(),
            },
    {
        match launch.stage {
            Stage::Failed(e) => Err(e),
            _ => Ok(
                Server { workers: launch.num_workers, nex_worker_idx: 0, rooms: HashMap::new() },
            ),
        }
    }

    /// Whose turn it is. The workers take turns, so that rooms spread evenly over them.
    pub fn get_next_worker(&mut self) -> (worker: usize)
        requires
            old(self)@.wf(),
            old(self)@.workers > 0,
        ensures
            worker == old(self)@.next,
            worker < old(self)@.workers,
            final(self)@ == old(self)@.turned(),
            final(self)@.wf(),
    {
        let worker = self.nex_worker_idx;
        self.nex_worker_idx = (self.nex_worker_idx + 1) % self.workers;
        worker
    }

    /// The channel of a room.
    pub fn get_room(&self, id: Uid) -> (r: Option<&RoomTx>)
        ensures
            match r {
                Some(tx) => self@.rooms.contains_key(id.0) && self@.rooms[id.0] == *tx,
                None => !self@.rooms.contains_key(id.0),
            },
    {
        self.rooms.get(&id.0)
    }

    /// Enters a room under a given identifier and gives it to the worker whose turn it is.
    pub fn place_room(&mut self, id: Uid, room_tx: RoomTx) -> (worker: usize)
        requires
            old(self)@.wf(),
            old(self)@.workers > 0,
        ensures
            worker == old(self)@.next,
            worker < old(self)@.workers,
            final(self)@ == old(self)@.placed(id, room_tx),
            final(self)@.wf(),
    {
        self.rooms.insert(id.0, room_tx);
        self.get_next_worker()
    }

    /// Creates a room under a fresh identifier.
    pub fn create_room(&mut self, room_tx: RoomTx) -> (r: NewRoom)
        requires
            old(self)@.wf(),
            old(self)@.workers > 0,
        ensures
            r.worker == old(self)@.next,
            r.worker < old(self)@.workers,
            final(self)@ == old(self)@.placed(r.id, room_tx),
            final(self)@.wf(),
    {
        let id = Uid::generate();
        let worker = self.place_room(id, room_tx);
        NewRoom { id, worker }
    }

    /// What a client that asks for a room is answered.
    pub fn join_room(&self, room_id: Uid) -> (r: JoinAnswer)
        ensures
            r == if self@.rooms.contains_key(room_id.0) {
                JoinAnswer::Upgrade(self@.rooms[room_id.0])
            } else {
                JoinAnswer::NotFound
            },
    {
        match self.get_room(room_id) {
            Some(tx) => JoinAnswer::Upgrade(*tx),
            None => JoinAnswer::NotFound,
        }
    }
}

/// A room is found once it was entered, and stays found; entering it leaves every other room's
/// channel alone.
pub proof fn law_rooms_stay(pre: ServerView, id: Uid, room_tx: RoomTx, other: Uid)
    ensures
        pre.placed(id, room_tx).rooms.contains_key(id.0),
        pre.placed(id, room_tx).rooms[id.0] == room_tx,
        pre.rooms.contains_key(other.0) ==> pre.placed(id, room_tx).rooms.contains_key(other.0),
        other != id ==> pre.placed(id, room_tx).rooms.contains_key(other.0)
            == pre.rooms.contains_key(other.0),
        other != id && pre.rooms.contains_key(other.0) ==> pre.placed(id, room_tx).rooms[other.0]
            == pre.rooms[other.0],
{
}

/// The server once several rooms were entered, one after the other.
pub open spec fn placed_all(server: ServerView, rooms: Seq<(Uid, RoomTx)>) -> ServerView
    decreases rooms.len(),
{
    if rooms.len() == 0 {
        server
    } else {
        placed_all(server, rooms.drop_last()).placed(rooms.last().0, rooms.last().1)
    }
}

/// How many of several rooms, entered one after the other, run on a worker.
pub open spec fn rooms_on(server: ServerView, rooms: Seq<(Uid, RoomTx)>, worker: nat) -> nat
    decreases rooms.len(),
{
    if rooms.len() == 0 {
        0
    } else {
        let before = rooms.drop_last();
        rooms_on(server, before, worker) + if placed_all(server, before).next == worker {
            1nat
        } else {
            0
        }
    }
}

/// How long after the first room a worker's turn comes.
spec fn turn_of(server: ServerView, worker: nat) -> nat {
    if worker >= server.next {
        (worker - server.next) as nat
    } else {
        (worker + server.workers - server.next) as nat
    }
}

/// After `m` rooms every worker has had `m / n` of them, and one more if its turn has come
/// again.
proof fn lemma_turns(server: ServerView, rooms: Seq<(Uid, RoomTx)>, worker: nat)
    requires
        server.wf(),
        worker < server.workers,
    ensures
        placed_all(server, rooms).workers == server.workers,
        placed_all(server, rooms).next == (server.next + rooms.len()) % server.workers,
        rooms_on(server, rooms, worker) == rooms.len() / server.workers + if turn_of(
            server,
            worker,
        ) < rooms.len() % server.workers {
            1nat
        } else {
            0
        },
    decreases rooms.len(),
{
    let n = server.workers as int;
    if rooms.len() == 0 {
        vstd::arithmetic::div_mod::lemma_small_mod(server.next, server.workers);
        vstd::arithmetic::div_mod::lemma_small_mod(0, server.workers);
        vstd::arithmetic::div_mod::lemma_div_basics(n);
    } else {
        let before = rooms.drop_last();
        let m = before.len() as int;
        lemma_turns(server, before, worker);
        lemma_step(m, n);
        lemma_step(server.next + m, n);
        lemma_wrap(server.next as int, m, n);
    }
}

/// Counting one further.
proof fn lemma_step(m: int, n: int)
    requires
        0 <= m,
        0 < n,
    ensures
        ((m % n) + 1) % n == (m + 1) % n,
        m % n + 1 < n ==> (m + 1) / n == m / n && (m + 1) % n == m % n + 1,
        m % n + 1 == n ==> (m + 1) / n == m / n + 1 && (m + 1) % n == 0,
        0 <= m % n < n,
{
    let q = m / n;
    let r = m % n;
    vstd::arithmetic::div_mod::lemma_fundamental_div_mod(m, n);
    vstd::arithmetic::div_mod::lemma_mod_bound(m, n);
    assert(n * q == q * n) by (nonlinear_arith);
    if r + 1 < n {
        vstd::arithmetic::div_mod::lemma_fundamental_div_mod_converse(m + 1, n, q, r + 1);
        vstd::arithmetic::div_mod::lemma_small_mod((r + 1) as nat, n as nat);
    } else {
        assert((q + 1) * n == q * n + n) by (nonlinear_arith);
        vstd::arithmetic::div_mod::lemma_fundamental_div_mod_converse(m + 1, n, q + 1, 0);
        vstd::arithmetic::div_mod::lemma_mod_self_0(n);
    }
}

/// The turn after `m` rooms is `m % n` places after the first.
proof fn lemma_wrap(start: int, m: int, n: int)
    requires
        0 <= start < n,
        0 <= m,
    ensures
        (start + m) % n == if start + m % n < n {
            start + m % n
        } else {
            start + m % n - n
        },
{
    let q = m / n;
    let r = m % n;
    vstd::arithmetic::div_mod::lemma_fundamental_div_mod(m, n);
    vstd::arithmetic::div_mod::lemma_mod_bound(m, n);
    assert(n * q == q * n) by (nonlinear_arith);
    if start + r < n {
        vstd::arithmetic::div_mod::lemma_fundamental_div_mod_converse(start + m, n, q, start + r);
    } else {
        assert((q + 1) * n == q * n + n) by (nonlinear_arith);
        vstd::arithmetic::div_mod::lemma_fundamental_div_mod_converse(
            start + m,
            n,
            q + 1,
            start + r - n,
        );
    }
}

/// Rooms spread evenly: however many are created, no worker ever has more than one room more
/// than another.
pub proof fn law_rooms_spread_evenly(
    server: ServerView,
    rooms: Seq<(Uid, RoomTx)>,
    a: nat,
    b: nat,
)
    requires
        server.wf(),
        a < server.workers,
        b < server.workers,
    ensures
        rooms_on(server, rooms, a) <= rooms_on(server, rooms, b) + 1,
{
    lemma_turns(server, rooms, a);
    lemma_turns(server, rooms, b);
}

/// The first worker's server has the port that was given, and each further worker's the one above
/// the one before it, up to where the count starts over.
pub proof fn law_ports_go_upwards(server_port: u16, idx: usize)
    requires
        idx + 1 <= usize::MAX,
    ensures
        port_of(server_port, 0) == server_port,
        (idx + 1) % 0x1_0000 != 0 ==> port_of(server_port, (idx + 1) as usize) == port_of(
            server_port,
            idx,
        ) + 1,
        (idx + 1) % 0x1_0000 == 0 ==> port_of(server_port, (idx + 1) as usize) == server_port,
{
}

/// A worker's server listens for UDP on the local address, announces the announced one, and has
/// the worker's port and the range that all workers share. Whether there is such a port can be
/// asked beforehand.
pub proof fn law_servers_listen_where_they_are_told(
    options: LaunchOptions,
    idx: usize,
    info: ListenInfo,
    has_port: bool,
)
    requires
        call_ensures(LaunchOptions::has_port, (&options, idx), has_port),
        has_port,
        call_ensures(LaunchOptions::listen_info, (&options, idx), info),
    ensures
        info.protocol is Udp,
        info.ip == options.local_ip,
        info.announced_address is Some,
        info.announced_address->0@ == options.announced_ip@,
        info.port is Some,
        info.port->0 == port_of(options.server_port, idx),
        info.port_range == Some((options.worker_min_port, options.worker_max_port)),
{
}

/// There is a port for a worker exactly where its number is a port number.
pub proof fn law_when_there_is_a_port(options: LaunchOptions, idx: usize, has_port: bool)
    requires
        call_ensures(LaunchOptions::has_port, (&options, idx), has_port),
    ensures
        has_port <==> port_of(options.server_port, idx) < 0x1_0000,
        options.server_port + idx < 0x1_0000 ==> has_port,
{
}

/// Every worker has the ports that were given, logs at the finest level, and on every subject,
/// each named once.
pub proof fn law_workers_log_everything(options: LaunchOptions, settings: WorkerSettings)
    requires
        call_ensures(LaunchOptions::worker_settings, (&options,), settings),
    ensures
        settings.rtc_min_port == options.worker_min_port,
        settings.rtc_max_port == options.worker_max_port,
        settings.log_level is Debug,
        settings.log_tags@.no_duplicates(),
        forall|tag: WorkerLogTag| #[trigger] settings.log_tags@.contains(tag),
{
    let tags = settings.log_tags@;
    assert forall|tag: WorkerLogTag| #[trigger] tags.contains(tag) by {
        let at = match tag {
            WorkerLogTag::Info => 0int,
            WorkerLogTag::Ice => 1,
            WorkerLogTag::Dtls => 2,
            WorkerLogTag::Rtp => 3,
            WorkerLogTag::Srtp => 4,
            WorkerLogTag::Rtcp => 5,
            WorkerLogTag::Rtx => 6,
            WorkerLogTag::Bwe => 7,
            WorkerLogTag::Score => 8,
            WorkerLogTag::Simulcast => 9,
            WorkerLogTag::Svc => 10,
            WorkerLogTag::Sctp => 11,
            WorkerLogTag::Message => 12,
        };
        assert(tags[at] == tag);
    }
}

/// A launch starts where no report has come in yet, and each report takes it one stage on.
pub proof fn law_launches_go_by_their_reports(
    num_workers: usize,
    first: Launch,
    launch: &mut Launch,
    reports: Seq<bool>,
    created: bool,
    stage: Stage,
)
    requires
        call_ensures(Launch::new, (num_workers,), first),
        old(launch).workers() == num_workers,
        old(launch).at() == stage_after_all(num_workers as nat, reports),
        call_ensures(Launch::report, (launch, created), ()),
        call_ensures(Launch::stage, (&*final(launch),), stage),
    ensures
        first.workers() == num_workers,
        first.at() == stage_after_all(num_workers as nat, Seq::empty()),
        final(launch).workers() == num_workers,
        final(launch).at() == stage_after_all(num_workers as nat, reports.push(created)),
        stage == final(launch).at(),
{
    assert(reports.push(created).drop_last() =~= reports);
}

/// A server comes of a launch that is ready, with as many workers as were started, the first
/// one's turn, and no rooms; of a launch that failed comes what failed.
pub proof fn law_servers_come_of_launches(launch: Launch, r: Result<Server, Error>)
    requires
        call_ensures(Server::new, (launch,), r),
    ensures
        launch.at() is Ready ==> {
            &&& r is Ok
            &&& r->Ok_0@.workers == launch.workers()
            &&& r->Ok_0@.next == 0
            &&& forall|id: u64| !(#[trigger] r->Ok_0@.rooms.contains_key(id))
        },
        launch.at() is Failed ==> r is Err && r->Err_0 == launch.at()->Failed_0,
{
}

/// A room that was created is found under the identifier that was given back, with the channel
/// that it was created with, and a client that asks for it is let through to it; every other
/// identifier is answered as before.
pub proof fn law_created_rooms_are_found(
    server: &mut Server,
    tx: RoomTx,
    room: NewRoom,
    id: Uid,
    before: Option<&RoomTx>,
    after: Option<&RoomTx>,
    answer: JoinAnswer,
)
    requires
        call_ensures(Server::create_room, (server, tx), room),
        call_ensures(Server::get_room, (&*old(server), id), before),
        call_ensures(Server::get_room, (&*final(server), id), after),
        call_ensures(Server::join_room, (&*final(server), id), answer),
    ensures
        id == room.id ==> after is Some && *after->0 == tx,
        id != room.id ==> (after is Some <==> before is Some),
        id != room.id && before is Some ==> *after->0 == *before->0,
        after is Some ==> answer == JoinAnswer::Upgrade(*after->0),
        after is None ==> answer is NotFound,
{
}

/// The same of a room that is entered under a given identifier.
pub proof fn law_placed_rooms_are_found(
    server: &mut Server,
    room_id: Uid,
    tx: RoomTx,
    worker: usize,
    id: Uid,
    before: Option<&RoomTx>,
    after: Option<&RoomTx>,
)
    requires
        call_ensures(Server::place_room, (server, room_id, tx), worker),
        call_ensures(Server::get_room, (&*old(server), id), before),
        call_ensures(Server::get_room, (&*final(server), id), after),
    ensures
        id == room_id ==> after is Some && *after->0 == tx,
        id != room_id ==> (after is Some <==> before is Some),
        id != room_id && before is Some ==> *after->0 == *before->0,
{
}

/// The workers take turns: whichever way a room comes in, it runs on the worker whose turn it
/// was, and the next room runs on the next worker, the first one coming after the last.
pub proof fn law_workers_take_turns(
    server: &mut Server,
    tx: RoomTx,
    room: NewRoom,
    later: &mut Server,
    room_id: Uid,
    later_tx: RoomTx,
    worker: usize,
    last: &mut Server,
    turn: usize,
)
    requires
        old(server)@.wf(),
        old(server)@.workers > 0,
        call_ensures(Server::create_room, (server, tx), room),
        *old(later) == *final(server),
        call_ensures(Server::place_room, (later, room_id, later_tx), worker),
        *old(last) == *final(later),
        call_ensures(Server::get_next_worker, (last,), turn),
    ensures
        room.worker == old(server)@.next,
        final(server)@.workers == old(server)@.workers,
        worker == if room.worker + 1 < old(server)@.workers {
            room.worker + 1
        } else {
            0
        },
        turn == if worker + 1 < old(server)@.workers {
            worker + 1
        } else {
            0
        },
        final(last)@.workers == old(server)@.workers,
        final(last)@.rooms == final(later)@.rooms,
{
    let n = old(server)@.workers;
    if room.worker + 1 < n {
        vstd::arithmetic::div_mod::lemma_small_mod((room.worker + 1) as nat, n);
    } else {
        vstd::arithmetic::div_mod::lemma_mod_self_0(n as int);
    }
    if worker + 1 < n {
        vstd::arithmetic::div_mod::lemma_small_mod((worker + 1) as nat, n);
    } else {
        vstd::arithmetic::div_mod::lemma_mod_self_0(n as int);
    }
}

} // verus!
