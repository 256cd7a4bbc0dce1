//! Now playing: what each of a user's devices plays, and remote control between
//! them.
//!
//! A device holds a socket. It reports what it plays, hears of the other devices,
//! and sends commands to them. Where several instances of the server run, they
//! tell each other over a channel of the store what their own sockets miss.

use crate::error::{AppError, ErrorView, Failure, FailureView};
use crate::json::{copy_json, json_contents, JsonModel};
use crate::models::{NowPlayingDevicesResponse, NowPlayingSnapshot};
use crate::redis_client::{RedisClient, RedisCommand};
use crate::text::same;
use std::collections::HashMap;
use vstd::prelude::*;
use vstd::std_specs::hash::group_hash_axioms;
use vstd::string::*;

verus! {

broadcast use group_hash_axioms;

// ------------------------------------------------------------------
// Connections
// ------------------------------------------------------------------

/// The entry at `i` is that of the device.
spec fn is_device<T>(entries: Seq<(String, T)>, device_id: Seq<char>, i: int) -> bool {
    0 <= i < entries.len() && entries[i].0@ == device_id
}

spec fn has_device<T>(entries: Seq<(String, T)>, device_id: Seq<char>) -> bool {
    exists|i: int| is_device(entries, device_id, i)
}

spec fn connection_of<T>(entries: Seq<(String, T)>, device_id: Seq<char>) -> T {
    entries[choose|i: int| is_device(entries, device_id, i)].1
}

/// No device has two entries.
spec fn are_distinct<T>(entries: Seq<(String, T)>) -> bool {
    forall|i: int, j: int|
        0 <= i < entries.len() && 0 <= j < entries.len() && (#[trigger] entries[i]).0@ == (
        #[trigger] entries[j]).0@ ==> i == j
}

/// The live connections of the users' devices, by user and device, so that a
/// single device can be addressed or left out. A connection is a `T`.
///
/// The view is the connection of each user's devices.
pub struct NowPlayingManager<T> {
    connections: HashMap<i32, Vec<(String, T)>>,
}

impl<T> View for NowPlayingManager<T> {
    type V = Map<(i32, Seq<char>), T>;

    closed spec fn view(&self) -> Map<(i32, Seq<char>), T> {
        Map::new(
            |key: (i32, Seq<char>)|
                self.connections@.contains_key(key.0) && has_device(
                    self.connections@[key.0]@,
                    key.1,
                ),
            |key: (i32, Seq<char>)| connection_of(self.connections@[key.0]@, key.1),
        )
    }
}

proof fn lemma_entry<T>(entries: Seq<(String, T)>, i: int)
    requires
        are_distinct(entries),
        0 <= i < entries.len(),
    ensures
        has_device(entries, entries[i].0@),
        connection_of(entries, entries[i].0@) == entries[i].1,
{
    assert(is_device(entries, entries[i].0@, i));
}

/// What setting a device's entry changes.
proof fn lemma_added<T>(
    entries: Seq<(String, T)>,
    after: Seq<(String, T)>,
    entry: (String, T),
    at: int,
    d: Seq<char>,
)
    requires
        are_distinct(entries),
        ({
            ||| is_device(entries, entry.0@, at) && after == entries.update(at, entry)
            ||| !has_device(entries, entry.0@) && at == entries.len() && after == entries.push(
                entry,
            )
        }),
    ensures
        are_distinct(after),
        has_device(after, d) <==> d == entry.0@ || has_device(entries, d),
        has_device(after, d) ==> connection_of(after, d) == (if d == entry.0@ {
            entry.1
        } else {
            connection_of(entries, d)
        }),
{
    assert forall|i: int, j: int|
        0 <= i < after.len() && 0 <= j < after.len() && (#[trigger] after[i]).0@ == (
        #[trigger] after[j]).0@ implies i == j by {
        if i < entries.len() && i != at && (j == at || j >= entries.len()) {
            assert(is_device(entries, entry.0@, i));
        }
        if j < entries.len() && j != at && (i == at || i >= entries.len()) {
            assert(is_device(entries, entry.0@, j));
        }
    }
    assert(after[at] == entry);
    lemma_entry(after, at);
    if d != entry.0@ {
        if has_device(entries, d) {
            let i = choose|i: int| is_device(entries, d, i);
            assert(after[i] == entries[i]);
            lemma_entry(after, i);
            lemma_entry(entries, i);
        }
        if has_device(after, d) {
            let i = choose|i: int| is_device(after, d, i);
            assert(i != at);
            assert(after[i] == entries[i]);
            assert(is_device(entries, d, i));
        }
    }
}

/// What removing a device's entry changes.
proof fn lemma_removed<T>(entries: Seq<(String, T)>, at: int, d: Seq<char>)
    requires
        are_distinct(entries),
        0 <= at < entries.len(),
    ensures
        are_distinct(entries.remove(at)),
        has_device(entries.remove(at), d) <==> d != entries[at].0@ && has_device(entries, d),
        has_device(entries.remove(at), d) ==> connection_of(entries.remove(at), d)
            == connection_of(entries, d),
{
    let after = entries.remove(at);
    assert forall|i: int, j: int|
        0 <= i < after.len() && 0 <= j < after.len() && (#[trigger] after[i]).0@ == (
        #[trigger] after[j]).0@ implies i == j by {
        let a = if i < at {
            i
        } else {
            i + 1
        };
        let b = if j < at {
            j
        } else {
            j + 1
        };
        assert(after[i] == entries[a]);
        assert(after[j] == entries[b]);
    }
    if has_device(after, d) {
        let i = choose|i: int| is_device(after, d, i);
        let a = if i < at {
            i
        } else {
            i + 1
        };
        assert(after[i] == entries[a]);
        lemma_entry(after, i);
        lemma_entry(entries, a);
    }
    if d != entries[at].0@ && has_device(entries, d) {
        let a = choose|a: int| is_device(entries, d, a);
        let i = if a < at {
            a
        } else {
            a - 1
        };
        assert(after[i] == entries[a]);
        assert(is_device(after, d, i));
    }
}

/// The position of a device's entry.
fn position<T>(entries: &Vec<(String, T)>, device_id: &str) -> (r: Option<usize>)
    ensures
        match r {
            Some(i) => is_device(entries@, device_id@, i as int),
            None => !has_device(entries@, device_id@),
        },
{
    let mut i: usize = 0;
    while i < entries.len()
        invariant
            i <= entries.len(),
            forall|k: int| 0 <= k < i ==> (#[trigger] entries@[k]).0@ != device_id@,
        decreases entries.len() - i,
    {
        if same(entries[i].0.as_str(), device_id) {
            return Some(i);
        }
        i = i + 1;
    }
    None
}

/// The connections that a message to a user's devices goes to: one for each
/// device but `except`, in some order.
pub open spec fn is_broadcast<T>(
    connections: Map<(i32, Seq<char>), T>,
    user_id: i32,
    except: Seq<char>,
    devices: Seq<Seq<char>>,
    recipients: Seq<&T>,
) -> bool {
    &&& devices.no_duplicates()
    &&& devices.len() == recipients.len()
    &&& forall|device_id: Seq<char>| #[trigger]
        devices.contains(device_id) <==> device_id != except && connections.contains_key(
            (user_id, device_id),
        )
    &&& forall|i: int|
        0 <= i < recipients.len() ==> *(#[trigger] recipients[i]) == connections[(
            user_id,
            devices[i],
        )]
}

impl<T> NowPlayingManager<T> {
    /// The users with connections.
    pub closed spec fn users(&self) -> Set<i32> {
        self.connections@.dom()
    }

    pub closed spec fn wf(&self) -> bool {
        forall|user_id: i32| #[trigger]
            self.connections@.contains_key(user_id) ==> self.connections@[user_id]@.len() > 0
                && are_distinct(self.connections@[user_id]@)
    }

    pub fn new() -> (r: Self)
        ensures
            r.wf(),
            r@ == Map::<(i32, Seq<char>), T>::empty(),
            r.users() == Set::<i32>::empty(),
    {
        let r = NowPlayingManager { connections: HashMap::new() };
        assert(r@ =~= Map::<(i32, Seq<char>), T>::empty());
        r
    }

    /// Registers a device's connection, in place of an earlier one of the device.
    pub fn add(&mut self, user_id: i32, device_id: String, tx: T)
        requires
            old(self).wf(),
        ensures
            final(self).wf(),
            final(self)@ == old(self)@.insert((user_id, device_id@), tx),
            final(self).users() == old(self).users().insert(user_id),
    {
        let ghost before = *self;
        let ghost name = device_id;
        let mut devices = match self.connections.remove(&user_id) {
            Some(devices) => devices,
            None => Vec::new(),
        };
        let ghost entries = devices@;
        let at = position(&devices, device_id.as_str());
        match at {
            Some(i) => {
                devices.set(i, (device_id, tx));
            },
            None => {
                devices.push((device_id, tx));
            },
        }
        let ghost after = devices@;
        self.connections.insert(user_id, devices);
        proof {
            let place = match at {
                Some(i) => i as int,
                None => entries.len() as int,
            };
            assert forall|d: Seq<char>|
                #![trigger has_device(after, d)]
                #![trigger connection_of(after, d)]
                (has_device(after, d) <==> d == name@ || has_device(entries, d)) && (has_device(
                    after,
                    d,
                ) ==> connection_of(after, d) == (if d == name@ {
                    tx
                } else {
                    connection_of(entries, d)
                })) by {
                lemma_added(entries, after, (name, tx), place, d);
            }
            lemma_added(entries, after, (name, tx), place, name@);
            assert(self@ =~= before@.insert((user_id, name@), tx));
            assert(self.users() =~= before.users().insert(user_id));
        }
    }

    /// Forgets a device's connection.
    pub fn remove(&mut self, user_id: i32, device_id: &str)
        requires
            old(self).wf(),
        ensures
            final(self).wf(),
            final(self)@ == old(self)@.remove((user_id, device_id@)),
    {
        let ghost before = *self;
        if let Some(mut devices) = self.connections.remove(&user_id) {
            let ghost entries = devices@;
            if let Some(i) = position(&devices, device_id) {
                devices.remove(i);
                proof {
                    assert forall|d: Seq<char>|
                        #![trigger has_device(devices@, d)]
                        #![trigger connection_of(devices@, d)]
                        (has_device(devices@, d) <==> d != device_id@ && has_device(entries, d))
                            && (has_device(devices@, d) ==> connection_of(devices@, d)
                            == connection_of(entries, d)) by {
                        lemma_removed(entries, i as int, d);
                    }
                    lemma_removed(entries, i as int, device_id@);
                }
            }
            let ghost after = devices@;
            if devices.len() > 0 {
                self.connections.insert(user_id, devices);
            }
            assert(after.len() == 0 ==> forall|d: Seq<char>| !has_device(after, d));
        }
        assert(self@ =~= before@.remove((user_id, device_id@)));
    }

    /// The connection that a message for one device goes to, if the device is
    /// connected here.
    pub fn send_to_device(&self, user_id: i32, device_id: &str) -> (r: Option<&T>)
        requires
            self.wf(),
        ensures
            match r {
                Some(tx) => self@.contains_key((user_id, device_id@)) && *tx == self@[(
                    user_id,
                    device_id@,
                )],
                None => !self@.contains_key((user_id, device_id@)),
            },
    {
        match self.connections.get(&user_id) {
            Some(devices) => match position(devices, device_id) {
                Some(i) => {
                    proof {
                        lemma_entry(devices@, i as int);
                    }
                    Some(&devices[i].1)
                },
                None => None,
            },
            None => None,
        }
    }

    /// The connections that a message to the other devices of a user goes to.
    pub fn broadcast_user_except(&self, user_id: i32, except_device: &str) -> (r: Vec<&T>)
        requires
            self.wf(),
        ensures
            exists|devices: Seq<Seq<char>>|
                is_broadcast(self@, user_id, except_device@, devices, r@),
    {
        let mut recipients: Vec<&T> = Vec::new();
        let ghost mut named: Seq<Seq<char>> = Seq::empty();
        match self.connections.get(&user_id) {
            Some(devices) => {
                let ghost entries = devices@;
                let mut i: usize = 0;
                while i < devices.len()
                    invariant
                        i <= devices.len(),
                        entries == devices@,
                        self.wf(),
                        self.connections@.contains_key(user_id),
                        self.connections@[user_id]@ == entries,
                        named.len() == recipients@.len(),
                        named.no_duplicates(),
                        forall|d: Seq<char>| #[trigger]
                            named.contains(d) <==> d != except_device@ && exists|k: int|
                                0 <= k < i && is_device(entries, d, k),
                        forall|k: int|
                            0 <= k < named.len() ==> *(#[trigger] recipients@[k])
                                == self@[(user_id, named[k])],
                    decreases devices.len() - i,
                {
                    let ghost before = named;
                    if !same(devices[i].0.as_str(), except_device) {
                        recipients.push(&devices[i].1);
                        proof {
                            let name = entries[i as int].0@;
                            lemma_entry(entries, i as int);
                            if named.contains(name) {
                                let k = choose|k: int| 0 <= k < i && is_device(entries, name, k);
                                assert(entries[k].0@ == entries[i as int].0@);
                            }
                            named = named.push(name);
                        }
                    }
                    proof {
                        assert forall|d: Seq<char>| #[trigger]
                            named.contains(d) <==> d != except_device@ && exists|k: int|
                                0 <= k < i + 1 && is_device(entries, d, k) by {
                            let name = entries[i as int].0@;
                            assert(is_device(entries, name, i as int));
                            if named.len() > before.len() {
                                assert(named[named.len() - 1] == name);
                                if before.contains(d) {
                                    let k = choose|k: int| 0 <= k < before.len() && before[k] == d;
                                    assert(named[k] == d);
                                }
                            }
                            if before.contains(d) {
                                let k = choose|k: int| 0 <= k < i && is_device(entries, d, k);
                                assert(0 <= k < i + 1 && is_device(entries, d, k));
                            }
                            if d != except_device@ && exists|k: int|
                                0 <= k < i + 1 && is_device(entries, d, k) {
                                let k = choose|k: int| 0 <= k < i + 1 && is_device(entries, d, k);
                                if k < i {
                                    assert(before.contains(d));
                                }
                            }
                        }
                    }
                    i = i + 1;
                }
            },
            None => {},
        }
        assert(is_broadcast(self@, user_id, except_device@, named, recipients@));
        recipients
    }
}

impl<T> Default for NowPlayingManager<T> {
    fn default() -> (r: Self)
        ensures
            r.wf(),
            r@ == Map::<(i32, Seq<char>), T>::empty(),
            r.users() == Set::<i32>::empty(),
    {
        Self::new()
    }
}

/// A user is kept only while one of the user's devices is connected.
pub proof fn law_users_are_those_with_devices<T>(manager: NowPlayingManager<T>, user_id: i32)
    requires
        manager.wf(),
    ensures
        manager.users().contains(user_id) <==> exists|device_id: Seq<char>|
            manager@.contains_key((user_id, device_id)),
{
    if manager.users().contains(user_id) {
        let entries = manager.connections@[user_id]@;
        assert(is_device(entries, entries[0].0@, 0));
        assert(manager@.contains_key((user_id, entries[0].0@)));
    }
}

// ------------------------------------------------------------------
// Messages
// ------------------------------------------------------------------

/// What a device sends.
#[derive(Debug, PartialEq)]
pub enum ClientMsg<N> {
    /// What the device plays.
    Report {
        episode_id: i32,
        is_youtube: bool,
        title: String,
        artwork_url: String,
        position_sec: N,
        duration_sec: N,
        playing: bool,
        speed: N,
    },
    /// Keeps the device listed without a change, as while it is paused.
    Heartbeat,
    /// A command for another of the user's devices.
    Command { target_device_id: String, action: String, args: serde_json::Value },
}

/// What a device receives.
#[derive(Debug, PartialEq)]
pub enum ServerMsg<N> {
    /// The user's active devices and what they play.
    Devices { devices: Vec<NowPlayingSnapshot<N>> },
    /// A command from another device, for the local player.
    Command { from_device_id: String, action: String, args: serde_json::Value },
    /// What became of a command that the device sent.
    Ack { ok: bool, detail: String },
}

/// What the instances of the server tell each other.
#[derive(Debug, PartialEq)]
pub enum NpBridgeMsg {
    /// A user's devices have changed.
    DevicesChanged { user_id: i32, origin_device: String, instance_id: String },
    /// A command for a device that is not connected to the instance that sends
    /// it.
    Command {
        user_id: i32,
        target_device_id: String,
        from_device_id: String,
        action: String,
        args: serde_json::Value,
        instance_id: String,
    },
}

/// `ServerMsg` as plain values.
pub enum ServerView<N> {
    Devices { devices: Seq<NowPlayingSnapshot<N>> },
    Command { from_device_id: Seq<char>, action: Seq<char>, args: JsonModel },
    Ack { ok: bool, detail: Seq<char> },
}

/// `NpBridgeMsg` as plain values.
pub enum BridgeView {
    DevicesChanged { user_id: i32, origin_device: Seq<char>, instance_id: Seq<char> },
    Command {
        user_id: i32,
        target_device_id: Seq<char>,
        from_device_id: Seq<char>,
        action: Seq<char>,
        args: JsonModel,
        instance_id: Seq<char>,
    },
}

impl<N> View for ServerMsg<N> {
    type V = ServerView<N>;

    open spec fn view(&self) -> ServerView<N> {
        match *self {
            ServerMsg::Devices { devices } => ServerView::Devices { devices: devices@ },
            ServerMsg::Command { from_device_id, action, args } => ServerView::Command {
                from_device_id: from_device_id@,
                action: action@,
                args: json_contents(args),
            },
            ServerMsg::Ack { ok, detail } => ServerView::Ack { ok, detail: detail@ },
        }
    }
}

impl View for NpBridgeMsg {
    type V = BridgeView;

    open spec fn view(&self) -> BridgeView {
        match *self {
            NpBridgeMsg::DevicesChanged { user_id, origin_device, instance_id } => {
                BridgeView::DevicesChanged {
                    user_id,
                    origin_device: origin_device@,
                    instance_id: instance_id@,
                }
            },
            NpBridgeMsg::Command {
                user_id,
                target_device_id,
                from_device_id,
                action,
                args,
                instance_id,
            } => BridgeView::Command {
                user_id,
                target_device_id: target_device_id@,
                from_device_id: from_device_id@,
                action: action@,
                args: json_contents(args),
                instance_id: instance_id@,
            },
        }
    }
}

impl BridgeView {
    /// The user whose devices the message is about.
    pub open spec fn user(self) -> i32 {
        match self {
            BridgeView::DevicesChanged { user_id, origin_device, instance_id } => user_id,
            BridgeView::Command {
                user_id,
                target_device_id,
                from_device_id,
                action,
                args,
                instance_id,
            } => user_id,
        }
    }

    /// The instance that sent the message.
    pub open spec fn instance(self) -> Seq<char> {
        match self {
            BridgeView::DevicesChanged { user_id, origin_device, instance_id } => instance_id,
            BridgeView::Command {
                user_id,
                target_device_id,
                from_device_id,
                action,
                args,
                instance_id,
            } => instance_id,
        }
    }
}

impl NpBridgeMsg {
    /// The instance that sent the message.
    pub fn instance_id(&self) -> (r: &str)
        ensures
            r@ == self@.instance(),
    {
        match self {
            NpBridgeMsg::DevicesChanged { instance_id, .. } => instance_id.as_str(),
            NpBridgeMsg::Command { instance_id, .. } => instance_id.as_str(),
        }
    }
}

// ------------------------------------------------------------------
// The list of devices, over HTTP
// ------------------------------------------------------------------

/// The parameters of a request for a user's devices.
#[derive(Debug, PartialEq)]
pub struct NowPlayingDevicesQuery {
    pub user_id: i32,
}

/// How far a request for a user's devices has come: what it waits for.
#[derive(Debug, Clone, Copy, PartialEq, Eq)]
pub enum DevicesStage {
    /// Whether the API key is valid.
    KeyCheck,
    /// Whether the key gives access to the user.
    AccessCheck,
    /// The devices.
    Listing,
    Over,
}

/// What is to be done next.
#[derive(Debug, PartialEq)]
pub enum DevicesEffect<N, E> {
    VerifyKey { api_key: String },
    CheckAccess { api_key: String, user_id: i32 },
    List { user_id: i32 },
    Finish(Result<NowPlayingDevicesResponse<N>, Failure<E>>),
}

/// What came of the last effect.
pub enum DevicesReply<N, E> {
    KeyVerified(Result<bool, E>),
    AccessChecked(Result<bool, E>),
    Listed(Result<Vec<NowPlayingSnapshot<N>>, E>),
}

/// `DevicesEffect` as plain values.
pub enum DevicesEffectView<N, E> {
    VerifyKey { api_key: Seq<char> },
    CheckAccess { api_key: Seq<char>, user_id: i32 },
    List { user_id: i32 },
    Finish(Result<Seq<NowPlayingSnapshot<N>>, FailureView<E>>),
}

impl<N, E> View for DevicesEffect<N, E> {
    type V = DevicesEffectView<N, E>;

    open spec fn view(&self) -> DevicesEffectView<N, E> {
        match *self {
            DevicesEffect::VerifyKey { api_key } => DevicesEffectView::VerifyKey {
                api_key: api_key@,
            },
            DevicesEffect::CheckAccess { api_key, user_id } => DevicesEffectView::CheckAccess {
                api_key: api_key@,
                user_id,
            },
            DevicesEffect::List { user_id } => DevicesEffectView::List { user_id },
            DevicesEffect::Finish(Ok(response)) => DevicesEffectView::Finish(
                Ok(response.devices@),
            ),
            DevicesEffect::Finish(Err(failure)) => DevicesEffectView::Finish(Err(failure@)),
        }
    }
}

/// The request fails by a rule.
pub open spec fn denied<N, E>(error: ErrorView) -> (DevicesStage, DevicesEffectView<N, E>) {
    (DevicesStage::Over, DevicesEffectView::Finish(Err(FailureView::App(error))))
}

/// The request fails outside.
pub open spec fn failed<N, E>(e: E) -> (DevicesStage, DevicesEffectView<N, E>) {
    (DevicesStage::Over, DevicesEffectView::Finish(Err(FailureView::Outside(e))))
}

/// Where a reply leads, and what is to be done then. A reply to something that was
/// not asked gives no access.
pub open spec fn devices_step<N, E>(
    api_key: Seq<char>,
    user_id: i32,
    stage: DevicesStage,
    reply: DevicesReply<N, E>,
) -> (DevicesStage, DevicesEffectView<N, E>) {
    match (stage, reply) {
        (DevicesStage::KeyCheck, DevicesReply::KeyVerified(outcome)) => match outcome {
            Ok(true) => (
                DevicesStage::AccessCheck,
                DevicesEffectView::CheckAccess { api_key, user_id },
            ),
            Ok(false) => denied(ErrorView::Unauthorized("Invalid API key"@)),
            Err(e) => failed(e),
        },
        (DevicesStage::AccessCheck, DevicesReply::AccessChecked(outcome)) => match outcome {
            Ok(true) => (DevicesStage::Listing, DevicesEffectView::List { user_id }),
            Ok(false) => denied(ErrorView::Forbidden("You can only view your own devices!"@)),
            Err(e) => failed(e),
        },
        (DevicesStage::Listing, DevicesReply::Listed(outcome)) => match outcome {
            Ok(devices) => (DevicesStage::Over, DevicesEffectView::Finish(Ok(devices@))),
            Err(e) => failed(e),
        },
        _ => denied(ErrorView::Unauthorized("Invalid API key"@)),
    }
}

/// A request for a user's devices: the key is verified, then the access, and only
/// then the devices are read.
pub struct DevicesRequest {
    api_key: String,
    user_id: i32,
    stage: DevicesStage,
}

impl DevicesRequest {
    pub closed spec fn api_key(&self) -> Seq<char> {
        self.api_key@
    }

    pub closed spec fn user(&self) -> i32 {
        self.user_id
    }

    pub closed spec fn stage(&self) -> DevicesStage {
        self.stage
    }

    /// Takes the reply to the last effect, and gives the next one.
    pub fn step<N, E>(self, reply: DevicesReply<N, E>) -> (r: (Self, DevicesEffect<N, E>))
        ensures
            r.0.api_key() == self.api_key(),
            r.0.user() == self.user(),
            (r.0.stage(), r.1@) == devices_step(
                self.api_key(),
                self.user(),
                self.stage(),
                reply,
            ),
    {
        let DevicesRequest { api_key, user_id, stage } = self;
        let (stage, effect) = match (stage, reply) {
            (DevicesStage::KeyCheck, DevicesReply::KeyVerified(outcome)) => match outcome {
                Ok(valid) => {
                    if valid {
                        (
                            DevicesStage::AccessCheck,
                            DevicesEffect::CheckAccess { api_key: api_key.clone(), user_id },
                        )
                    } else {
                        (
                            DevicesStage::Over,
                            DevicesEffect::Finish(
                                Err(Failure::App(AppError::unauthorized("Invalid API key"))),
                            ),
                        )
                    }
                },
                Err(e) => (DevicesStage::Over, DevicesEffect::Finish(Err(Failure::Outside(e)))),
            },
            (DevicesStage::AccessCheck, DevicesReply::AccessChecked(outcome)) => match outcome {
                Ok(granted) => {
                    if granted {
                        (DevicesStage::Listing, DevicesEffect::List { user_id })
                    } else {
                        (
                            DevicesStage::Over,
                            DevicesEffect::Finish(
                                Err(
                                    Failure::App(
                                        AppError::forbidden("You can only view your own devices!"),
                                    ),
                                ),
                            ),
                        )
                    }
                },
                Err(e) => (DevicesStage::Over, DevicesEffect::Finish(Err(Failure::Outside(e)))),
            },
            (DevicesStage::Listing, DevicesReply::Listed(outcome)) => match outcome {
                Ok(devices) => (
                    DevicesStage::Over,
                    DevicesEffect::Finish(Ok(NowPlayingDevicesResponse { devices })),
                ),
                Err(e) => (DevicesStage::Over, DevicesEffect::Finish(Err(Failure::Outside(e)))),
            },
            _ => (
                DevicesStage::Over,
                DevicesEffect::Finish(
                    Err(Failure::App(AppError::unauthorized("Invalid API key"))),
                ),
            ),
        };
        (DevicesRequest { api_key, user_id, stage }, effect)
    }
}

/// Lists the user's active devices and what each of them plays, for clients
/// without a live socket.
pub fn now_playing_devices<N, E>(query: &NowPlayingDevicesQuery, api_key: String) -> (r: (
    DevicesRequest,
    DevicesEffect<N, E>,
))
    ensures
        r.0.api_key() == api_key@,
        r.0.user() == query.user_id,
        r.0.stage() is KeyCheck,
        r.1@ == (DevicesEffectView::<N, E>::VerifyKey { api_key: api_key@ }),
{
    let effect = DevicesEffect::VerifyKey { api_key: api_key.clone() };
    (DevicesRequest { api_key, user_id: query.user_id, stage: DevicesStage::KeyCheck }, effect)
}

// ------------------------------------------------------------------
// The socket
// ------------------------------------------------------------------

/// The user whose API key gives access to everybody's socket.
pub const SYSTEM_USER_ID: i32 = 1;

/// The parameters of a socket. The key stands there because browsers cannot set
/// headers on a socket.
#[derive(Debug, PartialEq)]
pub struct NowPlayingWsQuery {
    pub api_key: String,
    pub device_id: String,
    pub device_name: String,
    pub device_type: String,
}

/// What comes of a request for a socket.
#[derive(Debug, PartialEq)]
pub enum Handshake {
    /// Ask whose API key it is.
    AskOwner,
    /// Open the socket.
    Upgrade,
    /// Refuse it with the text.
    Refuse(&'static str),
}

/// `Handshake` with its text as a character sequence.
pub enum HandshakeView {
    AskOwner,
    Upgrade,
    Refuse(Seq<char>),
}

impl View for Handshake {
    type V = HandshakeView;

    open spec fn view(&self) -> HandshakeView {
        match *self {
            Handshake::AskOwner => HandshakeView::AskOwner,
            Handshake::Upgrade => HandshakeView::Upgrade,
            Handshake::Refuse(text) => HandshakeView::Refuse(text@),
        }
    }
}

/// What a verified API key leads to.
pub open spec fn after_key<E>(verified: Result<bool, E>) -> HandshakeView {
    match verified {
        Ok(true) => HandshakeView::AskOwner,
        _ => HandshakeView::Refuse("Invalid API key"@),
    }
}

/// What the owner of an API key leads to, for the socket of a user.
pub open spec fn after_owner<E>(user_id: i32, owner: Result<i32, E>) -> HandshakeView {
    match owner {
        Ok(owner) => if may_open(user_id, owner) {
            HandshakeView::Upgrade
        } else {
            HandshakeView::Refuse("API key does not belong to requested user"@)
        },
        Err(_) => HandshakeView::Refuse("Invalid API key"@),
    }
}

/// Decides a request for a socket once its API key is verified.
pub fn now_playing_websocket<E>(verified: &Result<bool, E>) -> (r: Handshake)
    ensures
        r@ == after_key(*verified),
        if *verified == Ok::<bool, E>(true) {
            r is AskOwner
        } else {
            r matches Handshake::Refuse(text) && text@ == "Invalid API key"@
        },
{
    match verified {
        Ok(valid) => {
            if *valid {
                Handshake::AskOwner
            } else {
                Handshake::Refuse("Invalid API key")
            }
        },
        Err(_) => Handshake::Refuse("Invalid API key"),
    }
}

/// The owner of a key may open the socket of a user.
pub open spec fn may_open(user_id: i32, owner: i32) -> bool {
    owner == user_id || owner == SYSTEM_USER_ID
}

/// Decides a request for a user's socket once the owner of its API key is known.
pub fn owner_verdict<E>(user_id: i32, owner: &Result<i32, E>) -> (r: Handshake)
    ensures
        r@ == after_owner(user_id, *owner),
        match *owner {
            Ok(owner) => if may_open(user_id, owner) {
                r is Upgrade
            } else {
                r matches Handshake::Refuse(text) && text@
                    == "API key does not belong to requested user"@
            },
            Err(_) => r matches Handshake::Refuse(text) && text@ == "Invalid API key"@,
        },
{
    match owner {
        Ok(owner) => {
            if *owner == user_id || *owner == SYSTEM_USER_ID {
                Handshake::Upgrade
            } else {
                Handshake::Refuse("API key does not belong to requested user")
            }
        },
        Err(_) => Handshake::Refuse("Invalid API key"),
    }
}

/// A device's socket on one instance of the server.
#[derive(Debug, PartialEq)]
pub struct NowPlayingSocket {
    pub user_id: i32,
    pub device_id: String,
    pub device_name: String,
    pub device_type: String,
    pub instance_id: String,
}

/// What arrives on a socket.
#[derive(Debug, PartialEq)]
pub enum Frame<N> {
    Message(ClientMsg<N>),
    /// A text that is no message.
    Malformed,
    Close,
    /// Anything but a text, as a ping.
    Other,
}

/// A command that has been relayed, until it is known whether it arrived.
#[derive(Debug, PartialEq)]
pub struct PendingCommand {
    pub target_device_id: String,
    pub action: String,
    pub args: serde_json::Value,
}

/// What the server does for a socket.
#[derive(Debug, PartialEq)]
pub enum SocketEffect<N> {
    /// Register the socket's connection.
    Register { user_id: i32, device_id: String },
    /// Send the user's devices to this device.
    SendDevices { user_id: i32 },
    /// Store what a device plays, stamped with the time.
    Upsert { user_id: i32, snapshot: NowPlayingSnapshot<N> },
    /// Renew what is stored of a device.
    Touch { user_id: i32, device_id: String },
    /// Send the user's devices to the others that are connected here.
    BroadcastDevices { user_id: i32, origin_device: String },
    /// Tell the other instances.
    Publish(NpBridgeMsg),
    /// Let the user know that a playback started, without waiting for it.
    NotifyStart {
        user_id: i32,
        episode_id: i32,
        is_youtube: bool,
        device_name: String,
        position_sec: N,
    },
    /// Send a command to a device that is connected here, and report whether the
    /// connection took it.
    Relay {
        user_id: i32,
        target_device_id: String,
        message: ServerMsg<N>,
        pending: PendingCommand,
    },
    /// Hand a command to the other instances, and report how many got it.
    PublishCommand(NpBridgeMsg),
    /// Send a message to this device.
    Reply(ServerMsg<N>),
    /// Forget the socket's connection.
    Unregister { user_id: i32, device_id: String },
    /// Forget what is stored of a device.
    Forget { user_id: i32, device_id: String },
    /// Stop reading from the socket.
    Stop,
}

/// `PendingCommand` as plain values.
pub struct PendingView {
    pub target_device_id: Seq<char>,
    pub action: Seq<char>,
    pub args: JsonModel,
}

impl View for PendingCommand {
    type V = PendingView;

    open spec fn view(&self) -> PendingView {
        PendingView {
            target_device_id: self.target_device_id@,
            action: self.action@,
            args: json_contents(self.args),
        }
    }
}

/// `SocketEffect` as plain values.
pub enum SocketEffectView<N> {
    Register { user_id: i32, device_id: Seq<char> },
    SendDevices { user_id: i32 },
    Upsert { user_id: i32, snapshot: NowPlayingSnapshot<N> },
    Touch { user_id: i32, device_id: Seq<char> },
    BroadcastDevices { user_id: i32, origin_device: Seq<char> },
    Publish(BridgeView),
    NotifyStart {
        user_id: i32,
        episode_id: i32,
        is_youtube: bool,
        device_name: Seq<char>,
        position_sec: N,
    },
    Relay {
        user_id: i32,
        target_device_id: Seq<char>,
        message: ServerView<N>,
        pending: PendingView,
    },
    PublishCommand(BridgeView),
    Reply(ServerView<N>),
    Unregister { user_id: i32, device_id: Seq<char> },
    Forget { user_id: i32, device_id: Seq<char> },
    Stop,
}

impl<N> View for SocketEffect<N> {
    type V = SocketEffectView<N>;

    open spec fn view(&self) -> SocketEffectView<N> {
        match *self {
            SocketEffect::Register { user_id, device_id } => SocketEffectView::Register {
                user_id,
                device_id: device_id@,
            },
            SocketEffect::SendDevices { user_id } => SocketEffectView::SendDevices { user_id },
            SocketEffect::Upsert { user_id, snapshot } => SocketEffectView::Upsert {
                user_id,
                snapshot,
            },
            SocketEffect::Touch { user_id, device_id } => SocketEffectView::Touch {
                user_id,
                device_id: device_id@,
            },
            SocketEffect::BroadcastDevices { user_id, origin_device } => {
                SocketEffectView::BroadcastDevices { user_id, origin_device: origin_device@ }
            },
            SocketEffect::Publish(msg) => SocketEffectView::Publish(msg@),
            SocketEffect::NotifyStart {
                user_id,
                episode_id,
                is_youtube,
                device_name,
                position_sec,
            } => SocketEffectView::NotifyStart {
                user_id,
                episode_id,
                is_youtube,
                device_name: device_name@,
                position_sec,
            },
            SocketEffect::Relay { user_id, target_device_id, message, pending } => {
                SocketEffectView::Relay {
                    user_id,
                    target_device_id: target_device_id@,
                    message: message@,
                    pending: pending@,
                }
            },
            SocketEffect::PublishCommand(msg) => SocketEffectView::PublishCommand(msg@),
            SocketEffect::Reply(msg) => SocketEffectView::Reply(msg@),
            SocketEffect::Unregister { user_id, device_id } => SocketEffectView::Unregister {
                user_id,
                device_id: device_id@,
            },
            SocketEffect::Forget { user_id, device_id } => SocketEffectView::Forget {
                user_id,
                device_id: device_id@,
            },
            SocketEffect::Stop => SocketEffectView::Stop,
        }
    }
}

/// A series of effects as plain values.
pub open spec fn effects_view<N>(effects: Seq<SocketEffect<N>>) -> Seq<SocketEffectView<N>> {
    effects.map_values(|e: SocketEffect<N>| e@)
}

/// What follows a change of a user's devices: the others that are connected here
/// get the fresh list, and the other instances are told.
pub open spec fn changed_effects<N>(
    user_id: i32,
    origin_device: Seq<char>,
    instance_id: Seq<char>,
) -> Seq<SocketEffectView<N>> {
    seq![
        SocketEffectView::BroadcastDevices { user_id, origin_device },
        SocketEffectView::Publish(
            BridgeView::DevicesChanged { user_id, origin_device, instance_id },
        ),
    ]
}

/// What a frame on the socket leads to.
pub open spec fn frame_effects<N>(socket: NowPlayingSocket, frame: Frame<N>) -> Seq<
    SocketEffectView<N>,
> {
    match frame {
        Frame::Message(
            ClientMsg::Report {
                episode_id,
                is_youtube,
                title,
                artwork_url,
                position_sec,
                duration_sec,
                playing,
                speed,
            },
        ) => {
            let snapshot = NowPlayingSnapshot {
                device_id: socket.device_id,
                device_name: socket.device_name,
                device_type: socket.device_type,
                episode_id,
                is_youtube,
                title,
                artwork_url,
                position_sec,
                duration_sec,
                playing,
                speed,
                updated_at: 0,
            };
            seq![SocketEffectView::Upsert { user_id: socket.user_id, snapshot }]
                + changed_effects::<N>(socket.user_id, socket.device_id@, socket.instance_id@) + (
            if playing {
                seq![
                    SocketEffectView::NotifyStart {
                        user_id: socket.user_id,
                        episode_id,
                        is_youtube,
                        device_name: socket.device_name@,
                        position_sec,
                    },
                ]
            } else {
                Seq::empty()
            })
        },
        Frame::Message(ClientMsg::Heartbeat) => seq![
            SocketEffectView::Touch { user_id: socket.user_id, device_id: socket.device_id@ },
        ],
        Frame::Message(ClientMsg::Command { target_device_id, action, args }) => seq![
            SocketEffectView::Relay {
                user_id: socket.user_id,
                target_device_id: target_device_id@,
                message: ServerView::Command {
                    from_device_id: socket.device_id@,
                    action: action@,
                    args: json_contents(args),
                },
                pending: PendingView {
                    target_device_id: target_device_id@,
                    action: action@,
                    args: json_contents(args),
                },
            },
        ],
        Frame::Malformed => Seq::empty(),
        Frame::Close => seq![SocketEffectView::Stop],
        Frame::Other => Seq::empty(),
    }
}

/// What follows a relayed command: where the device is not connected here, the
/// other instances are asked.
pub open spec fn relay_effect<N>(
    socket: NowPlayingSocket,
    pending: PendingView,
    delivered: bool,
) -> SocketEffectView<N> {
    if delivered {
        SocketEffectView::Reply(ServerView::Ack { ok: true, detail: "relayed"@ })
    } else {
        SocketEffectView::PublishCommand(
            BridgeView::Command {
                user_id: socket.user_id,
                target_device_id: pending.target_device_id,
                from_device_id: socket.device_id@,
                action: pending.action,
                args: pending.args,
                instance_id: socket.instance_id@,
            },
        )
    }
}

/// What the opening of a socket leads to.
pub open spec fn opening_effects<N>(socket: NowPlayingSocket) -> Seq<SocketEffectView<N>> {
    seq![
        SocketEffectView::Register { user_id: socket.user_id, device_id: socket.device_id@ },
        SocketEffectView::SendDevices { user_id: socket.user_id },
    ]
}

/// What the closing of a socket leads to.
pub open spec fn closing_effects<N>(socket: NowPlayingSocket) -> Seq<SocketEffectView<N>> {
    seq![
        SocketEffectView::Unregister { user_id: socket.user_id, device_id: socket.device_id@ },
        SocketEffectView::Forget { user_id: socket.user_id, device_id: socket.device_id@ },
    ] + changed_effects::<N>(socket.user_id, socket.device_id@, socket.instance_id@)
}

/// Tells that a user's devices have changed, here and to the other instances.
pub fn notify_devices_changed<N>(user_id: i32, origin_device: &str, instance_id: &str) -> (r: Vec<
    SocketEffect<N>,
>)
    ensures
        effects_view(r@) == changed_effects::<N>(user_id, origin_device@, instance_id@),
{
    let mut effects: Vec<SocketEffect<N>> = Vec::new();
    effects.push(
        SocketEffect::BroadcastDevices { user_id, origin_device: origin_device.to_owned() },
    );
    effects.push(
        SocketEffect::Publish(
            NpBridgeMsg::DevicesChanged {
                user_id,
                origin_device: origin_device.to_owned(),
                instance_id: instance_id.to_owned(),
            },
        ),
    );
    effects
}

impl NowPlayingSocket {
    pub fn new(user_id: i32, query: NowPlayingWsQuery, instance_id: String) -> (r: Self)
        ensures
            r == (NowPlayingSocket {
                user_id,
                device_id: query.device_id,
                device_name: query.device_name,
                device_type: query.device_type,
                instance_id,
            }),
    {
        NowPlayingSocket {
            user_id,
            device_id: query.device_id,
            device_name: query.device_name,
            device_type: query.device_type,
            instance_id,
        }
    }

    /// A socket has opened: it is registered, and its device gets the list of the
    /// user's devices at once.
    pub fn opened<N>(&self) -> (r: Vec<SocketEffect<N>>)
        ensures
            effects_view(r@) == opening_effects::<N>(*self),
            effects_view(r@) == seq![
                SocketEffectView::<N>::Register {
                    user_id: self.user_id,
                    device_id: self.device_id@,
                },
                SocketEffectView::<N>::SendDevices { user_id: self.user_id },
            ],
    {
        let mut effects: Vec<SocketEffect<N>> = Vec::new();
        effects.push(
            SocketEffect::Register { user_id: self.user_id, device_id: self.device_id.clone() },
        );
        effects.push(SocketEffect::SendDevices { user_id: self.user_id });
        effects
    }

    /// Handles what arrives on the socket.
    pub fn received<N: Copy>(&self, frame: Frame<N>) -> (r: Vec<SocketEffect<N>>)
        ensures
            effects_view(r@) == frame_effects(*self, frame),
    {
        let mut effects: Vec<SocketEffect<N>> = Vec::new();
        match frame {
            Frame::Message(
                ClientMsg::Report {
                    episode_id,
                    is_youtube,
                    title,
                    artwork_url,
                    position_sec,
                    duration_sec,
                    playing,
                    speed,
                },
            ) => {
                let snapshot = NowPlayingSnapshot {
                    device_id: self.device_id.clone(),
                    device_name: self.device_name.clone(),
                    device_type: self.device_type.clone(),
                    episode_id,
                    is_youtube,
                    title,
                    artwork_url,
                    position_sec,
                    duration_sec,
                    playing,
                    speed,
                    updated_at: 0,
                };
                effects.push(SocketEffect::Upsert { user_id: self.user_id, snapshot });
                let mut changed = notify_devices_changed(
                    self.user_id,
                    self.device_id.as_str(),
                    self.instance_id.as_str(),
                );
                let ghost told = changed@;
                effects.append(&mut changed);
                if playing {
                    effects.push(
                        SocketEffect::NotifyStart {
                            user_id: self.user_id,
                            episode_id,
                            is_youtube,
                            device_name: self.device_name.clone(),
                            position_sec,
                        },
                    );
                }
                proof {
                    assert(effects_view(told).len() == 2);
                    assert forall|i: int| 0 <= i < 2 implies effects_view(told)[i]
                        == #[trigger] effects@[i + 1]@ by {}
                    assert(effects_view(effects@) =~= frame_effects(*self, frame));
                }
            },
            Frame::Message(ClientMsg::Heartbeat) => {
                effects.push(
                    SocketEffect::Touch {
                        user_id: self.user_id,
                        device_id: self.device_id.clone(),
                    },
                );
            },
            Frame::Message(ClientMsg::Command { target_device_id, action, args }) => {
                let message = ServerMsg::Command {
                    from_device_id: self.device_id.clone(),
                    action: action.clone(),
                    args: copy_json(&args),
                };
                effects.push(
                    SocketEffect::Relay {
                        user_id: self.user_id,
                        target_device_id: target_device_id.clone(),
                        message,
                        pending: PendingCommand { target_device_id, action, args },
                    },
                );
            },
            Frame::Malformed => {},
            Frame::Close => {
                effects.push(SocketEffect::Stop);
            },
            Frame::Other => {},
        }
        effects
    }

    /// Goes on with a command once it is known whether a connection here took it.
    pub fn relayed<N>(&self, pending: PendingCommand, delivered: bool) -> (r: SocketEffect<N>)
        ensures
            r@ == relay_effect::<N>(*self, pending@, delivered),
    {
        if delivered {
            SocketEffect::Reply(ServerMsg::Ack { ok: true, detail: "relayed".to_owned() })
        } else {
            SocketEffect::PublishCommand(
                NpBridgeMsg::Command {
                    user_id: self.user_id,
                    target_device_id: pending.target_device_id,
                    from_device_id: self.device_id.clone(),
                    action: pending.action,
                    args: pending.args,
                    instance_id: self.instance_id.clone(),
                },
            )
        }
    }

    /// A socket has closed: it is forgotten, and the others are told.
    pub fn closed<N>(&self) -> (r: Vec<SocketEffect<N>>)
        ensures
            effects_view(r@) == closing_effects::<N>(*self),
            effects_view(r@) == seq![
                SocketEffectView::<N>::Unregister {
                    user_id: self.user_id,
                    device_id: self.device_id@,
                },
                SocketEffectView::<N>::Forget {
                    user_id: self.user_id,
                    device_id: self.device_id@,
                },
            ] + changed_effects::<N>(self.user_id, self.device_id@, self.instance_id@),
    {
        let mut effects: Vec<SocketEffect<N>> = Vec::new();
        effects.push(
            SocketEffect::Unregister { user_id: self.user_id, device_id: self.device_id.clone() },
        );
        effects.push(
            SocketEffect::Forget { user_id: self.user_id, device_id: self.device_id.clone() },
        );
        let mut changed = notify_devices_changed(
            self.user_id,
            self.device_id.as_str(),
            self.instance_id.as_str(),
        );
        let ghost told = changed@;
        effects.append(&mut changed);
        proof {
            assert(effects_view(told).len() == 2);
            assert forall|i: int| 0 <= i < 2 implies effects_view(told)[i]
                == #[trigger] effects@[i + 2]@ by {}
        }
        effects
    }
}

/// The devices that are told of: none where they cannot be read.
pub open spec fn devices_told<N, E>(devices: Result<Vec<NowPlayingSnapshot<N>>, E>) -> Seq<
    NowPlayingSnapshot<N>,
> {
    match devices {
        Ok(devices) => devices@,
        Err(_) => Seq::empty(),
    }
}

/// The message that lists a user's devices. Where they cannot be read the list is
/// empty.
pub fn devices_message<N, E>(devices: Result<Vec<NowPlayingSnapshot<N>>, E>) -> (r: ServerMsg<N>)
    ensures
        r@ == (ServerView::Devices { devices: devices_told(devices) }),
        r@ == (ServerView::Devices {
            devices: match devices {
                Ok(devices) => devices@,
                Err(_) => Seq::empty(),
            },
        }),
{
    match devices {
        Ok(devices) => ServerMsg::Devices { devices },
        Err(_) => ServerMsg::Devices { devices: Vec::new() },
    }
}

// ------------------------------------------------------------------
// Between the instances
// ------------------------------------------------------------------

/// The channel on which the instances tell each other.
pub const NOW_PLAYING_CHANNEL: &'static str = "nowplaying:events";

/// How long to wait before listening again after a failure.
pub const BRIDGE_RETRY_SECONDS: u64 = 5;

/// Publishes a message of an instance, given as its JSON text.
pub fn publish_bridge(payload: &str) -> (r: RedisCommand)
    ensures
        r matches RedisCommand::Publish { channel, payload: text } && channel@
            == NOW_PLAYING_CHANNEL@ && text@ == payload@,
{
    RedisClient::publish(NOW_PLAYING_CHANNEL, payload)
}

/// How many instances got a message: none where it could not be published.
pub open spec fn receivers<E>(reply: Result<i64, E>) -> i64 {
    match reply {
        Ok(count) => count,
        Err(_) => 0,
    }
}

/// The answer to a command that so many instances got.
pub open spec fn ack_of<N>(count: i64) -> ServerView<N> {
    if count > 1 {
        ServerView::Ack { ok: true, detail: "relayed to another instance"@ }
    } else {
        ServerView::Ack { ok: false, detail: "device offline"@ }
    }
}

/// The answer to a command that was handed to the other instances. The instance
/// itself is among those that got it, so another one may hold the device where
/// there were more.
pub fn command_ack<N, E>(reply: Result<i64, E>) -> (r: ServerMsg<N>)
    ensures
        r@ == ack_of::<N>(receivers(reply)),
        r@ == (ServerView::<N>::Ack {
            ok: receivers(reply) > 1,
            detail: if receivers(reply) > 1 {
                "relayed to another instance"@
            } else {
                "device offline"@
            },
        }),
{
    let count: i64 = match reply {
        Ok(count) => count,
        Err(_) => 0,
    };
    if count > 1 {
        ServerMsg::Ack { ok: true, detail: "relayed to another instance".to_owned() }
    } else {
        ServerMsg::Ack { ok: false, detail: "device offline".to_owned() }
    }
}

/// What an instance does with a message of another one.
#[derive(Debug, PartialEq)]
pub enum BridgeEffect<N> {
    /// Send the user's devices to those that are connected here, but for one.
    BroadcastDevices { user_id: i32, origin_device: String },
    /// Send a command to a device, if it is connected here.
    Deliver { user_id: i32, target_device_id: String, message: ServerMsg<N> },
}

/// `BridgeEffect` as plain values.
pub enum BridgeEffectView<N> {
    BroadcastDevices { user_id: i32, origin_device: Seq<char> },
    Deliver { user_id: i32, target_device_id: Seq<char>, message: ServerView<N> },
}

impl<N> View for BridgeEffect<N> {
    type V = BridgeEffectView<N>;

    open spec fn view(&self) -> BridgeEffectView<N> {
        match *self {
            BridgeEffect::BroadcastDevices { user_id, origin_device } => {
                BridgeEffectView::BroadcastDevices { user_id, origin_device: origin_device@ }
            },
            BridgeEffect::Deliver { user_id, target_device_id, message } => {
                BridgeEffectView::Deliver {
                    user_id,
                    target_device_id: target_device_id@,
                    message: message@,
                }
            },
        }
    }
}

/// What an instance does with a message: its own were handled when they were sent.
pub open spec fn bridge_effect<N>(instance_id: Seq<char>, msg: BridgeView) -> Option<
    BridgeEffectView<N>,
> {
    if msg.instance() == instance_id {
        None
    } else {
        match msg {
            BridgeView::DevicesChanged { user_id, origin_device, instance_id } => Some(
                BridgeEffectView::BroadcastDevices { user_id, origin_device },
            ),
            BridgeView::Command {
                user_id,
                target_device_id,
                from_device_id,
                action,
                args,
                instance_id,
            } => Some(
                BridgeEffectView::Deliver {
                    user_id,
                    target_device_id,
                    message: ServerView::Command { from_device_id, action, args },
                },
            ),
        }
    }
}

/// Handles a message of the channel.
pub fn bridge_received<N>(instance_id: &str, msg: NpBridgeMsg) -> (r: Option<BridgeEffect<N>>)
    ensures
        match r {
            Some(effect) => bridge_effect::<N>(instance_id@, msg@) == Some(effect@),
            None => bridge_effect::<N>(instance_id@, msg@) is None,
        },
{
    if same(msg.instance_id(), instance_id) {
        return None;
    }
    match msg {
        NpBridgeMsg::DevicesChanged { user_id, origin_device, .. } => Some(
            BridgeEffect::BroadcastDevices { user_id, origin_device },
        ),
        NpBridgeMsg::Command { user_id, target_device_id, from_device_id, action, args, .. } => {
            Some(
                BridgeEffect::Deliver {
                    user_id,
                    target_device_id,
                    message: ServerMsg::Command { from_device_id, action, args },
                },
            )
        },
    }
}

// ------------------------------------------------------------------
// Laws
// ------------------------------------------------------------------

/// Devices are read only for a request whose key gives access to the user, and
/// handed out only once they were read.
pub proof fn law_devices_need_access<N, E>(
    api_key: Seq<char>,
    user_id: i32,
    stage: DevicesStage,
    reply: DevicesReply<N, E>,
)
    ensures
        devices_step(api_key, user_id, stage, reply).1 is List ==> stage is AccessCheck && reply
            == DevicesReply::<N, E>::AccessChecked(Ok(true)),
        devices_step(api_key, user_id, stage, reply).1 is CheckAccess ==> stage is KeyCheck
            && reply == DevicesReply::<N, E>::KeyVerified(Ok(true)),
        devices_step(api_key, user_id, stage, reply).1 matches DevicesEffectView::Finish(Ok(
            devices,
        )) ==> stage is Listing && (reply matches DevicesReply::Listed(Ok(listed)) && listed@
            == devices),
{
}

/// The user that an effect concerns.
pub open spec fn effect_user<N>(effect: SocketEffectView<N>) -> Option<i32> {
    match effect {
        SocketEffectView::Register { user_id, device_id } => Some(user_id),
        SocketEffectView::SendDevices { user_id } => Some(user_id),
        SocketEffectView::Upsert { user_id, snapshot } => Some(user_id),
        SocketEffectView::Touch { user_id, device_id } => Some(user_id),
        SocketEffectView::BroadcastDevices { user_id, origin_device } => Some(user_id),
        SocketEffectView::Publish(msg) => Some(msg.user()),
        SocketEffectView::NotifyStart {
            user_id,
            episode_id,
            is_youtube,
            device_name,
            position_sec,
        } => Some(user_id),
        SocketEffectView::Relay { user_id, target_device_id, message, pending } => Some(user_id),
        SocketEffectView::PublishCommand(msg) => Some(msg.user()),
        SocketEffectView::Reply(_) => None,
        SocketEffectView::Unregister { user_id, device_id } => Some(user_id),
        SocketEffectView::Forget { user_id, device_id } => Some(user_id),
        SocketEffectView::Stop => None,
    }
}

/// Whatever a device sends, and however its commands fare, it concerns the devices
/// of its own user only.
pub proof fn law_sockets_act_for_their_user<N>(
    socket: NowPlayingSocket,
    frame: Frame<N>,
    pending: PendingView,
    delivered: bool,
)
    ensures
        forall|i: int|
            0 <= i < frame_effects(socket, frame).len() ==> (effect_user(
                #[trigger] frame_effects(socket, frame)[i],
            ) matches Some(user_id) ==> user_id == socket.user_id),
        effect_user(relay_effect::<N>(socket, pending, delivered)) matches Some(user_id)
            ==> user_id == socket.user_id,
{
}

/// The message that an effect sends to the other instances.
pub open spec fn published<N>(effect: SocketEffectView<N>) -> Option<BridgeView> {
    match effect {
        SocketEffectView::Publish(msg) => Some(msg),
        SocketEffectView::PublishCommand(msg) => Some(msg),
        _ => None,
    }
}

/// What a socket tells the other instances, its own instance does not handle a
/// second time.
pub proof fn law_own_messages_are_ignored<N>(
    socket: NowPlayingSocket,
    frame: Frame<N>,
    pending: PendingView,
    delivered: bool,
)
    ensures
        forall|i: int|
            0 <= i < frame_effects(socket, frame).len() ==> (published(
                #[trigger] frame_effects(socket, frame)[i],
            ) matches Some(msg) ==> bridge_effect::<N>(socket.instance_id@, msg) is None),
        published(relay_effect::<N>(socket, pending, delivered)) matches Some(msg)
            ==> bridge_effect::<N>(socket.instance_id@, msg) is None,
{
}

/// A command that another instance delivers is, for the same user and device, the
/// very message that would have been delivered here.
pub proof fn law_commands_arrive_alike<N>(
    socket: NowPlayingSocket,
    target_device_id: String,
    action: String,
    args: serde_json::Value,
    other_instance: Seq<char>,
)
    requires
        other_instance != socket.instance_id@,
    ensures
        frame_effects::<N>(
            socket,
            Frame::Message(ClientMsg::Command { target_device_id, action, args }),
        )[0] matches SocketEffectView::Relay { user_id, target_device_id, message, pending } && (
        published(relay_effect::<N>(socket, pending, false)) matches Some(msg) && bridge_effect::<
            N,
        >(other_instance, msg) == Some(
            BridgeEffectView::Deliver { user_id, target_device_id, message },
        )),
{
}

/// A change of a user's devices has the other instances do for their connections
/// what the own one does.
pub proof fn law_changes_reach_every_instance<N>(
    user_id: i32,
    origin_device: Seq<char>,
    instance_id: Seq<char>,
    other_instance: Seq<char>,
)
    requires
        other_instance != instance_id,
    ensures
        changed_effects::<N>(user_id, origin_device, instance_id)[0]
            == (SocketEffectView::<N>::BroadcastDevices { user_id, origin_device }),
        published(changed_effects::<N>(user_id, origin_device, instance_id)[1]) matches Some(msg)
            && bridge_effect::<N>(other_instance, msg) == Some(
            BridgeEffectView::<N>::BroadcastDevices { user_id, origin_device },
        ),
{
}

/// A message for a user's other devices never goes to the origin, nor to another
/// user's device: a connection that gets it is that of another device of the user.
pub proof fn law_broadcasts_stay_with_the_user<T>(
    connections: Map<(i32, Seq<char>), T>,
    user_id: i32,
    except: Seq<char>,
    devices: Seq<Seq<char>>,
    recipients: Seq<&T>,
    i: int,
)
    requires
        is_broadcast(connections, user_id, except, devices, recipients),
        0 <= i < recipients.len(),
    ensures
        devices[i] != except,
        connections.contains_key((user_id, devices[i])),
        *recipients[i] == connections[(user_id, devices[i])],
{
    assert(devices.contains(devices[i]));
}

/// A socket opens exactly for a valid API key whose owner is the user, or the system
/// user, who is the user 1. An invalid key is refused as such, and so is one whose
/// check fails; the key of another user is refused as that.
pub proof fn law_sockets_open_for_their_user<E>(
    user_id: i32,
    verified: Result<bool, E>,
    owner: Result<i32, E>,
)
    ensures
        after_key(verified) is AskOwner <==> verified == Ok::<bool, E>(true),
        !(after_key(verified) is Upgrade),
        after_key(verified) is AskOwner || after_key(verified) == HandshakeView::Refuse(
            "Invalid API key"@,
        ),
        after_owner(user_id, owner) is Upgrade <==> owner == Ok::<i32, E>(user_id) || owner
            == Ok::<i32, E>(1),
        owner matches Ok(o) ==> o != user_id && o != 1 ==> after_owner(user_id, owner)
            == HandshakeView::Refuse("API key does not belong to requested user"@),
        owner is Err ==> after_owner(user_id, owner) == HandshakeView::Refuse("Invalid API key"@),
{
}

/// What a device reports is stored as it is, whether it plays or is paused: every
/// field of the snapshot is that of the report, and the device is that of the socket.
/// The user's other devices and the other instances are told, and a playback that
/// runs is announced with the episode, the device and the position of the report.
pub proof fn law_reports_are_stored_as_they_are<N>(
    socket: NowPlayingSocket,
    episode_id: i32,
    is_youtube: bool,
    title: String,
    artwork_url: String,
    position_sec: N,
    duration_sec: N,
    playing: bool,
    speed: N,
)
    ensures
        ({
            let effects = frame_effects(
                socket,
                Frame::Message(
                    ClientMsg::Report {
                        episode_id,
                        is_youtube,
                        title,
                        artwork_url,
                        position_sec,
                        duration_sec,
                        playing,
                        speed,
                    },
                ),
            );
            &&& effects[0] matches SocketEffectView::Upsert { user_id, snapshot } && {
                &&& user_id == socket.user_id
                &&& snapshot.device_id@ == socket.device_id@
                &&& snapshot.device_name@ == socket.device_name@
                &&& snapshot.device_type@ == socket.device_type@
                &&& snapshot.episode_id == episode_id
                &&& snapshot.is_youtube == is_youtube
                &&& snapshot.title@ == title@
                &&& snapshot.artwork_url@ == artwork_url@
                &&& snapshot.position_sec == position_sec
                &&& snapshot.duration_sec == duration_sec
                &&& snapshot.playing == playing
                &&& snapshot.speed == speed
            }
            &&& effects[1] matches SocketEffectView::BroadcastDevices { user_id, origin_device }
                && user_id == socket.user_id && origin_device == socket.device_id@
            &&& effects[2] matches SocketEffectView::Publish(BridgeView::DevicesChanged {
                user_id,
                origin_device,
                instance_id,
            }) && user_id == socket.user_id && origin_device == socket.device_id@ && instance_id
                == socket.instance_id@
            &&& !playing ==> effects.len() == 3
            &&& playing ==> effects.len() == 4 && (
            effects[3] matches SocketEffectView::NotifyStart {
                user_id,
                episode_id: announced,
                is_youtube: video,
                device_name,
                position_sec: since,
            } && user_id == socket.user_id && announced == episode_id && video == is_youtube
                && device_name == socket.device_name@ && since == position_sec)
        }),
{
}

/// A heartbeat renews the device alone, a command is relayed to its target with the
/// sender named and the action and the arguments unchanged, a close stops the reading,
/// and anything else is ignored.
pub proof fn law_other_frames_do_one_thing_or_nothing<N>(
    socket: NowPlayingSocket,
    target: String,
    action: String,
    args: serde_json::Value,
)
    ensures
        ({
            let beat = frame_effects::<N>(socket, Frame::Message(ClientMsg::Heartbeat));
            let command = frame_effects::<N>(
                socket,
                Frame::Message(ClientMsg::Command { target_device_id: target, action, args }),
            );
            let close = frame_effects::<N>(socket, Frame::Close);
            &&& beat.len() == 1
            &&& beat[0] matches SocketEffectView::Touch { user_id, device_id } && user_id
                == socket.user_id && device_id == socket.device_id@
            &&& command.len() == 1
            &&& command[0] matches SocketEffectView::Relay {
                user_id,
                target_device_id,
                message,
                pending,
            } && {
                &&& user_id == socket.user_id
                &&& target_device_id == target@
                &&& message matches ServerView::Command {
                    from_device_id,
                    action: relayed,
                    args: passed,
                } && from_device_id == socket.device_id@ && relayed == action@ && passed
                    == json_contents(args)
                &&& pending.target_device_id == target@
                &&& pending.action == action@
                &&& pending.args == json_contents(args)
            }
            &&& close.len() == 1 && close[0] is Stop
            &&& frame_effects::<N>(socket, Frame::Malformed).len() == 0
            &&& frame_effects::<N>(socket, Frame::Other).len() == 0
        }),
{
}

/// A command that a connection took is acknowledged, and one that none took is handed
/// to the other instances, for the same target, from the same sender, with the action
/// and the arguments unchanged.
pub proof fn law_commands_are_acknowledged_or_passed_on<N>(
    socket: NowPlayingSocket,
    pending: PendingView,
)
    ensures
        relay_effect::<N>(socket, pending, true) == SocketEffectView::<N>::Reply(
            ServerView::Ack { ok: true, detail: "relayed"@ },
        ),
        relay_effect::<N>(socket, pending, false) matches SocketEffectView::PublishCommand(
            BridgeView::Command {
                user_id,
                target_device_id,
                from_device_id,
                action,
                args,
                instance_id,
            },
        ) && user_id == socket.user_id && target_device_id == pending.target_device_id
            && from_device_id == socket.device_id@ && action == pending.action && args
            == pending.args && instance_id == socket.instance_id@,
{
}

/// A command that was handed on counts as relayed exactly if more than one instance
/// got it, since the own one is among them. A failure to hand it on reaches none.
pub proof fn law_acks_need_another_instance<N, E>(reply: Result<i64, E>)
    ensures
        ack_of::<N>(receivers(reply)) matches ServerView::Ack { ok, detail } && {
            &&& ok <==> (reply matches Ok(count) && count >= 2)
            &&& ok ==> detail == "relayed to another instance"@
            &&& !ok ==> detail == "device offline"@
        },
{
}

/// The devices that are told of are those that were read, in order, and none where
/// they could not be read.
pub proof fn law_devices_are_told_as_read<N, E>(devices: Vec<NowPlayingSnapshot<N>>, e: E)
    ensures
        devices_told::<N, E>(Ok(devices)) == devices@,
        devices_told::<N, E>(Err(e)).len() == 0,
{
}

/// Closing a socket undoes what opening it did: the connection of the same device is
/// forgotten, what is stored of it goes, and the others are told.
pub proof fn law_closing_undoes_opening<N>(socket: NowPlayingSocket)
    ensures
        ({
            let opening = opening_effects::<N>(socket);
            let closing = closing_effects::<N>(socket);
            &&& opening.len() == 2
            &&& opening[0] matches SocketEffectView::Register { user_id, device_id } && user_id
                == socket.user_id && device_id == socket.device_id@
            &&& opening[1] matches SocketEffectView::SendDevices { user_id } && user_id
                == socket.user_id
            &&& closing.len() == 4
            &&& closing[0] matches SocketEffectView::Unregister { user_id, device_id } && user_id
                == socket.user_id && device_id == socket.device_id@
            &&& closing[1] matches SocketEffectView::Forget { user_id, device_id } && user_id
                == socket.user_id && device_id == socket.device_id@
            &&& closing[2] matches SocketEffectView::BroadcastDevices { user_id, origin_device }
                && user_id == socket.user_id && origin_device == socket.device_id@
            &&& closing[3] matches SocketEffectView::Publish(BridgeView::DevicesChanged {
                user_id,
                origin_device,
                instance_id,
            }) && user_id == socket.user_id && origin_device == socket.device_id@ && instance_id
                == socket.instance_id@
        }),
{
}

/// A message of another instance does what it says to the connections here, and a
/// message of the own one nothing.
pub proof fn law_messages_of_others_are_carried_out<N>(
    instance: Seq<char>,
    sender: Seq<char>,
    user: i32,
    origin: Seq<char>,
    target: Seq<char>,
    from: Seq<char>,
    action: Seq<char>,
    args: JsonModel,
)
    ensures
        ({
            let change = BridgeView::DevicesChanged {
                user_id: user,
                origin_device: origin,
                instance_id: sender,
            };
            let command = BridgeView::Command {
                user_id: user,
                target_device_id: target,
                from_device_id: from,
                action,
                args,
                instance_id: sender,
            };
            &&& sender == instance ==> bridge_effect::<N>(instance, change) is None
                && bridge_effect::<N>(instance, command) is None
            &&& sender != instance ==> bridge_effect::<N>(instance, change) == Some(
                BridgeEffectView::<N>::BroadcastDevices { user_id: user, origin_device: origin },
            )
            &&& sender != instance ==> bridge_effect::<N>(instance, command) == Some(
                BridgeEffectView::<N>::Deliver {
                    user_id: user,
                    target_device_id: target,
                    message: ServerView::Command { from_device_id: from, action, args },
                },
            )
        }),
{
}

/// A message to a user's other devices reaches every one of them.
pub proof fn law_broadcasts_reach_every_other_device<T>(
    connections: Map<(i32, Seq<char>), T>,
    user_id: i32,
    except: Seq<char>,
    devices: Seq<Seq<char>>,
    recipients: Seq<&T>,
    device_id: Seq<char>,
) -> (i: int)
    requires
        is_broadcast(connections, user_id, except, devices, recipients),
        connections.contains_key((user_id, device_id)),
        device_id != except,
    ensures
        0 <= i < recipients.len(),
        *recipients[i] == connections[(user_id, device_id)],
{
    assert(devices.contains(device_id));
    choose|i: int| 0 <= i < devices.len() && devices[i] == device_id
}

/// A request for devices takes its course: a valid key is asked for its access to the
/// user, access is answered with the devices, and the devices are handed out as they
/// were read. An invalid key and a lack of access are refused as such, and a failure
/// outside is passed on at every stage.
pub proof fn law_requests_for_devices_take_their_course<N, E>(
    api_key: Seq<char>,
    user_id: i32,
    devices: Vec<NowPlayingSnapshot<N>>,
    e: E,
)
    ensures
        ({
            let step = |stage: DevicesStage, reply: DevicesReply<N, E>|
                devices_step(api_key, user_id, stage, reply);
            let failure = (
                DevicesStage::Over,
                DevicesEffectView::<N, E>::Finish(Err(FailureView::Outside(e))),
            );
            &&& step(DevicesStage::KeyCheck, DevicesReply::KeyVerified(Ok(true))) == (
                DevicesStage::AccessCheck,
                DevicesEffectView::<N, E>::CheckAccess { api_key, user_id },
            )
            &&& step(DevicesStage::KeyCheck, DevicesReply::KeyVerified(Ok(false))) == (
                DevicesStage::Over,
                DevicesEffectView::<N, E>::Finish(
                    Err(FailureView::App(ErrorView::Unauthorized("Invalid API key"@))),
                ),
            )
            &&& step(DevicesStage::AccessCheck, DevicesReply::AccessChecked(Ok(true))) == (
                DevicesStage::Listing,
                DevicesEffectView::<N, E>::List { user_id },
            )
            &&& step(DevicesStage::AccessCheck, DevicesReply::AccessChecked(Ok(false))) == (
                DevicesStage::Over,
                DevicesEffectView::<N, E>::Finish(
                    Err(
                        FailureView::App(
                            ErrorView::Forbidden("You can only view your own devices!"@),
                        ),
                    ),
                ),
            )
            &&& step(DevicesStage::Listing, DevicesReply::Listed(Ok(devices))) == (
                DevicesStage::Over,
                DevicesEffectView::<N, E>::Finish(Ok(devices@)),
            )
            &&& step(DevicesStage::KeyCheck, DevicesReply::KeyVerified(Err(e))) == failure
            &&& step(DevicesStage::AccessCheck, DevicesReply::AccessChecked(Err(e))) == failure
            &&& step(DevicesStage::Listing, DevicesReply::Listed(Err(e))) == failure
        }),
{
}

/// The messages are seen with every one of their fields.
pub proof fn law_messages_are_seen_whole<N>(msg: ServerMsg<N>, bridge: NpBridgeMsg)
    ensures
        msg matches ServerMsg::Devices { devices } ==> msg@ == (ServerView::Devices {
            devices: devices@,
        }),
        msg matches ServerMsg::Command { from_device_id, action, args } ==> msg@ == (ServerView::<
            N,
        >::Command {
            from_device_id: from_device_id@,
            action: action@,
            args: json_contents(args),
        }),
        msg matches ServerMsg::Ack { ok, detail } ==> msg@ == (ServerView::<N>::Ack {
            ok,
            detail: detail@,
        }),
        bridge matches NpBridgeMsg::DevicesChanged { user_id, origin_device, instance_id }
            ==> bridge@ == (BridgeView::DevicesChanged {
            user_id,
            origin_device: origin_device@,
            instance_id: instance_id@,
        }),
        bridge matches NpBridgeMsg::Command {
            user_id,
            target_device_id,
            from_device_id,
            action,
            args,
            instance_id,
        } ==> bridge@ == (BridgeView::Command {
            user_id,
            target_device_id: target_device_id@,
            from_device_id: from_device_id@,
            action: action@,
            args: json_contents(args),
            instance_id: instance_id@,
        }),
{
}

/// What is done for a socket, for a request and for another instance is seen with
/// every one of its fields.
pub proof fn law_effects_are_seen_whole<N, E>(
    effect: SocketEffect<N>,
    pending: PendingCommand,
    request: DevicesEffect<N, E>,
    bridge: BridgeEffect<N>,
    handshake: Handshake,
)
    ensures
        effect matches SocketEffect::Register { user_id, device_id } ==> effect@
            == (SocketEffectView::<N>::Register { user_id, device_id: device_id@ }),
        effect matches SocketEffect::SendDevices { user_id } ==> effect@ == (SocketEffectView::<
            N,
        >::SendDevices { user_id }),
        effect matches SocketEffect::Upsert { user_id, snapshot } ==> effect@
            == (SocketEffectView::Upsert { user_id, snapshot }),
        effect matches SocketEffect::Touch { user_id, device_id } ==> effect@
            == (SocketEffectView::<N>::Touch { user_id, device_id: device_id@ }),
        effect matches SocketEffect::BroadcastDevices { user_id, origin_device } ==> effect@
            == (SocketEffectView::<N>::BroadcastDevices { user_id, origin_device: origin_device@ }),
        effect matches SocketEffect::Publish(msg) ==> effect@ == SocketEffectView::<N>::Publish(
            msg@,
        ),
        effect matches SocketEffect::NotifyStart {
            user_id,
            episode_id,
            is_youtube,
            device_name,
            position_sec,
        } ==> effect@ == (SocketEffectView::NotifyStart {
            user_id,
            episode_id,
            is_youtube,
            device_name: device_name@,
            position_sec,
        }),
        effect matches SocketEffect::Relay { user_id, target_device_id, message, pending: p }
            ==> effect@ == (SocketEffectView::Relay {
            user_id,
            target_device_id: target_device_id@,
            message: message@,
            pending: p@,
        }),
        effect matches SocketEffect::PublishCommand(msg) ==> effect@ == SocketEffectView::<
            N,
        >::PublishCommand(msg@),
        effect matches SocketEffect::Reply(msg) ==> effect@ == SocketEffectView::Reply(msg@),
        effect matches SocketEffect::Unregister { user_id, device_id } ==> effect@
            == (SocketEffectView::<N>::Unregister { user_id, device_id: device_id@ }),
        effect matches SocketEffect::Forget { user_id, device_id } ==> effect@
            == (SocketEffectView::<N>::Forget { user_id, device_id: device_id@ }),
        effect is Stop <==> effect@ is Stop,
        pending@.target_device_id == pending.target_device_id@,
        pending@.action == pending.action@,
        pending@.args == json_contents(pending.args),
        request matches DevicesEffect::VerifyKey { api_key } ==> request@ == (DevicesEffectView::<
            N,
            E,
        >::VerifyKey { api_key: api_key@ }),
        request matches DevicesEffect::CheckAccess { api_key, user_id } ==> request@
            == (DevicesEffectView::<N, E>::CheckAccess { api_key: api_key@, user_id }),
        request matches DevicesEffect::List { user_id } ==> request@ == (DevicesEffectView::<
            N,
            E,
        >::List { user_id }),
        request matches DevicesEffect::Finish(Ok(response)) ==> request@ == DevicesEffectView::<
            N,
            E,
        >::Finish(Ok(response.devices@)),
        request matches DevicesEffect::Finish(Err(failure)) ==> request@ == DevicesEffectView::<
            N,
            E,
        >::Finish(Err(failure@)),
        bridge matches BridgeEffect::BroadcastDevices { user_id, origin_device } ==> bridge@
            == (BridgeEffectView::<N>::BroadcastDevices { user_id, origin_device: origin_device@ }),
        bridge matches BridgeEffect::Deliver { user_id, target_device_id, message } ==> bridge@
            == (BridgeEffectView::Deliver {
            user_id,
            target_device_id: target_device_id@,
            message: message@,
        }),
        handshake is AskOwner <==> handshake@ is AskOwner,
        handshake is Upgrade <==> handshake@ is Upgrade,
        handshake matches Handshake::Refuse(text) ==> handshake@ == HandshakeView::Refuse(text@),
{
}

/// The instances meet on one channel, and listen again five seconds after a failure.
pub proof fn law_instances_meet_on_one_channel()
    ensures
        NOW_PLAYING_CHANNEL@ == "nowplaying:events"@,
        BRIDGE_RETRY_SECONDS == 5,
{
}

} // verus!
