//! The layout of the Redis/Valkey store: which keys hold what, for how long, and
//! which commands read and write them.
//!
//! Now-playing entries are ephemeral. `nowplaying:{user_id}:{device_id}` holds a
//! snapshot with a short time to live that every report and heartbeat renews;
//! `nowplaying:devices:{user_id}` is a set that indexes the user's devices. Members
//! of the set whose snapshot is gone are pruned when the devices are listed.

use crate::models::NowPlayingSnapshot;
use crate::text::{
    decimal, int_decimal, lemma_int_decimal_injective, lemma_int_decimal_shape,
    lemma_prefix_cancels, lemma_split_unique, same,
};
use vstd::prelude::*;
use vstd::string::*;

verus! {

/// A value that is stored.
#[derive(Debug, PartialEq)]
pub enum RedisArg {
    Text(String),
    Int(i32),
    Long(i64),
    Unsigned(u64),
    Flag(bool),
    /// Any other single value, as the bytes that go to the store.
    Bytes(Vec<u8>),
}

/// A command to the store.
#[derive(Debug, PartialEq)]
pub enum RedisCommand {
    Ping,
    Publish { channel: String, payload: String },
    Get { key: String },
    /// Reads a key and deletes it, in one step.
    GetDel { key: String },
    /// Sets a key that does not expire.
    SetKey { key: String, value: RedisArg },
    /// Sets a key that expires after `seconds`.
    SetEx { key: String, value: RedisArg, seconds: u64 },
    /// Sets a key that expires after `seconds`, only if it does not exist yet.
    SetNx { key: String, value: RedisArg, seconds: u64 },
    Del { key: String },
    Exists { key: String },
    /// Lets a key expire after that many seconds.
    Expire { key: String, after: i64 },
    Incr { key: String, by: i64 },
    Decr { key: String, by: i64 },
    SAdd { key: String, member: String },
    SRem { key: String, member: String },
    SMembers { key: String },
}

/// `RedisArg` with its text as a character sequence.
pub enum ArgView {
    Text(Seq<char>),
    Int(i32),
    Long(i64),
    Unsigned(u64),
    Flag(bool),
    Bytes(Seq<u8>),
}

/// `RedisCommand` with its strings as character sequences.
pub enum CommandView {
    Ping,
    Publish { channel: Seq<char>, payload: Seq<char> },
    Get { key: Seq<char> },
    GetDel { key: Seq<char> },
    SetKey { key: Seq<char>, value: ArgView },
    SetEx { key: Seq<char>, value: ArgView, seconds: u64 },
    SetNx { key: Seq<char>, value: ArgView, seconds: u64 },
    Del { key: Seq<char> },
    Exists { key: Seq<char> },
    Expire { key: Seq<char>, after: i64 },
    Incr { key: Seq<char>, by: i64 },
    Decr { key: Seq<char>, by: i64 },
    SAdd { key: Seq<char>, member: Seq<char> },
    SRem { key: Seq<char>, member: Seq<char> },
    SMembers { key: Seq<char> },
}

impl View for RedisArg {
    type V = ArgView;

    open spec fn view(&self) -> ArgView {
        match *self {
            RedisArg::Text(text) => ArgView::Text(text@),
            RedisArg::Int(number) => ArgView::Int(number),
            RedisArg::Long(number) => ArgView::Long(number),
            RedisArg::Unsigned(number) => ArgView::Unsigned(number),
            RedisArg::Flag(flag) => ArgView::Flag(flag),
            RedisArg::Bytes(bytes) => ArgView::Bytes(bytes@),
        }
    }
}

impl View for RedisCommand {
    type V = CommandView;

    open spec fn view(&self) -> CommandView {
        match *self {
            RedisCommand::Ping => CommandView::Ping,
            RedisCommand::Publish { channel, payload } => CommandView::Publish {
                channel: channel@,
                payload: payload@,
            },
            RedisCommand::Get { key } => CommandView::Get { key: key@ },
            RedisCommand::GetDel { key } => CommandView::GetDel { key: key@ },
            RedisCommand::SetKey { key, value } => CommandView::SetKey { key: key@, value: value@ },
            RedisCommand::SetEx { key, value, seconds } => CommandView::SetEx {
                key: key@,
                value: value@,
                seconds,
            },
            RedisCommand::SetNx { key, value, seconds } => CommandView::SetNx {
                key: key@,
                value: value@,
                seconds,
            },
            RedisCommand::Del { key } => CommandView::Del { key: key@ },
            RedisCommand::Exists { key } => CommandView::Exists { key: key@ },
            RedisCommand::Expire { key, after } => CommandView::Expire { key: key@, after },
            RedisCommand::Incr { key, by } => CommandView::Incr { key: key@, by },
            RedisCommand::Decr { key, by } => CommandView::Decr { key: key@, by },
            RedisCommand::SAdd { key, member } => CommandView::SAdd { key: key@, member: member@ },
            RedisCommand::SRem { key, member } => CommandView::SRem { key: key@, member: member@ },
            RedisCommand::SMembers { key } => CommandView::SMembers { key: key@ },
        }
    }
}

/// What is asked of the store.
pub enum Operation {
    Publish(Seq<char>, Seq<char>),
    HealthCheck,
    Read(Seq<char>),
    Take(Seq<char>),
    Store(Seq<char>, ArgView),
    StoreFor(Seq<char>, ArgView, u64),
    Claim(Seq<char>, ArgView, u64),
    Delete(Seq<char>),
    LookFor(Seq<char>),
    Limit(Seq<char>, u64),
    CountUp(Seq<char>),
    CountDown(Seq<char>),
    /// A session, its user, and for how long it lasts.
    StoreSession(Seq<char>, i32, u64),
    ReadSession(Seq<char>),
    DeleteSession(Seq<char>),
    /// An API key, whether it is valid, and for how long that is remembered.
    StoreValidity(Seq<char>, bool, u64),
    ReadValidity(Seq<char>),
    /// Whose request is counted.
    CountRequest(Seq<char>),
    /// A task, its status, and for how long it is kept.
    StoreTask(Seq<char>, Seq<char>, u64),
    ReadTask(Seq<char>),
    MarkRefresh(i32),
    LookForRefresh(i32),
    ClearRefresh(i32),
    ListDevices(i32),
    /// The user and the device whose snapshot is renewed.
    Renew(i32, Seq<char>),
}

/// The command by which it is asked.
pub open spec fn command_of(operation: Operation) -> CommandView {
    match operation {
        Operation::Publish(channel, payload) => CommandView::Publish { channel, payload },
        Operation::HealthCheck => CommandView::Ping,
        Operation::Read(key) => CommandView::Get { key },
        Operation::Take(key) => CommandView::GetDel { key },
        Operation::Store(key, value) => CommandView::SetKey { key, value },
        Operation::StoreFor(key, value, seconds) => CommandView::SetEx { key, value, seconds },
        Operation::Claim(key, value, seconds) => CommandView::SetNx { key, value, seconds },
        Operation::Delete(key) => CommandView::Del { key },
        Operation::LookFor(key) => CommandView::Exists { key },
        Operation::Limit(key, seconds) => CommandView::Expire { key, after: seconds as i64 },
        Operation::CountUp(key) => CommandView::Incr { key, by: 1 },
        Operation::CountDown(key) => CommandView::Decr { key, by: 1 },
        Operation::StoreSession(session_id, user_id, seconds) => CommandView::SetEx {
            key: session_key(session_id),
            value: ArgView::Int(user_id),
            seconds,
        },
        Operation::ReadSession(session_id) => CommandView::Get { key: session_key(session_id) },
        Operation::DeleteSession(session_id) => CommandView::Del { key: session_key(session_id) },
        Operation::StoreValidity(api_key, valid, seconds) => CommandView::SetEx {
            key: api_key_key(api_key),
            value: ArgView::Flag(valid),
            seconds,
        },
        Operation::ReadValidity(api_key) => CommandView::Get { key: api_key_key(api_key) },
        Operation::CountRequest(identifier) => CommandView::Incr {
            key: rate_limit_key(identifier),
            by: 1,
        },
        Operation::StoreTask(task_id, status, seconds) => CommandView::SetEx {
            key: task_key(task_id),
            value: ArgView::Text(status),
            seconds,
        },
        Operation::ReadTask(task_id) => CommandView::Get { key: task_key(task_id) },
        Operation::MarkRefresh(podcast_id) => CommandView::SetEx {
            key: refreshing_key(podcast_id),
            value: ArgView::Flag(true),
            seconds: REFRESH_TTL_SECONDS,
        },
        Operation::LookForRefresh(podcast_id) => CommandView::Exists {
            key: refreshing_key(podcast_id),
        },
        Operation::ClearRefresh(podcast_id) => CommandView::Del { key: refreshing_key(podcast_id) },
        Operation::ListDevices(user_id) => CommandView::SMembers { key: index_key(user_id) },
        Operation::Renew(user_id, device_id) => CommandView::Expire {
            key: snapshot_key(user_id, device_id),
            after: NOW_PLAYING_TTL_SECONDS as i64,
        },
    }
}

pub open spec fn session_key(session_id: Seq<char>) -> Seq<char> {
    "session:"@ + session_id
}

pub open spec fn api_key_key(api_key: Seq<char>) -> Seq<char> {
    "api_key:"@ + api_key
}

pub open spec fn rate_limit_key(identifier: Seq<char>) -> Seq<char> {
    "rate_limit:"@ + identifier
}

pub open spec fn task_key(task_id: Seq<char>) -> Seq<char> {
    "task:"@ + task_id
}

pub open spec fn refreshing_key(podcast_id: i32) -> Seq<char> {
    "refreshing:"@ + int_decimal(podcast_id as int)
}

pub open spec fn snapshot_key(user_id: i32, device_id: Seq<char>) -> Seq<char> {
    "nowplaying:"@ + int_decimal(user_id as int) + ":"@ + device_id
}

pub open spec fn index_key(user_id: i32) -> Seq<char> {
    "nowplaying:devices:"@ + int_decimal(user_id as int)
}

/// How long a snapshot lives without being renewed.
pub const NOW_PLAYING_TTL_SECONDS: u64 = 45;

/// How long the index of a user's devices lives without being renewed: longer
/// than one snapshot, so that a briefly quiet device is not dropped.
pub const NOW_PLAYING_INDEX_TTL_SECONDS: i64 = 180;

/// How long a podcast counts as being refreshed.
pub const REFRESH_TTL_SECONDS: u64 = 300;

/// The store's keys and commands.
pub struct RedisClient {}

impl RedisClient {
    /// Publishes `payload` on a channel.
    pub fn publish(channel: &str, payload: &str) -> (r: RedisCommand)
        ensures
            r@ == command_of(Operation::Publish(channel@, payload@)),
            r matches RedisCommand::Publish { channel: c, payload: p } && c@ == channel@ && p@
                == payload@,
    {
        RedisCommand::Publish { channel: channel.to_owned(), payload: payload.to_owned() }
    }

    /// Asks whether the store answers.
    pub fn health_check() -> (r: RedisCommand)
        ensures
            r@ == command_of(Operation::HealthCheck),
            r is Ping,
    {
        RedisCommand::Ping
    }

    /// Whether the answer to `health_check` is the one of a healthy store.
    pub fn is_healthy(reply: &str) -> (r: bool)
        ensures
            r == (reply@ == "PONG"@),
    {
        same(reply, "PONG")
    }

    pub fn get(key: &str) -> (r: RedisCommand)
        ensures
            r@ == command_of(Operation::Read(key@)),
            r matches RedisCommand::Get { key: k } && k@ == key@,
    {
        RedisCommand::Get { key: key.to_owned() }
    }

    pub fn set(key: &str, value: RedisArg) -> (r: RedisCommand)
        ensures
            r@ == command_of(Operation::Store(key@, value@)),
            r matches RedisCommand::SetKey { key: k, value: v } && k@ == key@ && v == value,
    {
        RedisCommand::SetKey { key: key.to_owned(), value }
    }

    pub fn set_ex(key: &str, value: RedisArg, seconds: u64) -> (r: RedisCommand)
        ensures
            r@ == command_of(Operation::StoreFor(key@, value@, seconds)),
            r matches RedisCommand::SetEx { key: k, value: v, seconds: s } && k@ == key@ && v
                == value && s == seconds,
    {
        RedisCommand::SetEx { key: key.to_owned(), value, seconds }
    }

    /// Sets `key` only if it does not exist yet. One of several racing calls
    /// creates the key, which is how event notifications are deduplicated.
    pub fn set_nx(key: &str, value: RedisArg, seconds: u64) -> (r: RedisCommand)
        ensures
            r@ == command_of(Operation::Claim(key@, value@, seconds)),
            r matches RedisCommand::SetNx { key: k, value: v, seconds: s } && k@ == key@ && v
                == value && s == seconds,
    {
        RedisCommand::SetNx { key: key.to_owned(), value, seconds }
    }

    /// Whether the answer to `set_nx` says that the call created the key: the
    /// store answers with a status then, and with nothing where the key was there.
    pub fn created(reply: &Option<String>) -> (r: bool)
        ensures
            r == (*reply is Some),
    {
        reply.is_some()
    }

    pub fn delete(key: &str) -> (r: RedisCommand)
        ensures
            r@ == command_of(Operation::Delete(key@)),
            r matches RedisCommand::Del { key: k } && k@ == key@,
    {
        RedisCommand::Del { key: key.to_owned() }
    }

    pub fn key_exists(key: &str) -> (r: RedisCommand)
        ensures
            r@ == command_of(Operation::LookFor(key@)),
            r matches RedisCommand::Exists { key: k } && k@ == key@,
    {
        RedisCommand::Exists { key: key.to_owned() }
    }

    /// Lets a key expire after `seconds`. The number goes out as a signed one, so
    /// it wraps around beyond `i64::MAX`.
    pub fn expire(key: &str, seconds: u64) -> (r: RedisCommand)
        ensures
            r@ == command_of(Operation::Limit(key@, seconds)),
            r matches RedisCommand::Expire { key: k, after } && k@ == key@ && after
                == seconds as i64,
    {
        RedisCommand::Expire { key: key.to_owned(), after: seconds as i64 }
    }

    pub fn incr(key: &str) -> (r: RedisCommand)
        ensures
            r@ == command_of(Operation::CountUp(key@)),
            r matches RedisCommand::Incr { key: k, by } && k@ == key@ && by == 1,
    {
        RedisCommand::Incr { key: key.to_owned(), by: 1 }
    }

    pub fn decr(key: &str) -> (r: RedisCommand)
        ensures
            r@ == command_of(Operation::CountDown(key@)),
            r matches RedisCommand::Decr { key: k, by } && k@ == key@ && by == 1,
    {
        RedisCommand::Decr { key: key.to_owned(), by: 1 }
    }

    /// Reads a key and deletes it in one step, so that a one-time state cannot be
    /// used twice.
    pub fn get_del(key: &str) -> (r: RedisCommand)
        ensures
            r@ == command_of(Operation::Take(key@)),
            r matches RedisCommand::GetDel { key: k } && k@ == key@,
    {
        RedisCommand::GetDel { key: key.to_owned() }
    }

    // ----- Sessions -----

    pub fn store_session(session_id: &str, user_id: i32, ttl_seconds: u64) -> (r: RedisCommand)
        ensures
            r@ == command_of(Operation::StoreSession(session_id@, user_id, ttl_seconds)),
            r matches RedisCommand::SetEx { key, value, seconds } && key@ == session_key(
                session_id@,
            ) && value == RedisArg::Int(user_id) && seconds == ttl_seconds,
    {
        let key = "session:".to_owned().concat(session_id);
        Self::set_ex(key.as_str(), RedisArg::Int(user_id), ttl_seconds)
    }

    pub fn get_session(session_id: &str) -> (r: RedisCommand)
        ensures
            r@ == command_of(Operation::ReadSession(session_id@)),
            r matches RedisCommand::Get { key } && key@ == session_key(session_id@),
    {
        Self::get("session:".to_owned().concat(session_id).as_str())
    }

    pub fn delete_session(session_id: &str) -> (r: RedisCommand)
        ensures
            r@ == command_of(Operation::DeleteSession(session_id@)),
            r matches RedisCommand::Del { key } && key@ == session_key(session_id@),
    {
        Self::delete("session:".to_owned().concat(session_id).as_str())
    }

    // ----- API keys -----

    /// Remembers whether an API key is valid.
    pub fn cache_api_key_validation(api_key: &str, is_valid: bool, ttl_seconds: u64) -> (r:
        RedisCommand)
        ensures
            r@ == command_of(Operation::StoreValidity(api_key@, is_valid, ttl_seconds)),
            r matches RedisCommand::SetEx { key, value, seconds } && key@ == api_key_key(api_key@)
                && value == RedisArg::Flag(is_valid) && seconds == ttl_seconds,
    {
        let key = "api_key:".to_owned().concat(api_key);
        Self::set_ex(key.as_str(), RedisArg::Flag(is_valid), ttl_seconds)
    }

    pub fn get_cached_api_key_validation(api_key: &str) -> (r: RedisCommand)
        ensures
            r@ == command_of(Operation::ReadValidity(api_key@)),
            r matches RedisCommand::Get { key } && key@ == api_key_key(api_key@),
    {
        Self::get("api_key:".to_owned().concat(api_key).as_str())
    }

    // ----- Rate limits -----

    /// Counts a request of `identifier`.
    pub fn check_rate_limit(identifier: &str) -> (r: RedisCommand)
        ensures
            r@ == command_of(Operation::CountRequest(identifier@)),
            r matches RedisCommand::Incr { key, by } && key@ == rate_limit_key(identifier@) && by
                == 1,
    {
        Self::incr("rate_limit:".to_owned().concat(identifier).as_str())
    }

    /// What follows from the count that `check_rate_limit` came back with: whether
    /// the request is within the limit, and the command that starts the window,
    /// which goes out with the first request of it.
    pub fn rate_limit_verdict(
        identifier: &str,
        limit: u32,
        window_seconds: u64,
        current_count: i64,
    ) -> (r: (bool, Option<RedisCommand>))
        ensures
            r.0 == within_limit(limit, current_count),
            r.1 is Some <==> opens_window(current_count),
            r.0 == (current_count <= limit),
            match r.1 {
                Some(command) => current_count == 1 && (command matches RedisCommand::Expire {
                    key,
                    after,
                } && key@ == rate_limit_key(identifier@) && after == window_seconds as i64),
                None => current_count != 1,
            },
    {
        let window = if current_count == 1 {
            let key = "rate_limit:".to_owned().concat(identifier);
            Some(Self::expire(key.as_str(), window_seconds))
        } else {
            None
        };
        (current_count <= limit as i64, window)
    }

    // ----- Background tasks -----

    pub fn store_task_status(task_id: &str, status: &str, ttl_seconds: u64) -> (r: RedisCommand)
        ensures
            r@ == command_of(Operation::StoreTask(task_id@, status@, ttl_seconds)),
            r matches RedisCommand::SetEx { key, value, seconds } && key@ == task_key(task_id@)
                && (value matches RedisArg::Text(text) && text@ == status@) && seconds
                == ttl_seconds,
    {
        let key = "task:".to_owned().concat(task_id);
        Self::set_ex(key.as_str(), RedisArg::Text(status.to_owned()), ttl_seconds)
    }

    pub fn get_task_status(task_id: &str) -> (r: RedisCommand)
        ensures
            r@ == command_of(Operation::ReadTask(task_id@)),
            r matches RedisCommand::Get { key } && key@ == task_key(task_id@),
    {
        Self::get("task:".to_owned().concat(task_id).as_str())
    }

    // ----- Podcast refreshes -----

    fn refresh_key(podcast_id: i32) -> (r: String)
        ensures
            r@ == refreshing_key(podcast_id),
    {
        "refreshing:".to_owned().concat(decimal(podcast_id).as_str())
    }

    pub fn set_podcast_refreshing(podcast_id: i32) -> (r: RedisCommand)
        ensures
            r@ == command_of(Operation::MarkRefresh(podcast_id)),
            r matches RedisCommand::SetEx { key, value, seconds } && key@ == refreshing_key(
                podcast_id,
            ) && value == RedisArg::Flag(true) && seconds == REFRESH_TTL_SECONDS,
    {
        let key = Self::refresh_key(podcast_id);
        Self::set_ex(key.as_str(), RedisArg::Flag(true), REFRESH_TTL_SECONDS)
    }

    pub fn is_podcast_refreshing(podcast_id: i32) -> (r: RedisCommand)
        ensures
            r@ == command_of(Operation::LookForRefresh(podcast_id)),
            r matches RedisCommand::Exists { key } && key@ == refreshing_key(podcast_id),
    {
        Self::key_exists(Self::refresh_key(podcast_id).as_str())
    }

    /// What the answer to `is_podcast_refreshing` means: a store that cannot be
    /// asked knows of no refresh.
    pub fn refreshing<E>(reply: Result<bool, E>) -> (r: bool)
        ensures
            r == (reply matches Ok(found) && found),
    {
        match reply {
            Ok(found) => found,
            Err(_) => false,
        }
    }

    pub fn clear_podcast_refreshing(podcast_id: i32) -> (r: RedisCommand)
        ensures
            r@ == command_of(Operation::ClearRefresh(podcast_id)),
            r matches RedisCommand::Del { key } && key@ == refreshing_key(podcast_id),
    {
        Self::delete(Self::refresh_key(podcast_id).as_str())
    }

    // ----- Now playing -----

    /// The key of a device's snapshot.
    pub fn now_playing_key(user_id: i32, device_id: &str) -> (r: String)
        ensures
            r@ == snapshot_key(user_id, device_id@),
    {
        "nowplaying:".to_owned().concat(decimal(user_id).as_str()).concat(":").concat(device_id)
    }

    /// The key of the set of a user's devices.
    pub fn now_playing_index_key(user_id: i32) -> (r: String)
        ensures
            r@ == index_key(user_id),
    {
        "nowplaying:devices:".to_owned().concat(decimal(user_id).as_str())
    }

    /// Starts to write a device's snapshot, stamped with the server's clock, so that
    /// the order of reports does not depend on the clocks of the clients.
    pub fn upsert_now_playing<N>(user_id: i32, snapshot: NowPlayingSnapshot<N>) -> (r:
        SnapshotUpsert<N>)
        ensures
            r.user() == user_id,
            r.stamped_snapshot() == stamped_at(snapshot, r.stamped_snapshot().updated_at),
            r.stamped_snapshot() == (NowPlayingSnapshot {
                updated_at: r.stamped_snapshot().updated_at,
                ..snapshot
            }),
            0 <= r.stamped_snapshot().updated_at,
    {
        SnapshotUpsert { user_id, snapshot: stamp_now(snapshot) }
    }

    /// Asks for a user's devices; `DeviceScan` takes the answer.
    pub fn get_now_playing_devices(user_id: i32) -> (r: RedisCommand)
        ensures
            r@ == command_of(Operation::ListDevices(user_id)),
            r matches RedisCommand::SMembers { key } && key@ == index_key(user_id),
    {
        RedisCommand::SMembers { key: Self::now_playing_index_key(user_id) }
    }

    /// Renews a device's snapshot without changing what it says. The store answers
    /// whether the snapshot was still there.
    pub fn touch_now_playing(user_id: i32, device_id: &str) -> (r: RedisCommand)
        ensures
            r@ == command_of(Operation::Renew(user_id, device_id@)),
            r matches RedisCommand::Expire { key, after } && key@ == snapshot_key(
                user_id,
                device_id@,
            ) && after == NOW_PLAYING_TTL_SECONDS,
    {
        Self::expire(Self::now_playing_key(user_id, device_id).as_str(), NOW_PLAYING_TTL_SECONDS)
    }

    /// What follows a `touch_now_playing`: the index is renewed along with the
    /// snapshot, and nothing happens where the snapshot had already expired.
    pub fn touch_index(user_id: i32, renewed: bool) -> (r: Option<RedisCommand>)
        ensures
            match r {
                Some(command) => renewed && (command matches RedisCommand::Expire { key, after }
                    && key@ == index_key(user_id) && after == NOW_PLAYING_INDEX_TTL_SECONDS),
                None => !renewed,
            },
    {
        if renewed {
            Some(
                RedisCommand::Expire {
                    key: Self::now_playing_index_key(user_id),
                    after: NOW_PLAYING_INDEX_TTL_SECONDS,
                },
            )
        } else {
            None
        }
    }

    /// Forgets a device: its snapshot and its place in the index.
    pub fn remove_now_playing(user_id: i32, device_id: &str) -> (r: Vec<RedisCommand>)
        ensures
            is_removal(r@, user_id, device_id@),
    {
        let mut commands: Vec<RedisCommand> = Vec::new();
        commands.push(RedisCommand::Del { key: Self::now_playing_key(user_id, device_id) });
        commands.push(
            RedisCommand::SRem {
                key: Self::now_playing_index_key(user_id),
                member: device_id.to_owned(),
            },
        );
        commands
    }

    /// The episode that new items of the user's queue go under: that of the
    /// device that plays and reported last, and where none plays, that of the
    /// device that reported last and still has an episode loaded.
    pub fn active_session_anchor<N>(devices: &Vec<NowPlayingSnapshot<N>>) -> (r: Option<
        (i32, bool),
    >)
        ensures
            r is Some <==> has_session(devices@),
            match r {
                Some(anchor) => exists|i: int| #[trigger]
                    is_anchor(devices@, i) && anchor == (
                        devices@[i].episode_id,
                        devices@[i].is_youtube,
                    ),
                None => forall|i: int|
                    0 <= i < devices@.len() ==> !(#[trigger] devices@[i]).playing
                        && devices@[i].episode_id == 0,
            },
    {
        match Self::latest(devices, true) {
            Some(i) => {
                assert(is_anchor(devices@, i as int));
                Some((devices[i].episode_id, devices[i].is_youtube))
            },
            None => match Self::latest(devices, false) {
                Some(i) => {
                    assert(is_anchor(devices@, i as int));
                    Some((devices[i].episode_id, devices[i].is_youtube))
                },
                None => None,
            },
        }
    }

    fn latest<N>(devices: &Vec<NowPlayingSnapshot<N>>, playing: bool) -> (r: Option<usize>)
        ensures
            match r {
                Some(i) => is_latest(devices@, playing, i as int),
                None => forall|j: int|
                    0 <= j < devices@.len() ==> !counts(#[trigger] devices@[j], playing),
            },
    {
        let mut best: Option<usize> = None;
        let mut i: usize = 0;
        while i < devices.len()
            invariant
                i <= devices.len(),
                match best {
                    Some(b) => is_latest(devices@.take(i as int), playing, b as int),
                    None => forall|j: int|
                        0 <= j < i ==> !counts(#[trigger] devices@[j], playing),
                },
            decreases devices.len() - i,
        {
            let device = &devices[i];
            let eligible = if playing {
                device.playing
            } else {
                device.episode_id != 0
            };
            if eligible {
                let better = match best {
                    Some(b) => devices[b].updated_at <= device.updated_at,
                    None => true,
                };
                if better {
                    best = Some(i);
                }
            }
            i = i + 1;
        }
        assert(devices@.take(devices@.len() as int) == devices@);
        best
    }
}

/// The request with that count is within the limit.
pub open spec fn within_limit(limit: u32, count: i64) -> bool {
    count <= limit
}

/// The request with that count is the first of its window.
pub open spec fn opens_window(count: i64) -> bool {
    count == 1
}

/// A device that is considered: one that plays, or one with an episode loaded.
pub open spec fn counts<N>(device: NowPlayingSnapshot<N>, playing: bool) -> bool {
    if playing {
        device.playing
    } else {
        device.episode_id != 0
    }
}

/// Among the devices that count, the one at `i` reported last; of several that
/// reported at the same time it stands last.
pub open spec fn is_latest<N>(
    devices: Seq<NowPlayingSnapshot<N>>,
    playing: bool,
    i: int,
) -> bool {
    &&& 0 <= i < devices.len()
    &&& counts(devices[i], playing)
    &&& forall|j: int|
        0 <= j < devices.len() && counts(#[trigger] devices[j], playing)
            ==> devices[j].updated_at < devices[i].updated_at || (devices[j].updated_at
            == devices[i].updated_at && j <= i)
}

/// One of the devices plays or has an episode loaded.
pub open spec fn has_session<N>(devices: Seq<NowPlayingSnapshot<N>>) -> bool {
    exists|i: int|
        0 <= i < devices.len() && ((#[trigger] devices[i]).playing || devices[i].episode_id != 0)
}

/// The device at `i` is the user's active session.
pub open spec fn is_anchor<N>(devices: Seq<NowPlayingSnapshot<N>>, i: int) -> bool {
    ||| is_latest(devices, true, i)
    ||| {
        &&& forall|j: int| 0 <= j < devices.len() ==> !(#[trigger] devices[j]).playing
        &&& is_latest(devices, false, i)
    }
}

/// A snapshot with the time at which it is stored.
pub open spec fn stamped_at<N>(snapshot: NowPlayingSnapshot<N>, now: i64) -> NowPlayingSnapshot<N> {
    NowPlayingSnapshot { updated_at: now, ..snapshot }
}

/// Stamps a snapshot with the time at which it is stored.
pub fn stamped<N>(snapshot: NowPlayingSnapshot<N>, now: i64) -> (r: NowPlayingSnapshot<N>)
    ensures
        r == stamped_at(snapshot, now),
        r == (NowPlayingSnapshot { updated_at: now, ..snapshot }),
{
    NowPlayingSnapshot { updated_at: now, ..snapshot }
}

/// Calls `chrono::Utc::now` and `timestamp`: the seconds since the epoch by the
/// machine's clock. Claimed: no moment before the epoch comes back, since
/// `Utc::now` counts from the epoch on, and does not return on a machine whose
/// clock stands before it. Which moment comes back is not stated: that is up to
/// the clock.
#[verifier::external_body]
fn now_seconds() -> (r: i64)
    ensures
        0 <= r,
{
    chrono::Utc::now().timestamp()
}

/// Stamps a snapshot with the server's clock, so that the order of reports does
/// not depend on the clocks of the clients: whatever time the snapshot came with,
/// it leaves with one that the clock gave, which is none before the epoch. All
/// else is kept.
pub fn stamp_now<N>(snapshot: NowPlayingSnapshot<N>) -> (r: NowPlayingSnapshot<N>)
    ensures
        r == stamped_at(snapshot, r.updated_at),
        r == (NowPlayingSnapshot { updated_at: r.updated_at, ..snapshot }),
        0 <= r.updated_at,
{
    stamped(snapshot, now_seconds())
}

/// The commands that write a device's snapshot, given as its JSON text, and index the
/// device under the user.
pub open spec fn is_upsert(
    commands: Seq<RedisCommand>,
    user_id: i32,
    device_id: Seq<char>,
    json: String,
) -> bool {
    &&& commands.len() == 3
    &&& commands[0] matches RedisCommand::SetEx { key, value, seconds } && key@ == snapshot_key(
        user_id,
        device_id,
    ) && value == RedisArg::Text(json) && seconds == NOW_PLAYING_TTL_SECONDS
    &&& commands[1] matches RedisCommand::SAdd { key, member } && key@ == index_key(user_id)
        && member@ == device_id
    &&& commands[2] matches RedisCommand::Expire { key, after } && key@ == index_key(user_id)
        && after == NOW_PLAYING_INDEX_TTL_SECONDS
}

/// The commands that forget a device.
pub open spec fn is_removal(
    commands: Seq<RedisCommand>,
    user_id: i32,
    device_id: Seq<char>,
) -> bool {
    &&& commands.len() == 2
    &&& commands[0] matches RedisCommand::Del { key } && key@ == snapshot_key(user_id, device_id)
    &&& is_prune(commands[1], user_id, device_id)
}

/// The command that takes a device out of the user's index.
pub open spec fn is_prune(command: RedisCommand, user_id: i32, device_id: Seq<char>) -> bool {
    command matches RedisCommand::SRem { key, member } && key@ == index_key(user_id) && member@
        == device_id
}

/// A snapshot on its way into the store: stamped, and to be written as the JSON text
/// of what `snapshot` hands out.
pub struct SnapshotUpsert<N> {
    user_id: i32,
    snapshot: NowPlayingSnapshot<N>,
}

impl<N> SnapshotUpsert<N> {
    pub closed spec fn user(&self) -> i32 {
        self.user_id
    }

    pub closed spec fn stamped_snapshot(&self) -> NowPlayingSnapshot<N> {
        self.snapshot
    }

    /// A snapshot that is to be written with the time given.
    pub fn at(user_id: i32, snapshot: NowPlayingSnapshot<N>, now: i64) -> (r: Self)
        ensures
            r.user() == user_id,
            r.stamped_snapshot() == stamped_at(snapshot, now),
            r.stamped_snapshot() == (NowPlayingSnapshot { updated_at: now, ..snapshot }),
    {
        SnapshotUpsert { user_id, snapshot: stamped(snapshot, now) }
    }

    /// The stamped snapshot, to be written as JSON.
    pub fn snapshot(&self) -> (r: &NowPlayingSnapshot<N>)
        ensures
            *r == self.stamped_snapshot(),
    {
        &self.snapshot
    }

    /// Writes the snapshot, given as its JSON text, and indexes the device under the
    /// user.
    pub fn commands(&self, json: String) -> (r: Vec<RedisCommand>)
        ensures
            is_upsert(r@, self.user(), self.stamped_snapshot().device_id@, json),
    {
        let device_id = self.snapshot.device_id.as_str();
        let mut commands: Vec<RedisCommand> = Vec::new();
        commands.push(
            RedisCommand::SetEx {
                key: RedisClient::now_playing_key(self.user_id, device_id),
                value: RedisArg::Text(json),
                seconds: NOW_PLAYING_TTL_SECONDS,
            },
        );
        commands.push(
            RedisCommand::SAdd {
                key: RedisClient::now_playing_index_key(self.user_id),
                member: device_id.to_owned(),
            },
        );
        commands.push(
            RedisCommand::Expire {
                key: RedisClient::now_playing_index_key(self.user_id),
                after: NOW_PLAYING_INDEX_TTL_SECONDS,
            },
        );
        commands
    }
}

/// What the store holds under the key of a device's snapshot.
#[derive(Debug, PartialEq)]
pub enum Stored<N> {
    /// Nothing: the snapshot has expired.
    Missing,
    /// A text that is no snapshot.
    Corrupt,
    Snapshot(NowPlayingSnapshot<N>),
}

/// The snapshots among the answers, in order.
pub open spec fn kept<N>(answers: Seq<Stored<N>>) -> Seq<NowPlayingSnapshot<N>>
    decreases answers.len(),
{
    if answers.len() == 0 {
        Seq::empty()
    } else {
        match answers.last() {
            Stored::Snapshot(snapshot) => kept(answers.drop_last()).push(snapshot),
            _ => kept(answers.drop_last()),
        }
    }
}

/// A series of commands with one more, if there is one.
spec fn pushed(commands: Seq<RedisCommand>, command: Option<RedisCommand>) -> Seq<RedisCommand> {
    match command {
        Some(command) => commands.push(command),
        None => commands,
    }
}

/// The devices that have no readable snapshot, by what was answered for each.
pub open spec fn unreadable<N>(indexed: Seq<String>, answers: Seq<Stored<N>>) -> Seq<Seq<char>>
    decreases answers.len(),
{
    if answers.len() == 0 {
        Seq::empty()
    } else {
        let before = unreadable(indexed, answers.drop_last());
        match answers.last() {
            Stored::Snapshot(_) => before,
            _ => before.push(indexed[answers.len() - 1]@),
        }
    }
}

/// The listing of a user's devices: the index is walked, each device's snapshot is
/// read, and devices without a readable one are pruned from the index.
pub struct DeviceScan<N> {
    user_id: i32,
    device_ids: Vec<String>,
    at: usize,
    found: Vec<NowPlayingSnapshot<N>>,
    answers: Ghost<Seq<Stored<N>>>,
    prunes: Ghost<Seq<RedisCommand>>,
}

impl<N> DeviceScan<N> {
    pub closed spec fn user(&self) -> i32 {
        self.user_id
    }

    /// The devices that the index names.
    pub closed spec fn indexed(&self) -> Seq<String> {
        self.device_ids@
    }

    /// What the store answered so far, device by device.
    pub closed spec fn answered(&self) -> Seq<Stored<N>> {
        self.answers@
    }

    /// The commands that were handed out to prune the index.
    pub closed spec fn prunes(&self) -> Seq<RedisCommand> {
        self.prunes@
    }

    /// The index is pruned of the devices that have no readable snapshot, and of no
    /// other.
    pub open spec fn prunes_the_unreadable(&self) -> bool {
        let devices = unreadable(self.indexed(), self.answered());
        &&& self.prunes().len() == devices.len()
        &&& forall|i: int|
            0 <= i < devices.len() ==> is_prune(
                #[trigger] self.prunes()[i],
                self.user(),
                devices[i],
            )
    }

    pub closed spec fn wf(&self) -> bool {
        &&& self.at == self.answers@.len()
        &&& self.at <= self.device_ids@.len()
        &&& self.found@ == kept(self.answers@)
        &&& self.prunes_the_unreadable()
    }

    /// Every device has been answered for.
    pub open spec fn complete(&self) -> bool {
        self.answered().len() == self.indexed().len()
    }

    /// Starts from the members of the user's index.
    pub fn new(user_id: i32, device_ids: Vec<String>) -> (r: Self)
        ensures
            r.wf(),
            r.user() == user_id,
            r.indexed() == device_ids@,
            r.answered() == Seq::<Stored<N>>::empty(),
            r.prunes() == Seq::<RedisCommand>::empty(),
    {
        DeviceScan {
            user_id,
            device_ids,
            at: 0,
            found: Vec::new(),
            answers: Ghost(Seq::empty()),
            prunes: Ghost(Seq::empty()),
        }
    }

    /// The snapshot to read next, until every device has been answered for.
    pub fn next(&self) -> (r: Option<RedisCommand>)
        requires
            self.wf(),
        ensures
            match r {
                None => self.complete(),
                Some(command) => self.answered().len() < self.indexed().len() && (
                command matches RedisCommand::Get { key } && key@ == snapshot_key(
                    self.user(),
                    self.indexed()[self.answered().len() as int]@,
                )),
            },
    {
        if self.at < self.device_ids.len() {
            let key = RedisClient::now_playing_key(
                self.user_id,
                self.device_ids[self.at].as_str(),
            );
            Some(RedisCommand::Get { key })
        } else {
            None
        }
    }

    /// Takes what was stored for the current device; a device without a readable
    /// snapshot is to be removed from the index. An answer beyond the last device
    /// is ignored.
    pub fn answer(&mut self, stored: Stored<N>) -> (r: Option<RedisCommand>)
        requires
            old(self).wf(),
        ensures
            final(self).wf(),
            final(self).user() == old(self).user(),
            final(self).indexed() == old(self).indexed(),
            final(self).prunes() == (match r {
                Some(command) => old(self).prunes().push(command),
                None => old(self).prunes(),
            }),
            old(self).complete() ==> final(self).answered() == old(self).answered() && r is None,
            !old(self).complete() ==> {
                &&& final(self).answered() == old(self).answered().push(stored)
                &&& r is None <==> stored is Snapshot
                &&& r matches Some(command) ==> is_prune(
                    command,
                    old(self).user(),
                    old(self).indexed()[old(self).answered().len() as int]@,
                )
            },
    {
        if self.at >= self.device_ids.len() {
            return None;
        }
        let ghost before = self.answers@;
        let prune = match stored {
            Stored::Snapshot(_) => None,
            _ => Some(
                RedisCommand::SRem {
                    key: RedisClient::now_playing_index_key(self.user_id),
                    member: self.device_ids[self.at].clone(),
                },
            ),
        };
        let ghost pruned = self.prunes@;
        self.answers = Ghost(before.push(stored));
        self.prunes = Ghost(pushed(pruned, prune));
        proof {
            assert(before.push(stored).drop_last() == before);
        }
        match stored {
            Stored::Snapshot(snapshot) => {
                self.found.push(snapshot);
            },
            _ => {},
        }
        self.at = self.at + 1;
        prune
    }

    /// The user's active devices: the snapshots that could be read, in the order
    /// of the index.
    pub fn finish(self) -> (r: Vec<NowPlayingSnapshot<N>>)
        requires
            self.wf(),
        ensures
            r@ == kept(self.answered()),
    {
        self.found
    }
}

// ------------------------------------------------------------------
// Laws
// ------------------------------------------------------------------

/// Two devices share a snapshot key only if they are the same device of the same
/// user.
pub proof fn law_snapshot_keys_are_distinct(u1: i32, d1: Seq<char>, u2: i32, d2: Seq<char>)
    requires
        snapshot_key(u1, d1) == snapshot_key(u2, d2),
    ensures
        u1 == u2,
        d1 == d2,
{
    reveal_strlit(":");
    assert(":"@ =~= seq![':']);
    let a1 = int_decimal(u1 as int);
    let a2 = int_decimal(u2 as int);
    lemma_int_decimal_shape(u1 as int);
    lemma_int_decimal_shape(u2 as int);
    let p = "nowplaying:"@;
    assert(snapshot_key(u1, d1) =~= p + (a1 + seq![':'] + d1));
    assert(snapshot_key(u2, d2) =~= p + (a2 + seq![':'] + d2));
    lemma_prefix_cancels(p, a1 + seq![':'] + d1, a2 + seq![':'] + d2);
    lemma_split_unique(a1, d1, a2, d2, ':');
    lemma_int_decimal_injective(u1 as int, u2 as int);
}

/// Two users never share an index of devices.
pub proof fn law_index_keys_are_distinct(u1: i32, u2: i32)
    requires
        index_key(u1) == index_key(u2),
    ensures
        u1 == u2,
{
    lemma_prefix_cancels(
        "nowplaying:devices:"@,
        int_decimal(u1 as int),
        int_decimal(u2 as int),
    );
    lemma_int_decimal_injective(u1 as int, u2 as int);
}

/// No device can be named so that its snapshot takes the place of an index.
pub proof fn law_snapshots_are_no_indexes(u1: i32, device_id: Seq<char>, u2: i32)
    ensures
        snapshot_key(u1, device_id) != index_key(u2),
{
    reveal_strlit("nowplaying:");
    reveal_strlit("nowplaying:devices:");
    lemma_int_decimal_shape(u1 as int);
    assert(snapshot_key(u1, device_id)[11] == int_decimal(u1 as int)[0]);
    assert(index_key(u2)[11] == 'd');
}

/// What stands under a key.
pub enum Content {
    Value(RedisArg),
    Members(Set<Seq<char>>),
}

/// What the store holds under a key, and for how many seconds it was set to live:
/// for ever where that is nothing.
pub struct Entry {
    pub content: Content,
    pub lifetime: Option<int>,
}

/// The members of the set under a key: none where there is no set.
pub open spec fn members_at(store: Map<Seq<char>, Entry>, key: Seq<char>) -> Set<Seq<char>> {
    if store.contains_key(key) && store[key].content is Members {
        store[key].content->Members_0
    } else {
        Set::empty()
    }
}

/// What the store holds under its keys after a command, within the lifetime of every
/// key. A set without members is no set. A command that the store does not accept,
/// as one that takes a plain value for a set, changes nothing. Counters are left
/// out.
pub open spec fn held_after(store: Map<Seq<char>, Entry>, command: RedisCommand) -> Map<
    Seq<char>,
    Entry,
> {
    match command {
        RedisCommand::SetKey { key, value } => store.insert(
            key@,
            Entry { content: Content::Value(value), lifetime: None },
        ),
        RedisCommand::SetEx { key, value, seconds } => store.insert(
            key@,
            Entry { content: Content::Value(value), lifetime: Some(seconds as int) },
        ),
        RedisCommand::SetNx { key, value, seconds } => if store.contains_key(key@) {
            store
        } else {
            store.insert(
                key@,
                Entry { content: Content::Value(value), lifetime: Some(seconds as int) },
            )
        },
        RedisCommand::Expire { key, after } => if !store.contains_key(key@) {
            store
        } else if after > 0 {
            store.insert(key@, Entry { lifetime: Some(after as int), ..store[key@] })
        } else {
            store.remove(key@)
        },
        RedisCommand::Del { key } => store.remove(key@),
        RedisCommand::GetDel { key } => store.remove(key@),
        RedisCommand::SAdd { key, member } => if !store.contains_key(key@) {
            store.insert(
                key@,
                Entry {
                    content: Content::Members(Set::empty().insert(member@)),
                    lifetime: None,
                },
            )
        } else if store[key@].content is Members {
            store.insert(
                key@,
                Entry {
                    content: Content::Members(members_at(store, key@).insert(member@)),
                    ..store[key@]
                },
            )
        } else {
            store
        },
        RedisCommand::SRem { key, member } => if !store.contains_key(key@)
            || store[key@].content is Value {
            store
        } else if members_at(store, key@).remove(member@) == Set::<Seq<char>>::empty() {
            store.remove(key@)
        } else {
            store.insert(
                key@,
                Entry {
                    content: Content::Members(members_at(store, key@).remove(member@)),
                    ..store[key@]
                },
            )
        },
        _ => store,
    }
}

/// What the store holds after a series of commands.
pub open spec fn held_after_all(
    store: Map<Seq<char>, Entry>,
    commands: Seq<RedisCommand>,
) -> Map<Seq<char>, Entry>
    decreases commands.len(),
{
    if commands.len() == 0 {
        store
    } else {
        held_after(held_after_all(store, commands.drop_last()), commands.last())
    }
}

/// What a command that reads a key finds.
pub open spec fn found_by(store: Map<Seq<char>, Entry>, command: RedisCommand) -> Option<
    RedisArg,
> {
    match command {
        RedisCommand::Get { key } => value_at(store, key@),
        RedisCommand::GetDel { key } => value_at(store, key@),
        _ => None,
    }
}

/// The plain value under a key.
pub open spec fn value_at(store: Map<Seq<char>, Entry>, key: Seq<char>) -> Option<RedisArg> {
    if store.contains_key(key) && store[key].content is Value {
        Some(store[key].content->Value_0)
    } else {
        None
    }
}

/// The command claims the key.
pub open spec fn claims(command: RedisCommand, key: Seq<char>) -> bool {
    command matches RedisCommand::SetNx { key: claimed, .. } && claimed@ == key
}

/// The command does not set, delete, expire or count up the key: it claims or reads
/// it at most.
pub open spec fn leaves(command: RedisCommand, key: Seq<char>) -> bool {
    match command {
        RedisCommand::SetKey { key: changed, value } => changed@ != key,
        RedisCommand::SetEx { key: changed, value, seconds } => changed@ != key,
        RedisCommand::Expire { key: changed, after } => changed@ != key,
        RedisCommand::Del { key: changed } => changed@ != key,
        RedisCommand::GetDel { key: changed } => changed@ != key,
        RedisCommand::Incr { key: changed, by } => changed@ != key,
        RedisCommand::Decr { key: changed, by } => changed@ != key,
        RedisCommand::SAdd { key: changed, member } => changed@ != key,
        RedisCommand::SRem { key: changed, member } => changed@ != key,
        _ => true,
    }
}

/// Whether a command that claims a key creates it: the key did not exist just
/// before.
pub open spec fn creates(store: Map<Seq<char>, Entry>, command: RedisCommand) -> bool {
    command matches RedisCommand::SetNx { key, .. } && !store.contains_key(key@)
}

/// Whether the command at `i` of a series creates the key that it claims.
pub open spec fn creates_at(
    store: Map<Seq<char>, Entry>,
    commands: Seq<RedisCommand>,
    i: int,
) -> bool {
    creates(held_after_all(store, commands.take(i)), commands[i])
}

/// A session that was stored is read back with its user, until it is deleted; the
/// sessions of others stay as they are.
pub proof fn law_sessions_are_read_back(
    store: Map<Seq<char>, Entry>,
    session_id: Seq<char>,
    user_id: i32,
    write: RedisCommand,
    read: RedisCommand,
    delete: RedisCommand,
    other: Seq<char>,
    read_other: RedisCommand,
)
    requires
        write matches RedisCommand::SetEx { key, value, .. } && key@ == session_key(session_id)
            && value == RedisArg::Int(user_id),
        read matches RedisCommand::Get { key } && key@ == session_key(session_id),
        delete matches RedisCommand::Del { key } && key@ == session_key(session_id),
        read_other matches RedisCommand::Get { key } && key@ == session_key(other),
        other != session_id,
    ensures
        found_by(held_after(store, write), read) == Some(RedisArg::Int(user_id)),
        found_by(held_after(held_after(store, write), delete), read) is None,
        found_by(held_after(store, write), read_other) == found_by(store, read_other),
        found_by(held_after(store, delete), read_other) == found_by(store, read_other),
{
    if session_key(other) == session_key(session_id) {
        lemma_prefix_cancels("session:"@, other, session_id);
    }
}

/// A value that is read and deleted in one step can be used once only.
pub proof fn law_one_time_values_are_read_once(store: Map<Seq<char>, Entry>, take: RedisCommand)
    requires
        take is GetDel,
    ensures
        found_by(held_after(store, take), take) is None,
{
}

/// Of any number of claims of one key, in whatever order they reach the store and
/// whatever happens to other keys between them, exactly the first one creates it, if
/// it was not there before. The key then holds the value and the lifetime that the
/// first claim gave it, and the others change neither.
pub proof fn law_a_key_is_claimed_once(
    store: Map<Seq<char>, Entry>,
    key: Seq<char>,
    commands: Seq<RedisCommand>,
    first: int,
)
    requires
        !store.contains_key(key),
        forall|i: int| 0 <= i < commands.len() ==> leaves(#[trigger] commands[i], key),
        0 <= first < commands.len(),
        claims(commands[first], key),
        forall|i: int| 0 <= i < first ==> !claims(#[trigger] commands[i], key),
    ensures
        forall|i: int|
            0 <= i < commands.len() && claims(#[trigger] commands[i], key) ==> (creates_at(
                store,
                commands,
                i,
            ) <==> i == first),
        held_after_all(store, commands).contains_key(key),
        commands[first] matches RedisCommand::SetNx { value, seconds, .. } && held_after_all(
            store,
            commands,
        )[key] == (Entry {
            content: Content::Value(value),
            lifetime: Some(seconds as int),
        }),
{
    lemma_claims(store, key, commands, first, commands.len() as int);
    assert(commands.take(commands.len() as int) =~= commands);
    assert forall|i: int|
        0 <= i < commands.len() && claims(#[trigger] commands[i], key) implies (creates_at(
        store,
        commands,
        i,
    ) <==> i == first) by {
        lemma_claims(store, key, commands, first, i);
    }
}

/// What the store holds under a key after the first `n` commands, of which the one
/// at `first` is the first that claims it.
proof fn lemma_claims(
    store: Map<Seq<char>, Entry>,
    key: Seq<char>,
    commands: Seq<RedisCommand>,
    first: int,
    n: int,
)
    requires
        !store.contains_key(key),
        forall|i: int| 0 <= i < commands.len() ==> leaves(#[trigger] commands[i], key),
        0 <= first < commands.len(),
        claims(commands[first], key),
        forall|i: int| 0 <= i < first ==> !claims(#[trigger] commands[i], key),
        0 <= n <= commands.len(),
    ensures
        n <= first ==> !held_after_all(store, commands.take(n)).contains_key(key),
        n > first ==> held_after_all(store, commands.take(n)).contains_key(key) && (
        commands[first] matches RedisCommand::SetNx { value, seconds, .. } && held_after_all(
            store,
            commands.take(n),
        )[key] == (Entry {
            content: Content::Value(value),
            lifetime: Some(seconds as int),
        })),
    decreases n,
{
    if n > 0 {
        lemma_claims(store, key, commands, first, n - 1);
        assert(commands.take(n).drop_last() =~= commands.take(n - 1));
        assert(commands.take(n).last() == commands[n - 1]);
        assert(leaves(commands[n - 1], key));
    }
}

/// A key that is there cannot be claimed: no claim creates it, and it stays what it
/// was.
pub proof fn law_a_taken_key_stays(
    store: Map<Seq<char>, Entry>,
    key: Seq<char>,
    commands: Seq<RedisCommand>,
)
    requires
        store.contains_key(key),
        forall|i: int| 0 <= i < commands.len() ==> leaves(#[trigger] commands[i], key),
    ensures
        held_after_all(store, commands).contains_key(key),
        held_after_all(store, commands)[key] == store[key],
        forall|i: int|
            0 <= i < commands.len() && claims(#[trigger] commands[i], key) ==> !creates_at(
                store,
                commands,
                i,
            ),
    decreases commands.len(),
{
    if commands.len() > 0 {
        let before = commands.drop_last();
        law_a_taken_key_stays(store, key, before);
        assert(leaves(commands.last(), key));
        assert forall|i: int|
            0 <= i < commands.len() && claims(#[trigger] commands[i], key) implies !creates_at(
            store,
            commands,
            i,
        ) by {
            if i < before.len() {
                assert(before[i] == commands[i]);
                assert(before.take(i) =~= commands.take(i));
                assert(!creates_at(store, before, i));
            } else {
                assert(commands.take(i) =~= before);
            }
        }
    }
}

/// The listing of a user's devices holds exactly the snapshots that could be read:
/// a device whose snapshot has expired drops off.
pub proof fn law_readable_snapshots_are_listed<N>(
    answers: Seq<Stored<N>>,
    snapshot: NowPlayingSnapshot<N>,
)
    ensures
        kept(answers).contains(snapshot) <==> answers.contains(Stored::Snapshot(snapshot)),
    decreases answers.len(),
{
    if answers.len() > 0 {
        let before = answers.drop_last();
        law_readable_snapshots_are_listed(before, snapshot);
        assert(answers == before.push(answers.last()));
        if answers.contains(Stored::Snapshot(snapshot)) {
            let i = choose|i: int|
                0 <= i < answers.len() && answers[i] == Stored::Snapshot(snapshot);
            if i < before.len() {
                assert(before[i] == Stored::Snapshot(snapshot));
                let k = choose|k: int| 0 <= k < kept(before).len() && kept(before)[k] == snapshot;
                assert(kept(answers)[k] == snapshot);
            } else {
                assert(kept(answers).last() == snapshot);
            }
        }
        if kept(answers).contains(snapshot) {
            let k = choose|k: int| 0 <= k < kept(answers).len() && kept(answers)[k] == snapshot;
            if k < kept(before).len() {
                assert(kept(before)[k] == snapshot);
                let i = choose|i: int|
                    0 <= i < before.len() && before[i] == Stored::Snapshot(snapshot);
                assert(answers[i] == Stored::Snapshot(snapshot));
            } else {
                assert(answers[answers.len() - 1] == Stored::Snapshot(snapshot));
            }
        }
    }
}

/// What a device reports is what the listing of the user's devices reads: the index
/// names the device, along with those that it named before, and the device's key
/// holds the text that was written. The snapshots of other devices, and the indexes
/// of other users, stay as they are.
pub proof fn law_reports_are_read_back(
    store: Map<Seq<char>, Entry>,
    commands: Seq<RedisCommand>,
    user_id: i32,
    device_id: Seq<char>,
    json: String,
    other_user: i32,
    other_device: Seq<char>,
)
    requires
        is_upsert(commands, user_id, device_id, json),
        value_at(store, index_key(user_id)) is None,
    ensures
        ({
            let after = held_after_all(store, commands);
            &&& value_at(after, snapshot_key(user_id, device_id)) == Some(RedisArg::Text(json))
            &&& forall|read: RedisCommand|
                (read matches RedisCommand::Get { key } && key@ == snapshot_key(
                    user_id,
                    device_id,
                )) ==> #[trigger] found_by(after, read) == Some(RedisArg::Text(json))
            &&& after[snapshot_key(user_id, device_id)].lifetime == Some(
                NOW_PLAYING_TTL_SECONDS as int,
            )
            &&& members_at(after, index_key(user_id)) == members_at(
                store,
                index_key(user_id),
            ).insert(device_id)
            &&& after[index_key(user_id)].lifetime == Some(NOW_PLAYING_INDEX_TTL_SECONDS as int)
            &&& (other_user, other_device) != (user_id, device_id) ==> value_at(
                after,
                snapshot_key(other_user, other_device),
            ) == value_at(store, snapshot_key(other_user, other_device))
            &&& other_user != user_id ==> members_at(after, index_key(other_user)) == members_at(
                store,
                index_key(other_user),
            )
        }),
{
    lemma_device_keys(user_id, device_id, other_user, other_device);
    let first = held_after(store, commands[0]);
    let second = held_after(first, commands[1]);
    let third = held_after(second, commands[2]);
    lemma_two_commands(store, commands.take(2));
    assert(commands.take(2)[0] == commands[0] && commands.take(2)[1] == commands[1]);
    assert(commands.drop_last() =~= commands.take(2));
    assert(held_after_all(store, commands) == third);
    let index = index_key(user_id);
    assert(members_at(first, index) == members_at(store, index));
    assert(members_at(second, index) =~= members_at(store, index).insert(device_id));
    assert(members_at(third, index) == members_at(second, index));
}

/// A device that is forgotten is neither named by the index nor found under its key;
/// the other devices of the user are named as before.
pub proof fn law_removed_devices_are_gone(
    store: Map<Seq<char>, Entry>,
    commands: Seq<RedisCommand>,
    user_id: i32,
    device_id: Seq<char>,
)
    requires
        is_removal(commands, user_id, device_id),
    ensures
        ({
            let after = held_after_all(store, commands);
            &&& value_at(after, snapshot_key(user_id, device_id)) is None
            &&& members_at(after, index_key(user_id)) == members_at(
                store,
                index_key(user_id),
            ).remove(device_id)
        }),
{
    lemma_device_keys(user_id, device_id, user_id, device_id);
    lemma_two_commands(store, commands);
    let first = held_after(store, commands[0]);
    assert(members_at(first, index_key(user_id)) == members_at(store, index_key(user_id)));
    lemma_pruned_members(first, commands[1], user_id, device_id);
}

proof fn lemma_two_commands(store: Map<Seq<char>, Entry>, commands: Seq<RedisCommand>)
    requires
        commands.len() == 2,
    ensures
        held_after_all(store, commands) == held_after(
            held_after(store, commands[0]),
            commands[1],
        ),
{
    let one = commands.drop_last();
    assert(one.last() == commands[0]);
    assert(held_after_all(store, one.drop_last()) == store);
    assert(held_after_all(store, one) == held_after(store, commands[0]));
}

/// The keys of devices and indexes are told apart.
proof fn lemma_device_keys(u: i32, d: Seq<char>, v: i32, e: Seq<char>)
    ensures
        snapshot_key(u, d) != index_key(u),
        snapshot_key(u, d) != index_key(v),
        snapshot_key(v, e) != index_key(u),
        snapshot_key(u, d) == snapshot_key(v, e) ==> u == v && d == e,
        index_key(u) == index_key(v) ==> u == v,
{
    law_snapshots_are_no_indexes(u, d, u);
    law_snapshots_are_no_indexes(u, d, v);
    law_snapshots_are_no_indexes(v, e, u);
    if snapshot_key(u, d) == snapshot_key(v, e) {
        law_snapshot_keys_are_distinct(u, d, v, e);
    }
    if index_key(u) == index_key(v) {
        law_index_keys_are_distinct(u, v);
    }
}

/// Pruning takes one device out of the index.
proof fn lemma_pruned_members(
    store: Map<Seq<char>, Entry>,
    command: RedisCommand,
    user_id: i32,
    device_id: Seq<char>,
)
    requires
        is_prune(command, user_id, device_id),
    ensures
        members_at(held_after(store, command), index_key(user_id)) == members_at(
            store,
            index_key(user_id),
        ).remove(device_id),
{
    assert(members_at(held_after(store, command), index_key(user_id)) =~= members_at(
        store,
        index_key(user_id),
    ).remove(device_id));
}

/// Pruning a series of devices takes these out of the index.
proof fn lemma_all_pruned(
    store: Map<Seq<char>, Entry>,
    commands: Seq<RedisCommand>,
    user_id: i32,
    devices: Seq<Seq<char>>,
)
    requires
        commands.len() == devices.len(),
        forall|i: int|
            0 <= i < devices.len() ==> is_prune(#[trigger] commands[i], user_id, devices[i]),
    ensures
        forall|d: Seq<char>| #[trigger]
            members_at(held_after_all(store, commands), index_key(user_id)).contains(d)
                <==> members_at(store, index_key(user_id)).contains(d) && !devices.contains(d),
    decreases commands.len(),
{
    if commands.len() > 0 {
        let earlier = commands.drop_last();
        let named = devices.drop_last();
        assert forall|i: int| 0 <= i < named.len() implies is_prune(
            #[trigger] earlier[i],
            user_id,
            named[i],
        ) by {
            assert(earlier[i] == commands[i]);
        }
        lemma_all_pruned(store, earlier, user_id, named);
        lemma_pruned_members(
            held_after_all(store, earlier),
            commands.last(),
            user_id,
            devices.last(),
        );
        assert forall|d: Seq<char>| devices.contains(d) <==> named.contains(d) || d
            == devices.last() by {
            if devices.contains(d) {
                let k = choose|k: int| 0 <= k < devices.len() && devices[k] == d;
                if k < named.len() {
                    assert(named[k] == d);
                }
            }
            if named.contains(d) {
                let k = choose|k: int| 0 <= k < named.len() && named[k] == d;
                assert(devices[k] == d);
            }
            assert(devices[devices.len() - 1] == devices.last());
        }
    }
}

/// The unreadable devices are those that were answered for without a snapshot.
proof fn lemma_unreadable<N>(indexed: Seq<String>, answers: Seq<Stored<N>>, d: Seq<char>)
    requires
        answers.len() <= indexed.len(),
    ensures
        unreadable(indexed, answers).contains(d) <==> exists|i: int|
            0 <= i < answers.len() && #[trigger] indexed[i]@ == d && !(answers[i] is Snapshot),
    decreases answers.len(),
{
    if answers.len() > 0 {
        let before = answers.drop_last();
        let last = answers.len() - 1;
        lemma_unreadable(indexed, before, d);
        let earlier = unreadable(indexed, before);
        let all = unreadable(indexed, answers);
        if all.contains(d) {
            let k = choose|k: int| 0 <= k < all.len() && all[k] == d;
            if k < earlier.len() {
                assert(earlier[k] == d);
                let i = choose|i: int|
                    0 <= i < before.len() && #[trigger] indexed[i]@ == d && !(
                    before[i] is Snapshot);
                assert(indexed[i]@ == d && !(answers[i] is Snapshot));
            } else {
                assert(indexed[last]@ == d && !(answers[last] is Snapshot));
            }
        }
        if exists|i: int|
            0 <= i < answers.len() && #[trigger] indexed[i]@ == d && !(answers[i] is Snapshot) {
            let i = choose|i: int|
                0 <= i < answers.len() && #[trigger] indexed[i]@ == d && !(answers[i] is Snapshot);
            if i < last {
                assert(indexed[i]@ == d && !(before[i] is Snapshot));
                let k = choose|k: int| 0 <= k < earlier.len() && earlier[k] == d;
                assert(all[k] == d);
            } else {
                assert(all[all.len() - 1] == d);
            }
        }
    }
}

/// A listing that has gone through the whole index leaves exactly the devices in it
/// whose snapshot could be read.
pub proof fn law_listings_prune_the_index<N>(scan: DeviceScan<N>, store: Map<Seq<char>, Entry>)
    requires
        scan.wf(),
        scan.complete(),
        forall|i: int, j: int|
            0 <= i < scan.indexed().len() && 0 <= j < scan.indexed().len() && (
            #[trigger] scan.indexed()[i])@ == (#[trigger] scan.indexed()[j])@ ==> i == j,
        forall|d: Seq<char>| #[trigger]
            members_at(store, index_key(scan.user())).contains(d) <==> exists|i: int|
                0 <= i < scan.indexed().len() && (#[trigger] scan.indexed()[i])@ == d,
    ensures
        forall|d: Seq<char>| #[trigger]
            members_at(held_after_all(store, scan.prunes()), index_key(scan.user())).contains(d)
                <==> exists|i: int|
                0 <= i < scan.indexed().len() && (#[trigger] scan.indexed()[i])@ == d
                    && scan.answered()[i] is Snapshot,
{
    let indexed = scan.indexed();
    let answers = scan.answered();
    let devices = unreadable(indexed, answers);
    lemma_all_pruned(store, scan.prunes(), scan.user(), devices);
    assert forall|d: Seq<char>| #[trigger]
        members_at(held_after_all(store, scan.prunes()), index_key(scan.user())).contains(d)
            <==> exists|i: int|
            0 <= i < indexed.len() && (#[trigger] indexed[i])@ == d && answers[i] is Snapshot by {
        lemma_unreadable(indexed, answers, d);
        assert(members_at(store, index_key(scan.user())).contains(d) <==> exists|i: int|
            0 <= i < indexed.len() && (#[trigger] indexed[i])@ == d);
    }
}

/// Of the requests of a window, counted from one, exactly the first `limit` are let
/// through, and exactly the first one starts the window.
pub proof fn law_the_first_requests_of_a_window_pass(limit: u32, count: i64)
    requires
        1 <= count,
    ensures
        within_limit(limit, count) <==> count as int - 1 < limit as int,
        opens_window(count) <==> count - 1 == 0,
        count > 1 && within_limit(limit, count) ==> within_limit(limit, (count - 1) as i64),
        !within_limit(0, count),
{
}

/// Stamping changes the time and nothing else.
pub proof fn law_stamps_change_the_time_only<N>(snapshot: NowPlayingSnapshot<N>, now: i64)
    ensures
        ({
            let r = stamped_at(snapshot, now);
            &&& r.updated_at == now
            &&& r.device_id == snapshot.device_id
            &&& r.device_name == snapshot.device_name
            &&& r.device_type == snapshot.device_type
            &&& r.episode_id == snapshot.episode_id
            &&& r.is_youtube == snapshot.is_youtube
            &&& r.title == snapshot.title
            &&& r.artwork_url == snapshot.artwork_url
            &&& r.position_sec == snapshot.position_sec
            &&& r.duration_sec == snapshot.duration_sec
            &&& r.playing == snapshot.playing
            &&& r.speed == snapshot.speed
        }),
{
}

/// The active session is a device that plays, if one does, and otherwise one with an
/// episode loaded, though it is paused. No other device of its sort reported later,
/// and of several that reported at once it stands last, so that there is one at most.
pub proof fn law_the_active_session_plays_or_was_last<N>(
    devices: Seq<NowPlayingSnapshot<N>>,
    i: int,
    j: int,
)
    requires
        is_anchor(devices, i),
        0 <= j < devices.len(),
    ensures
        0 <= i < devices.len(),
        devices[j].playing ==> devices[i].playing,
        devices[j].playing ==> devices[j].updated_at < devices[i].updated_at || (
        devices[j].updated_at == devices[i].updated_at && j <= i),
        !devices[i].playing ==> devices[i].episode_id != 0,
        !devices[i].playing && devices[j].episode_id != 0 ==> devices[j].updated_at
            < devices[i].updated_at || (devices[j].updated_at == devices[i].updated_at && j <= i),
        is_anchor(devices, j) ==> i == j,
{
    if devices[j].playing {
        assert(counts(devices[j], true));
    }
    if devices[j].episode_id != 0 {
        assert(counts(devices[j], false));
    }
    if is_anchor(devices, j) {
        assert(counts(devices[i], true) || counts(devices[i], false));
        assert(counts(devices[j], true) || counts(devices[j], false));
    }
}

/// A device is the active session that plays and that no other playing device is
/// behind, or that has an episode loaded and that no other such device is behind,
/// where none plays.
pub proof fn law_the_last_active_device_is_the_session<N>(
    devices: Seq<NowPlayingSnapshot<N>>,
    i: int,
    playing: bool,
)
    requires
        0 <= i < devices.len(),
        playing ==> devices[i].playing,
        !playing ==> devices[i].episode_id != 0 && forall|j: int|
            0 <= j < devices.len() ==> !(#[trigger] devices[j]).playing,
        forall|j: int|
            0 <= j < devices.len() && (if playing {
                (#[trigger] devices[j]).playing
            } else {
                devices[j].episode_id != 0
            }) ==> devices[j].updated_at < devices[i].updated_at || (devices[j].updated_at
                == devices[i].updated_at && j <= i),
    ensures
        is_anchor(devices, i),
{
    assert(is_latest(devices, playing, i));
}

/// The listing keeps the snapshots in the order in which the devices were answered
/// for, each once, and nothing else.
pub proof fn law_listings_keep_their_order<N>(
    answers: Seq<Stored<N>>,
    snapshot: NowPlayingSnapshot<N>,
)
    ensures
        kept(Seq::<Stored<N>>::empty()) == Seq::<NowPlayingSnapshot<N>>::empty(),
        kept(answers.push(Stored::Snapshot(snapshot))) == kept(answers).push(snapshot),
        kept(answers.push(Stored::Missing)) == kept(answers),
        kept(answers.push(Stored::Corrupt)) == kept(answers),
{
    assert(answers.push(Stored::Snapshot(snapshot)).drop_last() =~= answers);
    assert(answers.push(Stored::<N>::Missing).drop_last() =~= answers);
    assert(answers.push(Stored::<N>::Corrupt).drop_last() =~= answers);
}

/// A report is stored for 45 seconds under the key of the user's device, and the index
/// that names the device is kept for four times as long.
pub proof fn law_indexes_outlive_reports(
    commands: Seq<RedisCommand>,
    user_id: i32,
    device_id: Seq<char>,
    json: String,
)
    requires
        is_upsert(commands, user_id, device_id, json),
    ensures
        commands[0] matches RedisCommand::SetEx { key, value, seconds } && key@ == "nowplaying:"@
            + int_decimal(user_id as int) + ":"@ + device_id && value == RedisArg::Text(json)
            && seconds == 45,
        commands[1] matches RedisCommand::SAdd { key, member } && key@ == "nowplaying:devices:"@
            + int_decimal(user_id as int) && member@ == device_id,
        commands[2] matches RedisCommand::Expire { key, after } && key@ == "nowplaying:devices:"@
            + int_decimal(user_id as int) && after == 4 * 45,
{
}

/// The user has an active session exactly if one of the devices plays or has an
/// episode loaded.
pub proof fn law_loaded_episodes_make_a_session<N>(devices: Seq<NowPlayingSnapshot<N>>, i: int)
    requires
        0 <= i < devices.len(),
    ensures
        devices[i].playing ==> has_session(devices),
        devices[i].episode_id != 0 ==> has_session(devices),
        (forall|j: int|
            0 <= j < devices.len() ==> !(#[trigger] devices[j]).playing && devices[j].episode_id
                == 0) ==> !has_session(devices),
{
}

/// What is stored under a name is stored with the very value that was given, for as
/// long as was asked, and is read, looked for and deleted under the same key.
pub proof fn law_operations_meet_under_their_key(
    name: Seq<char>,
    user_id: i32,
    valid: bool,
    status: Seq<char>,
    seconds: u64,
    podcast_id: i32,
)
    ensures
        command_of(Operation::StoreSession(name, user_id, seconds)) == (CommandView::SetEx {
            key: "session:"@ + name,
            value: ArgView::Int(user_id),
            seconds,
        }),
        command_of(Operation::ReadSession(name)) == (CommandView::Get { key: "session:"@ + name }),
        command_of(Operation::DeleteSession(name)) == (CommandView::Del {
            key: "session:"@ + name,
        }),
        command_of(Operation::StoreValidity(name, valid, seconds)) == (CommandView::SetEx {
            key: "api_key:"@ + name,
            value: ArgView::Flag(valid),
            seconds,
        }),
        command_of(Operation::ReadValidity(name)) == (CommandView::Get { key: "api_key:"@ + name }),
        command_of(Operation::StoreTask(name, status, seconds)) == (CommandView::SetEx {
            key: "task:"@ + name,
            value: ArgView::Text(status),
            seconds,
        }),
        command_of(Operation::ReadTask(name)) == (CommandView::Get { key: "task:"@ + name }),
        command_of(Operation::CountRequest(name)) == (CommandView::Incr {
            key: "rate_limit:"@ + name,
            by: 1,
        }),
        command_of(Operation::MarkRefresh(podcast_id)) == (CommandView::SetEx {
            key: "refreshing:"@ + int_decimal(podcast_id as int),
            value: ArgView::Flag(true),
            seconds: 300,
        }),
        command_of(Operation::LookForRefresh(podcast_id)) == (CommandView::Exists {
            key: "refreshing:"@ + int_decimal(podcast_id as int),
        }),
        command_of(Operation::ClearRefresh(podcast_id)) == (CommandView::Del {
            key: "refreshing:"@ + int_decimal(podcast_id as int),
        }),
{
}

/// The plain operations hand the key, the value and the time on as they are, and a
/// counter moves by one.
pub proof fn law_plain_operations_change_nothing_on_the_way(
    key: Seq<char>,
    value: ArgView,
    seconds: u64,
    channel: Seq<char>,
    payload: Seq<char>,
)
    ensures
        command_of(Operation::Publish(channel, payload)) == (CommandView::Publish {
            channel,
            payload,
        }),
        command_of(Operation::HealthCheck) is Ping,
        command_of(Operation::Read(key)) == (CommandView::Get { key }),
        command_of(Operation::Take(key)) == (CommandView::GetDel { key }),
        command_of(Operation::Store(key, value)) == (CommandView::SetKey { key, value }),
        command_of(Operation::StoreFor(key, value, seconds)) == (CommandView::SetEx {
            key,
            value,
            seconds,
        }),
        command_of(Operation::Claim(key, value, seconds)) == (CommandView::SetNx {
            key,
            value,
            seconds,
        }),
        command_of(Operation::Delete(key)) == (CommandView::Del { key }),
        command_of(Operation::LookFor(key)) == (CommandView::Exists { key }),
        seconds <= i64::MAX ==> (command_of(
            Operation::Limit(key, seconds),
        ) matches CommandView::Expire { key: limited, after } && limited == key && after as int
            == seconds as int),
        command_of(Operation::CountUp(key)) == (CommandView::Incr { key, by: 1 }),
        command_of(Operation::CountDown(key)) == (CommandView::Decr { key, by: 1 }),
{
}

/// A user's devices are listed from the user's index, and a heartbeat renews the
/// device's snapshot for as long as a report does.
pub proof fn law_heartbeats_last_as_long_as_reports(user_id: i32, device_id: Seq<char>)
    ensures
        command_of(Operation::ListDevices(user_id)) == (CommandView::SMembers {
            key: "nowplaying:devices:"@ + int_decimal(user_id as int),
        }),
        command_of(Operation::Renew(user_id, device_id)) == (CommandView::Expire {
            key: "nowplaying:"@ + int_decimal(user_id as int) + ":"@ + device_id,
            after: 45,
        }),
{
}

/// A command is seen with every one of its fields.
pub proof fn law_commands_are_seen_whole(command: RedisCommand, arg: RedisArg)
    ensures
        arg matches RedisArg::Text(text) ==> arg@ == ArgView::Text(text@),
        arg matches RedisArg::Int(number) ==> arg@ == ArgView::Int(number),
        arg matches RedisArg::Long(number) ==> arg@ == ArgView::Long(number),
        arg matches RedisArg::Unsigned(number) ==> arg@ == ArgView::Unsigned(number),
        arg matches RedisArg::Flag(flag) ==> arg@ == ArgView::Flag(flag),
        arg matches RedisArg::Bytes(bytes) ==> arg@ == ArgView::Bytes(bytes@),
        command is Ping <==> command@ is Ping,
        command matches RedisCommand::Publish { channel, payload } ==> command@
            == (CommandView::Publish { channel: channel@, payload: payload@ }),
        command matches RedisCommand::Get { key } ==> command@ == (CommandView::Get { key: key@ }),
        command matches RedisCommand::GetDel { key } ==> command@ == (CommandView::GetDel {
            key: key@,
        }),
        command matches RedisCommand::SetKey { key, value } ==> command@ == (CommandView::SetKey {
            key: key@,
            value: value@,
        }),
        command matches RedisCommand::SetEx { key, value, seconds } ==> command@
            == (CommandView::SetEx { key: key@, value: value@, seconds }),
        command matches RedisCommand::SetNx { key, value, seconds } ==> command@
            == (CommandView::SetNx { key: key@, value: value@, seconds }),
        command matches RedisCommand::Del { key } ==> command@ == (CommandView::Del { key: key@ }),
        command matches RedisCommand::Exists { key } ==> command@ == (CommandView::Exists {
            key: key@,
        }),
        command matches RedisCommand::Expire { key, after } ==> command@ == (CommandView::Expire {
            key: key@,
            after,
        }),
        command matches RedisCommand::Incr { key, by } ==> command@ == (CommandView::Incr {
            key: key@,
            by,
        }),
        command matches RedisCommand::Decr { key, by } ==> command@ == (CommandView::Decr {
            key: key@,
            by,
        }),
        command matches RedisCommand::SAdd { key, member } ==> command@ == (CommandView::SAdd {
            key: key@,
            member: member@,
        }),
        command matches RedisCommand::SRem { key, member } ==> command@ == (CommandView::SRem {
            key: key@,
            member: member@,
        }),
        command matches RedisCommand::SMembers { key } ==> command@ == (CommandView::SMembers {
            key: key@,
        }),
{
}

} // verus!
