//! The keys of the whole store, side by side.

use crate::redis_client::{
    api_key_key, index_key, law_index_keys_are_distinct, law_snapshot_keys_are_distinct,
    law_snapshots_are_no_indexes, rate_limit_key, refreshing_key, session_key, snapshot_key,
    task_key,
};
use crate::redis_manager::{law_progress_keys_are_distinct, progress_key};
use crate::services::playback_notifications::{
    finish_key_of, law_finish_keys_are_distinct, law_kinds_of_keys_are_disjoint,
    law_milestone_keys_are_distinct, law_start_keys_are_distinct, milestone_key_of, start_key_of,
};
use crate::text::{int_decimal, lemma_int_decimal_injective, lemma_prefix_cancels};
use vstd::prelude::*;
use vstd::string::*;

verus! {

/// What is kept in the store.
pub enum Subject {
    Session(Seq<char>),
    ApiKey(Seq<char>),
    RateLimit(Seq<char>),
    Task(Seq<char>),
    Refresh(i32),
    /// What a user's device plays.
    Snapshot(i32, Seq<char>),
    /// The devices of a user.
    Devices(i32),
    /// The progress of a user's import.
    Progress(i32),
    /// That the start of a playback was announced.
    Start(i32, i32, bool),
    /// That a milestone of a playback was announced.
    Milestone(i32, i32, bool, i32),
    /// That the end of a playback was announced.
    Finish(i32, i32, bool),
}

/// The key under which it is kept.
pub open spec fn key_of(subject: Subject) -> Seq<char> {
    match subject {
        Subject::Session(session_id) => session_key(session_id),
        Subject::ApiKey(api_key) => api_key_key(api_key),
        Subject::RateLimit(identifier) => rate_limit_key(identifier),
        Subject::Task(task_id) => task_key(task_id),
        Subject::Refresh(podcast_id) => refreshing_key(podcast_id),
        Subject::Snapshot(user_id, device_id) => snapshot_key(user_id, device_id),
        Subject::Devices(user_id) => index_key(user_id),
        Subject::Progress(user_id) => progress_key(user_id),
        Subject::Start(user_id, episode_id, is_youtube) => start_key_of(
            user_id,
            episode_id,
            is_youtube,
        ),
        Subject::Milestone(user_id, episode_id, is_youtube, percent) => milestone_key_of(
            user_id,
            episode_id,
            is_youtube,
            percent,
        ),
        Subject::Finish(user_id, episode_id, is_youtube) => finish_key_of(
            user_id,
            episode_id,
            is_youtube,
        ),
    }
}

/// The first characters of a key, which tell the kinds of what is kept apart, but
/// for snapshots and devices, and for the three kinds of announcements.
pub open spec fn first_chars(subject: Subject) -> (char, char, char) {
    match subject {
        Subject::Session(_) => ('s', 'e', 's'),
        Subject::ApiKey(_) => ('a', 'p', 'i'),
        Subject::RateLimit(_) => ('r', 'a', 't'),
        Subject::Task(_) => ('t', 'a', 's'),
        Subject::Refresh(_) => ('r', 'e', 'f'),
        Subject::Snapshot(_, _) | Subject::Devices(_) => ('n', 'o', 'w'),
        Subject::Progress(_) => ('i', 'm', 'p'),
        Subject::Start(_, _, _) | Subject::Milestone(_, _, _, _) | Subject::Finish(_, _, _) => (
            'n',
            'o',
            't',
        ),
    }
}

proof fn lemma_first_chars(subject: Subject)
    ensures
        key_of(subject).len() >= 3,
        (key_of(subject)[0], key_of(subject)[1], key_of(subject)[2]) == first_chars(subject),
{
    reveal_strlit("session:");
    reveal_strlit("api_key:");
    reveal_strlit("rate_limit:");
    reveal_strlit("task:");
    reveal_strlit("refreshing:");
    reveal_strlit("nowplaying:");
    reveal_strlit("nowplaying:devices:");
    reveal_strlit("import_progress:");
    reveal_strlit("notif:playback:start:");
    reveal_strlit("notif:playback:milestone:");
    reveal_strlit("notif:playback:finish:");
}

/// Each key stands for one thing: whatever differs in kind, user, device, episode or
/// name is kept under a key of its own.
pub proof fn law_keys_are_distinct(a: Subject, b: Subject)
    requires
        key_of(a) == key_of(b),
    ensures
        a == b,
{
    lemma_first_chars(a);
    lemma_first_chars(b);
    match (a, b) {
        (Subject::Session(x), Subject::Session(y)) => {
            lemma_prefix_cancels("session:"@, x, y);
        },
        (Subject::ApiKey(x), Subject::ApiKey(y)) => {
            lemma_prefix_cancels("api_key:"@, x, y);
        },
        (Subject::RateLimit(x), Subject::RateLimit(y)) => {
            lemma_prefix_cancels("rate_limit:"@, x, y);
        },
        (Subject::Task(x), Subject::Task(y)) => {
            lemma_prefix_cancels("task:"@, x, y);
        },
        (Subject::Refresh(x), Subject::Refresh(y)) => {
            lemma_prefix_cancels("refreshing:"@, int_decimal(x as int), int_decimal(y as int));
            lemma_int_decimal_injective(x as int, y as int);
        },
        (Subject::Snapshot(u, d), Subject::Snapshot(v, e)) => {
            law_snapshot_keys_are_distinct(u, d, v, e);
        },
        (Subject::Snapshot(u, d), Subject::Devices(v)) => {
            law_snapshots_are_no_indexes(u, d, v);
        },
        (Subject::Devices(u), Subject::Snapshot(v, e)) => {
            law_snapshots_are_no_indexes(v, e, u);
        },
        (Subject::Devices(u), Subject::Devices(v)) => {
            law_index_keys_are_distinct(u, v);
        },
        (Subject::Progress(u), Subject::Progress(v)) => {
            law_progress_keys_are_distinct(u, v);
        },
        (Subject::Start(u, e, y), Subject::Start(v, f, z)) => {
            law_start_keys_are_distinct(u, e, y, v, f, z);
        },
        (Subject::Start(u, e, y), Subject::Milestone(v, f, z, m)) => {
            law_kinds_of_keys_are_disjoint(u, e, y, v, f, z, m);
        },
        (Subject::Start(u, e, y), Subject::Finish(v, f, z)) => {
            law_kinds_of_keys_are_disjoint(u, e, y, v, f, z, 0);
        },
        (Subject::Milestone(u, e, y, m), Subject::Start(v, f, z)) => {
            law_kinds_of_keys_are_disjoint(v, f, z, u, e, y, m);
        },
        (Subject::Milestone(u, e, y, m), Subject::Milestone(v, f, z, n)) => {
            law_milestone_keys_are_distinct(u, e, y, m, v, f, z, n);
        },
        (Subject::Milestone(u, e, y, m), Subject::Finish(v, f, z)) => {
            law_kinds_of_keys_are_disjoint(u, e, y, v, f, z, m);
        },
        (Subject::Finish(u, e, y), Subject::Start(v, f, z)) => {
            law_kinds_of_keys_are_disjoint(v, f, z, u, e, y, 0);
        },
        (Subject::Finish(u, e, y), Subject::Milestone(v, f, z, n)) => {
            law_kinds_of_keys_are_disjoint(v, f, z, u, e, y, n);
        },
        (Subject::Finish(u, e, y), Subject::Finish(v, f, z)) => {
            law_finish_keys_are_distinct(u, e, y, v, f, z);
        },
        _ => {},
    }
}

/// The keys are spelled as their kind and the name or the number of what is kept.
pub proof fn law_keys_are_spelled_out(name: Seq<char>, number: i32, device_id: Seq<char>)
    ensures
        key_of(Subject::Session(name)) == "session:"@ + name,
        key_of(Subject::ApiKey(name)) == "api_key:"@ + name,
        key_of(Subject::RateLimit(name)) == "rate_limit:"@ + name,
        key_of(Subject::Task(name)) == "task:"@ + name,
        key_of(Subject::Refresh(number)) == "refreshing:"@ + int_decimal(number as int),
        key_of(Subject::Snapshot(number, device_id)) == "nowplaying:"@ + int_decimal(number as int)
            + ":"@ + device_id,
        key_of(Subject::Devices(number)) == "nowplaying:devices:"@ + int_decimal(number as int),
        key_of(Subject::Progress(number)) == "import_progress:"@ + int_decimal(number as int),
        session_key(name) == key_of(Subject::Session(name)),
        api_key_key(name) == key_of(Subject::ApiKey(name)),
        rate_limit_key(name) == key_of(Subject::RateLimit(name)),
        task_key(name) == key_of(Subject::Task(name)),
        refreshing_key(number) == key_of(Subject::Refresh(number)),
        snapshot_key(number, device_id) == key_of(Subject::Snapshot(number, device_id)),
        index_key(number) == key_of(Subject::Devices(number)),
        progress_key(number) == key_of(Subject::Progress(number)),
{
}

} // verus!
