//! Notifications about the user's own playback: started, reached a milestone,
//! finished.
//!
//! They are detected on the server, so that every client gets them:
//!   * started: a report on the now-playing socket fires at once and knows the
//!     device; the first report of a listening position is the fallback for
//!     clients without that socket;
//!   * milestones: 25, 50 and 75 percent, seen as positions are reported;
//!   * finished: when an episode completes.
//!
//! Before an event is sent, its key is claimed in the store, where only one of all
//! reports and devices can create it. Where the store cannot be asked the event is
//! skipped rather than sent again, so that there is never a storm of
//! notifications.

use crate::models::EpisodeNotificationInfo;
use crate::redis_client::{RedisArg, RedisClient, RedisCommand};
use crate::services::notifications::{
    label, playback_finish_message, playback_progress_message, playback_start_message,
    start_message, NotificationCategory, NotificationEvent, PlaybackContext,
    EVENT_PLAYBACK_FINISHED, EVENT_PLAYBACK_PROGRESS, EVENT_PLAYBACK_STARTED,
};
use crate::text::{
    decimal, free_of, int_decimal, lemma_int_decimal_injective, lemma_int_decimal_shape,
    lemma_prefix_cancels, lemma_split_unique, opt_text,
};
use vstd::prelude::*;
use vstd::string::*;

verus! {

/// How long a playback start is not announced again.
pub const START_TTL_SECS: u64 = 86400;

/// How long a milestone is not announced again.
pub const MILESTONE_TTL_SECS: u64 = 604800;

/// How long the end of a playback is not announced again.
pub const FINISH_TTL_SECS: u64 = 604800;

/// How many milestones there are.
pub const MILESTONE_COUNT: usize = 3;

/// The milestones, in percent.
pub open spec fn milestone(i: int) -> i32 {
    if i == 0 {
        25
    } else if i == 1 {
        50
    } else {
        75
    }
}

fn milestone_at(i: usize) -> (r: i32)
    ensures
        r == milestone(i as int),
{
    if i == 0 {
        25
    } else if i == 1 {
        50
    } else {
        75
    }
}

// ------------------------------------------------------------------
// Keys
// ------------------------------------------------------------------

/// How a key tells videos from podcast episodes, whose numbers may coincide.
pub open spec fn media_part(is_youtube: bool) -> Seq<char> {
    if is_youtube {
        "yt"@
    } else {
        "ep"@
    }
}

/// The part of a key that names the user and the episode.
pub open spec fn scope(user_id: i32, episode_id: i32, is_youtube: bool) -> Seq<char> {
    int_decimal(user_id as int) + ":"@ + media_part(is_youtube) + ":"@ + int_decimal(
        episode_id as int,
    )
}

/// The key that is claimed to announce a playback start.
pub open spec fn start_key_of(user_id: i32, episode_id: i32, is_youtube: bool) -> Seq<char> {
    "notif:playback:start:"@ + scope(user_id, episode_id, is_youtube)
}

/// The key that is claimed to announce a milestone.
pub open spec fn milestone_key_of(
    user_id: i32,
    episode_id: i32,
    is_youtube: bool,
    percent: i32,
) -> Seq<char> {
    "notif:playback:milestone:"@ + scope(user_id, episode_id, is_youtube) + ":"@ + int_decimal(
        percent as int,
    )
}

/// The key that is claimed to announce the end of a playback.
pub open spec fn finish_key_of(user_id: i32, episode_id: i32, is_youtube: bool) -> Seq<char> {
    "notif:playback:finish:"@ + scope(user_id, episode_id, is_youtube)
}

/// Names the kind of media in a key.
pub fn media_key_part(is_youtube: bool) -> (r: &'static str)
    ensures
        r@ == media_part(is_youtube),
{
    if is_youtube {
        "yt"
    } else {
        "ep"
    }
}

fn scope_text(user_id: i32, episode_id: i32, is_youtube: bool) -> (r: String)
    ensures
        r@ == scope(user_id, episode_id, is_youtube),
{
    decimal(user_id).concat(":").concat(media_key_part(is_youtube)).concat(":").concat(
        decimal(episode_id).as_str(),
    )
}

/// The key of a playback start.
pub fn start_key(user_id: i32, episode_id: i32, is_youtube: bool) -> (r: String)
    ensures
        r@ == start_key_of(user_id, episode_id, is_youtube),
{
    "notif:playback:start:".to_owned().concat(scope_text(user_id, episode_id, is_youtube).as_str())
}

/// The key of a milestone.
pub fn milestone_key(user_id: i32, episode_id: i32, is_youtube: bool, milestone: i32) -> (r: String)
    ensures
        r@ == milestone_key_of(user_id, episode_id, is_youtube, milestone),
{
    "notif:playback:milestone:".to_owned().concat(
        scope_text(user_id, episode_id, is_youtube).as_str(),
    ).concat(":").concat(decimal(milestone).as_str())
}

/// The key of the end of a playback.
pub fn finish_key(user_id: i32, episode_id: i32, is_youtube: bool) -> (r: String)
    ensures
        r@ == finish_key_of(user_id, episode_id, is_youtube),
{
    "notif:playback:finish:".to_owned().concat(scope_text(user_id, episode_id, is_youtube).as_str())
}

/// Two fields that are ended by colons can be read back.
proof fn lemma_fields_unique(
    a1: Seq<char>,
    b1: Seq<char>,
    r1: Seq<char>,
    a2: Seq<char>,
    b2: Seq<char>,
    r2: Seq<char>,
)
    requires
        free_of(a1, ':'),
        free_of(a2, ':'),
        free_of(b1, ':'),
        free_of(b2, ':'),
        a1 + seq![':'] + b1 + seq![':'] + r1 == a2 + seq![':'] + b2 + seq![':'] + r2,
    ensures
        a1 == a2,
        b1 == b2,
        r1 == r2,
{
    let t1 = b1 + seq![':'] + r1;
    let t2 = b2 + seq![':'] + r2;
    assert(a1 + seq![':'] + b1 + seq![':'] + r1 =~= a1 + seq![':'] + t1);
    assert(a2 + seq![':'] + b2 + seq![':'] + r2 =~= a2 + seq![':'] + t2);
    lemma_split_unique(a1, t1, a2, t2, ':');
    lemma_split_unique(b1, r1, b2, r2, ':');
}

proof fn lemma_media_part(y1: bool, y2: bool)
    ensures
        free_of(media_part(y1), ':'),
        media_part(y1) == media_part(y2) ==> y1 == y2,
{
    reveal_strlit("yt");
    reveal_strlit("ep");
    assert("yt"@[0] != "ep"@[0]);
}

/// The scope of a key tells users, kinds of media and episodes apart.
pub proof fn law_scopes_are_distinct(u1: i32, e1: i32, y1: bool, u2: i32, e2: i32, y2: bool)
    requires
        scope(u1, e1, y1) == scope(u2, e2, y2),
    ensures
        u1 == u2,
        e1 == e2,
        y1 == y2,
{
    reveal_strlit(":");
    assert(":"@ =~= seq![':']);
    lemma_int_decimal_shape(u1 as int);
    lemma_int_decimal_shape(u2 as int);
    lemma_media_part(y1, y2);
    lemma_media_part(y2, y1);
    lemma_fields_unique(
        int_decimal(u1 as int),
        media_part(y1),
        int_decimal(e1 as int),
        int_decimal(u2 as int),
        media_part(y2),
        int_decimal(e2 as int),
    );
    lemma_int_decimal_injective(u1 as int, u2 as int);
    lemma_int_decimal_injective(e1 as int, e2 as int);
}

/// Two starts share a key only if they are of the same user, kind of media and
/// episode.
pub proof fn law_start_keys_are_distinct(u1: i32, e1: i32, y1: bool, u2: i32, e2: i32, y2: bool)
    requires
        start_key_of(u1, e1, y1) == start_key_of(u2, e2, y2),
    ensures
        u1 == u2,
        e1 == e2,
        y1 == y2,
{
    lemma_prefix_cancels("notif:playback:start:"@, scope(u1, e1, y1), scope(u2, e2, y2));
    law_scopes_are_distinct(u1, e1, y1, u2, e2, y2);
}

/// Two ends share a key only if they are of the same user, kind of media and
/// episode.
pub proof fn law_finish_keys_are_distinct(u1: i32, e1: i32, y1: bool, u2: i32, e2: i32, y2: bool)
    requires
        finish_key_of(u1, e1, y1) == finish_key_of(u2, e2, y2),
    ensures
        u1 == u2,
        e1 == e2,
        y1 == y2,
{
    lemma_prefix_cancels("notif:playback:finish:"@, scope(u1, e1, y1), scope(u2, e2, y2));
    law_scopes_are_distinct(u1, e1, y1, u2, e2, y2);
}

/// The fields of a milestone's key, grouped to the right.
proof fn lemma_milestone_key_shape(u: i32, e: i32, y: bool, m: i32)
    ensures
        milestone_key_of(u, e, y, m) == "notif:playback:milestone:"@ + (int_decimal(u as int) + seq![
            ':',
        ] + media_part(y) + seq![':'] + (int_decimal(e as int) + seq![':'] + int_decimal(
            m as int,
        ))),
{
    reveal_strlit(":");
    assert(":"@ =~= seq![':']);
}

/// Two milestones share a key only if they are the same milestone of the same
/// user, kind of media and episode.
pub proof fn law_milestone_keys_are_distinct(
    u1: i32,
    e1: i32,
    y1: bool,
    m1: i32,
    u2: i32,
    e2: i32,
    y2: bool,
    m2: i32,
)
    requires
        milestone_key_of(u1, e1, y1, m1) == milestone_key_of(u2, e2, y2, m2),
    ensures
        u1 == u2,
        e1 == e2,
        y1 == y2,
        m1 == m2,
{
    let p = "notif:playback:milestone:"@;
    let t1 = int_decimal(e1 as int) + seq![':'] + int_decimal(m1 as int);
    let t2 = int_decimal(e2 as int) + seq![':'] + int_decimal(m2 as int);
    let f1 = int_decimal(u1 as int) + seq![':'] + media_part(y1) + seq![':'];
    let f2 = int_decimal(u2 as int) + seq![':'] + media_part(y2) + seq![':'];
    lemma_milestone_key_shape(u1, e1, y1, m1);
    lemma_milestone_key_shape(u2, e2, y2, m2);
    lemma_prefix_cancels(p, f1 + t1, f2 + t2);
    lemma_int_decimal_shape(u1 as int);
    lemma_int_decimal_shape(u2 as int);
    lemma_media_part(y1, y2);
    lemma_media_part(y2, y1);
    lemma_fields_unique(
        int_decimal(u1 as int),
        media_part(y1),
        t1,
        int_decimal(u2 as int),
        media_part(y2),
        t2,
    );
    lemma_int_decimal_shape(e1 as int);
    lemma_int_decimal_shape(e2 as int);
    lemma_split_unique(
        int_decimal(e1 as int),
        int_decimal(m1 as int),
        int_decimal(e2 as int),
        int_decimal(m2 as int),
        ':',
    );
    lemma_int_decimal_injective(u1 as int, u2 as int);
    lemma_int_decimal_injective(e1 as int, e2 as int);
    lemma_int_decimal_injective(m1 as int, m2 as int);
}

/// Starts, milestones and ends never share a key.
pub proof fn law_kinds_of_keys_are_disjoint(
    u1: i32,
    e1: i32,
    y1: bool,
    u2: i32,
    e2: i32,
    y2: bool,
    percent: i32,
)
    ensures
        start_key_of(u1, e1, y1) != milestone_key_of(u2, e2, y2, percent),
        start_key_of(u1, e1, y1) != finish_key_of(u2, e2, y2),
        milestone_key_of(u1, e1, y1, percent) != finish_key_of(u2, e2, y2),
{
    reveal_strlit("notif:playback:start:");
    reveal_strlit("notif:playback:milestone:");
    reveal_strlit("notif:playback:finish:");
    assert(start_key_of(u1, e1, y1)[15] == 's');
    assert(milestone_key_of(u1, e1, y1, percent)[15] == 'm');
    assert(milestone_key_of(u2, e2, y2, percent)[15] == 'm');
    assert(finish_key_of(u2, e2, y2)[15] == 'f');
}

// ------------------------------------------------------------------
// Notices
// ------------------------------------------------------------------

/// A playback event that is to be sent.
#[derive(Debug, PartialEq)]
pub struct PlaybackNotice<N> {
    pub kind: &'static str,
    pub title: String,
    pub message: String,
    pub user_id: i32,
    pub episode: EpisodeNotificationInfo,
    pub playback: PlaybackContext<N>,
}

/// `PlaybackNotice` with its strings as character sequences.
pub struct NoticeView<N> {
    pub kind: Seq<char>,
    pub title: Seq<char>,
    pub message: Seq<char>,
    pub user_id: i32,
    pub episode: EpisodeNotificationInfo,
    pub position: Option<N>,
    pub percent: Option<i32>,
    pub device_name: Option<Seq<char>>,
}

impl<N> View for PlaybackNotice<N> {
    type V = NoticeView<N>;

    open spec fn view(&self) -> NoticeView<N> {
        NoticeView {
            kind: self.kind@,
            title: self.title@,
            message: self.message@,
            user_id: self.user_id,
            episode: self.episode,
            position: self.playback.position_sec,
            percent: self.playback.percent,
            device_name: opt_text(self.playback.device_name),
        }
    }
}

impl<N: Copy> PlaybackNotice<N> {
    /// The notice as an event of the playback category.
    pub fn event(&self) -> (r: NotificationEvent<'_, N>)
        ensures
            r.category == NotificationCategory::Playback,
            r.kind@ == self.kind@,
            r.title@ == self.title@,
            r.message@ == self.message@,
            r.user_id == self.user_id,
            r.episode == Some(&self.episode),
            r.playback == Some(self.playback),
    {
        NotificationEvent {
            category: NotificationCategory::Playback,
            kind: self.kind,
            title: self.title.as_str(),
            message: self.message.as_str(),
            user_id: self.user_id,
            episode: Some(&self.episode),
            playback: Some(self.playback.clone()),
        }
    }
}

/// What is sent when a playback starts.
pub open spec fn start_notice<N>(
    who: Target,
    info: EpisodeNotificationInfo,
    position: Option<N>,
    device_name: Option<Seq<char>>,
) -> NoticeView<N> {
    NoticeView {
        kind: EVENT_PLAYBACK_STARTED@,
        title: "Playback Started"@,
        message: start_message(info, device_name),
        user_id: who.user_id,
        episode: info,
        position,
        percent: None,
        device_name,
    }
}

/// What is sent when a playback reaches a milestone.
pub open spec fn progress_notice<N>(
    who: Target,
    info: EpisodeNotificationInfo,
    position: N,
    percent: i32,
) -> NoticeView<N> {
    NoticeView {
        kind: EVENT_PLAYBACK_PROGRESS@,
        title: "Playback Progress"@,
        message: int_decimal(percent as int) + "% through "@ + label(info),
        user_id: who.user_id,
        episode: info,
        position: Some(position),
        percent: Some(percent),
        device_name: None,
    }
}

/// What is sent when a playback finishes.
pub open spec fn finish_notice<N>(who: Target, info: EpisodeNotificationInfo) -> NoticeView<N> {
    NoticeView {
        kind: EVENT_PLAYBACK_FINISHED@,
        title: "Playback Finished"@,
        message: "Finished "@ + label(info),
        user_id: who.user_id,
        episode: info,
        position: None,
        percent: None,
        device_name: None,
    }
}

fn started<N>(
    who: Target,
    info: EpisodeNotificationInfo,
    position: Option<N>,
    device_name: Option<String>,
) -> (r: PlaybackNotice<N>)
    ensures
        r@ == start_notice(who, info, position, opt_text(device_name)),
{
    let (title, message) = match &device_name {
        Some(name) => playback_start_message(&info, Some(name.as_str())),
        None => playback_start_message(&info, None),
    };
    PlaybackNotice {
        kind: EVENT_PLAYBACK_STARTED,
        title,
        message,
        user_id: who.user_id,
        episode: info,
        playback: PlaybackContext { position_sec: position, percent: None, device_name },
    }
}

fn progressed<N>(who: Target, info: EpisodeNotificationInfo, position: N, percent: i32) -> (r:
    PlaybackNotice<N>)
    ensures
        r@ == progress_notice(who, info, position, percent),
{
    let (title, message) = playback_progress_message(&info, percent);
    PlaybackNotice {
        kind: EVENT_PLAYBACK_PROGRESS,
        title,
        message,
        user_id: who.user_id,
        episode: info,
        playback: PlaybackContext {
            position_sec: Some(position),
            percent: Some(percent),
            device_name: None,
        },
    }
}

fn finished<N>(who: Target, info: EpisodeNotificationInfo) -> (r: PlaybackNotice<N>)
    ensures
        r@ == finish_notice::<N>(who, info),
{
    let (title, message) = playback_finish_message(&info);
    PlaybackNotice {
        kind: EVENT_PLAYBACK_FINISHED,
        title,
        message,
        user_id: who.user_id,
        episode: info,
        playback: PlaybackContext::default(),
    }
}

// ------------------------------------------------------------------
// Runs
// ------------------------------------------------------------------

/// Whose playback of what is reported.
#[derive(Debug, Clone, Copy, PartialEq, Eq)]
pub struct Target {
    pub user_id: i32,
    pub episode_id: i32,
    pub is_youtube: bool,
}

/// How far the handling of a report has come: what it waits for, and what it has
/// learned.
#[derive(Debug, PartialEq)]
pub enum Stage<N> {
    /// A start: for the user's preferences.
    StartGate { device_name: Option<String>, since: Option<N> },
    /// A start: for its key.
    StartClaim { device_name: Option<String>, since: Option<N> },
    /// A start whose key is won: for the episode.
    StartInfo { device_name: Option<String>, since: Option<N> },
    /// A position: for the user's preferences.
    ReportGate { position: N, previous: i32 },
    /// A position: for the episode.
    ReportInfo { position: N, previous: i32 },
    /// A first position: for the key of the start.
    ReportStart { position: N, info: EpisodeNotificationInfo },
    /// A first position: for the start to be sent.
    ReportStarted { position: N, info: EpisodeNotificationInfo },
    /// A position: for its share of the episode, in percent.
    ReportPercent { position: N, info: EpisodeNotificationInfo },
    /// A position: for the key of the milestone at `at`. The highest milestone
    /// whose key was won is `best`.
    ReportMilestone {
        position: N,
        info: EpisodeNotificationInfo,
        percent: i32,
        at: usize,
        best: Option<i32>,
    },
    /// An end: for the user's preferences.
    FinishGate,
    /// An end: for its key.
    FinishClaim,
    /// An end whose key is won: for the episode.
    FinishInfo,
    /// The last notice is being sent.
    Sending,
    Over,
}

/// What the surroundings are to do next.
#[derive(Debug, PartialEq)]
pub enum PlaybackEffect<N> {
    /// Read the user's notification preferences.
    LoadPreferences { user_id: i32 },
    /// Create a key in the store.
    Claim(RedisCommand),
    /// Read what is known of an episode.
    LoadInfo { episode_id: i32, is_youtube: bool },
    /// Compute the share that `position` seconds are of `duration` seconds, in
    /// whole percent, rounded down.
    Percent { position: N, duration: i32 },
    /// Send a notice. Whether it arrives makes no difference.
    Dispatch(PlaybackNotice<N>),
    Done,
}

/// What came of the last effect.
pub enum PlaybackReply<E> {
    /// Whether the user wants to hear of new content and of playback.
    Preferences(Result<(bool, bool), E>),
    /// Whether the key was created.
    Claimed(Result<bool, E>),
    Info(Result<Option<EpisodeNotificationInfo>, E>),
    Percent(i32),
    Sent,
}

/// `PlaybackEffect` with its strings as character sequences.
pub enum EffectView<N> {
    LoadPreferences { user_id: i32 },
    Claim { key: Seq<char>, seconds: u64 },
    LoadInfo { episode_id: i32, is_youtube: bool },
    Percent { position: N, duration: i32 },
    Dispatch(NoticeView<N>),
    Done,
}

/// The effect `e` is what `want` says. A key is claimed by setting it to 1, if it
/// does not exist yet.
pub open spec fn is_effect<N>(e: PlaybackEffect<N>, want: EffectView<N>) -> bool {
    match e {
        PlaybackEffect::LoadPreferences { user_id } => want == (EffectView::<
            N,
        >::LoadPreferences { user_id }),
        PlaybackEffect::Claim(command) => {
            &&& command matches RedisCommand::SetNx { key, value, seconds }
            &&& value == RedisArg::Int(1)
            &&& want == (EffectView::<N>::Claim { key: key@, seconds })
        },
        PlaybackEffect::LoadInfo { episode_id, is_youtube } => want == (EffectView::<
            N,
        >::LoadInfo { episode_id, is_youtube }),
        PlaybackEffect::Percent { position, duration } => want == (EffectView::Percent {
            position,
            duration,
        }),
        PlaybackEffect::Dispatch(notice) => want == EffectView::Dispatch(notice@),
        PlaybackEffect::Done => want == EffectView::<N>::Done,
    }
}

/// Whether the preferences are known and let playback events through.
pub open spec fn lets_through<E>(preferences: Result<(bool, bool), E>) -> bool {
    preferences matches Ok(p) && p.1
}

/// What is known of the episode, if it could be read.
pub open spec fn known<E>(reply: Result<Option<EpisodeNotificationInfo>, E>) -> Option<
    EpisodeNotificationInfo,
> {
    match reply {
        Ok(info) => info,
        Err(_) => None,
    }
}

pub open spec fn over<N>() -> (Stage<N>, EffectView<N>) {
    (Stage::Over, EffectView::Done)
}

/// Goes on with the milestones from `at`: the next one that `percent` has reached
/// is claimed, and after the last of them the highest that was won is announced.
pub open spec fn milestones_from<N>(
    who: Target,
    position: N,
    info: EpisodeNotificationInfo,
    percent: i32,
    at: usize,
    best: Option<i32>,
) -> (Stage<N>, EffectView<N>) {
    if at < MILESTONE_COUNT && percent >= milestone(at as int) {
        (
            Stage::ReportMilestone { position, info, percent, at, best },
            EffectView::Claim {
                key: milestone_key_of(
                    who.user_id,
                    who.episode_id,
                    who.is_youtube,
                    milestone(at as int),
                ),
                seconds: MILESTONE_TTL_SECS,
            },
        )
    } else {
        match best {
            Some(m) => (
                Stage::Sending,
                EffectView::Dispatch(progress_notice(who, info, position, m)),
            ),
            None => over(),
        }
    }
}

/// Goes on with a position once the start is dealt with: an episode of unknown
/// length has no milestones.
pub open spec fn progress_from<N>(position: N, info: EpisodeNotificationInfo) -> (
    Stage<N>,
    EffectView<N>,
) {
    if info.duration <= 0 {
        over()
    } else {
        (
            Stage::ReportPercent { position, info },
            EffectView::Percent { position, duration: info.duration },
        )
    }
}

/// The effect that claims a start.
pub open spec fn start_claim<N>(who: Target) -> EffectView<N> {
    EffectView::Claim {
        key: start_key_of(who.user_id, who.episode_id, who.is_youtube),
        seconds: START_TTL_SECS,
    }
}

/// The effect that claims an end.
pub open spec fn finish_claim<N>(who: Target) -> EffectView<N> {
    EffectView::Claim {
        key: finish_key_of(who.user_id, who.episode_id, who.is_youtube),
        seconds: FINISH_TTL_SECS,
    }
}

/// The effect that reads the episode.
pub open spec fn info_load<N>(who: Target) -> EffectView<N> {
    EffectView::LoadInfo { episode_id: who.episode_id, is_youtube: who.is_youtube }
}

/// Where a reply leads, and what is to be done then. A reply to something that was
/// not asked ends the run.
pub open spec fn step_of<N, E>(who: Target, stage: Stage<N>, reply: PlaybackReply<E>) -> (
    Stage<N>,
    EffectView<N>,
) {
    match (stage, reply) {
        (Stage::StartGate { device_name, since }, PlaybackReply::Preferences(preferences)) => {
            if lets_through(preferences) {
                (Stage::StartClaim { device_name, since }, start_claim(who))
            } else {
                over()
            }
        },
        (Stage::StartClaim { device_name, since }, PlaybackReply::Claimed(claimed)) => {
            if claimed == Ok::<bool, E>(true) {
                (Stage::StartInfo { device_name, since }, info_load(who))
            } else {
                over()
            }
        },
        (Stage::StartInfo { device_name, since }, PlaybackReply::Info(reply)) => {
            match known(reply) {
                Some(info) => (
                    Stage::Sending,
                    EffectView::Dispatch(start_notice(who, info, since, opt_text(device_name))),
                ),
                None => over(),
            }
        },
        (Stage::ReportGate { position, previous }, PlaybackReply::Preferences(preferences)) => {
            if lets_through(preferences) {
                (Stage::ReportInfo { position, previous }, info_load(who))
            } else {
                over()
            }
        },
        (Stage::ReportInfo { position, previous }, PlaybackReply::Info(reply)) => {
            match known(reply) {
                Some(info) => if previous <= 0 {
                    (Stage::ReportStart { position, info }, start_claim(who))
                } else {
                    progress_from(position, info)
                },
                None => over(),
            }
        },
        (Stage::ReportStart { position, info }, PlaybackReply::Claimed(claimed)) => {
            if claimed == Ok::<bool, E>(true) {
                (
                    Stage::ReportStarted { position, info },
                    EffectView::Dispatch(start_notice(who, info, Some(position), None)),
                )
            } else {
                progress_from(position, info)
            }
        },
        (Stage::ReportStarted { position, info }, PlaybackReply::Sent) => {
            progress_from(position, info)
        },
        (Stage::ReportPercent { position, info }, PlaybackReply::Percent(percent)) => {
            milestones_from(who, position, info, percent, 0, None)
        },
        (
            Stage::ReportMilestone { position, info, percent, at, best },
            PlaybackReply::Claimed(claimed),
        ) => {
            let best = if claimed == Ok::<bool, E>(true) {
                Some(milestone(at as int))
            } else {
                best
            };
            milestones_from(who, position, info, percent, (at + 1) as usize, best)
        },
        (Stage::FinishGate, PlaybackReply::Preferences(preferences)) => {
            if lets_through(preferences) {
                (Stage::FinishClaim, finish_claim(who))
            } else {
                over()
            }
        },
        (Stage::FinishClaim, PlaybackReply::Claimed(claimed)) => {
            if claimed == Ok::<bool, E>(true) {
                (Stage::FinishInfo, info_load(who))
            } else {
                over()
            }
        },
        (Stage::FinishInfo, PlaybackReply::Info(reply)) => {
            match known(reply) {
                Some(info) => (Stage::Sending, EffectView::Dispatch(finish_notice(who, info))),
                None => over(),
            }
        },
        _ => over(),
    }
}

/// The key that a stage waits for.
pub open spec fn asked_key<N>(who: Target, stage: Stage<N>) -> Option<Seq<char>> {
    match stage {
        Stage::StartClaim { .. } | Stage::ReportStart { .. } => Some(
            start_key_of(who.user_id, who.episode_id, who.is_youtube),
        ),
        Stage::ReportMilestone { at, .. } => Some(
            milestone_key_of(who.user_id, who.episode_id, who.is_youtube, milestone(at as int)),
        ),
        Stage::FinishClaim => Some(finish_key_of(who.user_id, who.episode_id, who.is_youtube)),
        _ => None,
    }
}

/// The keys that are won once a reply is in.
pub open spec fn won_after<N, E>(
    who: Target,
    stage: Stage<N>,
    reply: PlaybackReply<E>,
    won: Set<Seq<char>>,
) -> Set<Seq<char>> {
    match (asked_key(who, stage), reply) {
        (Some(key), PlaybackReply::Claimed(Ok(true))) => won.insert(key),
        _ => won,
    }
}

/// The keys of what is announced once an effect is out.
pub open spec fn told_after<N>(who: Target, effect: PlaybackEffect<N>, told: Seq<Seq<char>>) -> Seq<
    Seq<char>,
> {
    match effect {
        PlaybackEffect::Dispatch(notice) => told.push(announced_key(who, notice@)),
        _ => told,
    }
}

/// The key that stands for what a notice announces.
pub open spec fn announced_key<N>(who: Target, notice: NoticeView<N>) -> Seq<char> {
    match notice.percent {
        Some(percent) => milestone_key_of(who.user_id, who.episode_id, who.is_youtube, percent),
        None => if notice.kind == EVENT_PLAYBACK_FINISHED@ {
            finish_key_of(who.user_id, who.episode_id, who.is_youtube)
        } else {
            start_key_of(who.user_id, who.episode_id, who.is_youtube)
        },
    }
}

/// Whether the user hears of playback. Preferences that cannot be read keep the
/// event back; a user without stored preferences has the default ones.
pub fn playback_enabled<E>(preferences: &Result<(bool, bool), E>) -> (r: bool)
    ensures
        r == lets_through(*preferences),
{
    match preferences {
        Ok(p) => p.1,
        Err(_) => false,
    }
}

/// What is known of the episode. One that cannot be read counts as unknown.
pub fn episode_info<E>(reply: Result<Option<EpisodeNotificationInfo>, E>) -> (r: Option<
    EpisodeNotificationInfo,
>)
    ensures
        r == known(reply),
{
    match reply {
        Ok(info) => info,
        Err(_) => None,
    }
}

fn won_key<E>(claimed: &Result<bool, E>) -> (r: bool)
    ensures
        r == (*claimed == Ok::<bool, E>(true)),
{
    match claimed {
        Ok(created) => *created,
        Err(_) => false,
    }
}

fn start_command(who: Target) -> (r: RedisCommand)
    ensures
        r matches RedisCommand::SetNx { key, value, seconds } && key@ == start_key_of(
            who.user_id,
            who.episode_id,
            who.is_youtube,
        ) && value == RedisArg::Int(1) && seconds == START_TTL_SECS,
{
    let key = start_key(who.user_id, who.episode_id, who.is_youtube);
    RedisClient::set_nx(key.as_str(), RedisArg::Int(1), START_TTL_SECS)
}

fn finish_command(who: Target) -> (r: RedisCommand)
    ensures
        r matches RedisCommand::SetNx { key, value, seconds } && key@ == finish_key_of(
            who.user_id,
            who.episode_id,
            who.is_youtube,
        ) && value == RedisArg::Int(1) && seconds == FINISH_TTL_SECS,
{
    let key = finish_key(who.user_id, who.episode_id, who.is_youtube);
    RedisClient::set_nx(key.as_str(), RedisArg::Int(1), FINISH_TTL_SECS)
}

fn milestone_command(who: Target, percent: i32) -> (r: RedisCommand)
    ensures
        r matches RedisCommand::SetNx { key, value, seconds } && key@ == milestone_key_of(
            who.user_id,
            who.episode_id,
            who.is_youtube,
            percent,
        ) && value == RedisArg::Int(1) && seconds == MILESTONE_TTL_SECS,
{
    let key = milestone_key(who.user_id, who.episode_id, who.is_youtube, percent);
    RedisClient::set_nx(key.as_str(), RedisArg::Int(1), MILESTONE_TTL_SECS)
}

fn load_info<N>(who: Target) -> (r: PlaybackEffect<N>)
    ensures
        is_effect(r, info_load::<N>(who)),
{
    PlaybackEffect::LoadInfo { episode_id: who.episode_id, is_youtube: who.is_youtube }
}

fn go_on_with_milestones<N>(
    who: Target,
    position: N,
    info: EpisodeNotificationInfo,
    percent: i32,
    at: usize,
    best: Option<i32>,
) -> (r: (Stage<N>, PlaybackEffect<N>))
    ensures
        r.0 == milestones_from(who, position, info, percent, at, best).0,
        is_effect(r.1, milestones_from(who, position, info, percent, at, best).1),
{
    if at < MILESTONE_COUNT && percent >= milestone_at(at) {
        let command = milestone_command(who, milestone_at(at));
        (
            Stage::ReportMilestone { position, info, percent, at, best },
            PlaybackEffect::Claim(command),
        )
    } else {
        match best {
            Some(m) => (
                Stage::Sending,
                PlaybackEffect::Dispatch(progressed(who, info, position, m)),
            ),
            None => (Stage::Over, PlaybackEffect::Done),
        }
    }
}

fn go_on_with_progress<N: Copy>(position: N, info: EpisodeNotificationInfo) -> (r: (
    Stage<N>,
    PlaybackEffect<N>,
))
    ensures
        r.0 == progress_from(position, info).0,
        is_effect(r.1, progress_from(position, info).1),
{
    if info.duration <= 0 {
        (Stage::Over, PlaybackEffect::Done)
    } else {
        let duration = info.duration;
        (
            Stage::ReportPercent { position, info },
            PlaybackEffect::Percent { position, duration },
        )
    }
}

fn advance<N: Copy, E>(who: Target, stage: Stage<N>, reply: PlaybackReply<E>) -> (r: (
    Stage<N>,
    PlaybackEffect<N>,
))
    requires
        stage matches Stage::ReportMilestone { at, .. } ==> at < MILESTONE_COUNT,
    ensures
        r.0 == step_of(who, stage, reply).0,
        is_effect(r.1, step_of(who, stage, reply).1),
{
    match (stage, reply) {
        (Stage::StartGate { device_name, since }, PlaybackReply::Preferences(preferences)) => {
            if playback_enabled(&preferences) {
                (
                    Stage::StartClaim { device_name, since },
                    PlaybackEffect::Claim(start_command(who)),
                )
            } else {
                (Stage::Over, PlaybackEffect::Done)
            }
        },
        (Stage::StartClaim { device_name, since }, PlaybackReply::Claimed(claimed)) => {
            if won_key(&claimed) {
                (Stage::StartInfo { device_name, since }, load_info(who))
            } else {
                (Stage::Over, PlaybackEffect::Done)
            }
        },
        (Stage::StartInfo { device_name, since }, PlaybackReply::Info(reply)) => {
            match episode_info(reply) {
                Some(info) => (
                    Stage::Sending,
                    PlaybackEffect::Dispatch(started(who, info, since, device_name)),
                ),
                None => (Stage::Over, PlaybackEffect::Done),
            }
        },
        (Stage::ReportGate { position, previous }, PlaybackReply::Preferences(preferences)) => {
            if playback_enabled(&preferences) {
                (Stage::ReportInfo { position, previous }, load_info(who))
            } else {
                (Stage::Over, PlaybackEffect::Done)
            }
        },
        (Stage::ReportInfo { position, previous }, PlaybackReply::Info(reply)) => {
            match episode_info(reply) {
                Some(info) => {
                    if previous <= 0 {
                        (
                            Stage::ReportStart { position, info },
                            PlaybackEffect::Claim(start_command(who)),
                        )
                    } else {
                        go_on_with_progress(position, info)
                    }
                },
                None => (Stage::Over, PlaybackEffect::Done),
            }
        },
        (Stage::ReportStart { position, info }, PlaybackReply::Claimed(claimed)) => {
            if won_key(&claimed) {
                let notice = started(who, info.clone(), Some(position), None);
                (Stage::ReportStarted { position, info }, PlaybackEffect::Dispatch(notice))
            } else {
                go_on_with_progress(position, info)
            }
        },
        (Stage::ReportStarted { position, info }, PlaybackReply::Sent) => go_on_with_progress(
            position,
            info,
        ),
        (
            Stage::ReportPercent { position, info },
            PlaybackReply::Percent(percent),
        ) => go_on_with_milestones(who, position, info, percent, 0, None),
        (
            Stage::ReportMilestone { position, info, percent, at, best },
            PlaybackReply::Claimed(claimed),
        ) => {
            let best = if won_key(&claimed) {
                Some(milestone_at(at))
            } else {
                best
            };
            go_on_with_milestones(who, position, info, percent, at + 1, best)
        },
        (Stage::FinishGate, PlaybackReply::Preferences(preferences)) => {
            if playback_enabled(&preferences) {
                (Stage::FinishClaim, PlaybackEffect::Claim(finish_command(who)))
            } else {
                (Stage::Over, PlaybackEffect::Done)
            }
        },
        (Stage::FinishClaim, PlaybackReply::Claimed(claimed)) => {
            if won_key(&claimed) {
                (Stage::FinishInfo, load_info(who))
            } else {
                (Stage::Over, PlaybackEffect::Done)
            }
        },
        (Stage::FinishInfo, PlaybackReply::Info(reply)) => {
            match episode_info(reply) {
                Some(info) => (Stage::Sending, PlaybackEffect::Dispatch(finished(who, info))),
                None => (Stage::Over, PlaybackEffect::Done),
            }
        },
        _ => (Stage::Over, PlaybackEffect::Done),
    }
}

/// The handling of one report, from its first question to its last notice.
pub struct PlaybackRun<N> {
    who: Target,
    stage: Stage<N>,
    won: Ghost<Set<Seq<char>>>,
    told: Ghost<Seq<Seq<char>>>,
}

impl<N> PlaybackRun<N> {
    pub closed spec fn target(&self) -> Target {
        self.who
    }

    pub closed spec fn stage(&self) -> Stage<N> {
        self.stage
    }

    /// The keys that this run created.
    pub closed spec fn won(&self) -> Set<Seq<char>> {
        self.won@
    }

    /// The keys of the events that this run announced, in order.
    pub closed spec fn told(&self) -> Seq<Seq<char>> {
        self.told@
    }

    /// Only events whose key was won are announced, each at most once.
    pub closed spec fn wf(&self) -> bool {
        let who = self.who;
        let start = start_key_of(who.user_id, who.episode_id, who.is_youtube);
        &&& self.told@.no_duplicates()
        &&& forall|i: int| 0 <= i < self.told@.len() ==> self.won@.contains(#[trigger] self.told@[i])
        &&& match self.stage {
            Stage::StartInfo { .. } => self.told@.len() == 0 && self.won@.contains(start),
            Stage::FinishInfo => self.told@.len() == 0 && self.won@.contains(
                finish_key_of(who.user_id, who.episode_id, who.is_youtube),
            ),
            Stage::ReportStarted { .. } | Stage::ReportPercent { .. } => {
                forall|i: int| 0 <= i < self.told@.len() ==> #[trigger] self.told@[i] == start
            },
            Stage::ReportMilestone { at, best, .. } => {
                &&& at < MILESTONE_COUNT
                &&& forall|i: int| 0 <= i < self.told@.len() ==> #[trigger] self.told@[i] == start
                &&& best matches Some(m) ==> self.won@.contains(
                    milestone_key_of(who.user_id, who.episode_id, who.is_youtube, m),
                )
            },
            Stage::Sending | Stage::Over => true,
            _ => self.told@.len() == 0,
        }
    }

    /// The run that stands at a stage, with nothing done yet.
    pub open spec fn fresh(&self, who: Target, stage: Stage<N>) -> bool {
        &&& self.wf()
        &&& self.target() == who
        &&& self.stage() == stage
        &&& self.won() == Set::<Seq<char>>::empty()
        &&& self.told() == Seq::<Seq<char>>::empty()
    }
}

impl<N: Copy> PlaybackRun<N> {
    /// Takes the reply to the last effect, and gives the next one.
    pub fn step<E>(self, reply: PlaybackReply<E>) -> (r: (Self, PlaybackEffect<N>))
        requires
            self.wf(),
        ensures
            r.0.wf(),
            r.0.target() == self.target(),
            r.0.stage() == step_of(self.target(), self.stage(), reply).0,
            is_effect(r.1, step_of(self.target(), self.stage(), reply).1),
            r.0.won() == won_after(self.target(), self.stage(), reply, self.won()),
            r.0.told() == told_after(self.target(), r.1, self.told()),
    {
        let PlaybackRun { who, stage, won, told } = self;
        let ghost created = won_after(who, stage, reply, won@);
        let (stage, effect) = advance(who, stage, reply);
        let ghost announced = told_after(who, effect, told@);
        proof {
            reveal_strlit("playback_started");
            reveal_strlit("playback_finished");
            assert("playback_started"@.len() != "playback_finished"@.len());
            assert forall|m: i32|
                start_key_of(who.user_id, who.episode_id, who.is_youtube)
                    != #[trigger] milestone_key_of(
                    who.user_id,
                    who.episode_id,
                    who.is_youtube,
                    m,
                ) by {
                law_kinds_of_keys_are_disjoint(
                    who.user_id,
                    who.episode_id,
                    who.is_youtube,
                    who.user_id,
                    who.episode_id,
                    who.is_youtube,
                    m,
                );
            }
        }
        (PlaybackRun { who, stage, won: Ghost(created), told: Ghost(announced) }, effect)
    }
}

/// How the run of a start begins: whose playback of what it is about, and what it knows
/// of it.
pub open spec fn start_of<N>(
    user_id: i32,
    episode_id: i32,
    is_youtube: bool,
    device_name: Option<String>,
    position_sec: Option<N>,
) -> (Target, Stage<N>) {
    (
        Target { user_id, episode_id, is_youtube },
        Stage::StartGate { device_name, since: position_sec },
    )
}

/// How the run of a position begins.
pub open spec fn report_of<N>(
    user_id: i32,
    episode_id: i32,
    is_youtube: bool,
    position_sec: N,
    previous_position: i32,
) -> (Target, Stage<N>) {
    (
        Target { user_id, episode_id, is_youtube },
        Stage::ReportGate { position: position_sec, previous: previous_position },
    )
}

/// How the run of an end begins.
pub open spec fn finish_of<N>(user_id: i32, episode_id: i32, is_youtube: bool) -> (
    Target,
    Stage<N>,
) {
    (Target { user_id, episode_id, is_youtube }, Stage::FinishGate)
}

/// A playback started. The device is named where the event came over the
/// now-playing socket.
pub fn notify_start<N>(
    user_id: i32,
    episode_id: i32,
    is_youtube: bool,
    device_name: Option<String>,
    position_sec: Option<N>,
) -> (r: (PlaybackRun<N>, PlaybackEffect<N>))
    ensures
        (r.0.target(), r.0.stage()) == start_of(
            user_id,
            episode_id,
            is_youtube,
            device_name,
            position_sec,
        ),
        r.0.fresh(
            Target { user_id, episode_id, is_youtube },
            Stage::StartGate { device_name, since: position_sec },
        ),
        is_effect(r.1, EffectView::<N>::LoadPreferences { user_id }),
{
    let who = Target { user_id, episode_id, is_youtube };
    let stage = Stage::StartGate { device_name, since: position_sec };
    (
        PlaybackRun { who, stage, won: Ghost(Set::empty()), told: Ghost(Seq::empty()) },
        PlaybackEffect::LoadPreferences { user_id },
    )
}

/// A listening position was reported, and `previous_position` was stored before.
/// Announces the start, for clients without the now-playing socket, and the
/// milestones.
pub fn notify_report<N>(
    user_id: i32,
    episode_id: i32,
    is_youtube: bool,
    position_sec: N,
    previous_position: i32,
) -> (r: (PlaybackRun<N>, PlaybackEffect<N>))
    ensures
        (r.0.target(), r.0.stage()) == report_of(
            user_id,
            episode_id,
            is_youtube,
            position_sec,
            previous_position,
        ),
        r.0.fresh(
            Target { user_id, episode_id, is_youtube },
            Stage::ReportGate { position: position_sec, previous: previous_position },
        ),
        is_effect(r.1, EffectView::<N>::LoadPreferences { user_id }),
{
    let who = Target { user_id, episode_id, is_youtube };
    let stage = Stage::ReportGate { position: position_sec, previous: previous_position };
    (
        PlaybackRun { who, stage, won: Ghost(Set::empty()), told: Ghost(Seq::empty()) },
        PlaybackEffect::LoadPreferences { user_id },
    )
}

/// A playback finished. Its key makes a second call harmless.
pub fn notify_finish<N>(user_id: i32, episode_id: i32, is_youtube: bool) -> (r: (
    PlaybackRun<N>,
    PlaybackEffect<N>,
))
    ensures
        (r.0.target(), r.0.stage()) == finish_of::<N>(user_id, episode_id, is_youtube),
        r.0.fresh(Target { user_id, episode_id, is_youtube }, Stage::FinishGate),
        is_effect(r.1, EffectView::<N>::LoadPreferences { user_id }),
{
    let who = Target { user_id, episode_id, is_youtube };
    (
        PlaybackRun {
            who,
            stage: Stage::FinishGate,
            won: Ghost(Set::empty()),
            told: Ghost(Seq::empty()),
        },
        PlaybackEffect::LoadPreferences { user_id },
    )
}

// ------------------------------------------------------------------
// Laws
// ------------------------------------------------------------------

/// A run announces only events whose key it created, each at most once. Where the
/// store cannot be asked no key is created, so nothing is announced.
pub proof fn law_announced_events_were_won<N>(run: PlaybackRun<N>)
    requires
        run.wf(),
    ensures
        run.told().no_duplicates(),
        forall|i: int| 0 <= i < run.told().len() ==> run.won().contains(#[trigger] run.told()[i]),
        run.won() == Set::<Seq<char>>::empty() ==> run.told().len() == 0,
{
    if run.told().len() > 0 {
        assert(run.won().contains(run.told()[0]));
    }
}

/// While the store lets only one run create a key, no two runs announce the same
/// event.
pub proof fn law_events_are_announced_once<N>(a: PlaybackRun<N>, b: PlaybackRun<N>)
    requires
        a.wf(),
        b.wf(),
        a.won().disjoint(b.won()),
    ensures
        forall|i: int, j: int|
            0 <= i < a.told().len() && 0 <= j < b.told().len() ==> #[trigger] a.told()[i]
                != #[trigger] b.told()[j],
{
    assert forall|i: int, j: int|
        0 <= i < a.told().len() && 0 <= j < b.told().len() implies #[trigger] a.told()[i]
        != #[trigger] b.told()[j] by {
        assert(a.won().contains(a.told()[i]));
        assert(b.won().contains(b.told()[j]));
    }
}

/// A user whose preferences do not let playback through, or cannot be read, hears
/// of nothing, and no key is spent.
pub proof fn law_preferences_gate_every_event<N, E>(
    who: Target,
    stage: Stage<N>,
    preferences: Result<(bool, bool), E>,
)
    requires
        !lets_through(preferences),
    ensures
        step_of(who, stage, PlaybackReply::Preferences(preferences)) == over::<N>(),
{
}

/// How many replies a stage can still take.
pub open spec fn steps_left<N>(stage: Stage<N>) -> nat {
    match stage {
        Stage::Over => 0,
        Stage::Sending => 1,
        Stage::StartInfo { .. } | Stage::FinishInfo => 2,
        Stage::StartClaim { .. } | Stage::FinishClaim => 3,
        Stage::StartGate { .. } | Stage::FinishGate => 4,
        Stage::ReportMilestone { at, .. } => (MILESTONE_COUNT - at + 1) as nat,
        Stage::ReportPercent { .. } => 5,
        Stage::ReportStarted { .. } => 6,
        Stage::ReportStart { .. } => 7,
        Stage::ReportInfo { .. } => 8,
        Stage::ReportGate { .. } => 9,
    }
}

/// Every reply brings a run closer to its end.
pub proof fn law_runs_end<N, E>(who: Target, stage: Stage<N>, reply: PlaybackReply<E>)
    requires
        stage !is Over,
        stage matches Stage::ReportMilestone { at, .. } ==> at < MILESTONE_COUNT,
    ensures
        steps_left(step_of(who, stage, reply).0) < steps_left(stage),
{
}

/// What is done over a series of replies.
pub open spec fn effects_of<N, E>(
    who: Target,
    stage: Stage<N>,
    replies: Seq<PlaybackReply<E>>,
) -> Seq<EffectView<N>>
    decreases replies.len(),
{
    if replies.len() == 0 {
        Seq::empty()
    } else {
        let next = step_of(who, stage, replies[0]);
        seq![next.1] + effects_of(who, next.0, replies.skip(1))
    }
}

/// Something is announced.
pub open spec fn announces<N>(effects: Seq<EffectView<N>>) -> bool {
    exists|i: int| 0 <= i < effects.len() && #[trigger] effects[i] is Dispatch
}

/// A start is announced exactly when the user hears of playback, its key is won and
/// the episode is known; it is then claimed first and looked up next.
pub proof fn law_starts_are_announced<N, E>(
    who: Target,
    device_name: Option<String>,
    since: Option<N>,
    preferences: Result<(bool, bool), E>,
    claimed: Result<bool, E>,
    reply: Result<Option<EpisodeNotificationInfo>, E>,
)
    ensures
        ({
            let effects = effects_of(
                who,
                Stage::StartGate { device_name, since },
                seq![
                    PlaybackReply::Preferences(preferences),
                    PlaybackReply::Claimed(claimed),
                    PlaybackReply::Info(reply),
                ],
            );
            let due = lets_through(preferences) && claimed == Ok::<bool, E>(true) && known(
                reply,
            ) is Some;
            &&& announces(effects) <==> due
            &&& due ==> effects == seq![
                start_claim::<N>(who),
                info_load::<N>(who),
                EffectView::Dispatch(
                    start_notice(who, known(reply)->0, since, opt_text(device_name)),
                ),
            ]
        }),
{
    let replies = seq![
        PlaybackReply::Preferences(preferences),
        PlaybackReply::Claimed(claimed),
        PlaybackReply::Info(reply),
    ];
    lemma_three_steps(who, Stage::StartGate { device_name, since }, replies);
}

/// An end is announced exactly when the user hears of playback, its key is won and
/// the episode is known; it is then claimed first and looked up next.
pub proof fn law_ends_are_announced<N, E>(
    who: Target,
    preferences: Result<(bool, bool), E>,
    claimed: Result<bool, E>,
    reply: Result<Option<EpisodeNotificationInfo>, E>,
)
    ensures
        ({
            let effects = effects_of(
                who,
                Stage::<N>::FinishGate,
                seq![
                    PlaybackReply::Preferences(preferences),
                    PlaybackReply::Claimed(claimed),
                    PlaybackReply::Info(reply),
                ],
            );
            let due = lets_through(preferences) && claimed == Ok::<bool, E>(true) && known(
                reply,
            ) is Some;
            &&& announces(effects) <==> due
            &&& due ==> effects == seq![
                finish_claim::<N>(who),
                info_load::<N>(who),
                EffectView::Dispatch(finish_notice(who, known(reply)->0)),
            ]
        }),
{
    let replies = seq![
        PlaybackReply::Preferences(preferences),
        PlaybackReply::Claimed(claimed),
        PlaybackReply::Info(reply),
    ];
    lemma_three_steps(who, Stage::<N>::FinishGate, replies);
}

/// A position announces the start exactly when the user hears of playback, the
/// episode is known, no position was stored before, and the key of the start is
/// won.
pub proof fn law_first_positions_announce_the_start<N, E>(
    who: Target,
    position: N,
    previous: i32,
    preferences: Result<(bool, bool), E>,
    reply: Result<Option<EpisodeNotificationInfo>, E>,
    claimed: Result<bool, E>,
)
    ensures
        ({
            let effects = effects_of(
                who,
                Stage::ReportGate { position, previous },
                seq![
                    PlaybackReply::Preferences(preferences),
                    PlaybackReply::Info(reply),
                    PlaybackReply::Claimed(claimed),
                ],
            );
            let due = lets_through(preferences) && known(reply) is Some && previous <= 0
                && claimed == Ok::<bool, E>(true);
            &&& announces(effects) <==> due
            &&& due ==> effects == seq![
                info_load::<N>(who),
                start_claim::<N>(who),
                EffectView::Dispatch(start_notice(who, known(reply)->0, Some(position), None)),
            ]
        }),
{
    let replies = seq![
        PlaybackReply::Preferences(preferences),
        PlaybackReply::Info(reply),
        PlaybackReply::Claimed(claimed),
    ];
    lemma_three_steps(who, Stage::ReportGate { position, previous }, replies);
}

proof fn lemma_three_steps<N, E>(who: Target, stage: Stage<N>, replies: Seq<PlaybackReply<E>>)
    requires
        replies.len() == 3,
    ensures
        ({
            let a = step_of(who, stage, replies[0]);
            let b = step_of(who, a.0, replies[1]);
            let c = step_of(who, b.0, replies[2]);
            let effects = effects_of(who, stage, replies);
            &&& effects == seq![a.1, b.1, c.1]
            &&& announces(effects) <==> a.1 is Dispatch || b.1 is Dispatch || c.1 is Dispatch
        }),
{
    let a = step_of(who, stage, replies[0]);
    let b = step_of(who, a.0, replies[1]);
    let c = step_of(who, b.0, replies[2]);
    let second = replies.skip(1);
    let third = second.skip(1);
    let rest = third.skip(1);
    assert(effects_of(who, c.0, rest) =~= Seq::empty());
    assert(effects_of(who, b.0, third) =~= seq![c.1]);
    assert(effects_of(who, a.0, second) =~= seq![b.1, c.1]);
    let effects = effects_of(who, stage, replies);
    assert(effects =~= seq![a.1, b.1, c.1]);
    assert(effects[0] == a.1 && effects[1] == b.1 && effects[2] == c.1);
}

/// How many milestones `percent` has reached.
pub open spec fn reached(percent: i32) -> nat {
    if percent < milestone(0) {
        0
    } else if percent < milestone(1) {
        1
    } else if percent < milestone(2) {
        2
    } else {
        3
    }
}

/// The highest milestone whose key was created, given the answers to the claims
/// from `at` on and the highest one before them.
pub open spec fn highest_won<E>(at: nat, best: Option<i32>, claims: Seq<Result<bool, E>>) -> Option<
    i32,
>
    decreases claims.len(),
{
    if claims.len() == 0 {
        best
    } else {
        highest_won(
            at + 1,
            if claims[0] == Ok::<bool, E>(true) {
                Some(milestone(at as int))
            } else {
                best
            },
            claims.skip(1),
        )
    }
}

pub open spec fn claim_replies<E>(claims: Seq<Result<bool, E>>) -> Seq<PlaybackReply<E>> {
    claims.map_values(|claim: Result<bool, E>| PlaybackReply::Claimed(claim))
}

/// What is announced after the claims.
pub open spec fn progress_outcome<N>(
    who: Target,
    info: EpisodeNotificationInfo,
    position: N,
    best: Option<i32>,
) -> EffectView<N> {
    match best {
        Some(m) => EffectView::Dispatch(progress_notice(who, info, position, m)),
        None => EffectView::Done,
    }
}

/// The claim of the milestone at `i`.
pub open spec fn milestone_claim<N>(who: Target, i: int) -> EffectView<N> {
    EffectView::Claim {
        key: milestone_key_of(who.user_id, who.episode_id, who.is_youtube, milestone(i)),
        seconds: MILESTONE_TTL_SECS,
    }
}

proof fn lemma_milestone_claims<N, E>(
    who: Target,
    position: N,
    info: EpisodeNotificationInfo,
    percent: i32,
    at: usize,
    best: Option<i32>,
    claims: Seq<Result<bool, E>>,
)
    requires
        at < reached(percent),
        claims.len() == reached(percent) - at,
    ensures
        ({
            let effects = effects_of(
                who,
                Stage::ReportMilestone { position, info, percent, at, best },
                claim_replies(claims),
            );
            &&& effects.len() == claims.len()
            &&& forall|i: int|
                0 <= i < claims.len() - 1 ==> #[trigger] effects[i] == milestone_claim::<N>(
                    who,
                    at + i + 1,
                )
            &&& effects.last() == progress_outcome(
                who,
                info,
                position,
                highest_won(at as nat, best, claims),
            )
        }),
    decreases claims.len(),
{
    let stage = Stage::ReportMilestone { position, info, percent, at, best };
    let replies = claim_replies(claims);
    let next_best = if claims[0] == Ok::<bool, E>(true) {
        Some(milestone(at as int))
    } else {
        best
    };
    let next = step_of(who, stage, replies[0]);
    let rest = claims.skip(1);
    assert(replies.skip(1) =~= claim_replies(rest));
    assert(next == milestones_from(who, position, info, percent, (at + 1) as usize, next_best));
    assert(highest_won(at as nat, best, claims) == highest_won((at + 1) as nat, next_best, rest));
    if claims.len() > 1 {
        lemma_milestone_claims(who, position, info, percent, (at + 1) as usize, next_best, rest);
        let tail = effects_of(who, next.0, claim_replies(rest));
        let effects = effects_of(who, stage, replies);
        assert(effects == seq![next.1] + tail);
        assert forall|i: int| 0 <= i < claims.len() - 1 implies #[trigger] effects[i]
            == milestone_claim::<N>(who, at + i + 1) by {
            if i > 0 {
                assert(effects[i] == tail[i - 1]);
            }
        }
        assert(effects.last() == tail.last());
    } else {
        assert(rest.len() == 0);
        assert(effects_of(who, next.0, claim_replies(rest)) =~= Seq::empty());
        assert(effects_of(who, stage, replies) =~= seq![next.1]);
    }
}

/// A position claims exactly the milestones that it has reached, in order, and
/// then announces the highest one that was won, if any.
pub proof fn law_highest_new_milestone_is_announced<N, E>(
    who: Target,
    position: N,
    info: EpisodeNotificationInfo,
    percent: i32,
    claims: Seq<Result<bool, E>>,
)
    requires
        claims.len() == reached(percent),
    ensures
        ({
            let effects = effects_of(
                who,
                Stage::ReportPercent { position, info },
                seq![PlaybackReply::Percent(percent)] + claim_replies(claims),
            );
            &&& effects.len() == claims.len() + 1
            &&& forall|i: int|
                0 <= i < claims.len() ==> #[trigger] effects[i] == milestone_claim::<N>(who, i)
            &&& effects.last() == progress_outcome(
                who,
                info,
                position,
                highest_won(0, None, claims),
            )
        }),
{
    let stage = Stage::ReportPercent { position, info };
    let replies = seq![PlaybackReply::Percent(percent)] + claim_replies(claims);
    let next = step_of(who, stage, replies[0]);
    assert(replies.skip(1) =~= claim_replies(claims));
    let tail = effects_of(who, next.0, claim_replies(claims));
    let effects = effects_of(who, stage, replies);
    assert(effects == seq![next.1] + tail);
    if claims.len() > 0 {
        lemma_milestone_claims(who, position, info, percent, 0, None, claims);
        assert forall|i: int| 0 <= i < claims.len() implies #[trigger] effects[i]
            == milestone_claim::<N>(who, i) by {
            if i > 0 {
                assert(effects[i] == tail[i - 1]);
            }
        }
        assert(effects.last() == tail.last());
    } else {
        assert(tail =~= Seq::empty());
    }
}

/// The keys are spelled out of the event, the user, the kind of media and the episode,
/// and of a milestone its percent.
pub proof fn law_keys_are_spelled_out(user_id: i32, episode_id: i32, percent: i32)
    ensures
        ({
            let u = int_decimal(user_id as int);
            let e = int_decimal(episode_id as int);
            let m = int_decimal(percent as int);
            &&& start_key_of(user_id, episode_id, false) == "notif:playback:start:"@ + u + ":ep:"@
                + e
            &&& start_key_of(user_id, episode_id, true) == "notif:playback:start:"@ + u + ":yt:"@
                + e
            &&& finish_key_of(user_id, episode_id, false) == "notif:playback:finish:"@ + u
                + ":ep:"@ + e
            &&& finish_key_of(user_id, episode_id, true) == "notif:playback:finish:"@ + u
                + ":yt:"@ + e
            &&& milestone_key_of(user_id, episode_id, false, percent)
                == "notif:playback:milestone:"@ + u + ":ep:"@ + e + ":"@ + m
            &&& milestone_key_of(user_id, episode_id, true, percent)
                == "notif:playback:milestone:"@ + u + ":yt:"@ + e + ":"@ + m
        }),
{
    reveal_strlit(":");
    reveal_strlit("ep");
    reveal_strlit("yt");
    reveal_strlit(":ep:");
    reveal_strlit(":yt:");
    let u = int_decimal(user_id as int);
    let e = int_decimal(episode_id as int);
    let m = int_decimal(percent as int);
    assert(":"@ + "ep"@ + ":"@ =~= ":ep:"@);
    assert(":"@ + "yt"@ + ":"@ =~= ":yt:"@);
    assert(scope(user_id, episode_id, false) =~= u + ":ep:"@ + e);
    assert(scope(user_id, episode_id, true) =~= u + ":yt:"@ + e);
    let s = "notif:playback:start:"@;
    let f = "notif:playback:finish:"@;
    let p = "notif:playback:milestone:"@;
    assert(s + (u + ":ep:"@ + e) =~= s + u + ":ep:"@ + e);
    assert(s + (u + ":yt:"@ + e) =~= s + u + ":yt:"@ + e);
    assert(f + (u + ":ep:"@ + e) =~= f + u + ":ep:"@ + e);
    assert(f + (u + ":yt:"@ + e) =~= f + u + ":yt:"@ + e);
    assert(p + (u + ":ep:"@ + e) + ":"@ + m =~= p + u + ":ep:"@ + e + ":"@ + m);
    assert(p + (u + ":yt:"@ + e) + ":"@ + m =~= p + u + ":yt:"@ + e + ":"@ + m);
}

/// The notices tell whose playback of which episode they are about, and what happened
/// to it: a start at a position on a device, a milestone at a position, or an end.
pub proof fn law_notices_tell_what_happened<N>(
    who: Target,
    info: EpisodeNotificationInfo,
    since: Option<N>,
    position: N,
    percent: i32,
    device_name: Option<Seq<char>>,
)
    ensures
        ({
            let start = start_notice(who, info, since, device_name);
            &&& start.kind == "playback_started"@
            &&& start.title == "Playback Started"@
            &&& start.message == start_message(info, device_name)
            &&& start.user_id == who.user_id
            &&& start.episode == info
            &&& start.position == since
            &&& start.percent is None
            &&& start.device_name == device_name
        }),
        ({
            let progress = progress_notice(who, info, position, percent);
            &&& progress.kind == "playback_progress"@
            &&& progress.title == "Playback Progress"@
            &&& progress.message == int_decimal(percent as int) + "% through "@ + label(info)
            &&& progress.user_id == who.user_id
            &&& progress.episode == info
            &&& progress.position == Some(position)
            &&& progress.percent == Some(percent)
            &&& progress.device_name is None
        }),
        ({
            let finish = finish_notice::<N>(who, info);
            &&& finish.kind == "playback_finished"@
            &&& finish.title == "Playback Finished"@
            &&& finish.message == "Finished "@ + label(info)
            &&& finish.user_id == who.user_id
            &&& finish.episode == info
            &&& finish.position is None
            &&& finish.percent is None
            &&& finish.device_name is None
        }),
{
}

/// A position is asked for its share of the episode.
pub open spec fn asks_share<N>(effect: EffectView<N>, position: N, duration: i32) -> bool {
    effect matches EffectView::Percent { position: p, duration: d } && p == position && d == duration
}

/// A position of a known episode, for a user who hears of playback, is asked for its
/// share of the episode exactly if the episode is longer than zero seconds: at once
/// where a position was stored before, and otherwise once the start is dealt with,
/// whether its key was lost or the start was sent. It is asked with that position and
/// that length, and nothing is done where the length is not known.
pub proof fn law_positions_are_asked_for_their_share<N, E>(
    who: Target,
    position: N,
    previous: i32,
    info: EpisodeNotificationInfo,
    hears_of_content: bool,
    claimed: Result<bool, E>,
)
    ensures
        ({
            let stage = Stage::ReportGate { position, previous };
            let first = PlaybackReply::<E>::Preferences(Ok((hears_of_content, true)));
            let second = PlaybackReply::<E>::Info(Ok(Some(info)));
            let known_before = effects_of(who, stage, seq![first, second]);
            let lost = effects_of(who, stage, seq![first, second, PlaybackReply::Claimed(claimed)]);
            let sent = effects_of(
                who,
                stage,
                seq![
                    first,
                    second,
                    PlaybackReply::<E>::Claimed(Ok(true)),
                    PlaybackReply::<E>::Sent,
                ],
            );
            &&& previous > 0 && info.duration > 0 ==> asks_share(
                known_before[1],
                position,
                info.duration,
            )
            &&& previous > 0 && info.duration <= 0 ==> known_before[1] is Done
            &&& previous <= 0 && claimed != Ok::<bool, E>(true) && info.duration > 0 ==> asks_share(
                lost[2],
                position,
                info.duration,
            )
            &&& previous <= 0 && claimed != Ok::<bool, E>(true) && info.duration <= 0
                ==> lost[2] is Done
            &&& previous <= 0 && info.duration > 0 ==> asks_share(sent[3], position, info.duration)
            &&& previous <= 0 && info.duration <= 0 ==> sent[3] is Done
        }),
{
    let stage = Stage::ReportGate { position, previous };
    let first = PlaybackReply::<E>::Preferences(Ok((hears_of_content, true)));
    let second = PlaybackReply::<E>::Info(Ok(Some(info)));
    lemma_effects_at(who, stage, seq![first, second]);
    lemma_effects_at(who, stage, seq![first, second, PlaybackReply::Claimed(claimed)]);
    lemma_effects_at(
        who,
        stage,
        seq![first, second, PlaybackReply::<E>::Claimed(Ok(true)), PlaybackReply::<E>::Sent],
    );
}

/// The effects of up to four replies, one by one.
proof fn lemma_effects_at<N, E>(who: Target, stage: Stage<N>, replies: Seq<PlaybackReply<E>>)
    ensures
        ({
            let effects = effects_of(who, stage, replies);
            let a = step_of(who, stage, replies[0]);
            let b = step_of(who, a.0, replies[1]);
            let c = step_of(who, b.0, replies[2]);
            let d = step_of(who, c.0, replies[3]);
            &&& effects.len() == replies.len()
            &&& replies.len() > 0 ==> effects[0] == a.1
            &&& replies.len() > 1 ==> effects[1] == b.1
            &&& replies.len() > 2 ==> effects[2] == c.1
            &&& replies.len() > 3 ==> effects[3] == d.1
        }),
    decreases replies.len(),
{
    if replies.len() > 0 {
        let a = step_of(who, stage, replies[0]);
        let rest = replies.skip(1);
        lemma_effects_at(who, a.0, rest);
        let tail = effects_of(who, a.0, rest);
        let effects = effects_of(who, stage, replies);
        assert(effects == seq![a.1] + tail);
        if replies.len() > 1 {
            assert(effects[1] == tail[0] && rest[0] == replies[1]);
        }
        if replies.len() > 2 {
            assert(effects[2] == tail[1] && rest[1] == replies[2]);
        }
        if replies.len() > 3 {
            assert(effects[3] == tail[2] && rest[2] == replies[3]);
        }
    }
}

/// The effect claims a key for a number of seconds.
pub open spec fn claims_key<N>(effect: EffectView<N>, key: Seq<char>, seconds: u64) -> bool {
    effect matches EffectView::Claim { key: k, seconds: s } && k == key && s == seconds
}

/// A start and an end of a playback are claimed once the user is known to hear of
/// playback: a start for a day, an end for a week. A position asks for the episode
/// first, and claims the start for a day if none was stored before.
pub proof fn law_events_are_claimed_before_they_are_sent<N, E>(
    who: Target,
    device_name: Option<String>,
    since: Option<N>,
    position: N,
    previous: i32,
    hears_of_content: bool,
    info: EpisodeNotificationInfo,
)
    ensures
        ({
            let wanted = PlaybackReply::<E>::Preferences(Ok((hears_of_content, true)));
            let found = PlaybackReply::<E>::Info(Ok(Some(info)));
            let start = step_of(who, Stage::StartGate { device_name, since }, wanted);
            let finish = step_of(who, Stage::<N>::FinishGate, wanted);
            let report = step_of(who, Stage::ReportGate { position, previous }, wanted);
            let first = step_of(who, Stage::ReportInfo { position, previous }, found);
            let start_key = start_key_of(who.user_id, who.episode_id, who.is_youtube);
            let finish_key = finish_key_of(who.user_id, who.episode_id, who.is_youtube);
            &&& claims_key(start.1, start_key, 86400)
            &&& claims_key(finish.1, finish_key, 604800)
            &&& report.1 == (EffectView::<N>::LoadInfo {
                episode_id: who.episode_id,
                is_youtube: who.is_youtube,
            })
            &&& previous <= 0 ==> claims_key(first.1, start_key, 86400)
            &&& previous > 0 ==> !(first.1 is Claim)
        }),
{
}

/// A share of an episode claims the milestones of 25, 50 and 75 percent that it has
/// reached, each for a week and one after the other.
pub proof fn law_shares_claim_what_they_reach<N, E>(
    who: Target,
    position: N,
    info: EpisodeNotificationInfo,
    percent: i32,
    best: Option<i32>,
    claimed: Result<bool, E>,
)
    ensures
        ({
            let ask = step_of(
                who,
                Stage::ReportPercent { position, info },
                PlaybackReply::<E>::Percent(percent),
            );
            let reply = PlaybackReply::Claimed(claimed);
            let second = step_of(
                who,
                Stage::ReportMilestone { position, info, percent, at: 0, best },
                reply,
            );
            let third = step_of(
                who,
                Stage::ReportMilestone { position, info, percent, at: 1, best },
                reply,
            );
            let key = |m: i32| milestone_key_of(who.user_id, who.episode_id, who.is_youtube, m);
            &&& percent >= 25 ==> claims_key(ask.1, key(25), 604800)
            &&& percent < 25 ==> ask.1 is Done
            &&& percent >= 50 ==> claims_key(second.1, key(50), 604800)
            &&& percent < 50 ==> !(second.1 is Claim)
            &&& percent >= 75 ==> claims_key(third.1, key(75), 604800)
            &&& percent < 75 ==> !(third.1 is Claim)
        }),
{
}

/// The notice that announces a milestone of a playback.
pub open spec fn tells_milestone<N>(
    effect: EffectView<N>,
    who: Target,
    info: EpisodeNotificationInfo,
    position: N,
    m: i32,
) -> bool {
    effect matches EffectView::Dispatch(notice) && {
        &&& notice.kind == "playback_progress"@
        &&& notice.title == "Playback Progress"@
        &&& notice.message == int_decimal(m as int) + "% through "@ + label(info)
        &&& notice.user_id == who.user_id
        &&& notice.episode == info
        &&& notice.position == Some(position)
        &&& notice.percent == Some(m)
        &&& notice.device_name is None
    }
}

/// Of the milestones of 25, 50 and 75 percent that a share reaches, the highest one
/// whose key was won is announced, once every one of them was claimed, and none where
/// no key was won.
pub proof fn law_one_milestone_is_told<N, E>(
    who: Target,
    position: N,
    info: EpisodeNotificationInfo,
    percent: i32,
    a: Result<bool, E>,
    b: Result<bool, E>,
    c: Result<bool, E>,
)
    ensures
        ({
            let stage = Stage::ReportPercent { position, info };
            let share = PlaybackReply::<E>::Percent(percent);
            let won_a = a == Ok::<bool, E>(true);
            let won_b = b == Ok::<bool, E>(true);
            let won_c = c == Ok::<bool, E>(true);
            let one = effects_of(who, stage, seq![share, PlaybackReply::Claimed(a)]);
            let two = effects_of(
                who,
                stage,
                seq![share, PlaybackReply::Claimed(a), PlaybackReply::Claimed(b)],
            );
            let all = effects_of(
                who,
                stage,
                seq![
                    share,
                    PlaybackReply::Claimed(a),
                    PlaybackReply::Claimed(b),
                    PlaybackReply::Claimed(c),
                ],
            );
            &&& 25 <= percent < 50 && won_a ==> tells_milestone(one[1], who, info, position, 25)
            &&& 25 <= percent < 50 && !won_a ==> one[1] is Done
            &&& 50 <= percent < 75 && won_b ==> tells_milestone(two[2], who, info, position, 50)
            &&& 50 <= percent < 75 && !won_b && won_a ==> tells_milestone(
                two[2],
                who,
                info,
                position,
                25,
            )
            &&& 50 <= percent < 75 && !won_b && !won_a ==> two[2] is Done
            &&& 75 <= percent && won_c ==> tells_milestone(all[3], who, info, position, 75)
            &&& 75 <= percent && !won_c && won_b ==> tells_milestone(
                all[3],
                who,
                info,
                position,
                50,
            )
            &&& 75 <= percent && !won_c && !won_b && won_a ==> tells_milestone(
                all[3],
                who,
                info,
                position,
                25,
            )
            &&& 75 <= percent && !won_c && !won_b && !won_a ==> all[3] is Done
        }),
{
    let stage = Stage::ReportPercent { position, info };
    let share = PlaybackReply::<E>::Percent(percent);
    lemma_effects_at(who, stage, seq![share, PlaybackReply::Claimed(a)]);
    lemma_effects_at(
        who,
        stage,
        seq![share, PlaybackReply::Claimed(a), PlaybackReply::Claimed(b)],
    );
    lemma_effects_at(
        who,
        stage,
        seq![
            share,
            PlaybackReply::Claimed(a),
            PlaybackReply::Claimed(b),
            PlaybackReply::Claimed(c),
        ],
    );
}

/// The notice that announces the start of a playback.
pub open spec fn tells_start<N>(
    effect: EffectView<N>,
    who: Target,
    info: EpisodeNotificationInfo,
    position: Option<N>,
    device_name: Option<Seq<char>>,
) -> bool {
    effect matches EffectView::Dispatch(notice) && {
        &&& notice.kind == "playback_started"@
        &&& notice.title == "Playback Started"@
        &&& notice.message == start_message(info, device_name)
        &&& notice.user_id == who.user_id
        &&& notice.episode == info
        &&& notice.position == position
        &&& notice.percent is None
        &&& notice.device_name == device_name
    }
}

/// A start whose key is won is announced with its device and its position, a first
/// position whose start is won with the position and no device, and an end whose key
/// is won as an end: exactly if the episode is known. A key that is lost, or that the
/// store cannot be asked for, announces nothing.
pub proof fn law_won_events_are_told<N, E>(
    who: Target,
    device_name: Option<String>,
    since: Option<N>,
    position: N,
    info: EpisodeNotificationInfo,
    claimed: Result<bool, E>,
    unknown: Result<Option<EpisodeNotificationInfo>, E>,
)
    requires
        claimed != Ok::<bool, E>(true),
        unknown is Err || unknown == Ok::<Option<EpisodeNotificationInfo>, E>(None),
    ensures
        ({
            let won = PlaybackReply::<E>::Claimed(Ok(true));
            let lost = PlaybackReply::Claimed(claimed);
            let found = PlaybackReply::<E>::Info(Ok(Some(info)));
            let missing = PlaybackReply::Info(unknown);
            let start_claim = Stage::StartClaim { device_name, since };
            let start_info = Stage::StartInfo { device_name, since };
            let name = match device_name {
                Some(name) => Some(name@),
                None => None,
            };
            let load = EffectView::<N>::LoadInfo {
                episode_id: who.episode_id,
                is_youtube: who.is_youtube,
            };
            let finish = step_of(who, Stage::<N>::FinishInfo, found).1;
            &&& step_of(who, start_claim, won) == (start_info, load)
            &&& step_of(who, start_claim, lost).1 is Done
            &&& tells_start(step_of(who, start_info, found).1, who, info, since, name)
            &&& step_of(who, start_info, missing).1 is Done
            &&& tells_start(
                step_of(who, Stage::ReportStart { position, info }, won).1,
                who,
                info,
                Some(position),
                None,
            )
            &&& !(step_of(who, Stage::ReportStart { position, info }, lost).1 is Dispatch)
            &&& step_of(who, Stage::<N>::FinishClaim, won) == (Stage::<N>::FinishInfo, load)
            &&& step_of(who, Stage::<N>::FinishClaim, lost).1 is Done
            &&& finish matches EffectView::Dispatch(notice) && {
                &&& notice.kind == "playback_finished"@
                &&& notice.title == "Playback Finished"@
                &&& notice.message == "Finished "@ + label(info)
                &&& notice.user_id == who.user_id
                &&& notice.episode == info
                &&& notice.position is None
                &&& notice.percent is None
                &&& notice.device_name is None
            }
            &&& step_of(who, Stage::<N>::FinishInfo, missing).1 is Done
        }),
{
}

/// A playback event is let through exactly if the user's preferences are known and
/// switch playback on, whatever they say of new content; otherwise nothing is done.
pub proof fn law_playback_switch_decides<N, E>(
    who: Target,
    stage: Stage<N>,
    preferences: Result<(bool, bool), E>,
)
    requires
        stage is StartGate || stage is ReportGate || stage is FinishGate,
    ensures
        preferences matches Ok(p) ==> p.1 ==> !(step_of(
            who,
            stage,
            PlaybackReply::Preferences(preferences),
        ).1 is Done),
        preferences matches Ok(p) ==> !p.1 ==> step_of(
            who,
            stage,
            PlaybackReply::Preferences(preferences),
        ) == (Stage::<N>::Over, EffectView::<N>::Done),
        preferences is Err ==> step_of(who, stage, PlaybackReply::Preferences(preferences)) == (
            Stage::<N>::Over,
            EffectView::<N>::Done,
        ),
{
}

/// An effect is what it is seen as: a claim creates the key with the value 1 for the
/// seconds given, and a notice that is sent is seen with every one of its fields.
pub proof fn law_effects_are_seen_whole<N>(effect: PlaybackEffect<N>, want: EffectView<N>)
    requires
        is_effect(effect, want),
    ensures
        effect matches PlaybackEffect::Claim(command) ==> (command matches RedisCommand::SetNx {
            key,
            value,
            seconds,
        } && value == RedisArg::Int(1) && claims_key(want, key@, seconds)),
        effect matches PlaybackEffect::Percent { position, duration } ==> asks_share(
            want,
            position,
            duration,
        ),
        effect matches PlaybackEffect::LoadInfo { episode_id, is_youtube } ==> want == (
        EffectView::<N>::LoadInfo { episode_id, is_youtube }),
        effect is Done <==> want is Done,
        effect is Dispatch <==> want is Dispatch,
        effect matches PlaybackEffect::Dispatch(notice) ==> {
            &&& want->Dispatch_0.kind == notice.kind@
            &&& want->Dispatch_0.title == notice.title@
            &&& want->Dispatch_0.message == notice.message@
            &&& want->Dispatch_0.user_id == notice.user_id
            &&& want->Dispatch_0.episode == notice.episode
            &&& want->Dispatch_0.position == notice.playback.position_sec
            &&& want->Dispatch_0.percent == notice.playback.percent
            &&& notice.playback.device_name matches Some(name) ==> want->Dispatch_0.device_name
                == Some(name@)
            &&& notice.playback.device_name is None ==> want->Dispatch_0.device_name is None
        },
{
}

/// A run is about the user, the episode and the kind of media that it was begun with,
/// and knows the device and the position, or the position and the one before it.
pub proof fn law_runs_begin_with_what_was_reported<N>(
    user_id: i32,
    episode_id: i32,
    is_youtube: bool,
    device_name: Option<String>,
    since: Option<N>,
    position: N,
    previous: i32,
)
    ensures
        ({
            let start = start_of(user_id, episode_id, is_youtube, device_name, since);
            let report = report_of(user_id, episode_id, is_youtube, position, previous);
            let finish = finish_of::<N>(user_id, episode_id, is_youtube);
            &&& start.0.user_id == user_id && start.0.episode_id == episode_id
                && start.0.is_youtube == is_youtube
            &&& report.0 == start.0
            &&& finish.0 == start.0
            &&& start.1 == (Stage::StartGate { device_name, since })
            &&& report.1 == (Stage::ReportGate { position, previous })
            &&& finish.1 is FinishGate
        }),
{
}

} // verus!
