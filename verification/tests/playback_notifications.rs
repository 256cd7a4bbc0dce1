use pinepods_api::models::EpisodeNotificationInfo;
use pinepods_api::redis_client::{RedisArg, RedisCommand};
use pinepods_api::services::notifications::{
    NotificationCategory, EVENT_PLAYBACK_FINISHED, EVENT_PLAYBACK_PROGRESS,
    EVENT_PLAYBACK_STARTED,
};
use pinepods_api::services::playback_notifications::{
    episode_info, finish_key, media_key_part, milestone_key, notify_finish, notify_report,
    notify_start, playback_enabled, start_key, PlaybackEffect, PlaybackNotice, PlaybackReply,
    PlaybackRun,
};

type Reply = PlaybackReply<&'static str>;

fn info(duration: i32) -> EpisodeNotificationInfo {
    EpisodeNotificationInfo {
        title: "Ep 1".to_string(),
        show_name: "Show".to_string(),
        duration,
        episode_id: 2,
        episode_description: None,
        episode_url: None,
        episode_artwork: None,
        episode_pub_date: None,
        episode_guid: None,
        is_video: false,
        is_youtube: false,
        podcast_id: 3,
        podcast_author: None,
        podcast_artwork: None,
        podcast_feed_url: None,
        podcast_website_url: None,
        podcast_categories: None,
        podcast_explicit: None,
    }
}

fn claim(key: &str, seconds: u64) -> PlaybackEffect<f64> {
    PlaybackEffect::Claim(RedisCommand::SetNx {
        key: key.to_string(),
        value: RedisArg::Int(1),
        seconds,
    })
}

fn notice(effect: PlaybackEffect<f64>) -> PlaybackNotice<f64> {
    match effect {
        PlaybackEffect::Dispatch(notice) => notice,
        other => panic!("unexpected effect: {other:?}"),
    }
}

fn enabled() -> Reply {
    PlaybackReply::Preferences(Ok((false, true)))
}

fn won() -> Reply {
    PlaybackReply::Claimed(Ok(true))
}

fn lost() -> Reply {
    PlaybackReply::Claimed(Ok(false))
}

fn known(duration: i32) -> Reply {
    PlaybackReply::Info(Ok(Some(info(duration))))
}

#[test]
fn dedup_keys_are_media_scoped() {
    assert_eq!(start_key(1, 2, false), "notif:playback:start:1:ep:2");
    assert_eq!(start_key(1, 2, true), "notif:playback:start:1:yt:2");
    assert_eq!(
        milestone_key(1, 2, false, 50),
        "notif:playback:milestone:1:ep:2:50"
    );
    assert_eq!(finish_key(9, 8, true), "notif:playback:finish:9:yt:8");
}

#[test]
fn keys_tell_users_and_episodes_apart() {
    assert_eq!((media_key_part(true), media_key_part(false)), ("yt", "ep"));
    assert_ne!(start_key(1, 11, false), start_key(11, 1, false));
    assert_ne!(milestone_key(1, 2, false, 25), milestone_key(1, 2, false, 50));
    assert_ne!(start_key(1, 2, false), finish_key(1, 2, false));
}

#[test]
fn only_known_preferences_enable_playback() {
    assert!(playback_enabled::<()>(&Ok((false, true))));
    assert!(!playback_enabled::<()>(&Ok((true, false))));
    assert!(!playback_enabled(&Err("down")));
    assert_eq!(episode_info(Err("down")), None);
    assert_eq!(episode_info::<()>(Ok(None)), None);
    assert_eq!(episode_info::<()>(Ok(Some(info(5)))), Some(info(5)));
}

#[test]
fn a_start_names_its_device() {
    let (run, effect) = notify_start(1, 2, false, Some("Pixel".to_string()), Some(30.5));
    assert_eq!(effect, PlaybackEffect::LoadPreferences { user_id: 1 });
    let (run, effect) = run.step(enabled());
    assert_eq!(effect, claim("notif:playback:start:1:ep:2", 86_400));
    let (run, effect) = run.step(won());
    assert_eq!(
        effect,
        PlaybackEffect::LoadInfo {
            episode_id: 2,
            is_youtube: false
        }
    );
    let (run, effect) = run.step(known(3600));
    let sent = notice(effect);
    assert_eq!(sent.kind, EVENT_PLAYBACK_STARTED);
    assert_eq!(sent.title, "Playback Started");
    assert_eq!(sent.message, "Started playing Ep 1 from Show on Pixel");
    assert_eq!(sent.playback.position_sec, Some(30.5));
    assert_eq!(sent.playback.percent, None);
    assert_eq!(sent.playback.device_name.as_deref(), Some("Pixel"));
    let event = sent.event();
    assert_eq!(event.category, NotificationCategory::Playback);
    assert_eq!((event.kind, event.user_id), (EVENT_PLAYBACK_STARTED, 1));
    assert_eq!(event.episode, Some(&info(3600)));
    assert_eq!(event.playback.as_ref(), Some(&sent.playback));
    let (_, effect) = run.step::<()>(PlaybackReply::Sent);
    assert_eq!(effect, PlaybackEffect::Done);
}

#[test]
fn lost_claims_and_failures_stay_silent() {
    let begin = || notify_start::<f64>(1, 2, false, None, None).0;
    for preferences in [Ok((true, false)), Err("down")] {
        let (_, effect) = begin().step(PlaybackReply::Preferences(preferences));
        assert_eq!(effect, PlaybackEffect::Done);
    }
    for claimed in [Ok(false), Err("down")] {
        let (run, _) = begin().step(enabled());
        let (_, effect) = run.step(PlaybackReply::Claimed(claimed));
        assert_eq!(effect, PlaybackEffect::Done);
    }
    for unknown in [Ok(None), Err("down")] {
        let (run, _) = begin().step(enabled());
        let (run, _) = run.step(won());
        let (_, effect) = run.step(PlaybackReply::Info(unknown));
        assert_eq!(effect, PlaybackEffect::Done);
    }
}

#[test]
fn stray_replies_end_a_run() {
    let (run, _) = notify_start::<f64>(1, 2, false, None, None);
    let (run, effect) = run.step(won());
    assert_eq!(effect, PlaybackEffect::Done);
    let (_, effect) = run.step(enabled());
    assert_eq!(effect, PlaybackEffect::Done);
}

fn report(previous: i32, duration: i32) -> (PlaybackRun<f64>, PlaybackEffect<f64>) {
    let (run, effect) = notify_report(1, 2, true, 1900.0, previous);
    assert_eq!(effect, PlaybackEffect::LoadPreferences { user_id: 1 });
    let (run, effect) = run.step(enabled());
    assert_eq!(
        effect,
        PlaybackEffect::LoadInfo {
            episode_id: 2,
            is_youtube: true
        }
    );
    run.step(known(duration))
}

#[test]
fn a_first_position_announces_the_start() {
    for previous in [0, -1] {
        let (run, effect) = report(previous, 3600);
        assert_eq!(effect, claim("notif:playback:start:1:yt:2", 86_400));
        let (run, effect) = run.step(won());
        let sent = notice(effect);
        assert_eq!(sent.message, "Started playing Ep 1 from Show");
        assert_eq!(sent.playback.position_sec, Some(1900.0));
        assert_eq!(sent.playback.device_name, None);
        let (_, effect) = run.step::<()>(PlaybackReply::Sent);
        assert_eq!(
            effect,
            PlaybackEffect::Percent {
                position: 1900.0,
                duration: 3600
            }
        );
    }
}

#[test]
fn a_known_start_does_not_stop_the_milestones() {
    let (run, _) = report(0, 3600);
    let (_, effect) = run.step(PlaybackReply::Claimed(Err("down")));
    assert!(matches!(effect, PlaybackEffect::Percent { .. }));
    let (_, effect) = report(1, 3600);
    assert!(matches!(effect, PlaybackEffect::Percent { .. }));
}

#[test]
fn episodes_of_unknown_length_have_no_milestones() {
    for duration in [0, -5] {
        let (_, effect) = report(10, duration);
        assert_eq!(effect, PlaybackEffect::Done);
    }
}

#[test]
fn the_highest_new_milestone_is_announced() {
    let (run, _) = report(10, 3600);
    let (run, effect) = run.step::<()>(PlaybackReply::Percent(52));
    assert_eq!(effect, claim("notif:playback:milestone:1:yt:2:25", 604_800));
    let (run, effect) = run.step(won());
    assert_eq!(effect, claim("notif:playback:milestone:1:yt:2:50", 604_800));
    let (run, effect) = run.step(won());
    let sent = notice(effect);
    assert_eq!(sent.kind, EVENT_PLAYBACK_PROGRESS);
    assert_eq!(sent.title, "Playback Progress");
    assert_eq!(sent.message, "50% through Ep 1 from Show");
    assert_eq!(sent.playback.percent, Some(50));
    assert_eq!(sent.playback.position_sec, Some(1900.0));
    let (_, effect) = run.step::<()>(PlaybackReply::Sent);
    assert_eq!(effect, PlaybackEffect::Done);
}

#[test]
fn milestones_that_were_lost_are_not_announced() {
    let percent = |p: i32| report(10, 3600).0.step::<()>(PlaybackReply::Percent(p));
    let (run, effect) = percent(99);
    assert_eq!(effect, claim("notif:playback:milestone:1:yt:2:25", 604_800));
    let (run, _) = run.step(won());
    let (run, effect) = run.step(lost());
    assert_eq!(effect, claim("notif:playback:milestone:1:yt:2:75", 604_800));
    let (_, effect) = run.step(PlaybackReply::Claimed(Err("down")));
    assert_eq!(notice(effect).message, "25% through Ep 1 from Show");

    let (run, _) = percent(25);
    let (_, effect) = run.step(lost());
    assert_eq!(effect, PlaybackEffect::Done);
    let (_, effect) = percent(24);
    assert_eq!(effect, PlaybackEffect::Done);
    let (_, effect) = percent(i32::MIN);
    assert_eq!(effect, PlaybackEffect::Done);
}

#[test]
fn an_end_is_announced_once() {
    let (run, _) = notify_finish::<f64>(9, 8, true);
    let (run, effect) = run.step(enabled());
    assert_eq!(effect, claim("notif:playback:finish:9:yt:8", 604_800));
    let (run, _) = run.step(won());
    let (_, effect) = run.step(known(0));
    let sent = notice(effect);
    assert_eq!(sent.kind, EVENT_PLAYBACK_FINISHED);
    assert_eq!((sent.title.as_str(), sent.user_id), ("Playback Finished", 9));
    assert_eq!(sent.message, "Finished Ep 1 from Show");
    assert_eq!(sent.playback.position_sec, None);

    let (run, _) = notify_finish::<f64>(9, 8, true);
    let (run, _) = run.step(enabled());
    let (_, effect) = run.step(lost());
    assert_eq!(effect, PlaybackEffect::Done);
}
