use pinepods_api::models::NowPlayingSnapshot;
use pinepods_api::redis_client::{
    stamp_now, stamped, DeviceScan, RedisArg, RedisClient, RedisCommand, SnapshotUpsert, Stored,
};
use pinepods_api::redis_manager::{ImportProgressManager, ProgressUpdate};

fn key(text: &str) -> String {
    text.to_string()
}

fn snapshot(device_id: &str, playing: bool, episode_id: i32, at: i64) -> NowPlayingSnapshot<f64> {
    NowPlayingSnapshot {
        device_id: device_id.to_string(),
        device_name: String::new(),
        device_type: String::new(),
        episode_id,
        is_youtube: episode_id % 2 == 1,
        title: String::new(),
        artwork_url: String::new(),
        position_sec: 0.0,
        duration_sec: 0.0,
        playing,
        speed: 1.0,
        updated_at: at,
    }
}

#[test]
fn plain_commands() {
    assert_eq!(RedisClient::get("k"), RedisCommand::Get { key: key("k") });
    assert_eq!(RedisClient::get_del("k"), RedisCommand::GetDel { key: key("k") });
    assert_eq!(RedisClient::delete("k"), RedisCommand::Del { key: key("k") });
    assert_eq!(RedisClient::key_exists("k"), RedisCommand::Exists { key: key("k") });
    assert_eq!(RedisClient::incr("k"), RedisCommand::Incr { key: key("k"), by: 1 });
    assert_eq!(RedisClient::decr("k"), RedisCommand::Decr { key: key("k"), by: 1 });
    assert_eq!(
        RedisClient::set("k", RedisArg::Int(3)),
        RedisCommand::SetKey { key: key("k"), value: RedisArg::Int(3) }
    );
    assert_eq!(
        RedisClient::set_nx("k", RedisArg::Int(1), 9),
        RedisCommand::SetNx { key: key("k"), value: RedisArg::Int(1), seconds: 9 }
    );
    assert_eq!(
        RedisClient::expire("k", 60),
        RedisCommand::Expire { key: key("k"), after: 60 }
    );
    assert_eq!(
        RedisClient::expire("k", u64::MAX),
        RedisCommand::Expire { key: key("k"), after: -1 }
    );
    assert_eq!(RedisClient::health_check(), RedisCommand::Ping);
    assert!(RedisClient::is_healthy("PONG"));
    assert!(!RedisClient::is_healthy("pong"));
    assert!(RedisClient::created(&Some("OK".to_string())));
    assert!(!RedisClient::created(&None));
}

#[test]
fn sessions_keys_and_tasks() {
    assert_eq!(
        RedisClient::store_session("s", 4, 60),
        RedisCommand::SetEx { key: key("session:s"), value: RedisArg::Int(4), seconds: 60 }
    );
    assert_eq!(RedisClient::get_session("s"), RedisCommand::Get { key: key("session:s") });
    assert_eq!(RedisClient::delete_session("s"), RedisCommand::Del { key: key("session:s") });
    assert_eq!(
        RedisClient::cache_api_key_validation("a", true, 5),
        RedisCommand::SetEx { key: key("api_key:a"), value: RedisArg::Flag(true), seconds: 5 }
    );
    assert_eq!(
        RedisClient::get_cached_api_key_validation("a"),
        RedisCommand::Get { key: key("api_key:a") }
    );
    assert_eq!(
        RedisClient::store_task_status("t", "done", 7),
        RedisCommand::SetEx {
            key: key("task:t"),
            value: RedisArg::Text("done".to_string()),
            seconds: 7
        }
    );
    assert_eq!(RedisClient::get_task_status("t"), RedisCommand::Get { key: key("task:t") });
}

#[test]
fn refreshes_expire() {
    assert_eq!(
        RedisClient::set_podcast_refreshing(-3),
        RedisCommand::SetEx {
            key: key("refreshing:-3"),
            value: RedisArg::Flag(true),
            seconds: 300
        }
    );
    assert_eq!(
        RedisClient::is_podcast_refreshing(3),
        RedisCommand::Exists { key: key("refreshing:3") }
    );
    assert_eq!(
        RedisClient::clear_podcast_refreshing(3),
        RedisCommand::Del { key: key("refreshing:3") }
    );
    assert!(RedisClient::refreshing::<()>(Ok(true)));
    assert!(!RedisClient::refreshing::<()>(Ok(false)));
    assert!(!RedisClient::refreshing(Err("down")));
}

#[test]
fn rate_limits_start_a_window_once() {
    assert_eq!(
        RedisClient::check_rate_limit("ip"),
        RedisCommand::Incr { key: key("rate_limit:ip"), by: 1 }
    );
    let (allowed, window) = RedisClient::rate_limit_verdict("ip", 2, 60, 1);
    assert!(allowed);
    assert_eq!(window, Some(RedisCommand::Expire { key: key("rate_limit:ip"), after: 60 }));
    assert_eq!(RedisClient::rate_limit_verdict("ip", 2, 60, 2), (true, None));
    assert_eq!(RedisClient::rate_limit_verdict("ip", 2, 60, 3), (false, None));
    assert!(!RedisClient::rate_limit_verdict("ip", 0, 60, 1).0);
    assert!(RedisClient::rate_limit_verdict("ip", u32::MAX, 60, 4294967295).0);
    assert!(!RedisClient::rate_limit_verdict("ip", u32::MAX, 60, 4294967296).0);
}

#[test]
fn snapshots_are_indexed_and_renewed() {
    let upsert = SnapshotUpsert::at(7, snapshot("dev:1", true, 3, 0), 77);
    assert_eq!(upsert.snapshot(), &snapshot("dev:1", true, 3, 77));
    assert_eq!(
        upsert.commands("{}".to_string()),
        vec![
            RedisCommand::SetEx {
                key: key("nowplaying:7:dev:1"),
                value: RedisArg::Text("{}".to_string()),
                seconds: 45
            },
            RedisCommand::SAdd { key: key("nowplaying:devices:7"), member: key("dev:1") },
            RedisCommand::Expire { key: key("nowplaying:devices:7"), after: 180 },
        ]
    );
    assert_eq!(
        RedisClient::touch_now_playing(7, "d"),
        RedisCommand::Expire { key: key("nowplaying:7:d"), after: 45 }
    );
    assert_eq!(
        RedisClient::touch_index(7, true),
        Some(RedisCommand::Expire { key: key("nowplaying:devices:7"), after: 180 })
    );
    assert_eq!(RedisClient::touch_index(7, false), None);
    assert_eq!(
        RedisClient::remove_now_playing(7, "d"),
        vec![
            RedisCommand::Del { key: key("nowplaying:7:d") },
            RedisCommand::SRem { key: key("nowplaying:devices:7"), member: key("d") },
        ]
    );
}

#[test]
fn a_device_cannot_pose_as_the_index() {
    assert_ne!(
        RedisClient::now_playing_key(7, "7"),
        RedisClient::now_playing_index_key(7)
    );
    assert_ne!(
        RedisClient::now_playing_key(1, "1:x"),
        RedisClient::now_playing_key(11, "x")
    );
}

#[test]
fn reports_are_written_where_listings_read() {
    let upsert = SnapshotUpsert::at(7, snapshot("a", true, 1, 0), 5);
    let mut written = upsert.commands("json".to_string()).into_iter();
    let scan: DeviceScan<f64> = DeviceScan::new(7, vec![key("a")]);
    match (written.next(), scan.next()) {
        (Some(RedisCommand::SetEx { key: to, value, .. }), Some(RedisCommand::Get { key: from })) => {
            assert_eq!(to, from);
            assert_eq!(value, RedisArg::Text("json".to_string()));
        }
        other => panic!("unexpected commands: {other:?}"),
    }
    match (written.next(), RedisClient::get_now_playing_devices(7)) {
        (Some(RedisCommand::SAdd { key: to, member }), RedisCommand::SMembers { key: from }) => {
            assert_eq!(to, from);
            assert_eq!(member, "a");
        }
        other => panic!("unexpected commands: {other:?}"),
    }
}

#[test]
fn scans_keep_what_is_readable() {
    assert_eq!(
        RedisClient::get_now_playing_devices(7),
        RedisCommand::SMembers { key: key("nowplaying:devices:7") }
    );
    let mut scan = DeviceScan::new(7, vec![key("a"), key("b"), key("c")]);
    assert_eq!(scan.next(), Some(RedisCommand::Get { key: key("nowplaying:7:a") }));
    assert_eq!(scan.answer(Stored::Snapshot(snapshot("a", true, 1, 1))), None);
    assert_eq!(scan.next(), Some(RedisCommand::Get { key: key("nowplaying:7:b") }));
    assert_eq!(
        scan.answer(Stored::Missing),
        Some(RedisCommand::SRem { key: key("nowplaying:devices:7"), member: key("b") })
    );
    assert_eq!(
        scan.answer(Stored::Corrupt),
        Some(RedisCommand::SRem { key: key("nowplaying:devices:7"), member: key("c") })
    );
    assert_eq!(scan.next(), None);
    assert_eq!(scan.answer(Stored::Missing), None);
    assert_eq!(scan.finish(), vec![snapshot("a", true, 1, 1)]);
}

#[test]
fn the_anchor_plays_or_was_last_active() {
    let anchor = |devices: Vec<NowPlayingSnapshot<f64>>| RedisClient::active_session_anchor(&devices);
    assert_eq!(anchor(vec![]), None);
    assert_eq!(anchor(vec![snapshot("a", false, 0, 9)]), None);
    assert_eq!(
        anchor(vec![snapshot("a", true, 3, 1), snapshot("b", false, 4, 9)]),
        Some((3, true))
    );
    assert_eq!(
        anchor(vec![snapshot("a", false, 3, 1), snapshot("b", false, 4, 9)]),
        Some((4, false))
    );
    assert_eq!(
        anchor(vec![snapshot("a", true, 3, 9), snapshot("b", true, 4, 9)]),
        Some((4, false))
    );
    assert_eq!(
        anchor(vec![snapshot("a", true, 0, 9), snapshot("b", false, 4, 10)]),
        Some((0, false))
    );
}

#[test]
fn stamps_replace_the_time_only() {
    let mut expected = snapshot("a", true, 3, 0);
    expected.updated_at = 77;
    assert_eq!(stamped(snapshot("a", true, 3, 0), 77), expected);
    let now = stamp_now(snapshot("a", true, 3, 0));
    assert!((chrono::Utc::now().timestamp() - now.updated_at).abs() <= 15);
    assert_eq!(now.device_id, "a");
}

#[test]
fn stored_snapshots_carry_the_time_of_the_server() {
    let upsert = RedisClient::upsert_now_playing(7, snapshot("a", true, 3, -9));
    let at = upsert.snapshot().updated_at;
    assert!((chrono::Utc::now().timestamp() - at).abs() <= 15);
    assert_eq!(upsert.snapshot(), &snapshot("a", true, 3, at));
    match &upsert.commands("{}".to_string())[0] {
        RedisCommand::SetEx { key, .. } => assert_eq!(key, "nowplaying:7:a"),
        other => panic!("unexpected command: {other:?}"),
    }
}

#[test]
fn any_single_value_can_be_stored() {
    for value in [
        RedisArg::Long(i64::MIN),
        RedisArg::Unsigned(u64::MAX),
        RedisArg::Bytes(vec![0, 255]),
    ] {
        match RedisClient::set_ex("k", value, 5) {
            RedisCommand::SetEx { key, value, seconds } => {
                assert_eq!((key.as_str(), seconds), ("k", 5));
                assert!(!matches!(value, RedisArg::Text(_)));
            }
            other => panic!("unexpected command: {other:?}"),
        }
    }
}

#[test]
fn keys_of_all_kinds_differ() {
    let keys = [
        "session:1".to_string(),
        RedisClient::now_playing_key(1, "1"),
        RedisClient::now_playing_index_key(1),
        pinepods_api::services::playback_notifications::start_key(1, 1, false),
        pinepods_api::services::playback_notifications::milestone_key(1, 1, false, 25),
        pinepods_api::services::playback_notifications::finish_key(1, 1, false),
        match ImportProgressManager::load(1) {
            RedisCommand::Get { key } => key,
            other => panic!("unexpected command: {other:?}"),
        },
    ];
    for (i, a) in keys.iter().enumerate() {
        for b in &keys[i + 1..] {
            assert_ne!(a, b);
        }
    }
    assert_ne!(ImportProgressManager::load(1), ImportProgressManager::load(11));
}

#[test]
fn import_progress_is_read_back() {
    assert_eq!(
        ImportProgressManager::load(5),
        RedisCommand::Get { key: key("import_progress:5") }
    );
    let text = match ImportProgressManager::start_import(5, 12) {
        RedisCommand::SetEx { key, value: RedisArg::Text(text), seconds } => {
            assert_eq!(key, "import_progress:5");
            assert_eq!(seconds, 3600);
            text
        }
        other => panic!("unexpected command: {other:?}"),
    };
    let stored = Some(text);
    assert_eq!(
        ImportProgressManager::get_progress(&stored),
        (0, 12, String::new())
    );
    let text = match ImportProgressManager::update_progress(5, &stored, 3, "A \"quoted\" show") {
        ProgressUpdate::Store(RedisCommand::SetEx { key, value: RedisArg::Text(text), seconds }) => {
            assert_eq!(key, "import_progress:5");
            assert_eq!(seconds, 3600);
            text
        }
        other => panic!("unexpected update: {other:?}"),
    };
    assert_eq!(
        ImportProgressManager::get_progress(&Some(text)),
        (3, 12, "A \"quoted\" show".to_string())
    );
    assert_eq!(
        ImportProgressManager::clear_progress(5),
        RedisCommand::Del { key: key("import_progress:5") }
    );
}

#[test]
fn updates_need_a_tracked_import() {
    assert_eq!(
        ImportProgressManager::update_progress(5, &None, 1, "x"),
        ProgressUpdate::Nothing
    );
    assert_eq!(
        ImportProgressManager::update_progress(5, &Some("{".to_string()), 1, "x"),
        ProgressUpdate::Nothing
    );
    assert_eq!(
        ImportProgressManager::update_progress(5, &Some("[1]".to_string()), 1, "x"),
        ProgressUpdate::NotAnObject
    );
    let update = ImportProgressManager::update_progress(5, &Some("null".to_string()), 1, "x");
    match update {
        ProgressUpdate::Store(RedisCommand::SetEx { value: RedisArg::Text(text), .. }) => {
            assert_eq!(
                ImportProgressManager::get_progress(&Some(text)),
                (1, 0, "x".to_string())
            );
        }
        other => panic!("unexpected update: {other:?}"),
    }
}

#[test]
fn members_kept_for_raw_values_are_not_read_back() {
    let name = pinepods_api::json::RAW_VALUE_KEY;
    // A second member of that name is one like any other.
    let stored = Some(format!("{{\"a\":1,\"current\":4,\"{name}\":\"word\"}}"));
    assert_eq!(ImportProgressManager::get_progress(&stored).0, 4);
    let text = match ImportProgressManager::update_progress(5, &stored, 6, "x") {
        ProgressUpdate::Store(RedisCommand::SetEx { value: RedisArg::Text(text), .. }) => text,
        other => panic!("unexpected update: {other:?}"),
    };
    // Members are written in order, so it comes first now, and its text is no document.
    assert!(text.starts_with(&format!("{{\"{name}\":\"word\"")));
    assert_eq!(
        ImportProgressManager::get_progress(&Some(text)),
        (0, 0, String::new())
    );
}

#[test]
fn unreadable_progress_counts_as_none() {
    let nothing = || (0, 0, String::new());
    assert_eq!(ImportProgressManager::get_progress(&None), nothing());
    assert_eq!(ImportProgressManager::get_progress(&Some("x".to_string())), nothing());
    assert_eq!(
        ImportProgressManager::get_progress(&Some("{\"current\":1.5,\"total\":\"7\"}".to_string())),
        nothing()
    );
    assert_eq!(
        ImportProgressManager::get_progress(&Some("{\"current\":4294967298}".to_string())),
        (2, 0, String::new())
    );
    assert_eq!(
        ImportProgressManager::progress_from(Some(-1), None, Some("p")),
        (-1, 0, "p".to_string())
    );
}
