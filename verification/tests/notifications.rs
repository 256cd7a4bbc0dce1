use pinepods_api::json::{JsonLeaf, JsonNode, JsonObject};
use pinepods_api::models::EpisodeNotificationInfo;
use pinepods_api::redis_manager::NotificationManager;
use pinepods_api::services::notifications::{
    accepted, build_http_payload, dispatch, dispatch_settings, episode_label, fits_header,
    http_payload, playback_finish_message, playback_progress_message, playback_start_message,
    send_gotify, send_http, send_ntfy, send_test, DispatchStep, Fanout, FanoutStep, HttpBody,
    HttpMethod, HttpRequest, NotificationCategory, NotificationEvent, PlaybackContext,
    EVENT_PLAYBACK_STARTED,
};
use serde_json::Value;

fn info() -> EpisodeNotificationInfo {
    EpisodeNotificationInfo {
        title: "Ep 1".to_string(),
        show_name: "Show".to_string(),
        duration: 3600,
        episode_id: 7,
        episode_description: Some("An episode".to_string()),
        episode_url: Some("https://example.com/1.mp3".to_string()),
        episode_artwork: Some("https://example.com/1.jpg".to_string()),
        episode_pub_date: Some("2026-01-02T03:04:05".to_string()),
        episode_guid: Some("guid-1".to_string()),
        is_video: false,
        is_youtube: false,
        podcast_id: 3,
        podcast_author: Some("Author".to_string()),
        podcast_artwork: Some("https://example.com/show.jpg".to_string()),
        podcast_feed_url: Some("https://example.com/feed.xml".to_string()),
        podcast_website_url: Some("https://example.com".to_string()),
        podcast_categories: Some("Tech".to_string()),
        podcast_explicit: Some(false),
    }
}

fn node<'a>(object: &'a JsonObject<f64>, key: &str) -> &'a JsonNode<f64> {
    let found: Vec<&JsonNode<f64>> = object
        .members
        .iter()
        .filter(|m| m.0 == key)
        .map(|m| &m.1)
        .collect();
    assert_eq!(found.len(), 1, "{key}");
    found[0]
}

fn leaf<'a>(object: &'a JsonObject<f64>, key: &str) -> &'a JsonLeaf<f64> {
    match node(object, key) {
        JsonNode::Leaf(leaf) => leaf,
        other => panic!("no plain value: {other:?}"),
    }
}

fn inner<'a>(object: &'a JsonObject<f64>, key: &str, member: &str) -> &'a JsonLeaf<f64> {
    match node(object, key) {
        JsonNode::Record(record) => {
            let found: Vec<&JsonLeaf<f64>> = record
                .members
                .iter()
                .filter(|m| m.0 == member)
                .map(|m| &m.1)
                .collect();
            assert_eq!(found.len(), 1, "{member}");
            found[0]
        }
        other => panic!("no record: {other:?}"),
    }
}

fn text(value: &str) -> JsonLeaf<f64> {
    JsonLeaf::Text(value.to_string())
}

fn bare<'a>() -> NotificationEvent<'a, f64> {
    NotificationEvent {
        category: NotificationCategory::Playback,
        kind: "test",
        title: "PinePods Test",
        message: "Test notification from PinePods",
        user_id: 2,
        episode: None,
        playback: None,
    }
}

fn settings(members: &[(&str, &str)]) -> Value {
    let mut document = serde_json::Map::new();
    for (key, value) in members {
        document.insert(key.to_string(), Value::from(*value));
    }
    Value::Object(document)
}

fn enabled(members: &[(&str, &str)], on: bool) -> Value {
    let mut document = settings(members);
    document["enabled"] = Value::from(on);
    document
}

fn headers(request: &HttpRequest<f64>) -> Vec<(&str, &str)> {
    request
        .headers
        .iter()
        .map(|h| (h.0.as_str(), h.1.as_str()))
        .collect()
}

#[test]
fn category_gating_matches_prefs() {
    assert!(NotificationCategory::NewContent.enabled_by(true, false));
    assert!(!NotificationCategory::NewContent.enabled_by(false, true));
    assert!(NotificationCategory::Playback.enabled_by(false, true));
    assert!(!NotificationCategory::Playback.enabled_by(true, false));
}

#[test]
fn start_message_includes_device_when_present() {
    let (_, message) = playback_start_message(&info(), Some("Pixel"));
    assert!(message.contains("Ep 1 from Show"));
    assert!(message.contains("Pixel"));

    let (_, message) = playback_start_message(&info(), None);
    assert!(!message.contains(" on "));
}

#[test]
fn progress_and_finish_messages() {
    let (_, message) = playback_progress_message(&info(), 50);
    assert!(message.contains("50%"));
    assert!(message.contains("Ep 1 from Show"));

    let (_, message) = playback_finish_message(&info());
    assert_eq!(message, "Finished Ep 1 from Show");
}

#[test]
fn http_payload_carries_full_metadata() {
    let info = info();
    let event = NotificationEvent {
        category: NotificationCategory::Playback,
        kind: EVENT_PLAYBACK_STARTED,
        title: "Playback Started",
        message: "Started playing Ep 1 from Show",
        user_id: 2,
        episode: Some(&info),
        playback: Some(PlaybackContext {
            position_sec: Some(30.0),
            percent: Some(0),
            device_name: Some("Pixel".to_string()),
        }),
    };

    let payload = build_http_payload(&event, "https://example.com/hook", "");
    assert_eq!(leaf(&payload, "event"), &text(EVENT_PLAYBACK_STARTED));
    assert_eq!(leaf(&payload, "user_id"), &JsonLeaf::Int(2));
    assert_eq!(inner(&payload, "podcast", "id"), &JsonLeaf::Int(3));
    assert_eq!(inner(&payload, "podcast", "name"), &text("Show"));
    assert_eq!(inner(&payload, "podcast", "author"), &text("Author"));
    assert_eq!(inner(&payload, "episode", "id"), &JsonLeaf::Int(7));
    assert_eq!(inner(&payload, "episode", "title"), &text("Ep 1"));
    assert_eq!(inner(&payload, "episode", "duration_sec"), &JsonLeaf::Int(3600));
    assert_eq!(inner(&payload, "episode", "guid"), &text("guid-1"));
    assert_eq!(inner(&payload, "playback", "position_sec"), &JsonLeaf::Number(30.0));
    assert_eq!(inner(&payload, "playback", "device_name"), &text("Pixel"));
    assert!(matches!(leaf(&payload, "timestamp"), JsonLeaf::Text(_)));

    // Events without an episode still produce the stable envelope.
    let payload = build_http_payload(&bare(), "https://example.com/hook", "");
    assert_eq!(leaf(&payload, "podcast"), &JsonLeaf::Null);
    assert_eq!(leaf(&payload, "episode"), &JsonLeaf::Null);
    assert_eq!(leaf(&payload, "playback"), &JsonLeaf::Null);

    // Telegram keeps its bot-API shape.
    let payload = build_http_payload(
        &bare(),
        "https://api.telegram.org/bot123/sendMessage",
        "bot123:chat456",
    );
    assert_eq!(leaf(&payload, "chat_id"), &text("chat456"));
    assert_eq!(leaf(&payload, "text"), &text("Test notification from PinePods"));
}

#[test]
fn labels_name_the_show_where_there_is_one() {
    let mut episode = info();
    assert_eq!(episode_label(&episode), "Ep 1 from Show");
    episode.show_name = String::new();
    assert_eq!(episode_label(&episode), "Ep 1");
    assert_eq!(
        playback_start_message(&episode, Some("  ")),
        (
            "Playback Started".to_string(),
            "Started playing Ep 1".to_string()
        )
    );
    assert_eq!(
        playback_start_message(&episode, Some(" TV ")).1,
        "Started playing Ep 1 on TV"
    );
    assert_eq!(
        playback_progress_message(&episode, 25),
        ("Playback Progress".to_string(), "25% through Ep 1".to_string())
    );
}

#[test]
fn envelopes_hold_what_is_given_in_order() {
    let mut episode = info();
    episode.podcast_explicit = None;
    episode.podcast_author = None;
    let mut event = bare();
    event.episode = Some(&episode);
    event.playback = Some(PlaybackContext::default());
    let payload = http_payload(&event, "https://example.com", "t", "now");
    let keys: Vec<&str> = payload.members.iter().map(|m| m.0.as_str()).collect();
    assert_eq!(
        keys,
        vec![
            "event", "title", "message", "text", "user_id", "timestamp", "podcast", "episode",
            "playback"
        ]
    );
    assert_eq!(leaf(&payload, "timestamp"), &text("now"));
    assert_eq!(leaf(&payload, "text"), leaf(&payload, "message"));
    assert_eq!(inner(&payload, "podcast", "explicit"), &JsonLeaf::Null);
    assert_eq!(inner(&payload, "podcast", "author"), &JsonLeaf::Null);
    assert_eq!(inner(&payload, "podcast", "is_youtube"), &JsonLeaf::Bool(false));
    assert_eq!(inner(&payload, "podcast", "feed_url"), &text("https://example.com/feed.xml"));
    assert_eq!(inner(&payload, "episode", "published_at"), &text("2026-01-02T03:04:05"));
    assert_eq!(inner(&payload, "episode", "is_video"), &JsonLeaf::Bool(false));
    assert_eq!(inner(&payload, "playback", "position_sec"), &JsonLeaf::Null);
    assert_eq!(inner(&payload, "playback", "percent"), &JsonLeaf::Null);
}

#[test]
fn timestamps_are_current() {
    let payload = build_http_payload(&bare(), "https://example.com", "");
    match leaf(&payload, "timestamp") {
        JsonLeaf::Text(stamp) => {
            assert!(stamp.ends_with("+00:00"));
            let marks: Vec<char> = [4, 7, 10, 13, 16]
                .iter()
                .map(|at| stamp.chars().nth(*at).unwrap())
                .collect();
            assert_eq!(marks, vec!['-', '-', 'T', ':', ':']);
            let time = chrono::DateTime::parse_from_rfc3339(stamp).unwrap();
            let age = chrono::Utc::now().timestamp() - time.timestamp();
            assert!((0..=15).contains(&age));
        }
        other => panic!("unexpected timestamp: {other:?}"),
    }
}

#[test]
fn telegram_without_a_chat() {
    let payload = build_http_payload(&bare(), "https://api.telegram.org/x", "token");
    assert_eq!(leaf(&payload, "chat_id"), &text("YOUR_CHAT_ID"));
    assert_eq!(payload.members.len(), 2);
}

#[test]
fn titles_that_fit_a_header() {
    assert!(fits_header("Playback Started ~\t!"));
    assert!(fits_header(""));
    assert!(!fits_header("Spiel läuft"));
    assert!(!fits_header("two\nlines"));
    assert!(!fits_header("\u{7f}"));
    assert!(!fits_header("日本"));
}

#[test]
fn ntfy_requests() {
    let request = send_ntfy(
        &settings(&[
            ("ntfy_topic", "pods"),
            ("ntfy_server_url", "https://n.example//"),
            ("ntfy_username", "u"),
            ("ntfy_password", "p"),
        ]),
        &bare(),
    )
    .unwrap();
    assert_eq!(request.method, HttpMethod::Post);
    assert_eq!(request.url, "https://n.example/pods");
    assert_eq!(
        headers(&request),
        vec![("Content-Type", "text/plain"), ("Title", "PinePods Test")]
    );
    assert_eq!(request.basic_auth, Some(("u".to_string(), "p".to_string())));
    assert_eq!(
        request.body,
        HttpBody::Text("Test notification from PinePods".to_string())
    );

    let mut event = bare();
    event.title = "Spiel läuft";
    let request = send_ntfy(
        &settings(&[
            ("ntfy_topic", "pods"),
            ("ntfy_username", "u"),
            ("ntfy_password", "p"),
            ("ntfy_access_token", "tk"),
        ]),
        &event,
    )
    .unwrap();
    assert_eq!(request.url, "https://ntfy.sh/pods");
    assert_eq!(
        headers(&request),
        vec![("Content-Type", "text/plain"), ("Authorization", "Bearer tk")]
    );
    assert_eq!(request.basic_auth, None);

    // One of the two alone does not authenticate, and an empty token is none.
    let request = send_ntfy(
        &settings(&[
            ("ntfy_topic", "pods"),
            ("ntfy_username", "u"),
            ("ntfy_password", ""),
            ("ntfy_access_token", ""),
        ]),
        &bare(),
    )
    .unwrap();
    assert_eq!(request.basic_auth, None);
    assert_eq!(headers(&request).len(), 2);

    assert_eq!(send_ntfy(&settings(&[("ntfy_topic", "")]), &bare()), None);
    assert_eq!(send_ntfy(&settings(&[]), &bare()), None);
    assert_eq!(send_ntfy(&Value::Null, &bare()), None);
}

#[test]
fn members_of_other_types_count_as_missing() {
    let mut document = settings(&[]);
    document["ntfy_topic"] = Value::from(5);
    assert_eq!(send_ntfy(&document, &bare()), None);
}

#[test]
fn gotify_requests() {
    let request = send_gotify(
        &settings(&[("gotify_url", "https://g.example/"), ("gotify_token", "tk")]),
        &bare(),
    )
    .unwrap();
    assert_eq!(request.method, HttpMethod::Post);
    assert_eq!(request.url, "https://g.example/message?token=tk");
    assert_eq!(headers(&request), vec![("Content-Type", "application/json")]);
    match &request.body {
        HttpBody::Json(body) => {
            assert_eq!(body.members.len(), 3);
            assert_eq!(leaf(body, "message"), &text("Test notification from PinePods"));
            assert_eq!(leaf(body, "title"), &text("PinePods Test"));
            assert_eq!(leaf(body, "priority"), &JsonLeaf::Int(5));
        }
        other => panic!("unexpected body: {other:?}"),
    }
    assert_eq!(
        send_gotify(&settings(&[("gotify_url", "https://g.example")]), &bare()),
        None
    );
    assert_eq!(
        send_gotify(&settings(&[("gotify_url", ""), ("gotify_token", "tk")]), &bare()),
        None
    );
}

#[test]
fn webhooks_by_get() {
    let episode = info();
    let mut event = bare();
    event.message = "50% of a & b, é";
    event.episode = Some(&episode);
    let request = send_http(
        &settings(&[
            ("http_url", "https://h.example/x?y=1"),
            ("http_method", "get"),
            ("http_token", "tk"),
        ]),
        &event,
    )
    .unwrap();
    assert_eq!(request.method, HttpMethod::Get);
    assert_eq!(
        request.url,
        "https://h.example/x?y=1&message=50%25%20of%20a%20%26%20b%2C%20%C3%A9&event=test&episode_id=7&podcast_id=3"
    );
    assert_eq!(headers(&request), vec![("Authorization", "Bearer tk")]);
    assert_eq!(request.body, HttpBody::Empty);

    event.episode = None;
    let request = send_http(
        &settings(&[("http_url", "https://h.example"), ("http_method", "GET")]),
        &event,
    )
    .unwrap();
    assert!(request.url.starts_with("https://h.example?message=50%25"));
    assert!(request.url.ends_with("&event=test"));
    assert_eq!(headers(&request), vec![]);
}

#[test]
fn webhooks_by_post() {
    for method in ["POST", "put", ""] {
        let request = send_http(
            &settings(&[
                ("http_url", "https://h.example"),
                ("http_method", method),
                ("http_token", "tk"),
            ]),
            &bare(),
        )
        .unwrap();
        assert_eq!(request.method, HttpMethod::Post);
        assert_eq!(request.url, "https://h.example");
        assert_eq!(
            headers(&request),
            vec![
                ("Content-Type", "application/json"),
                ("Authorization", "Bearer tk")
            ]
        );
        assert!(matches!(&request.body, HttpBody::Json(body) if body.members.len() == 9));
    }
    assert_eq!(send_http(&settings(&[("http_url", "")]), &bare()), None);
}

#[test]
fn telegram_tokens_stay_out_of_the_headers() {
    let request = send_http(
        &settings(&[
            ("http_url", "https://api.telegram.org/bot1/sendMessage"),
            ("http_token", "bot1:chat"),
        ]),
        &bare(),
    )
    .unwrap();
    assert_eq!(headers(&request), vec![("Content-Type", "application/json")]);
}

#[test]
fn statuses_of_success() {
    assert!(accepted(Some(200)));
    assert!(accepted(Some(299)));
    assert!(!accepted(Some(199)));
    assert!(!accepted(Some(300)));
    assert!(!accepted(Some(503)));
    assert!(!accepted(None));
}

#[test]
fn tests_go_to_the_platform_that_was_picked() {
    let document = settings(&[("gotify_url", "https://g.example"), ("gotify_token", "tk")]);
    let request: HttpRequest<f64> =
        NotificationManager::new().send_test_notification(2, "gotify", &document).unwrap();
    match &request.body {
        HttpBody::Json(body) => {
            assert_eq!(leaf(body, "message"), &text("Test notification from PinePods"));
            assert_eq!(leaf(body, "title"), &text("PinePods Test"));
        }
        other => panic!("unexpected body: {other:?}"),
    }
    assert!(send_test::<f64>(2, "ntfy", &document, "m").is_none());
    assert!(send_test::<f64>(2, "pigeon", &document, "m").is_none());
    // Nothing is gated: the platform need not be enabled.
    assert!(send_test::<f64>(2, "gotify", &document, "m").is_some());
}

#[test]
fn categories_gate_dispatch() {
    let step = dispatch::<&str>(NotificationCategory::Playback, Ok((true, false)));
    assert!(matches!(step, DispatchStep::Done(Ok(false))));
    let step = dispatch::<&str>(NotificationCategory::NewContent, Ok((true, false)));
    assert!(matches!(step, DispatchStep::LoadSettings));
    let step = dispatch(NotificationCategory::Playback, Err("down"));
    assert!(matches!(step, DispatchStep::Done(Err("down"))));
    assert!(matches!(
        dispatch_settings::<&str>(Ok(vec![])),
        FanoutStep::Done(Ok(false))
    ));
    assert!(matches!(
        dispatch_settings(Err("down")),
        FanoutStep::Done(Err("down"))
    ));
}

#[test]
fn events_reach_every_enabled_platform() {
    let platforms = vec![
        enabled(&[("platform", "ntfy"), ("ntfy_topic", "off")], false),
        enabled(&[("platform", "ntfy"), ("ntfy_topic", "a")], true),
        enabled(&[("platform", "pigeon"), ("ntfy_topic", "b")], true),
        enabled(&[("platform", "http")], true),
        enabled(
            &[("platform", "gotify"), ("gotify_url", "https://g"), ("gotify_token", "t")],
            true,
        ),
        settings(&[("platform", "ntfy"), ("ntfy_topic", "c")]),
        enabled(&[("ntfy_topic", "d")], true),
    ];
    let mut fanout = match dispatch_settings::<&str>(Ok(platforms)) {
        FanoutStep::Send(fanout) => fanout,
        FanoutStep::Done(outcome) => panic!("unexpected outcome: {outcome:?}"),
    };
    assert!(!fanout.delivered());
    let request = fanout.next(&bare()).unwrap();
    assert_eq!(request.url, "https://ntfy.sh/a");
    fanout.answer(Some(500));
    assert!(!fanout.delivered());
    let request = fanout.next(&bare()).unwrap();
    assert_eq!(request.url, "https://g/message?token=t");
    fanout.answer(Some(200));
    assert!(fanout.next(&bare()).is_none());
    assert!(fanout.delivered());
}

#[test]
fn a_failure_does_not_take_a_delivery_back() {
    let platform = || enabled(&[("platform", "ntfy"), ("ntfy_topic", "a")], true);
    let mut fanout = Fanout::new(vec![platform(), platform()]);
    assert!(fanout.next(&bare()).is_some());
    fanout.answer(Some(204));
    assert!(fanout.next(&bare()).is_some());
    fanout.answer(None);
    assert!(fanout.next(&bare()).is_none());
    assert!(fanout.delivered());
}
