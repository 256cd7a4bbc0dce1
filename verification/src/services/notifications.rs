//! Outbound notifications: ntfy, Gotify, and generic HTTP webhooks.
//!
//! A real event goes to every platform that the user has enabled, once the user's
//! preferences for its category let it through. A test notification goes to one
//! platform that the user picked. Delivery is best effort: a platform that fails
//! never fails what triggered the notification.

use crate::json::{
    bool_member, bool_or_null, has_none, has_only, int_or_null, json_contents, number_or_null,
    str_member,
    text_or_null, JsonLeaf, JsonModel, JsonNode, JsonObject, JsonRecord, LeafView, NodeView,
};
use crate::models::EpisodeNotificationInfo;
use crate::text::{
    contains, cut_end, decimal, has_part, in_upper_case, int_decimal, same, second_part,
    second_segment, trim, trim_end, trimmed, uppercase, CharClass,
};
use vstd::prelude::*;
use vstd::string::*;
use vstd::utf8::*;

verus! {

/// How long one platform may take to answer, in seconds.
pub const NOTIFICATION_TIMEOUT_SECS: u64 = 2;

/// The kinds of events, as webhooks receive them.
pub const EVENT_NEW_CONTENT: &'static str = "new_content";

pub const EVENT_PLAYBACK_STARTED: &'static str = "playback_started";

pub const EVENT_PLAYBACK_PROGRESS: &'static str = "playback_progress";

pub const EVENT_PLAYBACK_FINISHED: &'static str = "playback_finished";

/// The category of a real notification, which the user's preferences switch on and
/// off.
#[derive(Debug, Clone, Copy, PartialEq, Eq, Structural)]
pub enum NotificationCategory {
    /// A new episode arrived for a subscribed podcast.
    NewContent,
    /// The user's own playback started, reached a milestone, or finished.
    Playback,
}

impl NotificationCategory {
    /// Whether the user's preferences let the category through.
    pub fn enabled_by(self, notify_new_content: bool, notify_playback: bool) -> (r: bool)
        ensures
            r == (match self {
                NotificationCategory::NewContent => notify_new_content,
                NotificationCategory::Playback => notify_playback,
            }),
    {
        match self {
            NotificationCategory::NewContent => notify_new_content,
            NotificationCategory::Playback => notify_playback,
        }
    }
}

/// What a playback event adds for webhooks. The position is a floating-point
/// number of seconds, carried as an `N`.
#[derive(Debug, PartialEq)]
pub struct PlaybackContext<N> {
    pub position_sec: Option<N>,
    pub percent: Option<i32>,
    pub device_name: Option<String>,
}

impl<N> Default for PlaybackContext<N> {
    fn default() -> (r: Self)
        ensures
            r == (PlaybackContext::<N> { position_sec: None, percent: None, device_name: None }),
    {
        PlaybackContext { position_sec: None, percent: None, device_name: None }
    }
}

impl<N: Copy> Clone for PlaybackContext<N> {
    fn clone(&self) -> (r: Self)
        ensures
            r == *self,
    {
        PlaybackContext {
            position_sec: self.position_sec,
            percent: self.percent,
            device_name: self.device_name.clone(),
        }
    }
}

/// A notification to send. `episode` is missing where the event has none, as the
/// test notification of the settings page.
pub struct NotificationEvent<'a, N> {
    pub category: NotificationCategory,
    pub kind: &'a str,
    pub title: &'a str,
    pub message: &'a str,
    pub user_id: i32,
    pub episode: Option<&'a EpisodeNotificationInfo>,
    pub playback: Option<PlaybackContext<N>>,
}

// ------------------------------------------------------------------
// Messages
// ------------------------------------------------------------------

/// An episode as it is named in a message.
pub open spec fn label(info: EpisodeNotificationInfo) -> Seq<char> {
    if info.show_name@.len() == 0 {
        info.title@
    } else {
        info.title@ + " from "@ + info.show_name@
    }
}

/// The message of a playback start: the device is named where its name is not
/// blank.
pub open spec fn start_message(
    info: EpisodeNotificationInfo,
    device_name: Option<Seq<char>>,
) -> Seq<char> {
    let device = match device_name {
        Some(name) => trimmed(name),
        None => Seq::empty(),
    };
    if device.len() == 0 {
        "Started playing "@ + label(info)
    } else {
        "Started playing "@ + label(info) + " on "@ + device
    }
}

/// An optional string slice as an optional character sequence.
pub open spec fn opt_chars(s: Option<&str>) -> Option<Seq<char>> {
    match s {
        Some(s) => Some(s@),
        None => None,
    }
}

/// Names an episode: "Episode Title from Podcast Name".
pub fn episode_label(info: &EpisodeNotificationInfo) -> (r: String)
    ensures
        r@ == label(*info),
{
    if info.show_name.as_str().is_empty() {
        info.title.clone()
    } else {
        info.title.clone().concat(" from ").concat(info.show_name.as_str())
    }
}

/// Title and message for a playback that started.
pub fn playback_start_message(info: &EpisodeNotificationInfo, device_name: Option<&str>) -> (r: (
    String,
    String,
))
    ensures
        r.0@ == "Playback Started"@,
        r.1@ == start_message(*info, opt_chars(device_name)),
{
    let started = "Started playing ".to_owned().concat(episode_label(info).as_str());
    let message = match device_name {
        Some(name) => {
            let device = trim(name);
            if device.is_empty() {
                started
            } else {
                started.concat(" on ").concat(device)
            }
        },
        None => started,
    };
    ("Playback Started".to_owned(), message)
}

/// Title and message for a playback that reached a milestone.
pub fn playback_progress_message(info: &EpisodeNotificationInfo, percent: i32) -> (r: (
    String,
    String,
))
    ensures
        r.0@ == "Playback Progress"@,
        r.1@ == int_decimal(percent as int) + "% through "@ + label(*info),
{
    (
        "Playback Progress".to_owned(),
        decimal(percent).concat("% through ").concat(episode_label(info).as_str()),
    )
}

/// Title and message for a playback that finished.
pub fn playback_finish_message(info: &EpisodeNotificationInfo) -> (r: (String, String))
    ensures
        r.0@ == "Playback Finished"@,
        r.1@ == "Finished "@ + label(*info),
{
    (
        "Playback Finished".to_owned(),
        "Finished ".to_owned().concat(episode_label(info).as_str()),
    )
}

// ------------------------------------------------------------------
// Requests
// ------------------------------------------------------------------

#[derive(Debug, Clone, Copy, PartialEq, Eq)]
pub enum HttpMethod {
    Get,
    Post,
}

#[derive(Debug, PartialEq)]
pub enum HttpBody<N> {
    Empty,
    Text(String),
    Json(JsonObject<N>),
}

/// An HTTP request that delivers a notification.
#[derive(Debug, PartialEq)]
pub struct HttpRequest<N> {
    pub method: HttpMethod,
    pub url: String,
    pub headers: Vec<(String, String)>,
    /// User name and password for basic authentication.
    pub basic_auth: Option<(String, String)>,
    pub body: HttpBody<N>,
}

/// `HttpBody` with its strings as character sequences.
pub enum BodyView<N> {
    Empty,
    Text(Seq<char>),
    Json(Seq<(Seq<char>, NodeView<N>)>),
}

/// `HttpRequest` with its strings as character sequences.
pub struct RequestView<N> {
    pub method: HttpMethod,
    pub url: Seq<char>,
    pub headers: Seq<(Seq<char>, Seq<char>)>,
    pub basic_auth: Option<(Seq<char>, Seq<char>)>,
    pub body: BodyView<N>,
}

pub open spec fn headers_view(headers: Seq<(String, String)>) -> Seq<(Seq<char>, Seq<char>)> {
    headers.map_values(|h: (String, String)| (h.0@, h.1@))
}

impl<N> View for HttpBody<N> {
    type V = BodyView<N>;

    open spec fn view(&self) -> BodyView<N> {
        match *self {
            HttpBody::Empty => BodyView::Empty,
            HttpBody::Text(text) => BodyView::Text(text@),
            HttpBody::Json(object) => BodyView::Json(object@),
        }
    }
}

impl<N> View for HttpRequest<N> {
    type V = RequestView<N>;

    open spec fn view(&self) -> RequestView<N> {
        RequestView {
            method: self.method,
            url: self.url@,
            headers: headers_view(self.headers@),
            basic_auth: match self.basic_auth {
                Some(pair) => Some((pair.0@, pair.1@)),
                None => None,
            },
            body: self.body@,
        }
    }
}

/// An optional request, with its strings as character sequences.
pub open spec fn opt_request<N>(request: Option<HttpRequest<N>>) -> Option<RequestView<N>> {
    match request {
        Some(request) => Some(request@),
        None => None,
    }
}

fn push_header(headers: &mut Vec<(String, String)>, name: &str, value: &str)
    ensures
        headers_view(final(headers)@) == headers_view(old(headers)@).push((name@, value@)),
{
    let ghost before = headers_view(headers@);
    headers.push((name.to_owned(), value.to_owned()));
    assert(headers_view(headers@) == before.push((name@, value@)));
}

/// Every character is a tab or a printable character of ASCII.
pub open spec fn is_printable(s: Seq<char>) -> bool {
    forall|i: int| 0 <= i < s.len() ==> (#[trigger] s[i] == '\t' || ' ' <= s[i] <= '~')
}

/// Calls `reqwest::header::HeaderValue::from_str`. Claimed: it accepts a string
/// unless one of its characters is a control character of ASCII other than the
/// tab.
#[verifier::external_body]
fn is_header_value(text: &str) -> (r: bool)
    ensures
        r == forall|i: int|
            0 <= i < text@.len() ==> (#[trigger] text@[i] == '\t' || (text@[i] >= ' ' && text@[i]
                != '\u{7f}')),
{
    reqwest::header::HeaderValue::from_str(text).is_ok()
}

/// Whether a title can go into a header: one with characters beyond ASCII would
/// not be a valid header value.
pub fn fits_header(title: &str) -> (r: bool)
    ensures
        r == is_printable(title@),
{
    let ascii = title.is_ascii();
    let valid = is_header_value(title);
    proof {
        if is_printable(title@) {
            assert forall|i: int| 0 <= i < title@.len() implies (title@[i] as u32) < 128 by {}
        } else {
            let i = choose|i: int|
                0 <= i < title@.len() && !(#[trigger] title@[i] == '\t' || ' ' <= title@[i] <= '~');
        }
    }
    ascii && valid
}

fn or_else<'a>(value: Option<&'a str>, default: &'a str) -> (r: &'a str)
    ensures
        r@ == chars_or(opt_chars(value), default@),
{
    match value {
        Some(value) => value,
        None => default,
    }
}

/// The value, or the default where there is none.
pub open spec fn chars_or(value: Option<Seq<char>>, default: Seq<char>) -> Seq<char> {
    match value {
        Some(value) => value,
        None => default,
    }
}

/// The value, where there is one that is not empty.
pub open spec fn filled(value: Option<Seq<char>>) -> Option<Seq<char>> {
    match value {
        Some(value) => if value.len() > 0 {
            Some(value)
        } else {
            None
        },
        None => None,
    }
}

fn if_filled<'a>(value: Option<&'a str>) -> (r: Option<&'a str>)
    ensures
        opt_chars(r) == filled(opt_chars(value)),
{
    match value {
        Some(value) => if value.is_empty() {
            None
        } else {
            Some(value)
        },
        None => None,
    }
}

// ----- ntfy -----

/// A user's settings for ntfy.
pub struct NtfySettings<'a> {
    pub topic: Option<&'a str>,
    pub server_url: Option<&'a str>,
    pub username: Option<&'a str>,
    pub password: Option<&'a str>,
    pub access_token: Option<&'a str>,
}

/// `NtfySettings` with its strings as character sequences.
pub struct NtfyView {
    pub topic: Option<Seq<char>>,
    pub server_url: Option<Seq<char>>,
    pub username: Option<Seq<char>>,
    pub password: Option<Seq<char>>,
    pub access_token: Option<Seq<char>>,
}

impl<'a> View for NtfySettings<'a> {
    type V = NtfyView;

    open spec fn view(&self) -> NtfyView {
        NtfyView {
            topic: opt_chars(self.topic),
            server_url: opt_chars(self.server_url),
            username: opt_chars(self.username),
            password: opt_chars(self.password),
            access_token: opt_chars(self.access_token),
        }
    }
}

/// The user name and password to authenticate with at ntfy: both have to be
/// given, and an access token goes first.
pub open spec fn ntfy_basic_auth(settings: NtfyView) -> Option<(Seq<char>, Seq<char>)> {
    match (filled(settings.access_token), filled(settings.username), filled(settings.password)) {
        (None, Some(username), Some(password)) => Some((username, password)),
        _ => None,
    }
}

/// The headers of a message to ntfy.
pub open spec fn ntfy_headers(settings: NtfyView, title: Seq<char>) -> Seq<
    (Seq<char>, Seq<char>),
> {
    seq![("Content-Type"@, "text/plain"@)] + if is_printable(title) {
        seq![("Title"@, title)]
    } else {
        seq![]
    } + match filled(settings.access_token) {
        Some(token) => seq![("Authorization"@, "Bearer "@ + token)],
        None => seq![],
    }
}

/// The request that posts a message to a topic of ntfy: none without a topic.
pub open spec fn ntfy_delivery<N>(
    settings: NtfyView,
    title: Seq<char>,
    message: Seq<char>,
) -> Option<RequestView<N>> {
    match filled(settings.topic) {
        None => None,
        Some(topic) => Some(
            RequestView {
                method: HttpMethod::Post,
                url: cut_end(
                    chars_or(settings.server_url, "https://ntfy.sh"@),
                    CharClass::Slash,
                ) + "/"@ + topic,
                headers: ntfy_headers(settings, title),
                basic_auth: ntfy_basic_auth(settings),
                body: BodyView::Text(message),
            },
        ),
    }
}

/// Builds the request to ntfy: the message as plain text, the title in a header
/// where it fits into one.
pub fn ntfy_request<N>(settings: &NtfySettings<'_>, event: &NotificationEvent<'_, N>) -> (r: Option<
    HttpRequest<N>,
>)
    ensures
        opt_request(r) == ntfy_delivery::<N>(settings@, event.title@, event.message@),
{
    let topic = match if_filled(settings.topic) {
        Some(topic) => topic,
        None => return None,
    };
    let server_url = or_else(settings.server_url, "https://ntfy.sh");
    let url = trim_end(server_url, CharClass::Slash).to_owned().concat("/").concat(topic);
    let mut headers: Vec<(String, String)> = Vec::new();
    let ghost empty = headers_view(headers@);
    assert(empty == Seq::<(Seq<char>, Seq<char>)>::empty());
    push_header(&mut headers, "Content-Type", "text/plain");
    if fits_header(event.title) {
        push_header(&mut headers, "Title", event.title);
    }
    let mut basic_auth: Option<(String, String)> = None;
    match if_filled(settings.access_token) {
        Some(token) => {
            let bearer = "Bearer ".to_owned().concat(token);
            push_header(&mut headers, "Authorization", bearer.as_str());
        },
        None => {
            match (if_filled(settings.username), if_filled(settings.password)) {
                (Some(username), Some(password)) => {
                    basic_auth = Some((username.to_owned(), password.to_owned()));
                },
                _ => {},
            }
        },
    }
    assert(headers_view(headers@) == ntfy_headers(settings@, event.title@));
    Some(
        HttpRequest {
            method: HttpMethod::Post,
            url,
            headers,
            basic_auth,
            body: HttpBody::Text(event.message.to_owned()),
        },
    )
}

/// The settings for ntfy in a settings document.
pub open spec fn ntfy_in(document: JsonModel) -> NtfyView {
    NtfyView {
        topic: document.str_at("ntfy_topic"@),
        server_url: document.str_at("ntfy_server_url"@),
        username: document.str_at("ntfy_username"@),
        password: document.str_at("ntfy_password"@),
        access_token: document.str_at("ntfy_access_token"@),
    }
}

/// The request to ntfy that a settings document asks for. A member that is no
/// string counts as missing.
pub fn send_ntfy<N>(settings: &serde_json::Value, event: &NotificationEvent<'_, N>) -> (r: Option<
    HttpRequest<N>,
>)
    ensures
        opt_request(r) == ntfy_delivery::<N>(
            ntfy_in(json_contents(*settings)),
            event.title@,
            event.message@,
        ),
{
    let ntfy = NtfySettings {
        topic: str_member(settings, "ntfy_topic"),
        server_url: str_member(settings, "ntfy_server_url"),
        username: str_member(settings, "ntfy_username"),
        password: str_member(settings, "ntfy_password"),
        access_token: str_member(settings, "ntfy_access_token"),
    };
    proof {
        let document = json_contents(*settings);
        assert(ntfy@.topic == document.str_at("ntfy_topic"@));
        assert(ntfy@.server_url == document.str_at("ntfy_server_url"@));
        assert(ntfy@.username == document.str_at("ntfy_username"@));
        assert(ntfy@.password == document.str_at("ntfy_password"@));
        assert(ntfy@.access_token == document.str_at("ntfy_access_token"@));
        assert(ntfy@ == ntfy_in(document));
    }
    ntfy_request(&ntfy, event)
}

// ----- Gotify -----

/// The request that posts a message to Gotify: none without a server and a token.
pub open spec fn gotify_delivery<N>(
    server_url: Option<Seq<char>>,
    token: Option<Seq<char>>,
    title: Seq<char>,
    message: Seq<char>,
) -> Option<RequestView<N>> {
    match (filled(server_url), filled(token)) {
        (Some(server_url), Some(token)) => Some(
            RequestView {
                method: HttpMethod::Post,
                url: cut_end(server_url, CharClass::Slash) + "/message?token="@ + token,
                headers: seq![("Content-Type"@, "application/json"@)],
                basic_auth: None,
                body: BodyView::Json(
                    seq![
                        ("message"@, NodeView::Leaf(LeafView::Text(message))),
                        ("title"@, NodeView::Leaf(LeafView::Text(title))),
                        ("priority"@, NodeView::Leaf(LeafView::Int(5))),
                    ],
                ),
            },
        ),
        _ => None,
    }
}

fn json_headers() -> (r: Vec<(String, String)>)
    ensures
        headers_view(r@) == seq![("Content-Type"@, "application/json"@)],
{
    let mut headers: Vec<(String, String)> = Vec::new();
    push_header(&mut headers, "Content-Type", "application/json");
    assert(headers_view(headers@) == seq![("Content-Type"@, "application/json"@)]);
    headers
}

/// Builds the request to Gotify: title, message and priority as JSON.
pub fn gotify_request<N>(
    server_url: Option<&str>,
    token: Option<&str>,
    event: &NotificationEvent<'_, N>,
) -> (r: Option<HttpRequest<N>>)
    ensures
        opt_request(r) == gotify_delivery::<N>(
            opt_chars(server_url),
            opt_chars(token),
            event.title@,
            event.message@,
        ),
{
    match (if_filled(server_url), if_filled(token)) {
        (Some(server), Some(key)) => {
            let mut body: JsonObject<N> = JsonObject::new();
            body.put("message", JsonNode::Leaf(JsonLeaf::text(event.message)));
            body.put("title", JsonNode::Leaf(JsonLeaf::text(event.title)));
            body.put("priority", JsonNode::Leaf(JsonLeaf::Int(5)));
            let request = HttpRequest {
                method: HttpMethod::Post,
                url: trim_end(server, CharClass::Slash).to_owned().concat("/message?token=").concat(
                    key,
                ),
                headers: json_headers(),
                basic_auth: None,
                body: HttpBody::Json(body),
            };
            proof {
                let want = gotify_delivery::<N>(
                    opt_chars(server_url),
                    opt_chars(token),
                    event.title@,
                    event.message@,
                )->0;
                assert(body@ == want.body->Json_0);
                assert(request@ == want);
            }
            Some(request)
        },
        _ => None,
    }
}

/// The request to Gotify that a settings document asks for.
pub fn send_gotify<N>(settings: &serde_json::Value, event: &NotificationEvent<'_, N>) -> (r: Option<
    HttpRequest<N>,
>)
    ensures
        opt_request(r) == gotify_delivery::<N>(
            json_contents(*settings).str_at("gotify_url"@),
            json_contents(*settings).str_at("gotify_token"@),
            event.title@,
            event.message@,
        ),
{
    let server_url = str_member(settings, "gotify_url");
    let token = str_member(settings, "gotify_token");
    assert(opt_chars(server_url) == json_contents(*settings).str_at("gotify_url"@));
    assert(opt_chars(token) == json_contents(*settings).str_at("gotify_token"@));
    gotify_request(server_url, token, event)
}

// ----- HTTP webhooks -----

/// The webhook is a Telegram bot.
pub open spec fn is_telegram(http_url: Seq<char>) -> bool {
    has_part(http_url, "api.telegram.org"@)
}

/// The podcast of an episode, as webhooks receive it.
pub open spec fn podcast_record<N>(info: EpisodeNotificationInfo) -> Seq<
    (Seq<char>, LeafView<N>),
> {
    seq![
        ("id"@, LeafView::Int(info.podcast_id)),
        ("name"@, LeafView::Text(info.show_name@)),
        ("author"@, text_or_null(info.podcast_author)),
        ("artwork_url"@, text_or_null(info.podcast_artwork)),
        ("feed_url"@, text_or_null(info.podcast_feed_url)),
        ("website_url"@, text_or_null(info.podcast_website_url)),
        ("categories"@, text_or_null(info.podcast_categories)),
        ("explicit"@, bool_or_null(info.podcast_explicit)),
        ("is_youtube"@, LeafView::Bool(info.is_youtube)),
    ]
}

/// An episode, as webhooks receive it.
pub open spec fn episode_record<N>(info: EpisodeNotificationInfo) -> Seq<
    (Seq<char>, LeafView<N>),
> {
    seq![
        ("id"@, LeafView::Int(info.episode_id)),
        ("title"@, LeafView::Text(info.title@)),
        ("description"@, text_or_null(info.episode_description)),
        ("url"@, text_or_null(info.episode_url)),
        ("artwork_url"@, text_or_null(info.episode_artwork)),
        ("duration_sec"@, LeafView::Int(info.duration)),
        ("published_at"@, text_or_null(info.episode_pub_date)),
        ("guid"@, text_or_null(info.episode_guid)),
        ("is_video"@, LeafView::Bool(info.is_video)),
        ("is_youtube"@, LeafView::Bool(info.is_youtube)),
    ]
}

/// The circumstances of a playback, as webhooks receive them.
pub open spec fn playback_record<N>(playback: PlaybackContext<N>) -> Seq<
    (Seq<char>, LeafView<N>),
> {
    seq![
        ("position_sec"@, number_or_null(playback.position_sec)),
        ("percent"@, int_or_null(playback.percent)),
        ("device_name"@, text_or_null(playback.device_name)),
    ]
}

/// The document that is posted to a webhook: the shape of its bot API for
/// Telegram, and one stable envelope for everything else, in which what the event
/// does not have is `null`.
pub open spec fn payload<N>(
    event: NotificationEvent<'_, N>,
    http_url: Seq<char>,
    http_token: Seq<char>,
    timestamp: Seq<char>,
) -> Seq<(Seq<char>, NodeView<N>)> {
    if is_telegram(http_url) {
        seq![
            (
                "chat_id"@,
                NodeView::Leaf(
                    LeafView::Text(chars_or(second_part(http_token, ':'), "YOUR_CHAT_ID"@)),
                ),
            ),
            ("text"@, NodeView::Leaf(LeafView::Text(event.message@))),
        ]
    } else {
        seq![
            ("event"@, NodeView::Leaf(LeafView::Text(event.kind@))),
            ("title"@, NodeView::Leaf(LeafView::Text(event.title@))),
            ("message"@, NodeView::Leaf(LeafView::Text(event.message@))),
            ("text"@, NodeView::Leaf(LeafView::Text(event.message@))),
            ("user_id"@, NodeView::Leaf(LeafView::Int(event.user_id))),
            ("timestamp"@, NodeView::Leaf(LeafView::Text(timestamp))),
            (
                "podcast"@,
                match event.episode {
                    Some(info) => NodeView::Record(podcast_record(*info)),
                    None => NodeView::Leaf(LeafView::Null),
                },
            ),
            (
                "episode"@,
                match event.episode {
                    Some(info) => NodeView::Record(episode_record(*info)),
                    None => NodeView::Leaf(LeafView::Null),
                },
            ),
            (
                "playback"@,
                match event.playback {
                    Some(playback) => NodeView::Record(playback_record(playback)),
                    None => NodeView::Leaf(LeafView::Null),
                },
            ),
        ]
    }
}

fn podcast_json<N>(info: &EpisodeNotificationInfo) -> (r: JsonRecord<N>)
    ensures
        r@ == podcast_record::<N>(*info),
{
    let mut r: JsonRecord<N> = JsonRecord::new();
    r.put("id", JsonLeaf::Int(info.podcast_id));
    r.put("name", JsonLeaf::text(info.show_name.as_str()));
    r.put("author", JsonLeaf::opt_text(&info.podcast_author));
    r.put("artwork_url", JsonLeaf::opt_text(&info.podcast_artwork));
    r.put("feed_url", JsonLeaf::opt_text(&info.podcast_feed_url));
    r.put("website_url", JsonLeaf::opt_text(&info.podcast_website_url));
    r.put("categories", JsonLeaf::opt_text(&info.podcast_categories));
    r.put("explicit", JsonLeaf::opt_bool(info.podcast_explicit));
    r.put("is_youtube", JsonLeaf::Bool(info.is_youtube));
    r
}

fn episode_json<N>(info: &EpisodeNotificationInfo) -> (r: JsonRecord<N>)
    ensures
        r@ == episode_record::<N>(*info),
{
    let mut r: JsonRecord<N> = JsonRecord::new();
    r.put("id", JsonLeaf::Int(info.episode_id));
    r.put("title", JsonLeaf::text(info.title.as_str()));
    r.put("description", JsonLeaf::opt_text(&info.episode_description));
    r.put("url", JsonLeaf::opt_text(&info.episode_url));
    r.put("artwork_url", JsonLeaf::opt_text(&info.episode_artwork));
    r.put("duration_sec", JsonLeaf::Int(info.duration));
    r.put("published_at", JsonLeaf::opt_text(&info.episode_pub_date));
    r.put("guid", JsonLeaf::opt_text(&info.episode_guid));
    r.put("is_video", JsonLeaf::Bool(info.is_video));
    r.put("is_youtube", JsonLeaf::Bool(info.is_youtube));
    r
}

fn playback_json<N: Copy>(playback: &PlaybackContext<N>) -> (r: JsonRecord<N>)
    ensures
        r@ == playback_record::<N>(*playback),
{
    let mut r: JsonRecord<N> = JsonRecord::new();
    r.put("position_sec", JsonLeaf::opt_number(playback.position_sec));
    r.put("percent", JsonLeaf::opt_int(playback.percent));
    r.put("device_name", JsonLeaf::opt_text(&playback.device_name));
    r
}

/// Builds the document that is posted to a webhook, with the time given.
pub fn http_payload<N: Copy>(
    event: &NotificationEvent<'_, N>,
    http_url: &str,
    http_token: &str,
    timestamp: &str,
) -> (r: JsonObject<N>)
    ensures
        r@ == payload(*event, http_url@, http_token@, timestamp@),
{
    let mut r: JsonObject<N> = JsonObject::new();
    if contains(http_url, "api.telegram.org") {
        let chat_id = match second_segment(http_token, ':') {
            Some(chat_id) => chat_id,
            None => "YOUR_CHAT_ID",
        };
        r.put("chat_id", JsonNode::Leaf(JsonLeaf::text(chat_id)));
        r.put("text", JsonNode::Leaf(JsonLeaf::text(event.message)));
        return r;
    }
    r.put("event", JsonNode::Leaf(JsonLeaf::text(event.kind)));
    r.put("title", JsonNode::Leaf(JsonLeaf::text(event.title)));
    r.put("message", JsonNode::Leaf(JsonLeaf::text(event.message)));
    r.put("text", JsonNode::Leaf(JsonLeaf::text(event.message)));
    r.put("user_id", JsonNode::Leaf(JsonLeaf::Int(event.user_id)));
    r.put("timestamp", JsonNode::Leaf(JsonLeaf::text(timestamp)));
    let (podcast, episode) = match event.episode {
        Some(info) => (JsonNode::Record(podcast_json(info)), JsonNode::Record(episode_json(info))),
        None => (JsonNode::Leaf(JsonLeaf::Null), JsonNode::Leaf(JsonLeaf::Null)),
    };
    r.put("podcast", podcast);
    r.put("episode", episode);
    let playback = match &event.playback {
        Some(playback) => JsonNode::Record(playback_json(playback)),
        None => JsonNode::Leaf(JsonLeaf::Null),
    };
    r.put("playback", playback);
    r
}

/// Decimal digits stand from `start` up to `end`.
pub open spec fn has_digits(text: Seq<char>, start: int, end: int) -> bool {
    forall|i: int| start <= i < end ==> '0' <= #[trigger] text[i] <= '9'
}

/// Two digits stand at `at`, and their number lies between `low` and `high`.
pub open spec fn has_number(text: Seq<char>, at: int, low: int, high: int) -> bool {
    &&& has_digits(text, at, at + 2)
    &&& low <= 10 * (text[at] as int - '0' as int) + (text[at + 1] as int - '0' as int) <= high
}

/// A year takes up the first `y` characters: four digits, or a plus sign and more
/// than four.
pub open spec fn has_year(text: Seq<char>, y: int) -> bool {
    ||| y == 4 && has_digits(text, 0, 4)
    ||| 6 <= y <= 7 && text[0] == '+' && has_digits(text, 1, y)
}

/// A part of a second takes up `f` characters from `at` on: none, or a point and
/// three, six or nine digits.
pub open spec fn has_fraction(text: Seq<char>, at: int, f: int) -> bool {
    ||| f == 0
    ||| (f == 4 || f == 7 || f == 10) && text[at] == '.' && has_digits(text, at + 1, at + f)
}

/// The text is a year of `y` characters, a month, a day, the hour, minute and second
/// of the day, a part of a second of `f` characters, and the offset of UTC, with the
/// separators between them.
pub open spec fn is_time_of(text: Seq<char>, y: int, f: int) -> bool {
    &&& text.len() == y + 15 + f + 6
    &&& has_year(text, y)
    &&& text[y] == '-'
    &&& has_number(text, y + 1, 1, 12)
    &&& text[y + 3] == '-'
    &&& has_number(text, y + 4, 1, 31)
    &&& text[y + 6] == 'T'
    &&& has_number(text, y + 7, 0, 23)
    &&& text[y + 9] == ':'
    &&& has_number(text, y + 10, 0, 59)
    &&& text[y + 12] == ':'
    &&& has_number(text, y + 13, 0, 59)
    &&& has_fraction(text, y + 15, f)
    &&& text.skip(y + 15 + f) == "+00:00"@
}

/// The text of a time in UTC: a date, a time of day to the second at least, and the
/// offset of UTC.
pub open spec fn is_utc_time(text: Seq<char>) -> bool {
    exists|y: int, f: int| is_time_of(text, y, f)
}

proof fn lemma_utc_times_exist() -> (text: Seq<char>)
    ensures
        is_utc_time(text),
{
    reveal_strlit("+00:00");
    reveal_strlit("1970-01-01T00:00:00+00:00");
    let text = "1970-01-01T00:00:00+00:00"@;
    assert(text.skip(19) =~= "+00:00"@);
    assert(is_time_of(text, 4, 0));
    text
}

/// Calls `chrono::Utc::now` and `to_rfc3339`: the time by the machine's clock.
/// Claimed: the text is a date and a time of day with the offset of UTC, each field
/// with its digits and separators in their places. Which moment it names is not
/// stated: that is up to the clock.
#[verifier::external_body]
fn now_rfc3339() -> (r: String)
    ensures
        is_utc_time(r@),
{
    chrono::Utc::now().to_rfc3339()
}

/// Builds the document that is posted to a webhook, with the current time.
pub fn build_http_payload<N: Copy>(
    event: &NotificationEvent<'_, N>,
    http_url: &str,
    http_token: &str,
) -> (r: JsonObject<N>)
    ensures
        exists|timestamp: Seq<char>|
            is_utc_time(timestamp) && r@ == #[trigger] payload(
                *event,
                http_url@,
                http_token@,
                timestamp,
            ),
{
    http_payload(event, http_url, http_token, now_rfc3339().as_str())
}

/// A byte that stands for itself in a URL.
pub open spec fn is_unreserved(b: u8) -> bool {
    ||| 0x30 <= b <= 0x39
    ||| 0x41 <= b <= 0x5a
    ||| 0x61 <= b <= 0x7a
    ||| b == 0x2d
    ||| b == 0x2e
    ||| b == 0x5f
    ||| b == 0x7e
}

/// A hexadecimal digit, in upper case.
pub open spec fn hex_char(d: u8) -> char {
    if d < 10 {
        (0x30 + d) as char
    } else {
        (0x41 + d - 10) as char
    }
}

/// Bytes in percent-encoding: letters, digits and `-`, `.`, `_`, `~` stand for
/// themselves, every other byte is a percent sign and two hexadecimal digits.
pub open spec fn percent_encoded(bytes: Seq<u8>) -> Seq<char>
    decreases bytes.len(),
{
    if bytes.len() == 0 {
        Seq::empty()
    } else if is_unreserved(bytes.last()) {
        percent_encoded(bytes.drop_last()).push(bytes.last() as char)
    } else {
        percent_encoded(bytes.drop_last()).push('%').push(hex_char(bytes.last() / 16)).push(
            hex_char(bytes.last() % 16),
        )
    }
}

/// Calls `urlencoding::encode`. Claimed: the result is the percent-encoding of
/// the string's bytes in UTF-8.
#[verifier::external_body]
fn url_encode(text: &str) -> (r: String)
    ensures
        r@ == percent_encoded(encode_utf8(text@)),
{
    urlencoding::encode(text).into_owned()
}

/// A user's settings for a webhook.
pub struct HttpSettings<'a> {
    pub url: Option<&'a str>,
    pub token: Option<&'a str>,
    pub method: Option<&'a str>,
}

/// The query of a `GET` to a webhook.
pub open spec fn query<N>(event: NotificationEvent<'_, N>) -> Seq<char> {
    "message="@ + percent_encoded(encode_utf8(event.message@)) + "&event="@ + percent_encoded(
        encode_utf8(event.kind@),
    ) + match event.episode {
        Some(info) => "&episode_id="@ + int_decimal(info.episode_id as int) + "&podcast_id="@
            + int_decimal(info.podcast_id as int),
        None => Seq::empty(),
    }
}

/// The header that authorises a request to a webhook: none without a token, and
/// none for Telegram, whose token is part of the URL.
pub open spec fn bearer(http_url: Seq<char>, http_token: Seq<char>) -> Seq<
    (Seq<char>, Seq<char>),
> {
    if http_token.len() > 0 && !is_telegram(http_url) {
        seq![("Authorization"@, "Bearer "@ + http_token)]
    } else {
        seq![]
    }
}

/// The request to a webhook: none without a URL. A `GET` carries the essentials in
/// its query; whatever else the method is, the payload is posted. `method` is in
/// upper case.
pub open spec fn http_delivery<N>(
    url: Option<Seq<char>>,
    token: Option<Seq<char>>,
    method: Seq<char>,
    event: NotificationEvent<'_, N>,
    timestamp: Seq<char>,
) -> Option<RequestView<N>> {
    let token = chars_or(token, Seq::empty());
    match filled(url) {
        None => None,
        Some(url) => if method == "GET"@ {
            Some(
                RequestView {
                    method: HttpMethod::Get,
                    url: url + (if has_part(url, "?"@) {
                        "&"@
                    } else {
                        "?"@
                    }) + query(event),
                    headers: bearer(url, token),
                    basic_auth: None,
                    body: BodyView::Empty,
                },
            )
        } else {
            Some(
                RequestView {
                    method: HttpMethod::Post,
                    url,
                    headers: seq![("Content-Type"@, "application/json"@)] + bearer(url, token),
                    basic_auth: None,
                    body: BodyView::Json(payload(event, url, token, timestamp)),
                },
            )
        },
    }
}

fn query_text<N>(event: &NotificationEvent<'_, N>) -> (r: String)
    ensures
        r@ == query(*event),
{
    let essentials = "message=".to_owned().concat(url_encode(event.message).as_str()).concat(
        "&event=",
    ).concat(url_encode(event.kind).as_str());
    match event.episode {
        Some(info) => {
            let ids = "&episode_id=".to_owned().concat(decimal(info.episode_id).as_str()).concat(
                "&podcast_id=",
            ).concat(decimal(info.podcast_id).as_str());
            essentials.concat(ids.as_str())
        },
        None => {
            assert(query(*event) == essentials@);
            essentials
        },
    }
}

/// Builds the request to a webhook, given the method in upper case and the time.
pub fn http_request<N: Copy>(
    settings: &HttpSettings<'_>,
    method: &str,
    event: &NotificationEvent<'_, N>,
    timestamp: &str,
) -> (r: Option<HttpRequest<N>>)
    ensures
        opt_request(r) == http_delivery(
            opt_chars(settings.url),
            opt_chars(settings.token),
            method@,
            *event,
            timestamp@,
        ),
{
    proof {
        reveal_strlit("");
        assert(""@ == Seq::<char>::empty());
    }
    let token = or_else(settings.token, "");
    let url = match if_filled(settings.url) {
        Some(url) => url,
        None => return None,
    };
    let get = same(method, "GET");
    let mut headers: Vec<(String, String)> = if get {
        let none: Vec<(String, String)> = Vec::new();
        assert(headers_view(none@) == Seq::<(Seq<char>, Seq<char>)>::empty());
        none
    } else {
        json_headers()
    };
    let ghost before = headers_view(headers@);
    if !token.is_empty() && !contains(url, "api.telegram.org") {
        let authorization = "Bearer ".to_owned().concat(token);
        push_header(&mut headers, "Authorization", authorization.as_str());
    }
    assert(headers_view(headers@) == before + bearer(url@, token@));
    if get {
        assert(headers_view(headers@) == bearer(url@, token@));
        let separator = if contains(url, "?") {
            "&"
        } else {
            "?"
        };
        Some(
            HttpRequest {
                method: HttpMethod::Get,
                url: url.to_owned().concat(separator).concat(query_text(event).as_str()),
                headers,
                basic_auth: None,
                body: HttpBody::Empty,
            },
        )
    } else {
        Some(
            HttpRequest {
                method: HttpMethod::Post,
                url: url.to_owned(),
                headers,
                basic_auth: None,
                body: HttpBody::Json(http_payload(event, url, token, timestamp)),
            },
        )
    }
}

/// The request to a webhook that a settings document asks for, at some time.
pub open spec fn http_in<N>(
    document: JsonModel,
    event: NotificationEvent<'_, N>,
    timestamp: Seq<char>,
) -> Option<RequestView<N>> {
    http_delivery(
        document.str_at("http_url"@),
        document.str_at("http_token"@),
        in_upper_case(chars_or(document.str_at("http_method"@), "POST"@)),
        event,
        timestamp,
    )
}

/// The request to a webhook that a settings document asks for.
pub fn send_http<N: Copy>(settings: &serde_json::Value, event: &NotificationEvent<'_, N>) -> (r:
    Option<HttpRequest<N>>)
    ensures
        exists|timestamp: Seq<char>|
            is_utc_time(timestamp) && opt_request(r) == #[trigger] http_in(
                json_contents(*settings),
                *event,
                timestamp,
            ),
{
    let http = HttpSettings {
        url: str_member(settings, "http_url"),
        token: str_member(settings, "http_token"),
        method: str_member(settings, "http_method"),
    };
    assert(opt_chars(http.url) == json_contents(*settings).str_at("http_url"@));
    assert(opt_chars(http.token) == json_contents(*settings).str_at("http_token"@));
    assert(opt_chars(http.method) == json_contents(*settings).str_at("http_method"@));
    let method = uppercase(or_else(http.method, "POST"));
    let timestamp = now_rfc3339();
    let r = http_request(&http, method.as_str(), event, timestamp.as_str());
    assert(opt_request(r) == http_in(json_contents(*settings), *event, timestamp@));
    r
}

// ------------------------------------------------------------------
// Delivery
// ------------------------------------------------------------------

/// The request that delivers an event to a platform: none for a platform that is
/// not known, or that the settings do not configure.
pub open spec fn platform_delivery<N>(
    platform: Seq<char>,
    document: JsonModel,
    event: NotificationEvent<'_, N>,
    timestamp: Seq<char>,
) -> Option<RequestView<N>> {
    if platform == "ntfy"@ {
        ntfy_delivery(ntfy_in(document), event.title@, event.message@)
    } else if platform == "gotify"@ {
        gotify_delivery(
            document.str_at("gotify_url"@),
            document.str_at("gotify_token"@),
            event.title@,
            event.message@,
        )
    } else if platform == "http"@ {
        http_in(document, event, timestamp)
    } else {
        None
    }
}

/// The settings configure the platform.
pub open spec fn is_configured(platform: Seq<char>, document: JsonModel) -> bool {
    if platform == "ntfy"@ {
        filled(document.str_at("ntfy_topic"@)) is Some
    } else if platform == "gotify"@ {
        filled(document.str_at("gotify_url"@)) is Some && filled(
            document.str_at("gotify_token"@),
        ) is Some
    } else if platform == "http"@ {
        filled(document.str_at("http_url"@)) is Some
    } else {
        false
    }
}

/// Builds the request that delivers an event to the platform of that name.
pub fn platform_request<N: Copy>(
    platform: &str,
    settings: &serde_json::Value,
    event: &NotificationEvent<'_, N>,
) -> (r: Option<HttpRequest<N>>)
    ensures
        r is Some <==> is_configured(platform@, json_contents(*settings)),
        exists|timestamp: Seq<char>|
            is_utc_time(timestamp) && opt_request(r) == #[trigger] platform_delivery(
                platform@,
                json_contents(*settings),
                *event,
                timestamp,
            ),
{
    let ghost document = json_contents(*settings);
    let ghost time = lemma_utc_times_exist();
    if same(platform, "ntfy") {
        let r = send_ntfy(settings, event);
        assert(opt_request(r) == platform_delivery(platform@, document, *event, time));
        r
    } else if same(platform, "gotify") {
        let r = send_gotify(settings, event);
        proof {
            reveal_strlit("ntfy");
            reveal_strlit("gotify");
            assert("ntfy"@.len() != "gotify"@.len());
        }
        assert(opt_request(r) == platform_delivery(platform@, document, *event, time));
        r
    } else if same(platform, "http") {
        let r = send_http(settings, event);
        proof {
            let timestamp = choose|timestamp: Seq<char>|
                is_utc_time(timestamp) && opt_request(r) == #[trigger] http_in(
                    document,
                    *event,
                    timestamp,
                );
            assert(opt_request(r) == platform_delivery(platform@, document, *event, timestamp));
        }
        r
    } else {
        let r: Option<HttpRequest<N>> = None;
        assert(opt_request(r) == platform_delivery(platform@, document, *event, time));
        r
    }
}

/// A request was accepted: an answer came, with a status of success.
pub open spec fn is_accepted(status: Option<u16>) -> bool {
    status matches Some(code) && 200 <= code < 300
}

/// Whether a platform accepted a notification, given the status of its answer;
/// there is none where the request failed.
pub fn accepted(status: Option<u16>) -> (r: bool)
    ensures
        r == is_accepted(status),
{
    match status {
        Some(code) => 200 <= code && code < 300,
        None => false,
    }
}

/// The test notification of a user.
pub open spec fn test_event<'a, N>(user_id: i32, message: &'a str) -> NotificationEvent<'a, N> {
    NotificationEvent {
        category: NotificationCategory::Playback,
        kind: "test",
        title: "PinePods Test",
        message,
        user_id,
        episode: None,
        playback: None,
    }
}

/// The request that sends a test notification to one platform. The user asked for
/// it, so no preference is consulted. Without a request nothing is sent, which
/// counts as not delivered.
pub fn send_test<N: Copy>(
    user_id: i32,
    platform: &str,
    settings: &serde_json::Value,
    message: &str,
) -> (r: Option<HttpRequest<N>>)
    ensures
        r is Some <==> is_configured(platform@, json_contents(*settings)),
        exists|timestamp: Seq<char>|
            is_utc_time(timestamp) && opt_request(r) == #[trigger] platform_delivery(
                platform@,
                json_contents(*settings),
                test_event::<N>(user_id, message),
                timestamp,
            ),
{
    let event = NotificationEvent {
        category: NotificationCategory::Playback,
        kind: "test",
        title: "PinePods Test",
        message,
        user_id,
        episode: None,
        playback: None,
    };
    platform_request(platform, settings, &event)
}

/// What `dispatch` does next.
pub enum DispatchStep<E> {
    /// It is over, with that outcome.
    Done(Result<bool, E>),
    /// The user's platforms are to be loaded.
    LoadSettings,
}

/// What the preferences make of an event of a category.
pub open spec fn dispatch_of<E>(
    category: NotificationCategory,
    preferences: Result<(bool, bool), E>,
) -> DispatchStep<E> {
    match preferences {
        Err(e) => DispatchStep::Done(Err(e)),
        Ok(enabled) => {
            let wanted = match category {
                NotificationCategory::NewContent => enabled.0,
                NotificationCategory::Playback => enabled.1,
            };
            if wanted {
                DispatchStep::LoadSettings
            } else {
                DispatchStep::Done(Ok(false))
            }
        },
    }
}

/// Starts to dispatch an event, given the user's preferences: for new content, and
/// for playback. An event whose category is switched off goes nowhere.
pub fn dispatch<E>(category: NotificationCategory, preferences: Result<(bool, bool), E>) -> (r:
    DispatchStep<E>)
    ensures
        r == dispatch_of(category, preferences),
        r == (match preferences {
            Err(e) => DispatchStep::Done(Err(e)),
            Ok(enabled) => if (category is NewContent && enabled.0) || (category is Playback
                && enabled.1) {
                DispatchStep::LoadSettings
            } else {
                DispatchStep::Done(Ok(false))
            },
        }),
{
    match preferences {
        Err(e) => DispatchStep::Done(Err(e)),
        Ok((notify_new_content, notify_playback)) => {
            if category.enabled_by(notify_new_content, notify_playback) {
                DispatchStep::LoadSettings
            } else {
                DispatchStep::Done(Ok(false))
            }
        },
    }
}

/// A platform is enabled and configured, so that events go to it.
pub open spec fn is_target(document: JsonModel) -> bool {
    document.bool_at("enabled"@) == Some(true) && is_configured(
        chars_or(document.str_at("platform"@), Seq::empty()),
        document,
    )
}

/// The positions of the platforms among the first `n` that events go to.
pub open spec fn targets(settings: Seq<serde_json::Value>, n: int) -> Seq<int>
    decreases n,
{
    if n <= 0 {
        Seq::empty()
    } else if is_target(json_contents(settings[n - 1])) {
        targets(settings, n - 1).push(n - 1)
    } else {
        targets(settings, n - 1)
    }
}

/// One of the answers accepted the notification.
pub open spec fn any_accepted(answers: Seq<Option<u16>>) -> bool {
    exists|i: int| 0 <= i < answers.len() && is_accepted(#[trigger] answers[i])
}

/// The delivery of one event to the platforms of a user, one after the other.
pub struct Fanout {
    settings: Vec<serde_json::Value>,
    at: usize,
    sent_any: bool,
    asked: Ghost<Seq<int>>,
    answers: Ghost<Seq<Option<u16>>>,
}

impl Fanout {
    /// The user's platforms.
    pub closed spec fn platforms(&self) -> Seq<serde_json::Value> {
        self.settings@
    }

    /// The positions of the platforms that a request was made for.
    pub closed spec fn asked(&self) -> Seq<int> {
        self.asked@
    }

    /// The statuses that came back.
    pub closed spec fn answers(&self) -> Seq<Option<u16>> {
        self.answers@
    }

    pub closed spec fn wf(&self) -> bool {
        &&& self.at <= self.settings@.len()
        &&& self.asked@ == targets(self.settings@, self.at as int)
        &&& self.sent_any == any_accepted(self.answers@)
    }

    /// Starts with the user's platforms.
    pub fn new(settings: Vec<serde_json::Value>) -> (r: Self)
        ensures
            r.wf(),
            r.platforms() == settings@,
            r.asked() == Seq::<int>::empty(),
            r.answers() == Seq::<Option<u16>>::empty(),
    {
        Fanout {
            settings,
            at: 0,
            sent_any: false,
            asked: Ghost(Seq::empty()),
            answers: Ghost(Seq::empty()),
        }
    }

    /// The next request to send. Platforms that are disabled, not known or not
    /// configured are passed over; when no request comes, one was made for every
    /// other.
    pub fn next<N: Copy>(&mut self, event: &NotificationEvent<'_, N>) -> (r: Option<HttpRequest<N>>)
        requires
            old(self).wf(),
        ensures
            final(self).wf(),
            final(self).platforms() == old(self).platforms(),
            final(self).answers() == old(self).answers(),
            match r {
                Some(request) => exists|i: int, timestamp: Seq<char>|
                    {
                        &&& 0 <= i < old(self).platforms().len()
                        &&& is_target(json_contents(old(self).platforms()[i]))
                        &&& final(self).asked() == old(self).asked().push(i)
                        &&& is_utc_time(timestamp)
                        &&& Some(request@) == #[trigger] platform_delivery(
                            json_contents(old(self).platforms()[i]).str_at("platform"@)->0,
                            json_contents(old(self).platforms()[i]),
                            *event,
                            timestamp,
                        )
                    },
                None => final(self).asked() == old(self).asked() && final(self).asked() == targets(
                    old(self).platforms(),
                    old(self).platforms().len() as int,
                ),
            },
    {
        proof {
            reveal_strlit("");
            reveal_strlit("ntfy");
            reveal_strlit("gotify");
            reveal_strlit("http");
            assert(""@ == Seq::<char>::empty());
        }
        let ghost before = *self;
        while self.at < self.settings.len()
            invariant
                self.wf(),
                before == *old(self),
                ""@ == Seq::<char>::empty(),
                "ntfy"@.len() > 0,
                "gotify"@.len() > 0,
                "http"@.len() > 0,
                self.settings == before.settings,
                self.answers == before.answers,
                self.asked@ == before.asked@,
            decreases self.settings.len() - self.at,
        {
            let setting = &self.settings[self.at];
            let ghost document = json_contents(*setting);
            let found = str_member(setting, "platform");
            let platform = or_else(found, "");
            assert(platform@ == chars_or(document.str_at("platform"@), Seq::empty()));
            let enabled = match bool_member(setting, "enabled") {
                Some(enabled) => enabled,
                None => false,
            };
            if enabled {
                let request = platform_request(platform, setting, event);
                match request {
                    Some(request) => {
                        let ghost i = self.at as int;
                        proof {
                            let timestamp = choose|timestamp: Seq<char>|
                                is_utc_time(timestamp) && Some(
                                    request@,
                                ) == #[trigger] platform_delivery(
                                    platform@,
                                    document,
                                    *event,
                                    timestamp,
                                );
                            assert(document.str_at("platform"@) is Some);
                            assert(Some(request@) == platform_delivery(
                                json_contents(before.platforms()[i]).str_at("platform"@)->0,
                                json_contents(before.platforms()[i]),
                                *event,
                                timestamp,
                            ));
                        }
                        self.asked = Ghost(before.asked@.push(i));
                        self.at = self.at + 1;
                        return Some(request);
                    },
                    None => {},
                }
            }
            self.at = self.at + 1;
        }
        None
    }

    /// Takes the status that the last request was answered with; there is none
    /// where it failed.
    pub fn answer(&mut self, status: Option<u16>)
        requires
            old(self).wf(),
        ensures
            final(self).wf(),
            final(self).platforms() == old(self).platforms(),
            final(self).asked() == old(self).asked(),
            final(self).answers() == old(self).answers().push(status),
    {
        let ghost before = self.answers@;
        let ok = accepted(status);
        self.answers = Ghost(before.push(status));
        proof {
            let after = before.push(status);
            assert(after[before.len() as int] == status);
            if any_accepted(before) {
                let i = choose|i: int| 0 <= i < before.len() && is_accepted(#[trigger] before[i]);
                assert(is_accepted(after[i]));
            }
            if any_accepted(after) && !is_accepted(status) {
                let i = choose|i: int| 0 <= i < after.len() && is_accepted(#[trigger] after[i]);
                assert(is_accepted(before[i]));
            }
        }
        if ok {
            self.sent_any = true;
        }
    }

    /// Whether at least one platform accepted the notification.
    pub fn delivered(&self) -> (r: bool)
        requires
            self.wf(),
        ensures
            r == any_accepted(self.answers()),
    {
        self.sent_any
    }
}

/// What `dispatch` does once the user's platforms are loaded.
pub enum FanoutStep<E> {
    /// It is over, with that outcome.
    Done(Result<bool, E>),
    /// The event goes to the platforms.
    Send(Fanout),
}

/// Goes on with the user's platforms. A user without any is not notified.
pub fn dispatch_settings<E>(settings: Result<Vec<serde_json::Value>, E>) -> (r: FanoutStep<E>)
    ensures
        match settings {
            Err(e) => r == FanoutStep::Done::<E>(Err(e)),
            Ok(settings) => if settings@.len() == 0 {
                r == FanoutStep::Done::<E>(Ok(false))
            } else {
                r matches FanoutStep::Send(fanout) && fanout.wf() && fanout.platforms()
                    == settings@ && fanout.asked() == Seq::<int>::empty() && fanout.answers()
                    == Seq::<Option<u16>>::empty()
            },
        },
{
    match settings {
        Err(e) => FanoutStep::Done(Err(e)),
        Ok(settings) => {
            if settings.is_empty() {
                FanoutStep::Done(Ok(false))
            } else {
                FanoutStep::Send(Fanout::new(settings))
            }
        },
    }
}

// ------------------------------------------------------------------
// Laws
// ------------------------------------------------------------------

/// Events go to every platform that is enabled and configured, to no other, and to
/// each once: the targets are the positions of those platforms, in order.
pub proof fn law_targets_are_the_enabled_platforms(settings: Seq<serde_json::Value>, n: int)
    requires
        0 <= n <= settings.len(),
    ensures
        forall|i: int|
            #![trigger targets(settings, n).contains(i)]
            targets(settings, n).contains(i) <==> 0 <= i < n && is_target(
                json_contents(settings[i]),
            ),
        forall|j: int, k: int|
            0 <= j < k < targets(settings, n).len() ==> targets(settings, n)[j] < targets(
                settings,
                n,
            )[k],
    decreases n,
{
    if n > 0 {
        law_targets_are_the_enabled_platforms(settings, n - 1);
        let before = targets(settings, n - 1);
        let after = targets(settings, n);
        assert forall|i: int| #![trigger after.contains(i)] after.contains(i) <==> 0 <= i < n
            && is_target(json_contents(settings[i])) by {
            if after.contains(i) {
                let at = choose|at: int| 0 <= at < after.len() && after[at] == i;
                if at < before.len() {
                    assert(before[at] == i);
                    assert(before.contains(i));
                }
            }
            if 0 <= i < n && is_target(json_contents(settings[i])) {
                if i < n - 1 {
                    assert(before.contains(i));
                    let at = choose|at: int| 0 <= at < before.len() && before[at] == i;
                    assert(after[at] == i);
                } else {
                    assert(after[before.len() as int] == i);
                }
            }
        }
        assert forall|j: int, k: int| 0 <= j < k < after.len() implies after[j] < after[k] by {
            assert(before.contains(before[j]));
        }
    }
}

/// At every moment of a delivery, the requests made so far are those for the first
/// of the targets.
pub proof fn law_delivery_follows_the_targets(fanout: Fanout)
    requires
        fanout.wf(),
    ensures
        fanout.asked().is_prefix_of(
            targets(fanout.platforms(), fanout.platforms().len() as int),
        ),
{
    lemma_targets_grow(
        fanout.settings@,
        fanout.at as int,
        fanout.settings@.len() as int,
    );
}

proof fn lemma_targets_grow(settings: Seq<serde_json::Value>, m: int, n: int)
    requires
        0 <= m <= n <= settings.len(),
    ensures
        targets(settings, m).is_prefix_of(targets(settings, n)),
    decreases n,
{
    if m < n {
        lemma_targets_grow(settings, m, n - 1);
    }
}

/// A platform that is not configured gets no request, and one that is gets one, at
/// any time and for any event.
pub proof fn law_configured_platforms_get_a_request<N>(
    platform: Seq<char>,
    document: JsonModel,
    event: NotificationEvent<'_, N>,
    timestamp: Seq<char>,
)
    ensures
        platform_delivery(platform, document, event, timestamp) is Some <==> is_configured(
            platform,
            document,
        ),
{
}

/// Only a webhook's payload depends on the time: ntfy, Gotify, `GET` requests and
/// Telegram get the same request whenever it is made.
pub proof fn law_time_shows_in_envelopes_only<N>(
    platform: Seq<char>,
    document: JsonModel,
    event: NotificationEvent<'_, N>,
    earlier: Seq<char>,
    later: Seq<char>,
)
    requires
        platform != "http"@ || in_upper_case(chars_or(document.str_at("http_method"@), "POST"@))
            == "GET"@ || is_telegram(chars_or(document.str_at("http_url"@), Seq::empty())),
    ensures
        platform_delivery(platform, document, event, earlier) == platform_delivery(
            platform,
            document,
            event,
            later,
        ),
{
}

/// The token of a Telegram bot is never sent in a header.
pub proof fn law_telegram_token_stays_out_of_headers<N>(
    url: Seq<char>,
    token: Option<Seq<char>>,
    method: Seq<char>,
    event: NotificationEvent<'_, N>,
    timestamp: Seq<char>,
)
    requires
        is_telegram(url),
    ensures
        http_delivery(Some(url), token, method, event, timestamp) matches Some(request) ==> forall|
            i: int,
        |
            0 <= i < request.headers.len() ==> (#[trigger] request.headers[i]).0
                != "Authorization"@,
{
    reveal_strlit("Authorization");
    reveal_strlit("Content-Type");
    assert("Authorization"@.len() != "Content-Type"@.len());
}

proof fn lemma_encoded_chars(bytes: Seq<u8>)
    ensures
        forall|i: int|
            #![trigger percent_encoded(bytes)[i]]
            0 <= i < percent_encoded(bytes).len() ==> is_query_char(percent_encoded(bytes)[i]),
    decreases bytes.len(),
{
    if bytes.len() > 0 {
        lemma_encoded_chars(bytes.drop_last());
        let b = bytes.last();
        let start = percent_encoded(bytes.drop_last());
        assert(is_query_char(hex_char(b / 16)) && is_query_char(hex_char(b % 16)));
        assert forall|i: int|
            #![trigger percent_encoded(bytes)[i]]
            0 <= i < percent_encoded(bytes).len() implies is_query_char(
            percent_encoded(bytes)[i],
        ) by {
            if i < start.len() {
                assert(percent_encoded(bytes)[i] == start[i]);
            }
        }
    }
}

/// A character that has no meaning of its own in a query: a letter, a digit, one
/// of `-`, `.`, `_`, `~`, or the percent sign of an encoded byte.
pub open spec fn is_query_char(c: char) -> bool {
    ||| '0' <= c <= '9'
    ||| 'A' <= c <= 'Z'
    ||| 'a' <= c <= 'z'
    ||| c == '-'
    ||| c == '.'
    ||| c == '_'
    ||| c == '~'
    ||| c == '%'
}

/// Whatever a message holds, its encoding cannot end the parameter that it is
/// the value of, or start another.
pub proof fn law_encoded_text_stays_in_its_parameter(text: Seq<char>)
    ensures
        forall|i: int|
            #![trigger percent_encoded(encode_utf8(text))[i]]
            0 <= i < percent_encoded(encode_utf8(text)).len() ==> is_query_char(
                percent_encoded(encode_utf8(text))[i],
            ),
{
    lemma_encoded_chars(encode_utf8(text));
}

/// An episode is named by its title, and by its show where that has a name.
pub proof fn law_labels_name_episode_and_show(info: EpisodeNotificationInfo)
    ensures
        info.show_name@.len() == 0 ==> label(info) == info.title@,
        info.show_name@.len() > 0 ==> label(info) == info.title@ + " from "@
            + info.show_name@,
{
}

/// The message of a start names the episode, and the device exactly where it has a
/// name that is not blank.
pub proof fn law_starts_name_their_device(
    info: EpisodeNotificationInfo,
    device_name: Option<Seq<char>>,
)
    ensures
        device_name is None ==> start_message(info, device_name) == "Started playing "@ + label(
            info,
        ),
        device_name matches Some(name) ==> trimmed(name).len() == 0 ==> start_message(
            info,
            device_name,
        ) == "Started playing "@ + label(info),
        device_name matches Some(name) ==> trimmed(name).len() > 0 ==> start_message(
            info,
            device_name,
        ) == "Started playing "@ + label(info) + " on "@ + trimmed(name),
{
}

/// The value of a setting, where it is given and not empty.
pub open spec fn is_given(value: Option<Seq<char>>) -> bool {
    value matches Some(text) && text.len() > 0
}

proof fn lemma_platforms_are_told_apart()
    ensures
        "ntfy"@ != "gotify"@,
        "ntfy"@ != "http"@,
        "gotify"@ != "http"@,
{
    reveal_strlit("ntfy");
    reveal_strlit("gotify");
    reveal_strlit("http");
    assert("ntfy"@[0] == 'n' && "gotify"@[0] == 'g' && "http"@[0] == 'h');
}

proof fn lemma_headers_are_told_apart()
    ensures
        "Content-Type"@ != "Title"@,
        "Content-Type"@ != "Authorization"@,
        "Title"@ != "Authorization"@,
{
    reveal_strlit("Content-Type");
    reveal_strlit("Title");
    reveal_strlit("Authorization");
    assert("Content-Type"@.len() == 12 && "Title"@.len() == 5 && "Authorization"@.len() == 13);
}

/// A message to ntfy goes to the topic on the server that the settings name, or on
/// the public one, as plain text. The title goes along whenever it is printable, and
/// never otherwise. An access token that is given authorises the request, whatever
/// the title is; without one a user name and a password do, if both are given.
pub proof fn law_ntfy_requests_follow_the_settings<N>(
    document: JsonModel,
    event: NotificationEvent<'_, N>,
    timestamp: Seq<char>,
)
    requires
        is_given(document.str_at("ntfy_topic"@)),
    ensures
        platform_delivery("ntfy"@, document, event, timestamp) matches Some(request) && {
            let server = match document.str_at("ntfy_server_url"@) {
                Some(url) => url,
                None => "https://ntfy.sh"@,
            };
            let printable = forall|i: int|
                0 <= i < event.title@.len() ==> (#[trigger] event.title@[i] == '\t' || ' '
                    <= event.title@[i] <= '~');
            let token = document.str_at("ntfy_access_token"@);
            let username = document.str_at("ntfy_username"@);
            let password = document.str_at("ntfy_password"@);
            &&& request.method is Post
            &&& request.url == cut_end(server, CharClass::Slash) + "/"@ + document.str_at(
                "ntfy_topic"@,
            )->0
            &&& has_only(request.headers, "Content-Type"@, "text/plain"@)
            &&& printable ==> has_only(request.headers, "Title"@, event.title@)
            &&& !printable ==> has_none(request.headers, "Title"@)
            &&& is_given(token) ==> has_only(
                request.headers,
                "Authorization"@,
                "Bearer "@ + token->0,
            )
            &&& !is_given(token) ==> has_none(request.headers, "Authorization"@)
            &&& !is_given(token) && is_given(username) && is_given(password)
                ==> request.basic_auth == Some((username->0, password->0))
            &&& is_given(token) || !is_given(username) || !is_given(password)
                ==> request.basic_auth is None
            &&& request.headers.len() <= 3
            &&& request.body == BodyView::<N>::Text(event.message@)
        },
{
    lemma_platforms_are_told_apart();
    lemma_headers_are_told_apart();
    let request = platform_delivery("ntfy"@, document, event, timestamp)->0;
    let headers = request.headers;
    let titled = is_printable(event.title@);
    let token = document.str_at("ntfy_access_token"@);
    assert(headers == ntfy_headers(ntfy_in(document), event.title@));
    assert(headers[0] == ("Content-Type"@, "text/plain"@));
    if titled {
        assert(headers[1] == ("Title"@, event.title@));
        if is_given(token) {
            assert(headers.len() == 3);
            assert(headers[2] == ("Authorization"@, "Bearer "@ + token->0));
        } else {
            assert(headers.len() == 2);
        }
    } else {
        if is_given(token) {
            assert(headers.len() == 2);
            assert(headers[1] == ("Authorization"@, "Bearer "@ + token->0));
        } else {
            assert(headers.len() == 1);
        }
    }
}

/// A message to Gotify goes to the server that the settings name, with the token in
/// the address, as a document of title, message and priority.
pub proof fn law_gotify_requests_follow_the_settings<N>(
    document: JsonModel,
    event: NotificationEvent<'_, N>,
    timestamp: Seq<char>,
)
    requires
        is_given(document.str_at("gotify_url"@)),
        is_given(document.str_at("gotify_token"@)),
    ensures
        platform_delivery("gotify"@, document, event, timestamp) matches Some(request) && {
            &&& request.method is Post
            &&& request.url == cut_end(document.str_at("gotify_url"@)->0, CharClass::Slash)
                + "/message?token="@ + document.str_at("gotify_token"@)->0
            &&& request.headers == seq![("Content-Type"@, "application/json"@)]
            &&& request.basic_auth is None
            &&& request.body matches BodyView::Json(body) && {
                &&& body.len() == 3
                &&& has_only(body, "message"@, NodeView::Leaf(LeafView::Text(event.message@)))
                &&& has_only(body, "title"@, NodeView::Leaf(LeafView::Text(event.title@)))
                &&& has_only(body, "priority"@, NodeView::Leaf(LeafView::Int(5)))
            }
        },
{
    lemma_platforms_are_told_apart();
    reveal_strlit("message");
    reveal_strlit("title");
    reveal_strlit("priority");
    assert("message"@.len() == 7 && "title"@.len() == 5 && "priority"@.len() == 8);
    let request = platform_delivery("gotify"@, document, event, timestamp)->0;
    let body = request.body->Json_0;
    assert(body[0] == ("message"@, NodeView::<N>::Leaf(LeafView::Text(event.message@))));
    assert(body[1] == ("title"@, NodeView::<N>::Leaf(LeafView::Text(event.title@))));
    assert(body[2] == ("priority"@, NodeView::<N>::Leaf(LeafView::Int(5))));
}

/// The method that the settings of a webhook ask for, in upper case.
pub open spec fn method_in(document: JsonModel) -> Seq<char> {
    in_upper_case(
        match document.str_at("http_method"@) {
            Some(method) => method,
            None => "POST"@,
        },
    )
}

/// A webhook that is asked by `GET` gets the message and the kind of the event in its
/// query, and the numbers of the episode and its podcast where there are any, behind
/// what the query holds already.
pub proof fn law_get_requests_carry_the_essentials<N>(
    document: JsonModel,
    event: NotificationEvent<'_, N>,
    timestamp: Seq<char>,
)
    requires
        is_given(document.str_at("http_url"@)),
        method_in(document) == "GET"@,
    ensures
        platform_delivery("http"@, document, event, timestamp) matches Some(request) && {
            let url = document.str_at("http_url"@)->0;
            let essentials = "message="@ + percent_encoded(encode_utf8(event.message@))
                + "&event="@ + percent_encoded(encode_utf8(event.kind@));
            let separator = if has_part(url, "?"@) {
                "&"@
            } else {
                "?"@
            };
            &&& request.method is Get
            &&& event.episode is None ==> request.url == url + separator + essentials
            &&& event.episode matches Some(info) ==> request.url == url + separator + (essentials
                + ("&episode_id="@ + int_decimal(info.episode_id as int) + "&podcast_id="@
                + int_decimal(info.podcast_id as int)))
            &&& has_none(request.headers, "Content-Type"@)
            &&& request.headers.len() <= 1
            &&& request.basic_auth is None
            &&& request.body is Empty
        },
{
    lemma_platforms_are_told_apart();
    lemma_headers_are_told_apart();
    let url = document.str_at("http_url"@)->0;
    let essentials = "message="@ + percent_encoded(encode_utf8(event.message@)) + "&event="@
        + percent_encoded(encode_utf8(event.kind@));
    assert(essentials + Seq::<char>::empty() =~= essentials);
}

/// Whatever else the method of a webhook is, the payload is posted to its address as
/// JSON.
pub proof fn law_other_requests_post_the_payload<N>(
    document: JsonModel,
    event: NotificationEvent<'_, N>,
    timestamp: Seq<char>,
)
    requires
        is_given(document.str_at("http_url"@)),
        method_in(document) != "GET"@,
    ensures
        platform_delivery("http"@, document, event, timestamp) matches Some(request) && {
            let token = match document.str_at("http_token"@) {
                Some(token) => token,
                None => Seq::empty(),
            };
            &&& request.method is Post
            &&& request.url == document.str_at("http_url"@)->0
            &&& has_only(request.headers, "Content-Type"@, "application/json"@)
            &&& request.basic_auth is None
            &&& request.body == BodyView::Json(
                payload(event, document.str_at("http_url"@)->0, token, timestamp),
            )
        },
{
    lemma_platforms_are_told_apart();
    lemma_headers_are_told_apart();
    let request = platform_delivery("http"@, document, event, timestamp)->0;
    assert(request.headers[0] == ("Content-Type"@, "application/json"@));
}

/// A token of a webhook authorises the request whenever it is given, by whatever
/// method the request goes, but for Telegram, which finds it in the address.
pub proof fn law_tokens_authorise_webhooks<N>(
    document: JsonModel,
    event: NotificationEvent<'_, N>,
    timestamp: Seq<char>,
)
    requires
        is_given(document.str_at("http_url"@)),
    ensures
        platform_delivery("http"@, document, event, timestamp) matches Some(request) && {
            let telegram = has_part(document.str_at("http_url"@)->0, "api.telegram.org"@);
            let token = document.str_at("http_token"@);
            &&& is_given(token) && !telegram ==> has_only(
                request.headers,
                "Authorization"@,
                "Bearer "@ + token->0,
            )
            &&& !is_given(token) || telegram ==> has_none(request.headers, "Authorization"@)
        },
{
    lemma_platforms_are_told_apart();
    lemma_headers_are_told_apart();
    let request = platform_delivery("http"@, document, event, timestamp)->0;
    let headers = request.headers;
    let telegram = has_part(document.str_at("http_url"@)->0, "api.telegram.org"@);
    let token = document.str_at("http_token"@);
    if is_given(token) && !telegram {
        let at = headers.len() - 1;
        assert(headers[at] == ("Authorization"@, "Bearer "@ + token->0));
    }
}

/// A Telegram bot gets the message as the text, for the chat that stands behind the
/// first colon of the token, and nothing else.
pub proof fn law_telegram_gets_its_own_shape<N>(
    event: NotificationEvent<'_, N>,
    http_url: Seq<char>,
    http_token: Seq<char>,
    timestamp: Seq<char>,
)
    requires
        has_part(http_url, "api.telegram.org"@),
    ensures
        ({
            let document = payload(event, http_url, http_token, timestamp);
            let chat = match second_part(http_token, ':') {
                Some(chat) => chat,
                None => "YOUR_CHAT_ID"@,
            };
            &&& document.len() == 2
            &&& has_only(document, "chat_id"@, NodeView::Leaf(LeafView::Text(chat)))
            &&& has_only(document, "text"@, NodeView::Leaf(LeafView::Text(event.message@)))
        }),
{
    reveal_strlit("chat_id");
    reveal_strlit("text");
    assert("chat_id"@.len() == 7 && "text"@.len() == 4);
    let document = payload(event, http_url, http_token, timestamp);
    let chat = match second_part(http_token, ':') {
        Some(chat) => chat,
        None => "YOUR_CHAT_ID"@,
    };
    assert(document[0] == ("chat_id"@, NodeView::<N>::Leaf(LeafView::Text(chat))));
    assert(document[1] == ("text"@, NodeView::<N>::Leaf(LeafView::Text(event.message@))));
}

proof fn lemma_envelope_names()
    ensures
        seq![
            "event"@,
            "title"@,
            "message"@,
            "text"@,
            "user_id"@,
            "timestamp"@,
            "podcast"@,
            "episode"@,
            "playback"@,
        ].no_duplicates(),
{
    reveal_strlit("event");
    reveal_strlit("title");
    reveal_strlit("message");
    reveal_strlit("text");
    reveal_strlit("user_id");
    reveal_strlit("timestamp");
    reveal_strlit("podcast");
    reveal_strlit("episode");
    reveal_strlit("playback");
    assert("event"@.len() == 5 && "event"@[0] == 'e');
    assert("title"@.len() == 5 && "title"@[0] == 't');
    assert("message"@.len() == 7 && "message"@[0] == 'm');
    assert("text"@.len() == 4);
    assert("user_id"@.len() == 7 && "user_id"@[0] == 'u');
    assert("timestamp"@.len() == 9);
    assert("podcast"@.len() == 7 && "podcast"@[0] == 'p');
    assert("episode"@.len() == 7 && "episode"@[0] == 'e');
    assert("playback"@.len() == 8);
}

/// Every other webhook gets one envelope: the kind, the title and the message of the
/// event, the message once more as the text, the user and the time, each once and
/// under its name, and the podcast, the episode and the playback, which are `null`
/// exactly where the event has none.
pub proof fn law_envelopes_hold_the_event<N>(
    event: NotificationEvent<'_, N>,
    http_url: Seq<char>,
    http_token: Seq<char>,
    timestamp: Seq<char>,
)
    requires
        !has_part(http_url, "api.telegram.org"@),
    ensures
        ({
            let document = payload(event, http_url, http_token, timestamp);
            let null = NodeView::Leaf(LeafView::<N>::Null);
            &&& document.len() == 9
            &&& has_only(document, "event"@, NodeView::Leaf(LeafView::Text(event.kind@)))
            &&& has_only(document, "title"@, NodeView::Leaf(LeafView::Text(event.title@)))
            &&& has_only(document, "message"@, NodeView::Leaf(LeafView::Text(event.message@)))
            &&& has_only(document, "text"@, NodeView::Leaf(LeafView::Text(event.message@)))
            &&& has_only(document, "user_id"@, NodeView::Leaf(LeafView::Int(event.user_id)))
            &&& has_only(document, "timestamp"@, NodeView::Leaf(LeafView::Text(timestamp)))
            &&& event.episode is None ==> has_only(document, "podcast"@, null) && has_only(
                document,
                "episode"@,
                null,
            )
            &&& event.episode matches Some(info) ==> has_only(
                document,
                "podcast"@,
                NodeView::Record(podcast_record(*info)),
            ) && has_only(document, "episode"@, NodeView::Record(episode_record(*info)))
            &&& event.playback is None ==> has_only(document, "playback"@, null)
            &&& event.playback matches Some(playback) ==> has_only(
                document,
                "playback"@,
                NodeView::Record(playback_record(playback)),
            )
        }),
{
    lemma_envelope_names();
    let names = seq![
        "event"@,
        "title"@,
        "message"@,
        "text"@,
        "user_id"@,
        "timestamp"@,
        "podcast"@,
        "episode"@,
        "playback"@,
    ];
    let document = payload(event, http_url, http_token, timestamp);
    assert forall|i: int| 0 <= i < names.len() implies (#[trigger] document[i]).0 == names[i] by {}
    lemma_only(document, names, 0);
    lemma_only(document, names, 1);
    lemma_only(document, names, 2);
    lemma_only(document, names, 3);
    lemma_only(document, names, 4);
    lemma_only(document, names, 5);
    lemma_only(document, names, 6);
    lemma_only(document, names, 7);
    lemma_only(document, names, 8);
    assert(document[0] == ("event"@, NodeView::<N>::Leaf(LeafView::Text(event.kind@))));
    assert(document[1] == ("title"@, NodeView::<N>::Leaf(LeafView::Text(event.title@))));
    assert(document[2] == ("message"@, NodeView::<N>::Leaf(LeafView::Text(event.message@))));
    assert(document[3] == ("text"@, NodeView::<N>::Leaf(LeafView::Text(event.message@))));
    assert(document[4] == ("user_id"@, NodeView::<N>::Leaf(LeafView::Int(event.user_id))));
    assert(document[5] == ("timestamp"@, NodeView::<N>::Leaf(LeafView::Text(timestamp))));
    assert(document[6].0 == "podcast"@ && document[7].0 == "episode"@ && document[8].0
        == "playback"@);
}

/// A member whose name is one of a list without repetitions is the only one of its
/// name.
proof fn lemma_only<T>(members: Seq<(Seq<char>, T)>, names: Seq<Seq<char>>, i: int)
    requires
        members.len() == names.len(),
        names.no_duplicates(),
        forall|i: int| 0 <= i < names.len() ==> (#[trigger] members[i]).0 == names[i],
        0 <= i < names.len(),
    ensures
        has_only(members, names[i], members[i].1),
{
    assert(members[i] == (names[i], members[i].1));
    assert forall|j: int|
        0 <= j < members.len() && (#[trigger] members[j]).0 == names[i] implies j == i by {
        assert(names[j] == names[i]);
    }
}

proof fn lemma_podcast_names()
    ensures
        seq![
            "id"@,
            "name"@,
            "author"@,
            "artwork_url"@,
            "feed_url"@,
            "website_url"@,
            "categories"@,
            "explicit"@,
            "is_youtube"@,
        ].no_duplicates(),
{
    reveal_strlit("id");
    reveal_strlit("name");
    reveal_strlit("author");
    reveal_strlit("artwork_url");
    reveal_strlit("feed_url");
    reveal_strlit("website_url");
    reveal_strlit("categories");
    reveal_strlit("explicit");
    reveal_strlit("is_youtube");
    assert("id"@.len() == 2 && "id"@[0] == 'i');
    assert("name"@.len() == 4 && "name"@[0] == 'n');
    assert("author"@.len() == 6 && "author"@[0] == 'a');
    assert("artwork_url"@.len() == 11 && "artwork_url"@[0] == 'a');
    assert("feed_url"@.len() == 8 && "feed_url"@[0] == 'f');
    assert("website_url"@.len() == 11 && "website_url"@[0] == 'w');
    assert("categories"@.len() == 10 && "categories"@[0] == 'c');
    assert("explicit"@.len() == 8 && "explicit"@[0] == 'e');
    assert("is_youtube"@.len() == 10 && "is_youtube"@[0] == 'i');
}

/// A webhook is told of the podcast, each fact once and under its name, and of what is
/// not known as `null`.
pub proof fn law_podcasts_are_told_by_name<N>(info: EpisodeNotificationInfo)
    ensures
        ({
            let record = podcast_record::<N>(info);
            &&& record.len() == 9
            &&& has_only(record, "id"@, LeafView::Int(info.podcast_id))
            &&& has_only(record, "name"@, LeafView::Text(info.show_name@))
            &&& info.podcast_author matches Some(value) ==> has_only(
                record,
                "author"@,
                LeafView::Text(value@),
            )
            &&& info.podcast_author is None ==> has_only(record, "author"@, LeafView::Null)
            &&& info.podcast_artwork matches Some(value) ==> has_only(
                record,
                "artwork_url"@,
                LeafView::Text(value@),
            )
            &&& info.podcast_artwork is None ==> has_only(record, "artwork_url"@, LeafView::Null)
            &&& info.podcast_feed_url matches Some(value) ==> has_only(
                record,
                "feed_url"@,
                LeafView::Text(value@),
            )
            &&& info.podcast_feed_url is None ==> has_only(record, "feed_url"@, LeafView::Null)
            &&& info.podcast_website_url matches Some(value) ==> has_only(
                record,
                "website_url"@,
                LeafView::Text(value@),
            )
            &&& info.podcast_website_url is None ==> has_only(
                record,
                "website_url"@,
                LeafView::Null,
            )
            &&& info.podcast_categories matches Some(value) ==> has_only(
                record,
                "categories"@,
                LeafView::Text(value@),
            )
            &&& info.podcast_categories is None ==> has_only(record, "categories"@, LeafView::Null)
            &&& info.podcast_explicit matches Some(value) ==> has_only(
                record,
                "explicit"@,
                LeafView::Bool(value),
            )
            &&& info.podcast_explicit is None ==> has_only(record, "explicit"@, LeafView::Null)
            &&& has_only(record, "is_youtube"@, LeafView::Bool(info.is_youtube))
        }),
{
    lemma_podcast_names();
    let record = podcast_record::<N>(info);
    let names = seq![
        "id"@,
        "name"@,
        "author"@,
        "artwork_url"@,
        "feed_url"@,
        "website_url"@,
        "categories"@,
        "explicit"@,
        "is_youtube"@,
    ];
    assert forall|i: int| 0 <= i < names.len() implies (#[trigger] record[i]).0 == names[i] by {}
    lemma_only(record, names, 0);
    lemma_only(record, names, 1);
    lemma_only(record, names, 2);
    lemma_only(record, names, 3);
    lemma_only(record, names, 4);
    lemma_only(record, names, 5);
    lemma_only(record, names, 6);
    lemma_only(record, names, 7);
    lemma_only(record, names, 8);
}

proof fn lemma_episode_names()
    ensures
        seq![
            "id"@,
            "title"@,
            "description"@,
            "url"@,
            "artwork_url"@,
            "duration_sec"@,
            "published_at"@,
            "guid"@,
            "is_video"@,
            "is_youtube"@,
        ].no_duplicates(),
{
    reveal_strlit("id");
    reveal_strlit("title");
    reveal_strlit("description");
    reveal_strlit("url");
    reveal_strlit("artwork_url");
    reveal_strlit("duration_sec");
    reveal_strlit("published_at");
    reveal_strlit("guid");
    reveal_strlit("is_video");
    reveal_strlit("is_youtube");
    assert("id"@.len() == 2 && "id"@[0] == 'i');
    assert("title"@.len() == 5 && "title"@[0] == 't');
    assert("description"@.len() == 11 && "description"@[0] == 'd');
    assert("url"@.len() == 3 && "url"@[0] == 'u');
    assert("artwork_url"@.len() == 11 && "artwork_url"@[0] == 'a');
    assert("duration_sec"@.len() == 12 && "duration_sec"@[0] == 'd');
    assert("published_at"@.len() == 12 && "published_at"@[0] == 'p');
    assert("guid"@.len() == 4 && "guid"@[0] == 'g');
    assert("is_video"@.len() == 8 && "is_video"@[0] == 'i');
    assert("is_youtube"@.len() == 10 && "is_youtube"@[0] == 'i');
}

/// A webhook is told of the episode, each fact once and under its name, and of what is
/// not known as `null`.
pub proof fn law_episodes_are_told_by_name<N>(info: EpisodeNotificationInfo)
    ensures
        ({
            let record = episode_record::<N>(info);
            &&& record.len() == 10
            &&& has_only(record, "id"@, LeafView::Int(info.episode_id))
            &&& has_only(record, "title"@, LeafView::Text(info.title@))
            &&& info.episode_description matches Some(value) ==> has_only(
                record,
                "description"@,
                LeafView::Text(value@),
            )
            &&& info.episode_description is None ==> has_only(
                record,
                "description"@,
                LeafView::Null,
            )
            &&& info.episode_url matches Some(value) ==> has_only(
                record,
                "url"@,
                LeafView::Text(value@),
            )
            &&& info.episode_url is None ==> has_only(record, "url"@, LeafView::Null)
            &&& info.episode_artwork matches Some(value) ==> has_only(
                record,
                "artwork_url"@,
                LeafView::Text(value@),
            )
            &&& info.episode_artwork is None ==> has_only(record, "artwork_url"@, LeafView::Null)
            &&& has_only(record, "duration_sec"@, LeafView::Int(info.duration))
            &&& info.episode_pub_date matches Some(value) ==> has_only(
                record,
                "published_at"@,
                LeafView::Text(value@),
            )
            &&& info.episode_pub_date is None ==> has_only(record, "published_at"@, LeafView::Null)
            &&& info.episode_guid matches Some(value) ==> has_only(
                record,
                "guid"@,
                LeafView::Text(value@),
            )
            &&& info.episode_guid is None ==> has_only(record, "guid"@, LeafView::Null)
            &&& has_only(record, "is_video"@, LeafView::Bool(info.is_video))
            &&& has_only(record, "is_youtube"@, LeafView::Bool(info.is_youtube))
        }),
{
    lemma_episode_names();
    let record = episode_record::<N>(info);
    let names = seq![
        "id"@,
        "title"@,
        "description"@,
        "url"@,
        "artwork_url"@,
        "duration_sec"@,
        "published_at"@,
        "guid"@,
        "is_video"@,
        "is_youtube"@,
    ];
    assert forall|i: int| 0 <= i < names.len() implies (#[trigger] record[i]).0 == names[i] by {}
    lemma_only(record, names, 0);
    lemma_only(record, names, 1);
    lemma_only(record, names, 2);
    lemma_only(record, names, 3);
    lemma_only(record, names, 4);
    lemma_only(record, names, 5);
    lemma_only(record, names, 6);
    lemma_only(record, names, 7);
    lemma_only(record, names, 8);
    lemma_only(record, names, 9);
}

proof fn lemma_playback_names()
    ensures
        seq![
            "position_sec"@,
            "percent"@,
            "device_name"@,
        ].no_duplicates(),
{
    reveal_strlit("position_sec");
    reveal_strlit("percent");
    reveal_strlit("device_name");
    assert("position_sec"@.len() == 12 && "position_sec"@[0] == 'p');
    assert("percent"@.len() == 7 && "percent"@[0] == 'p');
    assert("device_name"@.len() == 11 && "device_name"@[0] == 'd');
}

/// A webhook is told of the playback, each fact once and under its name, and of what
/// is not known as `null`.
pub proof fn law_playbacks_are_told_by_name<N>(playback: PlaybackContext<N>)
    ensures
        ({
            let record = playback_record(playback);
            &&& record.len() == 3
            &&& playback.position_sec matches Some(value) ==> has_only(
                record,
                "position_sec"@,
                LeafView::Number(value),
            )
            &&& playback.position_sec is None ==> has_only(record, "position_sec"@, LeafView::Null)
            &&& playback.percent matches Some(value) ==> has_only(
                record,
                "percent"@,
                LeafView::Int(value),
            )
            &&& playback.percent is None ==> has_only(record, "percent"@, LeafView::Null)
            &&& playback.device_name matches Some(value) ==> has_only(
                record,
                "device_name"@,
                LeafView::Text(value@),
            )
            &&& playback.device_name is None ==> has_only(record, "device_name"@, LeafView::Null)
        }),
{
    lemma_playback_names();
    let record = playback_record(playback);
    let names = seq![
        "position_sec"@,
        "percent"@,
        "device_name"@,
    ];
    assert forall|i: int| 0 <= i < names.len() implies (#[trigger] record[i]).0 == names[i] by {}
    lemma_only(record, names, 0);
    lemma_only(record, names, 1);
    lemma_only(record, names, 2);
}

/// Events go to a platform exactly if it is enabled, is one of the three, and has what
/// its requests need: ntfy a topic, Gotify a server and a token, a webhook an address.
pub proof fn law_targets_are_enabled_and_complete(document: JsonModel)
    ensures
        is_target(document) <==> document.bool_at("enabled"@) == Some(true) && {
            ||| document.str_at("platform"@) == Some("ntfy"@) && is_given(
                document.str_at("ntfy_topic"@),
            )
            ||| document.str_at("platform"@) == Some("gotify"@) && is_given(
                document.str_at("gotify_url"@),
            ) && is_given(document.str_at("gotify_token"@))
            ||| document.str_at("platform"@) == Some("http"@) && is_given(
                document.str_at("http_url"@),
            )
        },
{
    lemma_platforms_are_told_apart();
    reveal_strlit("ntfy");
    reveal_strlit("gotify");
    reveal_strlit("http");
    assert("ntfy"@.len() > 0 && "gotify"@.len() > 0 && "http"@.len() > 0);
}

/// A platform that is not one of the three, or that lacks what its requests need, gets
/// no request, and every other gets one.
pub proof fn law_requests_need_their_settings<N>(
    platform: Seq<char>,
    document: JsonModel,
    event: NotificationEvent<'_, N>,
    timestamp: Seq<char>,
)
    ensures
        platform_delivery(platform, document, event, timestamp) is Some <==> {
            ||| platform == "ntfy"@ && is_given(document.str_at("ntfy_topic"@))
            ||| platform == "gotify"@ && is_given(document.str_at("gotify_url"@)) && is_given(
                document.str_at("gotify_token"@),
            )
            ||| platform == "http"@ && is_given(document.str_at("http_url"@))
        },
{
    lemma_platforms_are_told_apart();
}

/// A notification arrives exactly if one of the platforms answers with a status from
/// 200 to 299.
pub proof fn law_success_takes_one_good_answer(answers: Seq<Option<u16>>)
    ensures
        any_accepted(answers) <==> exists|i: int|
            0 <= i < answers.len() && (#[trigger] answers[i] matches Some(status) && 200 <= status
                <= 299),
{
    if any_accepted(answers) {
        let i = choose|i: int| 0 <= i < answers.len() && is_accepted(#[trigger] answers[i]);
        assert(answers[i] matches Some(status) && 200 <= status <= 299);
    }
    if exists|i: int|
        0 <= i < answers.len() && (#[trigger] answers[i] matches Some(status) && 200 <= status
            <= 299) {
        let i = choose|i: int|
            0 <= i < answers.len() && (#[trigger] answers[i] matches Some(status) && 200 <= status
                <= 299);
        assert(is_accepted(answers[i]));
    }
}

/// A test notification carries the message that was asked for, as a test, for the
/// user, and tells of no episode and no playback.
pub proof fn law_test_notifications_say_so<'a, N>(user_id: i32, message: &'a str)
    ensures
        ({
            let event = test_event::<N>(user_id, message);
            &&& event.kind@ == "test"@
            &&& event.title@ == "PinePods Test"@
            &&& event.message@ == message@
            &&& event.user_id == user_id
            &&& event.episode is None
            &&& event.playback is None
        }),
{
}

/// A request that is looked at as plain values keeps its method, its address, its
/// headers in order, its credentials and its body.
pub proof fn law_requests_are_seen_whole<N>(request: HttpRequest<N>)
    ensures
        request@.method == request.method,
        request@.url == request.url@,
        request@.headers.len() == request.headers@.len(),
        forall|i: int|
            0 <= i < request.headers@.len() ==> (#[trigger] request@.headers[i]).0
                == request.headers@[i].0@ && request@.headers[i].1 == request.headers@[i].1@,
        request.basic_auth matches Some(pair) ==> request@.basic_auth == Some((pair.0@, pair.1@)),
        request.basic_auth is None ==> request@.basic_auth is None,
        request.body is Empty ==> request@.body is Empty,
        request.body matches HttpBody::Text(text) ==> request@.body == BodyView::<N>::Text(text@),
        request.body matches HttpBody::Json(document) ==> request@.body == BodyView::Json(
            document@,
        ),
{
}

/// An event goes on to the platforms exactly if the user switched its own category on:
/// new content by the first of the preferences, playback by the second. Otherwise it is
/// over, undelivered, and preferences that cannot be read are an error.
pub proof fn law_categories_have_their_own_switch<E>(content: bool, playback: bool, e: E)
    ensures
        dispatch_of::<E>(NotificationCategory::NewContent, Ok((content, playback)))
            is LoadSettings <==> content,
        dispatch_of::<E>(NotificationCategory::Playback, Ok((content, playback)))
            is LoadSettings <==> playback,
        !content ==> dispatch_of::<E>(NotificationCategory::NewContent, Ok((content, playback)))
            == DispatchStep::<E>::Done(Ok(false)),
        !playback ==> dispatch_of::<E>(NotificationCategory::Playback, Ok((content, playback)))
            == DispatchStep::<E>::Done(Ok(false)),
        forall|category: NotificationCategory| #[trigger]
            dispatch_of::<E>(category, Err(e)) == DispatchStep::<E>::Done(Err(e)),
{
}

/// A platform may take two seconds to answer, and the kinds of events have the names
/// that webhooks know.
pub proof fn law_webhooks_know_these_names()
    ensures
        NOTIFICATION_TIMEOUT_SECS == 2,
        EVENT_NEW_CONTENT@ == "new_content"@,
        EVENT_PLAYBACK_STARTED@ == "playback_started"@,
        EVENT_PLAYBACK_PROGRESS@ == "playback_progress"@,
        EVENT_PLAYBACK_FINISHED@ == "playback_finished"@,
{
}

} // verus!
