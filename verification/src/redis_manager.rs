//! The progress of a user's import, kept in the store, and the notifications that
//! a user asks for by hand.

use crate::json::{
    empty_object, int_member, json_contents, json_read, json_written, kind_of, parse_json, set_int,
    set_str, str_member, write_json, JsonKind, JsonMember, JsonModel, RAW_VALUE_KEY,
};
use crate::redis_client::{RedisArg, RedisCommand};
use crate::services::notifications::{
    is_configured, is_utc_time, opt_request, platform_delivery, send_test, test_event, HttpRequest,
};
use crate::text::{decimal, int_decimal, lemma_int_decimal_injective, lemma_prefix_cancels};
use vstd::prelude::*;
use vstd::string::*;

verus! {

/// How long the progress of an import is kept after its last change.
pub const PROGRESS_TTL_SECONDS: u64 = 3600;

/// The key under which a user's import progress is kept.
pub open spec fn progress_key(user_id: i32) -> Seq<char> {
    "import_progress:"@ + int_decimal(user_id as int)
}

/// The document that records how far an import has come.
pub open spec fn progress_document(current: i32, total: i32, podcast: Seq<char>) -> JsonModel {
    JsonModel::Object(Map::empty()).with("current"@, JsonMember::Int(current as i64)).with(
        "total"@,
        JsonMember::Int(total as i64),
    ).with("current_podcast"@, JsonMember::Str(podcast))
}

/// A document with the position of the import moved on.
pub open spec fn advanced(document: JsonModel, current: i32, podcast: Seq<char>) -> JsonModel {
    document.with("current"@, JsonMember::Int(current as i64)).with(
        "current_podcast"@,
        JsonMember::Str(podcast),
    )
}

/// A number of a document: zero where there is none, and its lowest 32 bits.
pub open spec fn number_in(document: JsonModel, key: Seq<char>) -> i32 {
    match document.int_at(key) {
        Some(number) => number as i32,
        None => 0,
    }
}

/// The name of the podcast that a document records: empty where there is none.
pub open spec fn podcast_in(document: JsonModel) -> Seq<char> {
    match document.str_at("current_podcast"@) {
        Some(podcast) => podcast,
        None => Seq::empty(),
    }
}

/// The document that is kept under a key, where there is one that can be read.
pub open spec fn document_in(stored: Option<String>) -> Option<JsonModel> {
    match stored {
        Some(text) => json_read(text@),
        None => None,
    }
}

/// What `update_progress` does to the store.
#[derive(Debug, PartialEq)]
pub enum ProgressUpdate {
    Store(RedisCommand),
    /// No import is being tracked, or what is stored cannot be read.
    Nothing,
    /// What is stored is JSON, but no object that could hold the progress.
    NotAnObject,
}

/// The progress of imports.
pub struct ImportProgressManager {}

impl ImportProgressManager {
    fn key(user_id: i32) -> (r: String)
        ensures
            r@ == progress_key(user_id),
    {
        "import_progress:".to_owned().concat(decimal(user_id).as_str())
    }

    /// Starts to track an import of `total_podcasts`.
    pub fn start_import(user_id: i32, total_podcasts: i32) -> (r: RedisCommand)
        ensures
            r matches RedisCommand::SetEx { key, value, seconds } && key@ == progress_key(user_id)
                && seconds == PROGRESS_TTL_SECONDS && (value matches RedisArg::Text(text) && text@
                == json_written(progress_document(0, total_podcasts, Seq::empty())) && json_read(
                text@,
            ) == Some(progress_document(0, total_podcasts, Seq::empty()))),
    {
        let mut document = empty_object();
        set_int(&mut document, "current", 0);
        set_int(&mut document, "total", total_podcasts);
        set_str(&mut document, "current_podcast", "");
        proof {
            reveal_strlit("");
            assert(""@ == Seq::<char>::empty());
            law_progress_document_is_flat(0, total_podcasts, Seq::empty());
        }
        let text = write_json(&document);
        RedisCommand::SetEx {
            key: Self::key(user_id),
            value: RedisArg::Text(text),
            seconds: PROGRESS_TTL_SECONDS,
        }
    }

    /// Reads what is stored about a user's import.
    pub fn load(user_id: i32) -> (r: RedisCommand)
        ensures
            r matches RedisCommand::Get { key } && key@ == progress_key(user_id),
    {
        RedisCommand::Get { key: Self::key(user_id) }
    }

    /// Moves the progress on, given what `load` found. The rest of the document is
    /// kept.
    pub fn update_progress(
        user_id: i32,
        stored: &Option<String>,
        current: i32,
        current_podcast: &str,
    ) -> (r: ProgressUpdate)
        ensures
            match document_in(*stored) {
                None => r is Nothing,
                Some(document) => if document.takes_members() {
                    r matches ProgressUpdate::Store(command) && (
                    command matches RedisCommand::SetEx { key, value, seconds } && key@
                        == progress_key(user_id) && seconds == PROGRESS_TTL_SECONDS && (
                    value matches RedisArg::Text(text) && text@ == json_written(
                        advanced(document, current, current_podcast@),
                    ) && (document.is_flat() ==> json_read(text@) == Some(
                        advanced(document, current, current_podcast@),
                    ))))
                } else {
                    r is NotAnObject
                },
            },
    {
        let text = match stored {
            Some(text) => text,
            None => return ProgressUpdate::Nothing,
        };
        let mut document = match parse_json(text.as_str()) {
            Some(document) => document,
            None => return ProgressUpdate::Nothing,
        };
        match kind_of(&document) {
            JsonKind::Other => return ProgressUpdate::NotAnObject,
            _ => {},
        }
        proof {
            lemma_progress_members_are_plain();
        }
        set_int(&mut document, "current", current);
        set_str(&mut document, "current_podcast", current_podcast);
        let text = write_json(&document);
        ProgressUpdate::Store(
            RedisCommand::SetEx {
                key: Self::key(user_id),
                value: RedisArg::Text(text),
                seconds: PROGRESS_TTL_SECONDS,
            },
        )
    }

    /// How far the import is, given what `load` found: the number of podcasts that
    /// are done, their total, and the name of the current one.
    pub fn get_progress(stored: &Option<String>) -> (r: (i32, i32, String))
        ensures
            match document_in(*stored) {
                None => r.0 == 0 && r.1 == 0 && r.2@ == Seq::<char>::empty(),
                Some(document) => r.0 == number_in(document, "current"@) && r.1 == number_in(
                    document,
                    "total"@,
                ) && r.2@ == podcast_in(document),
            },
    {
        let text = match stored {
            Some(text) => text,
            None => return (0, 0, String::new()),
        };
        let document = match parse_json(text.as_str()) {
            Some(document) => document,
            None => return (0, 0, String::new()),
        };
        Self::progress_from(
            int_member(&document, "current"),
            int_member(&document, "total"),
            str_member(&document, "current_podcast"),
        )
    }

    /// The progress that the members of a stored document amount to. What is
    /// missing counts as zero or as no name; a number keeps its lowest 32 bits.
    pub fn progress_from(current: Option<i64>, total: Option<i64>, podcast: Option<&str>) -> (r: (
        i32,
        i32,
        String,
    ))
        ensures
            r.0 == (match current {
                Some(number) => number as i32,
                None => 0,
            }),
            r.1 == (match total {
                Some(number) => number as i32,
                None => 0,
            }),
            r.2@ == (match podcast {
                Some(name) => name@,
                None => Seq::empty(),
            }),
    {
        let current = match current {
            Some(number) => number as i32,
            None => 0,
        };
        let total = match total {
            Some(number) => number as i32,
            None => 0,
        };
        let podcast = match podcast {
            Some(name) => name.to_owned(),
            None => String::new(),
        };
        (current, total, podcast)
    }

    /// Forgets the progress of a user's import.
    pub fn clear_progress(user_id: i32) -> (r: RedisCommand)
        ensures
            r matches RedisCommand::Del { key } && key@ == progress_key(user_id),
    {
        RedisCommand::Del { key: Self::key(user_id) }
    }
}

/// The notifications that a user asks for by hand.
pub struct NotificationManager {}

impl NotificationManager {
    pub fn new() -> (r: Self)
        ensures
            r == (NotificationManager {  }),
    {
        NotificationManager {  }
    }

    /// The request that sends the user a test notification on a platform.
    pub fn send_test_notification<N: Copy>(
        &self,
        user_id: i32,
        platform: &str,
        settings: &serde_json::Value,
    ) -> (r: Option<HttpRequest<N>>)
        ensures
            r is Some <==> is_configured(platform@, json_contents(*settings)),
            exists|timestamp: Seq<char>|
                is_utc_time(timestamp) && opt_request(r) == #[trigger] platform_delivery(
                    platform@,
                    json_contents(*settings),
                    test_event::<N>(user_id, "Test notification from PinePods"),
                    timestamp,
                ),
    {
        send_test(user_id, platform, settings, "Test notification from PinePods")
    }
}

/// The document of an import holds numbers and a string, so that its text is read
/// back as it was written.
pub proof fn law_progress_document_is_flat(current: i32, total: i32, podcast: Seq<char>)
    ensures
        progress_document(current, total, podcast).is_flat(),
{
    lemma_progress_members_are_plain();
}

/// The members of a progress document have names of their own, none of which is
/// kept for raw values.
proof fn lemma_progress_members_are_plain()
    ensures
        "current"@ != RAW_VALUE_KEY@,
        "total"@ != RAW_VALUE_KEY@,
        "current_podcast"@ != RAW_VALUE_KEY@,
{
    reveal_strlit("current");
    reveal_strlit("total");
    reveal_strlit("current_podcast");
    reveal_strlit("$serde_json::private::RawValue");
    assert("current"@[0] == 'c' && "total"@[0] == 't' && "current_podcast"@[0] == 'c');
    assert(RAW_VALUE_KEY@[0] == '$');
}

/// Two users never share the progress of an import.
pub proof fn law_progress_keys_are_distinct(u1: i32, u2: i32)
    requires
        progress_key(u1) == progress_key(u2),
    ensures
        u1 == u2,
{
    lemma_prefix_cancels("import_progress:"@, int_decimal(u1 as int), int_decimal(u2 as int));
    lemma_int_decimal_injective(u1 as int, u2 as int);
}

/// What is written about an import is what `get_progress` reads.
pub proof fn law_progress_is_read_back(current: i32, total: i32, podcast: Seq<char>)
    ensures
        number_in(progress_document(current, total, podcast), "current"@) == current,
        number_in(progress_document(current, total, podcast), "total"@) == total,
        podcast_in(progress_document(current, total, podcast)) == podcast,
{
    reveal_strlit("current");
    reveal_strlit("total");
    reveal_strlit("current_podcast");
    assert("current"@.len() == 7 && "total"@.len() == 5 && "current_podcast"@.len() == 15);
}

/// An update changes the position and the podcast, keeps the total, and gives the
/// document that a fresh write of the three would give. So any number of updates
/// can follow a start, and each is read back.
pub proof fn law_update_replaces_position(
    old_current: i32,
    total: i32,
    old_podcast: Seq<char>,
    current: i32,
    podcast: Seq<char>,
)
    ensures
        advanced(progress_document(old_current, total, old_podcast), current, podcast)
            == progress_document(current, total, podcast),
{
    reveal_strlit("current");
    reveal_strlit("total");
    reveal_strlit("current_podcast");
    assert("current"@.len() == 7 && "total"@.len() == 5 && "current_podcast"@.len() == 15);
    assert(advanced(progress_document(old_current, total, old_podcast), current, podcast).members()
        =~= progress_document(current, total, podcast).members());
}

/// A document records how far an import is under three names, and nothing else.
pub proof fn law_progress_is_recorded_by_name(current: i32, total: i32, podcast: Seq<char>)
    ensures
        ({
            let document = progress_document(current, total, podcast);
            &&& document.int_at("current"@) == Some(current as i64)
            &&& document.int_at("total"@) == Some(total as i64)
            &&& document.str_at("current_podcast"@) == Some(podcast)
            &&& forall|name: Seq<char>| #[trigger]
                document.members().contains_key(name) <==> name == "current"@ || name == "total"@
                    || name == "current_podcast"@
        }),
{
    reveal_strlit("current");
    reveal_strlit("total");
    reveal_strlit("current_podcast");
    assert("current"@.len() == 7 && "total"@.len() == 5 && "current_podcast"@.len() == 15);
}

/// An update of any document sets the position and the podcast, and keeps every other
/// member as it was.
pub proof fn law_updates_keep_the_rest(
    document: JsonModel,
    current: i32,
    podcast: Seq<char>,
    name: Seq<char>,
)
    ensures
        advanced(document, current, podcast).int_at("current"@) == Some(current as i64),
        advanced(document, current, podcast).str_at("current_podcast"@) == Some(podcast),
        name != "current"@ && name != "current_podcast"@ ==> {
            let after = advanced(document, current, podcast).members();
            &&& after.contains_key(name) <==> document.members().contains_key(name)
            &&& after.contains_key(name) ==> after[name] == document.members()[name]
        },
{
    reveal_strlit("current");
    reveal_strlit("current_podcast");
    assert("current"@.len() == 7 && "current_podcast"@.len() == 15);
}

/// What is read of a document is what stands in it: a number that fits is read as it
/// is, and what is missing or of another kind counts as zero, or as no name.
pub proof fn law_progress_is_read_as_it_stands(
    document: JsonModel,
    name: Seq<char>,
    stored: String,
)
    ensures
        document_in(Some(stored)) == json_read(stored@),
        document_in(None) is None,
        document.int_at(name) matches Some(number) ==> i32::MIN <= number <= i32::MAX ==> number_in(
            document,
            name,
        ) as int == number as int,
        document.int_at(name) is None ==> number_in(document, name) == 0,
        document.str_at("current_podcast"@) matches Some(podcast) ==> podcast_in(document)
            == podcast,
        document.str_at("current_podcast"@) is None ==> podcast_in(document).len() == 0,
{
}

} // verus!
