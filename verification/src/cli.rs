//! The admin command line, handled before the server starts.
//!
//! The password of a new user is read from standard input and never from an
//! argument, so that it ends up neither in the shell history nor in the process
//! list.

use crate::error::{AppError, AppResult, ErrorView, Failure, FailureView};
use crate::services::auth::{argon2_matches, hash_password, is_hash_outcome, phc_error};
use crate::text::{
    ascii_lower, cut_end, decimal, in_lower_case, int_decimal, law_ends_are_cut, lowercase,
    opt_text, same, trim, trim_end, trimmed, CharClass,
};
use vstd::prelude::*;
use vstd::string::*;
use vstd::utf8::*;

verus! {

/// What the program prints for `--help` and after a usage error.
pub const USAGE: &'static str = "\
PinePods API admin CLI

Usage:
  pinepods-api --create-user --username <name> --email <email> --password-stdin
               [--fullname <name>] [--admin] [--print-api-key]
  pinepods-api --help

Options:
  --create-user       Create a user and exit
  --username <name>   Username (stored lowercase)
  --email <email>     Email address
  --fullname <name>   Display name (defaults to the username)
  --admin             Grant admin rights (may be used more than once)
  --print-api-key     Also print an API key for the new user
  --password-stdin    Read the password as one line from stdin
  --help              Show this help

The database connection is read from DB_TYPE/DB_HOST/DB_PORT/DB_USER/
DB_PASSWORD/DB_NAME (or a .env file in the working directory).

Examples:
  docker exec -i pinepods pinepods-api --create-user \\
    --username alice --email alice@example.com --password-stdin <<< 'secret'

  printf '%s\\n' \"$ADMIN_PW\" | pinepods-api --create-user \\
    --username admin --email admin@example.com --admin --print-api-key --password-stdin
";

/// The arguments of `--create-user`.
#[derive(Debug, PartialEq)]
pub struct CreateUserArgs {
    pub username: String,
    pub email: String,
    pub fullname: Option<String>,
    pub admin: bool,
    pub print_api_key: bool,
}

/// A command given on the command line.
#[derive(Debug, PartialEq)]
pub enum CliCommand {
    CreateUser(CreateUserArgs),
    Help,
}

/// `CreateUserArgs` with its strings as character sequences.
pub struct CreateUserView {
    pub username: Seq<char>,
    pub email: Seq<char>,
    pub fullname: Option<Seq<char>>,
    pub admin: bool,
    pub print_api_key: bool,
}

/// `CliCommand` with its strings as character sequences.
pub enum CommandView {
    CreateUser(CreateUserView),
    Help,
}

impl View for CreateUserArgs {
    type V = CreateUserView;

    open spec fn view(&self) -> CreateUserView {
        CreateUserView {
            username: self.username@,
            email: self.email@,
            fullname: opt_text(self.fullname),
            admin: self.admin,
            print_api_key: self.print_api_key,
        }
    }
}

impl View for CliCommand {
    type V = CommandView;

    open spec fn view(&self) -> CommandView {
        match self {
            CliCommand::CreateUser(args) => CommandView::CreateUser(args@),
            CliCommand::Help => CommandView::Help,
        }
    }
}

/// The outcome of parsing, with its strings as character sequences.
pub open spec fn parsed_view(r: Result<Option<CliCommand>, String>) -> Result<
    Option<CommandView>,
    Seq<char>,
> {
    match r {
        Ok(Some(command)) => Ok(Some(command@)),
        Ok(None) => Ok(None),
        Err(message) => Err(message@),
    }
}

/// The strings of `args` as character sequences.
pub open spec fn texts(args: Seq<String>) -> Seq<Seq<char>> {
    args.map_values(|s: String| s@)
}

/// What the flags read so far have set.
pub struct Flags {
    pub username: Option<Seq<char>>,
    pub email: Option<Seq<char>>,
    pub fullname: Option<Seq<char>>,
    pub admin: bool,
    pub print_api_key: bool,
    pub password_stdin: bool,
}

/// No flag has been read.
pub open spec fn no_flags() -> Flags {
    Flags {
        username: None,
        email: None,
        fullname: None,
        admin: false,
        print_api_key: false,
        password_stdin: false,
    }
}

/// The flags that the next argument is the value of.
pub open spec fn takes_value(arg: Seq<char>) -> bool {
    arg == "--username"@ || arg == "--email"@ || arg == "--fullname"@
}

/// The flags that stand alone.
pub open spec fn stands_alone(arg: Seq<char>) -> bool {
    arg == "--create-user"@ || arg == "--admin"@ || arg == "--print-api-key"@ || arg
        == "--password-stdin"@
}

impl Flags {
    /// The effect of a flag that stands alone.
    pub open spec fn raise(self, arg: Seq<char>) -> Flags {
        Flags {
            admin: self.admin || arg == "--admin"@,
            print_api_key: self.print_api_key || arg == "--print-api-key"@,
            password_stdin: self.password_stdin || arg == "--password-stdin"@,
            ..self
        }
    }

    /// The effect of a flag with its value: a later value replaces an earlier one.
    pub open spec fn assign(self, arg: Seq<char>, value: Seq<char>) -> Flags {
        if arg == "--username"@ {
            Flags { username: Some(value), ..self }
        } else if arg == "--email"@ {
            Flags { email: Some(value), ..self }
        } else {
            Flags { fullname: Some(value), ..self }
        }
    }

    /// The new user that the flags describe, or the first complaint about them.
    pub open spec fn checked(self) -> Result<CreateUserView, Seq<char>> {
        if self.username is None {
            Err("Missing --username"@)
        } else if self.email is None {
            Err("Missing --email"@)
        } else if trimmed(self.username->0).len() == 0 {
            Err("--username cannot be empty"@)
        } else if trimmed(self.email->0).len() == 0 {
            Err("--email cannot be empty"@)
        } else if !self.password_stdin {
            Err("Missing --password-stdin (passwords are read from stdin)"@)
        } else {
            Ok(
                CreateUserView {
                    username: self.username->0,
                    email: self.email->0,
                    fullname: self.fullname,
                    admin: self.admin,
                    print_api_key: self.print_api_key,
                },
            )
        }
    }
}

/// Reads the arguments from position `at` on, left to right.
pub open spec fn read_flags(args: Seq<Seq<char>>, at: int, flags: Flags) -> Result<
    Flags,
    Seq<char>,
>
    decreases args.len() - at,
{
    if at >= args.len() {
        Ok(flags)
    } else if stands_alone(args[at]) {
        read_flags(args, at + 1, flags.raise(args[at]))
    } else if takes_value(args[at]) {
        if at + 1 < args.len() {
            read_flags(args, at + 2, flags.assign(args[at], args[at + 1]))
        } else {
            Err(args[at] + " requires a value"@)
        }
    } else {
        Err("Unknown argument: "@ + args[at])
    }
}

/// Help was asked for.
pub open spec fn wants_help(args: Seq<Seq<char>>) -> bool {
    args.contains("--help"@) || args.contains("-h"@)
}

/// A new user was asked for.
pub open spec fn wants_create(args: Seq<Seq<char>>) -> bool {
    args.contains("--create-user"@)
}

/// The command that `args` (the program's name first) amount to.
pub open spec fn parsed(args: Seq<Seq<char>>) -> Result<Option<CommandView>, Seq<char>> {
    if wants_help(args) {
        Ok(Some(CommandView::Help))
    } else if !wants_create(args) {
        Ok(None)
    } else {
        match read_flags(args, 1, no_flags()) {
            Err(message) => Err(message),
            Ok(flags) => match flags.checked() {
                Err(message) => Err(message),
                Ok(user) => Ok(Some(CommandView::CreateUser(user))),
            },
        }
    }
}

/// Whether one of the arguments is `word`.
fn has_argument(args: &[String], word: &str) -> (r: bool)
    ensures
        r == texts(args@).contains(word@),
{
    let mut i: usize = 0;
    while i < args.len()
        invariant
            i <= args.len(),
            forall|k: int| 0 <= k < i ==> args@[k]@ != word@,
        decreases args.len() - i,
    {
        if same(args[i].as_str(), word) {
            assert(texts(args@)[i as int] == word@);
            return true;
        }
        i = i + 1;
    }
    assert(forall|k: int| 0 <= k < args@.len() ==> texts(args@)[k] == args@[k]@);
    false
}

/// Parses the command line, the program's name included.
///
/// `Ok(None)` means that no command was given, so that the server is to start;
/// an error is a usage error, with the text to show.
pub fn parse_args(args: &[String]) -> (r: Result<Option<CliCommand>, String>)
    ensures
        parsed_view(r) == parsed(texts(args@)),
{
    let ghost words = texts(args@);
    if has_argument(args, "--help") || has_argument(args, "-h") {
        return Ok(Some(CliCommand::Help));
    }
    if !has_argument(args, "--create-user") {
        return Ok(None);
    }
    let mut username: Option<String> = None;
    let mut email: Option<String> = None;
    let mut fullname: Option<String> = None;
    let mut admin = false;
    let mut print_api_key = false;
    let mut password_stdin = false;

    let mut i: usize = 1;
    while i < args.len()
        invariant
            1 <= i,
            words == texts(args@),
            words.len() == args@.len(),
            !wants_help(words),
            wants_create(words),
            read_flags(words, 1, no_flags()) == read_flags(
                words,
                i as int,
                Flags {
                    username: opt_text(username),
                    email: opt_text(email),
                    fullname: opt_text(fullname),
                    admin,
                    print_api_key,
                    password_stdin,
                },
            ),
        decreases args.len() - i,
    {
        let arg = args[i].as_str();
        assert(words[i as int] == arg@);
        proof {
            reveal_strlit("--create-user");
            reveal_strlit("--admin");
            reveal_strlit("--print-api-key");
            reveal_strlit("--password-stdin");
            reveal_strlit("--username");
            reveal_strlit("--email");
            reveal_strlit("--fullname");
        }
        if same(arg, "--create-user") {
        } else if same(arg, "--admin") {
            admin = true;
        } else if same(arg, "--print-api-key") {
            print_api_key = true;
        } else if same(arg, "--password-stdin") {
            password_stdin = true;
        } else if same(arg, "--username") || same(arg, "--email") || same(arg, "--fullname") {
            if i + 1 >= args.len() {
                return Err(arg.to_owned().concat(" requires a value"));
            }
            let value = args[i + 1].clone();
            assert(words[i + 1] == value@);
            if same(arg, "--username") {
                username = Some(value);
            } else if same(arg, "--email") {
                email = Some(value);
            } else {
                fullname = Some(value);
            }
            i = i + 1;
        } else {
            return Err("Unknown argument: ".to_owned().concat(arg));
        }
        i = i + 1;
    }

    let username = match username {
        Some(username) => username,
        None => return Err("Missing --username".to_owned()),
    };
    let email = match email {
        Some(email) => email,
        None => return Err("Missing --email".to_owned()),
    };
    if trim(username.as_str()).is_empty() {
        return Err("--username cannot be empty".to_owned());
    }
    if trim(email.as_str()).is_empty() {
        return Err("--email cannot be empty".to_owned());
    }
    if !password_stdin {
        return Err("Missing --password-stdin (passwords are read from stdin)".to_owned());
    }
    Ok(
        Some(
            CliCommand::CreateUser(
                CreateUserArgs { username, email, fullname, admin, print_api_key },
            ),
        ),
    )
}

// ------------------------------------------------------------------
// Running a command
// ------------------------------------------------------------------

/// The exit code after a usage error.
pub const USAGE_EXIT_CODE: i32 = 2;

/// The exit code after a command that failed.
pub const FAILURE_EXIT_CODE: i32 = 1;

/// What the process does before the server starts, or in its place.
#[derive(Debug, PartialEq)]
pub enum CliRun {
    /// No command was given.
    StartServer,
    /// Print the text and exit.
    ShowUsage { text: &'static str },
    /// Print the text as an error and exit with the code.
    Reject { report: String, code: i32 },
    /// Create the user and exit.
    CreateUser(CreateUserArgs),
}

/// `CliRun` with its strings as character sequences.
pub enum RunView {
    StartServer,
    ShowUsage(Seq<char>),
    Reject { report: Seq<char>, code: i32 },
    CreateUser(CreateUserView),
}

impl View for CliRun {
    type V = RunView;

    open spec fn view(&self) -> RunView {
        match *self {
            CliRun::StartServer => RunView::StartServer,
            CliRun::ShowUsage { text } => RunView::ShowUsage(text@),
            CliRun::Reject { report, code } => RunView::Reject { report: report@, code },
            CliRun::CreateUser(args) => RunView::CreateUser(args@),
        }
    }
}

/// What a parsed command line leads to.
pub open spec fn run_of(command: Result<Option<CommandView>, Seq<char>>) -> RunView {
    match command {
        Ok(None) => RunView::StartServer,
        Ok(Some(CommandView::Help)) => RunView::ShowUsage(USAGE@),
        Ok(Some(CommandView::CreateUser(user))) => RunView::CreateUser(user),
        Err(message) => RunView::Reject {
            report: "Error: "@ + message + "\n\n"@ + USAGE@,
            code: USAGE_EXIT_CODE,
        },
    }
}

/// Decides what the command line asks for.
pub fn maybe_run(args: &[String]) -> (r: CliRun)
    ensures
        r@ == run_of(parsed(texts(args@))),
        match parsed(texts(args@)) {
            Ok(None) => r is StartServer,
            Ok(Some(CommandView::Help)) => r matches CliRun::ShowUsage { text } && text@
                == USAGE@,
            Ok(Some(CommandView::CreateUser(user))) => r matches CliRun::CreateUser(args) && args@
                == user,
            Err(message) => r matches CliRun::Reject { report, code } && report@ == "Error: "@
                + message + "\n\n"@ + USAGE@ && code == USAGE_EXIT_CODE,
        },
{
    match parse_args(args) {
        Ok(None) => CliRun::StartServer,
        Ok(Some(CliCommand::Help)) => CliRun::ShowUsage { text: USAGE },
        Ok(Some(CliCommand::CreateUser(args))) => CliRun::CreateUser(args),
        Err(message) => CliRun::Reject {
            report: "Error: ".to_owned().concat(message.as_str()).concat("\n\n").concat(USAGE),
            code: USAGE_EXIT_CODE,
        },
    }
}

/// The password in a line of input: the line without its line end. The error is
/// what the terminal reported.
pub open spec fn password_of(line: Result<String, String>) -> Result<Seq<char>, ErrorView> {
    match line {
        Err(complaint) => Err(
            ErrorView::Config("Failed to read password from stdin: "@ + complaint@),
        ),
        Ok(line) => if cut_end(line@, CharClass::LineEnd).len() == 0 {
            Err(ErrorView::Config("No password received on stdin (use --password-stdin)"@))
        } else {
            Ok(cut_end(line@, CharClass::LineEnd))
        },
    }
}

/// Takes the password out of the line that was read from standard input.
pub fn read_password_stdin(line: Result<String, String>) -> (r: AppResult<String>)
    ensures
        match password_of(line) {
            Ok(password) => r matches Ok(text) && text@ == password,
            Err(e) => r matches Err(error) && error@ == e,
        },
{
    match line {
        Err(complaint) => Err(
            AppError::Config(
                "Failed to read password from stdin: ".to_owned().concat(complaint.as_str()),
            ),
        ),
        Ok(line) => {
            let password = trim_end(line.as_str(), CharClass::LineEnd);
            if password.is_empty() {
                Err(
                    AppError::Config(
                        "No password received on stdin (use --password-stdin)".to_owned(),
                    ),
                )
            } else {
                Ok(password.to_owned())
            }
        },
    }
}

/// The user that is created.
#[derive(Debug, PartialEq)]
pub struct Profile {
    pub username: String,
    pub email: String,
    pub fullname: String,
    pub admin: bool,
    pub print_api_key: bool,
}

/// `Profile` with its strings as character sequences.
pub struct ProfileView {
    pub username: Seq<char>,
    pub email: Seq<char>,
    pub fullname: Seq<char>,
    pub admin: bool,
    pub print_api_key: bool,
}

impl View for Profile {
    type V = ProfileView;

    open spec fn view(&self) -> ProfileView {
        ProfileView {
            username: self.username@,
            email: self.email@,
            fullname: self.fullname@,
            admin: self.admin,
            print_api_key: self.print_api_key,
        }
    }
}

/// How a user name is stored: trimmed and in lower case.
pub open spec fn stored_username(username: Seq<char>) -> Seq<char> {
    in_lower_case(trimmed(username))
}

/// The user that the arguments describe. One without a name to show is shown by
/// the user name.
pub open spec fn profile_of(args: CreateUserView) -> ProfileView {
    ProfileView {
        username: stored_username(args.username),
        email: trimmed(args.email),
        fullname: match args.fullname {
            Some(name) => if trimmed(name).len() == 0 {
                stored_username(args.username)
            } else {
                trimmed(name)
            },
            None => stored_username(args.username),
        },
        admin: args.admin,
        print_api_key: args.print_api_key,
    }
}

impl Profile {
    pub fn new(args: &CreateUserArgs) -> (r: Self)
        ensures
            r@ == profile_of(args@),
    {
        let username = lowercase(trim(args.username.as_str()));
        let fullname = match &args.fullname {
            Some(name) => {
                let name = trim(name.as_str());
                if name.is_empty() {
                    username.clone()
                } else {
                    name.to_owned()
                }
            },
            None => username.clone(),
        };
        Profile {
            username,
            email: trim(args.email.as_str()).to_owned(),
            fullname,
            admin: args.admin,
            print_api_key: args.print_api_key,
        }
    }
}

/// How far the creation of a user has come: what it waits for.
#[derive(Debug, PartialEq)]
pub enum CreateStage {
    /// The database.
    Connecting,
    /// The line with the password.
    Reading,
    /// Whether the user name is taken.
    Looking { password: String },
    /// The new user's number.
    Adding,
    /// The new user's statistics.
    Completing { user_id: i32 },
    /// The report of the new user.
    Reporting { user_id: i32 },
    /// The new user's API key.
    Keying,
    /// The report of the API key.
    Closing,
    Over,
}

/// What is to be done next.
#[derive(Debug, PartialEq)]
pub enum CreateEffect<E> {
    /// Read the database's settings and connect to it.
    Connect,
    /// Read a line from standard input.
    ReadLine,
    /// Look up the number of a user.
    FindUser { username: String },
    /// Add a user, with or without admin rights.
    AddUser {
        fullname: String,
        username: String,
        email: String,
        hashed_pw: String,
        admin: bool,
    },
    /// Make sure that the user has a row of statistics.
    EnsureStats { user_id: i32 },
    /// Print a line.
    Print(String),
    /// Create an API key for the user, or read the one there is.
    CreateApiKey { user_id: i32 },
    Finish(Result<(), Failure<E>>),
}

/// What came of the last effect.
pub enum CreateReply<E> {
    Connected(Result<(), E>),
    /// The line, or what the terminal reported.
    Line(Result<String, String>),
    /// The number of the user, where there is one.
    Found(Result<i32, E>),
    Added(Result<i32, E>),
    StatsReady(Result<(), E>),
    Printed,
    ApiKey(Result<String, E>),
}

/// `CreateEffect` with its strings as character sequences.
pub enum CreateEffectView<E> {
    Connect,
    ReadLine,
    FindUser { username: Seq<char> },
    AddUser {
        fullname: Seq<char>,
        username: Seq<char>,
        email: Seq<char>,
        hashed_pw: Seq<char>,
        admin: bool,
    },
    EnsureStats { user_id: i32 },
    Print(Seq<char>),
    CreateApiKey { user_id: i32 },
    Finish(Result<(), FailureView<E>>),
}

impl<E> View for CreateEffect<E> {
    type V = CreateEffectView<E>;

    open spec fn view(&self) -> CreateEffectView<E> {
        match *self {
            CreateEffect::Connect => CreateEffectView::Connect,
            CreateEffect::ReadLine => CreateEffectView::ReadLine,
            CreateEffect::FindUser { username } => CreateEffectView::FindUser {
                username: username@,
            },
            CreateEffect::AddUser { fullname, username, email, hashed_pw, admin } => {
                CreateEffectView::AddUser {
                    fullname: fullname@,
                    username: username@,
                    email: email@,
                    hashed_pw: hashed_pw@,
                    admin,
                }
            },
            CreateEffect::EnsureStats { user_id } => CreateEffectView::EnsureStats { user_id },
            CreateEffect::Print(line) => CreateEffectView::Print(line@),
            CreateEffect::CreateApiKey { user_id } => CreateEffectView::CreateApiKey { user_id },
            CreateEffect::Finish(Ok(_)) => CreateEffectView::Finish(Ok(())),
            CreateEffect::Finish(Err(failure)) => CreateEffectView::Finish(Err(failure@)),
        }
    }
}

/// `CreateStage` with its strings as character sequences.
pub enum CreateStageView {
    Connecting,
    Reading,
    Looking { password: Seq<char> },
    Adding,
    Completing { user_id: i32 },
    Reporting { user_id: i32 },
    Keying,
    Closing,
    Over,
}

impl View for CreateStage {
    type V = CreateStageView;

    open spec fn view(&self) -> CreateStageView {
        match *self {
            CreateStage::Connecting => CreateStageView::Connecting,
            CreateStage::Reading => CreateStageView::Reading,
            CreateStage::Looking { password } => CreateStageView::Looking {
                password: password@,
            },
            CreateStage::Adding => CreateStageView::Adding,
            CreateStage::Completing { user_id } => CreateStageView::Completing { user_id },
            CreateStage::Reporting { user_id } => CreateStageView::Reporting { user_id },
            CreateStage::Keying => CreateStageView::Keying,
            CreateStage::Closing => CreateStageView::Closing,
            CreateStage::Over => CreateStageView::Over,
        }
    }
}

/// The creation succeeded.
pub open spec fn created<E>() -> (CreateStageView, CreateEffectView<E>) {
    (CreateStageView::Over, CreateEffectView::Finish(Ok(())))
}

/// The creation failed by a rule.
pub open spec fn refused<E>(error: ErrorView) -> (CreateStageView, CreateEffectView<E>) {
    (CreateStageView::Over, CreateEffectView::Finish(Err(FailureView::App(error))))
}

/// The creation failed outside.
pub open spec fn broken<E>(e: E) -> (CreateStageView, CreateEffectView<E>) {
    (CreateStageView::Over, CreateEffectView::Finish(Err(FailureView::Outside(e))))
}

/// The line that reports the new user.
pub open spec fn creation_line(profile: ProfileView, user_id: i32) -> Seq<char> {
    "Created "@ + (if profile.admin {
        "admin"@
    } else {
        "user"@
    }) + " '"@ + profile.username + "' (id "@ + int_decimal(user_id as int) + ")"@
}

/// What follows once the password is hashed.
pub open spec fn hashed_step<E>(profile: ProfileView, hashed: AppResult<String>) -> (
    CreateStageView,
    CreateEffectView<E>,
) {
    match hashed {
        Ok(hash) => (
            CreateStageView::Adding,
            CreateEffectView::AddUser {
                fullname: profile.fullname,
                username: profile.username,
                email: profile.email,
                hashed_pw: hash@,
                admin: profile.admin,
            },
        ),
        Err(e) => refused(e@),
    }
}

/// Where a reply leads, and what is to be done then, for every stage but the one
/// in which the password is hashed. A user name that is taken is refused, and a
/// reply to something that was not asked ends the run without doing more.
pub open spec fn create_step<E>(
    profile: ProfileView,
    stage: CreateStageView,
    reply: CreateReply<E>,
) -> (CreateStageView, CreateEffectView<E>) {
    match (stage, reply) {
        (CreateStageView::Connecting, CreateReply::Connected(outcome)) => match outcome {
            Ok(_) => (CreateStageView::Reading, CreateEffectView::ReadLine),
            Err(e) => broken(e),
        },
        (CreateStageView::Reading, CreateReply::Line(line)) => match password_of(line) {
            Ok(password) => (
                CreateStageView::Looking { password },
                CreateEffectView::FindUser { username: profile.username },
            ),
            Err(error) => refused(error),
        },
        (CreateStageView::Looking { .. }, CreateReply::Found(Ok(_))) => refused(
            ErrorView::Config("Username '"@ + profile.username + "' is already taken"@),
        ),
        (CreateStageView::Adding, CreateReply::Added(outcome)) => match outcome {
            Ok(user_id) => (
                CreateStageView::Completing { user_id },
                CreateEffectView::EnsureStats { user_id },
            ),
            Err(e) => broken(e),
        },
        (CreateStageView::Completing { user_id }, CreateReply::StatsReady(outcome)) => {
            match outcome {
                Ok(_) => (
                    CreateStageView::Reporting { user_id },
                    CreateEffectView::Print(creation_line(profile, user_id)),
                ),
                Err(e) => broken(e),
            }
        },
        (CreateStageView::Reporting { user_id }, CreateReply::Printed) => {
            if profile.print_api_key {
                (CreateStageView::Keying, CreateEffectView::CreateApiKey { user_id })
            } else {
                created()
            }
        },
        (CreateStageView::Keying, CreateReply::ApiKey(outcome)) => match outcome {
            Ok(key) => (CreateStageView::Closing, CreateEffectView::Print("API key: "@ + key@)),
            Err(e) => broken(e),
        },
        (CreateStageView::Closing, CreateReply::Printed) => created(),
        _ => refused(ErrorView::Config("Unexpected reply"@)),
    }
}

/// Whether `next` is where a reply can lead. A user name that is free lets the
/// password be hashed, with a salt drawn at random.
pub open spec fn is_create_step<E>(
    profile: ProfileView,
    stage: CreateStageView,
    reply: CreateReply<E>,
    next: (CreateStageView, CreateEffectView<E>),
) -> bool {
    if stage is Looking && reply is Found && reply->Found_0 is Err {
        exists|hashed: AppResult<String>| #[trigger]
            is_hash_outcome(stage->password, hashed) && next == hashed_step::<E>(profile, hashed)
    } else {
        next == create_step(profile, stage, reply)
    }
}

/// The creation of a user, from connecting to the database to the last report.
pub struct CreateUserRun {
    profile: Profile,
    stage: CreateStage,
}

impl CreateUserRun {
    pub closed spec fn profile(&self) -> ProfileView {
        self.profile@
    }

    pub closed spec fn stage(&self) -> CreateStageView {
        self.stage@
    }

    /// Goes on with the outcome of hashing the password.
    pub fn hashed<E>(self, hashed: AppResult<String>) -> (r: (Self, CreateEffect<E>))
        ensures
            r.0.profile() == self.profile(),
            (r.0.stage(), r.1@) == hashed_step::<E>(self.profile(), hashed),
    {
        let profile = self.profile;
        match hashed {
            Ok(hash) => {
                let effect = CreateEffect::AddUser {
                    fullname: profile.fullname.clone(),
                    username: profile.username.clone(),
                    email: profile.email.clone(),
                    hashed_pw: hash,
                    admin: profile.admin,
                };
                (CreateUserRun { profile, stage: CreateStage::Adding }, effect)
            },
            Err(e) => (
                CreateUserRun { profile, stage: CreateStage::Over },
                CreateEffect::Finish(Err(Failure::App(e))),
            ),
        }
    }

    /// Takes the reply to the last effect, and gives the next one.
    pub fn step<E>(self, reply: CreateReply<E>) -> (r: (Self, CreateEffect<E>))
        ensures
            r.0.profile() == self.profile(),
            is_create_step(self.profile(), self.stage(), reply, (r.0.stage(), r.1@)),
    {
        let CreateUserRun { profile, stage } = self;
        let (stage, effect): (CreateStage, CreateEffect<E>) = match (stage, reply) {
            (CreateStage::Connecting, CreateReply::Connected(outcome)) => match outcome {
                Ok(_) => (CreateStage::Reading, CreateEffect::ReadLine),
                Err(e) => (CreateStage::Over, CreateEffect::Finish(Err(Failure::Outside(e)))),
            },
            (CreateStage::Reading, CreateReply::Line(line)) => match read_password_stdin(line) {
                Ok(password) => (
                    CreateStage::Looking { password },
                    CreateEffect::FindUser { username: profile.username.clone() },
                ),
                Err(error) => (
                    CreateStage::Over,
                    CreateEffect::Finish(Err(Failure::App(error))),
                ),
            },
            (CreateStage::Looking { password }, CreateReply::Found(found)) => match found {
                Ok(_) => {
                    let text = "Username '".to_owned().concat(profile.username.as_str()).concat(
                        "' is already taken",
                    );
                    (
                        CreateStage::Over,
                        CreateEffect::Finish(Err(Failure::App(AppError::Config(text)))),
                    )
                },
                Err(_) => {
                    let hashed = hash_password(password.as_str());
                    let run = CreateUserRun { profile, stage: CreateStage::Looking { password } };
                    let out: (Self, CreateEffect<E>) = run.hashed(hashed);
                    assert(is_hash_outcome(self.stage()->password, hashed));
                    return out;
                },
            },
            (CreateStage::Adding, CreateReply::Added(outcome)) => match outcome {
                Ok(user_id) => (
                    CreateStage::Completing { user_id },
                    CreateEffect::EnsureStats { user_id },
                ),
                Err(e) => (CreateStage::Over, CreateEffect::Finish(Err(Failure::Outside(e)))),
            },
            (CreateStage::Completing { user_id }, CreateReply::StatsReady(outcome)) => {
                match outcome {
                    Ok(_) => {
                        let role = if profile.admin {
                            "admin"
                        } else {
                            "user"
                        };
                        let line = "Created ".to_owned().concat(role).concat(" '").concat(
                            profile.username.as_str(),
                        ).concat("' (id ").concat(decimal(user_id).as_str()).concat(")");
                        (CreateStage::Reporting { user_id }, CreateEffect::Print(line))
                    },
                    Err(e) => (CreateStage::Over, CreateEffect::Finish(Err(Failure::Outside(e)))),
                }
            },
            (CreateStage::Reporting { user_id }, CreateReply::Printed) => {
                if profile.print_api_key {
                    (CreateStage::Keying, CreateEffect::CreateApiKey { user_id })
                } else {
                    (CreateStage::Over, CreateEffect::Finish(Ok(())))
                }
            },
            (CreateStage::Keying, CreateReply::ApiKey(outcome)) => match outcome {
                Ok(key) => (
                    CreateStage::Closing,
                    CreateEffect::Print("API key: ".to_owned().concat(key.as_str())),
                ),
                Err(e) => (CreateStage::Over, CreateEffect::Finish(Err(Failure::Outside(e)))),
            },
            (CreateStage::Closing, CreateReply::Printed) => (
                CreateStage::Over,
                CreateEffect::Finish(Ok(())),
            ),
            _ => (
                CreateStage::Over,
                CreateEffect::Finish(
                    Err(Failure::App(AppError::Config("Unexpected reply".to_owned()))),
                ),
            ),
        };
        (CreateUserRun { profile, stage }, effect)
    }
}

/// Creates a user: the database is connected to first, then the password is read.
pub fn create_user<E>(args: &CreateUserArgs) -> (r: (CreateUserRun, CreateEffect<E>))
    ensures
        r.0.profile() == profile_of(args@),
        r.0.stage() is Connecting,
        r.1 is Connect,
{
    (
        CreateUserRun { profile: Profile::new(args), stage: CreateStage::Connecting },
        CreateEffect::Connect,
    )
}

// ------------------------------------------------------------------
// Laws
// ------------------------------------------------------------------

/// Whoever asks for help gets it, whatever else stands on the command line.
pub proof fn law_help_wins(args: Seq<Seq<char>>)
    requires
        args.contains("--help"@) || args.contains("-h"@),
    ensures
        parsed(args) == Ok::<Option<CommandView>, Seq<char>>(Some(CommandView::Help)),
{
}

/// The server starts exactly when neither help nor a new user was asked for: its
/// own flags are never taken for usage errors.
pub proof fn law_server_starts_unless_asked_otherwise(args: Seq<Seq<char>>)
    ensures
        parsed(args) == Ok::<Option<CommandView>, Seq<char>>(None) <==> !args.contains("--help"@)
            && !args.contains("-h"@) && !args.contains("--create-user"@),
{
}

/// Every value that the flags hold, and every switch that is on, stands on the
/// command line or was there before.
proof fn lemma_flags_come_from_arguments(args: Seq<Seq<char>>, at: int, flags: Flags)
    requires
        0 <= at,
    ensures
        read_flags(args, at, flags) matches Ok(read) ==> {
            &&& read.admin ==> flags.admin || args.contains("--admin"@)
            &&& read.print_api_key ==> flags.print_api_key || args.contains("--print-api-key"@)
            &&& read.password_stdin ==> flags.password_stdin || args.contains("--password-stdin"@)
            &&& read.username matches Some(value) ==> flags.username == Some(value)
                || args.contains(value)
            &&& read.email matches Some(value) ==> flags.email == Some(value) || args.contains(
                value,
            )
            &&& read.fullname matches Some(value) ==> flags.fullname == Some(value)
                || args.contains(value)
        },
    decreases args.len() - at,
{
    if at < args.len() {
        if stands_alone(args[at]) {
            lemma_flags_come_from_arguments(args, at + 1, flags.raise(args[at]));
        } else if takes_value(args[at]) && at + 1 < args.len() {
            assert(args.contains(args[at + 1]));
            lemma_flags_come_from_arguments(args, at + 2, flags.assign(args[at], args[at + 1]));
        }
    }
}

/// A user is created only with a user name and an email address that are not
/// blank and stand on the command line, and only where the password is announced
/// to come from standard input. Rights and an API key are given only on request.
pub proof fn law_new_users_are_asked_for(args: Seq<Seq<char>>, user: CreateUserView)
    requires
        parsed(args) == Ok::<Option<CommandView>, Seq<char>>(Some(CommandView::CreateUser(user))),
    ensures
        wants_create(args),
        args.contains("--password-stdin"@),
        trimmed(user.username).len() > 0,
        args.contains(user.username),
        trimmed(user.email).len() > 0,
        args.contains(user.email),
        user.fullname matches Some(name) ==> args.contains(name),
        user.admin ==> args.contains("--admin"@),
        user.print_api_key ==> args.contains("--print-api-key"@),
{
    lemma_flags_come_from_arguments(args, 1, no_flags());
}

/// A user name in ASCII is stored without letters in upper case, so that it can be
/// told apart from another only by more than the case.
pub proof fn law_usernames_are_stored_in_lower_case(username: Seq<char>)
    requires
        is_ascii_chars(trimmed(username)),
    ensures
        stored_username(username).len() == trimmed(username).len(),
        forall|i: int|
            0 <= i < stored_username(username).len() ==> stored_username(username)[i]
                == ascii_lower(trimmed(username)[i]) && !('A' <= #[trigger] stored_username(
                username,
            )[i] <= 'Z'),
{
}

/// A user name that is taken is never given away again: the run fails and adds
/// nobody.
pub proof fn law_taken_usernames_are_refused<E>(
    profile: ProfileView,
    password: Seq<char>,
    user_id: i32,
    next: (CreateStageView, CreateEffectView<E>),
)
    requires
        is_create_step(
            profile,
            CreateStageView::Looking { password },
            CreateReply::Found(Ok(user_id)),
            next,
        ),
    ensures
        next.0 is Over,
        next.1 == CreateEffectView::<E>::Finish(
            Err(
                FailureView::App(
                    ErrorView::Config("Username '"@ + profile.username + "' is already taken"@),
                ),
            ),
        ),
{
}

/// Whoever is added has a hash that the password read before belongs to.
pub proof fn law_new_users_can_log_in<E>(
    profile: ProfileView,
    stage: CreateStageView,
    reply: CreateReply<E>,
    next: (CreateStageView, CreateEffectView<E>),
)
    requires
        is_create_step(profile, stage, reply, next),
        next.1 is AddUser,
    ensures
        stage is Looking,
        phc_error(next.1->hashed_pw) is None,
        argon2_matches(stage->password, next.1->hashed_pw),
        next.1->AddUser_username == profile.username,
        next.1->email == profile.email,
        next.1->fullname == profile.fullname,
        next.1->admin == profile.admin,
{
}

// ----- The order of the arguments -----

/// A part of a command line that stays together: a word of its own, or a flag with
/// its value.
pub enum Unit {
    Lone(Seq<char>),
    Valued(Seq<char>, Seq<char>),
}

/// The words of a unit.
pub open spec fn words_of(unit: Unit) -> Seq<Seq<char>> {
    match unit {
        Unit::Lone(word) => seq![word],
        Unit::Valued(flag, value) => seq![flag, value],
    }
}

/// The words of a series of units.
pub open spec fn line(units: Seq<Unit>) -> Seq<Seq<char>>
    decreases units.len(),
{
    if units.len() == 0 {
        Seq::empty()
    } else {
        words_of(units[0]) + line(units.skip(1))
    }
}

/// The units of the arguments from position `at` on. A flag that lacks its value at
/// the end of the line stands alone.
pub open spec fn units_from(args: Seq<Seq<char>>, at: int) -> Seq<Unit>
    decreases args.len() - at,
{
    if at >= args.len() {
        Seq::empty()
    } else if takes_value(args[at]) && at + 1 < args.len() {
        seq![Unit::Valued(args[at], args[at + 1])] + units_from(args, at + 2)
    } else {
        seq![Unit::Lone(args[at])] + units_from(args, at + 1)
    }
}

/// The values that a flag is given, in order.
pub open spec fn values_of(units: Seq<Unit>, flag: Seq<char>) -> Seq<Seq<char>>
    decreases units.len(),
{
    if units.len() == 0 {
        Seq::empty()
    } else {
        (match units[0] {
            Unit::Valued(f, value) => if f == flag {
                seq![value]
            } else {
                Seq::empty()
            },
            Unit::Lone(_) => Seq::empty(),
        }) + values_of(units.skip(1), flag)
    }
}

/// The same units in another order, with words of their own repeated at will: every
/// unit of the one occurs in the other, and each flag is given the same values in the
/// same order.
pub open spec fn same_units(a: Seq<Unit>, b: Seq<Unit>) -> bool {
    &&& forall|unit: Unit| #[trigger] a.contains(unit) <==> b.contains(unit)
    &&& forall|flag: Seq<char>| #[trigger] values_of(a, flag) == values_of(b, flag)
}

/// A unit that a new user can be described with.
spec fn is_proper(unit: Unit) -> bool {
    match unit {
        Unit::Lone(word) => stands_alone(word),
        Unit::Valued(flag, value) => takes_value(flag),
    }
}

spec fn are_proper(units: Seq<Unit>) -> bool {
    forall|i: int| 0 <= i < units.len() ==> is_proper(#[trigger] units[i])
}

/// What a series of proper units sets.
spec fn applied(units: Seq<Unit>, flags: Flags) -> Flags
    decreases units.len(),
{
    if units.len() == 0 {
        flags
    } else {
        applied(
            units.skip(1),
            match units[0] {
                Unit::Lone(word) => flags.raise(word),
                Unit::Valued(flag, value) => flags.assign(flag, value),
            },
        )
    }
}

/// The last of the values, or what was there before.
spec fn last_or(values: Seq<Seq<char>>, before: Option<Seq<char>>) -> Option<Seq<char>> {
    if values.len() > 0 {
        Some(values.last())
    } else {
        before
    }
}

proof fn lemma_flags_are_told_apart()
    ensures
        "--username"@ != "--email"@,
        "--username"@ != "--fullname"@,
        "--email"@ != "--fullname"@,
        forall|word: Seq<char>| #[trigger] takes_value(word) ==> !stands_alone(word),
{
    reveal_strlit("--create-user");
    reveal_strlit("--admin");
    reveal_strlit("--print-api-key");
    reveal_strlit("--password-stdin");
    reveal_strlit("--username");
    reveal_strlit("--email");
    reveal_strlit("--fullname");
    assert("--username"@[2] == 'u' && "--email"@[2] == 'e' && "--fullname"@[2] == 'f');
    assert("--create-user"@[2] == 'c' && "--admin"@[2] == 'a');
    assert("--print-api-key"@[2] == 'p' && "--password-stdin"@[2] == 'p');
}

/// The units of a command line are its words.
proof fn lemma_units_make_the_line(args: Seq<Seq<char>>, at: int)
    requires
        0 <= at <= args.len(),
    ensures
        line(units_from(args, at)) == args.skip(at),
    decreases args.len() - at,
{
    let units = units_from(args, at);
    if at < args.len() {
        let step: int = if takes_value(args[at]) && at + 1 < args.len() {
            2
        } else {
            1
        };
        lemma_units_make_the_line(args, at + step);
        assert(units.skip(1) =~= units_from(args, at + step));
        assert(args.skip(at) =~= words_of(units[0]) + args.skip(at + step));
    } else {
        assert(args.skip(at) =~= Seq::empty());
    }
}

/// A word stands on the line exactly where one of the units holds it.
proof fn lemma_words_of_the_line(units: Seq<Unit>, word: Seq<char>)
    ensures
        line(units).contains(word) <==> exists|unit: Unit| #[trigger]
            units.contains(unit) && words_of(unit).contains(word),
    decreases units.len(),
{
    if units.len() > 0 {
        let rest = units.skip(1);
        let first = words_of(units[0]);
        lemma_words_of_the_line(rest, word);
        let all = first + line(rest);
        if all.contains(word) {
            let i = choose|i: int| 0 <= i < all.len() && all[i] == word;
            if i < first.len() {
                assert(first[i] == word);
                assert(units.contains(units[0]));
            } else {
                assert(line(rest)[i - first.len()] == word);
                let unit = choose|unit: Unit| #[trigger]
                    rest.contains(unit) && words_of(unit).contains(word);
                let k = choose|k: int| 0 <= k < rest.len() && rest[k] == unit;
                assert(units[k + 1] == unit);
                assert(units.contains(unit));
            }
        }
        if exists|unit: Unit| #[trigger] units.contains(unit) && words_of(unit).contains(word) {
            let unit = choose|unit: Unit| #[trigger]
                units.contains(unit) && words_of(unit).contains(word);
            let k = choose|k: int| 0 <= k < units.len() && units[k] == unit;
            if k == 0 {
                let i = choose|i: int| 0 <= i < first.len() && first[i] == word;
                assert(all[i] == word);
            } else {
                assert(rest[k - 1] == unit);
                assert(rest.contains(unit));
                let i = choose|i: int| 0 <= i < line(rest).len() && line(rest)[i] == word;
                assert(all[first.len() + i] == word);
            }
        }
    }
}

/// A line that can be read consists of proper units.
proof fn lemma_readable_units_are_proper(args: Seq<Seq<char>>, at: int, flags: Flags)
    requires
        0 <= at,
        read_flags(args, at, flags) is Ok,
    ensures
        are_proper(units_from(args, at)),
    decreases args.len() - at,
{
    if at < args.len() {
        let units = units_from(args, at);
        let (step, after) = if stands_alone(args[at]) {
            (1int, flags.raise(args[at]))
        } else {
            (2int, flags.assign(args[at], args[at + 1]))
        };
        lemma_flags_are_told_apart();
        lemma_readable_units_are_proper(args, at + step, after);
        let rest = units_from(args, at + step);
        assert(units =~= seq![units[0]] + rest);
        assert forall|i: int| 0 <= i < units.len() implies is_proper(#[trigger] units[i]) by {
            if i > 0 {
                assert(units[i] == rest[i - 1]);
            }
        }
    }
}

/// Proper units are read one by one, wherever they start.
proof fn lemma_units_are_read(before: Seq<Seq<char>>, units: Seq<Unit>, flags: Flags)
    requires
        are_proper(units),
    ensures
        read_flags(before + line(units), before.len() as int, flags) == Ok::<Flags, Seq<char>>(
            applied(units, flags),
        ),
    decreases units.len(),
{
    let args = before + line(units);
    if units.len() > 0 {
        lemma_flags_are_told_apart();
        let rest = units.skip(1);
        assert(is_proper(units[0]));
        assert forall|i: int| 0 <= i < rest.len() implies is_proper(#[trigger] rest[i]) by {
            assert(rest[i] == units[i + 1]);
        }
        let words = words_of(units[0]);
        let after = match units[0] {
            Unit::Lone(word) => flags.raise(word),
            Unit::Valued(flag, value) => flags.assign(flag, value),
        };
        lemma_units_are_read(before + words, rest, after);
        assert(args =~= (before + words) + line(rest));
        assert(args[before.len() as int] == words[0]);
        match units[0] {
            Unit::Lone(word) => {},
            Unit::Valued(flag, value) => {
                assert(args[before.len() as int + 1] == value);
            },
        }
    }
}

/// What proper units set: each value is the last that was given, and each switch is
/// on where it occurs.
proof fn lemma_applied(units: Seq<Unit>, flags: Flags)
    requires
        are_proper(units),
    ensures
        applied(units, flags) == (Flags {
            username: last_or(values_of(units, "--username"@), flags.username),
            email: last_or(values_of(units, "--email"@), flags.email),
            fullname: last_or(values_of(units, "--fullname"@), flags.fullname),
            admin: flags.admin || units.contains(Unit::Lone("--admin"@)),
            print_api_key: flags.print_api_key || units.contains(
                Unit::Lone("--print-api-key"@),
            ),
            password_stdin: flags.password_stdin || units.contains(
                Unit::Lone("--password-stdin"@),
            ),
        }),
    decreases units.len(),
{
    if units.len() > 0 {
        lemma_flags_are_told_apart();
        let rest = units.skip(1);
        assert(is_proper(units[0]));
        assert forall|i: int| 0 <= i < rest.len() implies is_proper(#[trigger] rest[i]) by {
            assert(rest[i] == units[i + 1]);
        }
        let after = match units[0] {
            Unit::Lone(word) => flags.raise(word),
            Unit::Valued(flag, value) => flags.assign(flag, value),
        };
        lemma_applied(rest, after);
        assert forall|unit: Unit| #[trigger] units.contains(unit) <==> unit == units[0]
            || rest.contains(unit) by {
            lemma_contains_first(units, unit);
        }
    }
}

proof fn lemma_contains_first(units: Seq<Unit>, unit: Unit)
    requires
        units.len() > 0,
    ensures
        units.contains(unit) <==> unit == units[0] || units.skip(1).contains(unit),
{
    let rest = units.skip(1);
    if units.contains(unit) {
        let k = choose|k: int| 0 <= k < units.len() && units[k] == unit;
        if k > 0 {
            assert(rest[k - 1] == unit);
        }
    }
    if rest.contains(unit) {
        let k = choose|k: int| 0 <= k < rest.len() && rest[k] == unit;
        assert(units[k + 1] == unit);
    }
}

/// The order of the arguments makes no difference, and a switch may be given more
/// than once: where a command line is understood, one with the same units in another
/// order, and with words of their own repeated, is understood in the same way. Only
/// the values of one and the same flag have to keep their order.
pub proof fn law_order_and_repeats_make_no_difference(args: Seq<Seq<char>>, units: Seq<Unit>)
    requires
        args.len() > 0,
        parsed(args) is Ok,
        same_units(units_from(args, 1), units),
    ensures
        parsed(seq![args[0]] + line(units)) == parsed(args),
{
    let given = units_from(args, 1);
    let program = seq![args[0]];
    let other = program + line(units);
    lemma_units_make_the_line(args, 1);
    assert(args =~= program + line(given));
    assert forall|word: Seq<char>| #[trigger] other.contains(word) <==> args.contains(word) by {
        lemma_words_of_the_line(given, word);
        lemma_words_of_the_line(units, word);
        lemma_contains_after_first(args[0], line(given), word);
        lemma_contains_after_first(args[0], line(units), word);
        if line(given).contains(word) {
            let unit = choose|unit: Unit| #[trigger]
                given.contains(unit) && words_of(unit).contains(word);
            assert(units.contains(unit));
        }
        if line(units).contains(word) {
            let unit = choose|unit: Unit| #[trigger]
                units.contains(unit) && words_of(unit).contains(word);
            assert(given.contains(unit));
        }
    }
    assert(other.contains("--help"@) == args.contains("--help"@));
    assert(other.contains("-h"@) == args.contains("-h"@));
    assert(other.contains("--create-user"@) == args.contains("--create-user"@));
    if wants_create(args) && !wants_help(args) {
        lemma_readable_units_are_proper(args, 1, no_flags());
        assert forall|i: int| 0 <= i < units.len() implies is_proper(#[trigger] units[i]) by {
            assert(units.contains(units[i]));
            assert(given.contains(units[i]));
            let k = choose|k: int| 0 <= k < given.len() && given[k] == units[i];
            assert(is_proper(given[k]));
        }
        lemma_units_are_read(program, given, no_flags());
        lemma_units_are_read(program, units, no_flags());
        lemma_applied(given, no_flags());
        lemma_applied(units, no_flags());
        assert(given.contains(Unit::Lone("--admin"@)) == units.contains(Unit::Lone("--admin"@)));
        assert(given.contains(Unit::Lone("--print-api-key"@)) == units.contains(
            Unit::Lone("--print-api-key"@),
        ));
        assert(given.contains(Unit::Lone("--password-stdin"@)) == units.contains(
            Unit::Lone("--password-stdin"@),
        ));
        assert(values_of(given, "--username"@) == values_of(units, "--username"@));
        assert(values_of(given, "--email"@) == values_of(units, "--email"@));
        assert(values_of(given, "--fullname"@) == values_of(units, "--fullname"@));
    }
}

proof fn lemma_contains_after_first(
    first: Seq<char>,
    rest: Seq<Seq<char>>,
    word: Seq<char>,
)
    ensures
        (seq![first] + rest).contains(word) <==> word == first || rest.contains(word),
{
    let all = seq![first] + rest;
    if all.contains(word) {
        let k = choose|k: int| 0 <= k < all.len() && all[k] == word;
        if k > 0 {
            assert(rest[k - 1] == word);
        }
    }
    if rest.contains(word) {
        let k = choose|k: int| 0 <= k < rest.len() && rest[k] == word;
        assert(all[k + 1] == word);
    }
    assert(all[0] == first);
}

proof fn lemma_values_of_parts(a: Seq<Unit>, b: Seq<Unit>, flag: Seq<char>)
    ensures
        values_of(a + b, flag) == values_of(a, flag) + values_of(b, flag),
    decreases a.len(),
{
    if a.len() == 0 {
        assert(a + b =~= b);
        assert(values_of(a, flag) + values_of(b, flag) =~= values_of(b, flag));
    } else {
        let rest = a.skip(1);
        lemma_values_of_parts(rest, b, flag);
        assert((a + b).skip(1) =~= rest + b);
        assert((a + b)[0] == a[0]);
        let first = match a[0] {
            Unit::Valued(f, value) => if f == flag {
                seq![value]
            } else {
                Seq::empty()
            },
            Unit::Lone(_) => Seq::empty(),
        };
        assert(first + (values_of(rest, flag) + values_of(b, flag)) =~= (first + values_of(
            rest,
            flag,
        )) + values_of(b, flag));
    }
}

/// A single unit gives a value to its own flag only.
proof fn lemma_values_of_one(unit: Unit, flag: Seq<char>)
    ensures
        values_of(seq![unit], flag).len() > 0 ==> (unit matches Unit::Valued(f, _) && f == flag),
{
    let rest = seq![unit].skip(1);
    assert(rest =~= Seq::empty());
    assert(values_of(rest, flag) =~= Seq::empty());
}

/// Two neighbouring units can change places, unless they give values to the same
/// flag. Every other order that keeps the values of each flag in theirs is made of
/// such changes.
pub proof fn law_units_can_change_places(before: Seq<Unit>, x: Unit, y: Unit, after: Seq<Unit>)
    requires
        x matches Unit::Valued(f, _) ==> y matches Unit::Valued(g, _) ==> f != g,
    ensures
        same_units(before + seq![x, y] + after, before + seq![y, x] + after),
{
    let a = before + seq![x, y] + after;
    let b = before + seq![y, x] + after;
    let n = before.len() as int;
    assert forall|unit: Unit| #[trigger] a.contains(unit) <==> b.contains(unit) by {
        if a.contains(unit) {
            let k = choose|k: int| 0 <= k < a.len() && a[k] == unit;
            let m = if k == n {
                n + 1
            } else if k == n + 1 {
                n
            } else {
                k
            };
            assert(b[m] == unit);
        }
        if b.contains(unit) {
            let k = choose|k: int| 0 <= k < b.len() && b[k] == unit;
            let m = if k == n {
                n + 1
            } else if k == n + 1 {
                n
            } else {
                k
            };
            assert(a[m] == unit);
        }
    }
    assert forall|flag: Seq<char>| #[trigger] values_of(a, flag) == values_of(b, flag) by {
        lemma_values_of_parts(before + seq![x, y], after, flag);
        lemma_values_of_parts(before + seq![y, x], after, flag);
        lemma_values_of_parts(before, seq![x, y], flag);
        lemma_values_of_parts(before, seq![y, x], flag);
        lemma_values_of_parts(seq![x], seq![y], flag);
        lemma_values_of_parts(seq![y], seq![x], flag);
        assert(seq![x, y] =~= seq![x] + seq![y]);
        assert(seq![y, x] =~= seq![y] + seq![x]);
        lemma_values_of_one(x, flag);
        lemma_values_of_one(y, flag);
        assert(values_of(seq![x], flag).len() == 0 || values_of(seq![y], flag).len() == 0);
        assert(values_of(seq![x], flag) + values_of(seq![y], flag) =~= values_of(seq![y], flag)
            + values_of(seq![x], flag));
    }
}

/// A word of its own that is there already can be given once more, anywhere.
pub proof fn law_words_can_be_repeated(before: Seq<Unit>, word: Seq<char>, after: Seq<Unit>)
    requires
        (before + after).contains(Unit::Lone(word)),
    ensures
        same_units(before + after, before + seq![Unit::Lone(word)] + after),
{
    let a = before + after;
    let b = before + seq![Unit::Lone(word)] + after;
    let n = before.len() as int;
    assert forall|unit: Unit| #[trigger] a.contains(unit) <==> b.contains(unit) by {
        if a.contains(unit) {
            let k = choose|k: int| 0 <= k < a.len() && a[k] == unit;
            assert(b[if k < n {
                k
            } else {
                k + 1
            }] == unit);
        }
        if b.contains(unit) {
            let k = choose|k: int| 0 <= k < b.len() && b[k] == unit;
            if k != n {
                assert(a[if k < n {
                    k
                } else {
                    k - 1
                }] == unit);
            }
        }
    }
    assert forall|flag: Seq<char>| #[trigger] values_of(a, flag) == values_of(b, flag) by {
        lemma_values_of_parts(before, after, flag);
        lemma_values_of_parts(before + seq![Unit::Lone(word)], after, flag);
        lemma_values_of_parts(before, seq![Unit::Lone(word)], flag);
        lemma_values_of_one(Unit::Lone(word), flag);
        assert(values_of(seq![Unit::Lone(word)], flag) =~= Seq::empty());
        assert(values_of(before, flag) + Seq::empty() =~= values_of(before, flag));
    }
}

/// One of the words that switch something on or name the command.
pub open spec fn is_switch(word: Seq<char>) -> bool {
    word == "--create-user"@ || word == "--admin"@ || word == "--print-api-key"@ || word
        == "--password-stdin"@
}

/// One of the flags that are followed by a value.
pub open spec fn is_value_flag(word: Seq<char>) -> bool {
    word == "--username"@ || word == "--email"@ || word == "--fullname"@
}

/// The units of a command line are its words, cut so that a value stands with its
/// flag: only the three flags that take a value are followed by one, and one of them
/// stands alone only at the end of the line.
pub proof fn law_units_keep_values_with_their_flags(args: Seq<Seq<char>>, at: int)
    requires
        0 <= at <= args.len(),
    ensures
        line(units_from(args, at)) == args.skip(at),
        forall|i: int|
            0 <= i < units_from(args, at).len() ==> match #[trigger] units_from(args, at)[i] {
                Unit::Valued(flag, value) => is_value_flag(flag),
                Unit::Lone(word) => is_value_flag(word) ==> i == units_from(args, at).len() - 1,
            },
    decreases args.len() - at,
{
    lemma_units_make_the_line(args, at);
    if at < args.len() {
        let units = units_from(args, at);
        let step: int = if takes_value(args[at]) && at + 1 < args.len() {
            2
        } else {
            1
        };
        law_units_keep_values_with_their_flags(args, at + step);
        let rest = units_from(args, at + step);
        assert(units =~= seq![units[0]] + rest);
        assert forall|i: int| 0 <= i < units.len() implies match #[trigger] units[i] {
            Unit::Valued(flag, value) => is_value_flag(flag),
            Unit::Lone(word) => is_value_flag(word) ==> i == units.len() - 1,
        } by {
            if i > 0 {
                assert(units[i] == rest[i - 1]);
            }
        }
    }
}

/// The values of a flag are those of its units, in order.
pub proof fn law_values_are_those_of_the_flag(units: Seq<Unit>, unit: Unit, flag: Seq<char>)
    ensures
        values_of(Seq::empty(), flag) == Seq::<Seq<char>>::empty(),
        values_of(units.push(unit), flag) == (match unit {
            Unit::Valued(f, value) => if f == flag {
                values_of(units, flag).push(value)
            } else {
                values_of(units, flag)
            },
            Unit::Lone(_) => values_of(units, flag),
        }),
{
    lemma_values_of_parts(units, seq![unit], flag);
    assert(units.push(unit) =~= units + seq![unit]);
    let rest = seq![unit].skip(1);
    assert(rest =~= Seq::empty());
    assert(values_of(rest, flag) =~= Seq::empty());
    match unit {
        Unit::Valued(f, value) => {
            if f == flag {
                assert(values_of(seq![unit], flag) =~= seq![value]);
            } else {
                assert(values_of(seq![unit], flag) =~= Seq::empty());
            }
        },
        Unit::Lone(_) => {
            assert(values_of(seq![unit], flag) =~= Seq::empty());
        },
    }
}

/// The new user is as the command line says: a switch is on exactly where it stands
/// on the line as a word of its own, and each value is the last that its flag was
/// given.
pub proof fn law_new_users_are_as_asked(args: Seq<Seq<char>>, user: CreateUserView)
    requires
        args.len() > 0,
        parsed(args) == Ok::<Option<CommandView>, Seq<char>>(Some(CommandView::CreateUser(user))),
    ensures
        ({
            let units = units_from(args, 1);
            &&& user.admin <==> units.contains(Unit::Lone("--admin"@))
            &&& user.print_api_key <==> units.contains(Unit::Lone("--print-api-key"@))
            &&& units.contains(Unit::Lone("--password-stdin"@))
            &&& values_of(units, "--username"@).len() > 0
            &&& user.username == values_of(units, "--username"@).last()
            &&& values_of(units, "--email"@).len() > 0
            &&& user.email == values_of(units, "--email"@).last()
            &&& values_of(units, "--fullname"@).len() == 0 ==> user.fullname is None
            &&& values_of(units, "--fullname"@).len() > 0 ==> user.fullname == Some(
                values_of(units, "--fullname"@).last(),
            )
        }),
{
    let given = units_from(args, 1);
    lemma_units_make_the_line(args, 1);
    assert(args =~= seq![args[0]] + line(given));
    lemma_readable_units_are_proper(args, 1, no_flags());
    lemma_units_are_read(seq![args[0]], given, no_flags());
    lemma_applied(given, no_flags());
}

/// A command line is understood that asks for a new user and for no help, whose
/// words are switches or flags with their values, that gives a user name and an email
/// address that are not blank, and that announces the password.
pub proof fn law_complete_lines_are_understood(args: Seq<Seq<char>>)
    requires
        args.len() > 0,
        !args.contains("--help"@),
        !args.contains("-h"@),
        args.contains("--create-user"@),
        forall|i: int|
            0 <= i < units_from(args, 1).len() ==> (#[trigger] units_from(
                args,
                1,
            )[i] matches Unit::Lone(word) ==> is_switch(word)),
        values_of(units_from(args, 1), "--username"@).len() > 0,
        trimmed(values_of(units_from(args, 1), "--username"@).last()).len() > 0,
        values_of(units_from(args, 1), "--email"@).len() > 0,
        trimmed(values_of(units_from(args, 1), "--email"@).last()).len() > 0,
        units_from(args, 1).contains(Unit::Lone("--password-stdin"@)),
    ensures
        parsed(args) matches Ok(Some(CommandView::CreateUser(_))),
{
    let given = units_from(args, 1);
    lemma_switches_are_proper(args);
    lemma_units_make_the_line(args, 1);
    assert(args =~= seq![args[0]] + line(given));
    lemma_units_are_read(seq![args[0]], given, no_flags());
    lemma_applied(given, no_flags());
}

proof fn lemma_switches_are_proper(args: Seq<Seq<char>>)
    requires
        args.len() > 0,
        forall|i: int|
            0 <= i < units_from(args, 1).len() ==> (#[trigger] units_from(
                args,
                1,
            )[i] matches Unit::Lone(word) ==> is_switch(word)),
    ensures
        are_proper(units_from(args, 1)),
{
    law_units_keep_values_with_their_flags(args, 1);
    let given = units_from(args, 1);
    assert forall|i: int| 0 <= i < given.len() implies is_proper(#[trigger] given[i]) by {
        match given[i] {
            Unit::Valued(flag, value) => {},
            Unit::Lone(word) => {},
        }
    }
}

/// What is missing from a line of switches and flags with their values is named: the
/// user name first, then the email address, then what is blank of the two, then the
/// password.
pub proof fn law_what_is_missing_is_named(args: Seq<Seq<char>>)
    requires
        args.len() > 0,
        !args.contains("--help"@),
        !args.contains("-h"@),
        args.contains("--create-user"@),
        forall|i: int|
            0 <= i < units_from(args, 1).len() ==> (#[trigger] units_from(
                args,
                1,
            )[i] matches Unit::Lone(word) ==> is_switch(word)),
    ensures
        ({
            let usernames = values_of(units_from(args, 1), "--username"@);
            let emails = values_of(units_from(args, 1), "--email"@);
            let blank_name = usernames.len() > 0 && trimmed(usernames.last()).len() == 0;
            let blank_email = emails.len() > 0 && trimmed(emails.last()).len() == 0;
            let announced = units_from(args, 1).contains(Unit::Lone("--password-stdin"@));
            &&& usernames.len() == 0 ==> parsed(args) == Err::<Option<CommandView>, Seq<char>>(
                "Missing --username"@,
            )
            &&& usernames.len() > 0 && emails.len() == 0 ==> parsed(args) == Err::<
                Option<CommandView>,
                Seq<char>,
            >("Missing --email"@)
            &&& emails.len() > 0 && blank_name ==> parsed(args) == Err::<
                Option<CommandView>,
                Seq<char>,
            >("--username cannot be empty"@)
            &&& usernames.len() > 0 && !blank_name && blank_email ==> parsed(args) == Err::<
                Option<CommandView>,
                Seq<char>,
            >("--email cannot be empty"@)
            &&& usernames.len() > 0 && !blank_name && emails.len() > 0 && !blank_email
                && !announced ==> parsed(args) == Err::<Option<CommandView>, Seq<char>>(
                "Missing --password-stdin (passwords are read from stdin)"@,
            )
        }),
{
    let given = units_from(args, 1);
    lemma_switches_are_proper(args);
    lemma_units_make_the_line(args, 1);
    assert(args =~= seq![args[0]] + line(given));
    lemma_units_are_read(seq![args[0]], given, no_flags());
    lemma_applied(given, no_flags());
}

/// Proper units at the start are read, whatever stands behind them.
proof fn lemma_start_is_read(
    before: Seq<Seq<char>>,
    units: Seq<Unit>,
    behind: Seq<Seq<char>>,
    flags: Flags,
)
    requires
        are_proper(units),
    ensures
        read_flags(before + line(units) + behind, before.len() as int, flags) == read_flags(
            before + line(units) + behind,
            (before + line(units)).len() as int,
            applied(units, flags),
        ),
    decreases units.len(),
{
    let args = before + line(units) + behind;
    if units.len() > 0 {
        lemma_flags_are_told_apart();
        let rest = units.skip(1);
        assert(is_proper(units[0]));
        assert forall|i: int| 0 <= i < rest.len() implies is_proper(#[trigger] rest[i]) by {
            assert(rest[i] == units[i + 1]);
        }
        let words = words_of(units[0]);
        let after = match units[0] {
            Unit::Lone(word) => flags.raise(word),
            Unit::Valued(flag, value) => flags.assign(flag, value),
        };
        lemma_start_is_read(before + words, rest, behind, after);
        assert(args =~= (before + words) + line(rest) + behind);
        assert((before + line(units)).len() == ((before + words) + line(rest)).len());
        assert(args[before.len() as int] == words[0]);
        match units[0] {
            Unit::Lone(word) => {},
            Unit::Valued(flag, value) => {
                assert(args[before.len() as int + 1] == value);
            },
        }
    }
}

proof fn lemma_line_of_parts(a: Seq<Unit>, b: Seq<Unit>)
    ensures
        line(a + b) == line(a) + line(b),
    decreases a.len(),
{
    if a.len() == 0 {
        assert(a + b =~= b);
        assert(line(a) + line(b) =~= line(b));
    } else {
        lemma_line_of_parts(a.skip(1), b);
        assert((a + b).skip(1) =~= a.skip(1) + b);
        assert((a + b)[0] == a[0]);
        assert(words_of(a[0]) + (line(a.skip(1)) + line(b)) =~= words_of(a[0]) + line(a.skip(1))
            + line(b));
    }
}

/// The first word that is neither a switch nor a flag with its value is complained
/// about: as a flag that lacks its value, or as one that is not known.
pub proof fn law_the_first_wrong_word_is_named(args: Seq<Seq<char>>, k: int)
    requires
        args.len() > 0,
        !args.contains("--help"@),
        !args.contains("-h"@),
        args.contains("--create-user"@),
        0 <= k < units_from(args, 1).len(),
        forall|i: int|
            0 <= i < k ==> (#[trigger] units_from(args, 1)[i] matches Unit::Lone(word)
                ==> is_switch(word)),
        units_from(args, 1)[k] matches Unit::Lone(word) && !is_switch(word),
    ensures
        units_from(args, 1)[k] matches Unit::Lone(word) && parsed(args) == Err::<
            Option<CommandView>,
            Seq<char>,
        >(
            if is_value_flag(word) {
                word + " requires a value"@
            } else {
                "Unknown argument: "@ + word
            },
        ),
{
    let given = units_from(args, 1);
    law_units_keep_values_with_their_flags(args, 1);
    assert(args =~= seq![args[0]] + line(given));
    let good = given.take(k);
    let behind = given.skip(k);
    assert(given =~= good + behind);
    lemma_line_of_parts(good, behind);
    assert forall|i: int| 0 <= i < good.len() implies is_proper(#[trigger] good[i]) by {
        assert(good[i] == given[i]);
        match given[i] {
            Unit::Valued(flag, value) => {},
            Unit::Lone(word) => {},
        }
    }
    assert(args =~= seq![args[0]] + line(good) + line(behind));
    lemma_start_is_read(seq![args[0]], good, line(behind), no_flags());
    let n = (seq![args[0]] + line(good)).len() as int;
    assert(behind[0] == given[k]);
    let word = given[k]->Lone_0;
    assert(line(behind) == words_of(behind[0]) + line(behind.skip(1)));
    assert(args[n] == word);
    if is_value_flag(word) {
        assert(k == given.len() - 1);
        assert(behind.skip(1) =~= Seq::empty());
        assert(line(behind.skip(1)) =~= Seq::empty());
        assert(args.len() == n + 1);
        lemma_flags_are_told_apart();
    }
}

/// A password is the line that was read without the line end behind it: nothing but
/// line feeds and carriage returns is taken away, and none is left. A line of these
/// alone holds no password.
pub proof fn law_passwords_are_lines_without_their_end(line: String, complaint: String)
    ensures
        password_of(Err(complaint)) == Err::<Seq<char>, ErrorView>(
            ErrorView::Config("Failed to read password from stdin: "@ + complaint@),
        ),
        match password_of(Ok(line)) {
            Ok(password) => {
                &&& 0 < password.len() <= line@.len()
                &&& password == line@.take(password.len() as int)
                &&& password.last() != '\n' && password.last() != '\r'
                &&& forall|i: int|
                    password.len() <= i < line@.len() ==> #[trigger] line@[i] == '\n' || line@[i]
                        == '\r'
            },
            Err(e) => {
                &&& e == ErrorView::Config(
                    "No password received on stdin (use --password-stdin)"@,
                )
                &&& forall|i: int|
                    0 <= i < line@.len() ==> #[trigger] line@[i] == '\n' || line@[i] == '\r'
            },
        },
{
    law_ends_are_cut(line@, CharClass::LineEnd);
}

/// The user that is created is the one that was asked for: the user name and the
/// email address are trimmed, the user name is put in lower case, the name to show is
/// the one given, or the user name where none is given or it is blank, and the rights
/// are those asked for.
pub proof fn law_profiles_follow_the_arguments(args: CreateUserView)
    ensures
        profile_of(args).username == in_lower_case(trimmed(args.username)),
        profile_of(args).email == trimmed(args.email),
        args.fullname is None ==> profile_of(args).fullname == profile_of(args).username,
        args.fullname matches Some(name) ==> trimmed(name).len() == 0 ==> profile_of(args).fullname
            == profile_of(args).username,
        args.fullname matches Some(name) ==> trimmed(name).len() > 0 ==> profile_of(args).fullname
            == trimmed(name),
        profile_of(args).admin == args.admin,
        profile_of(args).print_api_key == args.print_api_key,
{
}

/// A failure outside ends the creation with that failure, at every stage, and does
/// nothing more. Whether a user of the name exists is the one question whose failure
/// is the answer that is hoped for.
pub proof fn law_failures_end_the_creation<E>(
    profile: ProfileView,
    stage: CreateStageView,
    reply: CreateReply<E>,
    e: E,
    next: (CreateStageView, CreateEffectView<E>),
)
    requires
        is_create_step(profile, stage, reply, next),
        (stage is Connecting && reply == CreateReply::Connected::<E>(Err(e))) || (stage is Adding
            && reply == CreateReply::Added::<E>(Err(e))) || (stage is Completing && reply
            == CreateReply::StatsReady::<E>(Err(e))) || (stage is Keying && reply
            == CreateReply::ApiKey::<E>(Err(e))),
    ensures
        next.0 is Over,
        next.1 == CreateEffectView::<E>::Finish(Err(FailureView::Outside(e))),
{
}

/// A creation that meets no failure connects, reads the password, looks the user name
/// up, adds the user with the rights asked for, completes the statistics, reports the
/// user, and hands out an API key if that was asked for.
pub proof fn law_creations_take_their_course<E>(
    profile: ProfileView,
    line: String,
    user_id: i32,
    key: String,
)
    ensures
        create_step(profile, CreateStageView::Connecting, CreateReply::Connected::<E>(Ok(()))) == (
            CreateStageView::Reading,
            CreateEffectView::<E>::ReadLine,
        ),
        password_of(Ok(line)) matches Ok(password) ==> create_step(
            profile,
            CreateStageView::Reading,
            CreateReply::Line::<E>(Ok(line)),
        ) == (
            CreateStageView::Looking { password },
            CreateEffectView::<E>::FindUser { username: profile.username },
        ),
        password_of(Ok(line)) matches Err(error) ==> create_step(
            profile,
            CreateStageView::Reading,
            CreateReply::Line::<E>(Ok(line)),
        ) == (
            CreateStageView::Over,
            CreateEffectView::<E>::Finish(Err(FailureView::App(error))),
        ),
        create_step(profile, CreateStageView::Adding, CreateReply::Added::<E>(Ok(user_id))) == (
            CreateStageView::Completing { user_id },
            CreateEffectView::<E>::EnsureStats { user_id },
        ),
        create_step(
            profile,
            CreateStageView::Completing { user_id },
            CreateReply::StatsReady::<E>(Ok(())),
        ) == (
            CreateStageView::Reporting { user_id },
            CreateEffectView::<E>::Print(
                if profile.admin {
                    "Created admin '"@ + profile.username + "' (id "@ + int_decimal(user_id as int)
                        + ")"@
                } else {
                    "Created user '"@ + profile.username + "' (id "@ + int_decimal(user_id as int)
                        + ")"@
                },
            ),
        ),
        profile.print_api_key ==> create_step(
            profile,
            CreateStageView::Reporting { user_id },
            CreateReply::Printed::<E>,
        ) == (CreateStageView::Keying, CreateEffectView::<E>::CreateApiKey { user_id }),
        !profile.print_api_key ==> create_step(
            profile,
            CreateStageView::Reporting { user_id },
            CreateReply::Printed::<E>,
        ) == (CreateStageView::Over, CreateEffectView::<E>::Finish(Ok(()))),
        create_step(profile, CreateStageView::Keying, CreateReply::ApiKey::<E>(Ok(key))) == (
            CreateStageView::Closing,
            CreateEffectView::<E>::Print("API key: "@ + key@),
        ),
        create_step(profile, CreateStageView::Closing, CreateReply::Printed::<E>) == (
            CreateStageView::Over,
            CreateEffectView::<E>::Finish(Ok(())),
        ),
{
    reveal_strlit("Created ");
    reveal_strlit("admin");
    reveal_strlit("user");
    reveal_strlit(" '");
    reveal_strlit("Created admin '");
    reveal_strlit("Created user '");
    assert("Created "@ + "admin"@ + " '"@ =~= "Created admin '"@);
    assert("Created "@ + "user"@ + " '"@ =~= "Created user '"@);
}

/// A user name that nobody has lets the password be hashed: the user is added with a
/// hash that the password belongs to and with what the profile says, or the creation
/// ends with the complaint about hashing.
pub proof fn law_free_usernames_are_added<E>(
    profile: ProfileView,
    password: Seq<char>,
    e: E,
    next: (CreateStageView, CreateEffectView<E>),
)
    requires
        is_create_step(
            profile,
            CreateStageView::Looking { password },
            CreateReply::Found(Err(e)),
            next,
        ),
    ensures
        match next.1 {
            CreateEffectView::AddUser { fullname, username, email, hashed_pw, admin } => {
                &&& next.0 is Adding
                &&& fullname == profile.fullname
                &&& username == profile.username
                &&& email == profile.email
                &&& admin == profile.admin
                &&& argon2_matches(password, hashed_pw)
                &&& phc_error(hashed_pw) is None
            },
            CreateEffectView::Finish(Err(FailureView::App(ErrorView::Auth(_)))) => next.0 is Over,
            _ => false,
        },
{
}

/// A usage error is reported with its message and the usage, and ends the process with
/// the code 2. Help shows the usage, a new user is created as described, and otherwise
/// the server starts.
pub proof fn law_runs_follow_the_command(message: Seq<char>, user: CreateUserView)
    ensures
        run_of(Err(message)) == (RunView::Reject {
            report: "Error: "@ + message + "\n\n"@ + USAGE@,
            code: 2,
        }),
        run_of(Ok(Some(CommandView::Help))) == RunView::ShowUsage(USAGE@),
        run_of(Ok(Some(CommandView::CreateUser(user)))) == RunView::CreateUser(user),
        run_of(Ok(None)) is StartServer,
{
}

/// Arguments and commands are seen with every one of their fields, and the words of a
/// command line as they are.
pub proof fn law_commands_are_seen_whole(args: CreateUserArgs, words: Seq<String>)
    ensures
        args@.username == args.username@,
        args@.email == args.email@,
        args.fullname matches Some(name) ==> args@.fullname == Some(name@),
        args.fullname is None ==> args@.fullname is None,
        args@.admin == args.admin,
        args@.print_api_key == args.print_api_key,
        parsed_view(Ok(Some(CliCommand::CreateUser(args)))) == Ok::<Option<CommandView>, Seq<char>>(
            Some(CommandView::CreateUser(args@)),
        ),
        parsed_view(Ok(Some(CliCommand::Help))) == Ok::<Option<CommandView>, Seq<char>>(
            Some(CommandView::Help),
        ),
        parsed_view(Ok(None)) == Ok::<Option<CommandView>, Seq<char>>(None),
        texts(words).len() == words.len(),
        forall|i: int| 0 <= i < words.len() ==> #[trigger] texts(words)[i] == words[i]@,
{
}

/// What is decided and done is seen with every one of its fields.
pub proof fn law_decisions_are_seen_whole<E>(
    run: CliRun,
    profile: Profile,
    effect: CreateEffect<E>,
    stage: CreateStage,
)
    ensures
        run is StartServer <==> run@ is StartServer,
        run matches CliRun::ShowUsage { text } ==> run@ == RunView::ShowUsage(text@),
        run matches CliRun::Reject { report, code } ==> run@ == (RunView::Reject {
            report: report@,
            code,
        }),
        run matches CliRun::CreateUser(args) ==> run@ == RunView::CreateUser(args@),
        profile@.username == profile.username@,
        profile@.email == profile.email@,
        profile@.fullname == profile.fullname@,
        profile@.admin == profile.admin,
        profile@.print_api_key == profile.print_api_key,
        effect is Connect <==> effect@ is Connect,
        effect is ReadLine <==> effect@ is ReadLine,
        effect matches CreateEffect::FindUser { username } ==> effect@ == (CreateEffectView::<
            E,
        >::FindUser { username: username@ }),
        effect matches CreateEffect::AddUser { fullname, username, email, hashed_pw, admin }
            ==> effect@ == (CreateEffectView::<E>::AddUser {
            fullname: fullname@,
            username: username@,
            email: email@,
            hashed_pw: hashed_pw@,
            admin,
        }),
        effect matches CreateEffect::EnsureStats { user_id } ==> effect@ == (CreateEffectView::<
            E,
        >::EnsureStats { user_id }),
        effect matches CreateEffect::Print(text) ==> effect@ == CreateEffectView::<E>::Print(text@),
        effect matches CreateEffect::CreateApiKey { user_id } ==> effect@ == (CreateEffectView::<
            E,
        >::CreateApiKey { user_id }),
        effect matches CreateEffect::Finish(Ok(_)) ==> effect@ == CreateEffectView::<E>::Finish(
            Ok(()),
        ),
        effect matches CreateEffect::Finish(Err(failure)) ==> effect@ == CreateEffectView::<
            E,
        >::Finish(Err(failure@)),
        stage matches CreateStage::Looking { password } ==> stage@ == (CreateStageView::Looking {
            password: password@,
        }),
{
}

} // verus!
