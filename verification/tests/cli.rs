use pinepods_api::cli::{
    create_user, maybe_run, parse_args, read_password_stdin, CliCommand, CliRun, CreateEffect,
    CreateReply, CreateUserArgs, Profile, FAILURE_EXIT_CODE, USAGE, USAGE_EXIT_CODE,
};
use pinepods_api::error::{AppError, Failure};
use pinepods_api::services::auth::verify_password;

fn args(values: &[&str]) -> Vec<String> {
    std::iter::once("pinepods-api".to_string())
        .chain(values.iter().map(|v| v.to_string()))
        .collect()
}

#[test]
fn no_cli_flags_means_server_start() {
    assert_eq!(parse_args(&args(&[])).unwrap(), None);
    // Server flags (like --dump-openapi) must not be treated as CLI errors.
    assert_eq!(
        parse_args(&args(&["--dump-openapi", "openapi.json"])).unwrap(),
        None
    );
}

#[test]
fn parses_create_user() {
    let parsed = parse_args(&args(&[
        "--create-user",
        "--username",
        "Alice",
        "--email",
        "alice@example.com",
        "--fullname",
        "Alice A.",
        "--admin",
        "--print-api-key",
        "--password-stdin",
    ]))
    .unwrap();

    match parsed {
        Some(CliCommand::CreateUser(args)) => {
            assert_eq!(args.username, "Alice");
            assert_eq!(args.email, "alice@example.com");
            assert_eq!(args.fullname.as_deref(), Some("Alice A."));
            assert!(args.admin);
            assert!(args.print_api_key);
        }
        other => panic!("unexpected parse result: {other:?}"),
    }
}

#[test]
fn help_wins() {
    assert_eq!(
        parse_args(&args(&["--help"])).unwrap(),
        Some(CliCommand::Help)
    );
}

#[test]
fn rejects_missing_and_unknown_arguments() {
    assert!(parse_args(&args(&["--create-user", "--email", "a@b.c", "--password-stdin"]))
        .unwrap_err()
        .contains("--username"));
    assert!(parse_args(&args(&[
        "--create-user",
        "--username",
        "a",
        "--email",
        "a@b.c",
        "--password-stdin",
        "--bogus"
    ]))
    .unwrap_err()
    .contains("Unknown argument"));
    assert!(parse_args(&args(&[
        "--create-user",
        "--username",
        "a",
        "--email",
        "a@b.c"
    ]))
    .unwrap_err()
    .contains("--password-stdin"));
    assert!(parse_args(&args(&["--create-user", "--username"])).is_err());
}

#[test]
fn usage_errors_are_named() {
    let full = ["--create-user", "--username", "a", "--email", "b", "--password-stdin"];
    assert!(parse_args(&args(&full)).is_ok());
    let error = |values: &[&str]| parse_args(&args(values)).unwrap_err();
    assert_eq!(error(&["--create-user"]), "Missing --username");
    assert_eq!(error(&["--create-user", "--username", "a"]), "Missing --email");
    assert_eq!(
        error(&["--create-user", "--username", " \t", "--email", "b"]),
        "--username cannot be empty"
    );
    assert_eq!(
        error(&["--create-user", "--username", "a", "--email", ""]),
        "--email cannot be empty"
    );
    assert_eq!(
        error(&["--create-user", "--username", "a", "--email", "b"]),
        "Missing --password-stdin (passwords are read from stdin)"
    );
    assert_eq!(
        error(&["--create-user", "--fullname"]),
        "--fullname requires a value"
    );
    assert_eq!(error(&["--create-user", "x"]), "Unknown argument: x");
}

#[test]
fn flags_are_taken_as_values_where_one_is_due() {
    // The switch is the user name here, so it is not set.
    let error = parse_args(&args(&[
        "--create-user",
        "--username",
        "--password-stdin",
        "--email",
        "b",
    ]))
    .unwrap_err();
    assert_eq!(error, "Missing --password-stdin (passwords are read from stdin)");
}

#[test]
fn later_values_replace_earlier_ones() {
    let parsed = parse_args(&args(&[
        "--username",
        "a",
        "--create-user",
        "--username",
        "c",
        "--email",
        "b",
        "--password-stdin",
    ]));
    assert_eq!(
        parsed,
        Ok(Some(CliCommand::CreateUser(CreateUserArgs {
            username: "c".to_string(),
            email: "b".to_string(),
            fullname: None,
            admin: false,
            print_api_key: false,
        })))
    );
}

#[test]
fn help_wins_over_errors() {
    for flag in ["--help", "-h"] {
        assert_eq!(
            parse_args(&args(&["--create-user", "--bogus", flag])),
            Ok(Some(CliCommand::Help))
        );
    }
}

#[test]
fn the_command_line_decides_what_runs() {
    assert_eq!(maybe_run(&args(&[])), CliRun::StartServer);
    assert_eq!(maybe_run(&args(&["-h"])), CliRun::ShowUsage { text: USAGE });
    match maybe_run(&args(&["--create-user"])) {
        CliRun::Reject { report, code } => {
            assert_eq!(report, format!("Error: Missing --username\n\n{USAGE}"));
            assert_eq!(code, USAGE_EXIT_CODE);
        }
        other => panic!("unexpected run: {other:?}"),
    }
    assert_eq!((FAILURE_EXIT_CODE, USAGE_EXIT_CODE), (1, 2));
    let full = ["--create-user", "--username", "a", "--email", "b", "--password-stdin"];
    match maybe_run(&args(&full)) {
        CliRun::CreateUser(user) => assert_eq!((user.username.as_str(), user.email.as_str()), ("a", "b")),
        other => panic!("unexpected run: {other:?}"),
    }
}

#[test]
fn usage_names_every_flag() {
    for flag in [
        "--create-user",
        "--username",
        "--email",
        "--fullname",
        "--admin",
        "--print-api-key",
        "--password-stdin",
        "--help",
    ] {
        assert!(USAGE.contains(flag));
    }
    assert!(USAGE.starts_with("PinePods API admin CLI\n\nUsage:\n"));
    assert!(USAGE.contains("--create-user \\\n    --username alice"));
    assert!(USAGE.contains("printf '%s\\n' \"$ADMIN_PW\" |"));
}

#[test]
fn passwords_lose_their_line_end_only() {
    let read = |line: &str| read_password_stdin(Ok(line.to_string()));
    assert_eq!(read("secret\n"), Ok("secret".to_string()));
    assert_eq!(read(" secret \r\n"), Ok(" secret ".to_string()));
    assert_eq!(read("secret"), Ok("secret".to_string()));
    let none = AppError::Config("No password received on stdin (use --password-stdin)".to_string());
    assert_eq!(read("\r\n"), Err(none));
    let none = AppError::Config("No password received on stdin (use --password-stdin)".to_string());
    assert_eq!(read(""), Err(none));
    assert_eq!(
        read_password_stdin(Err("broken pipe".to_string())),
        Err(AppError::Config(
            "Failed to read password from stdin: broken pipe".to_string()
        ))
    );
}

fn new_user(username: &str, fullname: Option<&str>) -> CreateUserArgs {
    CreateUserArgs {
        username: username.to_string(),
        email: " a@b.c ".to_string(),
        fullname: fullname.map(str::to_string),
        admin: true,
        print_api_key: true,
    }
}

#[test]
fn profiles_are_normalised() {
    let profile = Profile::new(&new_user("  ALICE Ärger ", Some(" Alice A. ")));
    assert_eq!(profile.username, "alice ärger");
    assert_eq!(profile.email, "a@b.c");
    assert_eq!(profile.fullname, "Alice A.");
    assert!(profile.admin && profile.print_api_key);
    assert_eq!(Profile::new(&new_user("Bob", Some("  "))).fullname, "bob");
    assert_eq!(Profile::new(&new_user("Bob", None)).fullname, "bob");
}

#[test]
fn a_user_is_created_step_by_step() {
    let (run, effect) = create_user::<&str>(&new_user("Alice", None));
    assert_eq!(effect, CreateEffect::Connect);
    let (run, effect) = run.step::<&str>(CreateReply::Connected(Ok(())));
    assert_eq!(effect, CreateEffect::ReadLine);
    let (run, effect) = run.step::<&str>(CreateReply::Line(Ok("secret\n".to_string())));
    assert_eq!(
        effect,
        CreateEffect::FindUser {
            username: "alice".to_string()
        }
    );
    let (run, effect) = run.step(CreateReply::Found(Err("no such user")));
    match effect {
        CreateEffect::AddUser {
            fullname,
            username,
            email,
            hashed_pw,
            admin,
        } => {
            assert_eq!((fullname.as_str(), username.as_str()), ("alice", "alice"));
            assert_eq!(email, "a@b.c");
            assert!(admin);
            assert_eq!(verify_password("secret", &hashed_pw), Ok(true));
            assert_eq!(verify_password("secret\n", &hashed_pw), Ok(false));
        }
        other => panic!("unexpected effect: {other:?}"),
    }
    let (run, effect) = run.step::<&str>(CreateReply::Added(Ok(42)));
    assert_eq!(effect, CreateEffect::EnsureStats { user_id: 42 });
    let (run, effect) = run.step::<&str>(CreateReply::StatsReady(Ok(())));
    assert_eq!(
        effect,
        CreateEffect::Print("Created admin 'alice' (id 42)".to_string())
    );
    let (run, effect) = run.step::<&str>(CreateReply::Printed);
    assert_eq!(effect, CreateEffect::CreateApiKey { user_id: 42 });
    let (run, effect) = run.step::<&str>(CreateReply::ApiKey(Ok("k".to_string())));
    assert_eq!(effect, CreateEffect::Print("API key: k".to_string()));
    let (_, effect) = run.step::<&str>(CreateReply::Printed);
    assert_eq!(effect, CreateEffect::Finish(Ok(())));
}

#[test]
fn plain_users_get_no_key_unless_asked() {
    let mut user = new_user("Bob", None);
    user.admin = false;
    user.print_api_key = false;
    let (run, _) = create_user::<&str>(&user);
    let (run, _) = run.step::<&str>(CreateReply::Connected(Ok(())));
    let (run, _) = run.step::<&str>(CreateReply::Line(Ok("pw".to_string())));
    let (run, _) = run.step(CreateReply::Found(Err("none")));
    let (run, _) = run.step::<&str>(CreateReply::Added(Ok(-7)));
    let (run, effect) = run.step::<&str>(CreateReply::StatsReady(Ok(())));
    assert_eq!(
        effect,
        CreateEffect::Print("Created user 'bob' (id -7)".to_string())
    );
    let (_, effect) = run.step::<&str>(CreateReply::Printed);
    assert_eq!(effect, CreateEffect::Finish(Ok(())));
}

#[test]
fn taken_usernames_are_refused() {
    let (run, _) = create_user::<&str>(&new_user("Alice", None));
    let (run, _) = run.step::<&str>(CreateReply::Connected(Ok(())));
    let (run, _) = run.step::<&str>(CreateReply::Line(Ok("pw".to_string())));
    let (_, effect) = run.step::<&str>(CreateReply::Found(Ok(1)));
    assert_eq!(
        effect,
        CreateEffect::Finish(Err(Failure::App(AppError::Config(
            "Username 'alice' is already taken".to_string()
        ))))
    );
}

#[test]
fn failures_end_the_creation() {
    let start = || create_user::<&str>(&new_user("Alice", None)).0;
    let (_, effect) = start().step(CreateReply::Connected(Err("no database")));
    assert_eq!(
        effect,
        CreateEffect::Finish(Err(Failure::Outside("no database")))
    );
    let (run, _) = start().step::<&str>(CreateReply::Connected(Ok(())));
    let (_, effect) = run.step::<&str>(CreateReply::Line(Ok("\n".to_string())));
    assert_eq!(
        effect,
        CreateEffect::Finish(Err(Failure::App(AppError::Config(
            "No password received on stdin (use --password-stdin)".to_string()
        ))))
    );
    let (_, effect) = start().hashed::<&str>(Err(AppError::Auth("x".to_string())));
    assert_eq!(
        effect,
        CreateEffect::Finish(Err(Failure::App(AppError::Auth("x".to_string()))))
    );
    let (run, _) = start().hashed::<&str>(Ok("h".to_string()));
    let (_, effect) = run.step(CreateReply::Added(Err("conflict")));
    assert_eq!(
        effect,
        CreateEffect::Finish(Err(Failure::Outside("conflict")))
    );
    let (_, effect) = start().step::<&str>(CreateReply::Printed);
    assert!(matches!(effect, CreateEffect::Finish(Err(Failure::App(_)))));
}

#[test]
fn the_order_of_arguments_makes_no_difference() {
    let expected = parse_args(&args(&[
        "--create-user", "--username", "a", "--username", "b", "--email", "c", "--fullname", "d",
        "--admin", "--password-stdin",
    ]));
    assert!(expected.is_ok());
    for other in [
        [
            "--password-stdin", "--admin", "--fullname", "d", "--username", "a", "--email", "c",
            "--username", "b", "--create-user", "--admin",
        ],
        [
            "--admin", "--admin", "--username", "a", "--create-user", "--username", "b",
            "--password-stdin", "--email", "c", "--fullname", "d",
        ],
    ] {
        assert_eq!(parse_args(&args(&other)), expected);
    }
    // The values of one flag have to keep their order.
    let swapped = parse_args(&args(&[
        "--create-user", "--username", "b", "--username", "a", "--email", "c", "--fullname", "d",
        "--admin", "--password-stdin",
    ]));
    assert!(swapped.is_ok());
    assert_ne!(swapped, expected);
}
