use ticktick_cli::{
    api::HttpMethod,
    args::CliError,
    cli::{Action, Cli, Command, FocusCommand, JsonInput, JsonSource, OAuthCommand, TaskCommand},
    error::TickTickError,
};

fn args(items: &[&str]) -> Vec<String> {
    items.iter().map(|s| s.to_string()).collect()
}

fn parse(items: &[&str]) -> Result<Cli, CliError> {
    Cli::try_parse_from(&args(items))
}

fn message(items: &[&str]) -> String {
    parse(items).unwrap_err().to_string()
}

#[test]
fn globals_may_stand_anywhere_and_defaults_apply() {
    let cli = parse(&["ticktick", "task", "--token", "t", "get", "--project-id=p", "--task-id", "x"])
        .unwrap();
    assert_eq!(cli.token.as_deref(), Some("t"));
    assert_eq!(cli.base_url, "https://api.ticktick.com");
    match cli.command {
        Command::Task { command: TaskCommand::Get { project_id, task_id } } => {
            assert_eq!(project_id, "p");
            assert_eq!(task_id, "x");
        }
        other => panic!("unexpected command {other:?}"),
    }
    let cli = parse(&[
        "ticktick", "oauth", "authorize", "--state", "s", "--redirect-uri", "r", "--base-url",
        "https://b.example",
    ])
    .unwrap();
    assert_eq!(cli.base_url, "https://b.example");
    match cli.command {
        Command::OAuth { command: OAuthCommand::Authorize { scope, .. } } => {
            assert_eq!(scope, "tasks:read tasks:write")
        }
        other => panic!("unexpected command {other:?}"),
    }
}

#[test]
fn environment_values_fill_missing_globals() {
    let argv = args(&["ticktick", "project", "list"]);
    let cli = Cli::try_parse_with_env(&argv, Some("env-tok".into()), Some("id".into()), None).unwrap();
    assert_eq!(cli.token.as_deref(), Some("env-tok"));
    assert_eq!(cli.client_id.as_deref(), Some("id"));
    assert_eq!(cli.client_secret, None);
    let argv = args(&["ticktick", "--token", "cli-tok", "project", "list"]);
    let cli = Cli::try_parse_with_env(&argv, Some("env-tok".into()), None, None).unwrap();
    assert_eq!(cli.token.as_deref(), Some("cli-tok"));
}

#[test]
fn inline_values_may_hold_equals_signs_and_signs() {
    let cli = parse(&["ticktick", "focus", "get", "--focus-id=a=b", "--type=-3"]).unwrap();
    match cli.command {
        Command::Focus { command: FocusCommand::Get { focus_id, focus_type } } => {
            assert_eq!(focus_id, "a=b");
            assert_eq!(focus_type, -3);
        }
        other => panic!("unexpected command {other:?}"),
    }
}

#[test]
fn json_options_become_the_json_input() {
    let cli = parse(&["ticktick", "task", "create", "--json-stdin"]).unwrap();
    match &cli.command {
        Command::Task { command: TaskCommand::Create { input } } => {
            assert_eq!(input.json, None);
            assert_eq!(input.json_file, None);
            assert!(input.json_stdin);
        }
        other => panic!("unexpected command {other:?}"),
    }
    assert_eq!(cli.json_source().unwrap(), Some(JsonSource::Stdin));
    let cli = parse(&["ticktick", "task", "create", "--json", "{}", "--json-stdin"]).unwrap();
    assert!(matches!(cli.json_source(), Err(TickTickError::ConflictingJsonInput)));
    let cli = parse(&["ticktick", "task", "create"]).unwrap();
    assert!(matches!(cli.into_action(None), Err(TickTickError::MissingJsonInput)));
}

#[test]
fn escape_marker_ends_the_arguments() {
    assert!(parse(&["ticktick", "project", "list", "--"]).is_ok());
    match parse(&["ticktick", "project", "list", "--", "x"]) {
        Err(CliError::UnexpectedArgument { arg, .. }) => assert_eq!(arg, "x"),
        other => panic!("unexpected outcome {other:?}"),
    }
}

#[test]
fn every_kind_of_refusal() {
    assert!(matches!(parse(&["ticktick"]), Err(CliError::DisplayHelpOnMissing)));
    assert!(matches!(parse(&[]), Err(CliError::DisplayHelpOnMissing)));
    assert!(matches!(parse(&["ticktick", "task"]), Err(CliError::DisplayHelpOnMissing)));
    assert!(matches!(parse(&["ticktick", "--token", "t", "task"]), Err(CliError::DisplayHelpOnMissing)));
    assert!(matches!(
        parse(&["ticktick", "--token", "t"]),
        Err(CliError::MissingSubcommand { path, .. }) if path == "ticktick"
    ));
    assert!(matches!(
        parse(&["ticktick", "task", "--token", "t"]),
        Err(CliError::MissingSubcommand { path, .. }) if path == "ticktick task"
    ));
    let argv = args(&["ticktick"]);
    assert!(matches!(
        Cli::try_parse_with_env(&argv, Some("tok".into()), None, None),
        Err(CliError::MissingSubcommand { path, .. }) if path == "ticktick"
    ));
    assert!(matches!(parse(&["ticktick", "tasks"]), Err(CliError::InvalidSubcommand { word, .. }) if word == "tasks"));
    assert!(matches!(parse(&["ticktick", "task", "list"]), Err(CliError::InvalidSubcommand { word, .. }) if word == "list"));
    assert!(matches!(parse(&["ticktick", "project", "list", "extra"]), Err(CliError::UnexpectedArgument { arg, .. }) if arg == "extra"));
    assert!(matches!(parse(&["ticktick", "project", "list", "--task-id", "x"]), Err(CliError::UnexpectedArgument { arg, .. }) if arg == "--task-id"));
    assert!(matches!(parse(&["ticktick", "--json", "{}", "task", "create"]), Err(CliError::UnexpectedArgument { arg, .. }) if arg == "--json"));
    assert!(matches!(parse(&["ticktick", "project", "list", "--bogus=1"]), Err(CliError::UnexpectedArgument { arg, .. }) if arg == "--bogus"));
    assert!(matches!(parse(&["ticktick", "project", "list", "-x"]), Err(CliError::UnexpectedArgument { arg, .. }) if arg == "-x"));
    assert!(matches!(parse(&["ticktick", "project", "list", "-xyz"]), Err(CliError::UnexpectedArgument { arg, .. }) if arg == "-x"));
    assert!(matches!(parse(&["ticktick", "project", "list", "--token"]), Err(CliError::MissingValue(a)) if a == "--token <TOKEN>"));
    assert!(matches!(
        parse(&["ticktick", "task", "create", "--json-stdin=yes"]),
        Err(CliError::UnexpectedValue { value, arg, .. }) if value == "yes" && arg == "--json-stdin"
    ));
    assert!(matches!(
        parse(&["ticktick", "project", "list", "--token", "a", "--token", "b"]),
        Err(CliError::Duplicate { arg, .. }) if arg == "--token <TOKEN>"
    ));
    let cli = parse(&["ticktick", "--token", "a", "project", "--token=b", "list", "--token", "c"]).unwrap();
    assert_eq!(cli.token.as_deref(), Some("c"));
    let cli = parse(&["ticktick", "--token", "a", "project", "list"]).unwrap();
    assert_eq!(cli.token.as_deref(), Some("a"));
    assert!(matches!(
        parse(&["ticktick", "focus", "get", "--focus-id", "f", "--type", "one"]),
        Err(CliError::InvalidValue { value, arg, .. }) if value == "one" && arg == "--type <FOCUS_TYPE>"
    ));
    assert!(matches!(
        parse(&["ticktick", "habit", "checkins", "--habit-ids", "h", "--from", "2147483648", "--to", "1"]),
        Err(CliError::InvalidValue { value, arg, .. }) if value == "2147483648" && arg == "--from <FROM>"
    ));
    match parse(&["ticktick", "focus", "list"]) {
        Err(CliError::MissingRequired { args, .. }) => assert_eq!(
            args,
            vec!["--from <FROM>", "--to <TO>", "--type <FOCUS_TYPE>"]
        ),
        other => panic!("unexpected outcome {other:?}"),
    }
    assert!(matches!(parse(&["ticktick", "task", "get", "-h"]), Err(CliError::DisplayHelp)));
    assert!(matches!(parse(&["ticktick", "task", "get", "-hx"]), Err(CliError::DisplayHelp)));
    assert!(matches!(parse(&["ticktick", "--help"]), Err(CliError::DisplayHelp)));
    assert!(matches!(parse(&["ticktick", "--version"]), Err(CliError::DisplayVersion)));
    assert!(matches!(parse(&["ticktick", "task", "-V"]), Err(CliError::UnexpectedArgument { arg, .. }) if arg == "-V"));
}

#[test]
fn the_help_subcommand_shows_help() {
    assert!(matches!(parse(&["ticktick", "help"]), Err(CliError::DisplayHelp)));
    assert!(matches!(parse(&["ticktick", "help", "task"]), Err(CliError::DisplayHelp)));
    assert!(matches!(parse(&["ticktick", "help", "task", "get"]), Err(CliError::DisplayHelp)));
    assert!(matches!(parse(&["ticktick", "task", "help"]), Err(CliError::DisplayHelp)));
    assert!(matches!(parse(&["ticktick", "--token", "t", "habit", "help", "checkins"]), Err(CliError::DisplayHelp)));
    assert!(matches!(
        parse(&["ticktick", "help", "tasks"]),
        Err(CliError::InvalidSubcommand { word, .. }) if word == "tasks"
    ));
    assert!(matches!(
        parse(&["ticktick", "help", "task", "get", "x"]),
        Err(CliError::InvalidSubcommand { word, .. }) if word == "x"
    ));
    assert_eq!(
        message(&["ticktick", "task", "help", "list"]),
        "error: unrecognized subcommand 'list'\n\nUsage: ticktick task [OPTIONS] <COMMAND>\n\nFor more information, try '--help'.\n"
    );
    assert!(matches!(
        parse(&["ticktick", "task", "get", "help"]),
        Err(CliError::UnexpectedArgument { arg, .. }) if arg == "help"
    ));
}

#[test]
fn refusal_messages() {
    let hint = "\n\nFor more information, try '--help'.\n";
    assert_eq!(
        message(&["ticktick", "task", "--token=t"]),
        format!("error: 'ticktick task' requires a subcommand but one was not provided\n  [subcommands: get, create, update, complete, delete, move, completed, filter, help]\n\nUsage: ticktick task [OPTIONS] <COMMAND>{hint}")
    );
    assert_eq!(
        message(&["ticktick", "tasks"]),
        format!("error: unrecognized subcommand 'tasks'\n\nUsage: ticktick [OPTIONS] <COMMAND>{hint}")
    );
    assert_eq!(
        message(&["ticktick", "project", "get", "x"]),
        format!("error: unexpected argument 'x' found\n\nUsage: ticktick project get [OPTIONS] --project-id <PROJECT_ID>{hint}")
    );
    assert_eq!(
        message(&["ticktick", "project", "get", "--project-id=p", "--bogus"]),
        format!("error: unexpected argument '--bogus' found\n\nUsage: ticktick project get --project-id <PROJECT_ID>{hint}")
    );
    assert_eq!(
        message(&["ticktick", "project", "list", "--token"]),
        format!("error: a value is required for '--token <TOKEN>' but none was supplied{hint}")
    );
    assert_eq!(
        message(&["ticktick", "task", "create", "--token=t", "--json-stdin=1"]),
        format!("error: unexpected value '1' for '--json-stdin' found; no more were expected\n\nUsage: ticktick task create --token <TOKEN> --json-stdin{hint}")
    );
    assert_eq!(
        message(&["ticktick", "project", "list", "--token=a", "--token=b"]),
        format!("error: the argument '--token <TOKEN>' cannot be used multiple times\n\nUsage: ticktick project list [OPTIONS]{hint}")
    );
    assert_eq!(
        message(&["ticktick", "focus", "get", "--focus-id", "f", "--type", "x"]),
        format!("error: invalid value 'x' for '--type <FOCUS_TYPE>': invalid digit found in string{hint}")
    );
    assert_eq!(
        message(&["ticktick", "focus", "get", "--focus-id", "f", "--type="]),
        format!("error: invalid value '' for '--type <FOCUS_TYPE>': cannot parse integer from empty string{hint}")
    );
    assert_eq!(
        message(&["ticktick", "focus", "get", "--focus-id", "f", "--type", "+2147483648"]),
        format!("error: invalid value '+2147483648' for '--type <FOCUS_TYPE>': 2147483648 is not in -2147483648..=2147483647{hint}")
    );
    assert_eq!(
        message(&["ticktick", "focus", "get", "--focus-id", "f", "--type=-99999999999999999999"]),
        format!("error: invalid value '-99999999999999999999' for '--type <FOCUS_TYPE>': number too small to fit in target type{hint}")
    );
    assert_eq!(
        message(&["ticktick", "focus", "get", "--focus-id", "f", "--type=99999999999999999999x"]),
        format!("error: invalid value '99999999999999999999x' for '--type <FOCUS_TYPE>': number too large to fit in target type{hint}")
    );
    assert_eq!(
        message(&["ticktick", "oauth", "exchange", "--redirect-uri", "r"]),
        format!("error: the following required arguments were not provided:\n  --code <CODE>\n\nUsage: ticktick oauth exchange --code <CODE> --redirect-uri <REDIRECT_URI>{hint}")
    );
    assert_eq!(
        message(&["ticktick", "oauth", "exchange"]),
        format!("error: the following required arguments were not provided:\n  --code <CODE>\n  --redirect-uri <REDIRECT_URI>\n\nUsage: ticktick oauth exchange --code <CODE> --redirect-uri <REDIRECT_URI>{hint}")
    );
    let argv = args(&["ticktick", "oauth", "authorize", "--scope", "s"]);
    let err = Cli::try_parse_with_env(&argv, None, Some("id".into()), None).unwrap_err();
    assert_eq!(
        err.to_string(),
        format!("error: the following required arguments were not provided:\n  --state <STATE>\n  --redirect-uri <REDIRECT_URI>\n\nUsage: ticktick oauth authorize --state <STATE> --redirect-uri <REDIRECT_URI> --scope <SCOPE> --client-id <CLIENT_ID>{hint}")
    );
    assert_eq!(message(&["ticktick", "-V"]), "ticktick 0.1.0\n");
    assert!(message(&["ticktick", "-h"]).starts_with("TickTick Open API CLI\n"));
}

#[test]
fn exchange_goes_to_the_oauth_host_whatever_the_base_url() {
    let cli = parse(&[
        "ticktick", "--client-id", "id", "--client-secret", "secret", "--base-url",
        "https://elsewhere.example", "oauth", "exchange", "--code", "c", "--redirect-uri", "r",
    ])
    .unwrap();
    match cli.into_action(None).unwrap() {
        Action::Api(req) => {
            assert_eq!(req.base_url, "https://ticktick.com");
            assert_eq!(req.path, "/oauth/token");
            assert_eq!(req.method, HttpMethod::Post);
            assert_eq!(req.basic_auth.as_deref(), Some("id:secret"));
            assert_eq!(req.token, None);
        }
        other => panic!("unexpected action {other:?}"),
    }
}

#[test]
fn into_request_fills_the_default_token_even_for_the_exchange() {
    let cli = parse(&[
        "ticktick", "--client-id", "id", "--client-secret", "s", "oauth", "exchange", "--code",
        "c", "--redirect-uri", "r",
    ])
    .unwrap();
    let req = cli.into_request(Some("d".into()), None).unwrap();
    assert_eq!(req.token.as_deref(), Some("d"));
    assert_eq!(req.basic_auth.as_deref(), Some("id:s"));
    let cli = parse(&[
        "ticktick", "--client-id", "id", "oauth", "authorize", "--state", "s", "--redirect-uri", "r",
    ])
    .unwrap();
    assert!(matches!(cli.into_request(None, None), Err(TickTickError::MissingJsonInput)));
    let cli = parse(&["ticktick", "oauth", "authorize", "--state", "s", "--redirect-uri", "r"]).unwrap();
    assert!(matches!(cli.into_request(None, None), Err(TickTickError::MissingClientId)));
    let cli = parse(&["ticktick", "--token", "t", "task", "update", "--task-id", "x", "--json", "{"]).unwrap();
    assert!(matches!(cli.into_request(None, None), Err(TickTickError::InvalidJson(_))));
}

#[test]
fn json_sources_are_named() {
    let input = |json: Option<&str>, file: Option<&str>, stdin: bool| JsonInput {
        json: json.map(|s| s.to_string()),
        json_file: file.map(|s| s.to_string()),
        json_stdin: stdin,
    };
    assert_eq!(input(Some("{}"), None, false).source().unwrap(), Some(JsonSource::Inline));
    assert_eq!(input(None, Some("f"), false).source().unwrap(), Some(JsonSource::File("f".into())));
    assert_eq!(input(None, None, true).source().unwrap(), Some(JsonSource::Stdin));
    assert_eq!(input(None, None, false).source().unwrap(), None);
    assert!(matches!(input(None, Some("f"), true).source(), Err(TickTickError::ConflictingJsonInput)));
    assert!(matches!(
        input(Some("{}"), Some("f"), true).read_required_json(None),
        Err(TickTickError::ConflictingJsonInput)
    ));
    assert_eq!(
        input(None, None, true).read_required_json(Some("[1]".into())).unwrap(),
        serde_json::from_str::<serde_json::Value>("[1]").unwrap()
    );
}

#[test]
fn an_option_awaiting_its_value() {
    assert!(matches!(
        parse(&["ticktick", "project", "list", "--token", "--x"]),
        Err(CliError::UnexpectedArgument { arg, usage }) if arg == "--x" && usage == "Usage: ticktick project list [OPTIONS]"
    ));
    assert!(matches!(
        parse(&["ticktick", "project", "list", "--token", "--task-id=1"]),
        Err(CliError::UnexpectedArgument { arg, .. }) if arg == "--task-id"
    ));
    assert!(matches!(
        parse(&["ticktick", "focus", "get", "--focus-id", "f", "--type", "-3"]),
        Err(CliError::UnexpectedArgument { arg, .. }) if arg == "-3"
    ));
    assert!(matches!(
        parse(&["ticktick", "task", "create", "--token", "--json-stdin"]),
        Err(CliError::MissingValue(a)) if a == "--token <TOKEN>"
    ));
    assert!(matches!(
        parse(&["ticktick", "task", "create", "--token", "--json-stdin=1"]),
        Err(CliError::UnexpectedValue { value, arg, .. }) if value == "1" && arg == "--json-stdin"
    ));
    assert!(matches!(
        parse(&["ticktick", "project", "list", "--token", "-h"]),
        Err(CliError::MissingValue(a)) if a == "--token <TOKEN>"
    ));
    assert!(matches!(
        parse(&["ticktick", "project", "list", "--token", "--"]),
        Err(CliError::MissingValue(a)) if a == "--token <TOKEN>"
    ));
    assert!(matches!(
        parse(&["ticktick", "project", "list", "--token", "--", "x"]),
        Err(CliError::UnexpectedArgument { arg, .. }) if arg == "x"
    ));
    assert!(matches!(
        parse(&["ticktick", "task", "--", "get"]),
        Err(CliError::EscapedSubcommand { word, .. }) if word == "get"
    ));
    assert!(matches!(
        parse(&["ticktick", "task", "--", "gets"]),
        Err(CliError::InvalidSubcommand { word, .. }) if word == "gets"
    ));
}
