use clap::builder::ValueParserFactory;
use clap::error::ErrorKind;
use clap::{Arg, ArgAction, Command};
use ticktick_cli::{args::CliError, cli::Cli};

fn text(long: &'static str, value: &'static str, required: bool) -> Arg {
    Arg::new(long)
        .long(long)
        .value_name(value)
        .action(ArgAction::Set)
        .required(required)
}

fn number(long: &'static str, value: &'static str) -> Arg {
    Arg::new(long)
        .long(long)
        .value_name(value)
        .action(ArgAction::Set)
        .required(true)
        .value_parser(<i32 as ValueParserFactory>::value_parser())
}

fn json_args(cmd: Command) -> Command {
    cmd.arg(text("json", "JSON", false))
        .arg(text("json-file", "JSON_FILE", false))
        .arg(Arg::new("json-stdin").long("json-stdin").action(ArgAction::SetTrue))
}

fn group(name: &'static str, leaves: Vec<Command>) -> Command {
    Command::new(name)
        .subcommand_required(true)
        .arg_required_else_help(true)
        .subcommands(leaves)
}

fn ticktick() -> Command {
    let scope = || {
        Arg::new("scope")
            .long("scope")
            .value_name("SCOPE")
            .action(ArgAction::Set)
            .default_value("tasks:read tasks:write")
    };
    Command::new("ticktick")
        .version("0.1.0")
        .about("TickTick Open API CLI")
        .subcommand_required(true)
        .arg_required_else_help(true)
        .arg(text("token", "TOKEN", false).env("TICKTICK_ACCESS_TOKEN").global(true))
        .arg(text("client-id", "CLIENT_ID", false).env("TICKTICK_CLIENT_ID").global(true))
        .arg(
            text("client-secret", "CLIENT_SECRET", false)
                .env("TICKTICK_CLIENT_SECRET")
                .global(true),
        )
        .arg(
            text("base-url", "BASE_URL", false)
                .global(true)
                .default_value("https://api.ticktick.com"),
        )
        .subcommand(group(
            "oauth",
            vec![
                Command::new("authorize")
                    .arg(scope())
                    .arg(text("state", "STATE", true))
                    .arg(text("redirect-uri", "REDIRECT_URI", true)),
                Command::new("exchange")
                    .arg(text("code", "CODE", true))
                    .arg(scope())
                    .arg(text("redirect-uri", "REDIRECT_URI", true)),
            ],
        ))
        .subcommand(group(
            "task",
            vec![
                Command::new("get")
                    .arg(text("project-id", "PROJECT_ID", true))
                    .arg(text("task-id", "TASK_ID", true)),
                json_args(Command::new("create")),
                json_args(Command::new("update").arg(text("task-id", "TASK_ID", true))),
                Command::new("complete")
                    .arg(text("project-id", "PROJECT_ID", true))
                    .arg(text("task-id", "TASK_ID", true)),
                Command::new("delete")
                    .arg(text("project-id", "PROJECT_ID", true))
                    .arg(text("task-id", "TASK_ID", true)),
                json_args(Command::new("move")),
                json_args(Command::new("completed")),
                json_args(Command::new("filter")),
            ],
        ))
        .subcommand(group(
            "project",
            vec![
                Command::new("list"),
                Command::new("get").arg(text("project-id", "PROJECT_ID", true)),
                Command::new("data").arg(text("project-id", "PROJECT_ID", true)),
                json_args(Command::new("create")),
                json_args(Command::new("update").arg(text("project-id", "PROJECT_ID", true))),
                Command::new("delete").arg(text("project-id", "PROJECT_ID", true)),
            ],
        ))
        .subcommand(group(
            "focus",
            vec![
                Command::new("get")
                    .arg(text("focus-id", "FOCUS_ID", true))
                    .arg(number("type", "FOCUS_TYPE")),
                Command::new("list")
                    .arg(text("from", "FROM", true))
                    .arg(text("to", "TO", true))
                    .arg(number("type", "FOCUS_TYPE")),
                Command::new("delete")
                    .arg(text("focus-id", "FOCUS_ID", true))
                    .arg(number("type", "FOCUS_TYPE")),
            ],
        ))
        .subcommand(group(
            "habit",
            vec![
                Command::new("get").arg(text("habit-id", "HABIT_ID", true)),
                Command::new("list"),
                json_args(Command::new("create")),
                json_args(Command::new("update").arg(text("habit-id", "HABIT_ID", true))),
                json_args(Command::new("checkin").arg(text("habit-id", "HABIT_ID", true))),
                Command::new("checkins")
                    .arg(text("habit-ids", "HABIT_IDS", true))
                    .arg(number("from", "FROM"))
                    .arg(number("to", "TO")),
            ],
        ))
}

/// clap's text without its similar-name tips, which rest on a floating-point
/// similarity measure.
fn without_tips(text: &str) -> String {
    let kept: Vec<&str> = text.split('\n').filter(|line| !line.starts_with("  tip: a similar")).collect();
    kept.join("\n").replace("\n\n\n", "\n\n")
}

fn agree(argv: &[&str]) -> Option<String> {
    let args: Vec<String> = argv.iter().map(|s| s.to_string()).collect();
    let mine = Cli::try_parse_from(&args);
    let theirs = ticktick().try_get_matches_from(&args);
    let same = match (&mine, &theirs) {
        (Ok(_), Ok(_)) => true,
        (Err(CliError::DisplayHelp), Err(e)) => e.kind() == ErrorKind::DisplayHelp,
        (Err(CliError::DisplayHelpOnMissing), Err(e)) => {
            e.kind() == ErrorKind::DisplayHelpOnMissingArgumentOrSubcommand
        }
        (Err(CliError::DisplayVersion), Err(e)) => e.kind() == ErrorKind::DisplayVersion,
        (Err(m), Err(e)) => m.to_string() == without_tips(&e.to_string()),
        _ => false,
    };
    if same {
        None
    } else {
        Some(format!("{argv:?}"))
    }
}

#[test]
fn refusals_read_as_clap_words_them() {
    let cases: Vec<Vec<&str>> = vec![
        vec!["ticktick"],
        vec!["ticktick", "task"],
        vec!["ticktick", "--token", "t"],
        vec!["ticktick", "--token", "t", "task"],
        vec!["ticktick", "task", "--token", "t"],
        vec!["ticktick", "tasks"],
        vec!["ticktick", "task", "list"],
        vec!["ticktick", "help"],
        vec!["ticktick", "help", "task", "get"],
        vec!["ticktick", "task", "help"],
        vec!["ticktick", "help", "tasks"],
        vec!["ticktick", "task", "help", "list"],
        vec!["ticktick", "help", "task", "get", "x"],
        vec!["ticktick", "project", "list", "extra"],
        vec!["ticktick", "project", "get", "x"],
        vec!["ticktick", "project", "list", "--task-id", "x"],
        vec!["ticktick", "project", "get", "--project-id=p", "--bogus"],
        vec!["ticktick", "--json", "{}", "task", "create"],
        vec!["ticktick", "project", "list", "-x"],
        vec!["ticktick", "project", "list", "-xyz"],
        vec!["ticktick", "project", "list", "--token"],
        vec!["ticktick", "project", "list", "--token", "--x"],
        vec!["ticktick", "project", "list", "--token", "--"],
        vec!["ticktick", "project", "list", "--token", "--", "x"],
        vec!["ticktick", "task", "--", "get"],
        vec!["ticktick", "task", "create", "--token", "--json-stdin"],
        vec!["ticktick", "task", "create", "--json-stdin=1"],
        vec!["ticktick", "task", "create", "--token=t", "--json-stdin=1"],
        vec!["ticktick", "--token=a", "project", "list", "--token=b"],
        vec!["ticktick", "task", "create", "--json-stdin", "--json-stdin"],
        vec!["ticktick", "focus", "get", "--focus-id", "f", "--type", "x"],
        vec!["ticktick", "focus", "get", "--focus-id", "f", "--type="],
        vec!["ticktick", "focus", "get", "--focus-id", "f", "--type", "-3"],
        vec!["ticktick", "focus", "get", "--focus-id", "f", "--type=-3"],
        vec!["ticktick", "focus", "get", "--focus-id", "f", "--type", "+2147483648"],
        vec!["ticktick", "focus", "get", "--focus-id", "f", "--type=-99999999999999999999"],
        vec!["ticktick", "focus", "get", "--focus-id", "f", "--type=99999999999999999999x"],
        vec!["ticktick", "focus", "get", "--focus-id", "f", "--type=1x"],
        vec!["ticktick", "focus", "list"],
        vec!["ticktick", "oauth", "exchange"],
        vec!["ticktick", "oauth", "exchange", "--redirect-uri", "r"],
        vec!["ticktick", "oauth", "authorize", "--client-id", "c", "--redirect-uri", "r"],
        vec!["ticktick", "--client-id", "c", "oauth", "authorize", "--scope", "s"],
        vec!["ticktick", "habit", "checkins", "--habit-ids", "h", "--from", "1", "--to", "2"],
        vec!["ticktick", "-V"],
        vec!["ticktick", "--version"],
        vec!["ticktick", "task", "-V"],
        vec!["ticktick", "task", "--version"],
        vec!["ticktick", "-h"],
        vec!["ticktick", "task", "get", "-hx"],
        vec!["ticktick", "--token", "x", "project", "list"],
        vec!["ticktick", "project", "list", "--token", "a", "--token=b"],
        vec!["ticktick", "--token", "a", "--token=b", "project", "list"],
        vec!["ticktick", "task", "--", "help"],
        vec!["ticktick", "help", "help"],
        vec!["ticktick", "--"],
        vec!["ticktick", "task", "--"],
        vec!["ticktick", "--base-url=u"],
        vec!["ticktick", "oauth", "exchange", "--code", "c", "--redirect-uri", "r", "--scope", "s", "--scope", "t"],
        vec!["ticktick", "habit", "checkin", "--habit-id", "h", "--json-file"],
        vec!["ticktick", "help", "help", "x"],
        vec!["ticktick", "task", "help", "help", "x"],
        vec!["ticktick", "-hx"],
        vec!["ticktick", "-Vx"],
        vec!["ticktick", "-x"],
        vec!["ticktick", "x", "--token"],
        vec!["ticktick", "task", "get", "--project-id", "p", "--task-id"],
        vec!["ticktick", "focus", "get", "--focus-id", "f", "--type", "2147483647"],
        vec!["ticktick", "focus", "get", "--focus-id", "f", "--type", "1", "--type", "2"],
        vec!["ticktick", "task", "create", "--json", "{}", "--json-file", "f"],
        vec!["ticktick", "--token", "--", "x"],
        vec!["ticktick", "--base-url"],
        vec!["ticktick", "--base-url=u", "task"],
        vec!["ticktick", "task", "create", "--token", "--json-stdin=1"],
        vec!["ticktick", "project", "get", "--project-id", "-"],
        vec!["ticktick", "project", "get", "--project-id", "--", "x"],
        vec!["ticktick", "project", "get", "--project-id", "p", "--", "--x"],
        vec!["ticktick", "project", "list", "--client-secret", "--client-id", "c"],
        vec!["ticktick", "habit", "checkins", "--habit-ids", "h", "--from", "1"],
        vec!["ticktick", "habit", "checkins", "--from", "1", "--to", "2"],
        vec!["ticktick", "--", "task"],
        vec!["ticktick", "--", "tasks"],
        vec!["ticktick", "oauth", "authorize", "--state", "s", "--state", "t", "--redirect-uri", "r"],
        vec!["ticktick", "project", "list", "--base-url", "b", "--", ],
    ];
    let differences: Vec<String> = cases.iter().filter_map(|case| agree(case)).collect();
    assert!(differences.is_empty(), "{} differ:\n{}", differences.len(), differences.join("\n"));
}



