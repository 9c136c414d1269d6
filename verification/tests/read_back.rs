use ticktick_cli::{
    args::CliError,
    cli::{Cli, Command, FocusCommand, HabitCommand, JsonInput, OAuthCommand, ProjectCommand, TaskCommand},
};

fn args(items: &[&str]) -> Vec<String> {
    items.iter().map(|s| s.to_string()).collect()
}

fn read_back(cli: &Cli, written: &[&str]) {
    let parsed: Result<Cli, CliError> = Cli::try_parse_from(&args(written));
    let parsed = parsed.unwrap();
    assert_eq!(format!("{parsed:?}"), format!("{cli:?}"));
}

#[test]
fn written_focus_list_reads_back() {
    let cli = Cli {
        token: Some("t=1".into()),
        client_id: None,
        client_secret: Some("-s".into()),
        base_url: "http://x.example/".into(),
        command: Command::Focus {
            command: FocusCommand::List { from: "-1".into(), to: "".into(), focus_type: -7 },
        },
    };
    read_back(
        &cli,
        &[
            "ticktick",
            "focus",
            "list",
            "--token=t=1",
            "--client-secret=-s",
            "--base-url=http://x.example/",
            "--type=-7",
            "--from=-1",
            "--to=",
        ],
    );
}

#[test]
fn written_habit_checkins_read_back() {
    let cli = Cli {
        token: None,
        client_id: Some("id".into()),
        client_secret: None,
        base_url: "https://api.ticktick.com".into(),
        command: Command::Habit {
            command: HabitCommand::Checkins { habit_ids: "a,b".into(), from: i32::MIN, to: i32::MAX },
        },
    };
    read_back(
        &cli,
        &[
            "ticktick",
            "habit",
            "checkins",
            "--client-id=id",
            "--base-url=https://api.ticktick.com",
            "--from=-2147483648",
            "--to=2147483647",
            "--habit-ids=a,b",
        ],
    );
}

#[test]
fn written_json_commands_read_back() {
    let cli = Cli {
        token: Some("".into()),
        client_id: None,
        client_secret: None,
        base_url: "".into(),
        command: Command::Task {
            command: TaskCommand::Update {
                task_id: "x".into(),
                input: JsonInput { json: Some("{\"a\": 1}".into()), json_file: None, json_stdin: false },
            },
        },
    };
    read_back(&cli, &["ticktick", "task", "update", "--token=", "--base-url=", "--task-id=x", "--json={\"a\": 1}"]);
    let cli = Cli {
        token: None,
        client_id: None,
        client_secret: None,
        base_url: "b".into(),
        command: Command::Habit {
            command: HabitCommand::Checkin {
                habit_id: "h".into(),
                input: JsonInput { json: None, json_file: Some("f.json".into()), json_stdin: true },
            },
        },
    };
    read_back(&cli, &["ticktick", "habit", "checkin", "--base-url=b", "--json-file=f.json", "--json-stdin", "--habit-id=h"]);
}

#[test]
fn written_plain_commands_read_back() {
    let cli = Cli {
        token: None,
        client_id: Some("c".into()),
        client_secret: Some("s".into()),
        base_url: "u".into(),
        command: Command::OAuth {
            command: OAuthCommand::Exchange { code: "--code".into(), scope: "".into(), redirect_uri: "r".into() },
        },
    };
    read_back(
        &cli,
        &[
            "ticktick",
            "oauth",
            "exchange",
            "--client-id=c",
            "--client-secret=s",
            "--base-url=u",
            "--scope=",
            "--redirect-uri=r",
            "--code=--code",
        ],
    );
    let cli = Cli {
        token: None,
        client_id: None,
        client_secret: None,
        base_url: "u".into(),
        command: Command::Project { command: ProjectCommand::List },
    };
    read_back(&cli, &["ticktick", "project", "list", "--base-url=u"]);
}

#[test]
fn options_left_out_take_the_environment() {
    let argv = args(&["ticktick", "habit", "get", "--habit-id", "h"]);
    let cli = Cli::try_parse_with_env(&argv, Some("tok".into()), Some("id".into()), Some("sec".into()))
        .unwrap();
    assert_eq!(cli.token.as_deref(), Some("tok"));
    assert_eq!(cli.client_id.as_deref(), Some("id"));
    assert_eq!(cli.client_secret.as_deref(), Some("sec"));
    assert_eq!(cli.base_url, "https://api.ticktick.com");
    let argv = args(&["ticktick", "habit", "get", "--habit-id", "h", "--client-id=mine"]);
    let cli = Cli::try_parse_with_env(&argv, Some("tok".into()), Some("id".into()), None).unwrap();
    assert_eq!(cli.token.as_deref(), Some("tok"));
    assert_eq!(cli.client_id.as_deref(), Some("mine"));
    assert_eq!(cli.client_secret, None);
}
