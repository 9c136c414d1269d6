//! The command-line grammar: which words select commands, which options each
//! command takes, and how a list of arguments becomes a `Cli`.
use vstd::prelude::*;
use vstd::string::*;

use crate::address::opt_view;
use crate::cli::{
    Cli, Command, FocusCommand, HabitCommand, JsonInput, OAuthCommand, ProjectCommand, TaskCommand,
};
use crate::config::API_BASE_URL;
use crate::text::{int_problem, int_problem_text, i32_value, parse_i32, same_text};

verus! {

// ---------------------------------------------------------------------------
// Tables of the grammar.
//
// Command groups: 0 oauth, 1 task, 2 project, 3 focus, 4 habit.
// Commands (leaves): 0 oauth authorize, 1 oauth exchange, 2 to 9 task get,
// create, update, complete, delete, move, completed, filter; 10 to 15 project
// list, get, data, create, update, delete; 16 to 18 focus get, list, delete;
// 19 to 24 habit get, list, create, update, checkin, checkins.
// Options: 0 token, 1 client-id, 2 client-secret, 3 base-url (the global ones),
// 4 scope, 5 state, 6 redirect-uri, 7 code, 8 project-id, 9 task-id, 10 json,
// 11 json-file, 12 json-stdin (a flag), 13 focus-id, 14 type, 15 from, 16 to,
// 17 habit-id, 18 habit-ids.
// ---------------------------------------------------------------------------

/// The number of options.
pub open spec fn option_count() -> nat {
    19
}

/// The command group a word names.
pub open spec fn group_named(w: Seq<char>) -> Option<u8> {
    if w == "oauth"@ {
        Some(0u8)
    } else if w == "task"@ {
        Some(1u8)
    } else if w == "project"@ {
        Some(2u8)
    } else if w == "focus"@ {
        Some(3u8)
    } else if w == "habit"@ {
        Some(4u8)
    } else {
        None
    }
}

/// The word of a command group.
pub open spec fn group_word(g: u8) -> Seq<char> {
    if g == 0 {
        "oauth"@
    } else if g == 1 {
        "task"@
    } else if g == 2 {
        "project"@
    } else if g == 3 {
        "focus"@
    } else {
        "habit"@
    }
}

/// The command a word names within group `g`.
pub open spec fn leaf_named(g: u8, w: Seq<char>) -> Option<u8> {
    if g == 0 {
        if w == "authorize"@ {
            Some(0u8)
        } else if w == "exchange"@ {
            Some(1u8)
        } else {
            None
        }
    } else if g == 1 {
        if w == "get"@ {
            Some(2u8)
        } else if w == "create"@ {
            Some(3u8)
        } else if w == "update"@ {
            Some(4u8)
        } else if w == "complete"@ {
            Some(5u8)
        } else if w == "delete"@ {
            Some(6u8)
        } else if w == "move"@ {
            Some(7u8)
        } else if w == "completed"@ {
            Some(8u8)
        } else if w == "filter"@ {
            Some(9u8)
        } else {
            None
        }
    } else if g == 2 {
        if w == "list"@ {
            Some(10u8)
        } else if w == "get"@ {
            Some(11u8)
        } else if w == "data"@ {
            Some(12u8)
        } else if w == "create"@ {
            Some(13u8)
        } else if w == "update"@ {
            Some(14u8)
        } else if w == "delete"@ {
            Some(15u8)
        } else {
            None
        }
    } else if g == 3 {
        if w == "get"@ {
            Some(16u8)
        } else if w == "list"@ {
            Some(17u8)
        } else if w == "delete"@ {
            Some(18u8)
        } else {
            None
        }
    } else if g == 4 {
        if w == "get"@ {
            Some(19u8)
        } else if w == "list"@ {
            Some(20u8)
        } else if w == "create"@ {
            Some(21u8)
        } else if w == "update"@ {
            Some(22u8)
        } else if w == "checkin"@ {
            Some(23u8)
        } else if w == "checkins"@ {
            Some(24u8)
        } else {
            None
        }
    } else {
        None
    }
}

/// The word of command `l`.
pub open spec fn leaf_word(l: u8) -> Seq<char> {
    if l == 0 {
        "authorize"@
    } else if l == 1 {
        "exchange"@
    } else if l == 2 {
        "get"@
    } else if l == 3 {
        "create"@
    } else if l == 4 {
        "update"@
    } else if l == 5 {
        "complete"@
    } else if l == 6 {
        "delete"@
    } else if l == 7 {
        "move"@
    } else if l == 8 {
        "completed"@
    } else if l == 9 {
        "filter"@
    } else if l == 10 {
        "list"@
    } else if l == 11 {
        "get"@
    } else if l == 12 {
        "data"@
    } else if l == 13 {
        "create"@
    } else if l == 14 {
        "update"@
    } else if l == 15 {
        "delete"@
    } else if l == 16 {
        "get"@
    } else if l == 17 {
        "list"@
    } else if l == 18 {
        "delete"@
    } else if l == 19 {
        "get"@
    } else if l == 20 {
        "list"@
    } else if l == 21 {
        "create"@
    } else if l == 22 {
        "update"@
    } else if l == 23 {
        "checkin"@
    } else {
        "checkins"@
    }
}

/// The long name of an option, without the leading `--`.
pub open spec fn option_long(o: u8) -> Seq<char> {
    if o == 0 {
        "token"@
    } else if o == 1 {
        "client-id"@
    } else if o == 2 {
        "client-secret"@
    } else if o == 3 {
        "base-url"@
    } else if o == 4 {
        "scope"@
    } else if o == 5 {
        "state"@
    } else if o == 6 {
        "redirect-uri"@
    } else if o == 7 {
        "code"@
    } else if o == 8 {
        "project-id"@
    } else if o == 9 {
        "task-id"@
    } else if o == 10 {
        "json"@
    } else if o == 11 {
        "json-file"@
    } else if o == 12 {
        "json-stdin"@
    } else if o == 13 {
        "focus-id"@
    } else if o == 14 {
        "type"@
    } else if o == 15 {
        "from"@
    } else if o == 16 {
        "to"@
    } else if o == 17 {
        "habit-id"@
    } else {
        "habit-ids"@
    }
}

/// The placeholder of an option's value in messages.
pub open spec fn option_value_name(o: u8) -> Seq<char> {
    if o == 0 {
        "TOKEN"@
    } else if o == 1 {
        "CLIENT_ID"@
    } else if o == 2 {
        "CLIENT_SECRET"@
    } else if o == 3 {
        "BASE_URL"@
    } else if o == 4 {
        "SCOPE"@
    } else if o == 5 {
        "STATE"@
    } else if o == 6 {
        "REDIRECT_URI"@
    } else if o == 7 {
        "CODE"@
    } else if o == 8 {
        "PROJECT_ID"@
    } else if o == 9 {
        "TASK_ID"@
    } else if o == 10 {
        "JSON"@
    } else if o == 11 {
        "JSON_FILE"@
    } else if o == 12 {
        ""@
    } else if o == 13 {
        "FOCUS_ID"@
    } else if o == 14 {
        "FOCUS_TYPE"@
    } else if o == 15 {
        "FROM"@
    } else if o == 16 {
        "TO"@
    } else if o == 17 {
        "HABIT_ID"@
    } else {
        "HABIT_IDS"@
    }
}

/// The option a long name (without `--`) names.
pub open spec fn option_named(n: Seq<char>) -> Option<u8> {
    if n == "token"@ {
        Some(0u8)
    } else if n == "client-id"@ {
        Some(1u8)
    } else if n == "client-secret"@ {
        Some(2u8)
    } else if n == "base-url"@ {
        Some(3u8)
    } else if n == "scope"@ {
        Some(4u8)
    } else if n == "state"@ {
        Some(5u8)
    } else if n == "redirect-uri"@ {
        Some(6u8)
    } else if n == "code"@ {
        Some(7u8)
    } else if n == "project-id"@ {
        Some(8u8)
    } else if n == "task-id"@ {
        Some(9u8)
    } else if n == "json"@ {
        Some(10u8)
    } else if n == "json-file"@ {
        Some(11u8)
    } else if n == "json-stdin"@ {
        Some(12u8)
    } else if n == "focus-id"@ {
        Some(13u8)
    } else if n == "type"@ {
        Some(14u8)
    } else if n == "from"@ {
        Some(15u8)
    } else if n == "to"@ {
        Some(16u8)
    } else if n == "habit-id"@ {
        Some(17u8)
    } else if n == "habit-ids"@ {
        Some(18u8)
    } else {
        None
    }
}

/// Whether an option is a flag, which takes no value.
pub open spec fn is_flag(o: u8) -> bool {
    o == 12
}

/// Whether an option is accepted by every command, before or after its words.
pub open spec fn is_global(o: u8) -> bool {
    o < 4
}

/// Whether an option is one of the three JSON input options.
pub open spec fn is_json_option(o: u8) -> bool {
    o == 10 || o == 11 || o == 12
}

/// Whether command `l` takes option `o` (besides the global ones).
pub open spec fn leaf_accepts(l: u8, o: u8) -> bool {
    if l == 0 {
        o == 4 || o == 5 || o == 6
    } else if l == 1 {
        o == 7 || o == 4 || o == 6
    } else if l == 2 || l == 5 || l == 6 {
        o == 8 || o == 9
    } else if l == 3 || l == 7 || l == 8 || l == 9 || l == 13 || l == 21 {
        is_json_option(o)
    } else if l == 4 {
        o == 9 || is_json_option(o)
    } else if l == 11 || l == 12 || l == 15 {
        o == 8
    } else if l == 14 {
        o == 8 || is_json_option(o)
    } else if l == 16 || l == 18 {
        o == 13 || o == 14
    } else if l == 17 {
        o == 15 || o == 16 || o == 14
    } else if l == 19 {
        o == 17
    } else if l == 22 || l == 23 {
        o == 17 || is_json_option(o)
    } else if l == 24 {
        o == 18 || o == 15 || o == 16
    } else {
        false
    }
}

/// Whether the value of option `o` for command `l` must be an `i32`.
pub open spec fn leaf_int_option(l: u8, o: u8) -> bool {
    ((l == 16 || l == 17 || l == 18) && o == 14) || (l == 24 && (o == 15 || o == 16))
}

/// The options command `l` requires, in the order they are listed.
pub open spec fn leaf_required(l: u8) -> Seq<u8> {
    if l == 0 {
        seq![5u8, 6u8]
    } else if l == 1 {
        seq![7u8, 6u8]
    } else if l == 2 || l == 5 || l == 6 {
        seq![8u8, 9u8]
    } else if l == 4 {
        seq![9u8]
    } else if l == 11 || l == 12 || l == 14 || l == 15 {
        seq![8u8]
    } else if l == 16 || l == 18 {
        seq![13u8, 14u8]
    } else if l == 17 {
        seq![15u8, 16u8, 14u8]
    } else if l == 19 || l == 22 || l == 23 {
        seq![17u8]
    } else if l == 24 {
        seq![18u8, 15u8, 16u8]
    } else {
        seq![]
    }
}

/// How an argument appears in messages: `--name <VALUE>`, or `--name` for a flag.
pub open spec fn arg_display(o: u8) -> Seq<char> {
    if is_flag(o) {
        "--"@ + option_long(o)
    } else {
        "--"@ + option_long(o) + " <"@ + option_value_name(o) + ">"@
    }
}

} // verus!

verus! {

/// The command group a word names.
pub fn group_of(w: &str) -> (r: Option<u8>)
    ensures
        r == group_named(w@),
{
    if same_text(w, "oauth") {
        Some(0u8)
    } else if same_text(w, "task") {
        Some(1u8)
    } else if same_text(w, "project") {
        Some(2u8)
    } else if same_text(w, "focus") {
        Some(3u8)
    } else if same_text(w, "habit") {
        Some(4u8)
    } else {
        None
    }
}

/// The command a word names within group `g`.
pub fn leaf_of(g: u8, w: &str) -> (r: Option<u8>)
    ensures
        r == leaf_named(g, w@),
{
    if g == 0 {
        if same_text(w, "authorize") {
            Some(0u8)
        } else if same_text(w, "exchange") {
            Some(1u8)
        } else {
            None
        }
    } else if g == 1 {
        if same_text(w, "get") {
            Some(2u8)
        } else if same_text(w, "create") {
            Some(3u8)
        } else if same_text(w, "update") {
            Some(4u8)
        } else if same_text(w, "complete") {
            Some(5u8)
        } else if same_text(w, "delete") {
            Some(6u8)
        } else if same_text(w, "move") {
            Some(7u8)
        } else if same_text(w, "completed") {
            Some(8u8)
        } else if same_text(w, "filter") {
            Some(9u8)
        } else {
            None
        }
    } else if g == 2 {
        if same_text(w, "list") {
            Some(10u8)
        } else if same_text(w, "get") {
            Some(11u8)
        } else if same_text(w, "data") {
            Some(12u8)
        } else if same_text(w, "create") {
            Some(13u8)
        } else if same_text(w, "update") {
            Some(14u8)
        } else if same_text(w, "delete") {
            Some(15u8)
        } else {
            None
        }
    } else if g == 3 {
        if same_text(w, "get") {
            Some(16u8)
        } else if same_text(w, "list") {
            Some(17u8)
        } else if same_text(w, "delete") {
            Some(18u8)
        } else {
            None
        }
    } else if g == 4 {
        if same_text(w, "get") {
            Some(19u8)
        } else if same_text(w, "list") {
            Some(20u8)
        } else if same_text(w, "create") {
            Some(21u8)
        } else if same_text(w, "update") {
            Some(22u8)
        } else if same_text(w, "checkin") {
            Some(23u8)
        } else if same_text(w, "checkins") {
            Some(24u8)
        } else {
            None
        }
    } else {
        None
    }
}

/// The option a long name (without `--`) names.
pub fn option_of(n: &str) -> (r: Option<u8>)
    ensures
        r == option_named(n@),
{
    if same_text(n, "token") {
        Some(0u8)
    } else if same_text(n, "client-id") {
        Some(1u8)
    } else if same_text(n, "client-secret") {
        Some(2u8)
    } else if same_text(n, "base-url") {
        Some(3u8)
    } else if same_text(n, "scope") {
        Some(4u8)
    } else if same_text(n, "state") {
        Some(5u8)
    } else if same_text(n, "redirect-uri") {
        Some(6u8)
    } else if same_text(n, "code") {
        Some(7u8)
    } else if same_text(n, "project-id") {
        Some(8u8)
    } else if same_text(n, "task-id") {
        Some(9u8)
    } else if same_text(n, "json") {
        Some(10u8)
    } else if same_text(n, "json-file") {
        Some(11u8)
    } else if same_text(n, "json-stdin") {
        Some(12u8)
    } else if same_text(n, "focus-id") {
        Some(13u8)
    } else if same_text(n, "type") {
        Some(14u8)
    } else if same_text(n, "from") {
        Some(15u8)
    } else if same_text(n, "to") {
        Some(16u8)
    } else if same_text(n, "habit-id") {
        Some(17u8)
    } else if same_text(n, "habit-ids") {
        Some(18u8)
    } else {
        None
    }
}

/// The long name of an option, without the leading `--`.
pub fn option_long_text(o: u8) -> (r: &'static str)
    ensures
        r@ == option_long(o),
{
    if o == 0 {
        "token"
    } else if o == 1 {
        "client-id"
    } else if o == 2 {
        "client-secret"
    } else if o == 3 {
        "base-url"
    } else if o == 4 {
        "scope"
    } else if o == 5 {
        "state"
    } else if o == 6 {
        "redirect-uri"
    } else if o == 7 {
        "code"
    } else if o == 8 {
        "project-id"
    } else if o == 9 {
        "task-id"
    } else if o == 10 {
        "json"
    } else if o == 11 {
        "json-file"
    } else if o == 12 {
        "json-stdin"
    } else if o == 13 {
        "focus-id"
    } else if o == 14 {
        "type"
    } else if o == 15 {
        "from"
    } else if o == 16 {
        "to"
    } else if o == 17 {
        "habit-id"
    } else {
        "habit-ids"
    }
}

/// The placeholder of an option's value in messages.
pub fn option_value_text(o: u8) -> (r: &'static str)
    ensures
        r@ == option_value_name(o),
{
    if o == 0 {
        "TOKEN"
    } else if o == 1 {
        "CLIENT_ID"
    } else if o == 2 {
        "CLIENT_SECRET"
    } else if o == 3 {
        "BASE_URL"
    } else if o == 4 {
        "SCOPE"
    } else if o == 5 {
        "STATE"
    } else if o == 6 {
        "REDIRECT_URI"
    } else if o == 7 {
        "CODE"
    } else if o == 8 {
        "PROJECT_ID"
    } else if o == 9 {
        "TASK_ID"
    } else if o == 10 {
        "JSON"
    } else if o == 11 {
        "JSON_FILE"
    } else if o == 12 {
        ""
    } else if o == 13 {
        "FOCUS_ID"
    } else if o == 14 {
        "FOCUS_TYPE"
    } else if o == 15 {
        "FROM"
    } else if o == 16 {
        "TO"
    } else if o == 17 {
        "HABIT_ID"
    } else {
        "HABIT_IDS"
    }
}

} // verus!

verus! {

/// Whether command `l` takes option `o` (besides the global ones).
pub fn accepts(l: u8, o: u8) -> (r: bool)
    ensures
        r == leaf_accepts(l, o),
{
    let json = o == 10 || o == 11 || o == 12;
    if l == 0 {
        o == 4 || o == 5 || o == 6
    } else if l == 1 {
        o == 7 || o == 4 || o == 6
    } else if l == 2 || l == 5 || l == 6 {
        o == 8 || o == 9
    } else if l == 3 || l == 7 || l == 8 || l == 9 || l == 13 || l == 21 {
        json
    } else if l == 4 {
        o == 9 || json
    } else if l == 11 || l == 12 || l == 15 {
        o == 8
    } else if l == 14 {
        o == 8 || json
    } else if l == 16 || l == 18 {
        o == 13 || o == 14
    } else if l == 17 {
        o == 15 || o == 16 || o == 14
    } else if l == 19 {
        o == 17
    } else if l == 22 || l == 23 {
        o == 17 || json
    } else if l == 24 {
        o == 18 || o == 15 || o == 16
    } else {
        false
    }
}

/// Whether the value of option `o` for command `l` must be an `i32`.
pub fn int_option(l: u8, o: u8) -> (r: bool)
    ensures
        r == leaf_int_option(l, o),
{
    ((l == 16 || l == 17 || l == 18) && o == 14) || (l == 24 && (o == 15 || o == 16))
}

/// The options command `l` requires, in the order they are listed.
pub fn required(l: u8) -> (r: Vec<u8>)
    ensures
        r@ == leaf_required(l),
{
    let r = if l == 0 {
        vec![5u8, 6u8]
    } else if l == 1 {
        vec![7u8, 6u8]
    } else if l == 2 || l == 5 || l == 6 {
        vec![8u8, 9u8]
    } else if l == 4 {
        vec![9u8]
    } else if l == 11 || l == 12 || l == 14 || l == 15 {
        vec![8u8]
    } else if l == 16 || l == 18 {
        vec![13u8, 14u8]
    } else if l == 17 {
        vec![15u8, 16u8, 14u8]
    } else if l == 19 || l == 22 || l == 23 {
        vec![17u8]
    } else if l == 24 {
        vec![18u8, 15u8, 16u8]
    } else {
        Vec::new()
    };
    assert(r@ =~= leaf_required(l));
    r
}

/// How an argument appears in messages: `--name <VALUE>`, or `--name` for a flag.
pub fn arg_display_text(o: u8) -> (r: String)
    ensures
        r@ == arg_display(o),
{
    let mut r = String::from_str("--");
    r.append(option_long_text(o));
    if o != 12 {
        r.append(" <");
        r.append(option_value_text(o));
        r.append(">");
    }
    r
}

} // verus!

verus! {

/// Whether the environment gives a value for any global option.
pub open spec fn any_env(env: (bool, bool, bool)) -> bool {
    env.0 || env.1 || env.2
}

/// The global options the environment gives values for, in order.
pub open spec fn env_options(env: (bool, bool, bool)) -> Seq<u8> {
    (if env.0 { seq![0u8] } else { seq![] }) + (if env.1 { seq![1u8] } else { seq![] }) + (if env.2 {
        seq![2u8]
    } else {
        seq![]
    })
}

/// The words naming the command at a level: `ticktick`, then the group and
/// command words where given.
pub open spec fn command_words(group: Option<u8>, leaf: Option<u8>) -> Seq<char> {
    "ticktick"@ + match group {
        Some(g) => " "@ + group_word(g),
        None => seq![],
    } + match leaf {
        Some(l) => " "@ + leaf_word(l),
        None => seq![],
    }
}

/// How options appear in a usage line, each after a space.
pub open spec fn spaced_displays(os: Seq<u8>) -> Seq<char>
    decreases os.len(),
{
    if os.len() == 0 {
        seq![]
    } else {
        spaced_displays(os.drop_last()) + " "@ + arg_display(os.last())
    }
}

/// The items of `s` without repeats, each where it first stands.
pub open spec fn first_each(s: Seq<u8>) -> Seq<u8>
    decreases s.len(),
{
    if s.len() == 0 {
        seq![]
    } else {
        let p = first_each(s.drop_last());
        if p.contains(s.last()) {
            p
        } else {
            p.push(s.last())
        }
    }
}

/// The options a level requires: those of its command, none for a group.
pub open spec fn level_required(leaf: Option<u8>) -> Seq<u8> {
    match leaf {
        Some(l) => leaf_required(l),
        None => seq![],
    }
}

/// The usage line of the command at a level: its words, then `[OPTIONS]` and the
/// required options, or, where options `used` were given, the required options
/// followed by those used; then `<COMMAND>` for a level that needs a subcommand.
pub open spec fn usage_line(group: Option<u8>, leaf: Option<u8>, used: Seq<u8>) -> Seq<char> {
    "Usage: "@ + command_words(group, leaf) + (if used.len() == 0 {
        " [OPTIONS]"@ + spaced_displays(level_required(leaf))
    } else {
        spaced_displays(first_each(level_required(leaf) + used))
    }) + (if leaf is None {
        " <COMMAND>"@
    } else {
        seq![]
    })
}

/// The subcommands of a level, comma-separated, `help` last.
pub open spec fn subcommand_list(group: Option<u8>) -> Seq<char> {
    match group {
        None => "oauth, task, project, focus, habit, help"@,
        Some(g) => if g == 0 {
            "authorize, exchange, help"@
        } else if g == 1 {
            "get, create, update, complete, delete, move, completed, filter, help"@
        } else if g == 2 {
            "list, get, data, create, update, delete, help"@
        } else if g == 3 {
            "get, list, delete, help"@
        } else {
            "get, list, create, update, checkin, checkins, help"@
        },
    }
}

/// Why a list of arguments is refused, as texts. `usage` is the usage line
/// shown below the message.
pub enum CliFailure {
    /// The command path (such as `ticktick task`) lacks its command word; the
    /// subcommands it has, comma-separated.
    MissingSubcommand(Seq<char>, Seq<char>, Seq<char>),
    /// A word that names no command here.
    InvalidSubcommand(Seq<char>, Seq<char>),
    /// A word after `--` that names a subcommand here.
    EscapedSubcommand(Seq<char>, Seq<char>),
    /// A word after `help help` (the `help` subcommand has no subcommands).
    InvalidHelpSubcommand(Seq<char>, Seq<char>),
    /// An argument that does not belong where it stands.
    UnexpectedArgument(Seq<char>, Seq<char>),
    /// An option without its value.
    MissingValue(Seq<char>),
    /// A value given to a flag: the value, then the flag.
    UnexpectedValue(Seq<char>, Seq<char>, Seq<char>),
    /// An option given twice.
    Duplicate(Seq<char>, Seq<char>),
    /// A value that is not a valid number: the value, the option, and why.
    InvalidValue(Seq<char>, Seq<char>, Seq<char>),
    /// The required options that were not given, in order.
    MissingRequired(Seq<Seq<char>>, Seq<char>),
    /// Help was asked for.
    Help,
    /// A command that needs a subcommand was given nothing at all: help is shown
    /// in place of an error.
    HelpOnMissing,
    /// The version was asked for.
    Version,
}

/// Why a list of arguments is refused.
#[derive(Debug, Clone)]
pub enum CliError {
    MissingSubcommand { path: String, subcommands: String, usage: String },
    InvalidSubcommand { word: String, usage: String },
    EscapedSubcommand { word: String, usage: String },
    InvalidHelpSubcommand { word: String, usage: String },
    UnexpectedArgument { arg: String, usage: String },
    MissingValue(String),
    UnexpectedValue { value: String, arg: String, usage: String },
    Duplicate { arg: String, usage: String },
    InvalidValue { value: String, arg: String, problem: String },
    MissingRequired { args: Vec<String>, usage: String },
    DisplayHelp,
    DisplayHelpOnMissing,
    DisplayVersion,
}

/// The views of a sequence of strings.
pub open spec fn texts_view(v: Seq<String>) -> Seq<Seq<char>> {
    v.map_values(|s: String| s@)
}

impl View for CliError {
    type V = CliFailure;

    open spec fn view(&self) -> CliFailure {
        match self {
            CliError::MissingSubcommand { path, subcommands, usage } => CliFailure::MissingSubcommand(
                path@,
                subcommands@,
                usage@,
            ),
            CliError::InvalidSubcommand { word, usage } => CliFailure::InvalidSubcommand(
                word@,
                usage@,
            ),
            CliError::EscapedSubcommand { word, usage } => CliFailure::EscapedSubcommand(
                word@,
                usage@,
            ),
            CliError::InvalidHelpSubcommand { word, usage } => CliFailure::InvalidHelpSubcommand(
                word@,
                usage@,
            ),
            CliError::UnexpectedArgument { arg, usage } => CliFailure::UnexpectedArgument(
                arg@,
                usage@,
            ),
            CliError::MissingValue(s) => CliFailure::MissingValue(s@),
            CliError::UnexpectedValue { value, arg, usage } => CliFailure::UnexpectedValue(
                value@,
                arg@,
                usage@,
            ),
            CliError::Duplicate { arg, usage } => CliFailure::Duplicate(arg@, usage@),
            CliError::InvalidValue { value, arg, problem } => CliFailure::InvalidValue(
                value@,
                arg@,
                problem@,
            ),
            CliError::MissingRequired { args, usage } => CliFailure::MissingRequired(
                texts_view(args@),
                usage@,
            ),
            CliError::DisplayHelp => CliFailure::Help,
            CliError::DisplayHelpOnMissing => CliFailure::HelpOnMissing,
            CliError::DisplayVersion => CliFailure::Version,
        }
    }
}

/// The state of a left-to-right reading of the arguments: the group and command
/// words seen, the value given for each option, whether `--` was seen, and the
/// options given since the last group or command word, in order.
pub struct ScanView {
    pub group: Option<u8>,
    pub leaf: Option<u8>,
    pub slots: Seq<Option<Seq<char>>>,
    pub escaped: bool,
    pub given: Seq<u8>,
}

/// The state before the first argument.
pub open spec fn initial_scan() -> ScanView {
    ScanView {
        group: None,
        leaf: None,
        slots: Seq::new(option_count(), |i: int| None::<Seq<char>>),
        escaped: false,
        given: seq![],
    }
}

/// `st` with the value of option `o` set.
pub open spec fn with_slot(st: ScanView, o: u8, v: Seq<char>) -> ScanView {
    ScanView { slots: st.slots.update(o as int, Some(v)), given: st.given.push(o), ..st }
}

/// The position of the first `=` in `s`.
pub open spec fn first_eq(s: Seq<char>) -> Option<nat>
    decreases s.len(),
{
    if s.len() == 0 {
        None
    } else if s[0] == '=' {
        Some(0nat)
    } else {
        match first_eq(s.drop_first()) {
            Some(k) => Some(k + 1),
            None => None,
        }
    }
}

/// A long option's text after `--`, split at its first `=` into name and inline value.
pub open spec fn split_long(body: Seq<char>) -> (Seq<char>, Option<Seq<char>>) {
    match first_eq(body) {
        Some(k) => (body.take(k as int), Some(body.skip(k + 1int))),
        None => (body, None),
    }
}

/// Whether an argument can stand as the value of the option before it: anything
/// but a text of two or more characters beginning with `-`.
pub open spec fn can_be_value(t: Seq<char>) -> bool {
    !(t.len() > 1 && t[0] == '-')
}

/// Storing value `v` for option `o`, checked against the command's number options.
pub open spec fn store_value(st: ScanView, o: u8, v: Seq<char>, next: int) -> Result<
    (ScanView, int),
    CliFailure,
> {
    if st.leaf matches Some(l) && leaf_int_option(l, o) && i32_value(v) is None {
        Err(CliFailure::InvalidValue(v, arg_display(o), int_problem(v)))
    } else {
        Ok((with_slot(st, o, v), next))
    }
}

/// Reading the long option at `args[i]`, whose text after `--` is `body`.
pub open spec fn long_step(args: Seq<Seq<char>>, i: int, st: ScanView, body: Seq<char>) -> Result<
    (ScanView, int),
    CliFailure,
> {
    let (name, inline) = split_long(body);
    match option_named(name) {
        None => Err(CliFailure::UnexpectedArgument("--"@ + name, usage_line(st.group, st.leaf, st.given))),
        Some(o) => if !(is_global(o) || (st.leaf matches Some(l) && leaf_accepts(l, o))) {
            Err(CliFailure::UnexpectedArgument("--"@ + name, usage_line(st.group, st.leaf, st.given)))
        } else if st.given.contains(o) {
            Err(CliFailure::Duplicate(arg_display(o), usage_line(st.group, st.leaf, seq![])))
        } else if is_flag(o) {
            match inline {
                Some(v) => Err(
                    CliFailure::UnexpectedValue(v, "--"@ + name, usage_line(st.group, st.leaf, st.given.push(o))),
                ),
                None => Ok((with_slot(st, o, seq![]), i + 1)),
            }
        } else {
            match inline {
                Some(v) => store_value(st, o, v, i + 1),
                None => if i + 1 < args.len() && can_be_value(args[i + 1]) {
                    store_value(st, o, args[i + 1], i + 2)
                } else {
                    Err(pending_failure(args, i + 1, st, o))
                },
            }
        },
    }
}

/// Whether the long name `name` names an option at the level of `st`, help, or
/// (at the top) the version.
pub open spec fn long_known(st: ScanView, name: Seq<char>) -> bool {
    ||| (option_named(name) matches Some(o) && (is_global(o) || (st.leaf matches Some(l) && leaf_accepts(l, o))))
    ||| name == "help"@
    ||| (name == "version"@ && st.group is None)
}

/// Whether `t` names a subcommand of the group `group` (of the top without one),
/// `help` included.
pub open spec fn names_subcommand(group: Option<u8>, t: Seq<char>) -> bool {
    t == "help"@ || match group {
        None => group_named(t) is Some,
        Some(g) => leaf_named(g, t) is Some,
    }
}

/// An argument that the grammar cannot take in at the level of `st`, once no
/// more arguments of the command line are read: at a group or the top, a word
/// that names no subcommand; at a command, an unexpected argument.
pub open spec fn stray_failure(st: ScanView, t: Seq<char>) -> CliFailure {
    if st.leaf is None && names_subcommand(st.group, t) {
        CliFailure::EscapedSubcommand(t, usage_line(st.group, st.leaf, seq![]))
    } else if st.leaf is None {
        CliFailure::InvalidSubcommand(t, usage_line(st.group, st.leaf, seq![]))
    } else {
        CliFailure::UnexpectedArgument(t, usage_line(st.group, st.leaf, seq![]))
    }
}

/// Option `o` awaits its value, and the argument at `j` (if any) cannot be one:
/// the argument at `j` is refused where it does not belong; otherwise `o` lacks
/// its value.
pub open spec fn pending_failure(args: Seq<Seq<char>>, j: int, st: ScanView, o: u8) -> CliFailure {
    if j < 0 || j >= args.len() {
        CliFailure::MissingValue(arg_display(o))
    } else {
        let t = args[j];
        if t == "--"@ {
            if j + 1 < args.len() {
                stray_failure(st, args[j + 1])
            } else {
                CliFailure::MissingValue(arg_display(o))
            }
        } else if t.len() > 2 && t[0] == '-' && t[1] == '-' {
            let (name, inline) = split_long(t.skip(2));
            if !long_known(st, name) {
                CliFailure::UnexpectedArgument("--"@ + name, usage_line(st.group, st.leaf, st.given))
            } else if option_named(name) == Some(12u8) && inline is Some {
                CliFailure::UnexpectedValue(
                    inline->0,
                    "--"@ + name,
                    usage_line(st.group, st.leaf, st.given.push(12u8)),
                )
            } else {
                CliFailure::MissingValue(arg_display(o))
            }
        } else if t.len() > 1 && (t[1] == 'h' || (t[1] == 'V' && st.group is None)) {
            CliFailure::MissingValue(arg_display(o))
        } else if t.len() > 1 {
            CliFailure::UnexpectedArgument(seq!['-', t[1]], usage_line(st.group, st.leaf, seq![]))
        } else {
            CliFailure::MissingValue(arg_display(o))
        }
    }
}

/// Reading the word `t`: a group, then a command of that group.
pub open spec fn word_step(st: ScanView, t: Seq<char>, i: int) -> Result<(ScanView, int), CliFailure> {
    match st.group {
        None => match group_named(t) {
            Some(g) => Ok((ScanView { group: Some(g), given: seq![], ..st }, i + 1)),
            None => Err(CliFailure::InvalidSubcommand(t, usage_line(None, None, seq![]))),
        },
        Some(g) => match st.leaf {
            None => match leaf_named(g, t) {
                Some(l) => Ok((ScanView { leaf: Some(l), given: seq![], ..st }, i + 1)),
                None => Err(CliFailure::InvalidSubcommand(t, usage_line(Some(g), None, seq![]))),
            },
            Some(_) => Err(CliFailure::UnexpectedArgument(t, usage_line(st.group, st.leaf, seq![]))),
        },
    }
}

/// Reading the argument at `i`: the new state and the position of the next argument.
pub open spec fn step(args: Seq<Seq<char>>, i: int, st: ScanView) -> Result<(ScanView, int), CliFailure> {
    let t = args[i];
    if st.escaped {
        Err(stray_failure(st, t))
    } else if t == "--"@ {
        Ok((ScanView { escaped: true, ..st }, i + 1))
    } else if t == "--help"@ || t == "-h"@ {
        Err(CliFailure::Help)
    } else if t == "--version"@ || t == "-V"@ {
        if st.group is None {
            Err(CliFailure::Version)
        } else if t == "--version"@ {
            Err(CliFailure::UnexpectedArgument(t, usage_line(st.group, st.leaf, st.given)))
        } else {
            Err(CliFailure::UnexpectedArgument(t, usage_line(st.group, st.leaf, seq![])))
        }
    } else if t.len() > 2 && t[0] == '-' && t[1] == '-' {
        long_step(args, i, st, t.skip(2))
    } else if t.len() > 1 && t[0] == '-' {
        if t[1] == 'h' {
            Err(CliFailure::Help)
        } else if t[1] == 'V' && st.group is None {
            Err(CliFailure::Version)
        } else {
            Err(CliFailure::UnexpectedArgument(seq!['-', t[1]], usage_line(st.group, st.leaf, seq![])))
        }
    } else if t == "help"@ && (st.group is None || st.leaf is None) {
        Err(help_failure(args, i + 1, st.group, None, false))
    } else {
        word_step(st, t, i)
    }
}

/// What the `help` subcommand makes of the words after it, from position `j`: the
/// path of commands they name (from the group `group` and command `leaf`, or
/// from the top), help for it, or the first word that names no subcommand
/// there. `in_help` is set once the path names the `help` subcommand itself.
pub open spec fn help_failure(
    args: Seq<Seq<char>>,
    j: int,
    group: Option<u8>,
    leaf: Option<u8>,
    in_help: bool,
) -> CliFailure
    decreases args.len() - j,
{
    if j < 0 || j >= args.len() {
        CliFailure::Help
    } else if in_help {
        CliFailure::InvalidHelpSubcommand(
            args[j],
            "Usage: "@ + command_words(group, None) + " help [COMMAND]..."@,
        )
    } else if leaf is Some {
        CliFailure::InvalidSubcommand(args[j], usage_line(group, leaf, seq![]))
    } else {
        match group {
            None => match group_named(args[j]) {
                Some(g) => help_failure(args, j + 1, Some(g), None, false),
                None => if args[j] == "help"@ {
                    help_failure(args, j + 1, None, None, true)
                } else {
                    CliFailure::InvalidSubcommand(args[j], usage_line(None, None, seq![]))
                },
            },
            Some(g) => match leaf_named(g, args[j]) {
                Some(l) => help_failure(args, j + 1, Some(g), Some(l), false),
                None => if args[j] == "help"@ {
                    help_failure(args, j + 1, Some(g), None, true)
                } else {
                    CliFailure::InvalidSubcommand(args[j], usage_line(Some(g), None, seq![]))
                },
            },
        }
    }
}

/// Reading the arguments from position `i` on.
pub open spec fn scan(args: Seq<Seq<char>>, i: int, st: ScanView) -> Result<ScanView, CliFailure>
    decreases args.len() - i,
{
    if i < 0 || i >= args.len() {
        Ok(st)
    } else {
        match step(args, i, st) {
            Err(e) => Err(e),
            Ok((next, j)) => if j > i {
                scan(args, j, next)
            } else {
                Ok(next)
            },
        }
    }
}

/// The required options among `req` that have no value, in order.
pub open spec fn missing_of(req: Seq<u8>, slots: Seq<Option<Seq<char>>>) -> Seq<u8>
    decreases req.len(),
{
    if req.len() == 0 {
        seq![]
    } else {
        let m = missing_of(req.drop_last(), slots);
        if slots[req.last() as int] is None {
            m.push(req.last())
        } else {
            m
        }
    }
}

/// The check after all arguments are read: a command was named, and it has all its
/// required options.
pub open spec fn finish(st: ScanView, env: (bool, bool, bool)) -> Result<u8, CliFailure> {
    match st.group {
        None => if st.given.len() == 0 && !any_env(env) {
            Err(CliFailure::HelpOnMissing)
        } else {
            Err(
                CliFailure::MissingSubcommand(
                    "ticktick"@,
                    subcommand_list(None),
                    usage_line(None, None, seq![]),
                ),
            )
        },
        Some(g) => match st.leaf {
            None => if st.given.len() == 0 && !any_env(env) {
                Err(CliFailure::HelpOnMissing)
            } else {
                Err(
                    CliFailure::MissingSubcommand(
                        "ticktick "@ + group_word(g),
                        subcommand_list(Some(g)),
                        usage_line(Some(g), None, seq![]),
                    ),
                )
            },
            Some(l) => {
                let missing = missing_of(leaf_required(l), st.slots);
                if missing.len() > 0 {
                    Err(
                        CliFailure::MissingRequired(
                            missing.map_values(|o: u8| arg_display(o)),
                            usage_line(Some(g), Some(l), st.given + env_options(env) + missing),
                        ),
                    )
                } else {
                    Ok(l)
                }
            },
        },
    }
}

/// What the grammar makes of a list of arguments (the first is the program's
/// name), where `env` says for `--token`, `--client-id` and `--client-secret`
/// whether the environment gives a value: the reading of them all, or why they
/// are refused.
pub open spec fn parse_outcome(args: Seq<Seq<char>>, env: (bool, bool, bool)) -> Result<
    ScanView,
    CliFailure,
> {
    match scan(args, 1, initial_scan()) {
        Err(e) => Err(e),
        Ok(st) => match finish(st, env) {
            Err(e) => Err(e),
            Ok(_) => Ok(st),
        },
    }
}

} // verus!

verus! {

/// The state of a reading of the arguments.
struct Scanner {
    group: Option<u8>,
    leaf: Option<u8>,
    slots: Vec<Option<String>>,
    escaped: bool,
    given: Vec<u8>,
}

impl View for Scanner {
    type V = ScanView;

    closed spec fn view(&self) -> ScanView {
        ScanView {
            group: self.group,
            leaf: self.leaf,
            slots: self.slots@.map_values(|o: Option<String>| crate::address::opt_view(o)),
            escaped: self.escaped,
            given: self.given@,
        }
    }
}

/// What every state reached by reading holds: one slot per option, a command only
/// within a group, values only for options the command takes, and valid numbers
/// for its number options.
pub open spec fn scan_ok(st: ScanView) -> bool {
    &&& st.slots.len() == option_count()
    &&& st.leaf is Some ==> st.group is Some
    &&& st.leaf is Some ==> st.leaf->0 <= 24
    &&& forall|o: u8|
        #![trigger st.slots[o as int]]
        (o as nat) < option_count() && st.slots[o as int] is Some ==> (is_global(o) || (
        st.leaf matches Some(l) && leaf_accepts(l, o)))
    &&& forall|o: u8|
        #![trigger st.slots[o as int]]
        (o as nat) < option_count() && st.slots[o as int] is Some ==> number_slot_ok(st, o)
}

/// Where option `o` has a value and is a number option of the command, the value is a valid `i32`.
pub open spec fn number_slot_ok(st: ScanView, o: u8) -> bool {
    match st.leaf {
        Some(l) => leaf_int_option(l, o) ==> i32_value(st.slots[o as int]->0) is Some,
        None => true,
    }
}

pub(crate) proof fn lemma_first_eq(s: Seq<char>, k: int)
    requires
        0 <= k <= s.len(),
        forall|j: int| 0 <= j < k ==> s[j] != '=',
        k < s.len() ==> s[k] == '=',
    ensures
        first_eq(s) == (if k < s.len() {
            Some(k as nat)
        } else {
            None::<nat>
        }),
    decreases s.len(),
{
    if s.len() > 0 && k > 0 {
        lemma_first_eq(s.drop_first(), k - 1);
    }
}

/// The first `=` lies within the text.
pub(crate) proof fn lemma_first_eq_bound(s: Seq<char>)
    ensures
        first_eq(s) matches Some(k) ==> k < s.len(),
    decreases s.len(),
{
    if s.len() > 0 {
        lemma_first_eq_bound(s.drop_first());
    }
}

/// The position of the first `=` in `s`.
fn find_eq(s: &str) -> (r: Option<usize>)
    ensures
        r matches Some(k) ==> k < s@.len(),
        match r {
            Some(k) => first_eq(s@) == Some(k as nat),
            None => first_eq(s@) is None,
        },
{
    let n = s.unicode_len();
    let mut i: usize = 0;
    while i < n
        invariant
            i <= n,
            n == s@.len(),
            forall|j: int| 0 <= j < i ==> s@[j] != '=',
        decreases n - i,
    {
        if s.get_char(i) == '=' {
            proof {
                lemma_first_eq(s@, i as int);
            }
            return Some(i);
        }
        i = i + 1;
    }
    proof {
        lemma_first_eq(s@, n as int);
    }
    None
}

/// A long option's text after `--`, split at its first `=`.
fn split_long_text(body: &str) -> (r: (String, Option<String>))
    ensures
        (r.0@, crate::address::opt_view(r.1)) == split_long(body@),
{
    match find_eq(body) {
        Some(k) => {
            let n = body.unicode_len();
            let name = String::from_str(body.substring_char(0, k));
            let value = String::from_str(body.substring_char(k + 1, n));
            assert(body@.subrange(0, k as int) =~= body@.take(k as int));
            assert(body@.subrange(k + 1, n as int) =~= body@.skip(k + 1));
            (name, Some(value))
        },
        None => (String::from_str(body), None),
    }
}

/// Whether an argument can stand as the value of the option before it.
fn can_be_value_text(t: &str) -> (r: bool)
    ensures
        r == can_be_value(t@),
{
    !(t.unicode_len() > 1 && t.get_char(0) == '-')
}

/// The word of a command group.
fn group_word_text(g: u8) -> (r: &'static str)
    ensures
        r@ == group_word(g),
{
    if g == 0 {
        "oauth"
    } else if g == 1 {
        "task"
    } else if g == 2 {
        "project"
    } else if g == 3 {
        "focus"
    } else {
        "habit"
    }
}

/// What the `help` subcommand at position `j - 1` reports (see `help_failure`).
fn help_failure_of(args: &Vec<String>, j: usize, group: Option<u8>) -> (r: CliError)
    ensures
        r@ == help_failure(texts_view(args@), j as int, group, None, false),
{
    let ghost av = texts_view(args@);
    let mut k: usize = j;
    let mut g: Option<u8> = group;
    let mut l: Option<u8> = None;
    let mut in_help = false;
    while k < args.len()
        invariant
            av == texts_view(args@),
            av.len() == args@.len(),
            j <= k,
            help_failure(av, k as int, g, l, in_help) == help_failure(av, j as int, group, None, false),
            l is Some ==> g is Some,
        decreases args@.len() - k,
    {
        let w = args[k].as_str();
        assert(av[k as int] == w@);
        if in_help {
            let mut u = String::from_str("Usage: ticktick");
            if let Some(x) = g {
                u.append(" ");
                u.append(group_word_text(x));
            }
            u.append(" help [COMMAND]...");
            proof {
                reveal_strlit("Usage: ticktick");
                reveal_strlit("Usage: ");
                reveal_strlit("ticktick");
                reveal_strlit(" ");
                reveal_strlit(" help [COMMAND]...");
            }
            assert(u@ =~= "Usage: "@ + command_words(g, None) + " help [COMMAND]..."@);
            return CliError::InvalidHelpSubcommand { word: String::from_str(w), usage: u };
        }
        if l.is_some() {
            return CliError::InvalidSubcommand { word: String::from_str(w), usage: usage_of(g, l, &Vec::new()) };
        }
        match g {
            None => match group_of(w) {
                Some(x) => {
                    g = Some(x);
                },
                None => {
                    if same_text(w, "help") {
                        in_help = true;
                    } else {
                        return CliError::InvalidSubcommand {
                            word: String::from_str(w),
                            usage: usage_of(None, None, &Vec::new()),
                        };
                    }
                },
            },
            Some(x) => match leaf_of(x, w) {
                Some(y) => {
                    l = Some(y);
                },
                None => {
                    if same_text(w, "help") {
                        in_help = true;
                    } else {
                        return CliError::InvalidSubcommand {
                            word: String::from_str(w),
                            usage: usage_of(Some(x), None, &Vec::new()),
                        };
                    }
                },
            },
        }
        k = k + 1;
    }
    CliError::DisplayHelp
}

/// Whether `x` is among `v`.
fn contains_u8(v: &Vec<u8>, x: u8) -> (r: bool)
    ensures
        r == v@.contains(x),
{
    let mut k: usize = 0;
    while k < v.len()
        invariant
            k <= v@.len(),
            forall|m: int| 0 <= m < k ==> v@[m] != x,
        decreases v@.len() - k,
    {
        if v[k] == x {
            assert(v@[k as int] == x);
            return true;
        }
        k = k + 1;
    }
    false
}

fn leaf_word_text(l: u8) -> (r: &'static str)
    ensures
        r@ == leaf_word(l),
{
    if l == 0 {
        "authorize"
    } else if l == 1 {
        "exchange"
    } else if l == 2 || l == 11 || l == 16 || l == 19 {
        "get"
    } else if l == 3 || l == 13 || l == 21 {
        "create"
    } else if l == 4 || l == 14 || l == 22 {
        "update"
    } else if l == 5 {
        "complete"
    } else if l == 6 || l == 15 || l == 18 {
        "delete"
    } else if l == 7 {
        "move"
    } else if l == 8 {
        "completed"
    } else if l == 9 {
        "filter"
    } else if l == 10 || l == 17 || l == 20 {
        "list"
    } else if l == 12 {
        "data"
    } else if l == 23 {
        "checkin"
    } else {
        "checkins"
    }
}

/// The options of `s` without repeats, each where it first stands.
fn first_each_vec(s: &Vec<u8>) -> (r: Vec<u8>)
    ensures
        r@ == first_each(s@),
{
    let mut r: Vec<u8> = Vec::new();
    let mut i: usize = 0;
    assert(s@.take(0) =~= Seq::<u8>::empty());
    while i < s.len()
        invariant
            i <= s@.len(),
            r@ == first_each(s@.take(i as int)),
        decreases s@.len() - i,
    {
        let x = s[i];
        let mut found = false;
        let mut k: usize = 0;
        while k < r.len()
            invariant
                k <= r@.len(),
                found == (exists|m: int| 0 <= m < k && r@[m] == x),
            decreases r@.len() - k,
        {
            if r[k] == x {
                found = true;
            }
            k = k + 1;
        }
        assert(s@.take(i + 1).drop_last() =~= s@.take(i as int));
        assert(s@.take(i + 1).last() == x);
        proof {
            if found {
                let m = choose|m: int| 0 <= m < r@.len() && r@[m] == x;
                assert(r@.contains(x));
            } else {
                assert(!r@.contains(x));
            }
        }
        if !found {
            r.push(x);
        }
        i = i + 1;
    }
    assert(s@.take(s@.len() as int) =~= s@);
    r
}

/// How options appear in a usage line, each after a space.
fn displays_text(os: &Vec<u8>) -> (r: String)
    ensures
        r@ == spaced_displays(os@),
{
    let mut r = String::new();
    let mut i: usize = 0;
    assert(os@.take(0) =~= Seq::<u8>::empty());
    while i < os.len()
        invariant
            i <= os@.len(),
            r@ == spaced_displays(os@.take(i as int)),
        decreases os@.len() - i,
    {
        r.append(" ");
        let d = arg_display_text(os[i]);
        r.append(d.as_str());
        assert(os@.take(i + 1).drop_last() =~= os@.take(i as int));
        proof {
            reveal_strlit(" ");
        }
        i = i + 1;
    }
    assert(os@.take(os@.len() as int) =~= os@);
    r
}

/// The usage line of the command at a level (see `usage_line`).
fn usage_of(group: Option<u8>, leaf: Option<u8>, used: &Vec<u8>) -> (r: String)
    ensures
        r@ == usage_line(group, leaf, used@),
{
    proof {
        reveal_strlit(" ");
    }
    let mut r = String::from_str("Usage: ticktick");
    if let Some(g) = group {
        r.append(" ");
        r.append(group_word_text(g));
    }
    if let Some(l) = leaf {
        r.append(" ");
        r.append(leaf_word_text(l));
    }
    let ghost words = r@;
    assert(words == "Usage: "@ + command_words(group, leaf)) by {
        reveal_strlit("Usage: ticktick");
        reveal_strlit("Usage: ");
        reveal_strlit("ticktick");
    }
    let req: Vec<u8> = match leaf {
        Some(l) => required(l),
        None => Vec::new(),
    };
    assert(req@ == level_required(leaf));
    if used.len() == 0 {
        r.append(" [OPTIONS]");
        let d = displays_text(&req);
        r.append(d.as_str());
    } else {
        let mut all = req.clone();
        let mut k: usize = 0;
        while k < used.len()
            invariant
                k <= used@.len(),
                all@ == req@ + used@.take(k as int),
            decreases used@.len() - k,
        {
            all.push(used[k]);
            assert(used@.take(k + 1) =~= used@.take(k as int).push(used@[k as int]));
            k = k + 1;
        }
        assert(used@.take(used@.len() as int) =~= used@);
        let once = first_each_vec(&all);
        let d = displays_text(&once);
        r.append(d.as_str());
    }
    if leaf.is_none() {
        r.append(" <COMMAND>");
    }
    r
}

/// The subcommands of a level, comma-separated (see `subcommand_list`).
fn subcommand_list_text(group: Option<u8>) -> (r: &'static str)
    ensures
        r@ == subcommand_list(group),
{
    match group {
        None => "oauth, task, project, focus, habit, help",
        Some(g) => if g == 0 {
            "authorize, exchange, help"
        } else if g == 1 {
            "get, create, update, complete, delete, move, completed, filter, help"
        } else if g == 2 {
            "list, get, data, create, update, delete, help"
        } else if g == 3 {
            "get, list, delete, help"
        } else {
            "get, list, create, update, checkin, checkins, help"
        },
    }
}

impl Scanner {
    fn new() -> (r: Scanner)
        ensures
            r@ == initial_scan(),
            scan_ok(r@),
    {
        let mut slots: Vec<Option<String>> = Vec::new();
        let mut i: usize = 0;
        while i < 19
            invariant
                i <= 19,
                slots@.len() == i,
                forall|j: int| 0 <= j < i ==> slots@[j] is None,
            decreases 19 - i,
        {
            slots.push(None);
            i = i + 1;
        }
        let r = Scanner { group: None, leaf: None, slots, escaped: false, given: Vec::new() };
        assert(r@.slots =~= initial_scan().slots);
        r
    }

    fn store(&mut self, o: u8, v: String, next: usize) -> (r: Result<usize, CliError>)
        requires
            scan_ok(old(self)@),
            (o as nat) < option_count(),
            is_global(o) || (old(self)@.leaf matches Some(l) && leaf_accepts(l, o)),
        ensures
            match store_value(old(self)@, o, v@, next as int) {
                Ok((st, j)) => r == Ok::<usize, CliError>(next) && final(self)@ == st && j == next,
                Err(e) => r matches Err(x) && x@ == e,
            },
            r is Ok ==> scan_ok(final(self)@),
    {
        if let Some(l) = self.leaf {
            if int_option(l, o) && crate::text::parse_i32(v.as_str()).is_none() {
                let problem = int_problem_text(v.as_str());
                return Err(CliError::InvalidValue { value: v, arg: arg_display_text(o), problem });
            }
        }
        let ghost before = self@;
        self.slots.set(o as usize, Some(v));
        self.given.push(o);
        assert(self@.slots =~= with_slot(before, o, v@).slots);
        proof {
            let st = self@;
            assert forall|p: u8|
                #![trigger st.slots[p as int]]
                (p as nat) < option_count() && st.slots[p as int] is Some implies number_slot_ok(
                    st,
                    p,
                ) by {
                if p != o {
                    assert(st.slots[p as int] == before.slots[p as int]);
                }
            }
            assert forall|p: u8|
                #![trigger st.slots[p as int]]
                (p as nat) < option_count() && st.slots[p as int] is Some implies (is_global(p) || (
                st.leaf matches Some(l) && leaf_accepts(l, p))) by {
                if p != o {
                    assert(st.slots[p as int] == before.slots[p as int]);
                }
            }
        }
        Ok(next)
    }

    fn long_step(&mut self, args: &Vec<String>, i: usize, body: &str) -> (r: Result<
        usize,
        CliError,
    >)
        requires
            i < args@.len(),
            scan_ok(old(self)@),
        ensures
            match long_step(texts_view(args@), i as int, old(self)@, body@) {
                Ok((st, j)) => r matches Ok(n) && n as int == j && final(self)@ == st,
                Err(e) => r matches Err(x) && x@ == e,
            },
            r is Ok ==> scan_ok(final(self)@),
    {
        let ghost av = texts_view(args@);
        let count = args.len();
        let (name, inline) = split_long_text(body);
        match option_of(name.as_str()) {
            None => Err(
                CliError::UnexpectedArgument {
                    arg: crate::text::concat("--", name.as_str()),
                    usage: usage_of(self.group, self.leaf, &self.given),
                },
            ),
            Some(o) => {
                let ok = o < 4 || match self.leaf {
                    Some(l) => accepts(l, o),
                    None => false,
                };
                if !ok {
                    return Err(
                        CliError::UnexpectedArgument {
                            arg: crate::text::concat("--", name.as_str()),
                            usage: usage_of(self.group, self.leaf, &self.given),
                        },
                    );
                }
                assert(self@.slots[o as int] == crate::address::opt_view(self.slots@[o as int]));
                if contains_u8(&self.given, o) {
                    return Err(
                        CliError::Duplicate {
                            arg: arg_display_text(o),
                            usage: usage_of(self.group, self.leaf, &Vec::new()),
                        },
                    );
                }
                if o == 12 {
                    match inline {
                        Some(v) => {
                            let mut used = self.given.clone();
                            used.push(o);
                            Err(
                                CliError::UnexpectedValue {
                                    value: v,
                                    arg: crate::text::concat("--", name.as_str()),
                                    usage: usage_of(self.group, self.leaf, &used),
                                },
                            )
                        },
                        None => {
                            let empty = String::new();
                            assert(empty@ =~= seq![]);
                            self.store(12, empty, i + 1)
                        },
                    }
                } else {
                    match inline {
                        Some(v) => self.store(o, v, i + 1),
                        None => {
                            if i + 1 < args.len() && can_be_value_text(args[i + 1].as_str()) {
                                assert(av[i + 1] == args@[i + 1]@);
                                self.store(o, args[i + 1].clone(), i + 2)
                            } else {
                                proof {
                                    if i + 1 < args@.len() {
                                        assert(av[i + 1] == args@[i + 1]@);
                                    }
                                }
                                Err(self.pending_failure(args, i + 1, o))
                            }
                        },
                    }
                }
            },
        }
    }

    fn stray_failure(&self, t: &str) -> (r: CliError)
        ensures
            r@ == stray_failure(self@, t@),
    {
        let names = same_text(t, "help") || match self.group {
            None => group_of(t).is_some(),
            Some(g) => leaf_of(g, t).is_some(),
        };
        if self.leaf.is_none() && names {
            CliError::EscapedSubcommand {
                word: String::from_str(t),
                usage: usage_of(self.group, self.leaf, &Vec::new()),
            }
        } else if self.leaf.is_none() {
            CliError::InvalidSubcommand {
                word: String::from_str(t),
                usage: usage_of(self.group, self.leaf, &Vec::new()),
            }
        } else {
            CliError::UnexpectedArgument {
                arg: String::from_str(t),
                usage: usage_of(self.group, self.leaf, &Vec::new()),
            }
        }
    }

    fn pending_failure(&self, args: &Vec<String>, j: usize, o: u8) -> (r: CliError)
        requires
            scan_ok(self@),
            j < args@.len() ==> !can_be_value(texts_view(args@)[j as int]),
        ensures
            r@ == pending_failure(texts_view(args@), j as int, self@, o),
    {
        let ghost av = texts_view(args@);
        if j >= args.len() {
            return CliError::MissingValue(arg_display_text(o));
        }
        let t = args[j].as_str();
        assert(av[j as int] == t@);
        if same_text(t, "--") {
            if j + 1 < args.len() {
                assert(av[j + 1] == args@[j + 1]@);
                return self.stray_failure(args[j + 1].as_str());
            }
            return CliError::MissingValue(arg_display_text(o));
        }
        let n = t.unicode_len();
        if n > 2 && t.get_char(0) == '-' && t.get_char(1) == '-' {
            let body = t.substring_char(2, n);
            assert(body@ =~= t@.skip(2));
            let (name, inline) = split_long_text(body);
            let found = option_of(name.as_str());
            let known = match found {
                Some(p) => p < 4 || match self.leaf {
                    Some(l) => accepts(l, p),
                    None => false,
                },
                None => false,
            } || same_text(name.as_str(), "help") || (same_text(name.as_str(), "version")
                && self.group.is_none());
            if !known {
                return CliError::UnexpectedArgument {
                    arg: crate::text::concat("--", name.as_str()),
                    usage: usage_of(self.group, self.leaf, &self.given),
                };
            }
            if found == Some(12u8) && inline.is_some() {
                let mut used = self.given.clone();
                used.push(12);
                return CliError::UnexpectedValue {
                    value: inline.unwrap(),
                    arg: crate::text::concat("--", name.as_str()),
                    usage: usage_of(self.group, self.leaf, &used),
                };
            }
            return CliError::MissingValue(arg_display_text(o));
        }
        if n > 1 {
            let c = t.get_char(1);
            if c == 'h' || (c == 'V' && self.group.is_none()) {
                return CliError::MissingValue(arg_display_text(o));
            }
            let flag = t.substring_char(0, 2);
            assert(flag@ =~= seq!['-', c]);
            return CliError::UnexpectedArgument {
                arg: String::from_str(flag),
                usage: usage_of(self.group, self.leaf, &Vec::new()),
            };
        }
        CliError::MissingValue(arg_display_text(o))
    }

    fn word_step(&mut self, t: &str, i: usize) -> (r: Result<usize, CliError>)
        requires
            scan_ok(old(self)@),
            i < usize::MAX,
        ensures
            match word_step(old(self)@, t@, i as int) {
                Ok((st, j)) => r matches Ok(n) && n as int == j && final(self)@ == st,
                Err(e) => r matches Err(x) && x@ == e,
            },
            r is Ok ==> scan_ok(final(self)@),
    {
        match self.group {
            None => match group_of(t) {
                Some(g) => {
                    self.group = Some(g);
                    self.given = Vec::new();
                    Ok(i + 1)
                },
                None => Err(
                    CliError::InvalidSubcommand {
                        word: String::from_str(t),
                        usage: usage_of(None, None, &Vec::new()),
                    },
                ),
            },
            Some(g) => match self.leaf {
                None => match leaf_of(g, t) {
                    Some(l) => {
                        proof {
                            let st = self@;
                            assert forall|p: u8|
                                #![trigger st.slots[p as int]]
                                (p as nat) < option_count() && st.slots[p as int]
                                    is Some implies is_global(p) by {}
                        }
                        self.leaf = Some(l);
                        self.given = Vec::new();
                        Ok(i + 1)
                    },
                    None => Err(
                        CliError::InvalidSubcommand {
                            word: String::from_str(t),
                            usage: usage_of(Some(g), None, &Vec::new()),
                        },
                    ),
                },
                Some(_) => Err(
                    CliError::UnexpectedArgument {
                        arg: String::from_str(t),
                        usage: usage_of(self.group, self.leaf, &Vec::new()),
                    },
                ),
            },
        }
    }

    fn step(&mut self, args: &Vec<String>, i: usize) -> (r: Result<usize, CliError>)
        requires
            i < args@.len(),
            scan_ok(old(self)@),
        ensures
            match step(texts_view(args@), i as int, old(self)@) {
                Ok((st, j)) => r matches Ok(n) && n as int == j && final(self)@ == st,
                Err(e) => r matches Err(x) && x@ == e,
            },
            r matches Ok(n) ==> i < n <= args@.len(),
            r is Ok ==> scan_ok(final(self)@),
    {
        let ghost av = texts_view(args@);
        let count = args.len();
        let t = args[i].as_str();
        assert(av[i as int] == t@);
        if self.escaped {
            return Err(self.stray_failure(t));
        }
        if same_text(t, "--") {
            self.escaped = true;
            return Ok(i + 1);
        }
        if same_text(t, "--help") || same_text(t, "-h") {
            return Err(CliError::DisplayHelp);
        }
        if same_text(t, "--version") || same_text(t, "-V") {
            if self.group.is_none() {
                return Err(CliError::DisplayVersion);
            } else if same_text(t, "--version") {
                return Err(
                    CliError::UnexpectedArgument {
                        arg: String::from_str(t),
                        usage: usage_of(self.group, self.leaf, &self.given),
                    },
                );
            } else {
                return Err(
                    CliError::UnexpectedArgument {
                        arg: String::from_str(t),
                        usage: usage_of(self.group, self.leaf, &Vec::new()),
                    },
                );
            }
        }
        let n = t.unicode_len();
        if n > 2 && t.get_char(0) == '-' && t.get_char(1) == '-' {
            let body = t.substring_char(2, n);
            assert(body@ =~= t@.skip(2));
            return self.long_step(args, i, body);
        }
        if n > 1 && t.get_char(0) == '-' {
            let c = t.get_char(1);
            if c == 'h' {
                return Err(CliError::DisplayHelp);
            }
            if c == 'V' && self.group.is_none() {
                return Err(CliError::DisplayVersion);
            }
            let flag = t.substring_char(0, 2);
            assert(flag@ =~= seq!['-', c]);
            return Err(
                CliError::UnexpectedArgument {
                    arg: String::from_str(flag),
                    usage: usage_of(self.group, self.leaf, &Vec::new()),
                },
            );
        }
        if same_text(t, "help") && (self.group.is_none() || self.leaf.is_none()) {
            return Err(help_failure_of(args, i + 1, self.group));
        }
        self.word_step(t, i)
    }
}

} // verus!

verus! {

proof fn lemma_missing_of_step(req: Seq<u8>, slots: Seq<Option<Seq<char>>>, k: int)
    requires
        0 <= k < req.len(),
    ensures
        missing_of(req.take(k + 1), slots) == (if slots[req[k] as int] is None {
            missing_of(req.take(k), slots).push(req[k])
        } else {
            missing_of(req.take(k), slots)
        }),
{
    assert(req.take(k + 1).drop_last() =~= req.take(k));
}

impl Scanner {
    /// The check after reading: a command was named and has its required options.
    fn finish(&self, env: (bool, bool, bool)) -> (r: Result<u8, CliError>)
        requires
            scan_ok(self@),
        ensures
            match finish(self@, env) {
                Ok(l) => r == Ok::<u8, CliError>(l),
                Err(e) => r matches Err(x) && x@ == e,
            },
    {
        let env_given = env.0 || env.1 || env.2;
        match self.group {
            None => if self.given.len() == 0 && !env_given {
                Err(CliError::DisplayHelpOnMissing)
            } else {
                Err(
                    CliError::MissingSubcommand {
                        path: String::from_str("ticktick"),
                        subcommands: String::from_str(subcommand_list_text(None)),
                        usage: usage_of(None, None, &Vec::new()),
                    },
                )
            },
            Some(g) => match self.leaf {
                None => if self.given.len() == 0 && !env_given {
                    Err(CliError::DisplayHelpOnMissing)
                } else {
                    Err(
                        CliError::MissingSubcommand {
                            path: crate::text::concat("ticktick ", group_word_text(g)),
                            subcommands: String::from_str(subcommand_list_text(Some(g))),
                            usage: usage_of(Some(g), None, &Vec::new()),
                        },
                    )
                },
                Some(l) => {
                    let req = required(l);
                    let mut missing: Vec<u8> = Vec::new();
                    let mut k: usize = 0;
                    assert(req@.take(0) =~= Seq::<u8>::empty());
                    while k < req.len()
                        invariant
                            k <= req@.len(),
                            req@ == leaf_required(l),
                            self@.slots.len() == option_count(),
                            missing@ == missing_of(req@.take(k as int), self@.slots),
                        decreases req@.len() - k,
                    {
                        let o = req[k];
                        proof {
                            lemma_missing_of_step(req@, self@.slots, k as int);
                        }
                        assert(o < 19);
                        assert(self@.slots[o as int] == crate::address::opt_view(
                            self.slots@[o as int],
                        ));
                        if self.slots[o as usize].is_none() {
                            missing.push(o);
                        }
                        k = k + 1;
                    }
                    assert(req@.take(req@.len() as int) =~= req@);
                    if missing.len() > 0 {
                        let mut names: Vec<String> = Vec::new();
                        let mut j: usize = 0;
                        while j < missing.len()
                            invariant
                                j <= missing@.len(),
                                texts_view(names@) =~= missing@.take(j as int).map_values(
                                    |o: u8| arg_display(o),
                                ),
                            decreases missing@.len() - j,
                        {
                            let ghost old_names = names@;
                            let d = arg_display_text(missing[j]);
                            names.push(d);
                            proof {
                                let f = |o: u8| arg_display(o);
                                assert(texts_view(names@) =~= texts_view(old_names).push(
                                    arg_display(missing@[j as int]),
                                ));
                                assert(missing@.take(j + 1).map_values(f) =~= missing@.take(
                                    j as int,
                                ).map_values(f).push(arg_display(missing@[j as int])));
                            }
                            j = j + 1;
                        }
                        assert(missing@.take(missing@.len() as int) =~= missing@);
                        let mut used = self.given.clone();
                        if env.0 {
                            used.push(0);
                        }
                        if env.1 {
                            used.push(1);
                        }
                        if env.2 {
                            used.push(2);
                        }
                        assert(used@ =~= self@.given + env_options(env) + missing@.take(0));
                        let mut m: usize = 0;
                        while m < missing.len()
                            invariant
                                m <= missing@.len(),
                                used@ == self@.given + env_options(env) + missing@.take(m as int),
                            decreases missing@.len() - m,
                        {
                            used.push(missing[m]);
                            assert(missing@.take(m + 1) =~= missing@.take(m as int).push(missing@[m as int]));
                            m = m + 1;
                        }
                        assert(missing@.take(missing@.len() as int) =~= missing@);
                        Err(CliError::MissingRequired { args: names, usage: usage_of(Some(g), Some(l), &used) })
                    } else {
                        Ok(l)
                    }
                },
            },
        }
    }
}

} // verus!

verus! {

/// The scope the OAuth commands use when `--scope` is not given.
pub const DEFAULT_SCOPE: &'static str = "tasks:read tasks:write";

/// An optional field given by an option, or else taken from `fallback`.
pub open spec fn fits_optional(field: Option<String>, slot: Option<Seq<char>>, fallback: Option<String>) -> bool {
    match slot {
        Some(v) => field matches Some(f) && f@ == v,
        None => field == fallback,
    }
}

/// A text field given by an option, or else `default`.
pub open spec fn fits_default(field: String, slot: Option<Seq<char>>, default: Seq<char>) -> bool {
    field@ == match slot {
        Some(v) => v,
        None => default,
    }
}

/// A text field given by a required option.
pub open spec fn fits_required(field: String, slot: Option<Seq<char>>) -> bool {
    slot matches Some(v) && field@ == v
}

/// A number field given by a required option.
pub open spec fn fits_number(field: i32, slot: Option<Seq<char>>) -> bool {
    slot matches Some(v) && i32_value(v) == Some(field)
}

/// The JSON input given by the three JSON options.
pub open spec fn fits_json(input: JsonInput, s: Seq<Option<Seq<char>>>) -> bool {
    &&& opt_view(input.json) == s[10]
    &&& opt_view(input.json_file) == s[11]
    &&& input.json_stdin == (s[12] is Some)
}

/// The command `l` with its fields taken from the option values `s`.
pub open spec fn command_fits(cmd: Command, l: u8, s: Seq<Option<Seq<char>>>) -> bool {
    match cmd {
        Command::OAuth { command } => match command {
            OAuthCommand::Authorize { scope, state, redirect_uri } => l == 0 && fits_default(
                scope,
                s[4],
                DEFAULT_SCOPE@,
            ) && fits_required(state, s[5]) && fits_required(redirect_uri, s[6]),
            OAuthCommand::Exchange { code, scope, redirect_uri } => l == 1 && fits_required(
                code,
                s[7],
            ) && fits_default(scope, s[4], DEFAULT_SCOPE@) && fits_required(redirect_uri, s[6]),
        },
        Command::Task { command } => match command {
            TaskCommand::Get { project_id, task_id } => l == 2 && fits_required(project_id, s[8])
                && fits_required(task_id, s[9]),
            TaskCommand::Create { input } => l == 3 && fits_json(input, s),
            TaskCommand::Update { task_id, input } => l == 4 && fits_required(task_id, s[9])
                && fits_json(input, s),
            TaskCommand::Complete { project_id, task_id } => l == 5 && fits_required(
                project_id,
                s[8],
            ) && fits_required(task_id, s[9]),
            TaskCommand::Delete { project_id, task_id } => l == 6 && fits_required(
                project_id,
                s[8],
            ) && fits_required(task_id, s[9]),
            TaskCommand::Move { input } => l == 7 && fits_json(input, s),
            TaskCommand::Completed { input } => l == 8 && fits_json(input, s),
            TaskCommand::Filter { input } => l == 9 && fits_json(input, s),
        },
        Command::Project { command } => match command {
            ProjectCommand::List => l == 10,
            ProjectCommand::Get { project_id } => l == 11 && fits_required(project_id, s[8]),
            ProjectCommand::Data { project_id } => l == 12 && fits_required(project_id, s[8]),
            ProjectCommand::Create { input } => l == 13 && fits_json(input, s),
            ProjectCommand::Update { project_id, input } => l == 14 && fits_required(
                project_id,
                s[8],
            ) && fits_json(input, s),
            ProjectCommand::Delete { project_id } => l == 15 && fits_required(project_id, s[8]),
        },
        Command::Focus { command } => match command {
            FocusCommand::Get { focus_id, focus_type } => l == 16 && fits_required(focus_id, s[13])
                && fits_number(focus_type, s[14]),
            FocusCommand::List { from, to, focus_type } => l == 17 && fits_required(from, s[15])
                && fits_required(to, s[16]) && fits_number(focus_type, s[14]),
            FocusCommand::Delete { focus_id, focus_type } => l == 18 && fits_required(
                focus_id,
                s[13],
            ) && fits_number(focus_type, s[14]),
        },
        Command::Habit { command } => match command {
            HabitCommand::Get { habit_id } => l == 19 && fits_required(habit_id, s[17]),
            HabitCommand::List => l == 20,
            HabitCommand::Create { input } => l == 21 && fits_json(input, s),
            HabitCommand::Update { habit_id, input } => l == 22 && fits_required(habit_id, s[17])
                && fits_json(input, s),
            HabitCommand::Checkin { habit_id, input } => l == 23 && fits_required(habit_id, s[17])
                && fits_json(input, s),
            HabitCommand::Checkins { habit_ids, from, to } => l == 24 && fits_required(
                habit_ids,
                s[18],
            ) && fits_number(from, s[15]) && fits_number(to, s[16]),
        },
    }
}

/// The command line a reading `st` describes, where the global options that were
/// not given take the environment's values, and the base URL its default.
pub open spec fn cli_fits(
    cli: Cli,
    st: ScanView,
    env_token: Option<String>,
    env_client_id: Option<String>,
    env_client_secret: Option<String>,
) -> bool {
    &&& fits_optional(cli.token, st.slots[0], env_token)
    &&& fits_optional(cli.client_id, st.slots[1], env_client_id)
    &&& fits_optional(cli.client_secret, st.slots[2], env_client_secret)
    &&& fits_default(cli.base_url, st.slots[3], API_BASE_URL@)
    &&& st.leaf matches Some(l) && command_fits(cli.command, l, st.slots)
}

impl Scanner {
    fn text_or(&self, o: usize, fallback: Option<String>) -> (r: Option<String>)
        requires
            o < self@.slots.len(),
            self@.slots.len() == option_count(),
        ensures
            fits_optional(r, self@.slots[o as int], fallback),
    {
        assert(self@.slots[o as int] == opt_view(self.slots@[o as int]));
        match &self.slots[o] {
            Some(v) => Some(v.clone()),
            None => fallback,
        }
    }

    fn text_default(&self, o: usize, default: &str) -> (r: String)
        requires
            o < self@.slots.len(),
            self@.slots.len() == option_count(),
        ensures
            fits_default(r, self@.slots[o as int], default@),
    {
        assert(self@.slots[o as int] == opt_view(self.slots@[o as int]));
        match &self.slots[o] {
            Some(v) => v.clone(),
            None => String::from_str(default),
        }
    }

    fn required_text(&self, o: usize) -> (r: String)
        requires
            o < self@.slots.len(),
            self@.slots.len() == option_count(),
            self@.slots[o as int] is Some,
        ensures
            fits_required(r, self@.slots[o as int]),
    {
        assert(self@.slots[o as int] == opt_view(self.slots@[o as int]));
        match &self.slots[o] {
            Some(v) => v.clone(),
            None => String::new(),
        }
    }

    fn required_number(&self, o: usize) -> (r: i32)
        requires
            o < self@.slots.len(),
            self@.slots.len() == option_count(),
            self@.slots[o as int] matches Some(v) && i32_value(v) is Some,
        ensures
            fits_number(r, self@.slots[o as int]),
    {
        assert(self@.slots[o as int] == opt_view(self.slots@[o as int]));
        match &self.slots[o] {
            Some(v) => match parse_i32(v.as_str()) {
                Some(x) => x,
                None => 0,
            },
            None => 0,
        }
    }

    fn json_input(&self) -> (r: JsonInput)
        requires
            self@.slots.len() == option_count(),
        ensures
            fits_json(r, self@.slots),
    {
        let json = self.text_or(10, None);
        let json_file = self.text_or(11, None);
        assert(self@.slots[12] == opt_view(self.slots@[12]));
        JsonInput { json, json_file, json_stdin: self.slots[12].is_some() }
    }

    /// The command `l` with its fields taken from the option values.
    fn command(&self, l: u8) -> (r: Command)
        requires
            scan_ok(self@),
            self@.leaf == Some(l),
            finish(self@, (false, false, false)) == Ok::<u8, CliFailure>(l),
        ensures
            command_fits(r, l, self@.slots),
    {
        let ghost st = self@;
        proof {
            let req = leaf_required(l);
            assert forall|k: int| 0 <= k < req.len() implies st.slots[req[k] as int] is Some by {
                lemma_missing_of_complete(req, st.slots, k);
            }
            assert forall|o: u8| #[trigger] leaf_int_option(l, o) implies (st.slots[o as int]
                is Some ==> i32_value(st.slots[o as int]->0) is Some) by {
                if st.slots[o as int] is Some {
                    assert(number_slot_ok(st, o));
                }
            }
        }
        if l == 0 {
            proof {
                assert(leaf_required(l)[0] == 5);
                assert(leaf_required(l)[1] == 6);
            }
            Command::OAuth {
                command: OAuthCommand::Authorize {
                    scope: self.text_default(4, DEFAULT_SCOPE),
                    state: self.required_text(5),
                    redirect_uri: self.required_text(6),
                },
            }
        } else if l == 1 {
            proof {
                assert(leaf_required(l)[0] == 7);
                assert(leaf_required(l)[1] == 6);
            }
            Command::OAuth {
                command: OAuthCommand::Exchange {
                    code: self.required_text(7),
                    scope: self.text_default(4, DEFAULT_SCOPE),
                    redirect_uri: self.required_text(6),
                },
            }
        } else if l <= 9 {
            Command::Task { command: self.task_command(l) }
        } else if l <= 15 {
            Command::Project { command: self.project_command(l) }
        } else if l <= 18 {
            Command::Focus { command: self.focus_command(l) }
        } else {
            Command::Habit { command: self.habit_command(l) }
        }
    }

    fn task_command(&self, l: u8) -> (r: TaskCommand)
        requires
            2 <= l <= 9,
            self@.slots.len() == option_count(),
            forall|k: int|
                0 <= k < leaf_required(l).len() ==> self@.slots[leaf_required(l)[k] as int] is Some,
        ensures
            command_fits(Command::Task { command: r }, l, self@.slots),
    {
        proof {
            if l == 2 || l == 5 || l == 6 {
                assert(leaf_required(l)[0] == 8);
                assert(leaf_required(l)[1] == 9);
            }
            if l == 4 {
                assert(leaf_required(l)[0] == 9);
            }
        }
        if l == 2 {
            TaskCommand::Get { project_id: self.required_text(8), task_id: self.required_text(9) }
        } else if l == 3 {
            TaskCommand::Create { input: self.json_input() }
        } else if l == 4 {
            TaskCommand::Update { task_id: self.required_text(9), input: self.json_input() }
        } else if l == 5 {
            TaskCommand::Complete {
                project_id: self.required_text(8),
                task_id: self.required_text(9),
            }
        } else if l == 6 {
            TaskCommand::Delete {
                project_id: self.required_text(8),
                task_id: self.required_text(9),
            }
        } else if l == 7 {
            TaskCommand::Move { input: self.json_input() }
        } else if l == 8 {
            TaskCommand::Completed { input: self.json_input() }
        } else {
            TaskCommand::Filter { input: self.json_input() }
        }
    }

    fn project_command(&self, l: u8) -> (r: ProjectCommand)
        requires
            10 <= l <= 15,
            self@.slots.len() == option_count(),
            forall|k: int|
                0 <= k < leaf_required(l).len() ==> self@.slots[leaf_required(l)[k] as int] is Some,
        ensures
            command_fits(Command::Project { command: r }, l, self@.slots),
    {
        proof {
            if l == 11 || l == 12 || l == 14 || l == 15 {
                assert(leaf_required(l)[0] == 8);
            }
        }
        if l == 10 {
            ProjectCommand::List
        } else if l == 11 {
            ProjectCommand::Get { project_id: self.required_text(8) }
        } else if l == 12 {
            ProjectCommand::Data { project_id: self.required_text(8) }
        } else if l == 13 {
            ProjectCommand::Create { input: self.json_input() }
        } else if l == 14 {
            ProjectCommand::Update { project_id: self.required_text(8), input: self.json_input() }
        } else {
            ProjectCommand::Delete { project_id: self.required_text(8) }
        }
    }

    fn focus_command(&self, l: u8) -> (r: FocusCommand)
        requires
            16 <= l <= 18,
            self@.slots.len() == option_count(),
            forall|k: int|
                0 <= k < leaf_required(l).len() ==> self@.slots[leaf_required(l)[k] as int] is Some,
            self@.slots[14] is Some ==> i32_value(self@.slots[14]->0) is Some,
        ensures
            command_fits(Command::Focus { command: r }, l, self@.slots),
    {
        proof {
            if l == 16 || l == 18 {
                assert(leaf_required(l)[0] == 13);
                assert(leaf_required(l)[1] == 14);
            } else {
                assert(leaf_required(l)[0] == 15);
                assert(leaf_required(l)[1] == 16);
                assert(leaf_required(l)[2] == 14);
            }
        }
        if l == 16 {
            FocusCommand::Get {
                focus_id: self.required_text(13),
                focus_type: self.required_number(14),
            }
        } else if l == 17 {
            FocusCommand::List {
                from: self.required_text(15),
                to: self.required_text(16),
                focus_type: self.required_number(14),
            }
        } else {
            FocusCommand::Delete {
                focus_id: self.required_text(13),
                focus_type: self.required_number(14),
            }
        }
    }

    fn habit_command(&self, l: u8) -> (r: HabitCommand)
        requires
            19 <= l <= 24,
            self@.slots.len() == option_count(),
            forall|k: int|
                0 <= k < leaf_required(l).len() ==> self@.slots[leaf_required(l)[k] as int] is Some,
            l == 24 ==> (self@.slots[15] is Some ==> i32_value(self@.slots[15]->0) is Some),
            l == 24 ==> (self@.slots[16] is Some ==> i32_value(self@.slots[16]->0) is Some),
        ensures
            command_fits(Command::Habit { command: r }, l, self@.slots),
    {
        proof {
            if l == 19 || l == 22 || l == 23 {
                assert(leaf_required(l)[0] == 17);
            }
            if l == 24 {
                assert(leaf_required(l)[0] == 18);
                assert(leaf_required(l)[1] == 15);
                assert(leaf_required(l)[2] == 16);
            }
        }
        if l == 19 {
            HabitCommand::Get { habit_id: self.required_text(17) }
        } else if l == 20 {
            HabitCommand::List
        } else if l == 21 {
            HabitCommand::Create { input: self.json_input() }
        } else if l == 22 {
            HabitCommand::Update { habit_id: self.required_text(17), input: self.json_input() }
        } else if l == 23 {
            HabitCommand::Checkin { habit_id: self.required_text(17), input: self.json_input() }
        } else {
            HabitCommand::Checkins {
                habit_ids: self.required_text(18),
                from: self.required_number(15),
                to: self.required_number(16),
            }
        }
    }
}

/// With no required option missing, every required option has a value.
proof fn lemma_missing_of_complete(req: Seq<u8>, slots: Seq<Option<Seq<char>>>, k: int)
    requires
        0 <= k < req.len(),
        missing_of(req, slots).len() == 0,
    ensures
        slots[req[k] as int] is Some,
    decreases req.len(),
{
    if k < req.len() - 1 {
        lemma_missing_of_len(req.drop_last(), slots);
        assert(req.drop_last()[k] == req[k]);
        lemma_missing_of_complete(req.drop_last(), slots, k);
    }
}

proof fn lemma_missing_of_len(req: Seq<u8>, slots: Seq<Option<Seq<char>>>)
    ensures
        missing_of(req, slots).len() <= req.len(),
        req.len() > 0 ==> missing_of(req.drop_last(), slots).len() <= missing_of(req, slots).len(),
    decreases req.len(),
{
    if req.len() > 0 {
        lemma_missing_of_len(req.drop_last(), slots);
    }
}

} // verus!

verus! {

impl Cli {
    /// Reads a command line (the first argument is the program's name). Global
    /// options that are not given take the values passed for the environment
    /// variables `TICKTICK_ACCESS_TOKEN`, `TICKTICK_CLIENT_ID` and
    /// `TICKTICK_CLIENT_SECRET`.
    pub fn try_parse_with_env(
        args: &Vec<String>,
        env_token: Option<String>,
        env_client_id: Option<String>,
        env_client_secret: Option<String>,
    ) -> (r: Result<Cli, CliError>)
        ensures
            match parse_outcome(
                texts_view(args@),
                (env_token is Some, env_client_id is Some, env_client_secret is Some),
            ) {
                Err(f) => r matches Err(e) && e@ == f,
                Ok(st) => r matches Ok(cli) && cli_fits(
                    cli,
                    st,
                    env_token,
                    env_client_id,
                    env_client_secret,
                ),
            },
    {
        let ghost av = texts_view(args@);
        let mut sc = Scanner::new();
        let n = args.len();
        let mut i: usize = 1;
        while i < n
            invariant
                1 <= i,
                n == args@.len(),
                av == texts_view(args@),
                av.len() == n,
                scan_ok(sc@),
                scan(av, i as int, sc@) == scan(av, 1, initial_scan()),
            decreases n - i,
        {
            match sc.step(args, i) {
                Err(e) => {
                    return Err(e);
                },
                Ok(j) => {
                    i = j;
                },
            }
        }
        assert(scan(av, i as int, sc@) == Ok::<ScanView, CliFailure>(sc@));
        let env = (env_token.is_some(), env_client_id.is_some(), env_client_secret.is_some());
        let l = match sc.finish(env) {
            Ok(l) => l,
            Err(e) => {
                return Err(e);
            },
        };
        Ok(
            Cli {
                token: sc.text_or(0, env_token),
                client_id: sc.text_or(1, env_client_id),
                client_secret: sc.text_or(2, env_client_secret),
                base_url: sc.text_default(3, API_BASE_URL),
                command: sc.command(l),
            },
        )
    }

    /// Reads a command line (the first argument is the program's name), with no
    /// environment values for the global options.
    pub fn try_parse_from(args: &Vec<String>) -> (r: Result<Cli, CliError>)
        ensures
            match parse_outcome(texts_view(args@), (false, false, false)) {
                Err(f) => r matches Err(e) && e@ == f,
                Ok(st) => r matches Ok(cli) && cli_fits(cli, st, None, None, None),
            },
    {
        Self::try_parse_with_env(args, None, None, None)
    }
}

} // verus!

verus! {

/// Each text on a line of its own, indented by two spaces.
pub open spec fn indented_lines(items: Seq<Seq<char>>) -> Seq<char>
    decreases items.len(),
{
    if items.len() == 0 {
        seq![]
    } else {
        indented_lines(items.drop_last()) + "  "@ + items.last() + "\n"@
    }
}

/// The short help printed when help is asked for.
pub open spec fn usage_text() -> Seq<char> {
    "TickTick Open API CLI\n\nUsage: ticktick [OPTIONS] <COMMAND>\n\nCommands:\n  oauth\n  task\n  project\n  focus\n  habit\n"@
}

/// The last lines of an error message.
pub open spec fn help_hint() -> Seq<char> {
    "\n\nFor more information, try '--help'.\n"@
}

/// The message for a refused command line.
pub open spec fn failure_message(f: CliFailure) -> Seq<char> {
    match f {
        CliFailure::MissingSubcommand(path, subs, usage) => "error: '"@ + path
            + "' requires a subcommand but one was not provided\n  [subcommands: "@ + subs + "]\n\n"@
            + usage + help_hint(),
        CliFailure::InvalidSubcommand(w, usage) => "error: unrecognized subcommand '"@ + w + "'\n\n"@
            + usage + help_hint(),
        CliFailure::UnexpectedArgument(t, usage) => "error: unexpected argument '"@ + t
            + "' found\n\n"@ + usage + help_hint(),
        CliFailure::InvalidHelpSubcommand(w, usage) => "error: unrecognized subcommand '"@ + w
            + "'\n\n"@ + usage + "\n"@,
        CliFailure::EscapedSubcommand(t, usage) => "error: unexpected argument '"@ + t
            + "' found\n\n  tip: subcommand '"@ + t + "' exists; to use it, remove the '--' before it\n\n"@
            + usage + help_hint(),
        CliFailure::MissingValue(a) => "error: a value is required for '"@ + a
            + "' but none was supplied"@ + help_hint(),
        CliFailure::UnexpectedValue(v, a, usage) => "error: unexpected value '"@ + v + "' for '"@ + a
            + "' found; no more were expected\n\n"@ + usage + help_hint(),
        CliFailure::Duplicate(a, usage) => "error: the argument '"@ + a
            + "' cannot be used multiple times\n\n"@ + usage + help_hint(),
        CliFailure::InvalidValue(v, a, problem) => "error: invalid value '"@ + v + "' for '"@ + a
            + "': "@ + problem + help_hint(),
        CliFailure::MissingRequired(items, usage) => "error: the following required arguments were not provided:\n"@
            + indented_lines(items) + "\n"@ + usage + help_hint(),
        CliFailure::Help => usage_text(),
        CliFailure::HelpOnMissing => usage_text(),
        CliFailure::Version => "ticktick 0.1.0\n"@,
    }
}

/// The texts of `parts`, one after another.
pub open spec fn joined_texts(parts: Seq<&str>) -> Seq<char>
    decreases parts.len(),
{
    if parts.len() == 0 {
        seq![]
    } else {
        joined_texts(parts.drop_last()) + parts.last()@
    }
}

fn joined(parts: &Vec<&str>) -> (r: String)
    ensures
        r@ == joined_texts(parts@),
{
    let mut r = String::new();
    let mut i: usize = 0;
    assert(parts@.take(0) =~= Seq::<&str>::empty());
    while i < parts.len()
        invariant
            i <= parts@.len(),
            r@ == joined_texts(parts@.take(i as int)),
        decreases parts@.len() - i,
    {
        r.append(parts[i]);
        assert(parts@.take(i + 1).drop_last() =~= parts@.take(i as int));
        i = i + 1;
    }
    assert(parts@.take(parts@.len() as int) =~= parts@);
    r
}

/// The indented lines of `items`.
fn indented_text(items: &Vec<String>) -> (r: String)
    ensures
        r@ == indented_lines(texts_view(items@)),
{
    let mut r = String::new();
    let mut j: usize = 0;
    assert(texts_view(items@).take(0) =~= Seq::<Seq<char>>::empty());
    while j < items.len()
        invariant
            j <= items@.len(),
            r@ == indented_lines(texts_view(items@).take(j as int)),
        decreases items@.len() - j,
    {
        r.append("  ");
        r.append(items[j].as_str());
        r.append("\n");
        assert(texts_view(items@).take(j + 1).drop_last() =~= texts_view(items@).take(j as int));
        j = j + 1;
    }
    assert(texts_view(items@).take(items@.len() as int) =~= texts_view(items@));
    r
}

impl CliError {
    /// The message for this error.
    pub fn to_string(&self) -> (r: String)
        ensures
            r@ == failure_message(self@),
    {
        let hint = "\n\nFor more information, try '--help'.\n";
        proof {
            reveal_with_fuel(joined_texts, 10);
        }
        match self {
            CliError::MissingSubcommand { path, subcommands, usage } => joined(
                &vec![
                    "error: '",
                    path.as_str(),
                    "' requires a subcommand but one was not provided\n  [subcommands: ",
                    subcommands.as_str(),
                    "]\n\n",
                    usage.as_str(),
                    hint,
                ],
            ),
            CliError::InvalidSubcommand { word, usage } => joined(
                &vec!["error: unrecognized subcommand '", word.as_str(), "'\n\n", usage.as_str(), hint],
            ),
            CliError::InvalidHelpSubcommand { word, usage } => joined(
                &vec!["error: unrecognized subcommand '", word.as_str(), "'\n\n", usage.as_str(), "\n"],
            ),
            CliError::EscapedSubcommand { word, usage } => joined(
                &vec![
                    "error: unexpected argument '",
                    word.as_str(),
                    "' found\n\n  tip: subcommand '",
                    word.as_str(),
                    "' exists; to use it, remove the '--' before it\n\n",
                    usage.as_str(),
                    hint,
                ],
            ),
            CliError::UnexpectedArgument { arg, usage } => joined(
                &vec!["error: unexpected argument '", arg.as_str(), "' found\n\n", usage.as_str(), hint],
            ),
            CliError::MissingValue(a) => joined(
                &vec!["error: a value is required for '", a.as_str(), "' but none was supplied", hint],
            ),
            CliError::UnexpectedValue { value, arg, usage } => joined(
                &vec![
                    "error: unexpected value '",
                    value.as_str(),
                    "' for '",
                    arg.as_str(),
                    "' found; no more were expected\n\n",
                    usage.as_str(),
                    hint,
                ],
            ),
            CliError::Duplicate { arg, usage } => joined(
                &vec![
                    "error: the argument '",
                    arg.as_str(),
                    "' cannot be used multiple times\n\n",
                    usage.as_str(),
                    hint,
                ],
            ),
            CliError::InvalidValue { value, arg, problem } => joined(
                &vec![
                    "error: invalid value '",
                    value.as_str(),
                    "' for '",
                    arg.as_str(),
                    "': ",
                    problem.as_str(),
                    hint,
                ],
            ),
            CliError::MissingRequired { args, usage } => {
                let lines = indented_text(args);
                joined(
                    &vec![
                        "error: the following required arguments were not provided:\n",
                        lines.as_str(),
                        "\n",
                        usage.as_str(),
                        hint,
                    ],
                )
            },
            CliError::DisplayHelp | CliError::DisplayHelpOnMissing => String::from_str(
                "TickTick Open API CLI\n\nUsage: ticktick [OPTIONS] <COMMAND>\n\nCommands:\n  oauth\n  task\n  project\n  focus\n  habit\n",
            ),
            CliError::DisplayVersion => String::from_str("ticktick 0.1.0\n"),
        }
    }
}

} // verus!
