//! Reading back a written command line: every `Cli` value, written out as
//! arguments, is read back by the grammar as that same value.
use vstd::prelude::*;

use crate::args::{
    cli_fits, command_fits, finish, leaf_word, group_named, group_word, initial_scan, is_flag, is_global, leaf_accepts,
    leaf_int_option, leaf_named, leaf_required, missing_of, option_count, option_long, option_named,
    parse_outcome, scan, step, with_slot, CliFailure, ScanView,
};
use crate::cli::{Cli, Command, FocusCommand, HabitCommand, JsonInput, OAuthCommand, ProjectCommand, TaskCommand};
use crate::address::opt_view;
use crate::text::{decimal, decimal_round_trip, i32_value};

verus! {

/// The argument for option `o`: `--name=value`, or `--name` for a flag.
pub open spec fn option_arg(o: u8, v: Option<Seq<char>>) -> Seq<char> {
    match v {
        Some(x) => "--"@ + option_long(o) + "="@ + x,
        None => "--"@ + option_long(o),
    }
}

/// The value an option argument stores: its text, or nothing for a flag.
pub open spec fn stored(v: Option<Seq<char>>) -> Seq<char> {
    match v {
        Some(x) => x,
        None => seq![],
    }
}

/// Whether option `o` with value `v` may be read in state `st`.
pub open spec fn option_fits(st: ScanView, o: u8, v: Option<Seq<char>>) -> bool {
    &&& (o as nat) < option_count()
    &&& !st.given.contains(o)
    &&& (is_global(o) || (st.leaf is Some && leaf_accepts(st.leaf->0, o)))
    &&& (is_flag(o) <==> v is None)
    &&& (v is Some && st.leaf is Some && leaf_int_option(st.leaf->0, o)) ==> i32_value(v->0) is Some
}

/// Each long name has no `=`, and names its option.
proof fn lemma_option_names(o: u8)
    requires
        o < 19,
    ensures
        option_long(o).len() > 0,
        forall|j: int| 0 <= j < option_long(o).len() ==> option_long(o)[j] != '=',
        option_named(option_long(o)) == Some(o),
{
    reveal_strlit("token");
    reveal_strlit("client-id");
    reveal_strlit("client-secret");
    reveal_strlit("base-url");
    reveal_strlit("scope");
    reveal_strlit("state");
    reveal_strlit("redirect-uri");
    reveal_strlit("code");
    reveal_strlit("project-id");
    reveal_strlit("task-id");
    reveal_strlit("json");
    reveal_strlit("json-file");
    reveal_strlit("json-stdin");
    reveal_strlit("focus-id");
    reveal_strlit("type");
    reveal_strlit("from");
    reveal_strlit("to");
    reveal_strlit("habit-id");
    reveal_strlit("habit-ids");
    assert(option_named(option_long(o)) == Some(o)) by {
        if o == 0 {

        } else if o == 1 {
            assert("client-id"@.len() != "token"@.len());
        } else if o == 2 {
            assert("client-secret"@.len() != "token"@.len());
            assert("client-secret"@.len() != "client-id"@.len());
        } else if o == 3 {
            assert("base-url"@.len() != "token"@.len());
            assert("base-url"@.len() != "client-id"@.len());
            assert("base-url"@.len() != "client-secret"@.len());
        } else if o == 4 {
            assert("scope"@[0] != "token"@[0]);
            assert("scope"@.len() != "client-id"@.len());
            assert("scope"@.len() != "client-secret"@.len());
            assert("scope"@.len() != "base-url"@.len());
        } else if o == 5 {
            assert("state"@[0] != "token"@[0]);
            assert("state"@.len() != "client-id"@.len());
            assert("state"@.len() != "client-secret"@.len());
            assert("state"@.len() != "base-url"@.len());
            assert("state"@[1] != "scope"@[1]);
        } else if o == 6 {
            assert("redirect-uri"@.len() != "token"@.len());
            assert("redirect-uri"@.len() != "client-id"@.len());
            assert("redirect-uri"@.len() != "client-secret"@.len());
            assert("redirect-uri"@.len() != "base-url"@.len());
            assert("redirect-uri"@.len() != "scope"@.len());
            assert("redirect-uri"@.len() != "state"@.len());
        } else if o == 7 {
            assert("code"@.len() != "token"@.len());
            assert("code"@.len() != "client-id"@.len());
            assert("code"@.len() != "client-secret"@.len());
            assert("code"@.len() != "base-url"@.len());
            assert("code"@.len() != "scope"@.len());
            assert("code"@.len() != "state"@.len());
            assert("code"@.len() != "redirect-uri"@.len());
        } else if o == 8 {
            assert("project-id"@.len() != "token"@.len());
            assert("project-id"@.len() != "client-id"@.len());
            assert("project-id"@.len() != "client-secret"@.len());
            assert("project-id"@.len() != "base-url"@.len());
            assert("project-id"@.len() != "scope"@.len());
            assert("project-id"@.len() != "state"@.len());
            assert("project-id"@.len() != "redirect-uri"@.len());
            assert("project-id"@.len() != "code"@.len());
        } else if o == 9 {
            assert("task-id"@.len() != "token"@.len());
            assert("task-id"@.len() != "client-id"@.len());
            assert("task-id"@.len() != "client-secret"@.len());
            assert("task-id"@.len() != "base-url"@.len());
            assert("task-id"@.len() != "scope"@.len());
            assert("task-id"@.len() != "state"@.len());
            assert("task-id"@.len() != "redirect-uri"@.len());
            assert("task-id"@.len() != "code"@.len());
            assert("task-id"@.len() != "project-id"@.len());
        } else if o == 10 {
            assert("json"@.len() != "token"@.len());
            assert("json"@.len() != "client-id"@.len());
            assert("json"@.len() != "client-secret"@.len());
            assert("json"@.len() != "base-url"@.len());
            assert("json"@.len() != "scope"@.len());
            assert("json"@.len() != "state"@.len());
            assert("json"@.len() != "redirect-uri"@.len());
            assert("json"@[0] != "code"@[0]);
            assert("json"@.len() != "project-id"@.len());
            assert("json"@.len() != "task-id"@.len());
        } else if o == 11 {
            assert("json-file"@.len() != "token"@.len());
            assert("json-file"@[0] != "client-id"@[0]);
            assert("json-file"@.len() != "client-secret"@.len());
            assert("json-file"@.len() != "base-url"@.len());
            assert("json-file"@.len() != "scope"@.len());
            assert("json-file"@.len() != "state"@.len());
            assert("json-file"@.len() != "redirect-uri"@.len());
            assert("json-file"@.len() != "code"@.len());
            assert("json-file"@.len() != "project-id"@.len());
            assert("json-file"@.len() != "task-id"@.len());
            assert("json-file"@.len() != "json"@.len());
        } else if o == 12 {
            assert("json-stdin"@.len() != "token"@.len());
            assert("json-stdin"@.len() != "client-id"@.len());
            assert("json-stdin"@.len() != "client-secret"@.len());
            assert("json-stdin"@.len() != "base-url"@.len());
            assert("json-stdin"@.len() != "scope"@.len());
            assert("json-stdin"@.len() != "state"@.len());
            assert("json-stdin"@.len() != "redirect-uri"@.len());
            assert("json-stdin"@.len() != "code"@.len());
            assert("json-stdin"@[0] != "project-id"@[0]);
            assert("json-stdin"@.len() != "task-id"@.len());
            assert("json-stdin"@.len() != "json"@.len());
            assert("json-stdin"@.len() != "json-file"@.len());
        } else if o == 13 {
            assert("focus-id"@.len() != "token"@.len());
            assert("focus-id"@.len() != "client-id"@.len());
            assert("focus-id"@.len() != "client-secret"@.len());
            assert("focus-id"@[0] != "base-url"@[0]);
            assert("focus-id"@.len() != "scope"@.len());
            assert("focus-id"@.len() != "state"@.len());
            assert("focus-id"@.len() != "redirect-uri"@.len());
            assert("focus-id"@.len() != "code"@.len());
            assert("focus-id"@.len() != "project-id"@.len());
            assert("focus-id"@.len() != "task-id"@.len());
            assert("focus-id"@.len() != "json"@.len());
            assert("focus-id"@.len() != "json-file"@.len());
            assert("focus-id"@.len() != "json-stdin"@.len());
        } else if o == 14 {
            assert("type"@.len() != "token"@.len());
            assert("type"@.len() != "client-id"@.len());
            assert("type"@.len() != "client-secret"@.len());
            assert("type"@.len() != "base-url"@.len());
            assert("type"@.len() != "scope"@.len());
            assert("type"@.len() != "state"@.len());
            assert("type"@.len() != "redirect-uri"@.len());
            assert("type"@[0] != "code"@[0]);
            assert("type"@.len() != "project-id"@.len());
            assert("type"@.len() != "task-id"@.len());
            assert("type"@[0] != "json"@[0]);
            assert("type"@.len() != "json-file"@.len());
            assert("type"@.len() != "json-stdin"@.len());
            assert("type"@.len() != "focus-id"@.len());
        } else if o == 15 {
            assert("from"@.len() != "token"@.len());
            assert("from"@.len() != "client-id"@.len());
            assert("from"@.len() != "client-secret"@.len());
            assert("from"@.len() != "base-url"@.len());
            assert("from"@.len() != "scope"@.len());
            assert("from"@.len() != "state"@.len());
            assert("from"@.len() != "redirect-uri"@.len());
            assert("from"@[0] != "code"@[0]);
            assert("from"@.len() != "project-id"@.len());
            assert("from"@.len() != "task-id"@.len());
            assert("from"@[0] != "json"@[0]);
            assert("from"@.len() != "json-file"@.len());
            assert("from"@.len() != "json-stdin"@.len());
            assert("from"@.len() != "focus-id"@.len());
            assert("from"@[0] != "type"@[0]);
        } else if o == 16 {
            assert("to"@.len() != "token"@.len());
            assert("to"@.len() != "client-id"@.len());
            assert("to"@.len() != "client-secret"@.len());
            assert("to"@.len() != "base-url"@.len());
            assert("to"@.len() != "scope"@.len());
            assert("to"@.len() != "state"@.len());
            assert("to"@.len() != "redirect-uri"@.len());
            assert("to"@.len() != "code"@.len());
            assert("to"@.len() != "project-id"@.len());
            assert("to"@.len() != "task-id"@.len());
            assert("to"@.len() != "json"@.len());
            assert("to"@.len() != "json-file"@.len());
            assert("to"@.len() != "json-stdin"@.len());
            assert("to"@.len() != "focus-id"@.len());
            assert("to"@.len() != "type"@.len());
            assert("to"@.len() != "from"@.len());
        } else if o == 17 {
            assert("habit-id"@.len() != "token"@.len());
            assert("habit-id"@.len() != "client-id"@.len());
            assert("habit-id"@.len() != "client-secret"@.len());
            assert("habit-id"@[0] != "base-url"@[0]);
            assert("habit-id"@.len() != "scope"@.len());
            assert("habit-id"@.len() != "state"@.len());
            assert("habit-id"@.len() != "redirect-uri"@.len());
            assert("habit-id"@.len() != "code"@.len());
            assert("habit-id"@.len() != "project-id"@.len());
            assert("habit-id"@.len() != "task-id"@.len());
            assert("habit-id"@.len() != "json"@.len());
            assert("habit-id"@.len() != "json-file"@.len());
            assert("habit-id"@.len() != "json-stdin"@.len());
            assert("habit-id"@[0] != "focus-id"@[0]);
            assert("habit-id"@.len() != "type"@.len());
            assert("habit-id"@.len() != "from"@.len());
            assert("habit-id"@.len() != "to"@.len());
        } else if o == 18 {
            assert("habit-ids"@.len() != "token"@.len());
            assert("habit-ids"@[0] != "client-id"@[0]);
            assert("habit-ids"@.len() != "client-secret"@.len());
            assert("habit-ids"@.len() != "base-url"@.len());
            assert("habit-ids"@.len() != "scope"@.len());
            assert("habit-ids"@.len() != "state"@.len());
            assert("habit-ids"@.len() != "redirect-uri"@.len());
            assert("habit-ids"@.len() != "code"@.len());
            assert("habit-ids"@.len() != "project-id"@.len());
            assert("habit-ids"@.len() != "task-id"@.len());
            assert("habit-ids"@.len() != "json"@.len());
            assert("habit-ids"@[0] != "json-file"@[0]);
            assert("habit-ids"@.len() != "json-stdin"@.len());
            assert("habit-ids"@.len() != "focus-id"@.len());
            assert("habit-ids"@.len() != "type"@.len());
            assert("habit-ids"@.len() != "from"@.len());
            assert("habit-ids"@.len() != "to"@.len());
            assert("habit-ids"@.len() != "habit-id"@.len());
        }
    }
}

/// No long option name is `help` or `version`.
proof fn lemma_names_not_builtin(o: u8)
    requires
        o < 19,
    ensures
        option_long(o) != "help"@,
        option_long(o) != "version"@,
{
    reveal_strlit("help");
    reveal_strlit("version");
    reveal_strlit("token");
    reveal_strlit("client-id");
    reveal_strlit("client-secret");
    reveal_strlit("base-url");
    reveal_strlit("scope");
    reveal_strlit("state");
    reveal_strlit("redirect-uri");
    reveal_strlit("code");
    reveal_strlit("project-id");
    reveal_strlit("task-id");
    reveal_strlit("json");
    reveal_strlit("json-file");
    reveal_strlit("json-stdin");
    reveal_strlit("focus-id");
    reveal_strlit("type");
    reveal_strlit("from");
    reveal_strlit("to");
    reveal_strlit("habit-id");
    reveal_strlit("habit-ids");
    let n = option_long(o);
    if n.len() == 4 {
        assert(n[0] != 'h');
    }
    if n.len() == 7 {
        assert(n[0] != 'v');
    }
}

/// An argument with `=` after its first two characters is none of the
/// arguments the reading treats on their own.
proof fn lemma_joined_not_builtin(u: Seq<char>, k: int)
    requires
        2 <= k < u.len(),
        u[k] == '=',
    ensures
        u != "--"@,
        u != "--help"@,
        u != "-h"@,
        u != "--version"@,
        u != "-V"@,
{
    reveal_strlit("--");
    reveal_strlit("--help");
    reveal_strlit("-h");
    reveal_strlit("--version");
    reveal_strlit("-V");
    assert("--help"@ =~= seq!['-', '-', 'h', 'e', 'l', 'p']);
    assert("--version"@ =~= seq!['-', '-', 'v', 'e', 'r', 's', 'i', 'o', 'n']);
}

/// `--` and a long option name is none of the arguments the reading treats on
/// their own.
proof fn lemma_plain_not_builtin(o: u8)
    requires
        o < 19,
    ensures
        "--"@ + option_long(o) != "--"@,
        "--"@ + option_long(o) != "--help"@,
        "--"@ + option_long(o) != "-h"@,
        "--"@ + option_long(o) != "--version"@,
        "--"@ + option_long(o) != "-V"@,
{
    lemma_option_names(o);
    lemma_names_not_builtin(o);
    reveal_strlit("--");
    reveal_strlit("--help");
    reveal_strlit("-h");
    reveal_strlit("--version");
    reveal_strlit("-V");
    reveal_strlit("help");
    reveal_strlit("version");
    let t = "--"@ + option_long(o);
    assert(t.skip(2) =~= option_long(o));
    if t == "--help"@ {
        assert(t.skip(2) =~= "help"@);
    }
    if t == "--version"@ {
        assert(t.skip(2) =~= "version"@);
    }
}

/// An option that takes a value is never given an argument that looks like an
/// option (`-x`, `--name`) as its value: reading it fails instead.
pub proof fn option_like_argument_is_not_a_value(args: Seq<Seq<char>>, i: int, st: ScanView, o: u8)
    requires
        0 <= i,
        i + 1 < args.len(),
        o < 19,
        !is_flag(o),
        args[i] == "--"@ + option_long(o),
        !crate::args::can_be_value(args[i + 1]),
        !st.escaped,
    ensures
        step(args, i, st) is Err,
{
    let name = option_long(o);
    let t = args[i];
    lemma_option_names(o);
    assert(t.skip(2) =~= name) by {
        reveal_strlit("--");
    }
    lemma_plain_not_builtin(o);
    assert(t.len() > 2 && t[0] == '-' && t[1] == '-') by {
        reveal_strlit("--");
    }
    assert(step(args, i, st) == crate::args::long_step(args, i, st, t.skip(2)));
    crate::args::lemma_first_eq(t.skip(2), name.len() as int);
    assert(crate::args::split_long(t.skip(2)) == (name, None::<Seq<char>>));
}

/// An option given a second time at the same level is refused as given twice.
pub proof fn option_given_twice_is_refused(args: Seq<Seq<char>>, i: int, st: ScanView, o: u8, v: Seq<char>)
    requires
        0 <= i < args.len(),
        o < 19,
        is_global(o) || (st.leaf matches Some(l) && leaf_accepts(l, o)),
        args[i] == "--"@ + option_long(o) + "="@ + v,
        !st.escaped,
        st.given.contains(o),
    ensures
        step(args, i, st) matches Err(CliFailure::Duplicate(a, _)) && a == crate::args::arg_display(o),
{
    let name = option_long(o);
    let t = args[i];
    lemma_option_names(o);
    assert(t.len() == name.len() + 3 + v.len()) by {
        reveal_strlit("--");
        reveal_strlit("=");
    }
    assert(t.skip(2) =~= name + "="@ + v) by {
        reveal_strlit("--");
    }
    assert(t.skip(2)[name.len() as int] == '=') by {
        reveal_strlit("=");
    }
    lemma_joined_not_builtin(t, 2 + name.len() as int);
    assert(t.len() > 2 && t[0] == '-' && t[1] == '-') by {
        reveal_strlit("--");
    }
    assert(step(args, i, st) == crate::args::long_step(args, i, st, t.skip(2)));
    crate::args::lemma_first_eq(t.skip(2), name.len() as int);
    assert(t.skip(2).take(name.len() as int) =~= name);
}

/// A long option whose name names no option is refused, never read.
pub proof fn unknown_option_is_refused(args: Seq<Seq<char>>, i: int, st: ScanView)
    requires
        0 <= i < args.len(),
        args[i].len() > 2,
        args[i][0] == '-',
        args[i][1] == '-',
        crate::args::option_named(crate::args::split_long(args[i].skip(2)).0) is None,
        args[i] != "--help"@,
        args[i] != "--version"@,
        !st.escaped,
    ensures
        step(args, i, st) matches Err(CliFailure::UnexpectedArgument(a, _)) && a == "--"@
            + crate::args::split_long(args[i].skip(2)).0,
{
    reveal_strlit("--");
    reveal_strlit("-h");
    reveal_strlit("-V");
    assert(args[i] != "--"@);
    assert(args[i] != "-h"@);
    assert(args[i] != "-V"@);
}

/// A global option is read wherever it stands, before the group word, between
/// the group and command words or after them: `--name=value` stores the value
/// and reading goes on with the next argument.
pub proof fn global_options_read_anywhere(args: Seq<Seq<char>>, i: int, st: ScanView, o: u8, v: Seq<char>)
    requires
        0 <= i < args.len(),
        is_global(o),
        args[i] == "--"@ + option_long(o) + "="@ + v,
        !st.escaped,
        !st.given.contains(o),
        st.slots.len() == option_count(),
    ensures
        step(args, i, st) == Ok::<(ScanView, int), CliFailure>((with_slot(st, o, v), i + 1)),
{
    assert(option_arg(o, Some(v)) == "--"@ + option_long(o) + "="@ + v);
    lemma_option_step(args, i, st, o, Some(v));
}

/// An option that takes a value, written as two arguments `--name value` (the
/// value not looking like an option), is read exactly as the one argument
/// `--name=value`: the same outcome, the whole next argument stored as the
/// value, and reading goes on after the value.
pub proof fn separate_value_reads_as_inline(args: Seq<Seq<char>>, i: int, st: ScanView, o: u8)
    requires
        0 <= i,
        i + 1 < args.len(),
        o < 19,
        !is_flag(o),
        args[i] == "--"@ + option_long(o),
        crate::args::can_be_value(args[i + 1]),
        !st.escaped,
        st.slots.len() == option_count(),
    ensures
        ({
            let joined = args.update(i, "--"@ + option_long(o) + "="@ + args[i + 1]);
            match step(args, i, st) {
                Ok((s1, j1)) => j1 == i + 2 && s1.slots[o as int] == Some(args[i + 1]) && step(
                    joined,
                    i,
                    st,
                ) == Ok::<(ScanView, int), CliFailure>((s1, i + 1)),
                Err(e) => step(joined, i, st) == Err::<(ScanView, int), CliFailure>(e),
            }
        }),
{
    let name = option_long(o);
    let v = args[i + 1];
    let joined = args.update(i, "--"@ + name + "="@ + v);
    let t = args[i];
    let u = joined[i];
    lemma_option_names(o);
    assert(u == "--"@ + name + "="@ + v);
    assert(t.skip(2) =~= name) by {
        reveal_strlit("--");
    }
    assert(u.skip(2) =~= name + "="@ + v) by {
        reveal_strlit("--");
    }
    assert(u[2 + name.len() as int] == '=') by {
        reveal_strlit("--");
        reveal_strlit("=");
    }
    assert(u.len() == name.len() + 3 + v.len()) by {
        reveal_strlit("--");
        reveal_strlit("=");
    }
    assert(u.skip(2)[name.len() as int] == '=') by {
        reveal_strlit("=");
    }
    lemma_plain_not_builtin(o);
    lemma_joined_not_builtin(u, 2 + name.len() as int);
    assert(t.len() > 2 && t[0] == '-' && t[1] == '-') by {
        reveal_strlit("--");
    }
    assert(u.len() > 2 && u[0] == '-' && u[1] == '-') by {
        reveal_strlit("--");
    }
    assert(step(args, i, st) == crate::args::long_step(args, i, st, t.skip(2)));
    assert(step(joined, i, st) == crate::args::long_step(joined, i, st, u.skip(2)));
    crate::args::lemma_first_eq(t.skip(2), name.len() as int);
    crate::args::lemma_first_eq(u.skip(2), name.len() as int);
    assert(u.skip(2).take(name.len() as int) =~= name);
    assert(u.skip(2).skip(name.len() + 1int) =~= v) by {
        reveal_strlit("=");
    }
    assert(crate::args::split_long(t.skip(2)) == (name, None::<Seq<char>>));
    assert(crate::args::split_long(u.skip(2)) == (name, Some(v)));
    assert(joined[i + 1] == v);
}

proof fn lemma_option_step(args: Seq<Seq<char>>, i: int, st: ScanView, o: u8, v: Option<Seq<char>>)
    requires
        0 <= i < args.len(),
        args[i] == option_arg(o, v),
        !st.escaped,
        st.slots.len() == option_count(),
        option_fits(st, o, v),
    ensures
        step(args, i, st) == Ok::<(ScanView, int), CliFailure>((with_slot(st, o, stored(v)), i + 1)),
{
    let t = args[i];
    let name = option_long(o);
    lemma_option_names(o);
    reveal_strlit("--");
    reveal_strlit("=");
    reveal_strlit("--help");
    reveal_strlit("-h");
    reveal_strlit("--version");
    reveal_strlit("-V");
    reveal_strlit("json-stdin");
    let body = t.skip(2);
    assert(t[0] == '-' && t[1] == '-');
    match v {
        Some(x) => {
            assert(body =~= name + "="@ + x);
            assert(body[name.len() as int] == '=');
            assert(t[2 + name.len() as int] == '=');
            assert(t != "--help"@) by {
                if t == "--help"@ {
                    assert("--help"@[2 + name.len() as int] == '=');
                }
            }
            assert(t != "--version"@) by {
                if t == "--version"@ {
                    assert("--version"@[2 + name.len() as int] == '=');
                }
            }
            crate::args::lemma_first_eq(body, name.len() as int);
            assert(body.take(name.len() as int) =~= name);
            assert(body.skip(name.len() + 1int) =~= x);
        },
        None => {
            assert(o == 12);
            assert(body =~= name);
            crate::args::lemma_first_eq(body, body.len() as int);
        },
    }
}

} // verus!

verus! {

/// The group of command `l`.
pub open spec fn group_of_leaf(l: u8) -> u8 {
    if l <= 1 {
        0
    } else if l <= 9 {
        1
    } else if l <= 15 {
        2
    } else if l <= 18 {
        3
    } else {
        4
    }
}


proof fn lemma_group_word(g: u8)
    requires
        g < 5,
    ensures
        group_named(group_word(g)) == Some(g),
        group_word(g).len() > 2,
        group_word(g)[0] != '-',
        group_word(g) != "help"@,
{
    reveal_strlit("help");
    reveal_strlit("--");
    reveal_strlit("--help");
    reveal_strlit("--version");
    reveal_strlit("-V");
    reveal_strlit("-h");
    reveal_strlit("authorize");
    reveal_strlit("checkin");
    reveal_strlit("checkins");
    reveal_strlit("complete");
    reveal_strlit("completed");
    reveal_strlit("create");
    reveal_strlit("data");
    reveal_strlit("delete");
    reveal_strlit("exchange");
    reveal_strlit("filter");
    reveal_strlit("focus");
    reveal_strlit("get");
    reveal_strlit("habit");
    reveal_strlit("list");
    reveal_strlit("move");
    reveal_strlit("oauth");
    reveal_strlit("project");
    reveal_strlit("task");
    reveal_strlit("update");
    if g == 0 {
        assert(group_word(g) == "oauth"@);
        assert("oauth"@.len() != "help"@.len());

    } else if g == 1 {
        assert(group_word(g) == "task"@);
        assert("task"@[0] != "help"@[0]);
        assert("task"@.len() != "oauth"@.len());
    } else if g == 2 {
        assert(group_word(g) == "project"@);
        assert("project"@.len() != "help"@.len());
        assert("project"@.len() != "oauth"@.len());
        assert("project"@.len() != "task"@.len());
    } else if g == 3 {
        assert(group_word(g) == "focus"@);
        assert("focus"@.len() != "help"@.len());
        assert("focus"@[0] != "oauth"@[0]);
        assert("focus"@.len() != "task"@.len());
        assert("focus"@.len() != "project"@.len());
    } else if g == 4 {
        assert(group_word(g) == "habit"@);
        assert("habit"@.len() != "help"@.len());
        assert("habit"@[0] != "oauth"@[0]);
        assert("habit"@.len() != "task"@.len());
        assert("habit"@.len() != "project"@.len());
        assert("habit"@[0] != "focus"@[0]);
    }
}

proof fn lemma_leaf_word(l: u8)
    requires
        l <= 24,
    ensures
        leaf_named(group_of_leaf(l), leaf_word(l)) == Some(l),
        leaf_word(l).len() > 2,
        leaf_word(l)[0] != '-',
        leaf_word(l) != "help"@,
{
    reveal_strlit("help");
    reveal_strlit("--");
    reveal_strlit("--help");
    reveal_strlit("--version");
    reveal_strlit("-V");
    reveal_strlit("-h");
    reveal_strlit("authorize");
    reveal_strlit("checkin");
    reveal_strlit("checkins");
    reveal_strlit("complete");
    reveal_strlit("completed");
    reveal_strlit("create");
    reveal_strlit("data");
    reveal_strlit("delete");
    reveal_strlit("exchange");
    reveal_strlit("filter");
    reveal_strlit("focus");
    reveal_strlit("get");
    reveal_strlit("habit");
    reveal_strlit("list");
    reveal_strlit("move");
    reveal_strlit("oauth");
    reveal_strlit("project");
    reveal_strlit("task");
    reveal_strlit("update");
    if l == 0 {
        assert(leaf_word(l) == "authorize"@);
        assert("authorize"@.len() != "help"@.len());

    } else if l == 1 {
        assert(leaf_word(l) == "exchange"@);
        assert("exchange"@.len() != "help"@.len());
        assert("exchange"@.len() != "authorize"@.len());
    } else if l == 2 {
        assert(leaf_word(l) == "get"@);
        assert("get"@.len() != "help"@.len());

    } else if l == 3 {
        assert(leaf_word(l) == "create"@);
        assert("create"@.len() != "help"@.len());
        assert("create"@.len() != "get"@.len());
    } else if l == 4 {
        assert(leaf_word(l) == "update"@);
        assert("update"@.len() != "help"@.len());
        assert("update"@.len() != "get"@.len());
        assert("update"@[0] != "create"@[0]);
    } else if l == 5 {
        assert(leaf_word(l) == "complete"@);
        assert("complete"@.len() != "help"@.len());
        assert("complete"@.len() != "get"@.len());
        assert("complete"@.len() != "create"@.len());
        assert("complete"@.len() != "update"@.len());
    } else if l == 6 {
        assert(leaf_word(l) == "delete"@);
        assert("delete"@.len() != "help"@.len());
        assert("delete"@.len() != "get"@.len());
        assert("delete"@[0] != "create"@[0]);
        assert("delete"@[0] != "update"@[0]);
        assert("delete"@.len() != "complete"@.len());
    } else if l == 7 {
        assert(leaf_word(l) == "move"@);
        assert("move"@[0] != "help"@[0]);
        assert("move"@.len() != "get"@.len());
        assert("move"@.len() != "create"@.len());
        assert("move"@.len() != "update"@.len());
        assert("move"@.len() != "complete"@.len());
        assert("move"@.len() != "delete"@.len());
    } else if l == 8 {
        assert(leaf_word(l) == "completed"@);
        assert("completed"@.len() != "help"@.len());
        assert("completed"@.len() != "get"@.len());
        assert("completed"@.len() != "create"@.len());
        assert("completed"@.len() != "update"@.len());
        assert("completed"@.len() != "complete"@.len());
        assert("completed"@.len() != "delete"@.len());
        assert("completed"@.len() != "move"@.len());
    } else if l == 9 {
        assert(leaf_word(l) == "filter"@);
        assert("filter"@.len() != "help"@.len());
        assert("filter"@.len() != "get"@.len());
        assert("filter"@[0] != "create"@[0]);
        assert("filter"@[0] != "update"@[0]);
        assert("filter"@.len() != "complete"@.len());
        assert("filter"@[0] != "delete"@[0]);
        assert("filter"@.len() != "move"@.len());
        assert("filter"@.len() != "completed"@.len());
    } else if l == 10 {
        assert(leaf_word(l) == "list"@);
        assert("list"@[0] != "help"@[0]);

    } else if l == 11 {
        assert(leaf_word(l) == "get"@);
        assert("get"@.len() != "help"@.len());
        assert("get"@.len() != "list"@.len());
    } else if l == 12 {
        assert(leaf_word(l) == "data"@);
        assert("data"@[0] != "help"@[0]);
        assert("data"@[0] != "list"@[0]);
        assert("data"@.len() != "get"@.len());
    } else if l == 13 {
        assert(leaf_word(l) == "create"@);
        assert("create"@.len() != "help"@.len());
        assert("create"@.len() != "list"@.len());
        assert("create"@.len() != "get"@.len());
        assert("create"@.len() != "data"@.len());
    } else if l == 14 {
        assert(leaf_word(l) == "update"@);
        assert("update"@.len() != "help"@.len());
        assert("update"@.len() != "list"@.len());
        assert("update"@.len() != "get"@.len());
        assert("update"@.len() != "data"@.len());
        assert("update"@[0] != "create"@[0]);
    } else if l == 15 {
        assert(leaf_word(l) == "delete"@);
        assert("delete"@.len() != "help"@.len());
        assert("delete"@.len() != "list"@.len());
        assert("delete"@.len() != "get"@.len());
        assert("delete"@.len() != "data"@.len());
        assert("delete"@[0] != "create"@[0]);
        assert("delete"@[0] != "update"@[0]);
    } else if l == 16 {
        assert(leaf_word(l) == "get"@);
        assert("get"@.len() != "help"@.len());

    } else if l == 17 {
        assert(leaf_word(l) == "list"@);
        assert("list"@[0] != "help"@[0]);
        assert("list"@.len() != "get"@.len());
    } else if l == 18 {
        assert(leaf_word(l) == "delete"@);
        assert("delete"@.len() != "help"@.len());
        assert("delete"@.len() != "get"@.len());
        assert("delete"@.len() != "list"@.len());
    } else if l == 19 {
        assert(leaf_word(l) == "get"@);
        assert("get"@.len() != "help"@.len());

    } else if l == 20 {
        assert(leaf_word(l) == "list"@);
        assert("list"@[0] != "help"@[0]);
        assert("list"@.len() != "get"@.len());
    } else if l == 21 {
        assert(leaf_word(l) == "create"@);
        assert("create"@.len() != "help"@.len());
        assert("create"@.len() != "get"@.len());
        assert("create"@.len() != "list"@.len());
    } else if l == 22 {
        assert(leaf_word(l) == "update"@);
        assert("update"@.len() != "help"@.len());
        assert("update"@.len() != "get"@.len());
        assert("update"@.len() != "list"@.len());
        assert("update"@[0] != "create"@[0]);
    } else if l == 23 {
        assert(leaf_word(l) == "checkin"@);
        assert("checkin"@.len() != "help"@.len());
        assert("checkin"@.len() != "get"@.len());
        assert("checkin"@.len() != "list"@.len());
        assert("checkin"@.len() != "create"@.len());
        assert("checkin"@.len() != "update"@.len());
    } else if l == 24 {
        assert(leaf_word(l) == "checkins"@);
        assert("checkins"@.len() != "help"@.len());
        assert("checkins"@.len() != "get"@.len());
        assert("checkins"@.len() != "list"@.len());
        assert("checkins"@.len() != "create"@.len());
        assert("checkins"@.len() != "update"@.len());
        assert("checkins"@.len() != "checkin"@.len());
    }
}

proof fn lemma_word_not_option(w: Seq<char>)
    requires
        w.len() > 2,
        w[0] != '-',
    ensures
        w != "--"@,
        w != "--help"@,
        w != "-h"@,
        w != "--version"@,
        w != "-V"@,
{
    reveal_strlit("--");
    reveal_strlit("--help");
    reveal_strlit("--version");
    reveal_strlit("-V");
    reveal_strlit("-h");
    reveal_strlit("authorize");
    reveal_strlit("checkin");
    reveal_strlit("checkins");
    reveal_strlit("complete");
    reveal_strlit("completed");
    reveal_strlit("create");
    reveal_strlit("data");
    reveal_strlit("delete");
    reveal_strlit("exchange");
    reveal_strlit("filter");
    reveal_strlit("focus");
    reveal_strlit("get");
    reveal_strlit("habit");
    reveal_strlit("list");
    reveal_strlit("move");
    reveal_strlit("oauth");
    reveal_strlit("project");
    reveal_strlit("task");
    reveal_strlit("update");
    assert("--help"@[0] == '-');
    assert("--version"@[0] == '-');
}

proof fn lemma_group_step(args: Seq<Seq<char>>, i: int, st: ScanView, g: u8)
    requires
        0 <= i < args.len(),
        g < 5,
        args[i] == group_word(g),
        !st.escaped,
        st.group is None,
    ensures
        step(args, i, st) == Ok::<(ScanView, int), CliFailure>((ScanView { group: Some(g), given: seq![], ..st }, i + 1)),
{
    lemma_group_word(g);
    lemma_word_not_option(group_word(g));
}

proof fn lemma_leaf_step(args: Seq<Seq<char>>, i: int, st: ScanView, l: u8)
    requires
        0 <= i < args.len(),
        l <= 24,
        args[i] == leaf_word(l),
        !st.escaped,
        st.group == Some(group_of_leaf(l)),
        st.leaf is None,
    ensures
        step(args, i, st) == Ok::<(ScanView, int), CliFailure>((ScanView { leaf: Some(l), given: seq![], ..st }, i + 1)),
{
    lemma_leaf_word(l);
    lemma_word_not_option(leaf_word(l));
}

} // verus!

verus! {

/// The arguments for a list of options with their values.
pub open spec fn option_args(opts: Seq<(u8, Option<Seq<char>>)>) -> Seq<Seq<char>> {
    opts.map_values(|p: (u8, Option<Seq<char>>)| option_arg(p.0, p.1))
}

/// The state after storing the options in order.
pub open spec fn apply_options(st: ScanView, opts: Seq<(u8, Option<Seq<char>>)>) -> ScanView
    decreases opts.len(),
{
    if opts.len() == 0 {
        st
    } else {
        apply_options(with_slot(st, opts[0].0, stored(opts[0].1)), opts.drop_first())
    }
}

/// Options in increasing order, each of which may be read in state `st`.
pub open spec fn options_fit(st: ScanView, opts: Seq<(u8, Option<Seq<char>>)>) -> bool {
    &&& forall|k: int| 0 <= k < opts.len() ==> option_fits(st, #[trigger] opts[k].0, opts[k].1)
    &&& forall|j: int, k: int| 0 <= j < k < opts.len() ==> opts[j].0 < opts[k].0
}

proof fn lemma_scan_options(args: Seq<Seq<char>>, i: int, st: ScanView, opts: Seq<(u8, Option<Seq<char>>)>)
    requires
        0 <= i,
        args.len() == i + opts.len(),
        forall|k: int| 0 <= k < opts.len() ==> args[i + k] == option_arg(#[trigger] opts[k].0, opts[k].1),
        options_fit(st, opts),
        !st.escaped,
        st.slots.len() == option_count(),
    ensures
        scan(args, i, st) == Ok::<ScanView, CliFailure>(apply_options(st, opts)),
    decreases opts.len(),
{
    if opts.len() > 0 {
        assert(option_fits(st, opts[0].0, opts[0].1));
        assert(args[i + 0] == option_arg(opts[0].0, opts[0].1));
        lemma_option_step(args, i, st, opts[0].0, opts[0].1);
        let next = with_slot(st, opts[0].0, stored(opts[0].1));
        let rest = opts.drop_first();
        assert forall|k: int| 0 <= k < rest.len() implies option_fits(next, #[trigger] rest[k].0, rest[k].1) by {
            assert(rest[k] == opts[k + 1]);
            assert(option_fits(st, opts[k + 1].0, opts[k + 1].1));
            assert(opts[0].0 < opts[k + 1].0);
        }
        assert forall|j: int, k: int| 0 <= j < k < rest.len() implies rest[j].0 < rest[k].0 by {
            assert(rest[j] == opts[j + 1]);
            assert(rest[k] == opts[k + 1]);
        }
        assert forall|k: int| 0 <= k < rest.len() implies args[(i + 1) + k] == option_arg(
            #[trigger] rest[k].0,
            rest[k].1,
        ) by {
            assert(rest[k] == opts[k + 1]);
            assert(args[i + (k + 1)] == option_arg(opts[k + 1].0, opts[k + 1].1));
        }
        lemma_scan_options(args, i + 1, next, rest);
    }
}

/// `apply_options` over a list with one more option at its end.
proof fn lemma_apply_push(st: ScanView, opts: Seq<(u8, Option<Seq<char>>)>, x: (u8, Option<Seq<char>>))
    ensures
        apply_options(st, opts.push(x)) == with_slot(apply_options(st, opts), x.0, stored(x.1)),
    decreases opts.len(),
{
    if opts.len() == 0 {
        assert(opts.push(x).drop_first() =~= opts);
        assert(opts.push(x)[0] == x);
        let next = with_slot(st, x.0, stored(x.1));
        assert(apply_options(st, opts.push(x)) == apply_options(next, opts));
        assert(apply_options(next, opts) == next);
        assert(apply_options(st, opts) == st);
    } else {
        assert(opts.push(x).drop_first() =~= opts.drop_first().push(x));
        assert(opts.push(x)[0] == opts[0]);
        let next = with_slot(st, opts[0].0, stored(opts[0].1));
        lemma_apply_push(next, opts.drop_first(), x);
        assert(apply_options(st, opts.push(x)) == apply_options(next, opts.drop_first().push(x)));
        assert(apply_options(st, opts) == apply_options(next, opts.drop_first()));
    }
}

/// The options for the values `w` of the first `n` option ids, in increasing order
/// of id: each id with a value, the flag without one.
pub open spec fn id_options(w: Seq<Option<Seq<char>>>, n: nat) -> Seq<(u8, Option<Seq<char>>)>
    decreases n,
{
    if n == 0 {
        seq![]
    } else {
        let prev = id_options(w, (n - 1) as nat);
        let o = (n - 1) as u8;
        match w[n - 1] {
            Some(v) => prev.push((o, if is_flag(o) { None } else { Some(v) })),
            None => prev,
        }
    }
}

/// The values `w` suit command `l`: one per option, each for an option that the
/// command takes, the flag's empty, and the command's numbers valid.
pub open spec fn values_suit(w: Seq<Option<Seq<char>>>, l: u8) -> bool {
    &&& w.len() == option_count()
    &&& forall|o: u8|
        #![trigger w[o as int]]
        (o as nat) < option_count() && w[o as int] is Some ==> {
            &&& is_global(o) || leaf_accepts(l, o)
            &&& is_flag(o) ==> w[o as int]->0 == Seq::<char>::empty()
            &&& leaf_int_option(l, o) ==> i32_value(w[o as int]->0) is Some
        }
}

proof fn lemma_id_options(w: Seq<Option<Seq<char>>>, n: nat)
    requires
        n <= option_count(),
        w.len() == option_count(),
    ensures
        forall|k: int|
            0 <= k < id_options(w, n).len() ==> {
                let (o, v) = #[trigger] id_options(w, n)[k];
                &&& (o as nat) < n
                &&& w[o as int] is Some
                &&& v == (if is_flag(o) { None } else { w[o as int] })
            },
        forall|j: int, k: int|
            0 <= j < k < id_options(w, n).len() ==> id_options(w, n)[j].0 < id_options(w, n)[k].0,
    decreases n,
{
    if n > 0 {
        lemma_id_options(w, (n - 1) as nat);
    }
}

proof fn lemma_apply_ids(st: ScanView, w: Seq<Option<Seq<char>>>, n: nat)
    requires
        n <= option_count(),
        w.len() == option_count(),
        st.slots.len() == option_count(),
        w[12] is Some ==> w[12]->0 == Seq::<char>::empty(),
    ensures
        apply_options(st, id_options(w, n)).group == st.group,
        apply_options(st, id_options(w, n)).leaf == st.leaf,
        apply_options(st, id_options(w, n)).escaped == st.escaped,
        apply_options(st, id_options(w, n)).slots.len() == option_count(),
        forall|i: int|
            0 <= i < option_count() ==> #[trigger] apply_options(st, id_options(w, n)).slots[i] == (
            if i < n && w[i] is Some {
                w[i]
            } else {
                st.slots[i]
            }),
    decreases n,
{
    if n > 0 {
        let m = (n - 1) as nat;
        lemma_apply_ids(st, w, m);
        let o = (n - 1) as u8;
        if w[n - 1] is Some {
            let x = (o, if is_flag(o) { None } else { w[n - 1] });
            lemma_apply_push(st, id_options(w, m), x);
        }
    }
}

/// The required options of `req` that have values are not missing.
proof fn lemma_none_missing(req: Seq<u8>, slots: Seq<Option<Seq<char>>>)
    requires
        forall|k: int| 0 <= k < req.len() ==> slots[#[trigger] req[k] as int] is Some,
    ensures
        missing_of(req, slots).len() == 0,
    decreases req.len(),
{
    if req.len() > 0 {
        assert forall|k: int| 0 <= k < req.drop_last().len() implies slots[#[trigger] req.drop_last()[k] as int] is Some by {
            assert(req.drop_last()[k] == req[k]);
        }
        lemma_none_missing(req.drop_last(), slots);
        assert(slots[req[req.len() - 1] as int] is Some);
    }
}

} // verus!

verus! {

/// The number of the command a `Command` is.
pub open spec fn command_leaf(cmd: Command) -> u8 {
    match cmd {
        Command::OAuth { command } => match command {
            OAuthCommand::Authorize { .. } => 0,
            OAuthCommand::Exchange { .. } => 1,
        },
        Command::Task { command } => match command {
            TaskCommand::Get { .. } => 2,
            TaskCommand::Create { .. } => 3,
            TaskCommand::Update { .. } => 4,
            TaskCommand::Complete { .. } => 5,
            TaskCommand::Delete { .. } => 6,
            TaskCommand::Move { .. } => 7,
            TaskCommand::Completed { .. } => 8,
            TaskCommand::Filter { .. } => 9,
        },
        Command::Project { command } => match command {
            ProjectCommand::List => 10,
            ProjectCommand::Get { .. } => 11,
            ProjectCommand::Data { .. } => 12,
            ProjectCommand::Create { .. } => 13,
            ProjectCommand::Update { .. } => 14,
            ProjectCommand::Delete { .. } => 15,
        },
        Command::Focus { command } => match command {
            FocusCommand::Get { .. } => 16,
            FocusCommand::List { .. } => 17,
            FocusCommand::Delete { .. } => 18,
        },
        Command::Habit { command } => match command {
            HabitCommand::Get { .. } => 19,
            HabitCommand::List => 20,
            HabitCommand::Create { .. } => 21,
            HabitCommand::Update { .. } => 22,
            HabitCommand::Checkin { .. } => 23,
            HabitCommand::Checkins { .. } => 24,
        },
    }
}

/// The value a JSON input gives option `i`.
pub open spec fn json_value(input: JsonInput, i: int) -> Option<Seq<char>> {
    if i == 10 {
        opt_view(input.json)
    } else if i == 11 {
        opt_view(input.json_file)
    } else if i == 12 && input.json_stdin {
        Some(Seq::<char>::empty())
    } else {
        None
    }
}

/// The value a command gives option `i` (besides the global ones).
pub open spec fn command_value(cmd: Command, i: int) -> Option<Seq<char>> {
    match cmd {
        Command::OAuth { command } => match command {
            OAuthCommand::Authorize { scope, state, redirect_uri } => if i == 4 {
                Some(scope@)
            } else if i == 5 {
                Some(state@)
            } else if i == 6 {
                Some(redirect_uri@)
            } else {
                None
            },
            OAuthCommand::Exchange { code, scope, redirect_uri } => if i == 7 {
                Some(code@)
            } else if i == 4 {
                Some(scope@)
            } else if i == 6 {
                Some(redirect_uri@)
            } else {
                None
            },
        },
        Command::Task { command } => match command {
            TaskCommand::Get { project_id, task_id }
            | TaskCommand::Complete { project_id, task_id }
            | TaskCommand::Delete { project_id, task_id } => if i == 8 {
                Some(project_id@)
            } else if i == 9 {
                Some(task_id@)
            } else {
                None
            },
            TaskCommand::Update { task_id, input } => if i == 9 {
                Some(task_id@)
            } else {
                json_value(input, i)
            },
            TaskCommand::Create { input }
            | TaskCommand::Move { input }
            | TaskCommand::Completed { input }
            | TaskCommand::Filter { input } => json_value(input, i),
        },
        Command::Project { command } => match command {
            ProjectCommand::List => None,
            ProjectCommand::Get { project_id }
            | ProjectCommand::Data { project_id }
            | ProjectCommand::Delete { project_id } => if i == 8 {
                Some(project_id@)
            } else {
                None
            },
            ProjectCommand::Create { input } => json_value(input, i),
            ProjectCommand::Update { project_id, input } => if i == 8 {
                Some(project_id@)
            } else {
                json_value(input, i)
            },
        },
        Command::Focus { command } => match command {
            FocusCommand::Get { focus_id, focus_type }
            | FocusCommand::Delete { focus_id, focus_type } => if i == 13 {
                Some(focus_id@)
            } else if i == 14 {
                Some(decimal(focus_type as int))
            } else {
                None
            },
            FocusCommand::List { from, to, focus_type } => if i == 15 {
                Some(from@)
            } else if i == 16 {
                Some(to@)
            } else if i == 14 {
                Some(decimal(focus_type as int))
            } else {
                None
            },
        },
        Command::Habit { command } => match command {
            HabitCommand::Get { habit_id } => if i == 17 {
                Some(habit_id@)
            } else {
                None
            },
            HabitCommand::List => None,
            HabitCommand::Create { input } => json_value(input, i),
            HabitCommand::Update { habit_id, input }
            | HabitCommand::Checkin { habit_id, input } => if i == 17 {
                Some(habit_id@)
            } else {
                json_value(input, i)
            },
            HabitCommand::Checkins { habit_ids, from, to } => if i == 18 {
                Some(habit_ids@)
            } else if i == 15 {
                Some(decimal(from as int))
            } else if i == 16 {
                Some(decimal(to as int))
            } else {
                None
            },
        },
    }
}

/// The value of each option on the command line written for `cli`: the global
/// options it has (the base URL always), then those of its command.
pub open spec fn cli_values(cli: Cli) -> Seq<Option<Seq<char>>> {
    Seq::new(
        option_count(),
        |i: int|
            if i == 0 {
                opt_view(cli.token)
            } else if i == 1 {
                opt_view(cli.client_id)
            } else if i == 2 {
                opt_view(cli.client_secret)
            } else if i == 3 {
                Some(cli.base_url@)
            } else {
                command_value(cli.command, i)
            },
    )
}

/// The command line written for `cli`: the program's name, the group and command
/// words, then each option as `--name=value` (the flag as `--json-stdin`) in
/// increasing order of option.
pub open spec fn render(cli: Cli) -> Seq<Seq<char>> {
    let l = command_leaf(cli.command);
    seq!["ticktick"@, group_word(group_of_leaf(l)), leaf_word(l)] + option_args(
        id_options(cli_values(cli), option_count()),
    )
}

proof fn lemma_values_suit(cli: Cli)
    ensures
        values_suit(cli_values(cli), command_leaf(cli.command)),
        forall|k: int|
            0 <= k < leaf_required(command_leaf(cli.command)).len() ==> cli_values(cli)[#[trigger] leaf_required(
                command_leaf(cli.command),
            )[k] as int] is Some,
        command_fits(cli.command, command_leaf(cli.command), cli_values(cli)),
{
    let w = cli_values(cli);
    let l = command_leaf(cli.command);
    match cli.command {
        Command::Focus { command } => match command {
            FocusCommand::Get { focus_type, .. } | FocusCommand::Delete { focus_type, .. }
            | FocusCommand::List { focus_type, .. } => {
                decimal_round_trip(focus_type);
            },
        },
        Command::Habit { command } => match command {
            HabitCommand::Checkins { from, to, .. } => {
                decimal_round_trip(from);
                decimal_round_trip(to);
            },
            _ => {},
        },
        _ => {},
    }
    assert forall|o: u8| (o as nat) < option_count() && #[trigger] w[o as int] is Some implies {
        &&& is_global(o) || leaf_accepts(l, o)
        &&& is_flag(o) ==> w[o as int]->0 == Seq::<char>::empty()
        &&& leaf_int_option(l, o) ==> i32_value(w[o as int]->0) is Some
    } by {}
}

/// Every command line is read back as itself: the arguments written for `cli`
/// are accepted, and the reading they give is the one `cli` fits, with no
/// environment values. (`Cli::try_parse_from` returns a `Cli` that fits the same
/// reading.)
pub proof fn parse_render_round_trip(cli: Cli, env: (bool, bool, bool))
    ensures
        parse_outcome(render(cli), env) matches Ok(st) && cli_fits(cli, st, None, None, None),
{
    let w = cli_values(cli);
    let l = command_leaf(cli.command);
    let g = group_of_leaf(l);
    let opts = id_options(w, option_count());
    let args = render(cli);
    lemma_values_suit(cli);
    lemma_id_options(w, option_count());
    let st0 = initial_scan();
    let st1 = ScanView { group: Some(g), given: seq![], ..st0 };
    let st2 = ScanView { leaf: Some(l), given: seq![], ..st1 };
    assert(args[1] == group_word(g));
    assert(args[2] == leaf_word(l));
    lemma_group_step(args, 1, st0, g);
    lemma_leaf_step(args, 2, st1, l);
    assert forall|k: int| 0 <= k < opts.len() implies args[3 + k] == option_arg(
        #[trigger] opts[k].0,
        opts[k].1,
    ) by {
        assert(args[3 + k] == option_args(opts)[k]);
    }
    assert forall|k: int| 0 <= k < opts.len() implies option_fits(st2, #[trigger] opts[k].0, opts[k].1) by {
        let o = opts[k].0;
        assert(w[o as int] is Some);
    }
    lemma_scan_options(args, 3, st2, opts);
    assert(scan(args, 2, st1) == scan(args, 3, st2));
    assert(scan(args, 1, st0) == scan(args, 2, st1));
    lemma_apply_ids(st2, w, option_count());
    let fin = apply_options(st2, opts);
    assert(fin.slots =~= w);
    lemma_none_missing(leaf_required(l), fin.slots);
    assert(finish(fin, env) == Ok::<u8, CliFailure>(l));
}

} // verus!
