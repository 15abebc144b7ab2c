//! What the arguments of the program ask for, and how it ends.

use vstd::prelude::*;
use crate::cli::{Invocation, Request, Verdict};
use crate::reply::CmdResult;

verus! {

/// The four options differ.
proof fn lemma_options()
    ensures
        "-d"@.len() == 2 && "-a"@.len() == 2 && "-r"@.len() == 2 && "-s"@.len() == 2,
        "-d"@[0] == '-' && "-a"@[0] == '-' && "-r"@[0] == '-' && "-s"@[0] == '-',
        "-d"@[1] == 'd' && "-a"@[1] == 'a' && "-r"@[1] == 'r' && "-s"@[1] == 's',
{
    reveal_strlit("-d");
    reveal_strlit("-a");
    reveal_strlit("-r");
    reveal_strlit("-s");
}

/// `-r` and a name ask to remove the scratchpad of that name, whatever follows.
pub proof fn option_r_removes(args: Vec<String>, r: Invocation)
    requires
        call_ensures(crate::cli::parse, (&args,), r),
        args@.len() >= 2,
        args@[0]@ == "-r"@,
    ensures
        r matches Invocation::Call(Request::Remove(name)) && name@ == args@[1]@,
{
    lemma_options();
    assert(crate::text::texts(args@)[0] == args@[0]@ && crate::text::texts(args@)[1]
        == args@[1]@);
}

/// `-a` with a name, an id and a program asks to add that scratchpad; what follows are the
/// arguments of the program, all of them and in their order.
pub proof fn option_a_adds(args: Vec<String>, r: Invocation)
    requires
        call_ensures(crate::cli::parse, (&args,), r),
        args@.len() >= 4,
        args@[0]@ == "-a"@,
    ensures
        r matches Invocation::Call(Request::Add(pad)) && {
            &&& pad.name@ == args@[1]@
            &&& pad.id@ == args@[2]@
            &&& pad.program@ == args@[3]@
            &&& pad.args@.len() == args@.len() - 4
            &&& forall|i: int|
                0 <= i < pad.args@.len() ==> (#[trigger] pad.args@[i])@ == args@[i + 4]@
        },
{
    lemma_options();
    let list = crate::text::texts(args@);
    assert(list[0] == args@[0]@ && list[1] == args@[1]@ && list[2] == args@[2]@ && list[3]
        == args@[3]@);
    let pad = r->Call_0->Add_0;
    let rest = crate::text::texts(pad.args@);
    assert(rest == list.skip(4));
    assert forall|i: int| 0 <= i < pad.args@.len() implies (#[trigger] pad.args@[i])@ == args@[i
        + 4]@ by {
        assert(rest[i] == pad.args@[i]@);
        assert(list[i + 4] == args@[i + 4]@);
    }
}

/// `-s` asks to save, whatever follows.
pub proof fn option_s_saves(args: Vec<String>, r: Invocation)
    requires
        call_ensures(crate::cli::parse, (&args,), r),
        args@.len() >= 1,
        args@[0]@ == "-s"@,
    ensures
        r matches Invocation::Call(Request::Save),
{
    lemma_options();
    assert(crate::text::texts(args@)[0] == args@[0]@);
}

/// The daemon is asked for by `-d` alone, and by nothing else.
pub proof fn option_d_is_the_daemon(args: Vec<String>, r: Invocation)
    requires
        call_ensures(crate::cli::parse, (&args,), r),
    ensures
        r is Daemon <==> args@.len() == 1 && args@[0]@ == "-d"@,
{
    lemma_options();
    if args@.len() > 0 {
        assert(crate::text::texts(args@)[0] == args@[0]@);
    }
}

/// A single word that does not begin with `-` toggles the scratchpad of that name, and nothing
/// else toggles one.
pub proof fn a_plain_word_toggles(args: Vec<String>, r: Invocation)
    requires
        call_ensures(crate::cli::parse, (&args,), r),
    ensures
        args@.len() == 1 && (args@[0]@.len() == 0 || args@[0]@[0] != '-') ==> (
        r matches Invocation::Call(Request::Toggle(name)) && name@ == args@[0]@),
        r matches Invocation::Call(Request::Toggle(name)) ==> args@.len() == 1 && (
        args@[0]@.len() == 0 || args@[0]@[0] != '-'),
{
    lemma_options();
    if args@.len() > 0 {
        assert(crate::text::texts(args@)[0] == args@[0]@);
    }
}

/// Every other list of arguments is answered with the help: none, an option that lacks something,
/// `-d` with more, an option that is not known, and a name with more.
pub proof fn the_rest_is_told_the_usage(args: Vec<String>, r: Invocation)
    requires
        call_ensures(crate::cli::parse, (&args,), r),
    ensures
        r is Usage <==> {
            ||| args@.len() == 0
            ||| args@[0]@ == "-d"@ && args@.len() > 1
            ||| args@[0]@ == "-a"@ && args@.len() < 4
            ||| args@[0]@ == "-r"@ && args@.len() < 2
            ||| {
                &&& args@[0]@ != "-d"@
                &&& args@[0]@ != "-a"@
                &&& args@[0]@ != "-r"@
                &&& args@[0]@ != "-s"@
                &&& args@.len() > 1 || (args@[0]@.len() > 0 && args@[0]@[0] == '-')
            }
        },
{
    lemma_options();
    if args@.len() > 0 {
        assert(crate::text::texts(args@)[0] == args@[0]@);
    }
}

/// After the help the program ends with the code 1, which no answer to a request ends it with.
pub proof fn the_usage_has_its_own_code(request: Request, quoted: &str, reply: CmdResult, r: Verdict)
    requires
        call_ensures(crate::cli::report, (&request, quoted, reply), r),
    ensures
        crate::cli::EXIT_USAGE == 1,
        r.code != crate::cli::EXIT_USAGE,
{
}

/// The scratchpad that a request is about.
pub open spec fn named_in(request: Request) -> Option<Seq<char>> {
    match request {
        Request::Add(pad) => Some(pad.name@),
        Request::Remove(name) => Some(name@),
        Request::Toggle(name) => Some(name@),
        Request::Save => None,
    }
}

/// A request that was done ends the program without a word and with success.
pub proof fn success_is_silent(request: Request, quoted: &str, r: Verdict)
    requires
        call_ensures(crate::cli::report, (&request, quoted, CmdResult::Done), r),
    ensures
        r.message is None,
        r.code == 0,
{
}

/// A request that failed ends the program with the reason, and with the code 2 if it was to
/// toggle and 10 if not.
pub proof fn failure_is_told(request: Request, quoted: &str, e: String, r: Verdict)
    requires
        call_ensures(crate::cli::report, (&request, quoted, CmdResult::Failed(e)), r),
    ensures
        r.message matches Some(m) && m@ == e@,
        r.code == (if request is Toggle { 2int } else { 10 }),
{
}

/// A request that was refused ends the program with a word on the name. To remove what is not
/// there is no error; to add what is there, or to toggle what is not, is.
pub proof fn refusal_is_told(request: Request, quoted: &str, r: Verdict)
    requires
        call_ensures(crate::cli::report, (&request, quoted, CmdResult::BadInput), r),
        !(request is Save),
    ensures
        r.message matches Some(m) && m@ == "Scratchpad "@ + quoted@ + (match request {
            Request::Add(_) => " already exists."@,
            Request::Remove(_) => " was already unconfigured."@,
            _ => " is unconfigured."@,
        }),
        r.code == (if request is Remove { 0int } else { 2 }),
{
}

/// The word on a name quotes the name that the request is about.
pub proof fn the_name_is_quoted(request: Request, r: Verdict)
    requires
        call_ensures(crate::cli::conclude, (&request, CmdResult::BadInput), r),
        !(request is Save),
    ensures
        r.message matches Some(m) && m@ == "Scratchpad "@ + crate::cli::debug_form(
            named_in(request)->0,
        ) + (match request {
            Request::Add(_) => " already exists."@,
            Request::Remove(_) => " was already unconfigured."@,
            _ => " is unconfigured."@,
        }),
        r.code == (if request is Remove { 0int } else { 2 }),
{
}

/// The program ends after success and after a failure whatever name the request is about.
pub proof fn conclusions_without_a_name(request: Request, reply: CmdResult, r: Verdict)
    requires
        call_ensures(crate::cli::conclude, (&request, reply), r),
        !(reply is BadInput),
    ensures
        reply is Done ==> r.message is None && r.code == 0,
        reply matches CmdResult::Failed(e) ==> (r.message matches Some(m) && m@ == e@) && r.code
            == (if request is Toggle { 2int } else { 10 }),
{
}

/// A line of the help for the program `name`.
pub open spec fn help_on(what: Seq<char>, name: Seq<char>, args: Seq<char>) -> Seq<char> {
    "  "@ + what + ": \x1b[35m"@ + name + " "@ + args + "\x1b[0m\n"@
}

/// A line of the help for each application, in their order.
pub open spec fn help_on_apps(apps: Seq<String>) -> Seq<char> {
    apps.map_values(|app: String| "      * "@ + app@ + "\n"@).flatten()
}

proof fn lemma_app_lines(a: Seq<Seq<char>>, b: Seq<Seq<char>>)
    ensures
        crate::usage::app_lines(a + b) == crate::usage::app_lines(a) + crate::usage::app_lines(b),
    decreases b.len(),
{
    if b.len() == 0 {
        assert(a + b =~= a);
        assert(crate::usage::app_lines(a) + crate::usage::app_lines(b) =~= crate::usage::app_lines(
            a,
        ));
    } else {
        lemma_app_lines(a, b.drop_last());
        assert((a + b).drop_last() =~= a + b.drop_last());
        assert(crate::usage::app_lines(a + b) =~= crate::usage::app_lines(a)
            + crate::usage::app_lines(b));
    }
}

proof fn lemma_help_on_apps(apps: Seq<String>)
    ensures
        crate::usage::app_lines(crate::text::texts(apps)) == help_on_apps(apps),
    decreases apps.len(),
{
    let texts = crate::text::texts(apps);
    let lines = apps.map_values(|app: String| "      * "@ + app@ + "\n"@);
    if apps.len() > 0 {
        let rest = apps.drop_first();
        let one = seq![texts[0]];
        lemma_help_on_apps(rest);
        lemma_app_lines(one, crate::text::texts(rest));
        assert(texts =~= one + crate::text::texts(rest));
        assert(lines.drop_first() =~= rest.map_values(
            |app: String| "      * "@ + app@ + "\n"@,
        ));
        assert(one.drop_last() =~= Seq::<Seq<char>>::empty());
        assert(crate::usage::app_lines(one.drop_last()) =~= Seq::<char>::empty());
        assert(crate::usage::app_lines(one) =~= lines.first());
        assert(texts[0] == apps[0]@);
    }
}

/// The help names the program by the base name of its path, lists the applications if they are
/// known and there are any, and explains every way to call the program.
pub proof fn usage_explains_the_program(
    cmd: &str,
    apps: Option<Vec<String>>,
    name: Seq<char>,
    r: String,
)
    requires
        call_ensures(crate::usage::usage, (cmd, apps), r),
        crate::calls::words::is_base_name(cmd@, name),
    ensures
        r@ == "Usage:\n"@ + help_on("Toggle a scratchpad app"@, name, "<app>"@) + (
        if apps is Some && apps->0@.len() > 0 {
            "    Currently configured apps are:\n"@ + help_on_apps(apps->0@)
        } else {
            Seq::empty()
        }) + help_on("Launch the scratchpad daemon"@, name, "-d"@) + help_on(
            "Configure a new scratchpad app"@,
            name,
            "-a <name> <id> <cmd> <args..>"@,
        ) + help_on("Remove an app from the configuration"@, name, "-r <name>"@) + help_on(
            "Save current configurations"@,
            name,
            "-s"@,
        ),
{
    crate::calls::words::last_component_is_the_base_name(cmd@);
    crate::calls::words::base_names_are_unique(cmd@, crate::text::last_component(cmd@), name);
    if apps is Some {
        lemma_help_on_apps(apps->0@);
    }
}

} // verus!
