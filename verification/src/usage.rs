//! How to use the program.

use vstd::prelude::*;
use vstd::string::*;
use crate::text;

verus! {

/// A line of the help: what it is for, then the command in colour.
pub open spec fn help_line(purpose: Seq<char>, program: Seq<char>, args: Seq<char>) -> Seq<char> {
    "  "@ + purpose + ": \x1b[35m"@ + program + " "@ + args + "\x1b[0m\n"@
}

/// One line for each application.
pub open spec fn app_lines(apps: Seq<Seq<char>>) -> Seq<char>
    decreases apps.len(),
{
    if apps.len() == 0 {
        Seq::empty()
    } else {
        app_lines(apps.drop_last()) + ("      * "@ + apps.last() + "\n"@)
    }
}

/// What the help says of the applications that are configured: nothing if they are not known or
/// there are none.
pub open spec fn app_section(apps: Option<Seq<Seq<char>>>) -> Seq<char> {
    if apps is Some && apps->0.len() > 0 {
        "    Currently configured apps are:\n"@ + app_lines(apps->0)
    } else {
        Seq::empty()
    }
}

/// The whole help, for the program at the path `cmd`.
pub open spec fn usage_text(cmd: Seq<char>, apps: Option<Seq<Seq<char>>>) -> Seq<char> {
    let program = text::last_component(cmd);
    "Usage:\n"@ + help_line("Toggle a scratchpad app"@, program, "<app>"@) + app_section(apps)
        + help_line("Launch the scratchpad daemon"@, program, "-d"@) + help_line(
        "Configure a new scratchpad app"@,
        program,
        "-a <name> <id> <cmd> <args..>"@,
    ) + help_line("Remove an app from the configuration"@, program, "-r <name>"@) + help_line(
        "Save current configurations"@,
        program,
        "-s"@,
    )
}

fn append_line(out: &mut String, purpose: &str, program: &str, args: &str)
    ensures
        final(out)@ == old(out)@ + help_line(purpose@, program@, args@),
{
    out.append("  ");
    out.append(purpose);
    out.append(": \x1b[35m");
    out.append(program);
    out.append(" ");
    out.append(args);
    out.append("\x1b[0m\n");
    assert(out@ =~= old(out)@ + help_line(purpose@, program@, args@));
}

fn append_apps(out: &mut String, apps: &Vec<String>)
    ensures
        final(out)@ == old(out)@ + app_lines(text::texts(apps@)),
{
    let ghost list = text::texts(apps@);
    let mut i: usize = 0;
    assert(out@ =~= old(out)@ + app_lines(list.take(0)));
    while i < apps.len()
        invariant
            i <= apps@.len(),
            list == text::texts(apps@),
            out@ == old(out)@ + app_lines(list.take(i as int)),
        decreases apps@.len() - i,
    {
        out.append("      * ");
        out.append(apps[i].as_str());
        out.append("\n");
        assert(list.take(i + 1).drop_last() =~= list.take(i as int));
        assert(out@ =~= old(out)@ + app_lines(list.take(i + 1)));
        i = i + 1;
    }
    assert(list.take(i as int) =~= list);
}

/// The help for the program at the path `cmd`, with the applications that are configured if they
/// are known.
pub fn usage(cmd: &str, apps: Option<Vec<String>>) -> (r: String)
    ensures
        r@ == usage_text(
            cmd@,
            match apps {
                Some(list) => Some(text::texts(list@)),
                None => None,
            },
        ),
{
    let program = text::base_name(cmd);
    let mut out = "Usage:\n".to_owned();
    append_line(&mut out, "Toggle a scratchpad app", program, "<app>");
    match &apps {
        Some(list) => {
            if list.len() > 0 {
                let ghost before = out@;
                out.append("    Currently configured apps are:\n");
                append_apps(&mut out, list);
                assert(out@ =~= before + app_section(Some(text::texts(list@))));
            } else {
                assert(out@ =~= out@ + Seq::<char>::empty());
            }
        },
        None => {
            assert(out@ =~= out@ + Seq::<char>::empty());
        },
    }
    append_line(&mut out, "Launch the scratchpad daemon", program, "-d");
    append_line(
        &mut out,
        "Configure a new scratchpad app",
        program,
        "-a <name> <id> <cmd> <args..>",
    );
    append_line(&mut out, "Remove an app from the configuration", program, "-r <name>");
    append_line(&mut out, "Save current configurations", program, "-s");
    out
}

} // verus!
