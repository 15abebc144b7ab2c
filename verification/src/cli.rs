//! The command line.

use vstd::prelude::*;
use vstd::string::*;
use crate::pad::{Pad, Scratchpad};
use crate::reply::{CmdResult, Reply};
use crate::store::EXIT_FAILURE;
use crate::text;

verus! {

/// The exit code after a command line that makes no sense.
pub const EXIT_USAGE: i32 = 1;

/// The exit code after a request that was refused.
pub const EXIT_INPUT: i32 = 2;

/// A request to the daemon.
pub enum Request {
    /// To configure a scratchpad.
    Add(Scratchpad),
    /// To remove the scratchpad of a name.
    Remove(String),
    /// To save the configuration.
    Save,
    /// To show or hide the scratchpad of a name.
    Toggle(String),
}

/// What a command line asks for.
pub enum Invocation {
    /// To be told how to use the program.
    Usage,
    /// To be the daemon.
    Daemon,
    /// To make a request to the daemon.
    Call(Request),
}

/// What a [`Request`] holds.
pub enum Ask {
    Add(Pad),
    Remove(Seq<char>),
    Save,
    Toggle(Seq<char>),
}

/// What an [`Invocation`] holds.
pub enum Intent {
    Usage,
    Daemon,
    Call(Ask),
}

impl View for Request {
    type V = Ask;

    open spec fn view(&self) -> Ask {
        match self {
            Request::Add(pad) => Ask::Add(pad@),
            Request::Remove(name) => Ask::Remove(name@),
            Request::Save => Ask::Save,
            Request::Toggle(name) => Ask::Toggle(name@),
        }
    }
}

impl View for Invocation {
    type V = Intent;

    open spec fn view(&self) -> Intent {
        match self {
            Invocation::Usage => Intent::Usage,
            Invocation::Daemon => Intent::Daemon,
            Invocation::Call(request) => Intent::Call(request@),
        }
    }
}

/// What the arguments of the program ask for.
pub open spec fn intent(args: Seq<Seq<char>>) -> Intent {
    if args.len() == 0 {
        Intent::Usage
    } else if args[0] == "-d"@ {
        if args.len() == 1 {
            Intent::Daemon
        } else {
            Intent::Usage
        }
    } else if args[0] == "-a"@ {
        if args.len() >= 4 {
            Intent::Call(
                Ask::Add(
                    Pad { name: args[1], id: args[2], program: args[3], args: args.skip(4) },
                ),
            )
        } else {
            Intent::Usage
        }
    } else if args[0] == "-r"@ {
        if args.len() >= 2 {
            Intent::Call(Ask::Remove(args[1]))
        } else {
            Intent::Usage
        }
    } else if args[0] == "-s"@ {
        Intent::Call(Ask::Save)
    } else if args.len() == 1 && !(args[0].len() > 0 && args[0][0] == '-') {
        Intent::Call(Ask::Toggle(args[0]))
    } else {
        Intent::Usage
    }
}

/// Reads the arguments of the program, without its own name.
pub fn parse(args: &Vec<String>) -> (r: Invocation)
    ensures
        r@ == intent(text::texts(args@)),
{
    let ghost list = text::texts(args@);
    if args.len() == 0 {
        return Invocation::Usage;
    }
    let first = args[0].as_str();
    assert(first@ == list[0]);
    if text::same_text(first, "-d") {
        if args.len() == 1 {
            Invocation::Daemon
        } else {
            Invocation::Usage
        }
    } else if text::same_text(first, "-a") {
        if args.len() < 4 {
            return Invocation::Usage;
        }
        let mut rest: Vec<String> = Vec::new();
        let mut i: usize = 4;
        while i < args.len()
            invariant
                4 <= i <= args@.len(),
                list == text::texts(args@),
                text::texts(rest@) == list.subrange(4, i as int),
            decreases args@.len() - i,
        {
            let ghost before = rest@;
            rest.push(args[i].clone());
            assert(text::texts(rest@) =~= text::texts(before).push(list[i as int]));
            assert(list.subrange(4, i + 1) =~= list.subrange(4, i as int).push(list[i as int]));
            i = i + 1;
        }
        assert(text::texts(rest@) =~= list.skip(4));
        Invocation::Call(
            Request::Add(
                Scratchpad {
                    name: args[1].clone(),
                    id: args[2].clone(),
                    program: args[3].clone(),
                    args: rest,
                },
            ),
        )
    } else if text::same_text(first, "-r") {
        if args.len() < 2 {
            return Invocation::Usage;
        }
        Invocation::Call(Request::Remove(args[1].clone()))
    } else if text::same_text(first, "-s") {
        Invocation::Call(Request::Save)
    } else if args.len() > 1 || text::begins_with_dash(first) {
        Invocation::Usage
    } else {
        Invocation::Call(Request::Toggle(args[0].clone()))
    }
}

/// How the program ends: a message for the user, if there is one, and the exit code.
pub struct Verdict {
    pub message: Option<String>,
    pub code: i32,
}

/// What a [`Verdict`] holds.
pub struct Ending {
    pub message: Option<Seq<char>>,
    pub code: int,
}

impl View for Verdict {
    type V = Ending;

    open spec fn view(&self) -> Ending {
        Ending {
            message: match self.message {
                Some(m) => Some(m@),
                None => None,
            },
            code: self.code as int,
        }
    }
}

impl Ask {
    /// The scratchpad that a request names; to save names none.
    pub open spec fn subject(self) -> Seq<char> {
        match self {
            Ask::Add(pad) => pad.name,
            Ask::Remove(name) => name,
            Ask::Save => Seq::empty(),
            Ask::Toggle(name) => name,
        }
    }

    /// Whether the daemon can answer the request like this: to save names no scratchpad, so
    /// there is none that it must not name.
    pub open spec fn admits(self, reply: Reply) -> bool {
        !(self is Save && reply is BadInput)
    }

    /// How the program ends after the answer `reply`; `quoted` is the name of the scratchpad in
    /// quotes.
    pub open spec fn ending(self, quoted: Seq<char>, reply: Reply) -> Ending {
        match reply {
            Reply::Done => Ending { message: None, code: 0 },
            Reply::Failed(e) => Ending {
                message: Some(e),
                code: if self is Toggle {
                    EXIT_INPUT as int
                } else {
                    EXIT_FAILURE as int
                },
            },
            Reply::BadInput => match self {
                Ask::Add(_) => Ending {
                    message: Some("Scratchpad "@ + quoted + " already exists."@),
                    code: EXIT_INPUT as int,
                },
                Ask::Remove(_) => Ending {
                    message: Some("Scratchpad "@ + quoted + " was already unconfigured."@),
                    code: 0,
                },
                _ => Ending {
                    message: Some("Scratchpad "@ + quoted + " is unconfigured."@),
                    code: EXIT_INPUT as int,
                },
            },
        }
    }
}

fn about(quoted: &str, what: &str) -> (r: String)
    ensures
        r@ == "Scratchpad "@ + quoted@ + what@,
{
    "Scratchpad ".to_owned().concat(quoted).concat(what)
}

/// How the program ends after the answer `reply` to `request`; `quoted` is the name of the
/// scratchpad in quotes.
pub fn report(request: &Request, quoted: &str, reply: CmdResult) -> (r: Verdict)
    requires
        request@.admits(reply@),
    ensures
        r@ == request@.ending(quoted@, reply@),
{
    match reply {
        CmdResult::Done => Verdict { message: None, code: 0 },
        CmdResult::Failed(e) => {
            let code: i32 = match request {
                Request::Toggle(_) => EXIT_INPUT,
                _ => EXIT_FAILURE,
            };
            Verdict { message: Some(e), code }
        },
        CmdResult::BadInput => match request {
            Request::Add(_) => Verdict {
                message: Some(about(quoted, " already exists.")),
                code: EXIT_INPUT,
            },
            Request::Remove(_) => Verdict {
                message: Some(about(quoted, " was already unconfigured.")),
                code: 0,
            },
            _ => Verdict { message: Some(about(quoted, " is unconfigured.")), code: EXIT_INPUT },
        },
    }
}

/// A string in quotes, as the `Debug` of `str` writes it.
pub uninterp spec fn debug_form(s: Seq<char>) -> Seq<char>;

/// Calls the `Debug` of `str` through `format!`. What it writes is taken to depend on the
/// characters of the string alone, and has the name `debug_form`; which characters it escapes is
/// left unsaid.
#[verifier::external_body]
fn in_quotes(s: &str) -> (r: String)
    ensures
        r@ == debug_form(s@),
{
    format!("{:?}", s)
}

/// How the program ends after the answer `reply` to `request`.
pub fn conclude(request: &Request, reply: CmdResult) -> (r: Verdict)
    requires
        request@.admits(reply@),
    ensures
        r@ == request@.ending(debug_form(request@.subject()), reply@),
{
    let quoted = match request {
        Request::Add(pad) => in_quotes(pad.name.as_str()),
        Request::Remove(name) => in_quotes(name.as_str()),
        Request::Save => String::new(),
        Request::Toggle(name) => in_quotes(name.as_str()),
    };
    report(request, quoted.as_str(), reply)
}

} // verus!
