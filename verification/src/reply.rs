//! The answer to a request.

use vstd::prelude::*;
use vstd::string::*;
use crate::text;

verus! {

/// How a request ended.
pub enum CmdResult {
    /// It was done.
    Done,
    /// It failed, for the reason given.
    Failed(String),
    /// It named a scratchpad that it must not name.
    BadInput,
}

/// What a [`CmdResult`] holds.
pub enum Reply {
    Done,
    Failed(Seq<char>),
    BadInput,
}

impl View for CmdResult {
    type V = Reply;

    open spec fn view(&self) -> Reply {
        match self {
            CmdResult::Done => Reply::Done,
            CmdResult::Failed(e) => Reply::Failed(e@),
            CmdResult::BadInput => Reply::BadInput,
        }
    }
}

impl Reply {
    /// The text that stands for a reply on the bus.
    pub open spec fn encode(self) -> Seq<char> {
        match self {
            Reply::Done => "ok"@,
            Reply::Failed(e) => e,
            Reply::BadInput => "bad_input"@,
        }
    }

    /// The reply that a text on the bus stands for.
    pub open spec fn decode(text: Seq<char>) -> Reply {
        if text == "ok"@ {
            Reply::Done
        } else if text == "bad_input"@ {
            Reply::BadInput
        } else {
            Reply::Failed(text)
        }
    }

    /// The failure to get at a table of the store.
    pub open spec fn local_data() -> Reply {
        Reply::Failed("Could not access local data."@)
    }
}

impl CmdResult {
    /// The failure to get at a table of the store.
    pub fn local_data_err() -> (r: Self)
        ensures
            r@ == Reply::local_data(),
    {
        CmdResult::Failed("Could not access local data.".to_owned())
    }

    /// The text that stands for the reply on the bus.
    pub fn to_string(&self) -> (r: String)
        ensures
            r@ == self@.encode(),
    {
        match self {
            CmdResult::Done => "ok".to_owned(),
            CmdResult::Failed(e) => e.clone(),
            CmdResult::BadInput => "bad_input".to_owned(),
        }
    }
}

impl From<String> for CmdResult {
    /// The reply that a text on the bus stands for.
    fn from(s: String) -> (r: Self)
        ensures
            r@ == Reply::decode(s@),
    {
        if text::same_text(s.as_str(), "ok") {
            CmdResult::Done
        } else if text::same_text(s.as_str(), "bad_input") {
            CmdResult::BadInput
        } else {
            CmdResult::Failed(s)
        }
    }
}

impl vstd::std_specs::convert::FromSpecImpl<String> for CmdResult {
    open spec fn obeys_from_spec() -> bool {
        true
    }

    open spec fn from_spec(s: String) -> Self {
        if s@ == "ok"@ {
            CmdResult::Done
        } else if s@ == "bad_input"@ {
            CmdResult::BadInput
        } else {
            CmdResult::Failed(s)
        }
    }
}

/// The two texts that stand for a reply without a reason differ.
proof fn lemma_words_differ()
    ensures
        "ok"@ != "bad_input"@,
{
    reveal_strlit("ok");
    reveal_strlit("bad_input");
    assert("ok"@.len() != "bad_input"@.len());
}

/// A reply comes off the bus as it went on, unless it is a failure whose reason reads like one
/// of the replies without a reason.
pub proof fn decode_encode(reply: Reply)
    requires
        reply != Reply::Failed("ok"@),
        reply != Reply::Failed("bad_input"@),
    ensures
        Reply::decode(reply.encode()) == reply,
{
    lemma_words_differ();
}

/// A text goes back on the bus as it came off.
pub proof fn encode_decode(text: Seq<char>)
    ensures
        Reply::decode(text).encode() == text,
{
}

/// Every text on the bus stands for a reply, and a reply is a success only as the word for it.
pub proof fn only_ok_is_ok(text: Seq<char>)
    ensures
        Reply::decode(text) == Reply::Done <==> text == "ok"@,
        Reply::decode(text) == Reply::BadInput <==> text == "bad_input"@,
{
    lemma_words_differ();
}

} // verus!
