//! The commands that are sent to sway.

use std::collections::HashSet;
use vstd::prelude::*;
use vstd::string::*;
use crate::text;

verus! {

/// The command that sends a container to sway's scratchpad.
pub const HIDE: &'static str = "move to scratchpad";

/// A command for the one container whose id is `win`.
pub open spec fn command_for(win: i64, command: Seq<char>) -> Seq<char> {
    "[con_id="@ + text::decimal(win as int) + "] "@ + command
}

fn command_text(win: i64, command: &str) -> (r: String)
    ensures
        r@ == command_for(win, command@),
{
    let mut out = String::new();
    out.append("[con_id=");
    out.append(text::decimal_text(win).as_str());
    out.append("] ");
    out.append(command);
    assert(out@ =~= command_for(win, command@));
    out
}

/// The command that hides the window `win`.
pub open spec fn hide_command(win: i64) -> Seq<char> {
    command_for(win, HIDE@)
}

/// The command that hides the window `win`.
pub fn hide_window(win: i64) -> (r: String)
    ensures
        r@ == hide_command(win),
{
    command_text(win, HIDE)
}

/// The commands that show the window `win`: out of the scratchpad first, then floating in the
/// middle of the current workspace.
pub open spec fn show_commands(win: i64) -> Seq<Seq<char>> {
    seq![
        command_for(win, "scratchpad show;"@),
        command_for(win, "move to workspace current; "@) + command_for(win, "floating enable; "@)
            + command_for(win, "resize set width 80ppt; "@) + command_for(
            win,
            "resize set height 80ppt; "@,
        ) + command_for(win, "move position center"@),
    ]
}

/// The commands that show the window `win`.
pub fn show(win: i64) -> (r: Vec<String>)
    ensures
        text::texts(r@) == show_commands(win),
{
    let mut placing = command_text(win, "move to workspace current; ");
    placing.append(command_text(win, "floating enable; ").as_str());
    placing.append(command_text(win, "resize set width 80ppt; ").as_str());
    placing.append(command_text(win, "resize set height 80ppt; ").as_str());
    placing.append(command_text(win, "move position center").as_str());
    let mut out: Vec<String> = Vec::new();
    out.push(command_text(win, "scratchpad show;"));
    out.push(placing);
    assert(text::texts(out@) =~= show_commands(win));
    out
}

/// Whether `order` lists the windows `wins`, each once.
pub open spec fn lists(order: Seq<i64>, wins: Set<i64>) -> bool {
    order.no_duplicates() && order.to_set() == wins
}

/// The commands that hide several windows, one after the other.
pub open spec fn hide_all(order: Seq<i64>) -> Seq<Seq<char>> {
    order.map_values(|win: i64| hide_command(win))
}

/// The commands that show several windows, one after the other.
pub open spec fn show_all(order: Seq<i64>) -> Seq<Seq<char>>
    decreases order.len(),
{
    if order.len() == 0 {
        Seq::empty()
    } else {
        show_all(order.drop_last()) + show_commands(order.last())
    }
}

/// Whether `commands` hide the windows `wins`, in some order.
pub open spec fn hides(commands: Seq<Seq<char>>, wins: Set<i64>) -> bool {
    exists|order: Seq<i64>| #[trigger] lists(order, wins) && commands == hide_all(order)
}

/// Whether `commands` show the windows `wins`, in some order.
pub open spec fn shows(commands: Seq<Seq<char>>, wins: Set<i64>) -> bool {
    exists|order: Seq<i64>| #[trigger] lists(order, wins) && commands == show_all(order)
}

/// The windows of a set, in the order in which the set is walked.
fn listed(wins: &HashSet<i64>) -> (r: Vec<i64>)
    ensures
        lists(r@, wins@),
{
    let mut out: Vec<i64> = Vec::new();
    let ghost walk = vstd::std_specs::iter::IteratorSpec::remaining(
        &vstd::std_specs::hash::spec_hash_keys_iter(wins),
    );
    for win in it: wins.iter()
        invariant
            it.seq() == walk,
            out@.len() == it.index(),
            forall|i: int| 0 <= i < out@.len() ==> out@[i] == *walk[i],
    {
        out.push(*win);
    }
    assert(out@ =~= walk.unref());
    assert forall|i: int, j: int| 0 <= i < out@.len() && 0 <= j < out@.len() && i
        != j implies out@[i] != out@[j] by {
        assert(walk[i] != walk[j]);
    }
    out
}

/// The commands that hide `wins`.
pub fn hide_windows(wins: &HashSet<i64>) -> (r: Vec<String>)
    ensures
        hides(text::texts(r@), wins@),
{
    let order = listed(wins);
    let mut out: Vec<String> = Vec::new();
    let mut i: usize = 0;
    while i < order.len()
        invariant
            i <= order@.len(),
            text::texts(out@) == hide_all(order@.take(i as int)),
        decreases order@.len() - i,
    {
        let ghost before = out@;
        out.push(hide_window(order[i]));
        i = i + 1;
        assert(text::texts(out@) =~= text::texts(before).push(hide_command(order@[i - 1])));
        assert(hide_all(order@.take(i as int)) =~= hide_all(order@.take(i - 1)).push(
            hide_command(order@[i - 1]),
        ));
    }
    assert(order@.take(i as int) =~= order@);
    out
}

/// The commands that show `wins`.
pub fn show_windows(wins: &HashSet<i64>) -> (r: Vec<String>)
    ensures
        shows(text::texts(r@), wins@),
{
    let order = listed(wins);
    let mut out: Vec<String> = Vec::new();
    let mut i: usize = 0;
    while i < order.len()
        invariant
            i <= order@.len(),
            text::texts(out@) == show_all(order@.take(i as int)),
        decreases order@.len() - i,
    {
        let ghost before = out@;
        let mut next = show(order[i]);
        let ghost added = next@;
        out.append(&mut next);
        assert(text::texts(out@) =~= text::texts(before) + text::texts(added));
        assert(order@.take(i + 1).drop_last() =~= order@.take(i as int));
        i = i + 1;
    }
    assert(order@.take(i as int) =~= order@);
    out
}

} // verus!
