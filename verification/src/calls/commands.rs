//! What sway is told.

use std::collections::HashSet;
use vstd::prelude::*;

verus! {

/// `what`, told to the container `win` alone.
pub open spec fn told(win: i64, what: Seq<char>) -> Seq<char> {
    "[con_id="@ + crate::text::decimal(win as int) + "] "@ + what
}

/// The command that sends `win` to the scratchpad.
pub open spec fn hiding(win: i64) -> Seq<char> {
    told(win, "move to scratchpad"@)
}

/// The command that fetches `win` from the scratchpad.
pub open spec fn fetching(win: i64) -> Seq<char> {
    told(win, "scratchpad show;"@)
}

/// The command that places `win` in the middle of the current workspace: each part of it is told
/// to `win`.
pub open spec fn placing(win: i64) -> Seq<char> {
    told(win, "move to workspace current; "@) + told(win, "floating enable; "@) + told(
        win,
        "resize set width 80ppt; "@,
    ) + told(win, "resize set height 80ppt; "@) + told(win, "move position center"@)
}

/// Whether `order` has every window of `wins` once, and no other.
pub open spec fn goes_through(order: Seq<i64>, wins: Set<i64>) -> bool {
    &&& forall|j: int, k: int| 0 <= j < k < order.len() ==> order[j] != order[k]
    &&& forall|win: i64| wins.contains(win) <==> #[trigger] order.contains(win)
}

/// Whether `commands` send the windows `wins` to the scratchpad: each of them, once, and no other.
pub open spec fn hides_each(commands: Seq<String>, wins: Set<i64>) -> bool {
    exists|order: Seq<i64>| #[trigger]
        goes_through(order, wins) && commands.len() == order.len() && forall|k: int|
            0 <= k < order.len() ==> (#[trigger] commands[k])@ == hiding(order[k])
}

/// Whether the commands at `2 * k` and right behind it fetch `win`, then place it.
pub open spec fn shown_at(commands: Seq<String>, k: int, win: i64) -> bool {
    commands[2 * k]@ == fetching(win) && commands[2 * k + 1]@ == placing(win)
}

/// Whether `commands` fetch and place the windows `wins`: each of them, once, one window after
/// the other, and no other.
pub open spec fn shows_each(commands: Seq<String>, wins: Set<i64>) -> bool {
    exists|order: Seq<i64>| #[trigger]
        goes_through(order, wins) && commands.len() == 2 * order.len() && forall|k: int|
            0 <= k < order.len() ==> shown_at(commands, k, #[trigger] order[k])
}

proof fn lemma_show_all(order: Seq<i64>)
    ensures
        crate::sway::show_all(order).len() == 2 * order.len(),
        forall|k: int|
            #![trigger order[k]]
            0 <= k < order.len() ==> crate::sway::show_all(order)[2 * k]
                == crate::sway::show_commands(order[k])[0] && crate::sway::show_all(order)[2 * k + 1]
                == crate::sway::show_commands(order[k])[1],
    decreases order.len(),
{
    if order.len() > 0 {
        let front = order.drop_last();
        lemma_show_all(front);
        assert forall|k: int|
            #![trigger order[k]]
            0 <= k < order.len() implies crate::sway::show_all(order)[2 * k]
            == crate::sway::show_commands(order[k])[0] && crate::sway::show_all(order)[2 * k + 1]
            == crate::sway::show_commands(order[k])[1] by {
            if k < front.len() {
                assert(front[k] == order[k]);
            }
        }
    }
}

proof fn lemma_goes_through(order: Seq<i64>, wins: Set<i64>)
    requires
        crate::sway::lists(order, wins),
    ensures
        goes_through(order, wins),
{
    assert forall|win: i64| wins.contains(win) <==> #[trigger] order.contains(win) by {
        assert(order.to_set().contains(win) <==> order.contains(win));
    }
}

proof fn lemma_one_window(win: i64)
    ensures
        crate::sway::hide_command(win) == hiding(win),
        crate::sway::show_commands(win).len() == 2,
        crate::sway::show_commands(win)[0] == fetching(win),
        crate::sway::show_commands(win)[1] == placing(win),
{
    assert(crate::sway::show_commands(win)[1] =~= placing(win));
}

/// Where a window is to be hidden, it is sent to the scratchpad.
pub proof fn one_window_is_hidden(win: i64)
    ensures
        crate::sway::hide_command(win) == hiding(win),
{
    lemma_one_window(win);
}

/// Where a window is to be shown, it is fetched and then placed.
pub proof fn one_window_is_shown(win: i64)
    ensures
        crate::sway::show_commands(win) == seq![fetching(win), placing(win)],
{
    lemma_one_window(win);
    assert(crate::sway::show_commands(win) =~= seq![fetching(win), placing(win)]);
}

/// Commands that hide a set of windows hide each of them, once, and no other.
pub proof fn hidden_one_by_one(commands: Seq<String>, wins: Set<i64>)
    requires
        crate::sway::hides(crate::text::texts(commands), wins),
    ensures
        hides_each(commands, wins),
{
    let texts = crate::text::texts(commands);
    let order = choose|order: Seq<i64>| #[trigger]
        crate::sway::lists(order, wins) && texts == crate::sway::hide_all(order);
    lemma_goes_through(order, wins);
    assert(texts.len() == commands.len() && crate::sway::hide_all(order).len() == order.len());
    assert forall|k: int| 0 <= k < order.len() implies (#[trigger] commands[k])@ == hiding(
        order[k],
    ) by {
        assert(texts[k] == commands[k]@);
        lemma_one_window(order[k]);
    }
}

/// Commands that show a set of windows fetch and place each of them, once, and no other.
pub proof fn shown_one_by_one(commands: Seq<String>, wins: Set<i64>)
    requires
        crate::sway::shows(crate::text::texts(commands), wins),
    ensures
        shows_each(commands, wins),
{
    let texts = crate::text::texts(commands);
    let order = choose|order: Seq<i64>| #[trigger]
        crate::sway::lists(order, wins) && texts == crate::sway::show_all(order);
    lemma_goes_through(order, wins);
    lemma_show_all(order);
    assert(texts.len() == commands.len());
    assert forall|k: int| 0 <= k < order.len() implies shown_at(
        commands,
        k,
        #[trigger] order[k],
    ) by {
        assert(texts[2 * k] == commands[2 * k]@);
        assert(texts[2 * k + 1] == commands[2 * k + 1]@);
        lemma_one_window(order[k]);
    }
}

/// Where every window of a set is shown, each of them is fetched and, right after that, placed.
pub proof fn every_window_is_placed(commands: Seq<String>, wins: Set<i64>, win: i64)
    requires
        shows_each(commands, wins),
        wins.contains(win),
    ensures
        exists|k: int|
            #![trigger commands[k]]
            0 <= k < commands.len() - 1 && commands[k]@ == fetching(win) && commands[k + 1]@
                == placing(win),
{
    let order = choose|order: Seq<i64>| #[trigger]
        goes_through(order, wins) && commands.len() == 2 * order.len() && forall|k: int|
            0 <= k < order.len() ==> shown_at(commands, k, #[trigger] order[k]);
    assert(order.contains(win));
    let k = choose|k: int| 0 <= k < order.len() && order[k] == win;
    assert(shown_at(commands, k, order[k]));
    assert(commands[2 * k]@ == fetching(win));
}

/// A window is hidden by one command, told to it.
pub proof fn hide_window_hides(win: i64, r: String)
    requires
        call_ensures(crate::sway::hide_window, (win,), r),
    ensures
        r@ == hiding(win),
{
    lemma_one_window(win);
}

/// A window is shown by two commands: it is fetched from the scratchpad, then placed.
pub proof fn show_fetches_and_places(win: i64, r: Vec<String>)
    requires
        call_ensures(crate::sway::show, (win,), r),
    ensures
        r@.len() == 2,
        r@[0]@ == fetching(win),
        r@[1]@ == placing(win),
{
    let texts = crate::text::texts(r@);
    lemma_one_window(win);
    assert(texts[0] == r@[0]@ && texts[1] == r@[1]@);
}

/// To hide a set of windows hides each of them, once, and no other.
pub proof fn hide_windows_hides_each(wins: HashSet<i64>, r: Vec<String>)
    requires
        call_ensures(crate::sway::hide_windows, (&wins,), r),
    ensures
        hides_each(r@, wins@),
{
    hidden_one_by_one(r@, wins@);
}

/// To show a set of windows fetches and places each of them, once, and no other.
pub proof fn show_windows_shows_each(wins: HashSet<i64>, r: Vec<String>)
    requires
        call_ensures(crate::sway::show_windows, (&wins,), r),
    ensures
        shows_each(r@, wins@),
{
    shown_one_by_one(r@, wins@);
}

} // verus!
