use std::collections::HashSet;

use sway_scratchpads::pad::{Scratchpad, Status};
use sway_scratchpads::reply::CmdResult;
use sway_scratchpads::store::{AddStep, ScratchpadStore, Startup};
use sway_scratchpads::table::Table;
use sway_scratchpads::toggle::{Link, ToggleStep};
use sway_scratchpads::tree::Node;

fn pad(name: &str, id: &str) -> Scratchpad {
    Scratchpad {
        name: name.to_string(),
        id: id.to_string(),
        program: format!("run-{id}"),
        args: vec!["--flag".to_string(), name.to_string()],
    }
}

fn node(id: i64, app: Option<&str>, nodes: Vec<Node>, floating_nodes: Vec<Node>) -> Node {
    Node { id, app_id: app.map(|a| a.to_string()), nodes, floating_nodes }
}

fn tree() -> Node {
    node(
        1,
        None,
        vec![
            node(2, Some("term"), vec![], vec![]),
            node(
                3,
                None,
                vec![node(4, Some("notes"), vec![], vec![])],
                vec![node(5, Some("term"), vec![], vec![node(6, Some("term"), vec![], vec![])])],
            ),
        ],
        vec![node(7, Some("other"), vec![], vec![])],
    )
}

fn empty() -> ScratchpadStore {
    match ScratchpadStore::new(None) {
        Startup::Ready(store) => store,
        Startup::QueryTree(_) => panic!("an empty store asks for the tree"),
    }
}

fn config(pads: Vec<(&str, Scratchpad)>) -> Table<Scratchpad> {
    let mut table = Table::new();
    for (key, pad) in pads {
        table.insert(key.to_string(), pad);
    }
    table
}

fn started(pads: Vec<(&str, Scratchpad)>) -> ScratchpadStore {
    match ScratchpadStore::new(Some(config(pads))) {
        Startup::QueryTree(store) => match store.with_tree(Some(tree())) {
            Ok(store) => store,
            Err(_) => panic!("no store"),
        },
        Startup::Ready(_) => panic!("the tree is not asked for"),
    }
}

fn active(store: &ScratchpadStore, id: &str) -> Option<(Vec<i64>, bool)> {
    let status: &Status = store.status_read().unwrap().get(id)?;
    let mut wins: Vec<i64> = status.active.iter().copied().collect();
    wins.sort();
    Some((wins, status.showing))
}

fn sorted(mut names: Vec<String>) -> Vec<String> {
    names.sort();
    names
}

#[test]
fn without_configuration_the_store_is_empty_and_ready() {
    let store = empty();
    assert!(store.keys().is_empty());
    assert!(!store.contains_key(""));
    assert!(store.status_read().unwrap().is_empty());
}

#[test]
fn an_empty_configuration_needs_no_tree() {
    assert!(matches!(ScratchpadStore::new(Some(config(vec![]))), Startup::Ready(_)));
}

#[test]
fn startup_takes_the_windows_out_of_the_whole_tree() {
    let store = started(vec![("t", pad("t", "term")), ("n", pad("n", "notes")), ("x", pad("x", "none"))]);
    assert_eq!(active(&store, "term"), Some((vec![2, 5, 6], true)));
    assert_eq!(active(&store, "notes"), Some((vec![4], true)));
    assert_eq!(active(&store, "none"), Some((vec![], true)));
    assert_eq!(active(&store, "other"), None);
    assert_eq!(sorted(store.keys()), ["n", "t", "x"]);
}

#[test]
fn a_configuration_goes_by_its_keys() {
    let store = started(vec![("key", pad("name", "term"))]);
    assert!(store.contains_key("key"));
    assert!(!store.contains_key("name"));
}

#[test]
fn startup_without_a_tree_exits() {
    match ScratchpadStore::new(Some(config(vec![("t", pad("t", "term"))]))) {
        Startup::QueryTree(store) => assert!(matches!(store.with_tree(None), Err(10))),
        Startup::Ready(_) => panic!("the tree is not asked for"),
    }
}

#[test]
fn add_shows_the_windows_and_follows_them() {
    let mut store = empty();
    assert!(matches!(store.begin_add("t"), AddStep::QueryTree));
    let outcome = store.add(pad("t", "notes"), Ok(tree()));
    assert!(matches!(outcome.reply, CmdResult::Done));
    assert_eq!(
        outcome.commands,
        [
            "[con_id=4] scratchpad show;",
            "[con_id=4] move to workspace current; [con_id=4] floating enable; [con_id=4] resize set width 80ppt; [con_id=4] resize set height 80ppt; [con_id=4] move position center",
        ]
    );
    assert!(store.contains_key("t"));
    assert_eq!(store.keys(), ["t"]);
    assert_eq!(active(&store, "notes"), Some((vec![4], true)));
    let stored = store.pads_read().unwrap().get("t").unwrap();
    assert_eq!(stored.program, "run-notes");
    assert_eq!(stored.args, ["--flag", "t"]);
}

#[test]
fn add_shows_every_window_once() {
    let mut store = empty();
    let outcome = store.add(pad("t", "term"), Ok(tree()));
    assert_eq!(outcome.commands.len(), 6);
    let mut first: Vec<&String> = outcome.commands.iter().step_by(2).collect();
    first.sort();
    assert_eq!(
        first,
        ["[con_id=2] scratchpad show;", "[con_id=5] scratchpad show;", "[con_id=6] scratchpad show;"]
    );
}

#[test]
fn a_taken_name_is_refused() {
    let store = started(vec![("t", pad("t", "term"))]);
    match store.begin_add("t") {
        AddStep::Answer(reply) => assert_eq!(reply.to_string(), "bad_input"),
        AddStep::QueryTree => panic!("not refused"),
    }
    assert!(matches!(store.begin_add("T"), AddStep::QueryTree));
}

#[test]
fn add_without_sway_answers_the_reason() {
    let mut store = empty();
    let outcome = store.add(pad("t", "term"), Err("no socket".to_string()));
    assert_eq!(outcome.reply.to_string(), "no socket");
    assert!(outcome.commands.is_empty());
    assert!(store.keys().is_empty());
}

#[test]
fn add_without_the_status_changes_nothing() {
    let mut store = ScratchpadStore { pads: Some(Table::new()), status: None };
    let outcome = store.add(pad("t", "notes"), Ok(tree()));
    assert_eq!(outcome.reply.to_string(), "Could not access local data.");
    assert_eq!(outcome.commands.len(), 2);
    assert!(store.keys().is_empty());
    assert!(store.status_write().is_none());
}

#[test]
fn remove_undoes_add() {
    let mut store = empty();
    store.add(pad("t", "term"), Ok(tree()));
    assert!(matches!(store.remove("t"), CmdResult::Done));
    assert!(!store.contains_key("t"));
    assert_eq!(active(&store, "term"), None);
    assert!(matches!(store.remove("t"), CmdResult::BadInput));
}

#[test]
fn remove_leaves_the_others() {
    let mut store = started(vec![("t", pad("t", "term")), ("n", pad("n", "notes"))]);
    assert!(matches!(store.remove("t"), CmdResult::Done));
    assert_eq!(store.keys(), ["n"]);
    assert_eq!(active(&store, "notes"), Some((vec![4], true)));
}

#[test]
fn remove_drops_the_status_of_a_shared_application() {
    let mut store = started(vec![("a", pad("a", "term")), ("b", pad("b", "term"))]);
    assert!(matches!(store.remove("a"), CmdResult::Done));
    assert!(store.contains_key("b"));
    assert_eq!(active(&store, "term"), None);
}

#[test]
fn remove_without_tables_answers_the_failure() {
    let mut lost = ScratchpadStore { pads: None, status: Some(Table::new()) };
    assert_eq!(lost.remove("t").to_string(), "Could not access local data.");
    assert!(lost.keys().is_empty());
    assert!(!lost.contains_key("t"));
    assert!(lost.pads_read().is_none());
    assert!(lost.pads_write().is_none());
    let mut half = ScratchpadStore { pads: Some(config(vec![("t", pad("t", "term"))])), status: None };
    assert!(half.status_read().is_none());
    assert_eq!(half.remove("t").to_string(), "Could not access local data.");
    assert!(!half.contains_key("t"));
}

#[test]
fn tables_are_changed_in_place() {
    let mut store = empty();
    store.pads_write().unwrap().insert("t".to_string(), pad("t", "term"));
    store.status_write().unwrap().insert(
        "term".to_string(),
        Status { active: HashSet::from([9]), showing: false },
    );
    assert!(store.contains_key("t"));
    assert_eq!(active(&store, "term"), Some((vec![9], false)));
}

fn send(step: ToggleStep) -> Vec<String> {
    match step {
        ToggleStep::Send { mut commands, reply } => {
            assert_eq!(reply.to_string(), "ok");
            commands.sort();
            commands
        }
        _ => panic!("nothing to send"),
    }
}

#[test]
fn toggle_hides_then_shows() {
    let mut store = started(vec![("t", pad("t", "term"))]);
    assert!(matches!(store.toggle("t", Link::Untried), ToggleStep::Connect));
    assert_eq!(active(&store, "term"), Some((vec![2, 5, 6], true)));
    let hiding = send(store.toggle("t", Link::Up));
    assert_eq!(
        hiding,
        [
            "[con_id=2] move to scratchpad",
            "[con_id=5] move to scratchpad",
            "[con_id=6] move to scratchpad",
        ]
    );
    assert_eq!(active(&store, "term"), Some((vec![2, 5, 6], false)));
    let showing = send(store.toggle("t", Link::Up));
    assert_eq!(showing.len(), 6);
    assert!(showing.contains(&"[con_id=5] scratchpad show;".to_string()));
    assert_eq!(active(&store, "term"), Some((vec![2, 5, 6], true)));
}

#[test]
fn toggle_without_a_connection_answers_the_reason() {
    let mut store = started(vec![("t", pad("t", "term"))]);
    match store.toggle("t", Link::Down("refused".to_string())) {
        ToggleStep::Answer(reply) => assert_eq!(reply.to_string(), "refused"),
        _ => panic!("no answer"),
    }
    assert_eq!(active(&store, "term"), Some((vec![2, 5, 6], true)));
}

#[test]
fn toggle_starts_an_application_without_windows() {
    let mut store = started(vec![("x", pad("x", "none"))]);
    match store.toggle("x", Link::Untried) {
        ToggleStep::Launch { program, args, reply } => {
            assert_eq!(program, "run-none");
            assert_eq!(args, ["--flag", "x"]);
            assert_eq!(reply.to_string(), "ok");
        }
        _ => panic!("not started"),
    }
}

#[test]
fn toggle_starts_an_application_without_a_status() {
    let mut store = started(vec![("a", pad("a", "term")), ("b", pad("b", "term"))]);
    store.remove("a");
    assert!(matches!(store.toggle("b", Link::Untried), ToggleStep::Launch { .. }));
    assert!(store.status_read().unwrap().is_empty());
}

#[test]
fn toggle_of_an_unknown_name_is_refused() {
    let mut store = started(vec![("t", pad("t", "term"))]);
    match store.toggle("term", Link::Up) {
        ToggleStep::Answer(reply) => assert_eq!(reply.to_string(), "bad_input"),
        _ => panic!("not refused"),
    }
}

#[test]
fn toggle_without_tables_answers_the_failure() {
    let mut lost = ScratchpadStore { pads: None, status: Some(Table::new()) };
    let mut half = ScratchpadStore { pads: Some(config(vec![("t", pad("t", "term"))])), status: None };
    for step in [lost.toggle("t", Link::Untried), half.toggle("t", Link::Untried)] {
        match step {
            ToggleStep::Answer(reply) => assert_eq!(reply.to_string(), "Could not access local data."),
            _ => panic!("no answer"),
        }
    }
    assert!(matches!(half.toggle("u", Link::Untried), ToggleStep::Answer(CmdResult::BadInput)));
}
