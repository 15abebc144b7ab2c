use std::collections::HashSet;

use sway_scratchpads::listen::{Heard, ListenStep, WindowChange, WindowEvent};
use sway_scratchpads::pad::{Scratchpad, Status};
use sway_scratchpads::store::ScratchpadStore;
use sway_scratchpads::table::Table;
use sway_scratchpads::toggle::{Link, ToggleStep};
use sway_scratchpads::tree::Node;

fn store(showing: bool) -> ScratchpadStore {
    let mut pads = Table::new();
    pads.insert(
        "t".to_string(),
        Scratchpad {
            name: "t".to_string(),
            id: "term".to_string(),
            program: "foot".to_string(),
            args: vec![],
        },
    );
    let mut status = Table::new();
    status.insert("term".to_string(), Status { active: HashSet::new(), showing });
    ScratchpadStore { pads: Some(pads), status: Some(status) }
}

fn window(change: WindowChange, id: i64, app: Option<&str>) -> Heard {
    Heard::Window(WindowEvent { change, id, app_id: app.map(|a| a.to_string()) })
}

fn wins(store: &ScratchpadStore) -> Vec<i64> {
    let mut wins: Vec<i64> =
        store.status_read().unwrap().get("term").unwrap().active.iter().copied().collect();
    wins.sort();
    wins
}

#[test]
fn the_listener_subscribes_and_waits() {
    let mut s = store(true);
    assert!(matches!(s.listen(&Heard::Subscribed, Link::Untried), ListenStep::Wait));
    assert!(matches!(s.listen(&Heard::NotSubscribed, Link::Untried), ListenStep::Exit(10)));
    assert!(matches!(s.listen(&Heard::Ended, Link::Untried), ListenStep::Subscribe));
    assert!(matches!(s.listen(&Heard::Broken, Link::Untried), ListenStep::Subscribe));
    assert!(matches!(s.listen(&Heard::Unrelated, Link::Untried), ListenStep::Wait));
}

#[test]
fn a_new_window_is_shown_with_the_others() {
    let mut s = store(true);
    let heard = window(WindowChange::New, 8, Some("term"));
    assert!(matches!(s.listen(&heard, Link::Untried), ListenStep::Connect));
    assert!(wins(&s).is_empty());
    match s.listen(&heard, Link::Up) {
        ListenStep::Send(commands) => {
            assert_eq!(commands.len(), 2);
            assert_eq!(commands[0], "[con_id=8] scratchpad show;");
        }
        _ => panic!("nothing to send"),
    }
    assert_eq!(wins(&s), [8]);
}

#[test]
fn a_new_window_is_hidden_with_the_others() {
    let mut s = store(false);
    match s.listen(&window(WindowChange::New, -8, Some("term")), Link::Up) {
        ListenStep::Send(commands) => assert_eq!(commands, ["[con_id=-8] move to scratchpad"]),
        _ => panic!("nothing to send"),
    }
    assert_eq!(wins(&s), [-8]);
}

#[test]
fn a_new_window_without_a_connection_is_not_followed() {
    let mut s = store(true);
    let heard = window(WindowChange::New, 8, Some("term"));
    assert!(matches!(s.listen(&heard, Link::Down("gone".to_string())), ListenStep::Wait));
    assert!(wins(&s).is_empty());
}

#[test]
fn a_closed_window_is_forgotten() {
    let mut s = store(true);
    s.listen(&window(WindowChange::New, 8, Some("term")), Link::Up);
    s.listen(&window(WindowChange::New, 9, Some("term")), Link::Up);
    s.listen(&window(WindowChange::New, 9, Some("term")), Link::Up);
    assert_eq!(wins(&s), [8, 9]);
    let heard = window(WindowChange::Close, 8, Some("term"));
    assert!(matches!(s.listen(&heard, Link::Untried), ListenStep::Wait));
    assert_eq!(wins(&s), [9]);
}

#[test]
fn opening_and_closing_decide_what_toggle_does() {
    let mut s = store(true);
    assert!(matches!(s.toggle("t", Link::Untried), ToggleStep::Launch { .. }));
    s.listen(&window(WindowChange::New, 8, Some("term")), Link::Up);
    assert!(matches!(s.toggle("t", Link::Untried), ToggleStep::Connect));
    s.listen(&window(WindowChange::Close, 8, Some("term")), Link::Untried);
    assert!(matches!(s.toggle("t", Link::Untried), ToggleStep::Launch { .. }));
}

#[test]
fn other_windows_are_ignored() {
    let mut s = store(true);
    for app in [None, Some("other"), Some("")] {
        for link in [Link::Untried, Link::Up] {
            assert!(matches!(s.listen(&window(WindowChange::New, 8, app), link), ListenStep::Wait));
        }
        assert!(matches!(s.listen(&window(WindowChange::Close, 8, app), Link::Untried), ListenStep::Wait));
    }
    assert!(matches!(s.listen(&window(WindowChange::Other, 8, Some("term")), Link::Untried), ListenStep::Wait));
    assert!(wins(&s).is_empty());
    assert_eq!(s.status_read().unwrap().keys(), ["term"]);
}

#[test]
fn without_the_status_windows_are_ignored() {
    let mut s = store(true);
    s.status = None;
    for link in [Link::Untried, Link::Up] {
        assert!(matches!(s.listen(&window(WindowChange::New, 8, Some("term")), link), ListenStep::Wait));
    }
    assert!(matches!(s.listen(&window(WindowChange::Close, 8, Some("term")), Link::Untried), ListenStep::Wait));
    assert!(s.status_read().is_none());
}

#[test]
fn a_window_that_was_asked_for_is_shown_then_hidden() {
    let mut s = store(true);
    assert!(matches!(s.toggle("t", Link::Untried), ToggleStep::Launch { .. }));
    match s.listen(&window(WindowChange::New, 8, Some("term")), Link::Up) {
        ListenStep::Send(commands) => assert_eq!(commands[0], "[con_id=8] scratchpad show;"),
        _ => panic!("nothing to send"),
    }
    match s.toggle("t", Link::Up) {
        ToggleStep::Send { commands, .. } => {
            assert_eq!(commands, ["[con_id=8] move to scratchpad"])
        }
        _ => panic!("nothing to send"),
    }
}

#[test]
fn an_application_that_is_hidden_is_shown_when_it_is_started() {
    let mut s = store(true);
    s.listen(&window(WindowChange::New, 7, Some("term")), Link::Up);
    assert!(matches!(s.toggle("t", Link::Up), ToggleStep::Send { .. }));
    s.listen(&window(WindowChange::Close, 7, Some("term")), Link::Untried);
    assert!(!s.status_read().unwrap().get("term").unwrap().showing);
    assert!(matches!(s.toggle("t", Link::Untried), ToggleStep::Launch { .. }));
    assert!(s.status_read().unwrap().get("term").unwrap().showing);
    assert!(wins(&s).is_empty());
    match s.listen(&window(WindowChange::New, 8, Some("term")), Link::Up) {
        ListenStep::Send(commands) => {
            assert_eq!(commands.len(), 2);
            assert_eq!(commands[0], "[con_id=8] scratchpad show;");
        }
        _ => panic!("nothing to send"),
    }
    match s.toggle("t", Link::Up) {
        ToggleStep::Send { commands, .. } => {
            assert_eq!(commands, ["[con_id=8] move to scratchpad"])
        }
        _ => panic!("nothing to send"),
    }
}

#[test]
fn only_configured_applications_are_followed() {
    let mut s = store(true);
    s.listen(&window(WindowChange::New, 1, Some("other")), Link::Up);
    s.listen(&window(WindowChange::New, 2, Some("term")), Link::Up);
    s.toggle("t", Link::Up);
    assert_eq!(s.status_read().unwrap().keys(), ["term"]);
    s.remove("t");
    assert!(s.status_read().unwrap().is_empty());
    s.listen(&window(WindowChange::New, 3, Some("term")), Link::Up);
    assert!(s.status_read().unwrap().is_empty());
}

#[test]
fn all_configured_applications_are_followed() {
    let mut s = store(true);
    let notes = Scratchpad {
        name: "n".to_string(),
        id: "notes".to_string(),
        program: "edit".to_string(),
        args: vec![],
    };
    let tree = Node { id: 1, app_id: None, nodes: vec![], floating_nodes: vec![] };
    assert_eq!(s.add(notes, Ok(tree)).reply.to_string(), "ok");
    s.toggle("n", Link::Up);
    for (id, app) in [(2, "term"), (3, "notes")] {
        let heard = window(WindowChange::New, id, Some(app));
        assert!(matches!(s.listen(&heard, Link::Untried), ListenStep::Connect));
        assert!(matches!(s.listen(&heard, Link::Up), ListenStep::Send(_)));
    }
    s.toggle("t", Link::Up);
    s.remove("t");
    assert_eq!(s.keys(), ["n"]);
    assert_eq!(s.status_read().unwrap().keys(), ["notes"]);
    let heard = window(WindowChange::New, 4, Some("notes"));
    assert!(matches!(s.listen(&heard, Link::Untried), ListenStep::Connect));
}
