use sway_scratchpads::pad::Status;
use sway_scratchpads::reply::CmdResult;
use sway_scratchpads::sway::{hide_window, show};
use sway_scratchpads::table::Table;
use sway_scratchpads::text::{base_name, begins_with_dash, decimal_text, same_text};
use sway_scratchpads::usage::usage;

#[test]
fn decimals() {
    for n in [0, 7, 10, 105, -1, -90, i64::MAX, i64::MIN] {
        assert_eq!(decimal_text(n), n.to_string());
    }
    assert_eq!(decimal_text(i64::MIN), "-9223372036854775808");
}

#[test]
fn commands_for_a_window() {
    assert_eq!(hide_window(42), "[con_id=42] move to scratchpad");
    assert_eq!(
        show(3),
        [
            "[con_id=3] scratchpad show;",
            "[con_id=3] move to workspace current; [con_id=3] floating enable; [con_id=3] resize set width 80ppt; [con_id=3] resize set height 80ppt; [con_id=3] move position center",
        ]
    );
}

#[test]
fn commands_for_two_windows_differ() {
    assert_ne!(hide_window(1), hide_window(11));
    assert_ne!(hide_window(1), hide_window(-1));
}

#[test]
fn the_last_component_of_a_path() {
    for path in ["pads", "/usr/bin/pads", "./pads", "bin/", "/", "", "a//b", "wörld/pädß"] {
        assert_eq!(base_name(path), path.split('/').last().unwrap());
    }
}

#[test]
fn comparing_text() {
    assert!(same_text("", ""));
    assert!(same_text("ä", "ä"));
    assert!(!same_text("ok", "ok "));
    assert!(begins_with_dash("-x"));
    assert!(!begins_with_dash("x-"));
    assert!(!begins_with_dash(""));
}

#[test]
fn replies_on_the_bus() {
    assert_eq!(CmdResult::Done.to_string(), "ok");
    assert_eq!(CmdResult::BadInput.to_string(), "bad_input");
    assert_eq!(CmdResult::Failed("why".to_string()).to_string(), "why");
    assert_eq!(CmdResult::local_data_err().to_string(), "Could not access local data.");
    assert!(matches!(CmdResult::from("ok".to_string()), CmdResult::Done));
    assert!(matches!(CmdResult::from("bad_input".to_string()), CmdResult::BadInput));
    assert!(matches!(CmdResult::from("OK".to_string()), CmdResult::Failed(_)));
}

#[test]
fn every_text_is_a_reply_and_comes_back() {
    for text in ["ok", "bad_input", "", "ok ", "some failure"] {
        assert_eq!(CmdResult::from(text.to_string()).to_string(), text);
    }
    // A reason that reads like a reply comes off the bus as that reply.
    assert!(matches!(
        CmdResult::from(CmdResult::Failed("ok".to_string()).to_string()),
        CmdResult::Done
    ));
}

#[test]
fn a_table_keeps_one_value_under_a_name() {
    let mut table: Table<Status> = Table::new();
    assert!(table.is_empty());
    table.insert("a".to_string(), Status::new());
    table.insert("b".to_string(), Status::new());
    let mut hidden = Status::new();
    hidden.showing = false;
    table.insert("a".to_string(), hidden);
    let mut keys = table.keys();
    keys.sort();
    assert_eq!(keys, ["a", "b"]);
    assert!(!table.get("a").unwrap().showing);
    assert!(table.get("b").unwrap().showing);
    assert!(table.get("c").is_none());
    assert!(!table.remove("a").unwrap().showing);
    assert!(table.remove("a").is_none());
    assert!(!table.contains_key("a"));
    assert!(table.contains_key("b"));
    assert!(!table.is_empty());
}

#[test]
fn usage_with_apps() {
    assert_eq!(
        usage("/usr/bin/pads", Some(vec!["term".to_string(), "notes".to_string()])),
        "Usage:\n  Toggle a scratchpad app: \x1b[35mpads <app>\x1b[0m\n    Currently configured apps are:\n      * term\n      * notes\n  Launch the scratchpad daemon: \x1b[35mpads -d\x1b[0m\n  Configure a new scratchpad app: \x1b[35mpads -a <name> <id> <cmd> <args..>\x1b[0m\n  Remove an app from the configuration: \x1b[35mpads -r <name>\x1b[0m\n  Save current configurations: \x1b[35mpads -s\x1b[0m\n"
    );
}

#[test]
fn usage_without_apps() {
    let bare = usage("pads", None);
    assert_eq!(
        bare,
        "Usage:\n  Toggle a scratchpad app: \x1b[35mpads <app>\x1b[0m\n  Launch the scratchpad daemon: \x1b[35mpads -d\x1b[0m\n  Configure a new scratchpad app: \x1b[35mpads -a <name> <id> <cmd> <args..>\x1b[0m\n  Remove an app from the configuration: \x1b[35mpads -r <name>\x1b[0m\n  Save current configurations: \x1b[35mpads -s\x1b[0m\n"
    );
    assert_eq!(usage("pads", Some(vec![])), bare);
}
