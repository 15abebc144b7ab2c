use sway_scratchpads::cli::{conclude, parse, report, Invocation, Request};
use sway_scratchpads::pad::Scratchpad;
use sway_scratchpads::reply::CmdResult;
use sway_scratchpads::save::{SaveEvent, SaveStep};
use sway_scratchpads::store::ScratchpadStore;
use sway_scratchpads::table::Table;

fn line(args: &[&str]) -> Invocation {
    parse(&args.iter().map(|a| a.to_string()).collect())
}

fn add_request(name: &str) -> Request {
    Request::Add(Scratchpad {
        name: name.to_string(),
        id: "id".to_string(),
        program: "prog".to_string(),
        args: vec![],
    })
}

#[test]
fn parse_add() {
    match line(&["-a", "t", "term", "foot", "-e", "sh"]) {
        Invocation::Call(Request::Add(pad)) => {
            assert_eq!(pad.name, "t");
            assert_eq!(pad.id, "term");
            assert_eq!(pad.program, "foot");
            assert_eq!(pad.args, ["-e", "sh"]);
        }
        _ => panic!("not an addition"),
    }
    assert!(matches!(line(&["-a", "t", "term"]), Invocation::Usage));
    assert!(matches!(line(&["-a"]), Invocation::Usage));
    match line(&["-a", "-x", "", "foot"]) {
        Invocation::Call(Request::Add(pad)) => assert!(pad.name == "-x" && pad.args.is_empty()),
        _ => panic!("not an addition"),
    }
}

#[test]
fn parse_the_rest() {
    assert!(matches!(line(&[]), Invocation::Usage));
    assert!(matches!(line(&["-d"]), Invocation::Daemon));
    assert!(matches!(line(&["-d", "x"]), Invocation::Usage));
    assert!(matches!(line(&["-r"]), Invocation::Usage));
    match line(&["-r", "t", "ignored"]) {
        Invocation::Call(Request::Remove(name)) => assert_eq!(name, "t"),
        _ => panic!("not a removal"),
    }
    assert!(matches!(line(&["-s", "ignored"]), Invocation::Call(Request::Save)));
    assert!(matches!(line(&["-h"]), Invocation::Usage));
    assert!(matches!(line(&["t", "u"]), Invocation::Usage));
    for name in ["t", "", "a-b", "über"] {
        match line(&[name]) {
            Invocation::Call(Request::Toggle(toggled)) => assert_eq!(toggled, name),
            _ => panic!("not toggled"),
        }
    }
}

#[test]
fn endings_after_a_refusal() {
    let v = conclude(&add_request("t"), CmdResult::BadInput);
    assert_eq!(v.message.unwrap(), "Scratchpad \"t\" already exists.");
    assert_eq!(v.code, 2);
    let v = conclude(&Request::Remove("a\"b".to_string()), CmdResult::BadInput);
    assert_eq!(v.message.unwrap(), "Scratchpad \"a\\\"b\" was already unconfigured.");
    assert_eq!(v.code, 0);
    let v = conclude(&Request::Toggle("x\ny".to_string()), CmdResult::BadInput);
    assert_eq!(v.message.unwrap(), "Scratchpad \"x\\ny\" is unconfigured.");
    assert_eq!(v.code, 2);
}

#[test]
fn endings_take_the_quoted_name() {
    let v = report(&Request::Toggle("t".to_string()), "<t>", CmdResult::BadInput);
    assert_eq!(v.message.unwrap(), "Scratchpad <t> is unconfigured.");
}

#[test]
fn endings_after_a_failure() {
    for (request, code) in [
        (add_request("t"), 10),
        (Request::Remove("t".to_string()), 10),
        (Request::Save, 10),
        (Request::Toggle("t".to_string()), 2),
    ] {
        let v = conclude(&request, CmdResult::Failed("why".to_string()));
        assert_eq!(v.message.unwrap(), "why");
        assert_eq!(v.code, code);
        let v = conclude(&request, CmdResult::Done);
        assert!(v.message.is_none());
        assert_eq!(v.code, 0);
    }
}

fn answer(step: SaveStep) -> String {
    match step {
        SaveStep::Answer(reply) => reply.to_string(),
        _ => panic!("no answer"),
    }
}

#[test]
fn saving_goes_step_by_step() {
    let store = ScratchpadStore { pads: Some(Table::new()), status: None };
    assert!(matches!(store.save(SaveEvent::Begin), SaveStep::Encode));
    assert!(matches!(store.save(SaveEvent::Encoded(Ok(()))), SaveStep::Locate));
    assert!(matches!(store.save(SaveEvent::Located(true)), SaveStep::FindBase));
    assert!(matches!(store.save(SaveEvent::BaseFound(true)), SaveStep::FindDir));
    assert!(matches!(store.save(SaveEvent::DirFound(true)), SaveStep::Write));
    assert!(matches!(store.save(SaveEvent::DirFound(false)), SaveStep::Create));
    assert!(matches!(store.save(SaveEvent::Created(Ok(()))), SaveStep::Write));
    assert_eq!(answer(store.save(SaveEvent::Written(Ok(())))), "ok");
}

#[test]
fn saving_fails_with_a_reason() {
    let store = ScratchpadStore { pads: Some(Table::new()), status: None };
    let lost = ScratchpadStore { pads: None, status: None };
    let why = || Err("why".to_string());
    assert_eq!(answer(lost.save(SaveEvent::Begin)), "Could not access local data.");
    assert_eq!(answer(store.save(SaveEvent::Encoded(why()))), "why");
    assert_eq!(
        answer(store.save(SaveEvent::Located(false))),
        "Could not determine config directory."
    );
    assert_eq!(
        answer(store.save(SaveEvent::BaseFound(false))),
        "Could not determine config directory."
    );
    assert_eq!(
        answer(store.save(SaveEvent::Created(why()))),
        "Could not create config directory: why"
    );
    assert_eq!(answer(store.save(SaveEvent::Written(why()))), "Could not write config file: why");
}

fn saved(store: &ScratchpadStore, dir: bool, created: bool, written: bool) -> (usize, String) {
    let done = |ok: bool| if ok { Ok(()) } else { Err("full".to_string()) };
    let mut event = SaveEvent::Begin;
    let mut steps = 0;
    loop {
        steps += 1;
        event = match store.save(event) {
            SaveStep::Answer(reply) => return (steps, reply.to_string()),
            SaveStep::Encode => SaveEvent::Encoded(Ok(())),
            SaveStep::Locate => SaveEvent::Located(true),
            SaveStep::FindBase => SaveEvent::BaseFound(true),
            SaveStep::FindDir => SaveEvent::DirFound(dir),
            SaveStep::Create => SaveEvent::Created(done(created)),
            SaveStep::Write => SaveEvent::Written(done(written)),
        };
    }
}

#[test]
fn saving_from_start_to_end() {
    let store = ScratchpadStore { pads: Some(Table::new()), status: None };
    assert_eq!(saved(&store, true, false, true), (6, "ok".to_string()));
    assert_eq!(saved(&store, false, true, true), (7, "ok".to_string()));
    assert_eq!(
        saved(&store, false, false, true),
        (6, "Could not create config directory: full".to_string())
    );
    assert_eq!(
        saved(&store, false, true, false),
        (7, "Could not write config file: full".to_string())
    );
    let lost = ScratchpadStore { pads: None, status: None };
    assert_eq!(saved(&lost, true, true, true), (1, "Could not access local data.".to_string()));
}
