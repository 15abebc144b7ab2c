//! Requests to save the configuration, from the first step to the answer.

use vstd::prelude::*;
use crate::calls::requests;
use crate::laws::World;
use crate::reply::CmdResult;
use crate::save::{SaveEvent, SaveStep};
use crate::store::ScratchpadStore;

verus! {

/// The configuration stands in a directory and a file of its own.
pub proof fn the_configuration_has_its_place()
    ensures
        crate::save::CONFIG_DIR@ == "sway-scratchpads"@,
        crate::save::CONFIG_FILE@ == "config.toml"@,
{
}

/// Whether `event` is what is known once the work of `step` was done in `world`.
pub open spec fn comes_of(world: World, step: SaveStep, event: SaveEvent) -> bool {
    match step {
        SaveStep::Answer(_) => false,
        SaveStep::Encode => event == SaveEvent::Encoded(world.encoded),
        SaveStep::Locate => event == SaveEvent::Located(world.located),
        SaveStep::FindBase => event == SaveEvent::BaseFound(world.base_found),
        SaveStep::FindDir => event == SaveEvent::DirFound(world.dir_found),
        SaveStep::Create => event == SaveEvent::Created(world.created),
        SaveStep::Write => event == SaveEvent::Written(world.written),
    }
}

/// Whether `steps` are the first steps of a request to save, each from the event of the same place.
pub open spec fn is_part_of_run(
    store: ScratchpadStore,
    world: World,
    events: Seq<SaveEvent>,
    steps: Seq<SaveStep>,
) -> bool {
    &&& events.len() == steps.len()
    &&& steps.len() > 0
    &&& events[0] is Begin
    &&& forall|i: int|
        0 <= i < steps.len() ==> call_ensures(
            ScratchpadStore::save,
            (&store, events[i]),
            #[trigger] steps[i],
        )
    &&& forall|i: int|
        0 <= i < steps.len() - 1 ==> comes_of(world, #[trigger] steps[i], events[i + 1])
}

/// Whether `steps` are the steps of a request to save, up to the answer.
pub open spec fn is_run(
    store: ScratchpadStore,
    world: World,
    events: Seq<SaveEvent>,
    steps: Seq<SaveStep>,
) -> bool {
    is_part_of_run(store, world, events, steps) && steps.last() is Answer
}

/// Whether the configuration gets as far as a place to write it to.
pub open spec fn finds_a_place(store: ScratchpadStore, world: World) -> bool {
    store.pads is Some && world.encoded is Ok && world.located && world.base_found
}

/// A request to save is answered with the reason of the first thing that went wrong, and with
/// success where nothing did.
pub open spec fn is_answer(store: ScratchpadStore, world: World, reply: CmdResult) -> bool {
    if store.pads is None {
        requests::is_lost(reply)
    } else if world.encoded is Err {
        reply matches CmdResult::Failed(e) && e@ == world.encoded->Err_0@
    } else if !world.located || !world.base_found {
        reply matches CmdResult::Failed(e) && e@ == "Could not determine config directory."@
    } else if !world.dir_found && world.created is Err {
        reply matches CmdResult::Failed(e) && e@ == "Could not create config directory: "@
            + world.created->Err_0@
    } else if world.written is Err {
        reply matches CmdResult::Failed(e) && e@ == "Could not write config file: "@
            + world.written->Err_0@
    } else {
        reply is Done
    }
}

proof fn lemma_next(
    store: ScratchpadStore,
    world: World,
    events: Seq<SaveEvent>,
    steps: Seq<SaveStep>,
    i: int,
)
    requires
        is_part_of_run(store, world, events, steps),
        0 <= i < steps.len(),
    ensures
        steps[i]@ == store@.saving(events[i]),
        i + 1 < steps.len() ==> comes_of(world, steps[i], events[i + 1]),
{
    if i + 1 < steps.len() {
        assert(comes_of(world, steps[i], events[i + 1]));
    }
}

/// A request to save is answered with the reason of the first thing that went wrong, and with
/// success where nothing did. The file is written, once and last, exactly where everything before
/// went well; and the directory for it is created exactly where it is not there.
pub proof fn to_save_writes_or_says_why_not(
    store: ScratchpadStore,
    world: World,
    events: Seq<SaveEvent>,
    steps: Seq<SaveStep>,
)
    requires
        is_run(store, world, events, steps),
    ensures
        steps.last() matches SaveStep::Answer(reply) && is_answer(store, world, reply),
        forall|i: int|
            0 <= i < steps.len() && (#[trigger] steps[i]) is Write ==> i == steps.len() - 2
                && finds_a_place(store, world) && (world.dir_found || world.created is Ok),
        finds_a_place(store, world) && (world.dir_found || world.created is Ok) ==> steps.len() >= 2
            && steps[steps.len() - 2] is Write,
        forall|i: int|
            0 <= i < steps.len() && (#[trigger] steps[i]) is Create ==> i == 4 && finds_a_place(
                store,
                world,
            ) && !world.dir_found,
        finds_a_place(store, world) && !world.dir_found ==> steps.len() > 4 && steps[4] is Create,
{
    assert(store.pads is None <==> store@.pads is None);
    lemma_next(store, world, events, steps, 0);
    if 1 < steps.len() {
        lemma_next(store, world, events, steps, 1);
        if 2 < steps.len() {
            lemma_next(store, world, events, steps, 2);
            if 3 < steps.len() {
                lemma_next(store, world, events, steps, 3);
                if 4 < steps.len() {
                    lemma_next(store, world, events, steps, 4);
                    if 5 < steps.len() {
                        lemma_next(store, world, events, steps, 5);
                        if 6 < steps.len() {
                            lemma_next(store, world, events, steps, 6);
                        }
                    }
                }
            }
        }
    }
}

/// A request to save is answered at the seventh step, if not before.
pub proof fn to_save_comes_to_an_end(
    store: ScratchpadStore,
    world: World,
    events: Seq<SaveEvent>,
    steps: Seq<SaveStep>,
)
    requires
        is_part_of_run(store, world, events, steps),
    ensures
        steps.len() <= 7,
        steps.len() == 7 ==> steps.last() is Answer,
{
    lemma_next(store, world, events, steps, 0);
    if 6 < steps.len() {
        lemma_next(store, world, events, steps, 1);
        lemma_next(store, world, events, steps, 2);
        lemma_next(store, world, events, steps, 3);
        lemma_next(store, world, events, steps, 4);
        lemma_next(store, world, events, steps, 5);
        lemma_next(store, world, events, steps, 6);
    }
}

} // verus!
