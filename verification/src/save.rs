//! Saving the configuration.

use vstd::prelude::*;
use vstd::string::*;
use crate::reply::{CmdResult, Reply};
use crate::store::{ScratchpadStore, Store};

verus! {

/// The directory of the configuration, in the user's directory for configurations.
pub const CONFIG_DIR: &'static str = "sway-scratchpads";

/// The file of the configuration, in [`CONFIG_DIR`].
pub const CONFIG_FILE: &'static str = "config.toml";

/// What is known of a configuration that is being saved.
pub enum SaveEvent {
    /// The request was made.
    Begin,
    /// The scratchpads were turned into text, or not, for the reason given.
    Encoded(Result<(), String>),
    /// Whether the user has a directory for configurations.
    Located(bool),
    /// Whether that directory exists.
    BaseFound(bool),
    /// Whether [`CONFIG_DIR`] exists in it.
    DirFound(bool),
    /// [`CONFIG_DIR`] was created, or not, for the reason given.
    Created(Result<(), String>),
    /// The file was written, or not, for the reason given.
    Written(Result<(), String>),
}

/// What a request to save comes to.
pub enum SaveStep {
    /// The answer.
    Answer(CmdResult),
    /// To turn the scratchpads into text.
    Encode,
    /// To find the user's directory for configurations.
    Locate,
    /// To see whether that directory exists.
    FindBase,
    /// To see whether [`CONFIG_DIR`] exists in it.
    FindDir,
    /// To create [`CONFIG_DIR`].
    Create,
    /// To write the text to [`CONFIG_FILE`].
    Write,
}

/// What a [`SaveStep`] holds.
pub enum SaveWork {
    Answer(Reply),
    Encode,
    Locate,
    FindBase,
    FindDir,
    Create,
    Write,
}

impl View for SaveStep {
    type V = SaveWork;

    open spec fn view(&self) -> SaveWork {
        match self {
            SaveStep::Answer(reply) => SaveWork::Answer(reply@),
            SaveStep::Encode => SaveWork::Encode,
            SaveStep::Locate => SaveWork::Locate,
            SaveStep::FindBase => SaveWork::FindBase,
            SaveStep::FindDir => SaveWork::FindDir,
            SaveStep::Create => SaveWork::Create,
            SaveStep::Write => SaveWork::Write,
        }
    }
}

/// The answer when there is no directory for configurations.
pub open spec fn no_config_dir() -> Reply {
    Reply::Failed("Could not determine config directory."@)
}

impl Store {
    /// What comes of a request to save.
    pub open spec fn saving(self, event: SaveEvent) -> SaveWork {
        match event {
            SaveEvent::Begin => if self.pads is Some {
                SaveWork::Encode
            } else {
                SaveWork::Answer(Reply::local_data())
            },
            SaveEvent::Encoded(Ok(_)) => SaveWork::Locate,
            SaveEvent::Encoded(Err(e)) => SaveWork::Answer(Reply::Failed(e@)),
            SaveEvent::Located(true) => SaveWork::FindBase,
            SaveEvent::Located(false) => SaveWork::Answer(no_config_dir()),
            SaveEvent::BaseFound(true) => SaveWork::FindDir,
            SaveEvent::BaseFound(false) => SaveWork::Answer(no_config_dir()),
            SaveEvent::DirFound(true) => SaveWork::Write,
            SaveEvent::DirFound(false) => SaveWork::Create,
            SaveEvent::Created(Ok(_)) => SaveWork::Write,
            SaveEvent::Created(Err(e)) => SaveWork::Answer(
                Reply::Failed("Could not create config directory: "@ + e@),
            ),
            SaveEvent::Written(Ok(_)) => SaveWork::Answer(Reply::Done),
            SaveEvent::Written(Err(e)) => SaveWork::Answer(
                Reply::Failed("Could not write config file: "@ + e@),
            ),
        }
    }
}

fn no_config_dir_err() -> (r: CmdResult)
    ensures
        r@ == no_config_dir(),
{
    CmdResult::Failed("Could not determine config directory.".to_owned())
}

impl ScratchpadStore {
    /// Takes a request to save one step further.
    pub fn save(&self, event: SaveEvent) -> (r: SaveStep)
        ensures
            r@ == self@.saving(event),
    {
        match event {
            SaveEvent::Begin => if self.pads_read().is_some() {
                SaveStep::Encode
            } else {
                SaveStep::Answer(CmdResult::local_data_err())
            },
            SaveEvent::Encoded(Ok(_)) => SaveStep::Locate,
            SaveEvent::Encoded(Err(e)) => SaveStep::Answer(CmdResult::Failed(e)),
            SaveEvent::Located(found) => if found {
                SaveStep::FindBase
            } else {
                SaveStep::Answer(no_config_dir_err())
            },
            SaveEvent::BaseFound(found) => if found {
                SaveStep::FindDir
            } else {
                SaveStep::Answer(no_config_dir_err())
            },
            SaveEvent::DirFound(found) => if found {
                SaveStep::Write
            } else {
                SaveStep::Create
            },
            SaveEvent::Created(Ok(_)) => SaveStep::Write,
            SaveEvent::Created(Err(e)) => SaveStep::Answer(
                CmdResult::Failed(
                    "Could not create config directory: ".to_owned().concat(e.as_str()),
                ),
            ),
            SaveEvent::Written(Ok(_)) => SaveStep::Answer(CmdResult::Done),
            SaveEvent::Written(Err(e)) => SaveStep::Answer(
                CmdResult::Failed("Could not write config file: ".to_owned().concat(e.as_str())),
            ),
        }
    }
}

} // verus!
