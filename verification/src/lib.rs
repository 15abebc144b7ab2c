//! The rules of a scratchpad manager for the sway compositor: which windows belong to which
//! scratchpad, when they are shown and hidden, and what is answered to whom.
//!
//! Nothing here does input or output. A request or an event goes in, and what comes out says what
//! to do: to send commands to sway, to start a program, to write a file, to answer.

pub mod calls;
pub mod cli;
pub mod laws;
pub mod listen;
pub mod pad;
pub mod reply;
pub mod save;
pub mod store;
pub mod sway;
pub mod table;
pub mod text;
pub mod toggle;
pub mod tree;
pub mod usage;
