//! Decision logic of a CAN bus trigger fixture: identifier intake from a
//! serial byte stream, deadline arithmetic on a free-running cycle counter,
//! the wait for one frame identifier, and the sequencer that orders them
//! before a test frame is sent and the trigger output is raised.

pub mod buffer;
pub mod frame;
pub mod hex;
pub mod intake;
pub mod monotimer;
pub mod sequencer;
pub mod waiter;
