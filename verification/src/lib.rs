//! The core of a full-screen terminal shell for viewing a set of files.
//!
//! - [`resource`]: the registry that holds one value of each kind of state,
//!   found by its type, and the list of open files;
//! - [`cursor`]: the focus state machine;
//! - [`input`]: the text-entry line;
//! - [`event`]: input events, as far as the dispatcher reads them;
//! - [`dispatch`]: the dispatcher, which maps one event to at most one change
//!   of the state in the registry, or to the end of the session;
//! - [`session`]: the terminal session as a state machine that tells its
//!   driver what to do with the terminal, and releases it however it ends;
//! - [`crash`]: what is told of an abnormal end.
//!
//! Nothing here touches a terminal: the program around this library does.

pub mod crash;
pub mod cursor;
pub mod dispatch;
pub mod event;
pub mod input;
pub mod resource;
pub mod session;

use vstd::prelude::*;

verus! {

/// The tick: the longest that a poll waits for an input event, in
/// milliseconds.
pub const DELTA: u64 = 16;

} // verus!
