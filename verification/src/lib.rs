//! The decision core of a desktop front end for the `rss2cloud` command-line
//! tool.
//!
//! A front end serves a request in three moves: it works out which process to
//! start or which file to touch, it performs that step, and it turns what came
//! back into the answer for the user interface. The first and the last move
//! are pure and live here; the step in between belongs to the host program.

pub mod config;
pub mod invocation;
pub mod records;
pub mod reply;
pub mod text;
