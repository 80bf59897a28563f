//! Invocation layer of a sample-ripping command-line tool: choosing and preparing the
//! output directory, choosing the run mode, and the host-dependent touches around them.

pub mod destination;
pub mod dispatch;
pub mod platform;
