//! Decision logic of a replay render-and-upload pipeline.
//!
//! Everything that touches the network, the disk or a process is done by
//! the caller. The library parses what the renderer writes, chooses among
//! files, and drives each component as a state machine that answers what
//! the caller observed with what to do next.

pub mod click;
pub mod coordinator;
pub mod discord;
pub mod embeds;
pub mod feed;
pub mod http;
pub mod locator;
pub mod logtail;
pub mod markers;
pub mod materialize;
pub mod message;
pub mod mirror;
pub mod paths;
pub mod progress;
pub mod skin;
pub mod supervisor;
pub mod text;
pub mod upload;
