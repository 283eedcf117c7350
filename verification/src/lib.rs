//! Verified core of the Theatre toolkit: the spectator wire protocol, the
//! spatial-session logic, the in-game addon's scene queries and dashcam
//! recorder, and the director's decision logic.

pub mod budget;
pub mod connection_state;
pub mod text;
pub mod handshake;
pub mod query_dispatch;
pub mod static_classes;
pub mod cluster;
pub mod config;
pub mod dashcam;
pub mod process;
pub mod ports;
pub mod backend;
pub mod daemon;
pub mod cli;
pub mod unicode;
pub mod diagnostics;
pub mod codec;
pub mod editor_run;
pub mod defaults;
pub mod resolve;
pub mod addon_server;
pub mod json;
pub mod recordings;
pub mod oneshot;
pub mod tool_params;
pub mod responses;
pub mod scene_types;
pub mod query;
pub mod recording_queries;
pub mod scene_tree;
pub mod delta;
