//! One keyboard and mouse for the devices of a workspace: the server's three
//! actors, the facade in front of them, and the windowed file transfer that
//! the devices run.

pub mod actor;
pub mod auth;
pub mod device_display;
pub mod device_map;
pub mod download;
pub mod download_manager;
pub mod events;
pub mod messages;
pub mod name_map;
pub mod names;
pub mod options;
pub mod simulate;
pub mod simulator;
pub mod sink;
pub mod translation;
pub mod upload;
pub mod workspace;
pub mod workspace_server;

pub use messages::UserInputEvent;
pub use options::Options;
