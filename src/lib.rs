//! Live player presence for the Wurstmineberg game servers, and starting the
//! game through whichever launcher is installed: the decisions of a tray
//! tool's background poller and launcher, with their contracts.

pub mod bridge;
pub mod config;
pub mod keyed;
pub mod launch;
pub mod launcher;
pub mod menu;
pub mod people;
pub mod poller;
pub mod profile_text;
pub mod state;
pub mod text;
