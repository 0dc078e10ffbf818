//! ratatube: the verified core of a terminal YouTube Music player that runs
//! as a daemon with attached terminal clients.
//!
//! The library holds the player's own logic: the media and queue model, the
//! client's mirror of the daemon's state and the wire vocabulary, client
//! action routing and the daemon's handling of client commands, action
//! admission against owned background operations, keyboard and mouse
//! routing, playlist refresh, import and editing rules, channel paging, the
//! shared track table's layout, and the rules of the control socket, child
//! processes, sessions and documents on disk.

pub mod actions;
pub mod attached;
pub mod channel;
pub mod child;
pub mod client_route;
pub mod daemon;
pub mod dispatch;
pub mod external;
pub mod followup;
pub mod input;
pub mod json_import;
pub mod keymap;
pub mod layout;
pub mod media;
pub mod mirror;
pub mod mouse;
pub mod operations;
pub mod paths;
pub mod player;
pub mod playlists;
pub mod queue;
pub mod refresh;
pub mod schema;
pub mod server;
pub mod session;
pub mod state;
pub mod text;
pub mod thumbnail;
pub mod track_table;
pub mod wire;
