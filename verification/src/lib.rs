//! A client library for an Accentor music server: the records the server
//! hands out, the SQL that mirrors them into a local database, the sync and
//! playback state machines of the daemon, and the text the command line shows.

pub mod api;
pub mod communication;
pub mod daemon;
pub mod display;
pub mod db;
pub mod paths;
pub mod playback;
pub mod sync;
pub mod text;
