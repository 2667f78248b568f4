//! GameVault: cataloguing of locally installed games, with metadata matched
//! against a remote store catalogue and kept in step between the database and
//! a JSON sidecar file in each game folder.
pub mod config;
pub mod embedded;
pub mod enrich;
pub mod handlers;
pub mod local_storage;
pub mod models;
pub mod scanner;
pub mod steam;
pub mod text;
pub mod tray;
