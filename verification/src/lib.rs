//! Configuration, window, tray, badge and presence logic of the rsStoat
//! desktop client, with its contracts.
pub mod badge;
pub mod commands;
pub mod config;
pub mod launch;
pub mod laws;
pub mod presence;
pub mod text;
pub mod tray;
pub mod window;
