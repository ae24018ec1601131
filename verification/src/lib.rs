//! Verified core of a command-line client for the Torizon Cloud API.

pub mod text;
pub mod json;
pub mod output;
pub mod strmap;
pub mod config;
pub mod auth;
pub mod client;
pub mod commands;
