//! The logic of the Sapphire launcher: what it decides, asks for and shows.
pub mod app;
pub mod ask;
pub mod config;
pub mod host;
pub mod icon;
pub mod install;
pub mod job;
pub mod launch;
pub mod laws;
pub mod locate;
pub mod message;
pub mod output;
pub mod parts;
pub mod scan;
pub mod service;
pub mod setup;
pub mod stream;
pub mod text;
pub mod troubleshoot;
pub mod turn;
pub mod update;
pub mod upkeep;
pub mod view;
