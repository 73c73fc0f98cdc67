//! Terminal credential manager: sign-up and login against a persisted user
//! database, the line editor and menu that drive them, and the two small
//! games that ship alongside.

pub mod auth;
pub mod board;
pub mod cards;
pub mod config;
pub mod flows;
pub mod hasher;
pub mod journal;
pub mod line_reader;
pub mod menu;
pub mod profile;
pub mod store;
pub mod text;
