use vstd::prelude::*;

pub mod audit;
pub mod auth;
pub mod auth_service;
pub mod cli;
pub mod config;
pub mod error;
pub mod events;
pub mod invite;
pub mod order;
pub mod permission;
pub mod protocol;
pub mod pty_env;
pub mod queries;
pub mod recording;
pub mod recording_service;
pub mod registration;
pub mod session;
pub mod session_service;
pub mod target;
pub mod target_service;
pub mod virtual_target;
pub mod text;
pub mod throttle;
pub mod user_target_service;

verus! {
} // verus!
