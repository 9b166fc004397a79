//! Sprint-scoped task listing and creation against a Jira-style REST API.
//!
//! The library is written as a protocol machine: it decides what is to be
//! done and reads what came back, and leaves the sending of requests, the
//! prompts and the config file to its caller. `session` holds the machine,
//! `protocol` what it exchanges with the caller, and `retry` what holds of
//! whole runs of it. The other modules are what the machine is built
//! from: `auth` and `endpoints` for what goes into a request, `json`,
//! `wire` and `sprint` for what comes out of a reply, `issue` and `create`
//! for the two commands, `config`, `status` and `text` for the rest.

pub mod auth;
pub mod config;
pub mod create;
pub mod endpoints;
pub mod issue;
pub mod json;
pub mod protocol;
pub mod retry;
pub mod session;
pub mod sprint;
pub mod status;
pub mod text;
pub mod wire;
