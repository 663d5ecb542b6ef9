//! Session authentication and launch gating for the Exalt game client.
//!
//! The library holds the decisions of a launcher: how a login request is
//! shaped, how the gateway's replies become an account or a typed error, how a
//! verified session comes into being, which parameters every request carries,
//! and whether the installed build may be launched. It performs no I/O: the
//! caller sends each [`gateway::Request`] and hands back the [`gateway::Reply`].

pub mod text;
pub mod model;
pub mod error;
pub mod record;
pub mod credentials;
pub mod account;
pub mod config;
pub mod gateway;
pub mod gate;
pub mod login;
pub mod launcher;
