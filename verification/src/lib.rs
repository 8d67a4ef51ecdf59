//! Interactive access-control prompts for paths under a user's home
//! directory.
//!
//! A confined application asks for a path that no rule covers. The mediator
//! holds the access and hands the request to the [`engine`]. The engine
//! offers the user a list of path patterns, from the requested path itself
//! to the whole home directory ([`resolver`]), and keeps the prompt until it
//! is answered ([`store`]). The user's reply becomes a decision for the
//! mediator and a rule for the rule store ([`rule`]).
//!
//! Everything here works on values in memory. Reading requests from the
//! network, waiting for the user, enforcing decisions and keeping rules are
//! left to the callers; [`app_armor_prompting_server`] and [`routing`] are
//! what a transport needs to serve the four operations of the protocol.

pub mod app_armor_prompting_server;
pub mod engine;
pub mod engine_proofs;
pub mod enums;
pub mod error;
pub mod get_current_prompt_response;
pub mod glob;
pub mod home_prompt;
pub mod messages;
pub mod paths;
pub mod permissions;
pub mod prompt_reply;
pub mod prompt_reply_response;
pub mod resolver;
pub mod resolver_proofs;
pub mod routing;
pub mod rule;
pub mod store;
pub mod text;
