//! Verified core of a plugin that throws items at an overlay.
//!
//! A button of the host triggers the throw of an item, and a configuration
//! panel browses the items that can be thrown. Items and sounds live behind
//! a companion service on the same machine; the plugin keeps the port of
//! that service and the panel that is open, and nothing else.
//!
//! The library decides; its caller performs. Documents arrive as
//! [`json::Json`] values, HTTP exchanges leave as [`request::Request`] values
//! and come back as [`request::Reply`] values, and every decision in between
//! carries a contract:
//!
//! - [`json`] holds documents and the readers that shapes are decoded with;
//! - [`ident`] reads and writes identifiers, the one place where the `uuid`
//!   crate is called;
//! - [`models`] and [`messages`] hold the shapes of the wire, each with the
//!   document that stands for it;
//! - [`action`] resolves the click on a tile;
//! - [`state`] holds the configuration and builds the four requests;
//! - [`pipeline`] runs a throw, step by step;
//! - [`plugin`] answers the callbacks of the host.

pub mod action;
pub mod error;
pub mod ident;
pub mod json;
pub mod messages;
pub mod models;
pub mod pipeline;
pub mod plugin;
pub mod request;
pub mod state;
