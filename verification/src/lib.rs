//! Webhook authentication, event dispatch and message composition for a
//! chat bot that answers channel-point redemptions.
//!
//! - [`signature`] checks that a callback carries the keyed hash of its id,
//!   timestamp and body.
//! - [`handler`] decides, step by step, what is asked of a callback's
//!   payload and what is answered to the provider.
//! - [`robochick`] composes the chat message: one scenario, one draw of
//!   distinct names, one filled template.
//! - [`types`] and [`config`] hold the payloads, header names and settings;
//!   [`text`] holds helpers on strings.

pub mod text;
pub mod config;
pub mod handler;
pub mod robochick;
pub mod signature;
pub mod types;
