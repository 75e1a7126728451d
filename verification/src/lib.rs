//! A verified core for a voice-assistant webhook service: a tagged JSON
//! envelope is decoded into exactly one event variant, routed to its
//! handler — resolving `function-call` events against a function registry —
//! and the typed response is encoded back into its wire form.
//!
//! Raw bytes enter through [`wire`], become [`json::Json`] values, are
//! decoded by [`decode`], routed by [`dispatch`], and answered through
//! [`encode`].  The capabilities' own logic lives in [`functions`]; the
//! surrounding service's configuration and outbound-call helpers in
//! [`config`], [`inbound`] and [`outbound`].

pub mod config;
pub mod decode;
pub mod dispatch;
pub mod encode;
pub mod functions;
pub mod inbound;
pub mod json;
pub mod outbound;
pub mod vapi;
pub mod wire;
