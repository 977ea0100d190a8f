//! An ephemeral redirection store with verified registration, lookup,
//! expiry and response-forwarding rules.
//!
//! A target URL is registered under a random identifier for a bounded
//! time to live. Until its deadline passes the identifier resolves to the
//! target; afterwards it is indistinguishable from one that was never
//! issued. The crate holds the decisions only: the HTTP server, the
//! outbound client and the clock belong to the embedding program, which
//! hands in plain values and acts on what it gets back.

pub mod auth;
pub mod dummy_sentry;
pub mod errors;
pub mod proxy;
