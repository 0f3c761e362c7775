//! Verified core of a browser-wallet sign-up flow.
//!
//! The library covers everything that can be decided without touching the
//! browser: turning wallet responses into connect/balance outcomes, parsing a
//! hex-encoded wei amount, formatting it as an ETH decimal string with four
//! fractional digits, and updating the UI state that the page renders.
//! The JavaScript interop that produces those responses lives outside the
//! library and hands in plain values.

pub mod balance;
pub mod errors;
pub mod flow;
pub mod hex;
pub mod ui;
