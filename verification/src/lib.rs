//! Watches the X-style clipboard selection for ownership changes and, on each
//! change, drives the conversion handshake that retrieves the new contents as
//! UTF-8 text.
//!
//! The verified core is the handshake state machine: it decides, from the
//! current phase and the next observation (a wire event, an owner-query
//! result, a property descriptor), what the next phase is and which protocol
//! action the driver must perform. The blocking I/O itself — waiting on the
//! event stream, issuing requests — is performed by an unverified driver that
//! feeds its observations back into the machine.

pub mod atoms;
pub mod error;
pub mod handshake;
pub mod text;
