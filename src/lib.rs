//! Token lifecycle for a mail client that signs in through the OAuth2
//! device-code flow: the cached token record, the decision between using,
//! refreshing or re-acquiring it, and the device-code polling state machine.
//!
//! Everything that waits on the network, the clock's passing or the disk is
//! performed by the caller, which feeds the outcome back into these functions.
pub mod error;
pub mod lifecycle;
pub mod poller;
pub mod provider;
pub mod store;
pub mod token;
