//! Nonce management and the transfer submission state machine for a service
//! that sends one signed token transfer per scheduled attempt and keeps its
//! nonce knowledge in process memory only.
pub mod intent;
pub mod laws;
pub mod nonce;
pub mod pipeline;
