//! Event classification and consensus tracking for a distributed-ledger
//! pool client: classify raw node payloads into typed messages, resolve
//! the trust strategy of each outbound request, translate both into
//! uniform request events, tally replies per request id under the quorum
//! rule, and drive the pool lifecycle state machine.

pub mod errors;
pub mod events;
pub mod messages;
pub mod pool;
pub mod resolver;
pub mod text;
pub mod tracker;
pub mod wire;
