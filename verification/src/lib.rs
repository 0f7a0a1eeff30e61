//! Core of a TCP connection load balancer: round-robin dispatch over a fixed
//! backend list, bounded per-backend dispatch queues, a pool of at most one
//! idle upstream connection per backend, a model of the bidirectional byte
//! relay, and the log book that records one line per completed relay.
//!
//! Sockets never enter this crate: a client or upstream connection is
//! represented by an opaque numeric token, and the surrounding process maps
//! tokens to live sockets. Everything that decides — which backend an
//! accepted connection goes to, which connection a worker uses, what a relay
//! delivers — lives here with a proved contract.

pub mod backend;
pub mod dispatch;
pub mod pool;
pub mod queue;
pub mod relay;
pub mod logbook;
pub mod worker;
pub mod balancer;
