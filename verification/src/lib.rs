//! The logic of a KuCoin websocket client: subscription requests, the routing
//! of incoming messages, the bookkeeping of open streams, the heartbeat and
//! the assembly of socket endpoints.
//!
//! The caller connects, sends, polls, sleeps and posts. The functions here say
//! what to do next, and what came of it, and state that in their contracts;
//! [`laws`] states what follows for the library as a whole.
pub mod client;
pub mod clock;
pub mod error;
pub mod heartbeat;
pub mod json;
pub mod laws;
pub mod request_laws;
pub mod routing_laws;
pub mod message;
pub mod streams;
pub mod subscription;
pub mod text;
pub mod topic;
pub mod topic_map;
pub mod websocket;
