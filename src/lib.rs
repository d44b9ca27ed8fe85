//! Session layer of a two-player networked Pong: slot assignment, liveness
//! probing, input relay, state replication and join credentials.

pub mod lobby;
pub mod liveness;
pub mod messages;
pub mod game;
pub mod session;
pub mod replica;
pub mod channels;
pub mod credential;
