use vstd::prelude::*;
use crate::lobby::PlayerSide;

verus! {

/// Reliable, ordered channel: inputs, notices and slot assignment.
pub const RELIABLE_CHANNEL: u8 = 0;
/// Unreliable, sequenced channel: game snapshots.
pub const SNAPSHOT_CHANNEL: u8 = 1;
/// Reliable, ordered channel kept for liveness probes and their answers.
pub const PROBE_CHANNEL: u8 = 2;

/// Messages the server sends to a player.
#[derive(Debug, Clone, Copy, PartialEq, Eq, Structural)]
pub enum ServerMessages {
    PlayerConnected { id: u64 },
    PlayerDisconnected { id: u64 },
    /// Tells a newly admitted player which slot it was given.
    PlayerIsSide { side: PlayerSide },
    /// Asks every player to confirm it is still there.
    PlayerCheck,
}

impl ServerMessages {
    pub open spec fn channel_spec(&self) -> u8 {
        match self {
            ServerMessages::PlayerCheck => PROBE_CHANNEL,
            _ => RELIABLE_CHANNEL,
        }
    }

    /// The channel this message travels on.
    pub fn channel(&self) -> (r: u8)
        ensures
            r == self.channel_spec(),
    {
        match self {
            ServerMessages::PlayerCheck => PROBE_CHANNEL,
            _ => RELIABLE_CHANNEL,
        }
    }
}

/// Messages a player sends to the server.
#[derive(Debug, Clone, Copy, PartialEq, Eq, Structural)]
pub enum ClientMessages {
    /// Answer to a liveness probe, naming the sender's own id.
    PlayerCheckResponse { id: u64 },
    AuthenticationRequest { id: u64 },
}

impl ClientMessages {
    /// The channel this message travels on.
    pub fn channel(&self) -> (r: u8)
        ensures
            r == PROBE_CHANNEL,
    {
        PROBE_CHANNEL
    }
}

/// The keys a player holds down during one tick.
#[derive(Debug, Default, Clone, Copy, PartialEq, Eq, Structural)]
pub struct PlayerInput {
    pub up: bool,
    pub down: bool,
    pub left: bool,
    pub right: bool,
}

impl PlayerInput {
    /// Vertical direction of travel: 1 up, -1 down, 0 when both or neither.
    pub fn vertical(&self) -> (r: i8)
        ensures
            r as int == (if self.up { 1int } else { 0 }) - (if self.down { 1int } else { 0 }),
    {
        let u: i8 = if self.up { 1 } else { 0 };
        let d: i8 = if self.down { 1 } else { 0 };
        u - d
    }
}

/// A two-component vector carried as the bit patterns of its components, so
/// that the session layer moves it around without touching its value.
#[derive(Debug, Default, Clone, Copy, PartialEq, Eq, Structural)]
pub struct PackedVec2 {
    pub x_bits: u32,
    pub y_bits: u32,
}

/// Every part of the game that changes over time: what the server sends and
/// the client overwrites its own state with.
#[derive(Debug, Default, Clone, Copy, PartialEq, Eq, Structural)]
pub struct GameState {
    pub ball_loc: PackedVec2,
    pub ball_velocity: PackedVec2,
    pub paddle_l_loc: PackedVec2,
    pub paddle_r_loc: PackedVec2,
    pub score_l: i32,
    pub score_r: i32,
    pub playing: bool,
}

/// The last of the messages drained in one tick, if any came: later ones
/// supersede earlier ones.
pub fn latest<T: Copy>(received: &Vec<T>) -> (r: Option<T>)
    ensures
        r == (if received@.len() == 0 { None::<T> } else { Some(received@.last()) }),
{
    if received.len() == 0 {
        None
    } else {
        Some(received[received.len() - 1])
    }
}

} // verus!
