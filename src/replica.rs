use vstd::prelude::*;
use crate::messages::{latest, ClientMessages, GameState, ServerMessages};

verus! {

/// A client's copy of the game's changing state, replaced whole by each
/// snapshot from the server.
#[derive(Debug, Clone, Copy, PartialEq, Eq, Structural)]
pub struct ClientReplica {
    pub state: GameState,
}

/// The replica after `s` is applied to `r`: the snapshot, whatever `r` held.
pub open spec fn applied(r: ClientReplica, s: GameState) -> ClientReplica {
    ClientReplica { state: s }
}

impl ClientReplica {
    /// A replica holding `initial`.
    pub fn new(initial: GameState) -> (r: ClientReplica)
        ensures
            r.state == initial,
    {
        ClientReplica { state: initial }
    }

    /// Overwrites every part of the local state with `snapshot`.
    pub fn apply_snapshot(&mut self, snapshot: &GameState)
        ensures
            *final(self) == applied(*old(self), *snapshot),
    {
        self.state = *snapshot;
    }

    /// Applies the newest of the snapshots drained in one frame, if any came;
    /// the answer says whether one did.
    pub fn apply_latest(&mut self, received: &Vec<GameState>) -> (r: bool)
        ensures
            r == (received@.len() > 0),
            r ==> *final(self) == applied(*old(self), received@.last()),
            !r ==> *final(self) == *old(self),
    {
        match latest(received) {
            Some(s) => {
                self.apply_snapshot(&s);
                true
            },
            None => false,
        }
    }
}

/// Applying the same snapshot twice in a row leaves the replica as applying
/// it once does.
pub proof fn lemma_apply_idempotent(r: ClientReplica, s: GameState)
    ensures
        applied(applied(r, s), s) == applied(r, s),
{
}

/// The client's answer to a server message: a liveness probe is answered
/// with the client's own id; notices need no answer.
pub fn respond_to(message: &ServerMessages, own_id: u64) -> (r: Option<ClientMessages>)
    ensures
        r == (match *message {
            ServerMessages::PlayerCheck => Some(ClientMessages::PlayerCheckResponse { id: own_id }),
            _ => None::<ClientMessages>,
        }),
{
    match message {
        ServerMessages::PlayerCheck => Some(ClientMessages::PlayerCheckResponse { id: own_id }),
        _ => None,
    }
}

} // verus!
