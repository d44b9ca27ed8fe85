use vstd::prelude::*;
use crate::game::{Playing, Scoreboard};
use crate::liveness::{window_deadline, LivenessCycle, LivenessPhase};
use crate::lobby::{opposite, Lobby, PlayerSide};
use crate::messages::{latest, ClientMessages, PlayerInput, ServerMessages};

verus! {

/// What the tick loop must do on the transport after a session decision.
#[derive(Debug, Clone, Copy, PartialEq, Eq, Structural)]
pub enum Command {
    /// Send `message` to one client, on the message's channel.
    Send { to: u64, message: ServerMessages },
    /// Send `message` to every connected client, on the message's channel.
    Broadcast { message: ServerMessages },
    /// Drop the client's connection.
    Disconnect { id: u64 },
}

/// The notices a newly seated client `id` receives, and the one its peers
/// receive: one connect notice per peer already seated, its own slot, then
/// its own connect notice to everyone.
pub open spec fn welcome(peers: Seq<u64>, id: u64, side: PlayerSide) -> Seq<Command> {
    peers.map_values(
        |p: u64| Command::Send { to: id, message: ServerMessages::PlayerConnected { id: p } },
    ) + seq![
        Command::Send { to: id, message: ServerMessages::PlayerIsSide { side } },
        Command::Broadcast { message: ServerMessages::PlayerConnected { id } },
    ]
}

/// The commands that evict `id`.
pub open spec fn eviction(id: u64) -> Seq<Command> {
    seq![
        Command::Disconnect { id },
        Command::Broadcast { message: ServerMessages::PlayerDisconnected { id } },
    ]
}

/// The eviction of a slot's occupant when it did not answer.
pub open spec fn slot_eviction(occupant: Option<u64>, answered: Set<u64>) -> Seq<Command> {
    match occupant {
        Some(x) => if answered.contains(x) {
            Seq::<Command>::empty()
        } else {
            eviction(x)
        },
        None => Seq::<Command>::empty(),
    }
}

/// The seated clients that did not answer.
pub open spec fn unconfirmed(l: Lobby, answered: Set<u64>) -> Set<u64> {
    l@.dom().filter(|x: u64| !answered.contains(x))
}

/// Session state owned by the server's tick loop: who holds which slot, the
/// liveness cycle, and whether a reset of the arena is owed.
pub struct ServerSession {
    pub lobby: Lobby,
    pub liveness: LivenessCycle,
    /// Raised when the second slot fills; taken once by the reset phase.
    pub reset_due: bool,
}

impl ServerSession {
    pub open spec fn wf(&self) -> bool {
        &&& self.lobby.wf()
        &&& self.liveness.wf()
        &&& self.reset_due ==> self.lobby@.len() == 2
    }

    /// A session with nobody seated and an idle liveness cycle.
    pub fn new() -> (r: ServerSession)
        ensures
            r.wf(),
            r.lobby@ == Map::<u64, PlayerSide>::empty(),
            r.lobby.id_seq() == Seq::<u64>::empty(),
            r.lobby.left is None && r.lobby.right is None,
            r.liveness.phase == LivenessPhase::Idle,
            r.liveness.responders() == Set::<u64>::empty(),
            !r.reset_due,
    {
        ServerSession { lobby: Lobby::new(), liveness: LivenessCycle::new(), reset_due: false }
    }

    /// The transport admitted client `id`.
    ///
    /// It takes the first free slot and is told who is already seated and
    /// which slot it got; everyone hears that it connected. When that fills
    /// the second slot a reset becomes due. With no slot free it is
    /// disconnected. A client already seated changes nothing.
    pub fn on_client_connected(&mut self, id: u64) -> (r: Vec<Command>)
        requires
            old(self).wf(),
        ensures
            final(self).wf(),
            final(self).liveness == old(self).liveness,
            old(self).lobby@.contains_key(id) ==> r@ == Seq::<Command>::empty() && *final(self)
                == *old(self),
            !old(self).lobby@.contains_key(id) && old(self).lobby.free_slot_spec() is None ==> r@
                == seq![Command::Disconnect { id }] && *final(self) == *old(self),
            !old(self).lobby@.contains_key(id) && old(self).lobby.free_slot_spec() is Some ==> {
                let side = old(self).lobby.free_slot_spec()->0;
                &&& final(self).lobby@ == old(self).lobby@.insert(id, side)
                &&& final(self).lobby.occupant(side) == Some(id)
                &&& final(self).lobby.occupant(opposite(side)) == old(self).lobby.occupant(opposite(side))
                &&& r@ == welcome(old(self).lobby.id_seq(), id, side)
                &&& final(self).reset_due == (old(self).reset_due || final(self).lobby@.len() == 2)
            },
    {
        if self.lobby.side_of(id).is_some() {
            return Vec::new();
        }
        let peers = self.lobby.ids();
        let ghost before = *self;
        match self.lobby.assign(id) {
            None => {
                let mut r: Vec<Command> = Vec::new();
                r.push(Command::Disconnect { id });
                proof {
                    assert(r@ =~= seq![Command::Disconnect { id }]);
                }
                r
            },
            Some(side) => {
                let mut r: Vec<Command> = Vec::new();
                let mut i: usize = 0;
                while i < peers.len()
                    invariant
                        i <= peers@.len(),
                        r@ =~= peers@.take(i as int).map_values(
                            |p: u64|
                                Command::Send {
                                    to: id,
                                    message: ServerMessages::PlayerConnected { id: p },
                                },
                        ),
                    decreases peers@.len() - i,
                {
                    r.push(Command::Send { to: id, message: ServerMessages::PlayerConnected { id: peers[i] } });
                    i = i + 1;
                    proof {
                        assert(peers@.take(i as int) =~= peers@.take(i - 1).push(peers@[i - 1]));
                    }
                }
                proof {
                    assert(peers@.take(i as int) =~= peers@);
                }
                r.push(Command::Send { to: id, message: ServerMessages::PlayerIsSide { side } });
                r.push(Command::Broadcast { message: ServerMessages::PlayerConnected { id } });
                if self.lobby.len() == 2 {
                    self.reset_due = true;
                }
                proof {
                    assert(r@ =~= welcome(before.lobby.id_seq(), id, side));
                }
                r
            },
        }
    }

    /// Frees the slot of `id`. When at most one client stays seated, play
    /// stops, the score goes back to zero and no reset is owed any more.
    /// The answer says whether `id` was seated.
    fn release(&mut self, id: u64, playing: &mut Playing, scoreboard: &mut Scoreboard) -> (r: bool)
        requires
            old(self).wf(),
        ensures
            final(self).wf(),
            r == old(self).lobby@.contains_key(id),
            final(self).lobby@ == old(self).lobby@.remove(id),
            final(self).lobby == old(self).lobby.without(id),
            final(self).liveness == old(self).liveness,
            final(self).lobby@.len() <= 1 ==> !final(playing).0 && final(scoreboard).scoreleft == 0
                && final(scoreboard).scoreright == 0 && !final(self).reset_due,
            final(self).lobby@.len() > 1 ==> *final(playing) == *old(playing) && *final(scoreboard)
                == *old(scoreboard) && final(self).reset_due == old(self).reset_due,
    {
        let was = self.lobby.remove(id);
        if self.lobby.len() <= 1 {
            playing.0 = false;
            scoreboard.scoreleft = 0;
            scoreboard.scoreright = 0;
            self.reset_due = false;
        }
        was.is_some()
    }

    /// The transport reports that client `id` disconnected.
    ///
    /// Its slot is freed and, if it was seated, everyone hears of it. When at
    /// most one client stays seated, play stops and both scores return to zero.
    pub fn on_client_disconnected(&mut self, id: u64, playing: &mut Playing, scoreboard: &mut Scoreboard) -> (r: Vec<Command>)
        requires
            old(self).wf(),
        ensures
            final(self).wf(),
            final(self).lobby@ == old(self).lobby@.remove(id),
            final(self).liveness == old(self).liveness,
            r@ == (if old(self).lobby@.contains_key(id) {
                seq![Command::Broadcast { message: ServerMessages::PlayerDisconnected { id } }]
            } else {
                Seq::<Command>::empty()
            }),
            final(self).lobby@.len() <= 1 ==> !final(playing).0 && final(scoreboard).scoreleft == 0
                && final(scoreboard).scoreright == 0 && !final(self).reset_due,
            final(self).lobby@.len() > 1 ==> *final(playing) == *old(playing) && *final(scoreboard)
                == *old(scoreboard) && final(self).reset_due == old(self).reset_due,
    {
        let mut r: Vec<Command> = Vec::new();
        if self.release(id, playing, scoreboard) {
            r.push(Command::Broadcast { message: ServerMessages::PlayerDisconnected { id } });
        }
        proof {
            if old(self).lobby@.contains_key(id) {
                assert(r@ =~= seq![Command::Broadcast { message: ServerMessages::PlayerDisconnected { id } }]);
            } else {
                assert(r@ =~= Seq::<Command>::empty());
            }
        }
        r
    }

    /// The transport surfaced an error at `now` (milliseconds).
    ///
    /// An idle cycle arms: every session is probed and the window opens.
    /// While a cycle runs, further errors change nothing.
    pub fn on_transport_error(&mut self, now: u64) -> (r: Vec<Command>)
        requires
            old(self).wf(),
        ensures
            final(self).wf(),
            final(self).lobby == old(self).lobby,
            final(self).reset_due == old(self).reset_due,
            old(self).liveness.phase == LivenessPhase::Idle ==> {
                &&& r@ == seq![Command::Broadcast { message: ServerMessages::PlayerCheck }]
                &&& final(self).liveness.phase == LivenessPhase::Collecting
                &&& final(self).liveness.deadline == window_deadline(now)
                &&& final(self).liveness.responders() == Set::<u64>::empty()
            },
            old(self).liveness.phase != LivenessPhase::Idle ==> r@ == Seq::<Command>::empty()
                && *final(self) == *old(self),
    {
        let mut r: Vec<Command> = Vec::new();
        if self.liveness.arm() {
            r.push(Command::Broadcast { message: ServerMessages::PlayerCheck });
            self.liveness.start_collecting(now);
            proof {
                assert(r@ =~= seq![Command::Broadcast { message: ServerMessages::PlayerCheck }]);
                assert(self.liveness.responders() =~= Set::<u64>::empty());
            }
        } else {
            proof {
                assert(r@ =~= Seq::<Command>::empty());
            }
        }
        r
    }

    /// A message from the session authenticated as `sender` arrived at `now`
    /// on the probe channel. A check response counts only when the id it
    /// claims is the sender's own; the answer says whether it counted.
    pub fn on_client_message(&mut self, sender: u64, message: ClientMessages, now: u64) -> (r: bool)
        requires
            old(self).wf(),
        ensures
            final(self).wf(),
            final(self).lobby == old(self).lobby,
            final(self).reset_due == old(self).reset_due,
            final(self).liveness.phase == old(self).liveness.phase,
            final(self).liveness.deadline == old(self).liveness.deadline,
            r == (match message {
                ClientMessages::PlayerCheckResponse { id } => old(self).liveness.phase
                    == LivenessPhase::Collecting && now < old(self).liveness.deadline && id == sender,
                ClientMessages::AuthenticationRequest { .. } => false,
            }),
            r ==> final(self).liveness.responders() == old(self).liveness.responders().insert(sender),
            !r ==> final(self).liveness.responders() == old(self).liveness.responders(),
    {
        match message {
            ClientMessages::PlayerCheckResponse { id } => self.liveness.record_response(sender, id, now),
            ClientMessages::AuthenticationRequest { .. } => false,
        }
    }

    /// Runs the liveness cycle's clock at `now`.
    ///
    /// Once the window has run out, every seated client that did not answer
    /// is disconnected through the ordinary disconnect path, and the cycle
    /// returns to idle with no answers held. Before that nothing changes.
    pub fn on_tick(&mut self, now: u64, playing: &mut Playing, scoreboard: &mut Scoreboard) -> (r: Vec<Command>)
        requires
            old(self).wf(),
        ensures
            final(self).wf(),
            old(self).liveness.elapsed(now) ==> {
                let answered = old(self).liveness.responders();
                &&& final(self).lobby@ == old(self).lobby@.restrict(answered)
                &&& final(self).liveness.phase == LivenessPhase::Idle
                &&& final(self).liveness.responders() == Set::<u64>::empty()
                &&& r@ == slot_eviction(old(self).lobby.left, answered) + slot_eviction(
                    old(self).lobby.right,
                    answered,
                )
                &&& final(self).lobby@ != old(self).lobby@ ==> final(self).lobby@.len() <= 1
                    && !final(playing).0 && final(scoreboard).scoreleft == 0
                    && final(scoreboard).scoreright == 0
                &&& final(self).lobby@ == old(self).lobby@ ==> *final(playing) == *old(playing)
                    && *final(scoreboard) == *old(scoreboard)
            },
            !old(self).liveness.elapsed(now) ==> r@ == Seq::<Command>::empty() && *final(self)
                == *old(self) && *final(playing) == *old(playing) && *final(scoreboard)
                == *old(scoreboard),
    {
        let mut r: Vec<Command> = Vec::new();
        if !self.liveness.window_elapsed(now) {
            return r;
        }
        let ghost before = *self;
        let ghost answered = self.liveness.responders();
        let ghost mut evicted = false;
        proof {
            crate::lobby::lemma_lobby_bounded(before.lobby);
        }
        if let Some(a) = self.lobby.left {
            if !self.liveness.has_responded(a) {
                self.release(a, playing, scoreboard);
                proof {
                    evicted = true;
                    assert(self.lobby@.dom() =~= before.lobby@.dom().remove(a));
                    crate::lobby::lemma_lobby_bounded(self.lobby);
                    assert(self.lobby@.len() <= 1);
                }
                r.push(Command::Disconnect { id: a });
                r.push(Command::Broadcast { message: ServerMessages::PlayerDisconnected { id: a } });
            }
        }
        let ghost mid = *self;
        proof {
            assert(r@ =~= slot_eviction(before.lobby.left, answered));
            assert(self.lobby.right == before.lobby.right);
        }
        if let Some(b) = self.lobby.right {
            if !self.liveness.has_responded(b) {
                self.release(b, playing, scoreboard);
                proof {
                    evicted = true;
                    crate::lobby::lemma_lobby_bounded(mid.lobby);
                    assert(self.lobby@.dom() =~= mid.lobby@.dom().remove(b));
                    assert(self.lobby@.len() <= 1);
                }
                r.push(Command::Disconnect { id: b });
                r.push(Command::Broadcast { message: ServerMessages::PlayerDisconnected { id: b } });
            }
        }
        self.liveness.reset();
        proof {
            assert(r@ =~= slot_eviction(before.lobby.left, answered) + slot_eviction(before.lobby.right, answered));
            assert(self.lobby@ =~= before.lobby@.restrict(answered));
            if !evicted {
                assert(self.lobby@ =~= before.lobby@);
            } else {
                assert(self.lobby@.len() <= 1);
            }
        }
        r
    }

    /// Takes the reset owed since the second slot filled: the answer says
    /// whether one was owed, and if so play starts and nothing is owed any more.
    pub fn take_reset(&mut self, playing: &mut Playing) -> (r: bool)
        requires
            old(self).wf(),
        ensures
            final(self).wf(),
            r == old(self).reset_due,
            !final(self).reset_due,
            final(self).lobby == old(self).lobby,
            final(self).liveness == old(self).liveness,
            r ==> final(playing).0,
            !r ==> *final(playing) == *old(playing),
    {
        if self.reset_due {
            self.reset_due = false;
            playing.0 = true;
            true
        } else {
            false
        }
    }

    /// The input that drives `sender`'s paddle this tick: the last of the
    /// samples drained from its channel, provided it holds a slot.
    pub fn route_input(&self, sender: u64, received: &Vec<PlayerInput>) -> (r: Option<(PlayerSide, PlayerInput)>)
        ensures
            r == (if self.lobby@.contains_key(sender) && received@.len() > 0 {
                Some((self.lobby@[sender], received@.last()))
            } else {
                None::<(PlayerSide, PlayerInput)>
            }),
    {
        match self.lobby.side_of(sender) {
            Some(side) => match latest(received) {
                Some(input) => Some((side, input)),
                None => None,
            },
            None => None,
        }
    }
}

/// When the window runs out, a seated client keeps its slot exactly when
/// its answer was accepted; every seated client without one is evicted, and
/// nobody else.
pub proof fn lemma_resolution(l: Lobby, answered: Set<u64>)
    requires
        l.wf(),
    ensures
        forall|id: u64|
            l@.restrict(answered).contains_key(id) <==> (l@.contains_key(id) && answered.contains(id)),
        forall|id: u64| #[trigger]
            l@.restrict(answered).contains_key(id) ==> l@.restrict(answered)[id] == l@[id],
        forall|id: u64|
            unconfirmed(l, answered).contains(id) <==> (l@.contains_key(id) && !answered.contains(id)),
{
}

} // verus!
