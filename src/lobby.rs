use vstd::prelude::*;

verus! {

/// One of the two fixed game-side positions a connected client can occupy.
#[derive(Debug, Clone, Copy, PartialEq, Eq, Structural)]
pub enum PlayerSide {
    Left,
    Right,
}

/// The other side of the arena.
pub open spec fn opposite(s: PlayerSide) -> PlayerSide {
    match s {
        PlayerSide::Left => PlayerSide::Right,
        PlayerSide::Right => PlayerSide::Left,
    }
}

/// Maps authenticated client ids to the two slots of the arena.
///
/// Each slot holds at most one client, and a client holds at most one slot.
pub struct Lobby {
    pub left: Option<u64>,
    pub right: Option<u64>,
}

impl View for Lobby {
    type V = Map<u64, PlayerSide>;

    open spec fn view(&self) -> Map<u64, PlayerSide> {
        let m = match self.left {
            Some(a) => Map::empty().insert(a, PlayerSide::Left),
            None => Map::empty(),
        };
        match self.right {
            Some(b) => m.insert(b, PlayerSide::Right),
            None => m,
        }
    }
}

impl Lobby {
    /// No client sits in both slots.
    pub open spec fn wf(&self) -> bool {
        match (self.left, self.right) {
            (Some(a), Some(b)) => a != b,
            _ => true,
        }
    }

    /// The client bound to a slot, if any.
    pub open spec fn occupant(&self, side: PlayerSide) -> Option<u64> {
        match side {
            PlayerSide::Left => self.left,
            PlayerSide::Right => self.right,
        }
    }

    /// The ids in the lobby, Left's first.
    pub open spec fn id_seq(&self) -> Seq<u64> {
        let l = match self.left {
            Some(a) => seq![a],
            None => Seq::<u64>::empty(),
        };
        match self.right {
            Some(b) => l.push(b),
            None => l,
        }
    }

    /// The lobby with `id` unseated.
    pub open spec fn without(&self, id: u64) -> Lobby {
        Lobby {
            left: if self.left == Some(id) { None } else { self.left },
            right: if self.right == Some(id) { None } else { self.right },
        }
    }

    /// The first free slot, Left before Right.
    pub open spec fn free_slot_spec(&self) -> Option<PlayerSide> {
        if self.left.is_none() {
            Some(PlayerSide::Left)
        } else if self.right.is_none() {
            Some(PlayerSide::Right)
        } else {
            None
        }
    }

    /// An empty lobby.
    pub fn new() -> (r: Lobby)
        ensures
            r.wf(),
            r@ == Map::<u64, PlayerSide>::empty(),
            r.id_seq() == Seq::<u64>::empty(),
            r.left is None && r.right is None,
    {
        let r = Lobby { left: None, right: None };
        proof {
            assert(r@ =~= Map::<u64, PlayerSide>::empty());
        }
        r
    }

    /// The number of occupied slots.
    pub fn len(&self) -> (r: usize)
        requires
            self.wf(),
        ensures
            r as nat == self@.len(),
            r <= 2,
    {
        proof {
            lemma_lobby_bounded(*self);
        }
        let mut n: usize = 0;
        if self.left.is_some() {
            n = n + 1;
        }
        if self.right.is_some() {
            n = n + 1;
        }
        n
    }

    /// The slot held by `id`, if it holds one.
    pub fn side_of(&self, id: u64) -> (r: Option<PlayerSide>)
        ensures
            r == (if self@.contains_key(id) { Some(self@[id]) } else { None::<PlayerSide> }),
    {
        if self.right == Some(id) {
            Some(PlayerSide::Right)
        } else if self.left == Some(id) {
            Some(PlayerSide::Left)
        } else {
            None
        }
    }

    /// The client bound to `side`, if any.
    pub fn occupant_of(&self, side: PlayerSide) -> (r: Option<u64>)
        ensures
            r == self.occupant(side),
    {
        match side {
            PlayerSide::Left => self.left,
            PlayerSide::Right => self.right,
        }
    }

    /// The first slot that no client holds, Left before Right.
    pub fn free_slot(&self) -> (r: Option<PlayerSide>)
        ensures
            r == self.free_slot_spec(),
    {
        if self.left.is_none() {
            Some(PlayerSide::Left)
        } else if self.right.is_none() {
            Some(PlayerSide::Right)
        } else {
            None
        }
    }

    /// The ids of the clients in the lobby, Left's first.
    pub fn ids(&self) -> (r: Vec<u64>)
        requires
            self.wf(),
        ensures
            r@ == self.id_seq(),
            r@.no_duplicates(),
            r@.to_set() == self@.dom(),
            r@.len() == self@.len(),
    {
        proof {
            lemma_lobby_bounded(*self);
        }
        let mut v: Vec<u64> = Vec::new();
        if let Some(a) = self.left {
            v.push(a);
        }
        if let Some(b) = self.right {
            v.push(b);
        }
        proof {
            assert(v@ =~= self.id_seq());
            assert forall|x: u64| v@.to_set().contains(x) == self@.dom().contains(x) by {
                if self@.dom().contains(x) {
                    if self.left == Some(x) {
                        assert(v@[0] == x);
                    } else {
                        assert(v@[v@.len() - 1] == x);
                    }
                }
            }
            assert(v@.to_set() =~= self@.dom());
        }
        v
    }

    /// Binds `id` to the first free slot.
    ///
    /// A client that already holds a slot keeps it. With both slots taken by
    /// others, nothing changes and `None` comes back.
    pub fn assign(&mut self, id: u64) -> (r: Option<PlayerSide>)
        requires
            old(self).wf(),
        ensures
            final(self).wf(),
            old(self)@.contains_key(id) ==> r == Some(old(self)@[id]) && final(self)@ == old(self)@,
            !old(self)@.contains_key(id) ==> r == old(self).free_slot_spec(),
            !old(self)@.contains_key(id) && r is Some ==> final(self)@ == old(self)@.insert(id, r->0),
            r is None ==> *final(self) == *old(self),
            old(self)@.contains_key(id) ==> *final(self) == *old(self),
            r is Some ==> final(self).occupant(r->0) == Some(id),
            r is Some ==> final(self).occupant(opposite(r->0)) == old(self).occupant(opposite(r->0)),
    {
        if let Some(s) = self.side_of(id) {
            return Some(s);
        }
        if self.left.is_none() {
            self.left = Some(id);
            proof {
                assert(self@ =~= old(self)@.insert(id, PlayerSide::Left));
            }
            Some(PlayerSide::Left)
        } else if self.right.is_none() {
            self.right = Some(id);
            Some(PlayerSide::Right)
        } else {
            None
        }
    }

    /// Releases the slot held by `id`, returning it.
    pub fn remove(&mut self, id: u64) -> (r: Option<PlayerSide>)
        requires
            old(self).wf(),
        ensures
            final(self).wf(),
            final(self)@ == old(self)@.remove(id),
            *final(self) == old(self).without(id),
            r == (if old(self)@.contains_key(id) { Some(old(self)@[id]) } else { None::<PlayerSide> }),
    {
        if self.left == Some(id) {
            self.left = None;
            proof {
                assert(self@ =~= old(self)@.remove(id));
            }
            Some(PlayerSide::Left)
        } else if self.right == Some(id) {
            self.right = None;
            proof {
                assert(self@ =~= old(self)@.remove(id));
            }
            Some(PlayerSide::Right)
        } else {
            proof {
                assert(self@ =~= old(self)@.remove(id));
            }
            None
        }
    }
}

/// A well-formed lobby holds at most two clients, and when it holds two,
/// one sits Left and the other Right.
pub proof fn lemma_lobby_bounded(l: Lobby)
    requires
        l.wf(),
    ensures
        l@.dom().finite(),
        l@.len() <= 2,
        l@.len() == 2 ==> l@.values() == set![PlayerSide::Left, PlayerSide::Right],
        l@.len() == 2 ==> exists|a: u64, b: u64|
            a != b && l@.contains_key(a) && l@.contains_key(b) && l@[a] == PlayerSide::Left
                && l@[b] == PlayerSide::Right,
{
    match (l.left, l.right) {
        (Some(a), Some(b)) => {
            assert(l@.dom() =~= set![a, b]);
            assert(l@.contains_key(a) && l@[a] == PlayerSide::Left);
            assert(l@.contains_key(b) && l@[b] == PlayerSide::Right);
            assert(l@.values() =~= set![PlayerSide::Left, PlayerSide::Right]);
        },
        (Some(a), None) => {
            assert(l@.dom() =~= set![a]);
        },
        (None, Some(b)) => {
            assert(l@.dom() =~= set![b]);
        },
        (None, None) => {
            assert(l@.dom() =~= Set::<u64>::empty());
        },
    }
}

} // verus!
