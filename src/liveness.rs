use vstd::prelude::*;

verus! {

/// How long, in milliseconds, peers have to answer a liveness probe.
pub const LIVENESS_WINDOW_MS: u64 = 3000;

/// The deadline of a window opened at `now`, held at the clock's top.
pub open spec fn window_deadline(now: u64) -> u64 {
    if now as int + LIVENESS_WINDOW_MS as int > u64::MAX as int {
        u64::MAX
    } else {
        (now + LIVENESS_WINDOW_MS) as u64
    }
}

/// Where the shared liveness cycle stands.
#[derive(Debug, Clone, Copy, PartialEq, Eq, Structural)]
pub enum LivenessPhase {
    /// Waiting for a transport error.
    Idle,
    /// Armed: a probe is owed to every session.
    Probing,
    /// The probe went out; answers are gathered until the deadline.
    Collecting,
}

/// One probe/collect cycle shared by every session.
pub struct LivenessCycle {
    pub phase: LivenessPhase,
    /// Ids whose answer was accepted in this cycle, each once.
    pub collected: Vec<u64>,
    /// Milliseconds after which unanswered sessions are evicted.
    pub deadline: u64,
}

impl LivenessCycle {
    /// Answers are held only while collecting, each id once.
    pub open spec fn wf(&self) -> bool {
        &&& self.collected@.no_duplicates()
        &&& self.phase != LivenessPhase::Collecting ==> self.collected@.len() == 0
    }

    /// The ids that answered in this cycle.
    pub open spec fn responders(&self) -> Set<u64> {
        self.collected@.to_set()
    }

    /// Whether the collection window has run out at `now`.
    pub open spec fn elapsed(&self, now: u64) -> bool {
        self.phase == LivenessPhase::Collecting && now >= self.deadline
    }

    /// An idle cycle.
    pub fn new() -> (r: LivenessCycle)
        ensures
            r.wf(),
            r.phase == LivenessPhase::Idle,
            r.responders() == Set::<u64>::empty(),
    {
        let r = LivenessCycle { phase: LivenessPhase::Idle, collected: Vec::new(), deadline: 0 };
        proof {
            assert(r.collected@.to_set() =~= Set::<u64>::empty());
        }
        r
    }

    /// A transport error arrived. Only an idle cycle arms; the answer says
    /// whether it did, that is, whether a probe is now owed.
    pub fn arm(&mut self) -> (r: bool)
        requires
            old(self).wf(),
        ensures
            final(self).wf(),
            r == (old(self).phase == LivenessPhase::Idle),
            r ==> final(self).phase == LivenessPhase::Probing,
            r ==> final(self).collected@.len() == 0,
            r ==> final(self).deadline == old(self).deadline,
            !r ==> *final(self) == *old(self),
    {
        if self.phase == LivenessPhase::Idle {
            self.phase = LivenessPhase::Probing;
            true
        } else {
            false
        }
    }

    /// The probe went out at `now`: the window opens.
    pub fn start_collecting(&mut self, now: u64)
        requires
            old(self).wf(),
            old(self).phase == LivenessPhase::Probing,
        ensures
            final(self).wf(),
            final(self).phase == LivenessPhase::Collecting,
            final(self).deadline == window_deadline(now),
            final(self).collected@.len() == 0,
    {
        self.phase = LivenessPhase::Collecting;
        self.deadline = if now > u64::MAX - LIVENESS_WINDOW_MS {
            u64::MAX
        } else {
            now + LIVENESS_WINDOW_MS
        };
    }

    /// Whether `id` answered in this cycle.
    pub fn has_responded(&self, id: u64) -> (r: bool)
        ensures
            r == self.responders().contains(id),
    {
        let mut i: usize = 0;
        while i < self.collected.len()
            invariant
                i <= self.collected@.len(),
                forall|j: int| 0 <= j < i ==> self.collected@[j] != id,
            decreases self.collected@.len() - i,
        {
            if self.collected[i] == id {
                proof {
                    assert(self.collected@.contains(id));
                }
                return true;
            }
            i = i + 1;
        }
        false
    }

    /// An answer that names `claimed` came in at `now` from the session
    /// authenticated as `sender`. It counts only while collecting, before the
    /// deadline, and when the claim matches the sender.
    pub fn record_response(&mut self, sender: u64, claimed: u64, now: u64) -> (r: bool)
        requires
            old(self).wf(),
        ensures
            final(self).wf(),
            r == (old(self).phase == LivenessPhase::Collecting && now < old(self).deadline
                && claimed == sender),
            r ==> final(self).responders() == old(self).responders().insert(sender),
            !r ==> final(self).responders() == old(self).responders(),
            final(self).phase == old(self).phase,
            final(self).deadline == old(self).deadline,
    {
        if self.phase != LivenessPhase::Collecting || now >= self.deadline || claimed != sender {
            return false;
        }
        if !self.has_responded(sender) {
            let ghost before = self.collected@;
            self.collected.push(sender);
            proof {
                assert(self.collected@ =~= before.push(sender));
                assert(self.collected@.to_set() =~= before.to_set().insert(sender)) by {
                    assert forall|x: u64| self.collected@.to_set().contains(x)
                        == before.to_set().insert(sender).contains(x) by {
                        if before.contains(x) {
                            let j = choose|j: int| 0 <= j < before.len() && before[j] == x;
                            assert(self.collected@[j] == x);
                        }
                        if x == sender {
                            assert(self.collected@[before.len() as int] == x);
                        }
                    }
                }
            }
        } else {
            proof {
                assert(old(self).responders().insert(sender) =~= old(self).responders());
            }
        }
        true
    }

    /// Back to idle with no answers held.
    pub fn reset(&mut self)
        ensures
            final(self).wf(),
            final(self).phase == LivenessPhase::Idle,
            final(self).responders() == Set::<u64>::empty(),
    {
        self.phase = LivenessPhase::Idle;
        self.collected = Vec::new();
        proof {
            assert(self.collected@.to_set() =~= Set::<u64>::empty());
        }
    }

    /// Whether the window has run out at `now`.
    pub fn window_elapsed(&self, now: u64) -> (r: bool)
        ensures
            r == self.elapsed(now),
    {
        self.phase == LivenessPhase::Collecting && now >= self.deadline
    }
}

} // verus!
