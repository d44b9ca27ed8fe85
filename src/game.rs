use vstd::prelude::*;

verus! {

/// Whether gameplay is running.
#[derive(Debug, Clone, Copy, PartialEq, Eq, Structural)]
pub struct Playing(pub bool);

/// The game's score.
#[derive(Debug, Clone, Copy, PartialEq, Eq, Structural)]
pub struct Scoreboard {
    pub scoreleft: usize,
    pub scoreright: usize,
}

/// Whether gameplay is running.
pub fn is_game_active(playing: &Playing) -> (r: bool)
    ensures
        r == playing.0,
{
    playing.0
}

impl Scoreboard {
    /// A zero score.
    pub fn new() -> (r: Scoreboard)
        ensures
            r.scoreleft == 0,
            r.scoreright == 0,
    {
        Scoreboard { scoreleft: 0, scoreright: 0 }
    }
}

} // verus!
