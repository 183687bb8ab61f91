//! The per-run game state and the small transitions the frame logic applies
//! to it.

use vstd::prelude::*;

verus! {

/// Everything the game remembers between frames: the running score, the best
/// score seen so far, and the counter used to mint a unique label for each
/// spawned car.
pub struct GameState {
    pub score: u32,
    pub high_score: u32,
    pub ferris_index: i32,
}

impl GameState {
    /// The state invariant: the high score never falls below the running
    /// score, and car labels are never minted from a negative counter.
    pub open spec fn wf(self) -> bool {
        self.score <= self.high_score && 0 <= self.ferris_index
    }

    /// Records one collected car: the score rises by one, and the high score
    /// follows it upward the moment it is beaten. Returns whether the high
    /// score was beaten.
    pub fn record_collect(&mut self) -> (new_high: bool)
        requires
            old(self).score < u32::MAX,
        ensures
            final(self).score == old(self).score + 1,
            new_high == (final(self).score > old(self).high_score),
            final(self).high_score == if new_high {
                final(self).score
            } else {
                old(self).high_score
            },
            final(self).ferris_index == old(self).ferris_index,
            old(self).wf() ==> final(self).wf(),
    {
        self.score = self.score + 1;
        if self.score > self.high_score {
            self.high_score = self.score;
            true
        } else {
            false
        }
    }

    /// Puts the running score back to zero; the high score and the car
    /// counter are untouched.
    pub fn reset_score(&mut self)
        ensures
            final(self).score == 0,
            final(self).high_score == old(self).high_score,
            final(self).ferris_index == old(self).ferris_index,
            old(self).wf() ==> final(self).wf(),
    {
        self.score = 0;
    }

    /// Hands out the next car index and advances the counter past it.
    pub fn take_car_index(&mut self) -> (i: i32)
        requires
            old(self).ferris_index < i32::MAX,
        ensures
            i == old(self).ferris_index,
            final(self).ferris_index == old(self).ferris_index + 1,
            final(self).score == old(self).score,
            final(self).high_score == old(self).high_score,
            old(self).wf() ==> final(self).wf(),
    {
        let i = self.ferris_index;
        self.ferris_index = self.ferris_index + 1;
        i
    }
}

impl Default for GameState {
    /// A fresh run: both scores at zero and no cars spawned yet.
    fn default() -> (r: Self)
        ensures
            r.score == 0,
            r.high_score == 0,
            r.ferris_index == 0,
            r.wf(),
    {
        GameState { score: 0, high_score: 0, ferris_index: 0 }
    }
}

} // verus!
