//! The per-frame step: from the frame's input snapshot and the current state
//! to the new state and the exact list of effects the engine must apply.

use vstd::prelude::*;

use crate::events::{
    collect_count, is_collect, lemma_collect_count_prefix_le, lemma_collect_count_step,
    player_name, str_eq, event_is_collect, CollisionEvent,
};
use crate::state::GameState;
use crate::text::{
    announce_line, announce_text, car_label, car_label_text, high_score_label, high_score_text,
    score_label, score_text,
};

verus! {

/// Everything the shell reads off the engine at the top of a frame: which of
/// the game's keys are held, whether the spawn timer has just finished, and
/// the collision events reported since the last frame.
#[derive(Clone, Debug)]
pub struct FrameInput {
    /// The quit key is held.
    pub quit: bool,
    /// An "up" key is held.
    pub up: bool,
    /// A "down" key is held.
    pub down: bool,
    /// A "right" key is held.
    pub right: bool,
    /// A "left" key is held.
    pub left: bool,
    /// The reset key is held.
    pub reset: bool,
    /// The repeating spawn timer finished during this frame.
    pub spawn_due: bool,
    /// The collisions reported for this frame, in the engine's order.
    pub collisions: Vec<CollisionEvent>,
}

/// One effect the shell must carry back to the engine, in list order.
#[derive(PartialEq, Clone, Debug)]
pub enum Action {
    /// Ask the engine to close the game.
    Exit,
    /// Remove the sprite with this label.
    RemoveSprite(String),
    /// Set the score overlay to this text.
    SetScoreText(String),
    /// Set the high-score overlay to this text.
    SetHighScoreText(String),
    /// Play the collect sound effect.
    PlayCollectSound,
    /// Print this line announcing the running score.
    AnnounceScore(String),
    /// Nudge the player sprite up and face it upward.
    MoveUp,
    /// Nudge the player sprite down and face it downward.
    MoveDown,
    /// Nudge the player sprite right and face it rightward.
    MoveRight,
    /// Nudge the player sprite left and face it leftward.
    MoveLeft,
    /// Add a collidable car sprite under this label, at a place of the
    /// shell's choosing.
    SpawnCar(String),
}

/// The mathematical image of an [`Action`], with every label as a character
/// sequence.
pub enum AbsAction {
    Exit,
    RemoveSprite(Seq<char>),
    SetScoreText(Seq<char>),
    SetHighScoreText(Seq<char>),
    PlayCollectSound,
    AnnounceScore(Seq<char>),
    MoveUp,
    MoveDown,
    MoveRight,
    MoveLeft,
    SpawnCar(Seq<char>),
}

impl DeepView for Action {
    type V = AbsAction;

    open spec fn deep_view(&self) -> AbsAction {
        match self {
            Action::Exit => AbsAction::Exit,
            Action::RemoveSprite(l) => AbsAction::RemoveSprite(l@),
            Action::SetScoreText(l) => AbsAction::SetScoreText(l@),
            Action::SetHighScoreText(l) => AbsAction::SetHighScoreText(l@),
            Action::PlayCollectSound => AbsAction::PlayCollectSound,
            Action::AnnounceScore(l) => AbsAction::AnnounceScore(l@),
            Action::MoveUp => AbsAction::MoveUp,
            Action::MoveDown => AbsAction::MoveDown,
            Action::MoveRight => AbsAction::MoveRight,
            Action::MoveLeft => AbsAction::MoveLeft,
            Action::SpawnCar(l) => AbsAction::SpawnCar(l@),
        }
    }
}

/// The removals a collision demands: each involved sprite that is not the
/// player itself, first slot first.
pub open spec fn removal_abs(e: CollisionEvent) -> Seq<AbsAction> {
    (if e.name_a@ != player_name() {
        seq![AbsAction::RemoveSprite(e.name_a@)]
    } else {
        Seq::<AbsAction>::empty()
    }) + (if e.name_b@ != player_name() {
        seq![AbsAction::RemoveSprite(e.name_b@)]
    } else {
        Seq::<AbsAction>::empty()
    })
}

/// The effects of one collision event, given the score right after it
/// (`new_score`) and whether that score has just beaten the high score. An
/// event that is no collect has none.
pub open spec fn event_abs(e: CollisionEvent, new_score: u32, new_high: bool) -> Seq<AbsAction> {
    if is_collect(e) {
        removal_abs(e) + seq![AbsAction::SetScoreText(score_text(new_score))] + (if new_high {
            seq![AbsAction::SetHighScoreText(high_score_text(new_score))]
        } else {
            Seq::<AbsAction>::empty()
        }) + seq![AbsAction::PlayCollectSound, AbsAction::AnnounceScore(announce_text(new_score))]
    } else {
        Seq::<AbsAction>::empty()
    }
}

/// The effects of a frame's collision events in order, starting from score
/// `s0` and high score `h0`.
pub open spec fn collisions_abs(events: Seq<CollisionEvent>, s0: u32, h0: u32) -> Seq<AbsAction>
    decreases events.len(),
{
    if events.len() == 0 {
        Seq::<AbsAction>::empty()
    } else {
        let ns = (s0 + collect_count(events)) as u32;
        collisions_abs(events.drop_last(), s0, h0) + event_abs(events.last(), ns, ns > h0)
    }
}

/// The player nudges a frame's held keys demand, in the fixed order up,
/// down, right, left.
pub open spec fn movement_abs(input: FrameInput) -> Seq<AbsAction> {
    (if input.up {
        seq![AbsAction::MoveUp]
    } else {
        Seq::<AbsAction>::empty()
    }) + (if input.down {
        seq![AbsAction::MoveDown]
    } else {
        Seq::<AbsAction>::empty()
    }) + (if input.right {
        seq![AbsAction::MoveRight]
    } else {
        Seq::<AbsAction>::empty()
    }) + (if input.left {
        seq![AbsAction::MoveLeft]
    } else {
        Seq::<AbsAction>::empty()
    })
}

/// The full effect list of one frame from state `s`: a quit request first,
/// then the collision effects, the player nudges, the reset's label rewrite,
/// and last the spawn of a freshly labelled car.
pub open spec fn frame_abs(s: GameState, input: FrameInput) -> Seq<AbsAction> {
    (if input.quit {
        seq![AbsAction::Exit]
    } else {
        Seq::<AbsAction>::empty()
    }) + collisions_abs(input.collisions@, s.score, s.high_score) + movement_abs(input) + (if input.reset {
        seq![AbsAction::SetScoreText(score_text(0))]
    } else {
        Seq::<AbsAction>::empty()
    }) + (if input.spawn_due {
        seq![AbsAction::SpawnCar(car_label_text(s.ferris_index))]
    } else {
        Seq::<AbsAction>::empty()
    })
}

/// Runs one frame of the game: applies the frame's collects, reset and spawn
/// to the state and returns, in order, every effect the engine must apply.
///
/// The score after the frame is the old score plus one per collect, unless
/// the reset key put it back to zero; the high score follows the score's
/// peak; the car counter advances exactly when a spawn was due; and the
/// returned actions are exactly [`frame_abs`] of the old state and the
/// input.
pub fn frame(state: &mut GameState, input: &FrameInput) -> (actions: Vec<Action>)
    requires
        old(state).wf(),
        old(state).score + collect_count(input.collisions@) <= u32::MAX,
        input.spawn_due ==> old(state).ferris_index < i32::MAX,
    ensures
        actions.deep_view() == frame_abs(*old(state), *input),
        final(state).score == if input.reset {
            0u32
        } else {
            (old(state).score + collect_count(input.collisions@)) as u32
        },
        final(state).high_score == if old(state).score + collect_count(input.collisions@)
            > old(state).high_score {
            (old(state).score + collect_count(input.collisions@)) as u32
        } else {
            old(state).high_score
        },
        final(state).ferris_index as int == old(state).ferris_index as int + (if input.spawn_due {
            1int
        } else {
            0int
        }),
        final(state).high_score >= old(state).high_score,
        final(state).wf(),
{
    let ghost s0 = state.score;
    let ghost h0 = state.high_score;
    let ghost f0 = state.ferris_index;
    let ghost evs = input.collisions@;
    let mut actions: Vec<Action> = Vec::new();
    if input.quit {
        actions.push(Action::Exit);
    }
    let ghost pre = actions.deep_view();
    proof {
        assert(pre =~= (if input.quit {
            seq![AbsAction::Exit]
        } else {
            Seq::<AbsAction>::empty()
        }));
    }
    let n = input.collisions.len();
    let mut i: usize = 0;
    while i < n
        invariant
            i <= n,
            n == evs.len(),
            evs == input.collisions@,
            s0 + collect_count(evs) <= u32::MAX,
            s0 <= h0,
            state.score == s0 + collect_count(evs.subrange(0, i as int)),
            state.high_score == if state.score > h0 {
                state.score
            } else {
                h0
            },
            state.ferris_index == f0,
            actions.deep_view() == pre + collisions_abs(evs.subrange(0, i as int), s0, h0),
        decreases n - i,
    {
        proof {
            lemma_collect_count_step(evs, i as int);
            lemma_collect_count_prefix_le(evs, i as int + 1);
        }
        let e = &input.collisions[i];
        let ghost prev_dv = actions.deep_view();
        if event_is_collect(e) {
            if !str_eq(e.name_a.as_str(), "player") {
                actions.push(Action::RemoveSprite(e.name_a.clone()));
            }
            if !str_eq(e.name_b.as_str(), "player") {
                actions.push(Action::RemoveSprite(e.name_b.clone()));
            }
            proof {
                assert(actions.deep_view() =~= prev_dv + removal_abs(*e));
            }
            let new_high = state.record_collect();
            actions.push(Action::SetScoreText(score_label(state.score)));
            if new_high {
                actions.push(Action::SetHighScoreText(high_score_label(state.score)));
            }
            actions.push(Action::PlayCollectSound);
            actions.push(Action::AnnounceScore(announce_line(state.score)));
            proof {
                assert(new_high == (state.score > h0));
                assert(actions.deep_view() =~= prev_dv + event_abs(
                    evs[i as int],
                    state.score,
                    new_high,
                ));
            }
        }
        proof {
            assert(evs.subrange(0, i as int + 1).drop_last() =~= evs.subrange(0, i as int));
            assert(evs.subrange(0, i as int + 1).last() == evs[i as int]);
            assert(actions.deep_view() =~= pre + collisions_abs(
                evs.subrange(0, i as int + 1),
                s0,
                h0,
            ));
        }
        i = i + 1;
    }
    proof {
        assert(evs.subrange(0, n as int) =~= evs);
    }
    let ghost after_collisions = actions.deep_view();
    if input.up {
        actions.push(Action::MoveUp);
    }
    if input.down {
        actions.push(Action::MoveDown);
    }
    if input.right {
        actions.push(Action::MoveRight);
    }
    if input.left {
        actions.push(Action::MoveLeft);
    }
    proof {
        assert(actions.deep_view() =~= after_collisions + movement_abs(*input));
    }
    let ghost after_movement = actions.deep_view();
    if input.reset {
        state.reset_score();
        actions.push(Action::SetScoreText(score_label(0)));
    }
    if input.spawn_due {
        let idx = state.take_car_index();
        actions.push(Action::SpawnCar(car_label(idx)));
    }
    proof {
        assert(actions.deep_view() =~= frame_abs(*old(state), *input));
    }
    actions
}

} // verus!
