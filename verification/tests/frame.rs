use highway_fever::events::{CollisionEvent, CollisionState};
use highway_fever::frame::{frame, Action, FrameInput};
use highway_fever::state::GameState;

fn quiet_input() -> FrameInput {
    FrameInput {
        quit: false,
        up: false,
        down: false,
        right: false,
        left: false,
        reset: false,
        spawn_due: false,
        collisions: Vec::new(),
    }
}

fn begin(a: &str, b: &str) -> CollisionEvent {
    CollisionEvent {
        state: CollisionState::Begin,
        name_a: a.to_string(),
        name_b: b.to_string(),
    }
}

#[test]
fn empty_frame_changes_nothing() {
    let mut s = GameState { score: 3, high_score: 5, ferris_index: 2 };
    let actions = frame(&mut s, &quiet_input());
    assert_eq!(actions, Vec::<Action>::new());
    assert_eq!(s.score, 3);
    assert_eq!(s.high_score, 5);
    assert_eq!(s.ferris_index, 2);
}

#[test]
fn collect_increments_score_once() {
    let mut s = GameState { score: 3, high_score: 5, ferris_index: 0 };
    let mut input = quiet_input();
    input.collisions.push(begin("player", "Ferris0 "));
    let actions = frame(&mut s, &input);
    assert_eq!(s.score, 4);
    assert_eq!(s.high_score, 5);
    assert_eq!(
        actions,
        vec![
            Action::RemoveSprite("Ferris0 ".to_string()),
            Action::SetScoreText("Score: 4".to_string()),
            Action::PlayCollectSound,
            Action::AnnounceScore("Current score: 4".to_string()),
        ]
    );
}

#[test]
fn collect_beating_high_score_updates_it() {
    let mut s = GameState { score: 5, high_score: 5, ferris_index: 0 };
    let mut input = quiet_input();
    input.collisions.push(begin("Ferris3 ", "player"));
    let actions = frame(&mut s, &input);
    assert_eq!(s.score, 6);
    assert_eq!(s.high_score, 6);
    assert_eq!(
        actions,
        vec![
            Action::RemoveSprite("Ferris3 ".to_string()),
            Action::SetScoreText("Score: 6".to_string()),
            Action::SetHighScoreText("High-Score: 6".to_string()),
            Action::PlayCollectSound,
            Action::AnnounceScore("Current score: 6".to_string()),
        ]
    );
}

#[test]
fn end_collision_is_ignored() {
    let mut s = GameState { score: 1, high_score: 1, ferris_index: 0 };
    let mut input = quiet_input();
    input.collisions.push(CollisionEvent {
        state: CollisionState::End,
        name_a: "player".to_string(),
        name_b: "Ferris0 ".to_string(),
    });
    let actions = frame(&mut s, &input);
    assert_eq!(actions, Vec::<Action>::new());
    assert_eq!(s.score, 1);
}

#[test]
fn collision_without_player_is_ignored() {
    let mut s = GameState { score: 1, high_score: 1, ferris_index: 0 };
    let mut input = quiet_input();
    input.collisions.push(begin("Ferris0 ", "Ferris1 "));
    let actions = frame(&mut s, &input);
    assert_eq!(actions, Vec::<Action>::new());
    assert_eq!(s.score, 1);
}

#[test]
fn both_player_prefixed_labels_do_not_count() {
    // the collect test asks for exactly one label with the player's prefix,
    // so a pair where both carry it is skipped entirely
    let mut s = GameState { score: 0, high_score: 0, ferris_index: 0 };
    let mut input = quiet_input();
    input.collisions.push(begin("player", "player2"));
    let actions = frame(&mut s, &input);
    assert_eq!(actions, Vec::<Action>::new());
    assert_eq!(s.score, 0);
    assert_eq!(s.high_score, 0);
}

#[test]
fn label_with_player_prefix_counts_and_is_removed_too() {
    // a sprite merely named like the player still makes the pair count when
    // the other label lacks the prefix, and both differ from "player", so
    // both are removed
    let mut s = GameState { score: 0, high_score: 0, ferris_index: 0 };
    let mut input = quiet_input();
    input.collisions.push(begin("player2", "Ferris0 "));
    let actions = frame(&mut s, &input);
    assert_eq!(s.score, 1);
    assert_eq!(
        actions,
        vec![
            Action::RemoveSprite("player2".to_string()),
            Action::RemoveSprite("Ferris0 ".to_string()),
            Action::SetScoreText("Score: 1".to_string()),
            Action::SetHighScoreText("High-Score: 1".to_string()),
            Action::PlayCollectSound,
            Action::AnnounceScore("Current score: 1".to_string()),
        ]
    );
}

#[test]
fn two_collects_accumulate_in_order() {
    let mut s = GameState::default();
    let mut input = quiet_input();
    input.collisions.push(begin("player", "Ferris0 "));
    input.collisions.push(begin("player", "Ferris1 "));
    let actions = frame(&mut s, &input);
    assert_eq!(s.score, 2);
    assert_eq!(s.high_score, 2);
    assert_eq!(
        actions,
        vec![
            Action::RemoveSprite("Ferris0 ".to_string()),
            Action::SetScoreText("Score: 1".to_string()),
            Action::SetHighScoreText("High-Score: 1".to_string()),
            Action::PlayCollectSound,
            Action::AnnounceScore("Current score: 1".to_string()),
            Action::RemoveSprite("Ferris1 ".to_string()),
            Action::SetScoreText("Score: 2".to_string()),
            Action::SetHighScoreText("High-Score: 2".to_string()),
            Action::PlayCollectSound,
            Action::AnnounceScore("Current score: 2".to_string()),
        ]
    );
}

#[test]
fn reset_clears_score_but_keeps_high_score() {
    let mut s = GameState { score: 8, high_score: 9, ferris_index: 4 };
    let mut input = quiet_input();
    input.reset = true;
    let actions = frame(&mut s, &input);
    assert_eq!(s.score, 0);
    assert_eq!(s.high_score, 9);
    assert_eq!(actions, vec![Action::SetScoreText("Score: 0".to_string())]);
}

#[test]
fn movement_actions_come_in_fixed_order() {
    let mut s = GameState::default();
    let mut input = quiet_input();
    input.up = true;
    input.down = true;
    input.right = true;
    input.left = true;
    let actions = frame(&mut s, &input);
    assert_eq!(
        actions,
        vec![Action::MoveUp, Action::MoveDown, Action::MoveRight, Action::MoveLeft]
    );
}

#[test]
fn quit_requests_exit_first() {
    let mut s = GameState::default();
    let mut input = quiet_input();
    input.quit = true;
    input.up = true;
    let actions = frame(&mut s, &input);
    assert_eq!(actions, vec![Action::Exit, Action::MoveUp]);
}

#[test]
fn spawn_mints_fresh_label_and_advances_counter() {
    let mut s = GameState { score: 0, high_score: 0, ferris_index: 2 };
    let mut input = quiet_input();
    input.spawn_due = true;
    let actions = frame(&mut s, &input);
    assert_eq!(s.ferris_index, 3);
    assert_eq!(actions, vec![Action::SpawnCar("Ferris2 ".to_string())]);
}

#[test]
fn full_frame_keeps_the_original_order() {
    // quit, then collisions, then movement, then reset, then spawn
    let mut s = GameState { score: 1, high_score: 1, ferris_index: 7 };
    let mut input = quiet_input();
    input.quit = true;
    input.left = true;
    input.reset = true;
    input.spawn_due = true;
    input.collisions.push(begin("player", "Ferris5 "));
    let actions = frame(&mut s, &input);
    assert_eq!(s.score, 0);
    assert_eq!(s.high_score, 2);
    assert_eq!(s.ferris_index, 8);
    assert_eq!(
        actions,
        vec![
            Action::Exit,
            Action::RemoveSprite("Ferris5 ".to_string()),
            Action::SetScoreText("Score: 2".to_string()),
            Action::SetHighScoreText("High-Score: 2".to_string()),
            Action::PlayCollectSound,
            Action::AnnounceScore("Current score: 2".to_string()),
            Action::MoveLeft,
            Action::SetScoreText("Score: 0".to_string()),
            Action::SpawnCar("Ferris7 ".to_string()),
        ]
    );
}
