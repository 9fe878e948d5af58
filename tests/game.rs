use hanoi::game::{Command, Game, PossibleTowers, Tower, TowerDisck};
use std::collections::VecDeque;

fn stack(widths: &[u16]) -> VecDeque<TowerDisck> {
    widths.iter().map(|w| TowerDisck::new(*w)).collect()
}

fn game_with(left: &[u16], middle: &[u16], right: &[u16]) -> Game {
    Game {
        left_tower: Tower::new(PossibleTowers::Left, stack(left)),
        middle_tower: Tower::new(PossibleTowers::Middle, stack(middle)),
        right_tower: Tower::new(PossibleTowers::Right, stack(right)),
        pointing_to_tower: PossibleTowers::Middle,
        last_selected_tower: None,
        is_finished: false,
    }
}

fn ordinal(t: PossibleTowers) -> u8 {
    match t {
        PossibleTowers::Left => 0,
        PossibleTowers::Middle => 1,
        PossibleTowers::Right => 2,
    }
}

fn point_at(g: &mut Game, t: PossibleTowers) {
    while g.pointing_to_tower != t {
        if ordinal(g.pointing_to_tower) < ordinal(t) {
            g.point_to_next();
        } else {
            g.point_to_previous();
        }
    }
}

fn move_disc(g: &mut Game, from: PossibleTowers, to: PossibleTowers) {
    point_at(g, from);
    g.change_selection();
    assert_eq!(g.last_selected_tower, Some(from));
    point_at(g, to);
    g.change_selection();
    assert_eq!(g.last_selected_tower, None);
}

fn total(g: &Game) -> usize {
    g.left_tower.len() + g.middle_tower.len() + g.right_tower.len()
}

#[test]
fn new_game_starts_on_middle() {
    let g = Game::new();
    assert_eq!(g.middle_tower.widths(), vec![25, 45, 65, 85]);
    assert!(g.left_tower.is_empty());
    assert!(g.right_tower.is_empty());
    assert_eq!(g.pointing_to_tower, PossibleTowers::Middle);
    assert_eq!(g.last_selected_tower, None);
    assert!(!g.is_finished);
    assert_eq!(g.left_tower.position(), PossibleTowers::Left);
    assert_eq!(g.middle_tower.position(), PossibleTowers::Middle);
    assert_eq!(g.right_tower.position(), PossibleTowers::Right);
}

#[test]
fn disc_count_stays_four() {
    let mut g = Game::new();
    let script = [
        Command::Select,
        Command::PointPrevious,
        Command::Select,
        Command::Select,
        Command::PointNext,
        Command::PointNext,
        Command::Select,
        Command::PointPrevious,
        Command::Select,
        Command::PointNext,
        Command::Select,
        Command::Select,
        Command::Select,
    ];
    for c in script {
        assert!(g.handle(c));
        assert_eq!(total(&g), 4);
    }
    let mut all: Vec<u16> = g.left_tower.widths();
    all.extend(g.middle_tower.widths());
    all.extend(g.right_tower.widths());
    all.sort();
    assert_eq!(all, vec![25, 45, 65, 85]);
}

#[test]
fn advance_saturates_at_right() {
    let mut g = Game::new();
    g.pointing_to_tower = PossibleTowers::Left;
    g.point_to_next();
    assert_eq!(g.pointing_to_tower, PossibleTowers::Middle);
    g.point_to_next();
    assert_eq!(g.pointing_to_tower, PossibleTowers::Right);
    g.point_to_next();
    assert_eq!(g.pointing_to_tower, PossibleTowers::Right);
}

#[test]
fn retreat_saturates_at_left() {
    let mut g = Game::new();
    g.pointing_to_tower = PossibleTowers::Right;
    g.point_to_previous();
    assert_eq!(g.pointing_to_tower, PossibleTowers::Middle);
    g.point_to_previous();
    assert_eq!(g.pointing_to_tower, PossibleTowers::Left);
    g.point_to_previous();
    assert_eq!(g.pointing_to_tower, PossibleTowers::Left);
}

#[test]
fn pointer_moves_keep_selection() {
    let mut g = Game::new();
    g.change_selection();
    g.point_to_next();
    g.point_to_previous();
    assert_eq!(g.last_selected_tower, Some(PossibleTowers::Middle));
    assert!(!g.is_finished);
}

#[test]
fn select_on_empty_tower_is_noop() {
    let mut g = Game::new();
    g.point_to_previous();
    g.change_selection();
    assert_eq!(g.last_selected_tower, None);
    assert!(g.left_tower.is_empty());
    assert_eq!(g.middle_tower.widths(), vec![25, 45, 65, 85]);
    assert!(g.right_tower.is_empty());
}

#[test]
fn arm_then_move_transfers_top_disc() {
    let mut g = Game::new();
    g.change_selection();
    assert_eq!(g.last_selected_tower, Some(PossibleTowers::Middle));
    g.point_to_next();
    g.change_selection();
    assert_eq!(g.middle_tower.widths(), vec![45, 65, 85]);
    assert_eq!(g.right_tower.widths(), vec![25]);
    assert_eq!(g.last_selected_tower, None);
}

#[test]
fn move_onto_smaller_disc_is_allowed() {
    let mut g = Game::new();
    move_disc(&mut g, PossibleTowers::Middle, PossibleTowers::Right);
    move_disc(&mut g, PossibleTowers::Middle, PossibleTowers::Right);
    assert_eq!(g.right_tower.widths(), vec![45, 25]);
    assert_eq!(g.middle_tower.widths(), vec![65, 85]);
}

#[test]
fn move_back_onto_same_tower() {
    let mut g = Game::new();
    g.change_selection();
    g.change_selection();
    assert_eq!(g.middle_tower.widths(), vec![25, 45, 65, 85]);
    assert_eq!(g.last_selected_tower, None);
}

#[test]
fn win_on_right_sorted() {
    let mut g = game_with(&[], &[], &[25, 45, 65, 85]);
    g.check_win_conditions();
    assert!(g.is_finished);
}

#[test]
fn win_on_left_sorted() {
    let mut g = game_with(&[25, 45, 65, 85], &[], &[]);
    g.check_win_conditions();
    assert!(g.is_finished);
}

#[test]
fn win_with_equal_widths() {
    let mut g = game_with(&[], &[], &[25, 45, 45, 85]);
    g.check_win_conditions();
    assert!(g.is_finished);
}

#[test]
fn no_win_with_inversion_at_top() {
    let mut g = game_with(&[], &[], &[45, 25, 65, 85]);
    g.check_win_conditions();
    assert!(!g.is_finished);
}

#[test]
fn no_win_on_middle() {
    let mut g = Game::new();
    g.check_win_conditions();
    assert!(!g.is_finished);
}

#[test]
fn no_win_with_three_discs() {
    let mut g = game_with(&[85], &[], &[25, 45, 65]);
    g.check_win_conditions();
    assert!(!g.is_finished);
}

#[test]
fn win_check_resets_finished() {
    let mut g = game_with(&[], &[25, 45, 65, 85], &[]);
    g.is_finished = true;
    g.check_win_conditions();
    assert!(!g.is_finished);
}

#[test]
fn solve_in_fifteen_moves() {
    let (a, s, t) = (PossibleTowers::Left, PossibleTowers::Middle, PossibleTowers::Right);
    let moves = [
        (s, a), (s, t), (a, t), (s, a), (t, s), (t, a), (s, a), (s, t),
        (a, t), (a, s), (t, s), (a, t), (s, a), (s, t), (a, t),
    ];
    let mut g = Game::new();
    for (from, to) in moves {
        move_disc(&mut g, from, to);
        g.check_win_conditions();
        assert_eq!(total(&g), 4);
    }
    assert_eq!(g.right_tower.widths(), vec![25, 45, 65, 85]);
    assert!(g.left_tower.is_empty());
    assert!(g.middle_tower.is_empty());
    assert!(g.is_finished);
}

#[test]
fn handle_select_checks_win_and_freezes() {
    let mut g = game_with(&[], &[25], &[45, 65, 85]);
    assert!(g.handle(Command::Select));
    assert!(g.handle(Command::PointNext));
    assert!(g.handle(Command::Select));
    assert!(g.is_finished);
    assert_eq!(g.right_tower.widths(), vec![25, 45, 65, 85]);
    assert!(g.handle(Command::PointPrevious));
    assert_eq!(g.pointing_to_tower, PossibleTowers::Right);
    assert!(g.handle(Command::Select));
    assert_eq!(g.last_selected_tower, None);
}

#[test]
fn handle_restart_and_quit() {
    let mut g = game_with(&[], &[], &[25, 45, 65, 85]);
    g.is_finished = true;
    assert!(g.handle(Command::Restart));
    assert_eq!(g.middle_tower.widths(), vec![25, 45, 65, 85]);
    assert!(!g.is_finished);
    assert!(!g.handle(Command::Quit));
    assert_eq!(g.pointing_to_tower, PossibleTowers::Middle);
}

#[test]
fn armed_tower_is_reported() {
    let mut g = Game::new();
    assert!(!g.is_armed(PossibleTowers::Middle));
    g.change_selection();
    assert!(g.is_armed(PossibleTowers::Middle));
    assert!(!g.is_armed(PossibleTowers::Left));
}
