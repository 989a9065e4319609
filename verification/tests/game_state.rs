use capybara_commute::game::{GameState, MAX_PASSENGERS};
use capybara_commute::passenger::PassengerKind;

#[test]
fn a_new_game_is_empty() {
    let g = GameState::new();
    assert_eq!(g.score, 0);
    assert_eq!(g.passengers_on_board, 0);
    assert!(!g.game_over);
    let d = GameState::default();
    assert_eq!((d.score, d.passengers_on_board, d.game_over), (0, 0, false));
}

#[test]
fn landing_assigns_consecutive_slots_and_adds_points() {
    let mut g = GameState::new();
    let kinds = [
        PassengerKind::Duckling,
        PassengerKind::Frog,
        PassengerKind::Butterfly,
        PassengerKind::Frog,
    ];
    let mut total = 0;
    for (i, k) in kinds.iter().enumerate() {
        let slot = g.land_passenger(*k);
        total += k.score_value();
        assert_eq!(slot, i as u32);
        assert_eq!(g.passengers_on_board, i as u32 + 1);
        assert_eq!(g.score, total);
    }
    assert_eq!(g.score, 55);
    assert!(!g.game_over);
}

#[test]
fn toppling_ends_the_game() {
    let mut g = GameState::new();
    g.land_passenger(PassengerKind::Duckling);
    assert!(!g.check_game_over(false));
    assert!(!g.game_over);
    assert!(g.check_game_over(true));
    assert!(g.game_over);
    assert_eq!(g.score, 10);
    assert_eq!(g.passengers_on_board, 1);
}

#[test]
fn eight_passengers_sink_the_capybara() {
    assert_eq!(MAX_PASSENGERS, 8);
    let mut g = GameState::new();
    for _ in 0..7 {
        g.land_passenger(PassengerKind::Butterfly);
    }
    assert!(!g.is_overloaded());
    assert!(!g.check_game_over(false));
    g.land_passenger(PassengerKind::Butterfly);
    assert!(g.is_overloaded());
    assert!(g.check_game_over(false));
    assert!(g.game_over);
}

#[test]
fn game_over_is_final() {
    let mut g = GameState::new();
    assert!(g.check_game_over(true));
    assert!(!g.check_game_over(true));
    assert!(!g.check_game_over(false));
    assert!(g.game_over);
}

#[test]
fn restart_begins_a_fresh_game() {
    let mut g = GameState::new();
    g.land_passenger(PassengerKind::Frog);
    g.check_game_over(true);
    assert!(!g.restart(false));
    assert!(g.game_over);
    assert_eq!(g.score, 20);
    assert!(g.restart(true));
    assert_eq!((g.score, g.passengers_on_board, g.game_over), (0, 0, false));
}
