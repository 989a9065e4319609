use capybara_commute::controls::steer_direction;
use capybara_commute::game::GameState;
use capybara_commute::hud::{decimal_string, final_score_line, score_line};
use capybara_commute::passenger::PassengerKind;

#[test]
fn numerals_match_display() {
    for n in [0u32, 7, 9, 10, 42, 100, 1234, 99999, 1_000_000, u32::MAX] {
        assert_eq!(decimal_string(n), n.to_string());
    }
}

#[test]
fn score_line_reads_score_and_riders() {
    let mut g = GameState::new();
    assert_eq!(score_line(&g), "Score: 0  🦫×0");
    g.land_passenger(PassengerKind::Frog);
    g.land_passenger(PassengerKind::Duckling);
    assert_eq!(score_line(&g), format!("Score: {}  🦫×{}", 30, 2));
    assert_eq!(score_line(&g), "Score: 30  🦫×2");
}

#[test]
fn final_score_line_reads_score() {
    let mut g = GameState::new();
    g.land_passenger(PassengerKind::Butterfly);
    assert_eq!(final_score_line(&g), "Final Score: 5");
}

#[test]
fn steering() {
    assert_eq!(steer_direction(false, false), 0);
    assert_eq!(steer_direction(true, false), -1);
    assert_eq!(steer_direction(false, true), 1);
    assert_eq!(steer_direction(true, true), 0);
}
