use capybara_commute::passenger::{PassengerKind, WEIGHT_SCALE};

#[test]
fn weights_match_the_scoring_table() {
    assert_eq!(PassengerKind::Duckling.weight_tenths(), 10);
    assert_eq!(PassengerKind::Frog.weight_tenths(), 18);
    assert_eq!(PassengerKind::Butterfly.weight_tenths(), -4);
    assert_eq!(WEIGHT_SCALE, 10);
    // As the game uses them: 1.0, 1.8 and -0.4.
    assert_eq!(PassengerKind::Duckling.weight_tenths() as f32 / WEIGHT_SCALE as f32, 1.0_f32);
    assert_eq!(PassengerKind::Frog.weight_tenths() as f32 / WEIGHT_SCALE as f32, 1.8_f32);
    assert_eq!(PassengerKind::Butterfly.weight_tenths() as f32 / WEIGHT_SCALE as f32, -0.4_f32);
}

#[test]
fn points_match_the_scoring_table() {
    assert_eq!(PassengerKind::Duckling.score_value(), 10);
    assert_eq!(PassengerKind::Frog.score_value(), 20);
    assert_eq!(PassengerKind::Butterfly.score_value(), 5);
}

#[test]
fn only_butterflies_have_negative_weight() {
    let kinds = [PassengerKind::Duckling, PassengerKind::Frog, PassengerKind::Butterfly];
    for k in kinds {
        assert_eq!(k.weight_tenths() < 0, k == PassengerKind::Butterfly);
    }
    assert!(PassengerKind::Frog.weight_tenths() > PassengerKind::Duckling.weight_tenths());
}

#[test]
fn emojis() {
    assert_eq!(PassengerKind::Duckling.emoji_char(), "🐥");
    assert_eq!(PassengerKind::Frog.emoji_char(), "🐸");
    assert_eq!(PassengerKind::Butterfly.emoji_char(), "🦋");
}
