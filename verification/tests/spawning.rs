use capybara_commute::passenger::PassengerKind;
use capybara_commute::spawn::{kind_for_roll, random_passenger_kind, ROLL_RANGE};

#[test]
fn roll_thresholds() {
    assert_eq!(kind_for_roll(0), PassengerKind::Duckling);
    assert_eq!(kind_for_roll(49), PassengerKind::Duckling);
    assert_eq!(kind_for_roll(50), PassengerKind::Frog);
    assert_eq!(kind_for_roll(84), PassengerKind::Frog);
    assert_eq!(kind_for_roll(85), PassengerKind::Butterfly);
    assert_eq!(kind_for_roll(99), PassengerKind::Butterfly);
}

#[test]
fn fifty_thirty_five_fifteen() {
    let mut counts = [0u32; 3];
    for roll in 0..ROLL_RANGE {
        match kind_for_roll(roll) {
            PassengerKind::Duckling => counts[0] += 1,
            PassengerKind::Frog => counts[1] += 1,
            PassengerKind::Butterfly => counts[2] += 1,
        }
    }
    assert_eq!(counts, [50, 35, 15]);
}

#[test]
fn random_kinds_cover_every_kind() {
    let mut seen = [false; 3];
    for _ in 0..2000 {
        match random_passenger_kind() {
            PassengerKind::Duckling => seen[0] = true,
            PassengerKind::Frog => seen[1] = true,
            PassengerKind::Butterfly => seen[2] = true,
        }
    }
    assert_eq!(seen, [true, true, true]);
}
