use vstd::prelude::*;

verus! {

/// The creatures that fall from the sky and ride on the capybara.
#[derive(Clone, Copy, PartialEq, Eq, Debug, Structural)]
pub enum PassengerKind {
    Duckling,
    Frog,
    /// Light enough to lift the capybara's load: it reduces the tilt.
    Butterfly,
}

/// Weights are kept in tenths of a weight unit, so that they are exact integers.
pub const WEIGHT_SCALE: i32 = 10;

impl PassengerKind {
    /// Weight in tenths: a duckling weighs 1.0, a frog 1.8, a butterfly -0.4.
    pub open spec fn spec_weight_tenths(self) -> int {
        match self {
            PassengerKind::Duckling => 10,
            PassengerKind::Frog => 18,
            PassengerKind::Butterfly => -4,
        }
    }

    /// Points awarded when a passenger of this kind lands on the capybara.
    pub open spec fn spec_score_value(self) -> nat {
        match self {
            PassengerKind::Duckling => 10,
            PassengerKind::Frog => 20,
            PassengerKind::Butterfly => 5,
        }
    }

    /// The emoji that pictures this kind.
    pub open spec fn spec_emoji(self) -> Seq<char> {
        match self {
            PassengerKind::Duckling => "\u{1F425}"@,
            PassengerKind::Frog => "\u{1F438}"@,
            PassengerKind::Butterfly => "\u{1F98B}"@,
        }
    }

    /// Weight of this kind, in tenths of a unit (divide by `WEIGHT_SCALE`).
    pub fn weight_tenths(&self) -> (w: i32)
        ensures
            w == self.spec_weight_tenths(),
    {
        match self {
            PassengerKind::Duckling => 10,
            PassengerKind::Frog => 18,
            PassengerKind::Butterfly => -4,
        }
    }

    /// Points for landing a passenger of this kind.
    pub fn score_value(&self) -> (v: u32)
        ensures
            v == self.spec_score_value(),
    {
        match self {
            PassengerKind::Duckling => 10,
            PassengerKind::Frog => 20,
            PassengerKind::Butterfly => 5,
        }
    }

    /// The emoji of this kind.
    pub fn emoji_char(&self) -> (s: &'static str)
        ensures
            s@ == self.spec_emoji(),
    {
        match self {
            PassengerKind::Duckling => "\u{1F425}",
            PassengerKind::Frog => "\u{1F438}",
            PassengerKind::Butterfly => "\u{1F98B}",
        }
    }
}

/// Butterflies are the only passengers that balance the capybara: theirs is
/// the only negative weight, and a frog is heavier than a duckling.
pub proof fn lemma_only_butterflies_balance(k: PassengerKind)
    ensures
        k.spec_weight_tenths() < 0 <==> k == PassengerKind::Butterfly,
        PassengerKind::Frog.spec_weight_tenths() > PassengerKind::Duckling.spec_weight_tenths(),
        PassengerKind::Duckling.spec_weight_tenths() > 0,
{
}

/// Every passenger scores something, and frogs score the most.
pub proof fn lemma_score_values(k: PassengerKind)
    ensures
        0 < k.spec_score_value() <= PassengerKind::Frog.spec_score_value(),
{
}

} // verus!
