use vstd::prelude::*;
use rand::Rng;
use crate::passenger::PassengerKind;

verus! {

/// A spawn lottery draws a percentage roll below this bound.
pub const ROLL_RANGE: u32 = 100;

/// The kind drawn for a percentage roll: rolls below 50 give a duckling,
/// rolls from 50 below 85 a frog, and the rest a butterfly.
pub open spec fn spec_kind_for_roll(roll: int) -> PassengerKind {
    if roll < 50 {
        PassengerKind::Duckling
    } else if roll < 85 {
        PassengerKind::Frog
    } else {
        PassengerKind::Butterfly
    }
}

/// How many of the rolls `0 .. n` give `kind`.
pub open spec fn rolls_giving(n: nat, kind: PassengerKind) -> nat
    decreases n,
{
    if n == 0 {
        0
    } else {
        rolls_giving((n - 1) as nat, kind) + if spec_kind_for_roll(n - 1) == kind {
            1nat
        } else {
            0nat
        }
    }
}

/// The kind of passenger for a percentage roll.
pub fn kind_for_roll(roll: u32) -> (kind: PassengerKind)
    ensures
        kind == spec_kind_for_roll(roll as int),
        roll < 50 ==> kind == PassengerKind::Duckling,
        50 <= roll < 85 ==> kind == PassengerKind::Frog,
        85 <= roll ==> kind == PassengerKind::Butterfly,
{
    if roll < 50 {
        PassengerKind::Duckling
    } else if roll < 85 {
        PassengerKind::Frog
    } else {
        PassengerKind::Butterfly
    }
}

/// Draws a number below `bound` from the thread's random generator:
/// `rand::Rng::gen_range(0..bound)` on `rand::thread_rng()`, which panics
/// on an empty range (hence `bound > 0`).  The contract claims only that
/// the number lies in `0 .. bound`; which one comes out is left open,
/// since it rests on chance.
#[verifier::external_body]
fn random_below(bound: u32) -> (r: u32)
    requires
        bound > 0,
    ensures
        r < bound,
{
    rand::thread_rng().gen_range(0..bound)
}

/// Draws a percentage roll and the kind of passenger it gives.  The kind
/// is the one the spawn table gives for the very roll that was drawn, so
/// each kind comes out for exactly the rolls that `lemma_spawn_odds` counts.
pub fn draw_passenger() -> (draw: (u32, PassengerKind))
    ensures
        draw.0 < ROLL_RANGE,
        draw.1 == spec_kind_for_roll(draw.0 as int),
        draw.0 < 50 ==> draw.1 == PassengerKind::Duckling,
        50 <= draw.0 < 85 ==> draw.1 == PassengerKind::Frog,
        85 <= draw.0 ==> draw.1 == PassengerKind::Butterfly,
{
    let roll = random_below(ROLL_RANGE);
    let kind = kind_for_roll(roll);
    (roll, kind)
}

/// Draws the kind of the next passenger to fall from the sky: the kind of
/// the roll that `draw_passenger` draws.  The roll itself stays inside, so
/// the contract can say only that the kind is the kind of some roll in
/// `0 .. 100`; `draw_passenger` states the exact relation.
pub fn random_passenger_kind() -> (kind: PassengerKind)
    ensures
        exists|roll: int| 0 <= roll < ROLL_RANGE && kind == spec_kind_for_roll(roll),
{
    let (roll, kind) = draw_passenger();
    assert(0 <= roll as int && roll < ROLL_RANGE && kind == spec_kind_for_roll(roll as int));
    kind
}

/// Counts of the rolls below `n` for each kind.
proof fn lemma_rolls_giving_prefix(n: nat)
    requires
        n <= ROLL_RANGE,
    ensures
        rolls_giving(n, PassengerKind::Duckling) == if n < 50 { n } else { 50 },
        rolls_giving(n, PassengerKind::Frog) == if n < 50 {
            0
        } else if n < 85 {
            (n - 50) as nat
        } else {
            35
        },
        rolls_giving(n, PassengerKind::Butterfly) == if n < 85 { 0 } else { (n - 85) as nat },
    decreases n,
{
    if n > 0 {
        lemma_rolls_giving_prefix((n - 1) as nat);
    }
}

/// The spawn table read roll by roll: rolls `0 .. 50` give ducklings,
/// `50 .. 85` frogs and the rest butterflies.
pub proof fn lemma_kind_for_each_roll(roll: int)
    ensures
        0 <= roll < 50 ==> spec_kind_for_roll(roll) == PassengerKind::Duckling,
        50 <= roll < 85 ==> spec_kind_for_roll(roll) == PassengerKind::Frog,
        85 <= roll < 100 ==> spec_kind_for_roll(roll) == PassengerKind::Butterfly,
{
}

/// The spawn lottery: of the hundred equally likely rolls, 50 give a
/// duckling, 35 a frog and 15 a butterfly.
pub proof fn lemma_spawn_odds()
    ensures
        rolls_giving(ROLL_RANGE as nat, PassengerKind::Duckling) == 50,
        rolls_giving(ROLL_RANGE as nat, PassengerKind::Frog) == 35,
        rolls_giving(ROLL_RANGE as nat, PassengerKind::Butterfly) == 15,
{
    lemma_rolls_giving_prefix(ROLL_RANGE as nat);
}

} // verus!
