use vstd::prelude::*;
use crate::passenger::PassengerKind;

verus! {

/// Stacking this many passengers sinks the capybara.
pub const MAX_PASSENGERS: u32 = 8;

/// The score-keeping part of a game in progress.
pub struct GameState {
    pub score: u32,
    pub passengers_on_board: u32,
    pub game_over: bool,
}

/// Sum of the points of a sequence of passengers.
pub open spec fn total_score(kinds: Seq<PassengerKind>) -> nat
    decreases kinds.len(),
{
    if kinds.len() == 0 {
        0
    } else {
        total_score(kinds.drop_last()) + kinds.last().spec_score_value()
    }
}

impl GameState {
    /// A fresh game: nothing scored, nobody on board, still playing.
    pub open spec fn spec_fresh() -> GameState {
        GameState { score: 0, passengers_on_board: 0, game_over: false }
    }

    /// Landing a passenger would not overflow the counters.
    pub open spec fn can_land(self, kind: PassengerKind) -> bool {
        &&& self.passengers_on_board < u32::MAX
        &&& self.score + kind.spec_score_value() <= u32::MAX
    }

    /// The state after `kind` lands: it takes the next free slot on the
    /// capybara's back and its points are added to the score.
    pub open spec fn spec_land(self, kind: PassengerKind) -> GameState {
        GameState {
            score: (self.score + kind.spec_score_value()) as u32,
            passengers_on_board: (self.passengers_on_board + 1) as u32,
            game_over: self.game_over,
        }
    }

    /// The state after the passengers of `kinds` land, in order.
    pub open spec fn spec_land_all(self, kinds: Seq<PassengerKind>) -> GameState
        decreases kinds.len(),
    {
        if kinds.len() == 0 {
            self
        } else {
            self.spec_land_all(kinds.drop_last()).spec_land(kinds.last())
        }
    }

    /// Too many passengers are on board.
    pub open spec fn spec_overloaded(self) -> bool {
        self.passengers_on_board >= MAX_PASSENGERS
    }

    /// The state after the end-of-game check, given whether the capybara has toppled.
    pub open spec fn spec_check_game_over(self, toppled: bool) -> GameState {
        GameState {
            game_over: self.game_over || toppled || self.spec_overloaded(),
            ..self
        }
    }

    /// Starts a fresh game.
    pub fn new() -> (g: GameState)
        ensures
            g == GameState::spec_fresh(),
    {
        GameState { score: 0, passengers_on_board: 0, game_over: false }
    }

    /// Records that a passenger of `kind` has landed on the capybara and
    /// returns the slot it takes on the capybara's back.
    pub fn land_passenger(&mut self, kind: PassengerKind) -> (slot: u32)
        requires
            old(self).can_land(kind),
        ensures
            slot == old(self).passengers_on_board,
            *final(self) == old(self).spec_land(kind),
    {
        let slot = self.passengers_on_board;
        self.passengers_on_board = self.passengers_on_board + 1;
        self.score = self.score + kind.score_value();
        slot
    }

    /// Whether the capybara carries too many passengers.
    pub fn is_overloaded(&self) -> (b: bool)
        ensures
            b == self.spec_overloaded(),
    {
        self.passengers_on_board >= MAX_PASSENGERS
    }

    /// Decides whether the game ends now: it does when the capybara has
    /// toppled or is overloaded, unless the game had already ended.
    /// Returns `true` exactly when this call ends the game.
    pub fn check_game_over(&mut self, toppled: bool) -> (ended: bool)
        ensures
            *final(self) == old(self).spec_check_game_over(toppled),
            ended == (!old(self).game_over && (toppled || old(self).passengers_on_board >= 8)),
            final(self).score == old(self).score,
            final(self).passengers_on_board == old(self).passengers_on_board,
            final(self).game_over == (old(self).game_over || toppled
                || old(self).passengers_on_board >= 8),
    {
        if self.game_over {
            return false;
        }
        let overloaded = self.is_overloaded();
        if toppled || overloaded {
            self.game_over = true;
            true
        } else {
            false
        }
    }
}

impl GameState {
    /// Handles the restart key on the game-over screen: when it was just
    /// pressed, a fresh game begins and `true` is returned; otherwise
    /// nothing changes.
    pub fn restart(&mut self, restart_pressed: bool) -> (restarted: bool)
        ensures
            restarted == restart_pressed,
            *final(self) == if restart_pressed { GameState::spec_fresh() } else { *old(self) },
    {
        if !restart_pressed {
            return false;
        }
        *self = GameState::new();
        true
    }
}

impl Default for GameState {
    fn default() -> (g: GameState)
        ensures
            g == GameState::spec_fresh(),
    {
        GameState::new()
    }
}

/// Landing passengers one after another from a fresh game: the `i`-th of
/// them gets slot `i`, so no two share a slot, the count on board is the
/// number landed, and the score is the sum of their points.
pub proof fn lemma_landing_fills_consecutive_slots(kinds: Seq<PassengerKind>)
    requires
        kinds.len() <= u32::MAX,
        total_score(kinds) <= u32::MAX,
    ensures
        GameState::spec_fresh().spec_land_all(kinds).passengers_on_board == kinds.len(),
        GameState::spec_fresh().spec_land_all(kinds).score == total_score(kinds),
        !GameState::spec_fresh().spec_land_all(kinds).game_over,
        forall|i: int|
            0 <= i < kinds.len() ==> #[trigger] GameState::spec_fresh().spec_land_all(
                kinds.take(i),
            ).passengers_on_board == i,
    decreases kinds.len(),
{
    if kinds.len() > 0 {
        let prefix = kinds.drop_last();
        lemma_total_score_monotone(kinds);
        lemma_landing_fills_consecutive_slots(prefix);
        assert forall|i: int| 0 <= i < kinds.len() implies #[trigger] GameState::spec_fresh().spec_land_all(
            kinds.take(i),
        ).passengers_on_board == i by {
            if i < prefix.len() {
                assert(kinds.take(i) =~= prefix.take(i));
            } else {
                assert(kinds.take(i) =~= prefix);
            }
        }
    }
}

/// The score of a prefix never exceeds the score of the whole sequence.
proof fn lemma_total_score_monotone(kinds: Seq<PassengerKind>)
    requires
        kinds.len() > 0,
    ensures
        total_score(kinds.drop_last()) <= total_score(kinds),
{
}

/// Once the game is over, the end-of-game check changes nothing and does
/// not end it a second time.
pub proof fn lemma_game_over_is_final(g: GameState, toppled: bool)
    requires
        g.game_over,
    ensures
        g.spec_check_game_over(toppled) == g,
{
}

/// The end-of-game check only ever sets the game-over flag: the score and
/// the riders on board are kept for the game-over screen, and the game is
/// over afterwards exactly when it already was, the capybara toppled, or
/// eight or more passengers are on board.
pub proof fn lemma_check_keeps_score(g: GameState, toppled: bool)
    ensures
        g.spec_check_game_over(toppled).score == g.score,
        g.spec_check_game_over(toppled).passengers_on_board == g.passengers_on_board,
        g.spec_check_game_over(toppled).game_over == (g.game_over || toppled
            || g.passengers_on_board >= 8),
{
}

/// From a fresh game, landing passengers keeps the game going until the
/// check sees the eighth one on board: the capybara sinks exactly when at
/// least `MAX_PASSENGERS` have landed (whatever the tilt).
pub proof fn lemma_overload_after_max_passengers(kinds: Seq<PassengerKind>)
    requires
        kinds.len() <= u32::MAX,
        total_score(kinds) <= u32::MAX,
    ensures
        GameState::spec_fresh().spec_land_all(kinds).spec_check_game_over(false).game_over
            <==> kinds.len() >= MAX_PASSENGERS,
        GameState::spec_fresh().spec_land_all(kinds).spec_check_game_over(true).game_over,
{
    lemma_landing_fills_consecutive_slots(kinds);
}

} // verus!
