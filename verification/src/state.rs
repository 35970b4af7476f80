//! The persisted race entity and its validity invariant.

use vstd::prelude::*;

verus! {

/// Token amount a participant must stake to join a race.
pub const REQUIRED_TOKEN_AMOUNT: u64 = 10_000;

/// Capacity of the roster; reaching it starts the race at once.
pub const MAX_PLAYERS: usize = 8;

/// Fewest players with which a race can be started.
pub const MIN_PLAYERS: usize = 2;

/// Seconds after the first join past which any further join starts the race.
pub const AUTO_START_TIMEOUT: i64 = 30;

/// A 256-bit account identity, held as four 64-bit limbs, least significant
/// first.
#[derive(Clone, Copy, PartialEq, Eq, Structural, Debug)]
pub struct Wallet {
    pub w0: u64,
    pub w1: u64,
    pub w2: u64,
    pub w3: u64,
}

/// Lifecycle state of a race.
#[derive(Clone, Copy, PartialEq, Eq, Structural, Debug)]
pub enum GameState {
    WaitingForPlayers,
    RaceInProgress,
    RaceCompleted,
}

/// One roster entry: who joined, and when.
#[derive(Clone, Copy, PartialEq, Eq, Structural, Debug)]
pub struct Player {
    pub wallet: Wallet,
    pub joined_at: i64,
}

/// The persisted race account: lifecycle state, roster in join order,
/// timing, winner pointer, and the token type the race accepts.
#[derive(Clone, Debug)]
pub struct HorseRace {
    pub state: GameState,
    pub players: Vec<Player>,
    pub start_time: i64,
    pub winner_index: Option<usize>,
    pub token_mint: Wallet,
}

/// Failure kinds an operation can surface.
#[derive(Clone, Copy, PartialEq, Eq, Structural, Debug)]
pub enum RaceError {
    /// Missing credential, or a claim by other than the winner.
    AuthorizationError,
    /// Wrong lifecycle state, duplicate join, full roster, or too few players.
    StateError,
    /// Malformed operation payload or corrupted persisted state.
    DecodingError,
    /// Token-transfer failure, propagated from the escrow collaborator.
    CollaboratorError,
}

/// No two roster entries share a wallet.
pub open spec fn distinct_wallets(ps: Seq<Player>) -> bool {
    forall|i: int, j: int| 0 <= i < j < ps.len() ==> ps[i].wallet != ps[j].wallet
}

/// Validity invariant over the fields of a race: the roster is within
/// capacity with all wallets distinct, a winner is only ever recorded for a
/// completed race and points into the roster, and the start time is zero
/// until the race leaves the waiting state.
pub open spec fn roster_wf(
    state: GameState,
    players: Seq<Player>,
    start_time: i64,
    winner_index: Option<usize>,
) -> bool {
    &&& players.len() <= MAX_PLAYERS
    &&& distinct_wallets(players)
    &&& (winner_index matches Some(w) ==> state is RaceCompleted && (w as int) < players.len())
    &&& (state is RaceCompleted ==> winner_index is Some)
    &&& (state is WaitingForPlayers ==> start_time == 0)
}

/// Validity invariant of a race; every operation both requires and
/// preserves it.
pub open spec fn race_wf(r: HorseRace) -> bool {
    roster_wf(r.state, r.players@, r.start_time, r.winner_index)
}

/// A freshly initialized race over the given stake token: waiting, empty
/// roster, no timing, no winner.
pub open spec fn is_fresh_race(r: HorseRace, token_mint: Wallet) -> bool {
    &&& r.state is WaitingForPlayers
    &&& r.players@.len() == 0
    &&& r.start_time == 0
    &&& r.winner_index is None
    &&& r.token_mint == token_mint
}

impl HorseRace {
    /// Field-wise equality, since the roster keeps this type from deriving it.
    pub open spec fn equal_to(self, other: HorseRace) -> bool {
        &&& self.state == other.state
        &&& self.players@ == other.players@
        &&& self.start_time == other.start_time
        &&& self.winner_index == other.winner_index
        &&& self.token_mint == other.token_mint
    }
}

impl PartialEq for HorseRace {
    fn eq(&self, other: &HorseRace) -> (r: bool) {
        let winner_eq = match (self.winner_index, other.winner_index) {
            (Option::None, Option::None) => true,
            (Option::Some(a), Option::Some(b)) => a == b,
            _ => false,
        };
        if !(self.state == other.state
            && self.start_time == other.start_time
            && winner_eq
            && self.token_mint == other.token_mint
            && self.players.len() == other.players.len())
        {
            return false;
        }
        let n = self.players.len();
        let mut i: usize = 0;
        while i < n
            invariant
                n == self.players@.len(),
                n == other.players@.len(),
                0 <= i <= n,
                forall|k: int| 0 <= k < i ==> self.players@[k] == other.players@[k],
            decreases n - i,
        {
            if !(self.players[i] == other.players[i]) {
                return false;
            }
            i += 1;
        }
        proof {
            assert(self.players@ =~= other.players@);
        }
        true
    }
}

impl vstd::std_specs::cmp::PartialEqSpecImpl for HorseRace {
    open spec fn obeys_eq_spec() -> bool {
        true
    }

    open spec fn eq_spec(&self, other: &HorseRace) -> bool {
        self.equal_to(*other)
    }
}

} // verus!
