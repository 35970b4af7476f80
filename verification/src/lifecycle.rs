//! The race lifecycle state machine: initialize, join, start, claim.
//!
//! Each handler takes the race by exclusive mutable reference together with
//! the plain values the surrounding program supplies (who signed, the
//! caller's wallet, the ledger clock, and the token balances the escrow
//! collaborator moves), validates its preconditions in order, and either
//! commits the whole effect or returns an error having changed nothing.
//!
//! Only the explicit start path selects a winner. A race the join path
//! starts automatically records none, and both start and claim then reject
//! it, so it stays in progress until its slot is re-initialized; the
//! contracts state this behaviour rather than unify the two paths.

use vstd::prelude::*;
use crate::codec::spec_time_to_u64;
use crate::codec::time_to_u64;
use crate::state::GameState;
use crate::state::HorseRace;
use crate::state::Player;
use crate::state::RaceError;
use crate::state::Wallet;
use crate::state::AUTO_START_TIMEOUT;
use crate::state::MAX_PLAYERS;
use crate::state::MIN_PLAYERS;
use crate::state::REQUIRED_TOKEN_AMOUNT;
use crate::state::distinct_wallets;
use crate::state::is_fresh_race;
use crate::state::race_wf;

verus! {

/// Whether some roster entry is for the given wallet.
pub open spec fn roster_contains(ps: Seq<Player>, w: Wallet) -> bool {
    exists|i: int| 0 <= i < ps.len() && ps[i].wallet == w
}

/// A join succeeds exactly when the caller signed, the race is waiting, the
/// wallet is new, the roster has room, and the stake transfer can be made.
pub open spec fn join_allowed(
    state: GameState,
    players: Seq<Player>,
    signer: bool,
    wallet: Wallet,
    player_balance: u64,
    escrow_balance: u64,
) -> bool {
    &&& signer
    &&& state is WaitingForPlayers
    &&& !roster_contains(players, wallet)
    &&& players.len() < MAX_PLAYERS
    &&& player_balance >= REQUIRED_TOKEN_AMOUNT
    &&& escrow_balance + REQUIRED_TOKEN_AMOUNT <= u64::MAX
}

/// The error a rejected join reports, by the first precondition that fails.
pub open spec fn join_error(
    state: GameState,
    players: Seq<Player>,
    signer: bool,
    wallet: Wallet,
) -> RaceError {
    if !signer {
        RaceError::AuthorizationError
    } else if !(state is WaitingForPlayers) || roster_contains(players, wallet) || players.len()
        >= MAX_PLAYERS {
        RaceError::StateError
    } else {
        RaceError::CollaboratorError
    }
}

/// Whether appending this join starts the race at once: the roster reached
/// capacity, or at least two players are in and the first joined thirty or
/// more seconds ago.
pub open spec fn auto_start(ps: Seq<Player>, now: i64) -> bool
    recommends
        ps.len() > 0,
{
    ||| ps.len() == MAX_PLAYERS
    ||| (ps.len() >= MIN_PLAYERS && now - ps[0].joined_at >= AUTO_START_TIMEOUT)
}

/// A join that fills the roster to capacity starts the race within that
/// same call: together with the join contract, a successful eighth join
/// leaves the race in progress.
pub proof fn lemma_auto_start_at_capacity(ps: Seq<Player>, now: i64)
    requires
        ps.len() == MAX_PLAYERS,
    ensures
        auto_start(ps, now),
{
}

/// A join made thirty or more seconds after the first one, with at least
/// two players then on the roster, starts the race within that same call.
pub proof fn lemma_auto_start_after_timeout(ps: Seq<Player>, now: i64)
    requires
        MIN_PLAYERS <= ps.len(),
        now - ps[0].joined_at >= AUTO_START_TIMEOUT,
    ensures
        auto_start(ps, now),
{
}

/// A join that leaves the roster under capacity before the timeout has
/// elapsed does not start the race.
pub proof fn lemma_no_auto_start_before_timeout(ps: Seq<Player>, now: i64)
    requires
        ps.len() < MAX_PLAYERS,
        now - ps[0].joined_at < AUTO_START_TIMEOUT,
    ensures
        !auto_start(ps, now),
{
}

/// Whether at least `bound` seconds lie between `since` and `now`.
fn elapsed_at_least(now: i64, since: i64, bound: i64) -> (r: bool)
    ensures
        r == (now - since >= bound),
{
    (now as i128) - (since as i128) >= (bound as i128)
}

/// Whether some roster entry is for the given wallet.
fn roster_has(players: &Vec<Player>, w: Wallet) -> (r: bool)
    ensures
        r == roster_contains(players@, w),
{
    let n = players.len();
    let mut i: usize = 0;
    while i < n
        invariant
            i <= n,
            n == players@.len(),
            forall|k: int| 0 <= k < i ==> players@[k].wallet != w,
        decreases n - i,
    {
        if players[i].wallet == w {
            return true;
        }
        i += 1;
    }
    false
}

/// Writes a fresh race over the chosen stake token: waiting, empty roster,
/// no timing, no winner. Requires only a signature; any prior state in the
/// slot is overwritten unconditionally by the caller storing the result.
pub fn process_initialize_race(signer: bool, token_mint: Wallet) -> (result: Result<
    HorseRace,
    RaceError,
>)
    ensures
        match result {
            Ok(r) => signer && is_fresh_race(r, token_mint) && race_wf(r),
            Err(e) => !signer && e == RaceError::AuthorizationError,
        },
{
    if !signer {
        return Err(RaceError::AuthorizationError);
    }
    Ok(
        HorseRace {
            state: GameState::WaitingForPlayers,
            players: Vec::new(),
            start_time: 0,
            winner_index: None,
            token_mint,
        },
    )
}

/// Joins the caller to a waiting race, moving the fixed stake from the
/// caller's balance into the escrow, and starts the race at once if the
/// roster reaches capacity or the timeout since the first join has elapsed.
/// A rejected join changes nothing.
pub fn process_join_race(
    race: &mut HorseRace,
    signer: bool,
    player_wallet: Wallet,
    now: i64,
    player_balance: &mut u64,
    escrow_balance: &mut u64,
) -> (result: Result<(), RaceError>)
    requires
        race_wf(*old(race)),
    ensures
        race_wf(*final(race)),
        result is Ok <==> join_allowed(
            old(race).state,
            old(race).players@,
            signer,
            player_wallet,
            *old(player_balance),
            *old(escrow_balance),
        ),
        result matches Err(e) ==> {
            &&& e == join_error(old(race).state, old(race).players@, signer, player_wallet)
            &&& *final(race) == *old(race)
            &&& *final(player_balance) == *old(player_balance)
            &&& *final(escrow_balance) == *old(escrow_balance)
        },
        result is Ok ==> {
            let joined = old(race).players@.push(
                Player { wallet: player_wallet, joined_at: now },
            );
            &&& final(race).players@ == joined
            &&& *final(player_balance) == *old(player_balance) - REQUIRED_TOKEN_AMOUNT
            &&& *final(escrow_balance) == *old(escrow_balance) + REQUIRED_TOKEN_AMOUNT
            &&& final(race).token_mint == old(race).token_mint
            &&& final(race).winner_index is None
            &&& final(race).state == (if auto_start(joined, now) {
                GameState::RaceInProgress
            } else {
                GameState::WaitingForPlayers
            })
            &&& final(race).start_time == (if auto_start(joined, now) {
                now
            } else {
                old(race).start_time
            })
        },
{
    if !signer {
        return Err(RaceError::AuthorizationError);
    }
    if !matches!(race.state, GameState::WaitingForPlayers) {
        return Err(RaceError::StateError);
    }
    if roster_has(&race.players, player_wallet) {
        return Err(RaceError::StateError);
    }
    if race.players.len() >= MAX_PLAYERS {
        return Err(RaceError::StateError);
    }
    if *player_balance < REQUIRED_TOKEN_AMOUNT {
        return Err(RaceError::CollaboratorError);
    }
    if *escrow_balance > u64::MAX - REQUIRED_TOKEN_AMOUNT {
        return Err(RaceError::CollaboratorError);
    }
    *player_balance = *player_balance - REQUIRED_TOKEN_AMOUNT;
    *escrow_balance = *escrow_balance + REQUIRED_TOKEN_AMOUNT;
    let ghost before = race.players@;
    race.players.push(Player { wallet: player_wallet, joined_at: now });
    proof {
        let joined = before.push(Player { wallet: player_wallet, joined_at: now });
        assert forall|a: int, b: int| 0 <= a < b < joined.len() implies joined[a].wallet
            != joined[b].wallet by {
            if b < before.len() {
            } else {
                assert(joined[a] == before[a]);
            }
        }
        assert(distinct_wallets(joined));
    }
    let len = race.players.len();
    let first_joined_at = race.players[0].joined_at;
    let should_start = len == MAX_PLAYERS || (len >= MIN_PLAYERS && elapsed_at_least(
        now,
        first_joined_at,
        AUTO_START_TIMEOUT,
    ));
    if should_start {
        race.state = GameState::RaceInProgress;
        race.start_time = now;
    }
    Ok(())
}

/// The roster slot the weak randomness source picks: the clock's bit
/// pattern, reduced modulo the roster size.
pub open spec fn spec_winner_index(now: i64, n: nat) -> nat
    recommends
        n > 0,
{
    (spec_time_to_u64(now) % (n as u64)) as nat
}

/// A start succeeds exactly when the caller signed, the race is waiting,
/// and at least two players are in.
pub open spec fn start_allowed(state: GameState, players: Seq<Player>, signer: bool) -> bool {
    &&& signer
    &&& state is WaitingForPlayers
    &&& players.len() >= MIN_PLAYERS
}

/// The error a rejected start reports.
pub open spec fn start_error(signer: bool) -> RaceError {
    if !signer {
        RaceError::AuthorizationError
    } else {
        RaceError::StateError
    }
}

/// Starts a waiting race with at least two players and selects the winner
/// at once from the current ledger time — a deterministic, observable
/// choice, carried over as a documented weakness of the design rather than
/// an unbiased draw. The race completes within this same call.
pub fn process_start_race(race: &mut HorseRace, signer: bool, now: i64) -> (result: Result<
    (),
    RaceError,
>)
    requires
        race_wf(*old(race)),
    ensures
        race_wf(*final(race)),
        result is Ok <==> start_allowed(old(race).state, old(race).players@, signer),
        result matches Err(e) ==> {
            &&& e == start_error(signer)
            &&& *final(race) == *old(race)
        },
        result is Ok ==> {
            &&& final(race).state is RaceCompleted
            &&& final(race).start_time == now
            &&& final(race).players@ == old(race).players@
            &&& final(race).token_mint == old(race).token_mint
            &&& final(race).winner_index == Some(
                spec_winner_index(now, old(race).players@.len()) as usize,
            )
            &&& spec_winner_index(now, old(race).players@.len()) < old(race).players@.len()
        },
{
    if !signer {
        return Err(RaceError::AuthorizationError);
    }
    if !matches!(race.state, GameState::WaitingForPlayers) {
        return Err(RaceError::StateError);
    }
    let n = race.players.len();
    if n < MIN_PLAYERS {
        return Err(RaceError::StateError);
    }
    let seed = time_to_u64(now);
    let winner = (seed % (n as u64)) as usize;
    race.state = GameState::RaceCompleted;
    race.start_time = now;
    race.winner_index = Some(winner);
    Ok(())
}

/// A claim succeeds exactly when the caller signed, the race is completed
/// with a recorded winner, the caller is that winner, and crediting the pot
/// cannot overflow the winner's balance.
pub open spec fn claim_allowed(
    state: GameState,
    players: Seq<Player>,
    winner_index: Option<usize>,
    signer: bool,
    caller: Wallet,
    escrow_balance: u64,
    winner_balance: u64,
) -> bool {
    &&& signer
    &&& state is RaceCompleted
    &&& (winner_index matches Some(w) && players[w as int].wallet == caller)
    &&& winner_balance + escrow_balance <= u64::MAX
}

/// The error a rejected claim reports, by the first precondition that
/// fails.
pub open spec fn claim_error(
    state: GameState,
    players: Seq<Player>,
    winner_index: Option<usize>,
    signer: bool,
    caller: Wallet,
) -> RaceError {
    if !signer {
        RaceError::AuthorizationError
    } else if !(state is RaceCompleted) || winner_index is None {
        RaceError::StateError
    } else if !(winner_index matches Some(w) && players[w as int].wallet == caller) {
        RaceError::AuthorizationError
    } else {
        RaceError::CollaboratorError
    }
}

/// Pays the whole escrowed pot to the recorded winner and resets the race
/// in place for reuse, keeping its stake token. If anything fails, both the
/// race and the balances are left unchanged — there is no partial reset.
pub fn process_claim_winnings(
    race: &mut HorseRace,
    signer: bool,
    caller: Wallet,
    escrow_balance: &mut u64,
    winner_balance: &mut u64,
) -> (result: Result<(), RaceError>)
    requires
        race_wf(*old(race)),
    ensures
        race_wf(*final(race)),
        result is Ok <==> claim_allowed(
            old(race).state,
            old(race).players@,
            old(race).winner_index,
            signer,
            caller,
            *old(escrow_balance),
            *old(winner_balance),
        ),
        result matches Err(e) ==> {
            &&& e == claim_error(
                old(race).state,
                old(race).players@,
                old(race).winner_index,
                signer,
                caller,
            )
            &&& *final(race) == *old(race)
            &&& *final(escrow_balance) == *old(escrow_balance)
            &&& *final(winner_balance) == *old(winner_balance)
        },
        result is Ok ==> {
            &&& *final(escrow_balance) == 0
            &&& *final(winner_balance) == *old(winner_balance) + *old(escrow_balance)
            &&& final(race).state is WaitingForPlayers
            &&& final(race).players@.len() == 0
            &&& final(race).start_time == 0
            &&& final(race).winner_index is None
            &&& final(race).token_mint == old(race).token_mint
        },
{
    if !signer {
        return Err(RaceError::AuthorizationError);
    }
    if !matches!(race.state, GameState::RaceCompleted) {
        return Err(RaceError::StateError);
    }
    let winner = match race.winner_index {
        Some(w) => w,
        None => {
            return Err(RaceError::StateError);
        },
    };
    if !(race.players[winner].wallet == caller) {
        return Err(RaceError::AuthorizationError);
    }
    let amount = *escrow_balance;
    if *winner_balance > u64::MAX - amount {
        return Err(RaceError::CollaboratorError);
    }
    *winner_balance = *winner_balance + amount;
    *escrow_balance = 0;
    race.state = GameState::WaitingForPlayers;
    race.players = Vec::new();
    race.start_time = 0;
    race.winner_index = None;
    Ok(())
}

} // verus!

