//! Operation decoding and dispatch.
//!
//! An incoming operation is a leading discriminant tag, optionally followed
//! by a payload. The router decodes it, loads the race from its storage
//! bytes, runs the matching lifecycle handler, and stores the race back into
//! the same bytes. Any failure leaves the stored bytes and the balances
//! exactly as they were.

use vstd::prelude::*;
use crate::codec::deserialize_race;
use crate::codec::serialize_race;
use crate::codec::spec_decode_race;
use crate::codec::spec_decode_wallet;
use crate::codec::spec_encode_race_parts;
use crate::lifecycle::auto_start;
use crate::lifecycle::claim_allowed;
use crate::lifecycle::claim_error;
use crate::lifecycle::join_allowed;
use crate::lifecycle::join_error;
use crate::lifecycle::process_claim_winnings;
use crate::lifecycle::process_initialize_race;
use crate::lifecycle::process_join_race;
use crate::lifecycle::process_start_race;
use crate::lifecycle::spec_winner_index;
use crate::lifecycle::start_allowed;
use crate::lifecycle::start_error;
use crate::state::GameState;
use crate::state::Player;
use crate::state::RaceError;
use crate::state::Wallet;
use crate::state::REQUIRED_TOKEN_AMOUNT;

verus! {

/// The four operations the program handles.
#[derive(Clone, Copy, PartialEq, Eq, Structural, Debug)]
pub enum HorseRaceInstruction {
    /// Set up a fresh race accepting the given stake token.
    InitializeRace { token_mint: Wallet },
    /// Join the race by staking the fixed token amount.
    JoinRace,
    /// Start the race and select the winner.
    StartRace,
    /// Pay the pot to the winner and reset the race.
    ClaimWinnings,
}

/// What operation the payload bytes denote: a one-byte tag, followed for
/// initialization by the 32-byte stake token identity; `None` on any other
/// shape.
pub open spec fn spec_decode_instruction(d: Seq<u8>) -> Option<HorseRaceInstruction> {
    if d.len() == 0 {
        Option::None
    } else if d[0] == 0 {
        if d.len() == 33 {
            Option::Some(
                HorseRaceInstruction::InitializeRace {
                    token_mint: spec_decode_wallet(d.subrange(1, 33)),
                },
            )
        } else {
            Option::None
        }
    } else if d[0] == 1 {
        if d.len() == 1 {
            Option::Some(HorseRaceInstruction::JoinRace)
        } else {
            Option::None
        }
    } else if d[0] == 2 {
        if d.len() == 1 {
            Option::Some(HorseRaceInstruction::StartRace)
        } else {
            Option::None
        }
    } else if d[0] == 3 {
        if d.len() == 1 {
            Option::Some(HorseRaceInstruction::ClaimWinnings)
        } else {
            Option::None
        }
    } else {
        Option::None
    }
}

/// Decodes an operation payload, rejecting any malformed one.
pub fn decode_instruction(d: &[u8]) -> (result: Result<HorseRaceInstruction, RaceError>)
    ensures
        match result {
            Ok(instr) => spec_decode_instruction(d@) == Option::Some(instr),
            Err(e) => e == RaceError::DecodingError && spec_decode_instruction(d@) is None,
        },
{
    if d.len() == 0 {
        return Err(RaceError::DecodingError);
    }
    let tag = d[0];
    if tag == 0 {
        if d.len() != 33 {
            return Err(RaceError::DecodingError);
        }
        let token_mint = crate::codec::read_wallet(d, 1);
        Ok(HorseRaceInstruction::InitializeRace { token_mint })
    } else if tag == 1 {
        if d.len() != 1 {
            return Err(RaceError::DecodingError);
        }
        Ok(HorseRaceInstruction::JoinRace)
    } else if tag == 2 {
        if d.len() != 1 {
            return Err(RaceError::DecodingError);
        }
        Ok(HorseRaceInstruction::StartRace)
    } else if tag == 3 {
        if d.len() != 1 {
            return Err(RaceError::DecodingError);
        }
        Ok(HorseRaceInstruction::ClaimWinnings)
    } else {
        Err(RaceError::DecodingError)
    }
}

/// Decodes one operation and runs it against the race stored in
/// `game_data`, using `caller_balance` as the caller's token holding and
/// `escrow_balance` as the pooled pot. On success the updated race is
/// stored back; on any failure nothing observable changes.
pub fn process_instruction(
    game_data: &mut Vec<u8>,
    instruction_data: &[u8],
    signer: bool,
    caller: Wallet,
    now: i64,
    caller_balance: &mut u64,
    escrow_balance: &mut u64,
) -> (result: Result<(), RaceError>)
    ensures
        result is Err ==> {
            &&& final(game_data)@ == old(game_data)@
            &&& *final(caller_balance) == *old(caller_balance)
            &&& *final(escrow_balance) == *old(escrow_balance)
        },
        match spec_decode_instruction(instruction_data@) {
            Option::None => result == Err::<(), RaceError>(RaceError::DecodingError),
            Option::Some(instr) => {
                if !signer {
                    result == Err::<(), RaceError>(RaceError::AuthorizationError)
                } else {
                    match instr {
                        HorseRaceInstruction::InitializeRace { token_mint } => {
                            &&& result is Ok
                            &&& final(game_data)@ == spec_encode_race_parts(
                                GameState::WaitingForPlayers,
                                Seq::<Player>::empty(),
                                0,
                                Option::None,
                                token_mint,
                            )
                            &&& *final(caller_balance) == *old(caller_balance)
                            &&& *final(escrow_balance) == *old(escrow_balance)
                        },
                        HorseRaceInstruction::JoinRace => {
                            match spec_decode_race(old(game_data)@) {
                                Option::None => result == Err::<(), RaceError>(
                                    RaceError::DecodingError,
                                ),
                                Option::Some((st0, ps0, t0, w0, mint)) => {
                                    &&& (result is Ok <==> join_allowed(
                                        st0,
                                        ps0,
                                        signer,
                                        caller,
                                        *old(caller_balance),
                                        *old(escrow_balance),
                                    ))
                                    &&& (result matches Err(e) ==> e == join_error(
                                        st0,
                                        ps0,
                                        signer,
                                        caller,
                                    ))
                                    &&& (result is Ok ==> {
                                        let joined = ps0.push(
                                            Player { wallet: caller, joined_at: now },
                                        );
                                        let started = auto_start(joined, now);
                                        &&& *final(caller_balance) == *old(caller_balance)
                                            - REQUIRED_TOKEN_AMOUNT
                                        &&& *final(escrow_balance) == *old(escrow_balance)
                                            + REQUIRED_TOKEN_AMOUNT
                                        &&& final(game_data)@ == spec_encode_race_parts(
                                            if started {
                                                GameState::RaceInProgress
                                            } else {
                                                GameState::WaitingForPlayers
                                            },
                                            joined,
                                            if started {
                                                now
                                            } else {
                                                t0
                                            },
                                            w0,
                                            mint,
                                        )
                                    })
                                },
                            }
                        },
                        HorseRaceInstruction::StartRace => {
                            match spec_decode_race(old(game_data)@) {
                                Option::None => result == Err::<(), RaceError>(
                                    RaceError::DecodingError,
                                ),
                                Option::Some((st0, ps0, t0, w0, mint)) => {
                                    &&& (result is Ok <==> start_allowed(st0, ps0, signer))
                                    &&& (result matches Err(e) ==> e == start_error(signer))
                                    &&& *final(caller_balance) == *old(caller_balance)
                                    &&& *final(escrow_balance) == *old(escrow_balance)
                                    &&& (result is Ok ==> final(game_data)@
                                        == spec_encode_race_parts(
                                        GameState::RaceCompleted,
                                        ps0,
                                        now,
                                        Option::Some(
                                            spec_winner_index(now, ps0.len()) as usize,
                                        ),
                                        mint,
                                    ))
                                },
                            }
                        },
                        HorseRaceInstruction::ClaimWinnings => {
                            match spec_decode_race(old(game_data)@) {
                                Option::None => result == Err::<(), RaceError>(
                                    RaceError::DecodingError,
                                ),
                                Option::Some((st0, ps0, t0, w0, mint)) => {
                                    &&& (result is Ok <==> claim_allowed(
                                        st0,
                                        ps0,
                                        w0,
                                        signer,
                                        caller,
                                        *old(escrow_balance),
                                        *old(caller_balance),
                                    ))
                                    &&& (result matches Err(e) ==> e == claim_error(
                                        st0,
                                        ps0,
                                        w0,
                                        signer,
                                        caller,
                                    ))
                                    &&& (result is Ok ==> {
                                        &&& *final(escrow_balance) == 0
                                        &&& *final(caller_balance) == *old(caller_balance)
                                            + *old(escrow_balance)
                                        &&& final(game_data)@ == spec_encode_race_parts(
                                            GameState::WaitingForPlayers,
                                            Seq::<Player>::empty(),
                                            0,
                                            Option::None,
                                            mint,
                                        )
                                    })
                                },
                            }
                        },
                    }
                }
            },
        },
{
    let instr = match decode_instruction(instruction_data) {
        Ok(instr) => instr,
        Err(e) => {
            return Err(e);
        },
    };
    if !signer {
        return Err(RaceError::AuthorizationError);
    }
    match instr {
        HorseRaceInstruction::InitializeRace { token_mint } => {
            let race = match process_initialize_race(signer, token_mint) {
                Ok(race) => race,
                Err(e) => {
                    return Err(e);
                },
            };
            proof {
                assert(race.players@ =~= Seq::<Player>::empty());
            }
            let bytes = serialize_race(&race);
            *game_data = bytes;
            Ok(())
        },
        HorseRaceInstruction::JoinRace => {
            let mut race = match deserialize_race(game_data.as_slice()) {
                Ok(race) => race,
                Err(e) => {
                    return Err(e);
                },
            };
            match process_join_race(&mut race, signer, caller, now, caller_balance, escrow_balance)
            {
                Ok(()) => {
                    let bytes = serialize_race(&race);
                    *game_data = bytes;
                    Ok(())
                },
                Err(e) => Err(e),
            }
        },
        HorseRaceInstruction::StartRace => {
            let mut race = match deserialize_race(game_data.as_slice()) {
                Ok(race) => race,
                Err(e) => {
                    return Err(e);
                },
            };
            match process_start_race(&mut race, signer, now) {
                Ok(()) => {
                    let bytes = serialize_race(&race);
                    *game_data = bytes;
                    Ok(())
                },
                Err(e) => Err(e),
            }
        },
        HorseRaceInstruction::ClaimWinnings => {
            let mut race = match deserialize_race(game_data.as_slice()) {
                Ok(race) => race,
                Err(e) => {
                    return Err(e);
                },
            };
            match process_claim_winnings(&mut race, signer, caller, escrow_balance, caller_balance)
            {
                Ok(()) => {
                    proof {
                        assert(race.players@ =~= Seq::<Player>::empty());
                    }
                    let bytes = serialize_race(&race);
                    *game_data = bytes;
                    Ok(())
                },
                Err(e) => Err(e),
            }
        },
    }
}

} // verus!
