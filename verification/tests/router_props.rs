use horse_race::codec::deserialize_race;
use horse_race::codec::serialize_race;
use horse_race::process_instruction;
use horse_race::GameState;
use horse_race::HorseRace;
use horse_race::RaceError;
use horse_race::Wallet;

fn wallet(n: u64) -> Wallet {
    Wallet { w0: n, w1: n, w2: n, w3: n }
}

fn wallet_bytes(w: &Wallet) -> Vec<u8> {
    let mut out = Vec::new();
    out.extend_from_slice(&w.w0.to_le_bytes());
    out.extend_from_slice(&w.w1.to_le_bytes());
    out.extend_from_slice(&w.w2.to_le_bytes());
    out.extend_from_slice(&w.w3.to_le_bytes());
    out
}

fn initialize_data(mint: &Wallet) -> Vec<u8> {
    let mut data = vec![0u8];
    data.extend_from_slice(&wallet_bytes(mint));
    data
}

#[test]
fn malformed_instruction_is_a_decoding_error() {
    let mut game_data: Vec<u8> = vec![1, 2, 3];
    let mut balance = 0u64;
    let mut escrow = 0u64;
    let r = process_instruction(
        &mut game_data,
        &[9],
        true,
        wallet(1),
        0,
        &mut balance,
        &mut escrow,
    );
    assert_eq!(r, Err(RaceError::DecodingError));
    assert_eq!(game_data, vec![1, 2, 3]);
}

#[test]
fn truncated_initialize_payload_is_a_decoding_error() {
    let mut game_data: Vec<u8> = vec![];
    let mut balance = 0u64;
    let mut escrow = 0u64;
    let r = process_instruction(
        &mut game_data,
        &[0, 1, 2],
        true,
        wallet(1),
        0,
        &mut balance,
        &mut escrow,
    );
    assert_eq!(r, Err(RaceError::DecodingError));
}

#[test]
fn initialize_stores_a_fresh_race() {
    let mut game_data: Vec<u8> = vec![7; 10];
    let mut balance = 0u64;
    let mut escrow = 0u64;
    let mint = wallet(3);
    let r = process_instruction(
        &mut game_data,
        &initialize_data(&mint),
        true,
        wallet(1),
        0,
        &mut balance,
        &mut escrow,
    );
    assert_eq!(r, Ok(()));
    let race = deserialize_race(&game_data).unwrap();
    assert_eq!(race.state, GameState::WaitingForPlayers);
    assert!(race.players.is_empty());
    assert_eq!(race.token_mint, mint);
}

#[test]
fn unsigned_operation_is_an_authorization_error() {
    let mut game_data: Vec<u8> = vec![];
    let mut balance = 0u64;
    let mut escrow = 0u64;
    let r = process_instruction(
        &mut game_data,
        &initialize_data(&wallet(3)),
        false,
        wallet(1),
        0,
        &mut balance,
        &mut escrow,
    );
    assert_eq!(r, Err(RaceError::AuthorizationError));
    assert!(game_data.is_empty());
}

#[test]
fn join_on_corrupt_state_is_a_decoding_error() {
    let mut game_data: Vec<u8> = vec![9, 9, 9];
    let mut balance = 20_000u64;
    let mut escrow = 0u64;
    let r = process_instruction(
        &mut game_data,
        &[1],
        true,
        wallet(1),
        0,
        &mut balance,
        &mut escrow,
    );
    assert_eq!(r, Err(RaceError::DecodingError));
    assert_eq!(game_data, vec![9, 9, 9]);
    assert_eq!(balance, 20_000);
}

#[test]
fn rejected_join_leaves_the_stored_bytes_byte_for_byte() {
    let race = HorseRace {
        state: GameState::RaceInProgress,
        players: vec![],
        start_time: 50,
        winner_index: None,
        token_mint: wallet(3),
    };
    let mut game_data = serialize_race(&race);
    let before = game_data.clone();
    let mut balance = 20_000u64;
    let mut escrow = 0u64;
    let r = process_instruction(
        &mut game_data,
        &[1],
        true,
        wallet(1),
        60,
        &mut balance,
        &mut escrow,
    );
    assert_eq!(r, Err(RaceError::StateError));
    assert_eq!(game_data, before);
    assert_eq!(balance, 20_000);
    assert_eq!(escrow, 0);
}

#[test]
fn a_whole_round_through_the_router() {
    let mut game_data: Vec<u8> = vec![];
    let mint = wallet(3);
    let mut escrow = 0u64;

    let mut none = 0u64;
    process_instruction(
        &mut game_data,
        &initialize_data(&mint),
        true,
        wallet(1),
        0,
        &mut none,
        &mut escrow,
    )
    .unwrap();

    let mut alice = 25_000u64;
    process_instruction(&mut game_data, &[1], true, wallet(100), 10, &mut alice, &mut escrow)
        .unwrap();
    let mut bob = 12_000u64;
    process_instruction(&mut game_data, &[1], true, wallet(200), 11, &mut bob, &mut escrow)
        .unwrap();
    assert_eq!(alice, 15_000);
    assert_eq!(bob, 2_000);
    assert_eq!(escrow, 20_000);

    process_instruction(&mut game_data, &[2], true, wallet(1), 1_000, &mut none, &mut escrow)
        .unwrap();
    let race = deserialize_race(&game_data).unwrap();
    assert_eq!(race.state, GameState::RaceCompleted);
    // winner = (1000 as u64) % 2
    assert_eq!(race.winner_index, Some(0));
    let winner = race.players[0].wallet;
    assert_eq!(winner, wallet(100));

    let mut winner_balance = alice;
    process_instruction(
        &mut game_data,
        &[3],
        true,
        winner,
        1_001,
        &mut winner_balance,
        &mut escrow,
    )
    .unwrap();
    assert_eq!(winner_balance, 35_000);
    assert_eq!(escrow, 0);
    let reset = deserialize_race(&game_data).unwrap();
    assert_eq!(reset.state, GameState::WaitingForPlayers);
    assert!(reset.players.is_empty());
    assert_eq!(reset.token_mint, mint);
}

#[test]
fn claim_by_non_winner_through_the_router_changes_nothing() {
    let mut game_data: Vec<u8> = vec![];
    let mut escrow = 0u64;
    let mut none = 0u64;
    process_instruction(
        &mut game_data,
        &initialize_data(&wallet(3)),
        true,
        wallet(1),
        0,
        &mut none,
        &mut escrow,
    )
    .unwrap();
    let mut a = 10_000u64;
    process_instruction(&mut game_data, &[1], true, wallet(100), 10, &mut a, &mut escrow)
        .unwrap();
    let mut b = 10_000u64;
    process_instruction(&mut game_data, &[1], true, wallet(200), 11, &mut b, &mut escrow)
        .unwrap();
    process_instruction(&mut game_data, &[2], true, wallet(1), 1_000, &mut none, &mut escrow)
        .unwrap();
    let race = deserialize_race(&game_data).unwrap();
    let winner = race.players[race.winner_index.unwrap()].wallet;
    let loser = if winner == wallet(100) { wallet(200) } else { wallet(100) };
    let before = game_data.clone();
    let mut loser_balance = 1u64;
    let r = process_instruction(
        &mut game_data,
        &[3],
        true,
        loser,
        1_001,
        &mut loser_balance,
        &mut escrow,
    );
    assert_eq!(r, Err(RaceError::AuthorizationError));
    assert_eq!(game_data, before);
    assert_eq!(escrow, 20_000);
    assert_eq!(loser_balance, 1);
}

#[test]
fn join_start_and_claim_take_no_payload() {
    let mut game_data: Vec<u8> = vec![];
    let mut balance = 0u64;
    let mut escrow = 0u64;
    for tag in 1u8..=3u8 {
        let r = process_instruction(
            &mut game_data,
            &[tag, 0],
            true,
            wallet(1),
            0,
            &mut balance,
            &mut escrow,
        );
        assert_eq!(r, Err(RaceError::DecodingError));
    }
}

#[test]
fn empty_instruction_data_is_a_decoding_error() {
    let mut game_data: Vec<u8> = vec![];
    let mut balance = 0u64;
    let mut escrow = 0u64;
    let r = process_instruction(&mut game_data, &[], true, wallet(1), 0, &mut balance, &mut escrow);
    assert_eq!(r, Err(RaceError::DecodingError));
}
