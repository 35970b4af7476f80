use horse_race::escrow::custody_authority;
use horse_race::escrow::escrow_pot;
use horse_race::escrow::escrow_transfer_instruction;
use horse_race::Wallet;
use solana_program::program_option::COption;
use solana_program::program_pack::Pack;
use solana_program::pubkey::Pubkey;
use spl_token::state::Account;
use spl_token::state::AccountState;

fn wallet(n: u64) -> Wallet {
    Wallet { w0: n, w1: n + 9, w2: n + 17, w3: n + 23 }
}

fn wallet_to_pubkey(w: &Wallet) -> Pubkey {
    let mut b = [0u8; 32];
    b[0..8].copy_from_slice(&w.w0.to_le_bytes());
    b[8..16].copy_from_slice(&w.w1.to_le_bytes());
    b[16..24].copy_from_slice(&w.w2.to_le_bytes());
    b[24..32].copy_from_slice(&w.w3.to_le_bytes());
    Pubkey::new_from_array(b)
}

fn pubkey_to_wallet(p: &Pubkey) -> Wallet {
    let b = p.to_bytes();
    Wallet {
        w0: u64::from_le_bytes(b[0..8].try_into().unwrap()),
        w1: u64::from_le_bytes(b[8..16].try_into().unwrap()),
        w2: u64::from_le_bytes(b[16..24].try_into().unwrap()),
        w3: u64::from_le_bytes(b[24..32].try_into().unwrap()),
    }
}

#[test]
fn custody_authority_matches_the_ledger_derivation() {
    let program = wallet(41);
    let (addr, bump) = custody_authority(&program);
    let (expected, expected_bump) =
        Pubkey::find_program_address(&[b"horse_race"], &wallet_to_pubkey(&program));
    assert_eq!(addr, pubkey_to_wallet(&expected));
    assert_eq!(bump, expected_bump);
    assert_ne!(addr, program);
}

#[test]
fn custody_authority_is_deterministic() {
    let program = wallet(77);
    assert_eq!(custody_authority(&program), custody_authority(&program));
}

#[test]
fn transfer_instruction_targets_the_token_service() {
    let source = wallet(1);
    let destination = wallet(2);
    let authority = wallet(3);
    let built = escrow_transfer_instruction(&source, &destination, &authority, 10_000);
    assert_eq!(built.program_id, spl_token::id());
    assert_eq!(built.accounts.len(), 3);
    assert_eq!(built.accounts[0].pubkey, wallet_to_pubkey(&source));
    assert_eq!(built.accounts[1].pubkey, wallet_to_pubkey(&destination));
    assert_eq!(built.accounts[2].pubkey, wallet_to_pubkey(&authority));
    assert!(built.accounts[2].is_signer);
    let expected = spl_token::instruction::transfer(
        &spl_token::id(),
        &wallet_to_pubkey(&source),
        &wallet_to_pubkey(&destination),
        &wallet_to_pubkey(&authority),
        &[],
        10_000,
    )
    .unwrap();
    assert_eq!(built, expected);
}

#[test]
fn escrow_pot_reads_the_packed_balance() {
    let account = Account {
        mint: wallet_to_pubkey(&wallet(1)),
        owner: wallet_to_pubkey(&wallet(2)),
        amount: 123_456,
        delegate: COption::None,
        state: AccountState::Initialized,
        is_native: COption::None,
        delegated_amount: 0,
        close_authority: COption::None,
    };
    let mut data = [0u8; 165];
    Account::pack(account, &mut data).unwrap();
    assert_eq!(escrow_pot(&data), Some(123_456));
}

#[test]
fn escrow_pot_rejects_wrongly_sized_bytes() {
    assert_eq!(escrow_pot(&[0u8; 164]), None);
    assert_eq!(escrow_pot(&[]), None);
}

#[test]
fn escrow_pot_rejects_an_uninitialized_account() {
    let account = Account {
        mint: wallet_to_pubkey(&wallet(1)),
        owner: wallet_to_pubkey(&wallet(2)),
        amount: 5,
        delegate: COption::None,
        state: AccountState::Uninitialized,
        is_native: COption::None,
        delegated_amount: 0,
        close_authority: COption::None,
    };
    let mut data = [0u8; 165];
    Account::pack(account, &mut data).unwrap();
    assert_eq!(escrow_pot(&data), None);
}
