//! Escrow custody helpers over the ledger's token service.
//!
//! The escrow's controlling authority is a derived address with no private
//! key: a deterministic function of a fixed seed and the program's identity.
//! This module derives that authority, builds the token-transfer requests
//! the lifecycle issues, and reads the pooled balance out of a token
//! account's raw bytes. Each item that reaches into the token service is a
//! small trusted wrapper; everything around it is verified.

use vstd::prelude::*;
use vstd::bytes::spec_u64_from_le_bytes;
use crate::codec::spec_encode_wallet;
use crate::codec::wallet_to_le_bytes;
use crate::state::Wallet;

verus! {

#[verifier::external_type_specification]
#[verifier::external_body]
pub struct ExInstruction(solana_program::instruction::Instruction);

/// The derived custody address and bump seed for a program identity, under
/// the fixed custody seed tag. Deterministic in the program identity alone.
pub uninterp spec fn custody_authority_of(program_id: Seq<u8>) -> (Seq<u8>, u8);

/// The token-transfer instruction over the given accounts and amount.
/// Deterministic in its arguments alone.
pub uninterp spec fn spl_transfer_instruction(
    source: Seq<u8>,
    destination: Seq<u8>,
    authority: Seq<u8>,
    amount: u64,
) -> solana_program::instruction::Instruction;

/// Relies on Pubkey::find_program_address with the fixed custody seed: the
/// derived address and bump depend on the program identity alone.
#[verifier::external_body]
fn find_custody_authority(program_id: &Wallet) -> (r: (Wallet, u8))
    ensures
        (spec_encode_wallet(r.0), r.1) == custody_authority_of(spec_encode_wallet(*program_id)),
{
    let pid = solana_program::pubkey::Pubkey::try_from(
        wallet_to_le_bytes(program_id).as_slice(),
    ).unwrap();
    let (pda, bump) = solana_program::pubkey::Pubkey::find_program_address(
        &[b"horse_race"],
        &pid,
    );
    (crate::codec::read_wallet(&pda.to_bytes(), 0), bump)
}

/// Relies on spl_token::instruction::transfer: with the canonical token
/// program identity it always returns the transfer instruction, a value
/// depending on its arguments alone.
#[verifier::external_body]
fn build_transfer_instruction(
    source: &Wallet,
    destination: &Wallet,
    authority: &Wallet,
    amount: u64,
) -> (r: solana_program::instruction::Instruction)
    ensures
        r == spl_transfer_instruction(
            spec_encode_wallet(*source),
            spec_encode_wallet(*destination),
            spec_encode_wallet(*authority),
            amount,
        ),
{
    let src = solana_program::pubkey::Pubkey::try_from(
        wallet_to_le_bytes(source).as_slice(),
    ).unwrap();
    let dst = solana_program::pubkey::Pubkey::try_from(
        wallet_to_le_bytes(destination).as_slice(),
    ).unwrap();
    let auth = solana_program::pubkey::Pubkey::try_from(
        wallet_to_le_bytes(authority).as_slice(),
    ).unwrap();
    spl_token::instruction::transfer(&spl_token::id(), &src, &dst, &auth, &[], amount).unwrap()
}

/// Whether a four-byte optional-field tag is one the token service wrote.
pub open spec fn spec_coption_tag_ok(s: Seq<u8>) -> bool {
    &&& s.len() == 4
    &&& (s[0] == 0 || s[0] == 1)
    &&& s[1] == 0
    &&& s[2] == 0
    &&& s[3] == 0
}

/// The balance a token account's raw bytes hold: 165 bytes with the 64-bit
/// little-endian amount at offset 64, valid optional-field tags, and an
/// initialized (or frozen) state byte; `None` on any other shape.
pub open spec fn spec_token_account_amount(data: Seq<u8>) -> Option<u64> {
    if data.len() == 165 && spec_coption_tag_ok(data.subrange(72, 76)) && (data[108] == 1
        || data[108] == 2) && spec_coption_tag_ok(data.subrange(109, 113)) && spec_coption_tag_ok(
        data.subrange(129, 133),
    ) {
        Option::Some(spec_u64_from_le_bytes(data.subrange(64, 72)))
    } else {
        Option::None
    }
}

/// Relies on Pack::unpack for spl_token::state::Account: it rejects any
/// slice other than 165 bytes, any invalid optional-field tag or state
/// byte, and an uninitialized account, and otherwise yields the account
/// with its balance read little-endian from offset 64.
#[verifier::external_body]
fn unpack_token_account_amount(data: &[u8]) -> (r: Option<u64>)
    ensures
        r == spec_token_account_amount(data@),
{
    match solana_program::program_pack::Pack::unpack(data) {
        Ok(account) => {
            let account: spl_token::state::Account = account;
            Some(account.amount)
        },
        Err(_) => None,
    }
}

/// The proof-of-authority over the escrow: the derived custody address and
/// its bump seed for this program's identity. The surrounding program
/// presents the bump with the fixed seed tag to authorize outbound
/// transfers; no private key exists for the address.
pub fn custody_authority(program_id: &Wallet) -> (r: (Wallet, u8))
    ensures
        (spec_encode_wallet(r.0), r.1) == custody_authority_of(spec_encode_wallet(*program_id)),
{
    find_custody_authority(program_id)
}

/// The transfer request moving `amount` of the stake token from `source`
/// to `destination` under `authority`, ready for the surrounding program
/// to issue against the token service.
pub fn escrow_transfer_instruction(
    source: &Wallet,
    destination: &Wallet,
    authority: &Wallet,
    amount: u64,
) -> (r: solana_program::instruction::Instruction)
    ensures
        r == spl_transfer_instruction(
            spec_encode_wallet(*source),
            spec_encode_wallet(*destination),
            spec_encode_wallet(*authority),
            amount,
        ),
{
    build_transfer_instruction(source, destination, authority, amount)
}

/// The pooled pot: the balance held by the escrow token account, read from
/// its raw bytes; `None` if the bytes are not an initialized token account.
pub fn escrow_pot(data: &[u8]) -> (r: Option<u64>)
    ensures
        r == spec_token_account_amount(data@),
{
    unpack_token_account_amount(data)
}

} // verus!
