//! Instructions of the system, token and associated-token-account
//! programs, as their client crates build them.
//!
//! The spec functions say what each builder returns; the functions that
//! call the builders are trusted to meet them.

use crate::encoding::le_bytes;
use crate::instruction::readable_meta;
use crate::instruction::signer_meta;
use crate::instruction::writable_meta;
use crate::instruction::writable_signer_meta;
use crate::instruction::AccountMeta;
use crate::instruction::Instruction;
use crate::instruction::InstructionModel;
use crate::keys::associated_token_program_key;
use crate::keys::rent_sysvar_key;
use crate::keys::system_program_key;
use crate::keys::token_program_key;
use crate::keys::Pubkey;
use solana_program::program_pack::Pack;
use vstd::prelude::*;

verus! {

/// Packed size in bytes of a token account.
pub const TOKEN_ACCOUNT_LEN: usize = 165;

/// Packed size in bytes of a mint.
pub const MINT_LEN: usize = 82;

/// Payload of the system program's create-account instruction: the
/// serialised form of the lamports, the space and the owner.
pub uninterp spec fn create_account_data(lamports: u64, space: u64, owner: Seq<u8>) -> Seq<u8>;

/// The address derived for the token account that `wallet` holds of `mint`.
pub uninterp spec fn associated_token_address(wallet: Seq<u8>, mint: Seq<u8>) -> Seq<u8>;

/// Creates the account `to`, funded by `from` and owned by `owner`. Both
/// `from` and `to` sign.
pub open spec fn create_account_instruction(
    from: Seq<u8>,
    to: Seq<u8>,
    lamports: u64,
    space: u64,
    owner: Seq<u8>,
) -> InstructionModel {
    InstructionModel {
        program: system_program_key(),
        accounts: seq![writable_signer_meta(from), writable_signer_meta(to)],
        data: create_account_data(lamports, space, owner),
    }
}

/// How the token program's payloads spell an optional address.
pub open spec fn optional_key_bytes(key: Option<Seq<u8>>) -> Seq<u8> {
    match key {
        Some(k) => seq![1u8] + k,
        None => seq![0u8],
    }
}

/// Initialises `mint` with its decimals and authorities. Nobody signs.
pub open spec fn initialize_mint_instruction(
    mint: Seq<u8>,
    mint_authority: Seq<u8>,
    freeze_authority: Option<Seq<u8>>,
    decimals: u8,
) -> InstructionModel {
    InstructionModel {
        program: token_program_key(),
        accounts: seq![writable_meta(mint), readable_meta(rent_sysvar_key())],
        data: seq![0u8, decimals] + mint_authority + optional_key_bytes(freeze_authority),
    }
}

/// Initialises the token account `account` of `mint` for `owner`. Nobody
/// signs.
pub open spec fn initialize_account_instruction(
    account: Seq<u8>,
    mint: Seq<u8>,
    owner: Seq<u8>,
) -> InstructionModel {
    InstructionModel {
        program: token_program_key(),
        accounts: seq![
            writable_meta(account),
            readable_meta(mint),
            readable_meta(owner),
            readable_meta(rent_sysvar_key()),
        ],
        data: seq![1u8],
    }
}

/// Mints `amount` base units of `mint` into `account`; the mint
/// authority `owner` signs.
pub open spec fn mint_to_instruction(
    mint: Seq<u8>,
    account: Seq<u8>,
    owner: Seq<u8>,
    amount: u64,
) -> InstructionModel {
    InstructionModel {
        program: token_program_key(),
        accounts: seq![writable_meta(mint), writable_meta(account), signer_meta(owner)],
        data: seq![7u8] + le_bytes(amount),
    }
}

/// Moves `amount` base units from `source` to `destination`; `authority`
/// signs.
pub open spec fn transfer_instruction(
    source: Seq<u8>,
    destination: Seq<u8>,
    authority: Seq<u8>,
    amount: u64,
) -> InstructionModel {
    InstructionModel {
        program: token_program_key(),
        accounts: seq![
            writable_meta(source),
            writable_meta(destination),
            signer_meta(authority),
        ],
        data: seq![3u8] + le_bytes(amount),
    }
}

/// Creates the associated token account of `wallet` for `mint`, paid for
/// by `funder`, who signs.
pub open spec fn create_associated_token_account_instruction(
    funder: Seq<u8>,
    wallet: Seq<u8>,
    mint: Seq<u8>,
) -> InstructionModel {
    InstructionModel {
        program: associated_token_program_key(),
        accounts: seq![
            writable_signer_meta(funder),
            writable_meta(associated_token_address(wallet, mint)),
            readable_meta(wallet),
            readable_meta(mint),
            readable_meta(system_program_key()),
            readable_meta(token_program_key()),
            readable_meta(rent_sysvar_key()),
        ],
        data: Seq::<u8>::empty(),
    }
}

/// `Pack::get_packed_len` of `spl_token::state::Account`. Trusted: it
/// returns the type's `LEN`, which is 165.
#[verifier::external_body]
pub(crate) fn token_account_len() -> (len: usize)
    ensures
        len == TOKEN_ACCOUNT_LEN,
{
    spl_token::state::Account::get_packed_len()
}

/// `Pack::get_packed_len` of `spl_token::state::Mint`. Trusted: it returns
/// the type's `LEN`, which is 82.
#[verifier::external_body]
pub(crate) fn mint_len() -> (len: usize)
    ensures
        len == MINT_LEN,
{
    spl_token::state::Mint::get_packed_len()
}

/// `solana_program::system_instruction::create_account`. Trusted: the
/// instruction goes to the system program, lists `from` and `to` as
/// writable signers, and carries a payload that is a function of the
/// lamports, the space and the owner.
#[verifier::external_body]
pub(crate) fn system_create_account(
    from: &Pubkey,
    to: &Pubkey,
    lamports: u64,
    space: u64,
    owner: &Pubkey,
) -> (instruction: Instruction)
    ensures
        instruction@.program == system_program_key(),
        instruction@.accounts == seq![writable_signer_meta(from@), writable_signer_meta(to@)],
        instruction@.data == create_account_data(lamports, space, owner@),
{
    let built = solana_program::system_instruction::create_account(
        &from.bytes.into(), &to.bytes.into(), lamports, space, &owner.bytes.into());
    Instruction {
        program_id: Pubkey { bytes: built.program_id.to_bytes() },
        accounts: built.accounts.iter().map(|m| AccountMeta {
            pubkey: Pubkey { bytes: m.pubkey.to_bytes() },
            is_signer: m.is_signer,
            is_writable: m.is_writable,
        }).collect(),
        data: built.data,
    }
}

/// `spl_token::instruction::initialize_mint`, called for the token
/// program itself, for which it cannot fail. Trusted: the instruction
/// lists the mint as writable and the rent sysvar as read-only, and its
/// payload is the tag 0, the decimals, the mint authority and the
/// optional freeze authority.
#[verifier::external_body]
pub(crate) fn token_initialize_mint(
    mint: &Pubkey,
    mint_authority: &Pubkey,
    freeze_authority: Option<&Pubkey>,
    decimals: u8,
) -> (instruction: Instruction)
    ensures
        instruction@ == initialize_mint_instruction(
            mint@,
            mint_authority@,
            match freeze_authority {
                Some(k) => Some(k@),
                None => None,
            },
            decimals,
        ),
{
    let freeze = freeze_authority.map(|k| k.bytes.into());
    let built = spl_token::instruction::initialize_mint(
        &spl_token::id(), &mint.bytes.into(), &mint_authority.bytes.into(), freeze.as_ref(), decimals).unwrap();
    Instruction {
        program_id: Pubkey { bytes: built.program_id.to_bytes() },
        accounts: built.accounts.iter().map(|m| AccountMeta {
            pubkey: Pubkey { bytes: m.pubkey.to_bytes() },
            is_signer: m.is_signer,
            is_writable: m.is_writable,
        }).collect(),
        data: built.data,
    }
}

/// `spl_token::instruction::initialize_account`, called for the token
/// program itself, for which it cannot fail. Trusted: the instruction
/// lists the account as writable, then the mint, the owner and the rent
/// sysvar as read-only, and its payload is the tag 1.
#[verifier::external_body]
pub(crate) fn token_initialize_account(account: &Pubkey, mint: &Pubkey, owner: &Pubkey) -> (instruction:
    Instruction)
    ensures
        instruction@ == initialize_account_instruction(account@, mint@, owner@),
{
    let built = spl_token::instruction::initialize_account(
        &spl_token::id(), &account.bytes.into(), &mint.bytes.into(), &owner.bytes.into()).unwrap();
    Instruction {
        program_id: Pubkey { bytes: built.program_id.to_bytes() },
        accounts: built.accounts.iter().map(|m| AccountMeta {
            pubkey: Pubkey { bytes: m.pubkey.to_bytes() },
            is_signer: m.is_signer,
            is_writable: m.is_writable,
        }).collect(),
        data: built.data,
    }
}

/// `spl_token::instruction::mint_to`, called for the token program itself
/// and without multisig signers, for which it cannot fail. Trusted: the
/// instruction lists the mint and the account as writable and the owner
/// as a read-only signer, and its payload is the tag 7 and the amount in
/// little-endian bytes.
#[verifier::external_body]
pub(crate) fn token_mint_to(mint: &Pubkey, account: &Pubkey, owner: &Pubkey, amount: u64) -> (instruction:
    Instruction)
    ensures
        instruction@ == mint_to_instruction(mint@, account@, owner@, amount),
{
    let built = spl_token::instruction::mint_to(
        &spl_token::id(), &mint.bytes.into(), &account.bytes.into(), &owner.bytes.into(), &[], amount).unwrap();
    Instruction {
        program_id: Pubkey { bytes: built.program_id.to_bytes() },
        accounts: built.accounts.iter().map(|m| AccountMeta {
            pubkey: Pubkey { bytes: m.pubkey.to_bytes() },
            is_signer: m.is_signer,
            is_writable: m.is_writable,
        }).collect(),
        data: built.data,
    }
}

/// `spl_token::instruction::transfer`, called for the token program
/// itself and without multisig signers, for which it cannot fail.
/// Trusted: the instruction lists the source and the destination as
/// writable and the authority as a read-only signer, and its payload is
/// the tag 3 and the amount in little-endian bytes.
#[verifier::external_body]
pub(crate) fn token_transfer(
    source: &Pubkey,
    destination: &Pubkey,
    authority: &Pubkey,
    amount: u64,
) -> (instruction: Instruction)
    ensures
        instruction@ == transfer_instruction(source@, destination@, authority@, amount),
{
    let built = spl_token::instruction::transfer(
        &spl_token::id(), &source.bytes.into(), &destination.bytes.into(), &authority.bytes.into(), &[], amount).unwrap();
    Instruction {
        program_id: Pubkey { bytes: built.program_id.to_bytes() },
        accounts: built.accounts.iter().map(|m| AccountMeta {
            pubkey: Pubkey { bytes: m.pubkey.to_bytes() },
            is_signer: m.is_signer,
            is_writable: m.is_writable,
        }).collect(),
        data: built.data,
    }
}

/// `spl_associated_token_account::get_associated_token_address`. Trusted:
/// the address is a function of the wallet and the mint alone. The
/// derivation searches for a bump seed and panics if none exists, which
/// has negligible probability.
#[verifier::external_body]
pub(crate) fn derive_associated_token_address(wallet: &Pubkey, mint: &Pubkey) -> (address: Pubkey)
    ensures
        address@ == associated_token_address(wallet@, mint@),
{
    let derived = spl_associated_token_account::get_associated_token_address(
        &wallet.bytes.into(), &mint.bytes.into());
    Pubkey { bytes: derived.to_bytes() }
}

/// `spl_associated_token_account::create_associated_token_account`.
/// Trusted: the instruction goes to the associated-token-account program
/// with an empty payload and lists the funder as a writable signer, the
/// derived address as writable, then the wallet, the mint, the system
/// program, the token program and the rent sysvar as read-only.
#[verifier::external_body]
#[allow(deprecated)]
pub(crate) fn associated_token_create(funder: &Pubkey, wallet: &Pubkey, mint: &Pubkey) -> (instruction:
    Instruction)
    ensures
        instruction@ == create_associated_token_account_instruction(funder@, wallet@, mint@),
{
    let built = spl_associated_token_account::create_associated_token_account(
        &funder.bytes.into(), &wallet.bytes.into(), &mint.bytes.into());
    Instruction {
        program_id: Pubkey { bytes: built.program_id.to_bytes() },
        accounts: built.accounts.iter().map(|m| AccountMeta {
            pubkey: Pubkey { bytes: m.pubkey.to_bytes() },
            is_signer: m.is_signer,
            is_writable: m.is_writable,
        }).collect(),
        data: built.data,
    }
}

} // verus!
