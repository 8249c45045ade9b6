//! Token fixtures: the transactions that create mints and token accounts
//! and move tokens, and the fixed-offset reader for a token balance.

use crate::encoding::le_bytes;
use crate::encoding::le_u64;
use crate::encoding::lemma_le_roundtrip;
use crate::encoding::read_u64_le;
use crate::keys::token_program_id;
use crate::keys::token_program_key;
use crate::keys::Pubkey;
use crate::programs::associated_token_address;
use crate::programs::associated_token_create;
use crate::programs::create_account_instruction;
use crate::programs::create_associated_token_account_instruction;
use crate::programs::derive_associated_token_address;
use crate::programs::initialize_account_instruction;
use crate::programs::initialize_mint_instruction;
use crate::programs::mint_len;
use crate::programs::mint_to_instruction;
use crate::programs::system_create_account;
use crate::programs::token_account_len;
use crate::programs::token_initialize_account;
use crate::programs::token_initialize_mint;
use crate::programs::token_mint_to;
use crate::programs::token_transfer;
use crate::programs::transfer_instruction;
use crate::programs::MINT_LEN;
use crate::programs::TOKEN_ACCOUNT_LEN;
use crate::transaction::PlanModel;
use crate::transaction::TransactionPlan;
use vstd::prelude::*;

verus! {

/// Where a packed token account keeps its amount.
pub const TOKEN_AMOUNT_OFFSET: usize = 64;

/// An account's data is shorter than the layout that is read from it.
#[derive(Clone, Copy, Debug, PartialEq, Eq, Structural)]
pub enum SizeError {
    AccountDataTooSmall,
}

/// The amount that a packed token account holds: the little-endian
/// `u64` at [`TOKEN_AMOUNT_OFFSET`].
pub open spec fn token_amount(data: Seq<u8>) -> int
    recommends
        data.len() >= TOKEN_ACCOUNT_LEN,
{
    le_u64(data.subrange(TOKEN_AMOUNT_OFFSET as int, TOKEN_AMOUNT_OFFSET + 8))
}

/// An account that carries the little-endian bytes of `amount` at
/// [`TOKEN_AMOUNT_OFFSET`] holds exactly `amount`.
pub proof fn lemma_written_amount_is_read(data: Seq<u8>, amount: u64)
    requires
        data.len() >= TOKEN_ACCOUNT_LEN,
        data.subrange(TOKEN_AMOUNT_OFFSET as int, TOKEN_AMOUNT_OFFSET + 8) == le_bytes(amount),
    ensures
        token_amount(data) == amount,
{
    lemma_le_roundtrip(amount);
}

/// Accepts data of at least `min_len` bytes.
pub fn check_data_len(data: &[u8], min_len: usize) -> (checked: Result<(), SizeError>)
    ensures
        data.len() < min_len ==> checked == Err::<(), SizeError>(SizeError::AccountDataTooSmall),
        data.len() >= min_len ==> checked == Ok::<(), SizeError>(()),
{
    if data.len() < min_len {
        Err(SizeError::AccountDataTooSmall)
    } else {
        Ok(())
    }
}

/// Reads the balance of a packed token account without decoding the rest
/// of it. Data shorter than a packed token account is refused.
pub fn get_token_balance(data: &[u8]) -> (balance: Result<u64, SizeError>)
    ensures
        data.len() < TOKEN_ACCOUNT_LEN ==> balance == Err::<u64, SizeError>(
            SizeError::AccountDataTooSmall,
        ),
        data.len() >= TOKEN_ACCOUNT_LEN ==> balance == Ok::<u64, SizeError>(
            token_amount(data@) as u64,
        ) && 0 <= token_amount(data@) <= u64::MAX,
{
    match check_data_len(data, token_account_len()) {
        Err(e) => Err(e),
        Ok(()) => Ok(read_u64_le(data, TOKEN_AMOUNT_OFFSET)),
    }
}

/// The transaction that creates the associated token account of `user`
/// for `mint`: `user` funds it, pays the fee and signs alone.
pub open spec fn create_ata_plan(user: Seq<u8>, mint: Seq<u8>) -> PlanModel {
    PlanModel {
        instructions: seq![create_associated_token_account_instruction(user, user, mint)],
        fee_payer: user,
        signers: seq![user],
    }
}

/// The transaction that creates and initialises the token account
/// `account` of `mint` for `owner`: `payer` funds it with `rent_lamports`
/// and pays the fee; `payer` and `account` sign.
pub open spec fn create_token_account_plan(
    payer: Seq<u8>,
    account: Seq<u8>,
    mint: Seq<u8>,
    owner: Seq<u8>,
    rent_lamports: u64,
) -> PlanModel {
    PlanModel {
        instructions: seq![
            create_account_instruction(
                payer,
                account,
                rent_lamports,
                TOKEN_ACCOUNT_LEN as u64,
                token_program_key(),
            ),
            initialize_account_instruction(account, mint, owner),
        ],
        fee_payer: payer,
        signers: seq![payer, account],
    }
}

/// The transaction that creates and initialises `mint`: `payer` funds it
/// with `rent_lamports` and pays the fee; `payer` and `mint` sign.
pub open spec fn create_mint_plan(
    payer: Seq<u8>,
    mint: Seq<u8>,
    decimals: u8,
    mint_authority: Seq<u8>,
    freeze_authority: Option<Seq<u8>>,
    rent_lamports: u64,
) -> PlanModel {
    PlanModel {
        instructions: seq![
            create_account_instruction(
                payer,
                mint,
                rent_lamports,
                MINT_LEN as u64,
                token_program_key(),
            ),
            initialize_mint_instruction(mint, mint_authority, freeze_authority, decimals),
        ],
        fee_payer: payer,
        signers: seq![payer, mint],
    }
}

/// The transaction that mints `amount` of `mint` into `account` under
/// `authority`: `payer` pays the fee; `payer` and `authority` sign.
pub open spec fn mint_plan(
    payer: Seq<u8>,
    mint: Seq<u8>,
    account: Seq<u8>,
    authority: Seq<u8>,
    amount: u64,
) -> PlanModel {
    PlanModel {
        instructions: seq![mint_to_instruction(mint, account, authority, amount)],
        fee_payer: payer,
        signers: seq![payer, authority],
    }
}

/// The transaction that moves `amount` from `from` to `to`: `signer`
/// authorises it, pays the fee and signs alone.
pub open spec fn transfer_plan(
    from: Seq<u8>,
    to: Seq<u8>,
    signer: Seq<u8>,
    amount: u64,
) -> PlanModel {
    PlanModel {
        instructions: seq![transfer_instruction(from, to, signer, amount)],
        fee_payer: signer,
        signers: seq![signer],
    }
}

/// Plans the creation of the associated token account of `user` for
/// `mint` and gives the address at which it will live.
pub fn create_ata(user: &Pubkey, mint: &Pubkey) -> (created: (Pubkey, TransactionPlan))
    ensures
        created.0@ == associated_token_address(user@, mint@),
        created.1@ == create_ata_plan(user@, mint@),
        created.1@.signers_cover(),
{
    let address = derive_associated_token_address(user, mint);
    let instruction = associated_token_create(user, user, mint);
    let plan = TransactionPlan::new(vec![instruction], *user, vec![*user]);
    proof {
        let model = create_ata_plan(user@, mint@);
        assert(plan@.instructions =~= model.instructions);
        assert(plan@.signers =~= model.signers);
        assert(model.signers[0] == user@);
    }
    (address, plan)
}

/// Plans the creation of the token account `account` of `mint` for
/// `owner`. `rent_lamports` is the rent-exempt minimum for
/// [`TOKEN_ACCOUNT_LEN`] bytes.
pub fn create_token_account(
    payer: &Pubkey,
    account: &Pubkey,
    mint: &Pubkey,
    owner: &Pubkey,
    rent_lamports: u64,
) -> (plan: TransactionPlan)
    ensures
        plan@ == create_token_account_plan(payer@, account@, mint@, owner@, rent_lamports),
        plan@.signers_cover(),
{
    let token_program = token_program_id();
    let create = system_create_account(
        payer,
        account,
        rent_lamports,
        token_account_len() as u64,
        &token_program,
    );
    let initialize = token_initialize_account(account, mint, owner);
    let plan = TransactionPlan::new(vec![create, initialize], *payer, vec![*payer, *account]);
    proof {
        let model = create_token_account_plan(payer@, account@, mint@, owner@, rent_lamports);
        assert(create@ == model.instructions[0]);
        assert(plan@.instructions =~= model.instructions);
        assert(plan@.signers =~= model.signers);
        assert(model.signers[0] == payer@);
        assert(model.signers[1] == account@);
    }
    plan
}

/// Shared body of [`create_mint`] and [`create_mint_with_freeze_auth`].
fn plan_mint_creation(
    payer: &Pubkey,
    mint: &Pubkey,
    decimals: u8,
    mint_authority: &Pubkey,
    freeze_authority: Option<&Pubkey>,
    rent_lamports: u64,
) -> (plan: TransactionPlan)
    ensures
        plan@ == create_mint_plan(
            payer@,
            mint@,
            decimals,
            mint_authority@,
            match freeze_authority {
                Some(k) => Some(k@),
                None => None,
            },
            rent_lamports,
        ),
        plan@.signers_cover(),
{
    let token_program = token_program_id();
    let create = system_create_account(payer, mint, rent_lamports, mint_len() as u64, &token_program);
    let initialize = token_initialize_mint(mint, mint_authority, freeze_authority, decimals);
    let plan = TransactionPlan::new(vec![create, initialize], *payer, vec![*payer, *mint]);
    proof {
        let model = create_mint_plan(
            payer@,
            mint@,
            decimals,
            mint_authority@,
            match freeze_authority {
                Some(k) => Some(k@),
                None => None,
            },
            rent_lamports,
        );
        assert(create@ == model.instructions[0]);
        assert(plan@.instructions =~= model.instructions);
        assert(plan@.signers =~= model.signers);
        assert(model.signers[0] == payer@);
        assert(model.signers[1] == mint@);
    }
    plan
}

/// Plans the creation of `mint` without a freeze authority.
/// `rent_lamports` is the rent-exempt minimum for [`MINT_LEN`] bytes.
pub fn create_mint(
    payer: &Pubkey,
    mint: &Pubkey,
    decimals: u8,
    mint_authority: &Pubkey,
    rent_lamports: u64,
) -> (plan: TransactionPlan)
    ensures
        plan@ == create_mint_plan(
            payer@,
            mint@,
            decimals,
            mint_authority@,
            None,
            rent_lamports,
        ),
        plan@.signers_cover(),
{
    plan_mint_creation(payer, mint, decimals, mint_authority, None, rent_lamports)
}

/// Plans the creation of `mint` with the mint authority as its freeze
/// authority too. `rent_lamports` is the rent-exempt minimum for
/// [`MINT_LEN`] bytes.
pub fn create_mint_with_freeze_auth(
    payer: &Pubkey,
    mint: &Pubkey,
    decimals: u8,
    mint_authority: &Pubkey,
    rent_lamports: u64,
) -> (plan: TransactionPlan)
    ensures
        plan@ == create_mint_plan(
            payer@,
            mint@,
            decimals,
            mint_authority@,
            Some(mint_authority@),
            rent_lamports,
        ),
        plan@.signers_cover(),
{
    plan_mint_creation(payer, mint, decimals, mint_authority, Some(mint_authority), rent_lamports)
}

/// Plans minting `amount` of `mint` into `mint_into_account` under
/// `authority`, with `payer` paying the fee.
pub fn mint_with_authority(
    payer: &Pubkey,
    mint: &Pubkey,
    mint_into_account: &Pubkey,
    authority: &Pubkey,
    amount: u64,
) -> (plan: TransactionPlan)
    ensures
        plan@ == mint_plan(payer@, mint@, mint_into_account@, authority@, amount),
        plan@.signers_cover(),
{
    let instruction = token_mint_to(mint, mint_into_account, authority, amount);
    let plan = TransactionPlan::new(vec![instruction], *payer, vec![*payer, *authority]);
    proof {
        let model = mint_plan(payer@, mint@, mint_into_account@, authority@, amount);
        assert(plan@.instructions =~= model.instructions);
        assert(plan@.signers =~= model.signers);
        assert(model.signers[0] == payer@);
        assert(model.signers[1] == authority@);
    }
    plan
}

/// Plans minting `amount` of `mint` into `mint_into_account` where the
/// fee payer is the mint authority.
pub fn mint_to(payer: &Pubkey, mint: &Pubkey, mint_into_account: &Pubkey, amount: u64) -> (plan:
    TransactionPlan)
    ensures
        plan@ == mint_plan(payer@, mint@, mint_into_account@, payer@, amount),
        plan@.signers_cover(),
{
    mint_with_authority(payer, mint, mint_into_account, payer, amount)
}

/// Plans moving `amount` from `from` to `to` on the authority of
/// `signer`, who also pays the fee.
pub fn transfer(from: &Pubkey, to: &Pubkey, signer: &Pubkey, amount: u64) -> (plan:
    TransactionPlan)
    ensures
        plan@ == transfer_plan(from@, to@, signer@, amount),
        plan@.signers_cover(),
{
    let instruction = token_transfer(from, to, signer, amount);
    let plan = TransactionPlan::new(vec![instruction], *signer, vec![*signer]);
    proof {
        let model = transfer_plan(from@, to@, signer@, amount);
        assert(plan@.instructions =~= model.instructions);
        assert(plan@.signers =~= model.signers);
        assert(model.signers[0] == signer@);
    }
    plan
}

} // verus!
