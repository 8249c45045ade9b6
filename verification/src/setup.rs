//! Credential fixtures: the state with which a fresh account is funded.

use crate::keys::system_program_id;
use crate::keys::system_program_key;
use crate::keys::Pubkey;
use crate::programs::create_account_instruction;
use crate::programs::system_create_account;
use crate::transaction::PlanModel;
use crate::transaction::TransactionPlan;
use vstd::prelude::*;

verus! {

/// The state that is injected into the ledger for a funded account.
#[derive(Clone, Copy, Debug, PartialEq, Eq)]
pub struct AccountSeed {
    pub lamports: u64,
    pub space: usize,
    pub owner: Pubkey,
}

/// The state of a freshly funded credential: the balance, no data, and
/// the system program as owner.
pub fn funded_account(min_balance_lamports: u64) -> (seed: AccountSeed)
    ensures
        seed.lamports == min_balance_lamports,
        seed.space == 0,
        seed.owner@ == system_program_key(),
{
    AccountSeed { lamports: min_balance_lamports, space: 0, owner: system_program_id() }
}

/// The transaction that opens `account` through the system program:
/// `payer` funds it with `min_lamports` and pays the fee; both sign.
pub open spec fn new_keypair_plan(payer: Seq<u8>, account: Seq<u8>, min_lamports: u64) -> PlanModel {
    PlanModel {
        instructions: seq![
            create_account_instruction(payer, account, min_lamports, 0, system_program_key()),
        ],
        fee_payer: payer,
        signers: seq![payer, account],
    }
}

/// Plans opening the account of a new credential with `min_lamports`,
/// paid for by `payer`.
pub fn new_keypair(payer: &Pubkey, account: &Pubkey, min_lamports: u64) -> (plan: TransactionPlan)
    ensures
        plan@ == new_keypair_plan(payer@, account@, min_lamports),
        plan@.signers_cover(),
{
    let owner = system_program_id();
    let create = system_create_account(payer, account, min_lamports, 0, &owner);
    let plan = TransactionPlan::new(vec![create], *payer, vec![*payer, *account]);
    proof {
        let model = new_keypair_plan(payer@, account@, min_lamports);
        assert(create@ == model.instructions[0]);
        assert(plan@.instructions =~= model.instructions);
        assert(plan@.signers =~= model.signers);
        assert(model.signers[0] == payer@);
        assert(model.signers[1] == account@);
    }
    plan
}

} // verus!
