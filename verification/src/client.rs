//! Transactions that call the program under test.

use crate::dispatch::dispatch_id;
use crate::dispatch::instruction_data;
use crate::instruction::writable_signer;
use crate::instruction::writable_signer_meta;
use crate::instruction::Instruction;
use crate::instruction::InstructionModel;
use crate::keys::Pubkey;
use crate::transaction::PlanModel;
use crate::transaction::TransactionPlan;
use vstd::prelude::*;

verus! {

/// The call that initialises a market: dispatched as
/// `global:initialize_market` without arguments, with `admin` as its one
/// account, writable and signing.
pub open spec fn initialize_market_instruction(program: Seq<u8>, admin: Seq<u8>) -> InstructionModel {
    InstructionModel {
        program,
        accounts: seq![writable_signer_meta(admin)],
        data: dispatch_id("global"@, "initialize_market"@),
    }
}

/// The transaction of [`initialize_market`]: `admin` pays the fee and
/// signs alone.
pub open spec fn initialize_market_plan(program: Seq<u8>, admin: Seq<u8>) -> PlanModel {
    PlanModel {
        instructions: seq![initialize_market_instruction(program, admin)],
        fee_payer: admin,
        signers: seq![admin],
    }
}

/// The transaction of [`initialize`]: one call to `program` without
/// accounts or payload; `payer` pays the fee and signs alone.
pub open spec fn initialize_plan(program: Seq<u8>, payer: Seq<u8>) -> PlanModel {
    PlanModel {
        instructions: seq![
            InstructionModel {
                program,
                accounts: Seq::empty(),
                data: Seq::empty(),
            },
        ],
        fee_payer: payer,
        signers: seq![payer],
    }
}

/// Plans the call that initialises a market of the program at
/// `program_id` on behalf of `admin`.
pub fn initialize_market(program_id: &Pubkey, admin: &Pubkey) -> (plan: TransactionPlan)
    ensures
        plan@ == initialize_market_plan(program_id@, admin@),
        plan@.signers_cover(),
{
    let data = instruction_data("global", "initialize_market", &[]);
    let instruction = Instruction {
        program_id: *program_id,
        accounts: vec![writable_signer(*admin)],
        data,
    };
    let plan = TransactionPlan::new(vec![instruction], *admin, vec![*admin]);
    proof {
        let model = initialize_market_plan(program_id@, admin@);
        assert(instruction@.accounts =~= model.instructions[0].accounts);
        assert(instruction@.data =~= model.instructions[0].data);
        assert(plan@.instructions =~= model.instructions);
        assert(plan@.signers =~= model.signers);
        assert(model.signers[0] == admin@);
    }
    plan
}

/// Plans a bare call to the program at `program_id`, paid for by
/// `payer`.
pub fn initialize(program_id: &Pubkey, payer: &Pubkey) -> (plan: TransactionPlan)
    ensures
        plan@ == initialize_plan(program_id@, payer@),
        plan@.signers_cover(),
{
    let instruction = Instruction {
        program_id: *program_id,
        accounts: Vec::new(),
        data: Vec::new(),
    };
    let plan = TransactionPlan::new(vec![instruction], *payer, vec![*payer]);
    proof {
        let model = initialize_plan(program_id@, payer@);
        assert(instruction@.accounts =~= model.instructions[0].accounts);
        assert(plan@.instructions =~= model.instructions);
        assert(plan@.signers =~= model.signers);
        assert(model.signers[0] == payer@);
    }
    plan
}

} // verus!
