//! What is decided about a transaction before it is signed: its
//! instructions, who pays the fee, and whose signatures accompany it.

use crate::instruction::instruction_views;
use crate::instruction::Instruction;
use crate::instruction::InstructionModel;
use crate::keys::Pubkey;
use vstd::prelude::*;

verus! {

/// An unsigned transaction. Signing it against a recent block reference
/// and submitting it are left to the caller, who holds the credentials.
#[derive(Clone, Debug, PartialEq, Eq)]
pub struct TransactionPlan {
    pub instructions: Vec<Instruction>,
    pub fee_payer: Pubkey,
    pub signers: Vec<Pubkey>,
}

/// Mathematical model of a [`TransactionPlan`].
pub struct PlanModel {
    pub instructions: Seq<InstructionModel>,
    pub fee_payer: Seq<u8>,
    pub signers: Seq<Seq<u8>>,
}

/// Models of a run of addresses, in order.
pub open spec fn key_views(keys: Seq<Pubkey>) -> Seq<Seq<u8>> {
    Seq::new(keys.len(), |i: int| keys[i]@)
}

impl View for TransactionPlan {
    type V = PlanModel;

    open spec fn view(&self) -> PlanModel {
        PlanModel {
            instructions: instruction_views(self.instructions@),
            fee_payer: self.fee_payer@,
            signers: key_views(self.signers@),
        }
    }
}

/// Every account that `instruction` marks as a signer is among `signers`.
pub open spec fn instruction_covered(instruction: InstructionModel, signers: Seq<Seq<u8>>) -> bool {
    forall|j: int|
        0 <= j < instruction.accounts.len() && (#[trigger] instruction.accounts[j]).is_signer
            ==> signers.contains(instruction.accounts[j].key)
}

impl PlanModel {
    /// The fee payer and every account that an instruction marks as a
    /// signer are among the signers. A transaction that lacks one of them
    /// is rejected on submission.
    pub open spec fn signers_cover(self) -> bool {
        &&& self.signers.contains(self.fee_payer)
        &&& forall|i: int|
            0 <= i < self.instructions.len() ==> instruction_covered(
                #[trigger] self.instructions[i],
                self.signers,
            )
    }
}

/// Whether `key` occurs in `keys`.
pub fn contains_key(keys: &Vec<Pubkey>, key: &Pubkey) -> (found: bool)
    ensures
        found == key_views(keys@).contains(key@),
{
    let mut i: usize = 0;
    while i < keys.len()
        invariant
            i <= keys.len(),
            forall|j: int| 0 <= j < i ==> key_views(keys@)[j] != key@,
        decreases keys.len() - i,
    {
        if keys[i].same(key) {
            assert(key_views(keys@)[i as int] == key@);
            return true;
        }
        i += 1;
    }
    false
}

/// Whether `signers` holds every account that `instruction` marks as a
/// signer.
pub fn covers_instruction(instruction: &Instruction, signers: &Vec<Pubkey>) -> (ok: bool)
    ensures
        ok == instruction_covered(instruction@, key_views(signers@)),
{
    let mut j: usize = 0;
    while j < instruction.accounts.len()
        invariant
            j <= instruction.accounts.len(),
            forall|k: int|
                0 <= k < j && (#[trigger] instruction@.accounts[k]).is_signer ==> key_views(
                    signers@,
                ).contains(instruction@.accounts[k].key),
        decreases instruction.accounts.len() - j,
    {
        let meta = &instruction.accounts[j];
        assert(instruction@.accounts[j as int] == meta@);
        if meta.is_signer && !contains_key(signers, &meta.pubkey) {
            return false;
        }
        j += 1;
    }
    true
}

impl TransactionPlan {
    /// Puts together what is to be signed: the instructions in order,
    /// who pays the fee, and who signs.
    pub fn new(instructions: Vec<Instruction>, fee_payer: Pubkey, signers: Vec<Pubkey>) -> (plan:
        TransactionPlan)
        ensures
            plan.instructions == instructions,
            plan.fee_payer == fee_payer,
            plan.signers == signers,
            plan@ == (PlanModel {
                instructions: instruction_views(instructions@),
                fee_payer: fee_payer@,
                signers: key_views(signers@),
            }),
    {
        TransactionPlan { instructions, fee_payer, signers }
    }

    /// Whether the signers hold the fee payer and every account that an
    /// instruction marks as a signer.
    pub fn is_fully_signed(&self) -> (ok: bool)
        ensures
            ok == self@.signers_cover(),
    {
        if !contains_key(&self.signers, &self.fee_payer) {
            return false;
        }
        let mut i: usize = 0;
        while i < self.instructions.len()
            invariant
                i <= self.instructions.len(),
                self@.signers.contains(self@.fee_payer),
                forall|k: int|
                    0 <= k < i ==> instruction_covered(#[trigger] self@.instructions[k], self@.signers),
            decreases self.instructions.len() - i,
        {
            assert(self@.instructions[i as int] == self.instructions[i as int]@);
            if !covers_instruction(&self.instructions[i], &self.signers) {
                return false;
            }
            i += 1;
        }
        true
    }
}

} // verus!
