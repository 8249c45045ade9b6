//! Instructions: a target program, the accounts it touches with their
//! roles, and an opaque payload.

use crate::keys::Pubkey;
use vstd::prelude::*;

verus! {

/// How an instruction refers to one account.
#[derive(Clone, Copy, Debug, PartialEq, Eq)]
pub struct AccountMeta {
    pub pubkey: Pubkey,
    pub is_signer: bool,
    pub is_writable: bool,
}

/// Mathematical model of an [`AccountMeta`].
pub struct MetaModel {
    pub key: Seq<u8>,
    pub is_signer: bool,
    pub is_writable: bool,
}

impl View for AccountMeta {
    type V = MetaModel;

    open spec fn view(&self) -> MetaModel {
        MetaModel { key: self.pubkey@, is_signer: self.is_signer, is_writable: self.is_writable }
    }
}

/// One call into a program.
#[derive(Clone, Debug, PartialEq, Eq)]
pub struct Instruction {
    pub program_id: Pubkey,
    pub accounts: Vec<AccountMeta>,
    pub data: Vec<u8>,
}

/// Mathematical model of an [`Instruction`].
pub struct InstructionModel {
    pub program: Seq<u8>,
    pub accounts: Seq<MetaModel>,
    pub data: Seq<u8>,
}

/// Models of a run of account references, in order.
pub open spec fn meta_views(metas: Seq<AccountMeta>) -> Seq<MetaModel> {
    Seq::new(metas.len(), |i: int| metas[i]@)
}

impl View for Instruction {
    type V = InstructionModel;

    open spec fn view(&self) -> InstructionModel {
        InstructionModel {
            program: self.program_id@,
            accounts: meta_views(self.accounts@),
            data: self.data@,
        }
    }
}

/// Models of a run of instructions, in order.
pub open spec fn instruction_views(instructions: Seq<Instruction>) -> Seq<InstructionModel> {
    Seq::new(instructions.len(), |i: int| instructions[i]@)
}

/// A read-only account that does not sign.
pub open spec fn readable_meta(key: Seq<u8>) -> MetaModel {
    MetaModel { key, is_signer: false, is_writable: false }
}

/// A read-only account that signs.
pub open spec fn signer_meta(key: Seq<u8>) -> MetaModel {
    MetaModel { key, is_signer: true, is_writable: false }
}

/// A writable account that does not sign.
pub open spec fn writable_meta(key: Seq<u8>) -> MetaModel {
    MetaModel { key, is_signer: false, is_writable: true }
}

/// A writable account that signs.
pub open spec fn writable_signer_meta(key: Seq<u8>) -> MetaModel {
    MetaModel { key, is_signer: true, is_writable: true }
}

/// Refers to `pubkey` as a read-only account that does not sign.
pub fn readable(pubkey: Pubkey) -> (meta: AccountMeta)
    ensures
        meta@ == readable_meta(pubkey@),
{
    AccountMeta { pubkey, is_signer: false, is_writable: false }
}

/// Refers to `pubkey` as a read-only account that signs.
pub fn signer(pubkey: Pubkey) -> (meta: AccountMeta)
    ensures
        meta@ == signer_meta(pubkey@),
{
    AccountMeta { pubkey, is_signer: true, is_writable: false }
}

/// Refers to `pubkey` as a writable account that does not sign.
pub fn writable(pubkey: Pubkey) -> (meta: AccountMeta)
    ensures
        meta@ == writable_meta(pubkey@),
{
    AccountMeta { pubkey, is_signer: false, is_writable: true }
}

/// Refers to `pubkey` as a writable account that signs.
pub fn writable_signer(pubkey: Pubkey) -> (meta: AccountMeta)
    ensures
        meta@ == writable_signer_meta(pubkey@),
{
    AccountMeta { pubkey, is_signer: true, is_writable: true }
}

} // verus!
