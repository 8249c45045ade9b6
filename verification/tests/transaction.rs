use clob_harness::instruction::readable;
use clob_harness::instruction::signer;
use clob_harness::instruction::writable;
use clob_harness::instruction::writable_signer;
use clob_harness::instruction::AccountMeta;
use clob_harness::instruction::Instruction;
use clob_harness::keys::Pubkey;
use clob_harness::transaction::contains_key;
use clob_harness::transaction::covers_instruction;
use clob_harness::transaction::TransactionPlan;

fn key(fill: u8) -> Pubkey {
    Pubkey::new([fill; 32])
}

fn call(accounts: Vec<AccountMeta>) -> Instruction {
    Instruction { program_id: key(200), accounts, data: vec![1, 2, 3] }
}

#[test]
fn roles_set_the_two_flags() {
    let k = key(7);
    assert_eq!(readable(k), AccountMeta { pubkey: k, is_signer: false, is_writable: false });
    assert_eq!(signer(k), AccountMeta { pubkey: k, is_signer: true, is_writable: false });
    assert_eq!(writable(k), AccountMeta { pubkey: k, is_signer: false, is_writable: true });
    assert_eq!(writable_signer(k), AccountMeta { pubkey: k, is_signer: true, is_writable: true });
}

#[test]
fn roles_agree_with_the_ledger_sdk() {
    let k = key(7);
    let outside = solana_sdk::pubkey::Pubkey::new_from_array(k.bytes);
    let pairs = [
        (readable(k), solana_sdk::instruction::AccountMeta::new_readonly(outside, false)),
        (signer(k), solana_sdk::instruction::AccountMeta::new_readonly(outside, true)),
        (writable(k), solana_sdk::instruction::AccountMeta::new(outside, false)),
        (writable_signer(k), solana_sdk::instruction::AccountMeta::new(outside, true)),
    ];
    for (ours, theirs) in pairs {
        assert_eq!(ours.pubkey.bytes, theirs.pubkey.to_bytes());
        assert_eq!(ours.is_signer, theirs.is_signer);
        assert_eq!(ours.is_writable, theirs.is_writable);
    }
}

#[test]
fn same_compares_all_32_bytes() {
    let a = key(1);
    assert!(a.same(&key(1)));
    assert!(!a.same(&key(2)));
    for i in 0..32 {
        let mut other = a;
        other.bytes[i] = 9;
        assert!(!a.same(&other));
        assert!(!other.same(&a));
    }
}

#[test]
fn contains_key_finds_a_key_anywhere() {
    let keys = vec![key(1), key(2), key(3)];
    assert!(contains_key(&keys, &key(1)));
    assert!(contains_key(&keys, &key(2)));
    assert!(contains_key(&keys, &key(3)));
    assert!(!contains_key(&keys, &key(4)));
    assert!(!contains_key(&Vec::new(), &key(1)));
}

#[test]
fn covers_instruction_asks_only_for_signers() {
    let instruction = call(vec![writable(key(1)), signer(key(2)), readable(key(3)), writable_signer(key(4))]);
    assert!(covers_instruction(&instruction, &vec![key(2), key(4)]));
    assert!(covers_instruction(&instruction, &vec![key(4), key(9), key(2)]));
    assert!(!covers_instruction(&instruction, &vec![key(2)]));
    assert!(!covers_instruction(&instruction, &vec![key(4)]));
    assert!(!covers_instruction(&instruction, &vec![key(1), key(3)]));
    assert!(covers_instruction(&call(vec![]), &Vec::new()));
    assert!(covers_instruction(&call(vec![readable(key(1))]), &Vec::new()));
}

#[test]
fn a_plan_needs_its_fee_payer_to_sign() {
    let plan = TransactionPlan {
        instructions: vec![call(vec![readable(key(1))])],
        fee_payer: key(1),
        signers: vec![key(2)],
    };
    assert!(!plan.is_fully_signed());
    let signed = TransactionPlan { signers: vec![key(2), key(1)], ..plan };
    assert!(signed.is_fully_signed());
}

#[test]
fn a_plan_needs_every_instruction_signer() {
    let instructions = vec![
        call(vec![writable_signer(key(1)), readable(key(5))]),
        call(vec![]),
        call(vec![writable(key(6)), signer(key(2)), signer(key(3))]),
    ];
    let all = TransactionPlan {
        instructions: instructions.clone(),
        fee_payer: key(1),
        signers: vec![key(1), key(2), key(3)],
    };
    assert!(all.is_fully_signed());
    for missing in 1..=3u8 {
        let signers: Vec<Pubkey> = [1u8, 2, 3].into_iter().filter(|k| *k != missing).map(key).collect();
        let plan = TransactionPlan { instructions: instructions.clone(), fee_payer: key(1), signers };
        assert!(!plan.is_fully_signed());
    }
}

#[test]
fn a_plan_without_instructions_needs_only_its_fee_payer() {
    let plan = TransactionPlan { instructions: vec![], fee_payer: key(1), signers: vec![key(1)] };
    assert!(plan.is_fully_signed());
    let unsigned = TransactionPlan { instructions: vec![], fee_payer: key(1), signers: vec![] };
    assert!(!unsigned.is_fully_signed());
}
