use bridge_relayer::address::{Address, Blockhash};
use bridge_relayer::error::RelayError;
use bridge_relayer::transaction::{
    same_data, AccountRef, CompiledCall, CompiledMessage, MessageHeader, ProgramCall,
    SignedTransaction, Signature, SigningKey, TransactionBuilder,
};
use solana_sdk::hash;
use solana_sdk::instruction::{AccountMeta, Instruction};
use solana_sdk::message::Message;
use solana_sdk::pubkey::Pubkey;
use solana_sdk::signature::{keypair_from_seed, Keypair};
use solana_sdk::signer::Signer;
use solana_sdk::transaction::Transaction;

fn keypair() -> Keypair {
    keypair_from_seed(&[7u8; 32]).unwrap()
}

fn signing_key() -> SigningKey {
    SigningKey { bytes: keypair().to_bytes() }
}

fn payer() -> Address {
    Address::new(keypair().pubkey().to_bytes())
}

fn builder() -> TransactionBuilder {
    TransactionBuilder::new(
        Address::new([0xA1; 32]),
        Address::new([0xB2; 32]),
        Address::new([0xC3; 32]),
    )
}

fn destination() -> Address {
    Address::new([0xD4; 32])
}

fn token() -> Blockhash {
    Blockhash { bytes: [0x5A; 32] }
}

fn outside(transaction: &SignedTransaction) -> Transaction {
    Transaction {
        signatures: transaction
            .signatures
            .iter()
            .map(|s| solana_sdk::signature::Signature::from(s.bytes))
            .collect(),
        message: Message {
            header: solana_sdk::message::MessageHeader {
                num_required_signatures: transaction.message.header.num_required_signatures,
                num_readonly_signed_accounts: transaction
                    .message
                    .header
                    .num_readonly_signed_accounts,
                num_readonly_unsigned_accounts: transaction
                    .message
                    .header
                    .num_readonly_unsigned_accounts,
            },
            account_keys: transaction
                .message
                .account_keys
                .iter()
                .map(|k| Pubkey::new_from_array(k.bytes))
                .collect(),
            recent_blockhash: hash::Hash::new_from_array(transaction.message.recent_blockhash.bytes),
            instructions: transaction
                .message
                .calls
                .iter()
                .map(|c| solana_sdk::instruction::CompiledInstruction {
                    program_id_index: c.program_id_index,
                    accounts: c.accounts.clone(),
                    data: c.data.clone(),
                })
                .collect(),
        },
    }
}

fn sample_message() -> (CompiledMessage, ProgramCall) {
    let call = builder().transfer_call(5, &destination(), &payer());
    let message = CompiledMessage {
        header: MessageHeader {
            num_required_signatures: 1,
            num_readonly_signed_accounts: 0,
            num_readonly_unsigned_accounts: 1,
        },
        account_keys: vec![
            payer(),
            builder().fixed_account,
            builder().nonce_account,
            destination(),
            builder().program_id,
        ],
        recent_blockhash: token(),
        calls: vec![CompiledCall {
            program_id_index: 4,
            accounts: vec![0, 3, 1, 2],
            data: call.data.clone(),
        }],
    };
    (message, call)
}

#[test]
fn built_transaction_round_trips_amount_and_destination() {
    let transaction = builder()
        .build_transfer_transaction(1000, &destination(), &signing_key(), &token())
        .unwrap();
    assert_eq!(transaction.transfer(), Some((1000, destination())));
    let decoded = outside(&transaction);
    assert_eq!(decoded.message.instructions.len(), 1);
    let data = decoded.data(0);
    assert_eq!(&data[..8], &1000u64.to_le_bytes());
    assert_eq!(&data[8..], &[0xD4u8; 32]);
    assert_eq!(decoded.key(0, 1), Some(&Pubkey::new_from_array([0xD4; 32])));
}

#[test]
fn built_transaction_is_what_the_chain_library_builds() {
    let pair = keypair();
    let mut data = 1000u64.to_le_bytes().to_vec();
    data.extend_from_slice(&[0xD4; 32]);
    let instruction = Instruction {
        program_id: Pubkey::new_from_array([0xA1; 32]),
        accounts: vec![
            AccountMeta::new(pair.pubkey(), true),
            AccountMeta::new(Pubkey::new_from_array([0xD4; 32]), false),
            AccountMeta::new(Pubkey::new_from_array([0xB2; 32]), false),
            AccountMeta::new(Pubkey::new_from_array([0xC3; 32]), false),
        ],
        data,
    };
    let expected = Transaction::new_signed_with_payer(
        &[instruction],
        Some(&pair.pubkey()),
        &[&pair],
        hash::Hash::new_from_array([0x5A; 32]),
    );
    let transaction = builder()
        .build_transfer_transaction(1000, &destination(), &signing_key(), &token())
        .unwrap();
    assert_eq!(outside(&transaction), expected);
}

#[test]
fn built_transaction_is_signed_by_the_payer() {
    let transaction = builder()
        .build_transfer_transaction(42, &destination(), &signing_key(), &token())
        .unwrap();
    assert_eq!(transaction.signatures.len(), 1);
    assert_eq!(transaction.message.account_keys[0], payer());
    assert_eq!(transaction.message.header.num_required_signatures, 1);
    let decoded = outside(&transaction);
    assert!(decoded.verify().is_ok());
    assert!(decoded.is_signed());
    let expected = keypair().sign_message(&decoded.message_data());
    assert_eq!(transaction.signatures[0], Signature { bytes: expected.into() });
}

#[test]
fn built_transaction_names_program_accounts_and_token() {
    let transaction = builder()
        .build_transfer_transaction(42, &destination(), &signing_key(), &token())
        .unwrap();
    let message = &transaction.message;
    let call = &message.calls[0];
    assert_eq!(message.recent_blockhash, token());
    assert_eq!(message.account_keys[call.program_id_index as usize], builder().program_id);
    let named: Vec<Address> =
        call.accounts.iter().map(|i| message.account_keys[*i as usize]).collect();
    assert_eq!(
        named,
        vec![payer(), destination(), builder().fixed_account, builder().nonce_account]
    );
    assert!(message.carries(&builder().transfer_call(42, &destination(), &payer()), &payer()));
}

#[test]
fn building_is_deterministic() {
    let first = builder().build_transfer_transaction(1, &destination(), &signing_key(), &token());
    let second = builder().build_transfer_transaction(1, &destination(), &signing_key(), &token());
    assert_eq!(first, second);
    let other = builder().build_transfer_transaction(2, &destination(), &signing_key(), &token());
    assert_ne!(first, other);
}

#[test]
fn transfer_to_the_payer_itself_is_built() {
    let transaction = builder()
        .build_transfer_transaction(9, &payer(), &signing_key(), &token())
        .unwrap();
    assert_eq!(transaction.transfer(), Some((9, payer())));
    assert!(outside(&transaction).verify().is_ok());
}

#[test]
fn bytes_that_are_no_key_pair_build_nothing() {
    let mut bytes = keypair().to_bytes();
    bytes[40] ^= 0xFF;
    let result = builder().build_transfer_transaction(
        1,
        &destination(),
        &SigningKey { bytes },
        &token(),
    );
    assert_eq!(result, Err(RelayError::Build));
}

#[test]
fn transfer_data_is_amount_then_destination() {
    let data = TransactionBuilder::transfer_data(1000, &destination());
    assert_eq!(data.len(), 40);
    assert_eq!(&data[..8], &[0xE8, 0x03, 0, 0, 0, 0, 0, 0]);
    assert_eq!(&data[8..], &[0xD4; 32]);
}

#[test]
fn transfer_data_decodes_to_what_was_encoded() {
    for amount in [0u64, 1, 1000, u64::MAX] {
        let data = TransactionBuilder::transfer_data(amount, &destination());
        assert_eq!(TransactionBuilder::decode_transfer(&data), Some((amount, destination())));
    }
}

#[test]
fn data_of_another_length_is_no_transfer() {
    assert_eq!(TransactionBuilder::decode_transfer(&[]), None);
    assert_eq!(TransactionBuilder::decode_transfer(&[0; 39]), None);
    assert_eq!(TransactionBuilder::decode_transfer(&[0; 41]), None);
}

#[test]
fn transfer_call_lists_the_accounts_in_order() {
    let call = builder().transfer_call(7, &destination(), &payer());
    assert_eq!(call.program_id, builder().program_id);
    assert_eq!(
        call.accounts,
        vec![
            AccountRef { address: payer(), is_signer: true, is_writable: true },
            AccountRef { address: destination(), is_signer: false, is_writable: true },
            AccountRef { address: builder().fixed_account, is_signer: false, is_writable: true },
            AccountRef { address: builder().nonce_account, is_signer: false, is_writable: true },
        ]
    );
    assert_eq!(call.data, TransactionBuilder::transfer_data(7, &destination()));
}

#[test]
fn message_that_holds_the_call_carries_it() {
    let (message, call) = sample_message();
    assert!(message.carries(&call, &payer()));
}

#[test]
fn message_with_another_payer_does_not_carry() {
    let (message, call) = sample_message();
    assert!(!message.carries(&call, &destination()));
    let (mut message, call) = sample_message();
    message.header.num_required_signatures = 2;
    assert!(!message.carries(&call, &payer()));
}

#[test]
fn message_with_other_data_or_accounts_does_not_carry() {
    let (mut message, call) = sample_message();
    message.calls[0].data[0] ^= 1;
    assert!(!message.carries(&call, &payer()));
    let (mut message, call) = sample_message();
    message.calls[0].accounts = vec![0, 1, 3, 2];
    assert!(!message.carries(&call, &payer()));
    let (mut message, call) = sample_message();
    message.calls[0].accounts = vec![0, 3, 1];
    assert!(!message.carries(&call, &payer()));
    let (mut message, call) = sample_message();
    message.calls[0].accounts = vec![0, 3, 1, 9];
    assert!(!message.carries(&call, &payer()));
    let (mut message, call) = sample_message();
    message.calls[0].program_id_index = 3;
    assert!(!message.carries(&call, &payer()));
    let (mut message, call) = sample_message();
    message.calls[0].program_id_index = 5;
    assert!(!message.carries(&call, &payer()));
}

#[test]
fn message_with_no_call_or_two_calls_does_not_carry() {
    let (mut message, call) = sample_message();
    let second = message.calls[0].clone();
    message.calls.push(second);
    assert!(!message.carries(&call, &payer()));
    let (mut message, call) = sample_message();
    message.calls.clear();
    assert!(!message.carries(&call, &payer()));
    let (mut message, call) = sample_message();
    message.account_keys.clear();
    assert!(!message.carries(&call, &payer()));
}

#[test]
fn transaction_with_two_calls_decodes_to_no_transfer() {
    let (mut message, _) = sample_message();
    let second = message.calls[0].clone();
    message.calls.push(second);
    let transaction = SignedTransaction { signatures: Vec::new(), message };
    assert_eq!(transaction.transfer(), None);
    let (message, _) = sample_message();
    let transaction = SignedTransaction { signatures: Vec::new(), message };
    assert_eq!(transaction.transfer(), Some((5, destination())));
}

#[test]
fn byte_strings_are_compared_whole() {
    assert!(same_data(&[], &[]));
    assert!(same_data(&[1, 2, 3], &[1, 2, 3]));
    assert!(!same_data(&[1, 2, 3], &[1, 2]));
    assert!(!same_data(&[1, 2, 3], &[1, 2, 4]));
}
