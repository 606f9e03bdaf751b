use leptos_solana::base58::encode_base58;
use leptos_solana::rpc::{address_bytes, RpcClient};
use leptos_solana::transfer::{self_transfer, transfer_accounts, transfer_transaction, AccountRole};
use leptos_solana::Error;
use solana_transaction::versioned::VersionedTransaction;

const SYSTEM: &str = "11111111111111111111111111111111";

fn expected_transfer(from: [u8; 32], to: [u8; 32], lamports: u64, blockhash: [u8; 32]) -> VersionedTransaction {
    let from = solana_pubkey::Pubkey::new_from_array(from);
    let to = solana_pubkey::Pubkey::new_from_array(to);
    let mut data = Vec::new();
    data.extend_from_slice(&2u32.to_le_bytes());
    data.extend_from_slice(&lamports.to_le_bytes());
    let ix = solana_instruction::Instruction {
        program_id: solana_pubkey::Pubkey::new_from_array([0u8; 32]),
        accounts: vec![
            solana_instruction::AccountMeta::new(from, true),
            solana_instruction::AccountMeta::new(to, false),
        ],
        data,
    };
    let msg = solana_message::Message::new_with_blockhash(
        &[ix],
        Some(&from),
        &solana_hash::Hash::new_from_array(blockhash),
    );
    solana_transaction::Transaction::new_unsigned(msg).into()
}

#[test]
fn address_text_is_decoded() {
    assert_eq!(address_bytes(SYSTEM), Ok([0u8; 32]));
    let text = bs58::encode([9u8; 32]).into_string();
    assert_eq!(address_bytes(&text), Ok([9u8; 32]));
    assert_eq!(
        address_bytes("0OIl"),
        Err(Error::Decode("address: Invalid Base58 string".to_string()))
    );
}

#[test]
fn a_copied_client_keeps_its_endpoint() {
    let client = RpcClient::new("http://127.0.0.1:8899");
    assert_eq!(client.copy().endpoint(), "http://127.0.0.1:8899");
}

#[test]
fn transfer_accounts_sign_and_credit() {
    assert_eq!(
        transfer_accounts([1u8; 32], [2u8; 32]),
        vec![
            AccountRole { key: [1u8; 32], is_signer: true, is_writable: true },
            AccountRole { key: [2u8; 32], is_signer: false, is_writable: true },
        ]
    );
}

#[test]
fn transfer_transaction_matches_the_message_compiler() {
    let tx = transfer_transaction([1u8; 32], [2u8; 32], 100_000, [7u8; 32]);
    assert_eq!(tx, expected_transfer([1u8; 32], [2u8; 32], 100_000, [7u8; 32]));
    assert_eq!(tx.signatures.len(), 1);
}

#[test]
fn self_transfer_from_an_address_text() {
    let text = bs58::encode([5u8; 32]).into_string();
    let tx = self_transfer(&text, 100_000, [3u8; 32]).unwrap();
    assert_eq!(tx, expected_transfer([5u8; 32], [5u8; 32], 100_000, [3u8; 32]));
    assert!(matches!(self_transfer("not base58!", 1, [0u8; 32]), Err(Error::Decode(_))));
}

#[test]
fn base58_text_of_bytes() {
    assert_eq!(encode_base58(&[0u8; 32]), SYSTEM);
    assert_eq!(encode_base58(&[]), "");
    let sig = [0xabu8; 64];
    assert_eq!(encode_base58(&sig), bs58::encode(sig).into_string());
}
