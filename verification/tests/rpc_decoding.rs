use leptos_solana::rpc::{
    account_from_reply, account_info_from_raw, accounts_from_reply, blockhash_from_text,
    AccountInfoRaw, RpcClient, RpcError, RpcReply,
};
use leptos_solana::transfer::system_transfer_data;
use leptos_solana::tx::{deserialize, serialize};
use leptos_solana::Error;
use solana_transaction::versioned::VersionedTransaction;

fn raw(data: &str, owner: &str) -> AccountInfoRaw {
    AccountInfoRaw {
        data: (data.to_string(), "base64".to_string()),
        owner: owner.to_string(),
        lamports: 1_000,
        executable: false,
        rent_epoch: 18446744073709551615,
    }
}

const SYSTEM: &str = "11111111111111111111111111111111";

#[test]
fn public_endpoints() {
    assert_eq!(RpcClient::mainnet().endpoint(), "https://api.mainnet-beta.solana.com");
    assert_eq!(RpcClient::devnet().endpoint(), "https://api.devnet.solana.com");
    assert_eq!(RpcClient::testnet().endpoint(), "https://api.testnet.solana.com");
    assert_eq!(RpcClient::new("http://127.0.0.1:8899").endpoint(), "http://127.0.0.1:8899");
}

#[test]
fn replies_become_results() {
    assert_eq!(RpcReply::<u64>::Success(42).into_result(), Ok(42));
    let failed: RpcReply<u64> =
        RpcReply::Failure(RpcError { code: -32601, message: "Method not found".to_string() });
    assert_eq!(failed.into_result(), Err(Error::Rpc("Method not found (-32601)".to_string())));
}

#[test]
fn account_data_and_owner_are_decoded() {
    let info = account_info_from_raw(raw("AQID", SYSTEM)).unwrap();
    assert_eq!(info.data, vec![1, 2, 3]);
    assert_eq!(info.owner, [0u8; 32]);
    assert_eq!(info.lamports, 1_000);
    assert!(!info.executable);
    assert_eq!(info.rent_epoch, u64::MAX);
    let token_program = "TokenkegQfeZyiNwAJbNbGKPFXCWuBvf9Ss623VQ5DA";
    let info = account_info_from_raw(raw("", token_program)).unwrap();
    assert_eq!(info.data, Vec::<u8>::new());
    assert_eq!(bs58::encode(info.owner).into_string(), token_program);
}

#[test]
fn bad_account_data_and_owner_are_decode_errors() {
    match account_info_from_raw(raw("!!not base64", SYSTEM)) {
        Err(Error::Decode(text)) => assert!(text.starts_with("account data: ")),
        other => panic!("unexpected {other:?}"),
    }
    match account_info_from_raw(raw("AQID", "0OIl")) {
        Err(Error::Decode(text)) => assert!(text.starts_with("account owner: ")),
        other => panic!("unexpected {other:?}"),
    }
}

#[test]
fn account_replies() {
    assert!(matches!(account_from_reply(None), Ok(None)));
    assert!(matches!(account_from_reply(Some(raw("AQID", SYSTEM))), Ok(Some(_))));
    let infos = accounts_from_reply(vec![Some(raw("AQID", SYSTEM)), None, Some(raw("", SYSTEM))]).unwrap();
    assert_eq!(infos.len(), 3);
    assert_eq!(infos[0].as_ref().map(|i| i.data.clone()), Some(vec![1, 2, 3]));
    assert!(infos[1].is_none());
    assert!(infos[2].is_some());
    match accounts_from_reply(vec![Some(raw("AQID", SYSTEM)), Some(raw("AQID", "bad owner")), Some(raw("!!", SYSTEM))]) {
        Err(Error::Decode(text)) => assert!(text.starts_with("account owner: ")),
        other => panic!("unexpected {other:?}"),
    }
}

#[test]
fn blockhash_text_is_decoded() {
    let text = bs58::encode([7u8; 32]).into_string();
    assert_eq!(blockhash_from_text(&text), Ok([7u8; 32]));
    match blockhash_from_text("not-a-hash") {
        Err(Error::Decode(text)) => assert!(text.starts_with("blockhash: ")),
        other => panic!("unexpected {other:?}"),
    }
}

#[test]
fn transactions_round_trip_through_the_wire_format() {
    let tx = VersionedTransaction::default();
    let bytes = serialize(&tx).unwrap();
    assert_eq!(bytes[0], 0);
    assert_eq!(deserialize(&bytes).unwrap(), tx);
    assert!(matches!(deserialize(&[0xff, 0xff, 0xff]), Err(Error::Serialize(_))));
}

#[test]
fn system_transfer_instruction_data() {
    assert_eq!(
        system_transfer_data(100_000),
        vec![2, 0, 0, 0, 0xa0, 0x86, 0x01, 0, 0, 0, 0, 0]
    );
    assert_eq!(
        system_transfer_data(u64::MAX),
        vec![2, 0, 0, 0, 0xff, 0xff, 0xff, 0xff, 0xff, 0xff, 0xff, 0xff]
    );
}

#[test]
fn legacy_header_byte_of_0x80_or_more_does_not_read_back() {
    let mut message = solana_message::Message::default();
    message.header.num_required_signatures = 0x90;
    let tx = VersionedTransaction {
        signatures: Vec::new(),
        message: solana_message::VersionedMessage::Legacy(message),
    };
    let bytes = serialize(&tx).unwrap();
    assert!(matches!(deserialize(&bytes), Err(Error::Serialize(_))));
}
