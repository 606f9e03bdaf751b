use leptos_solana::rpc::{account_from_parts, blockhash_from_parsed, AccountInfoRaw};
use leptos_solana::tx::{decoded_transaction, wire_bytes};
use leptos_solana::Error;
use solana_transaction::versioned::VersionedTransaction;

fn raw() -> AccountInfoRaw {
    AccountInfoRaw {
        data: ("ignored".to_string(), "base64".to_string()),
        owner: "ignored".to_string(),
        lamports: 5,
        executable: true,
        rent_epoch: 9,
    }
}

#[test]
fn account_parts_assemble_an_account() {
    let info = account_from_parts(raw(), Ok(vec![9, 8]), Ok([3u8; 32])).unwrap();
    assert_eq!(info.data, vec![9, 8]);
    assert_eq!(info.owner, [3u8; 32]);
    assert_eq!((info.lamports, info.executable, info.rent_epoch), (5, true, 9));
}

#[test]
fn account_data_failure_is_reported_first() {
    let r = account_from_parts(
        raw(),
        Err(base64::DecodeError::InvalidPadding),
        Err(solana_pubkey::ParsePubkeyError::Invalid),
    );
    assert_eq!(r.err(), Some(Error::Decode("account data: Invalid padding".to_string())));
}

#[test]
fn account_owner_failure_shows_its_cause() {
    let r = account_from_parts(raw(), Ok(vec![]), Err(solana_pubkey::ParsePubkeyError::WrongSize));
    assert_eq!(r.err(), Some(Error::Decode("account owner: String is the wrong size".to_string())));
}

#[test]
fn blockhash_failure_shows_its_cause() {
    assert_eq!(blockhash_from_parsed(Ok([1u8; 32])), Ok([1u8; 32]));
    assert_eq!(
        blockhash_from_parsed(Err(solana_hash::ParseHashError::Invalid)),
        Err(Error::Decode("blockhash: failed to decoded string to hash".to_string()))
    );
}

#[test]
fn bincode_results_map_to_serialize_errors() {
    assert_eq!(wire_bytes(Ok(vec![1, 2])), Ok(vec![1, 2]));
    assert_eq!(
        wire_bytes(Err(Box::new(bincode::ErrorKind::SizeLimit))),
        Err(Error::Serialize(bincode::ErrorKind::SizeLimit.to_string()))
    );
    let tx = VersionedTransaction::default();
    assert_eq!(decoded_transaction(Ok(tx.clone())), Ok(tx));
    assert_eq!(
        decoded_transaction(Err(Box::new(bincode::ErrorKind::Custom("bad".to_string())))),
        Err(Error::Serialize("bad".to_string()))
    );
}
