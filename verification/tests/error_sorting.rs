use leptos_solana::error::{ErrorCode, ThrownObject, ThrownValue};
use leptos_solana::Error;

fn object(code: Option<i64>, message: Option<&str>, name: Option<&str>) -> ThrownValue {
    ThrownValue {
        object: Some(ThrownObject {
            code: code.map(|c| ErrorCode { whole: Some(c), text: c.to_string() }),
            message: message.map(|m| m.to_string()),
            name: name.map(|n| n.to_string()),
            logs: Vec::new(),
        }),
        text: Some("{}".to_string()),
    }
}

#[test]
fn wallet_codes_are_sorted_first() {
    assert_eq!(Error::from_thrown(object(Some(4001), Some("blockhash not found"), None)), Error::UserRejected);
    assert_eq!(Error::from_thrown(object(Some(4100), None, None)), Error::WalletLocked);
    assert_eq!(Error::from_thrown(object(Some(4900), None, None)), Error::WalletDisconnected);
    assert_eq!(
        Error::from_thrown(object(Some(4901), Some("wrong"), None)),
        Error::WrongChain { expected: String::new(), got: None }
    );
}

#[test]
fn unsupported_method_names_the_message_or_unknown() {
    assert_eq!(
        Error::from_thrown(object(Some(4200), Some("signIn"), None)),
        Error::UnsupportedMethod("signIn".to_string())
    );
    assert_eq!(
        Error::from_thrown(object(Some(4200), None, None)),
        Error::UnsupportedMethod("unknown".to_string())
    );
}

#[test]
fn message_phrases_decide_without_a_code() {
    assert_eq!(
        Error::from_thrown(object(None, Some("Transaction failed: Blockhash not found"), None)),
        Error::BlockhashNotFound
    );
    assert_eq!(
        Error::from_thrown(object(Some(-32002), Some("Insufficient Funds for fee"), None)),
        Error::InsufficientFunds
    );
    assert_eq!(
        Error::from_thrown(object(
            None,
            Some("Attempt to debit an account but found no record of a prior credit."),
            None
        )),
        Error::InsufficientFunds
    );
}

#[test]
fn simulation_failure_keeps_logs_and_message() {
    let v = ThrownValue {
        object: Some(ThrownObject {
            code: None,
            message: Some("Transaction simulation failed: Error processing Instruction 0".to_string()),
            name: None,
            logs: vec!["Program 111 invoke [1]".to_string(), "Program 111 failed".to_string()],
        }),
        text: None,
    };
    assert_eq!(
        Error::from_thrown(v),
        Error::SimulationFailed {
            logs: vec!["Program 111 invoke [1]".to_string(), "Program 111 failed".to_string()],
            err: "Transaction simulation failed: Error processing Instruction 0".to_string(),
        }
    );
}

#[test]
fn other_objects_are_described_by_name_code_and_message() {
    let v = ThrownValue {
        object: Some(ThrownObject {
            code: Some(ErrorCode { whole: None, text: "43".to_string() }),
            message: Some("boom".to_string()),
            name: Some("TypeError".to_string()),
            logs: Vec::new(),
        }),
        text: Some("{}".to_string()),
    };
    assert_eq!(Error::from_thrown(v), Error::Js("TypeError (43): boom".to_string()));
    assert_eq!(Error::from_thrown(object(None, Some("boom"), None)), Error::Js("boom".to_string()));
    assert_eq!(Error::from_thrown(object(None, None, Some("AbortError"))), Error::Js("AbortError".to_string()));
    assert_eq!(Error::from_thrown(object(Some(7), None, None)), Error::Js("(7)".to_string()));
    assert_eq!(
        Error::from_thrown(object(Some(7), Some("late"), None)),
        Error::Js("(7): late".to_string())
    );
}

#[test]
fn bare_values_are_reported_by_their_text() {
    assert_eq!(
        Error::from_thrown(ThrownValue { object: None, text: Some("plain".to_string()) }),
        Error::Js("plain".to_string())
    );
    assert_eq!(
        Error::from_thrown(ThrownValue { object: None, text: None }),
        Error::Js("unknown js error".to_string())
    );
    assert_eq!(
        Error::from_thrown(object(None, Some(""), Some(""))),
        Error::Js("{}".to_string())
    );
}

#[test]
fn rpc_failure_text_holds_message_and_code() {
    assert_eq!(
        Error::from_rpc_failure("Invalid params", -32602),
        Error::Rpc("Invalid params (-32602)".to_string())
    );
    assert_eq!(Error::from_rpc_failure("", 0), Error::Rpc(" (0)".to_string()));
}

#[test]
fn wrong_chain_names_the_requested_chain() {
    assert_eq!(
        Error::from_thrown_on_chain(object(Some(4901), Some("wrong network"), None), "solana:devnet"),
        Error::WrongChain { expected: "solana:devnet".to_string(), got: None }
    );
    assert_eq!(
        Error::from_thrown_on_chain(object(Some(4001), None, None), "solana:devnet"),
        Error::UserRejected
    );
    assert_eq!(
        Error::WrongChain { expected: String::new(), got: Some("solana:mainnet".to_string()) }
            .expecting_chain("solana:devnet"),
        Error::WrongChain {
            expected: "solana:devnet".to_string(),
            got: Some("solana:mainnet".to_string())
        }
    );
    assert_eq!(Error::NoAccount.expecting_chain("solana:devnet"), Error::NoAccount);
}
