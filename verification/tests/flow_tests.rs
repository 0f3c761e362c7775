use wallet_connect::errors::WalletError;
use wallet_connect::flow::connect_outcome;
use wallet_connect::flow::fetch_balance_outcome;
use wallet_connect::flow::BalanceResponse;
use wallet_connect::flow::ConnectResponse;

#[test]
fn connect_without_provider_is_ok_none() {
    assert_eq!(connect_outcome(ConnectResponse::NoProvider), Ok(None));
}

#[test]
fn connect_empty_account_list_is_no_accounts() {
    assert_eq!(
        connect_outcome(ConnectResponse::Accounts(vec![])),
        Err(WalletError::NoAccountsReturned)
    );
}

#[test]
fn connect_absent_first_account_is_no_accounts() {
    let accounts = vec![None, Some("0xabc".to_string())];
    assert_eq!(
        connect_outcome(ConnectResponse::Accounts(accounts)),
        Err(WalletError::NoAccountsReturned)
    );
}

#[test]
fn connect_returns_first_address() {
    let accounts = vec![Some("0xabc".to_string()), Some("0xdef".to_string())];
    assert_eq!(
        connect_outcome(ConnectResponse::Accounts(accounts)),
        Ok(Some("0xabc".to_string()))
    );
}

#[test]
fn connect_call_failure_keeps_detail() {
    assert_eq!(
        connect_outcome(ConnectResponse::CallFailed("request rejected: denied".to_string())),
        Err(WalletError::RequestFailed("request rejected: denied".to_string()))
    );
}

#[test]
fn connect_non_array_is_unexpected_response() {
    assert_eq!(
        connect_outcome(ConnectResponse::NotAnArray),
        Err(WalletError::UnexpectedResponse)
    );
}

#[test]
fn balance_without_provider_is_no_wallet() {
    assert_eq!(fetch_balance_outcome(BalanceResponse::NoProvider), Err(WalletError::NoWallet));
}

#[test]
fn balance_non_string_is_unexpected_response() {
    assert_eq!(
        fetch_balance_outcome(BalanceResponse::Value(None)),
        Err(WalletError::UnexpectedResponse)
    );
}

#[test]
fn balance_unprefixed_string_is_unexpected_response() {
    let resp = BalanceResponse::Value(Some("de0b6b3a7640000".to_string()));
    assert_eq!(fetch_balance_outcome(resp), Err(WalletError::UnexpectedResponse));
    let resp = BalanceResponse::Value(Some("0".to_string()));
    assert_eq!(fetch_balance_outcome(resp), Err(WalletError::UnexpectedResponse));
}

#[test]
fn balance_malformed_digits_fail_to_parse() {
    let resp = BalanceResponse::Value(Some("0xnope".to_string()));
    assert_eq!(fetch_balance_outcome(resp), Err(WalletError::ParseFailed));
    let resp = BalanceResponse::Value(Some("0x".to_string()));
    assert_eq!(fetch_balance_outcome(resp), Err(WalletError::ParseFailed));
}

#[test]
fn balance_value_too_large_fails_to_parse() {
    let resp = BalanceResponse::Value(Some("0xfffffffffffffffffffffffffffffffff".to_string()));
    assert_eq!(fetch_balance_outcome(resp), Err(WalletError::ParseFailed));
}

#[test]
fn balance_one_eth_formats() {
    let resp = BalanceResponse::Value(Some("0xde0b6b3a7640000".to_string()));
    assert_eq!(fetch_balance_outcome(resp), Ok("1.0000".to_string()));
}

#[test]
fn balance_rejection_keeps_detail() {
    let resp = BalanceResponse::CallFailed("eth_getBalance rejected: boom".to_string());
    assert_eq!(
        fetch_balance_outcome(resp),
        Err(WalletError::RequestFailed("eth_getBalance rejected: boom".to_string()))
    );
}

#[test]
fn error_messages_name_each_failure() {
    assert_eq!(WalletError::NoWallet.message(), "No injected wallet found");
    assert_eq!(WalletError::NoAccountsReturned.message(), "No accounts returned from wallet");
    assert_eq!(WalletError::RequestFailed("why".to_string()).message(), "why");
    assert_eq!(WalletError::UnexpectedResponse.message(), "Unexpected response from wallet");
    assert_eq!(WalletError::ParseFailed.message(), "Failed to parse balance");
}
