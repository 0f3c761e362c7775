use vstd::prelude::*;
use crate::balance::{eth_decimal, format_eth};
use crate::errors::WalletError;
use crate::hex::{hex_str_val, parsable_wei_digits, parse_hex_u128};

verus! {

/// What the browser handed back for an `eth_requestAccounts` request.
#[derive(Debug, PartialEq, Eq)]
pub enum ConnectResponse {
    /// No injected wallet provider object exists.
    NoProvider,
    /// Building the request, invoking the request method, or awaiting the
    /// promise failed; carries a human-readable description.
    CallFailed(String),
    /// The promise resolved, but not to an address list.
    NotAnArray,
    /// The resolved address list; an absent (null or undefined) entry is
    /// `None`.
    Accounts(Vec<Option<String>>),
}

/// What the browser handed back for an `eth_getBalance` request.
#[derive(Debug, PartialEq, Eq)]
pub enum BalanceResponse {
    /// No injected wallet provider object exists.
    NoProvider,
    /// Building the request, invoking the request method, or awaiting the
    /// promise failed; carries a human-readable description.
    CallFailed(String),
    /// The resolved value: its string content, or `None` where it was not
    /// a string.
    Value(Option<String>),
}

/// `s` starts with the "0x" hex prefix.
pub open spec fn has_hex_prefix(s: Seq<char>) -> bool {
    s.len() >= 2 && s[0] == '0' && s[1] == 'x'
}

/// The digits of `s` after the "0x" prefix.
pub open spec fn wei_digits(s: Seq<char>) -> Seq<char> {
    s.subrange(2, s.len() as int)
}

/// Decide the result of the connect sequence from the wallet's response:
/// no provider is not an error; an empty or absent first account entry is
/// `NoAccountsReturned`; otherwise the first address is returned.
pub fn connect_outcome(resp: ConnectResponse) -> (r: Result<Option<String>, WalletError>)
    ensures
        (match resp {
            ConnectResponse::NoProvider => r == Ok::<Option<String>, WalletError>(None),
            ConnectResponse::CallFailed(detail) => r == Err::<Option<String>, WalletError>(
                WalletError::RequestFailed(detail),
            ),
            ConnectResponse::NotAnArray => r == Err::<Option<String>, WalletError>(
                WalletError::UnexpectedResponse,
            ),
            ConnectResponse::Accounts(accounts) => {
                if accounts@.len() == 0 || accounts@[0] is None {
                    r == Err::<Option<String>, WalletError>(WalletError::NoAccountsReturned)
                } else {
                    r == Ok::<Option<String>, WalletError>(accounts@[0])
                }
            },
        }),
{
    match resp {
        ConnectResponse::NoProvider => Ok(None),
        ConnectResponse::CallFailed(detail) => Err(WalletError::RequestFailed(detail)),
        ConnectResponse::NotAnArray => Err(WalletError::UnexpectedResponse),
        ConnectResponse::Accounts(accounts) => {
            if accounts.len() == 0 {
                Err(WalletError::NoAccountsReturned)
            } else {
                match &accounts[0] {
                    None => Err(WalletError::NoAccountsReturned),
                    Some(addr) => Ok(Some(addr.clone())),
                }
            }
        },
    }
}

/// Decide the result of the balance fetch from the wallet's response: the
/// resolved value must be a "0x"-prefixed hex string; its digits are parsed
/// as wei and formatted as an ETH decimal string.
pub fn fetch_balance_outcome(resp: BalanceResponse) -> (r: Result<String, WalletError>)
    ensures
        (match resp {
            BalanceResponse::NoProvider => r == Err::<String, WalletError>(WalletError::NoWallet),
            BalanceResponse::CallFailed(detail) => r == Err::<String, WalletError>(
                WalletError::RequestFailed(detail),
            ),
            BalanceResponse::Value(value) => {
                match value {
                    None => r == Err::<String, WalletError>(WalletError::UnexpectedResponse),
                    Some(text) => {
                        if !has_hex_prefix(text@) {
                            r == Err::<String, WalletError>(WalletError::UnexpectedResponse)
                        } else if !parsable_wei_digits(wei_digits(text@)) {
                            r == Err::<String, WalletError>(WalletError::ParseFailed)
                        } else {
                            r is Ok && r->Ok_0@ == eth_decimal(hex_str_val(wei_digits(text@)))
                        }
                    },
                }
            },
        }),
{
    match resp {
        BalanceResponse::NoProvider => Err(WalletError::NoWallet),
        BalanceResponse::CallFailed(detail) => Err(WalletError::RequestFailed(detail)),
        BalanceResponse::Value(None) => Err(WalletError::UnexpectedResponse),
        BalanceResponse::Value(Some(text)) => {
            let n = text.as_str().unicode_len();
            if n < 2 || text.as_str().get_char(0) != '0' || text.as_str().get_char(1) != 'x' {
                return Err(WalletError::UnexpectedResponse);
            }
            let digits = text.as_str().substring_char(2, n);
            proof {
                assert(digits@ =~= wei_digits(text@));
            }
            match parse_hex_u128(digits) {
                None => Err(WalletError::ParseFailed),
                Some(wei) => Ok(format_eth(wei)),
            }
        },
    }
}

} // verus!
