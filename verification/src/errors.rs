use vstd::prelude::*;

verus! {

/// A failure of the wallet connect / balance fetch sequence.
#[derive(Debug, PartialEq, Eq)]
pub enum WalletError {
    /// The injected wallet provider object is absent.
    NoWallet,
    /// `eth_requestAccounts` resolved to an empty list, or its first entry
    /// was absent.
    NoAccountsReturned,
    /// Constructing the request, invoking the request method, or awaiting
    /// its result failed; carries a human-readable description.
    RequestFailed(String),
    /// The wallet resolved to a value of an unexpected shape.
    UnexpectedResponse,
    /// The balance string held malformed hex digits, or a value too large
    /// for an unsigned 128-bit integer.
    ParseFailed,
}

impl WalletError {
    /// The human-readable description of this failure.
    pub open spec fn spec_message(&self) -> Seq<char> {
        match self {
            WalletError::NoWallet => "No injected wallet found"@,
            WalletError::NoAccountsReturned => "No accounts returned from wallet"@,
            WalletError::RequestFailed(detail) => detail@,
            WalletError::UnexpectedResponse => "Unexpected response from wallet"@,
            WalletError::ParseFailed => "Failed to parse balance"@,
        }
    }

    /// Render the failure for display.
    pub fn message(&self) -> (r: String)
        ensures
            r@ == self.spec_message(),
    {
        match self {
            WalletError::NoWallet => String::from_str("No injected wallet found"),
            WalletError::NoAccountsReturned => String::from_str("No accounts returned from wallet"),
            WalletError::RequestFailed(detail) => detail.clone(),
            WalletError::UnexpectedResponse => String::from_str("Unexpected response from wallet"),
            WalletError::ParseFailed => String::from_str("Failed to parse balance"),
        }
    }
}

} // verus!
