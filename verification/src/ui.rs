use vstd::prelude::*;
use crate::errors::WalletError;

verus! {

/// The transient page state: a status line, the connected address once
/// known, and the formatted ETH balance once fetched.
#[derive(Debug, PartialEq, Eq)]
pub struct UiState {
    /// The status text shown while no address is connected.
    pub status: String,
    /// The connected address, once the connect sequence succeeded.
    pub address: Option<String>,
    /// The formatted ETH balance, once the balance fetch succeeded.
    pub eth_balance: Option<String>,
}

/// What the caller of the connect sequence must do next.
#[derive(Debug, PartialEq, Eq)]
pub enum NextAction {
    /// Request the balance of the connected address.
    FetchBalance(String),
    /// Nothing further.
    Idle,
}

impl UiState {
    /// The state shown before any connect attempt.
    pub fn new() -> (s: UiState)
        ensures
            s.status@ == "Not connected"@,
            s.address is None,
            s.eth_balance is None,
    {
        UiState {
            status: String::from_str("Not connected"),
            address: None,
            eth_balance: None,
        }
    }

    /// The connect sequence has started.
    pub fn begin_connect(&mut self)
        ensures
            final(self).status@ == "Connecting..."@,
            final(self).address == old(self).address,
            final(self).eth_balance == old(self).eth_balance,
    {
        self.status = String::from_str("Connecting...");
    }

    /// Wallet connect cannot run outside a browser host.
    pub fn mark_unavailable(&mut self)
        ensures
            final(self).status@ == "Wallet connect is only available on the web"@,
            final(self).address == old(self).address,
            final(self).eth_balance == old(self).eth_balance,
    {
        self.status = String::from_str("Wallet connect is only available on the web");
    }

    /// Record the outcome of the connect sequence and say what follows:
    /// on a connected address the balance is fetched next; a missing wallet
    /// returns the status to "Not connected"; a failure puts the error on
    /// the status line.
    pub fn apply_connect_outcome(&mut self, outcome: Result<Option<String>, WalletError>) -> (next:
        NextAction)
        ensures
            (match outcome {
                Ok(Some(addr)) => {
                    &&& final(self).status@ == "Connected"@
                    &&& final(self).address == Some(addr)
                    &&& final(self).eth_balance == old(self).eth_balance
                    &&& next == NextAction::FetchBalance(addr)
                },
                Ok(None) => {
                    &&& final(self).status@ == "Not connected"@
                    &&& final(self).address == old(self).address
                    &&& final(self).eth_balance == old(self).eth_balance
                    &&& next == NextAction::Idle
                },
                Err(e) => {
                    &&& final(self).status@ == "Error: "@ + e.spec_message()
                    &&& final(self).address == old(self).address
                    &&& final(self).eth_balance == old(self).eth_balance
                    &&& next == NextAction::Idle
                },
            }),
    {
        match outcome {
            Ok(Some(addr)) => {
                self.status = String::from_str("Connected");
                self.address = Some(addr.clone());
                NextAction::FetchBalance(addr)
            },
            Ok(None) => {
                self.status = String::from_str("Not connected");
                NextAction::Idle
            },
            Err(e) => {
                self.status = String::from_str("Error: ").concat(e.message().as_str());
                NextAction::Idle
            },
        }
    }

    /// Record the outcome of the balance fetch: a balance is kept beside
    /// the address; a failure only updates the status line.
    pub fn apply_balance_outcome(&mut self, outcome: Result<String, WalletError>)
        ensures
            (match outcome {
                Ok(bal) => {
                    &&& final(self).status == old(self).status
                    &&& final(self).address == old(self).address
                    &&& final(self).eth_balance == Some(bal)
                },
                Err(e) => {
                    &&& final(self).status@ == "Balance error: "@ + e.spec_message()
                    &&& final(self).address == old(self).address
                    &&& final(self).eth_balance == old(self).eth_balance
                },
            }),
    {
        match outcome {
            Ok(bal) => {
                self.eth_balance = Some(bal);
            },
            Err(e) => {
                self.status = String::from_str("Balance error: ").concat(e.message().as_str());
            },
        }
    }

    /// The header line: the connected address, else the status text.
    pub fn header_text(&self) -> (r: String)
        ensures
            (match self.address {
                Some(addr) => r@ == "Connected: "@ + addr@,
                None => r@ == self.status@,
            }),
    {
        match &self.address {
            Some(addr) => String::from_str("Connected: ").concat(addr.as_str()),
            None => self.status.clone(),
        }
    }

    /// The balance line, shown only once a balance was fetched.
    pub fn balance_text(&self) -> (r: Option<String>)
        ensures
            (match self.eth_balance {
                Some(bal) => r matches Some(t) && t@ == "· ETH: "@ + bal@,
                None => r is None,
            }),
    {
        match &self.eth_balance {
            Some(bal) => Some(String::from_str("· ETH: ").concat(bal.as_str())),
            None => None,
        }
    }
}

} // verus!
