//! Plain data carried by the wallet tool that submits operations: persisted
//! settings, a key pair's encoded form, and the arguments of each command.
//!
//! The tool's own argument parsing, key file I/O and remote submission are
//! external collaborators; the core only fixes the shapes they exchange and
//! the one piece of logic they contain, the mapping from a named endpoint
//! to its URL.
use vstd::prelude::*;

use vstd::string::StringExecFns;

verus! {

/// Persisted settings of the wallet tool.
pub struct ProgramSettings {
    /// URL of the node operations are submitted to.
    pub endpoint: String,
}

/// A key pair as persisted: both halves in their text encodings.
pub struct AccountKeys {
    pub public_key: String,
    pub private_key: String,
}

/// Arguments of the command that generates a fresh key pair.
pub struct GenerateCommand {
    /// Optional path to save the keys file to.
    pub file: Option<String>,
}

/// Arguments of the command that resolves and prints an address.
pub struct FetchCommand {
    /// The public key of the account to fetch.
    pub wallet: String,
}

/// Arguments of the command that requests funds for an account.
pub struct FundCommand {
    /// The public key of the account to receive funds.
    pub wallet: String,
    /// The whole units to request.
    pub amount: u64,
}

/// Arguments of the command that prints an account's balance.
pub struct BalanceCommand {
    /// The public key of the account to check.
    pub wallet: String,
}

/// Arguments of the command that lists the saved account.
pub struct ListCommand {
    /// Optional path of the keys file to read.
    pub file: Option<String>,
}

/// Arguments of the command that rewrites the persisted endpoint.
pub struct UpdateSettingsCommand {
    /// The endpoint to switch to.
    pub endpoint: Endpoint,
}

/// The nodes the wallet tool can speak to.
#[derive(Clone, Copy, Debug, PartialEq, Eq, Structural)]
pub enum Endpoint {
    Local,
    Dev,
    Test,
}

/// The URL each named endpoint stands for.
pub open spec fn spec_endpoint_url(endpoint: Endpoint) -> Seq<char> {
    match endpoint {
        Endpoint::Local => "http://127.0.0.1:8899"@,
        Endpoint::Dev => "https://api.devnet.solana.com"@,
        Endpoint::Test => "https://api.testnet.solana.com"@,
    }
}

impl Endpoint {
    /// The URL this endpoint stands for.
    pub fn url(&self) -> (r: String)
        ensures
            r@ == spec_endpoint_url(*self),
    {
        match self {
            Endpoint::Local => String::from_str("http://127.0.0.1:8899"),
            Endpoint::Dev => String::from_str("https://api.devnet.solana.com"),
            Endpoint::Test => String::from_str("https://api.testnet.solana.com"),
        }
    }
}

impl Default for ProgramSettings {
    /// Fresh settings point at the local node.
    fn default() -> (r: Self)
        ensures
            r.endpoint@ == spec_endpoint_url(Endpoint::Local),
    {
        ProgramSettings { endpoint: String::from_str("http://127.0.0.1:8899") }
    }
}

impl ProgramSettings {
    /// Point the settings at `endpoint`: the one computation of the
    /// settings-update command.
    pub fn apply_endpoint(&mut self, endpoint: &Endpoint)
        ensures
            final(self).endpoint@ == spec_endpoint_url(*endpoint),
    {
        self.endpoint = endpoint.url();
    }
}

} // verus!
