//! The network selector that parameterizes address encoding.

use vstd::prelude::*;
use vstd::string::StrSliceExecFns;
use crate::error::PsbtError;

verus! {

/// The networks an address can be encoded for.
#[derive(Clone, Copy, Debug, PartialEq, Eq, Structural)]
pub enum Network {
    Bitcoin,
    Testnet,
    Signet,
    Regtest,
}

/// The network that a selector string names, if any. Mainnet answers to two names.
pub open spec fn network_named(selector: Seq<char>) -> Option<Network> {
    if selector == "bitcoin"@ || selector == "mainnet"@ {
        Some(Network::Bitcoin)
    } else if selector == "testnet"@ {
        Some(Network::Testnet)
    } else if selector == "signet"@ {
        Some(Network::Signet)
    } else if selector == "regtest"@ {
        Some(Network::Regtest)
    } else {
        None
    }
}

/// The network to use for an optional selector: mainnet when none is given.
pub open spec fn network_selected(selector: Option<Seq<char>>) -> Result<Network, PsbtError> {
    match selector {
        None => Ok(Network::Bitcoin),
        Some(name) => match network_named(name) {
            Some(network) => Ok(network),
            None => Err(PsbtError::UnknownNetwork),
        },
    }
}

/// Whether two strings hold the same characters.
pub fn str_equal(a: &str, b: &str) -> (same: bool)
    ensures
        same == (a@ == b@),
{
    let n: usize = a.unicode_len();
    if n != b.unicode_len() {
        return false;
    }
    let mut i: usize = 0;
    while i < n
        invariant
            i <= n,
            n == a@.len(),
            n == b@.len(),
            forall|j: int| 0 <= j < i ==> a@[j] == b@[j],
        decreases n - i,
    {
        if a.get_char(i) != b.get_char(i) {
            return false;
        }
        i += 1;
    }
    assert(a@ =~= b@);
    true
}

impl Network {
    /// The network that is used when the caller names none.
    pub fn default_network() -> (network: Network)
        ensures
            network == Network::Bitcoin,
    {
        Network::Bitcoin
    }

    /// Reads a network selector: `bitcoin` or `mainnet`, `testnet`, `signet`, `regtest`.
    /// Any other string is an unknown network.
    pub fn from_selector(selector: &str) -> (r: Result<Network, PsbtError>)
        ensures
            r == network_selected(Some(selector@)),
    {
        if str_equal(selector, "bitcoin") || str_equal(selector, "mainnet") {
            Ok(Network::Bitcoin)
        } else if str_equal(selector, "testnet") {
            Ok(Network::Testnet)
        } else if str_equal(selector, "signet") {
            Ok(Network::Signet)
        } else if str_equal(selector, "regtest") {
            Ok(Network::Regtest)
        } else {
            Err(PsbtError::UnknownNetwork)
        }
    }

    /// Reads an optional network selector; an absent one selects mainnet.
    pub fn from_optional_selector(selector: Option<&str>) -> (r: Result<Network, PsbtError>)
        ensures
            r == network_selected(
                match selector {
                    Some(name) => Some(name@),
                    None => None,
                },
            ),
    {
        match selector {
            Some(name) => Network::from_selector(name),
            None => Ok(Network::default_network()),
        }
    }

    /// The selector that names this network.
    pub fn name(&self) -> (text: String)
        ensures
            text@ == self.spec_name(),
    {
        match self {
            Network::Bitcoin => "bitcoin".to_owned(),
            Network::Testnet => "testnet".to_owned(),
            Network::Signet => "signet".to_owned(),
            Network::Regtest => "regtest".to_owned(),
        }
    }

    /// The selector that `name` returns.
    pub open spec fn spec_name(self) -> Seq<char> {
        match self {
            Network::Bitcoin => "bitcoin"@,
            Network::Testnet => "testnet"@,
            Network::Signet => "signet"@,
            Network::Regtest => "regtest"@,
        }
    }
}

/// Reading the name of a network gives that network back.
pub proof fn lemma_name_round_trip(network: Network)
    ensures
        network_named(network.spec_name()) == Some(network),
{
    reveal_strlit("bitcoin");
    reveal_strlit("mainnet");
    reveal_strlit("testnet");
    reveal_strlit("signet");
    reveal_strlit("regtest");
    assert("bitcoin"@[0] == 'b' && "mainnet"@[0] == 'm' && "testnet"@[0] == 't');
    assert("signet"@[0] == 's' && "regtest"@[0] == 'r');
}

} // verus!
