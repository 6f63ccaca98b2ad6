//! From a script to the address that pays to it.
//!
//! A script has an address only if it follows one of five standard
//! templates. The text of the address depends on the network; it is encoded
//! by the `bitcoin` crate.

use vstd::prelude::*;
use crate::network::Network;

verus! {

/// The standard shapes of an output script.
#[derive(Clone, Copy, Debug, PartialEq, Eq, Structural)]
pub enum ScriptTemplate {
    /// `OP_DUP OP_HASH160 <20 bytes> OP_EQUALVERIFY OP_CHECKSIG`
    PayToPubkeyHash,
    /// `OP_HASH160 <20 bytes> OP_EQUAL`
    PayToScriptHash,
    /// `OP_0 <20 bytes>`
    PayToWitnessPubkeyHash,
    /// `OP_0 <32 bytes>`
    PayToWitnessScriptHash,
    /// `OP_1 <32 bytes>`
    PayToTaproot,
    /// Any other script: it has no address.
    Unrecognized,
}

impl ScriptTemplate {
    /// Whether the template is a witness program, whose address is bech32 text.
    pub open spec fn is_witness(self) -> bool {
        self is PayToWitnessPubkeyHash || self is PayToWitnessScriptHash || self is PayToTaproot
    }
}

/// `OP_DUP OP_HASH160`, a push of 20 bytes, `OP_EQUALVERIFY OP_CHECKSIG`.
pub open spec fn is_p2pkh(script: Seq<u8>) -> bool {
    &&& script.len() == 25
    &&& script[0] == 0x76
    &&& script[1] == 0xa9
    &&& script[2] == 0x14
    &&& script[23] == 0x88
    &&& script[24] == 0xac
}

/// `OP_HASH160`, a push of 20 bytes, `OP_EQUAL`.
pub open spec fn is_p2sh(script: Seq<u8>) -> bool {
    &&& script.len() == 23
    &&& script[0] == 0xa9
    &&& script[1] == 0x14
    &&& script[22] == 0x87
}

/// Witness version 0 and a push of 20 bytes.
pub open spec fn is_p2wpkh(script: Seq<u8>) -> bool {
    &&& script.len() == 22
    &&& script[0] == 0x00
    &&& script[1] == 0x14
}

/// Witness version 0 and a push of 32 bytes.
pub open spec fn is_p2wsh(script: Seq<u8>) -> bool {
    &&& script.len() == 34
    &&& script[0] == 0x00
    &&& script[1] == 0x20
}

/// Witness version 1 and a push of 32 bytes.
pub open spec fn is_p2tr(script: Seq<u8>) -> bool {
    &&& script.len() == 34
    &&& script[0] == 0x51
    &&& script[1] == 0x20
}

/// The template that a script follows.
pub open spec fn script_template(script: Seq<u8>) -> ScriptTemplate {
    if is_p2pkh(script) {
        ScriptTemplate::PayToPubkeyHash
    } else if is_p2sh(script) {
        ScriptTemplate::PayToScriptHash
    } else if is_p2wpkh(script) {
        ScriptTemplate::PayToWitnessPubkeyHash
    } else if is_p2wsh(script) {
        ScriptTemplate::PayToWitnessScriptHash
    } else if is_p2tr(script) {
        ScriptTemplate::PayToTaproot
    } else {
        ScriptTemplate::Unrecognized
    }
}

/// Tells which template a script follows.
pub fn classify_script(script: &[u8]) -> (template: ScriptTemplate)
    ensures
        template == script_template(script@),
{
    let n: usize = script.len();
    if n == 25 && script[0] == 0x76 && script[1] == 0xa9 && script[2] == 0x14 && script[23] == 0x88
        && script[24] == 0xac {
        ScriptTemplate::PayToPubkeyHash
    } else if n == 23 && script[0] == 0xa9 && script[1] == 0x14 && script[22] == 0x87 {
        ScriptTemplate::PayToScriptHash
    } else if n == 22 && script[0] == 0x00 && script[1] == 0x14 {
        ScriptTemplate::PayToWitnessPubkeyHash
    } else if n == 34 && script[0] == 0x00 && script[1] == 0x20 {
        ScriptTemplate::PayToWitnessScriptHash
    } else if n == 34 && script[0] == 0x51 && script[1] == 0x20 {
        ScriptTemplate::PayToTaproot
    } else {
        ScriptTemplate::Unrecognized
    }
}

/// How the bech32 address of a witness program starts on each network: the
/// network's human-readable part, then the separator.
pub open spec fn bech32_prefix(network: Network) -> Seq<char> {
    match network {
        Network::Bitcoin => seq!['b', 'c', '1'],
        Network::Testnet => seq!['t', 'b', '1'],
        Network::Signet => seq!['t', 'b', '1'],
        Network::Regtest => seq!['b', 'c', 'r', 't', '1'],
    }
}

/// An address: the text that names a script on one network.
#[derive(Clone, Debug, PartialEq, Eq)]
pub struct Address {
    pub network: Network,
    pub text: String,
}

/// What an `Address` holds.
pub struct AddressView {
    pub network: Network,
    pub text: Seq<char>,
}

impl View for Address {
    type V = AddressView;

    open spec fn view(&self) -> AddressView {
        AddressView { network: self.network, text: self.text@ }
    }
}

/// The view of an optional address.
pub open spec fn option_address_view(address: Option<Address>) -> Option<AddressView> {
    match address {
        Some(a) => Some(a@),
        None => None,
    }
}

/// The text of an optional string.
pub open spec fn option_text(text: Option<String>) -> Option<Seq<char>> {
    match text {
        Some(s) => Some(s@),
        None => None,
    }
}

/// The address that `bitcoin::Address::from_script` gives a script on a
/// network, as its `Display` impl writes it; `None` where it gives none.
pub uninterp spec fn script_address(script: Seq<u8>, network: Network) -> Option<Seq<char>>;

/// Calls `bitcoin::Address::from_script` and writes the address out with its
/// `Display` impl. The result is a function of the script and the network
/// alone. A script of one of the five templates always has an address there:
/// the first two are that crate's `is_p2pkh` and `is_p2sh`, the other three
/// are witness programs. The address of a witness program is written as the
/// network's human-readable part (`bc`, `tb` or `bcrt`), the separator `1`,
/// and the bech32 data.
#[verifier::external_body]
fn encode_address(script: &[u8], network: Network) -> (text: Option<String>)
    ensures
        option_text(text) == script_address(script@, network),
        !(script_template(script@) is Unrecognized) ==> text is Some,
        script_template(script@).is_witness() ==> text is Some && bech32_prefix(
            network,
        ).is_prefix_of(text->0@),
{
    let network = match network {
        Network::Bitcoin => bitcoin::Network::Bitcoin,
        Network::Testnet => bitcoin::Network::Testnet,
        Network::Signet => bitcoin::Network::Signet,
        Network::Regtest => bitcoin::Network::Regtest,
    };
    let script = bitcoin::Script::from(script.to_vec());
    bitcoin::Address::from_script(&script, network).map(|a| a.to_string())
}

/// The text of a script's address on a network: that of the encoder where
/// the script follows a template, none otherwise.
pub open spec fn template_address(script: Seq<u8>, network: Network) -> Option<Seq<char>> {
    if script_template(script) is Unrecognized {
        None
    } else {
        script_address(script, network)
    }
}

/// The address of a script on a network.
pub open spec fn address_of(script: Seq<u8>, network: Network) -> Option<AddressView> {
    match template_address(script, network) {
        Some(text) => Some(AddressView { network, text }),
        None => None,
    }
}

/// What holds of the address computed for a script on a network: it is the
/// script's address there; there is one exactly where the script follows a
/// template; and that of a witness program starts with the network's prefix.
pub open spec fn is_address_result(
    script: Seq<u8>,
    network: Network,
    address: Option<AddressView>,
) -> bool {
    &&& address == address_of(script, network)
    &&& address is Some <==> !(script_template(script) is Unrecognized)
    &&& script_template(script).is_witness() ==> bech32_prefix(network).is_prefix_of(
        address->0.text,
    )
}

/// The address that pays to a script on a network, or `None` where the script
/// follows no standard template and so has no address.
pub fn address_from_script(script: &[u8], network: Network) -> (address: Option<Address>)
    ensures
        is_address_result(script@, network, option_address_view(address)),
{
    match classify_script(script) {
        ScriptTemplate::Unrecognized => None,
        _ => match encode_address(script, network) {
            Some(text) => Some(Address { network, text }),
            None => None,
        },
    }
}

/// An address is stable: whatever is computed twice for one script on one
/// network is the same both times.
pub proof fn lemma_address_stable(
    script: Seq<u8>,
    network: Network,
    first: Option<AddressView>,
    second: Option<AddressView>,
)
    requires
        is_address_result(script, network, first),
        is_address_result(script, network, second),
    ensures
        first == second,
{
}

/// An address belongs to its network: equal addresses were computed for the
/// same network.
pub proof fn lemma_equal_addresses_share_network(
    first_script: Seq<u8>,
    first_network: Network,
    second_script: Seq<u8>,
    second_network: Network,
)
    requires
        address_of(first_script, first_network) is Some,
        address_of(first_script, first_network) == address_of(second_script, second_network),
    ensures
        first_network == second_network,
{
}

/// The addresses of a witness program on two networks whose bech32 prefixes
/// differ have different texts.
pub proof fn lemma_witness_addresses_differ(
    script: Seq<u8>,
    first_network: Network,
    second_network: Network,
    first: Option<AddressView>,
    second: Option<AddressView>,
)
    requires
        script_template(script).is_witness(),
        bech32_prefix(first_network) != bech32_prefix(second_network),
        is_address_result(script, first_network, first),
        is_address_result(script, second_network, second),
    ensures
        first is Some,
        second is Some,
        first->0.text != second->0.text,
{
    let a = first->0.text;
    let b = second->0.text;
    let p = bech32_prefix(first_network);
    let q = bech32_prefix(second_network);
    assert(p.is_prefix_of(a));
    assert(q.is_prefix_of(b));
    if a == b {
        assert(a[0] == p[0] && a[0] == q[0]);
        assert(a[2] == p[2] && a[2] == q[2]);
        assert(p =~= q);
    }
}

} // verus!
