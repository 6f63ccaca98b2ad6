//! The summary of a PSBT: what it pays, to whom, from which addresses, and
//! at what fee.
//!
//! The first output is reported as the payment: `send_address` and
//! `total_amount` are its address and its value. That is a convention of
//! this library and no rule of the protocol; a transaction may pay several
//! parties, and `pay_to_info` lists every output.

use vstd::prelude::*;
use crate::address::{
    address_from_script, option_address_view, template_address, Address, AddressView,
};
use crate::decode::{document_decoded, has_psbt_header};
use crate::document::{outputs_view, DocumentView, PsbtDocument, TxOutView};
use crate::encoding::{bytes_decoded, decode_base64};
use crate::error::PsbtError;
use crate::fee::{fee_of, input_total, output_total};
use crate::network::{network_selected, Network};
use crate::resolver::{all_resolved, resolved_utxo};

verus! {

/// Who an output pays: an address, or nobody that an address can name.
#[derive(Clone, Debug, PartialEq, Eq)]
pub enum Recipient {
    Address(String),
    /// The script follows no standard template.
    Unrepresentable,
}

impl View for Recipient {
    type V = Option<Seq<char>>;

    open spec fn view(&self) -> Option<Seq<char>> {
        match self {
            Recipient::Address(address) => Some(address@),
            Recipient::Unrepresentable => None,
        }
    }
}

impl Recipient {
    /// The recipient that an optional address stands for.
    pub fn from_address(address: Option<Address>) -> (recipient: Recipient)
        ensures
            recipient@ == address_text(option_address_view(address)),
    {
        match address {
            Some(a) => Recipient::Address(a.text),
            None => Recipient::Unrepresentable,
        }
    }

    /// The text that `label` gives a recipient.
    pub open spec fn spec_label(self) -> Seq<char> {
        match self {
            Recipient::Address(address) => address@,
            Recipient::Unrepresentable => "unrepresentable"@,
        }
    }

    /// The recipient as text: the address, or the word `unrepresentable`.
    pub fn label(&self) -> (text: String)
        ensures
            text@ == self.spec_label(),
    {
        match self {
            Recipient::Address(address) => address.clone(),
            Recipient::Unrepresentable => "unrepresentable".to_owned(),
        }
    }
}

/// One output of the transaction: its amount in satoshis and whom it pays.
#[derive(Clone, Debug, PartialEq, Eq)]
pub struct Payment {
    pub amount: u64,
    pub pay_to: Recipient,
}

/// What a `Payment` holds.
pub struct PaymentView {
    pub amount: u64,
    pub pay_to: Option<Seq<char>>,
}

impl View for Payment {
    type V = PaymentView;

    open spec fn view(&self) -> PaymentView {
        PaymentView { amount: self.amount, pay_to: self.pay_to@ }
    }
}

/// What a PSBT will do once signed and sent.
#[derive(Clone, Debug, PartialEq, Eq)]
pub struct Summary {
    /// The id of the unsigned transaction.
    pub txid: String,
    /// Whom the first output pays.
    pub send_address: Recipient,
    /// The addresses of the spent outputs, in input order. An input whose
    /// spent output has no address is left out; an address may occur twice.
    pub input_addresses: Vec<String>,
    /// What the inputs are worth beyond the outputs, in satoshis.
    pub fee: u128,
    /// The value of the first output, in satoshis.
    pub total_amount: u64,
    /// Every output, in order.
    pub pay_to_info: Vec<Payment>,
}

/// What a `Summary` holds.
pub struct SummaryView {
    pub txid: Seq<char>,
    pub send_address: Option<Seq<char>>,
    pub input_addresses: Seq<Seq<char>>,
    pub fee: int,
    pub total_amount: u64,
    pub pay_to_info: Seq<PaymentView>,
}

impl View for Summary {
    type V = SummaryView;

    open spec fn view(&self) -> SummaryView {
        SummaryView {
            txid: self.txid@,
            send_address: self.send_address@,
            input_addresses: texts(self.input_addresses@),
            fee: self.fee as int,
            total_amount: self.total_amount,
            pay_to_info: payments_view(self.pay_to_info@),
        }
    }
}

/// The texts of a sequence of strings.
pub open spec fn texts(strings: Seq<String>) -> Seq<Seq<char>> {
    Seq::new(strings.len(), |i: int| strings[i]@)
}

/// The views of a sequence of payments.
pub open spec fn payments_view(payments: Seq<Payment>) -> Seq<PaymentView> {
    Seq::new(payments.len(), |i: int| payments[i]@)
}

/// The view of a summary or of the error in its place.
pub open spec fn summary_result_view(r: Result<Summary, PsbtError>) -> Result<
    SummaryView,
    PsbtError,
> {
    match r {
        Ok(summary) => Ok(summary@),
        Err(e) => Err(e),
    }
}

/// The text of an optional address.
pub open spec fn address_text(address: Option<AddressView>) -> Option<Seq<char>> {
    match address {
        Some(a) => Some(a.text),
        None => None,
    }
}

/// A list of addresses with one more candidate: a candidate that is no
/// address leaves the list as it is.
pub open spec fn with_address(addresses: Seq<Seq<char>>, candidate: Option<Seq<char>>) -> Seq<
    Seq<char>,
> {
    match candidate {
        Some(address) => addresses.push(address),
        None => addresses,
    }
}

/// The address of the output that the input at `index` spends, if the input
/// resolves and the output has one.
pub open spec fn input_address(doc: DocumentView, network: Network, index: int) -> Option<
    Seq<char>,
> {
    match resolved_utxo(doc, index) {
        Some(utxo) => template_address(utxo.script_pubkey, network),
        None => None,
    }
}

/// The addresses of the first `n` inputs, in order, those without one left out.
pub open spec fn input_addresses_upto(doc: DocumentView, network: Network, n: nat) -> Seq<
    Seq<char>,
>
    decreases n,
{
    if n == 0 {
        Seq::empty()
    } else {
        with_address(
            input_addresses_upto(doc, network, (n - 1) as nat),
            input_address(doc, network, n - 1),
        )
    }
}

/// The addresses of a document's inputs.
pub open spec fn input_addresses_of(doc: DocumentView, network: Network) -> Seq<Seq<char>> {
    input_addresses_upto(doc, network, doc.inputs.len())
}

/// The payment that an output makes.
pub open spec fn payment_of(output: TxOutView, network: Network) -> PaymentView {
    PaymentView {
        amount: output.value,
        pay_to: template_address(output.script_pubkey, network),
    }
}

/// The payments that a list of outputs makes, one per output, in order.
pub open spec fn payments_of(outputs: Seq<TxOutView>, network: Network) -> Seq<PaymentView> {
    Seq::new(outputs.len(), |i: int| payment_of(outputs[i], network))
}

/// The summary of a well-formed document on a network, or the error that
/// stands in the way of its fee.
pub open spec fn summary_of(doc: DocumentView, network: Network) -> Result<
    SummaryView,
    PsbtError,
> {
    match fee_of(doc) {
        Err(e) => Err(e),
        Ok(fee) => Ok(
            SummaryView {
                txid: doc.txid,
                send_address: template_address(doc.tx.outputs[0].script_pubkey, network),
                input_addresses: input_addresses_of(doc, network),
                fee,
                total_amount: doc.tx.outputs[0].value,
                pay_to_info: payments_of(doc.tx.outputs, network),
            },
        ),
    }
}

/// The network that a call uses: the one given, else mainnet.
pub open spec fn network_or_default(network: Option<Network>) -> Network {
    match network {
        Some(chosen) => chosen,
        None => Network::Bitcoin,
    }
}

/// What parsing a text yields: the error of the first stage that fails, or
/// the summary of the document that the text holds.
pub open spec fn parse_outcome(text: Seq<char>, network: Option<Network>) -> Result<
    SummaryView,
    PsbtError,
> {
    match bytes_decoded(text) {
        Err(e) => Err(e),
        Ok(bytes) => match document_decoded(bytes) {
            Err(e) => Err(e),
            Ok(doc) => summary_of(doc, network_or_default(network)),
        },
    }
}

/// What a request yields: an unknown network selector fails before anything
/// is decoded.
pub open spec fn request_outcome(text: Seq<char>, selector: Option<Seq<char>>) -> Result<
    SummaryView,
    PsbtError,
> {
    match network_selected(selector) {
        Err(e) => Err(e),
        Ok(network) => parse_outcome(text, Some(network)),
    }
}

/// Adds the text of a candidate to a list of addresses, if it is one.
pub fn push_address(addresses: &mut Vec<String>, candidate: Option<Address>)
    ensures
        texts(final(addresses)@) == with_address(
            texts(old(addresses)@),
            address_text(option_address_view(candidate)),
        ),
{
    match candidate {
        Some(address) => {
            let ghost text = address.text@;
            addresses.push(address.text);
            assert(texts(addresses@) =~= texts(old(addresses)@).push(text));
        },
        None => {},
    }
}

impl PsbtDocument {
    /// The addresses of the outputs that the inputs spend, in input order.
    /// An input that does not resolve, or whose spent output has no address,
    /// adds nothing.
    pub fn input_addresses(&self, network: Network) -> (addresses: Vec<String>)
        ensures
            texts(addresses@) == input_addresses_of(self@, network),
    {
        let n: usize = self.input_utxos().len();
        let mut addresses: Vec<String> = Vec::new();
        let mut i: usize = 0;
        assert(texts(addresses@) =~= Seq::<Seq<char>>::empty());
        while i < n
            invariant
                i <= n,
                n == self@.inputs.len(),
                texts(addresses@) == input_addresses_upto(self@, network, i as nat),
            decreases n - i,
        {
            match self.resolve_utxo(i) {
                Ok(utxo) => {
                    let candidate = address_from_script(utxo.script_pubkey.as_slice(), network);
                    push_address(&mut addresses, candidate);
                },
                Err(_) => {},
            }
            i += 1;
        }
        addresses
    }

    /// One payment per output of the transaction, in order.
    pub fn payments(&self, network: Network) -> (payments: Vec<Payment>)
        ensures
            payments_view(payments@) == payments_of(self@.tx.outputs, network),
    {
        let outputs = &self.unsigned_tx().outputs;
        let mut payments: Vec<Payment> = Vec::new();
        let mut i: usize = 0;
        while i < outputs.len()
            invariant
                i <= outputs.len(),
                outputs_view(outputs@) == self@.tx.outputs,
                payments.len() == i,
                forall|j: int|
                    0 <= j < i ==> (#[trigger] payments[j])@ == payment_of(
                        self@.tx.outputs[j],
                        network,
                    ),
            decreases outputs.len() - i,
        {
            let output = &outputs[i];
            let address = address_from_script(output.script_pubkey.as_slice(), network);
            payments.push(Payment { amount: output.value, pay_to: Recipient::from_address(address) });
            i += 1;
        }
        assert(payments_view(payments@) =~= payments_of(self@.tx.outputs, network));
        payments
    }

    /// Summarizes the document for a network. There is no summary without a
    /// fee: see `compute_fee` for the two ways in which that fails.
    pub fn summarize(&self, network: Network) -> (r: Result<Summary, PsbtError>)
        ensures
            summary_result_view(r) == summary_of(self@, network),
    {
        let fee = match self.compute_fee() {
            Ok(fee) => fee,
            Err(e) => {
                return Err(e);
            },
        };
        let first = &self.unsigned_tx().outputs[0];
        let send_address = Recipient::from_address(
            address_from_script(first.script_pubkey.as_slice(), network),
        );
        Ok(
            Summary {
                txid: self.txid().to_owned(),
                send_address,
                input_addresses: self.input_addresses(network),
                fee,
                total_amount: first.value,
                pay_to_info: self.payments(network),
            },
        )
    }
}

/// Decodes a base64 PSBT and summarizes it for a network, mainnet where none
/// is given. Fails with the error of the first stage that fails: decoding the
/// text, reading the document, resolving the inputs, computing the fee.
pub fn parse_psbt(base64_psbt: &str, network: Option<Network>) -> (r: Result<Summary, PsbtError>)
    ensures
        summary_result_view(r) == parse_outcome(base64_psbt@, network),
{
    let network = match network {
        Some(chosen) => chosen,
        None => Network::default_network(),
    };
    let bytes = match decode_base64(base64_psbt) {
        Ok(bytes) => bytes,
        Err(e) => {
            return Err(e);
        },
    };
    match PsbtDocument::deserialize(bytes.as_slice()) {
        Ok(doc) => doc.summarize(network),
        Err(e) => Err(e),
    }
}

/// Summarizes a base64 PSBT for the network that a selector names, mainnet
/// where there is no selector. An unknown selector fails first.
pub fn parse_request(base64_psbt: &str, selector: Option<&str>) -> (r: Result<Summary, PsbtError>)
    ensures
        summary_result_view(r) == request_outcome(
            base64_psbt@,
            match selector {
                Some(name) => Some(name@),
                None => None,
            },
        ),
{
    match Network::from_optional_selector(selector) {
        Ok(network) => parse_psbt(base64_psbt, Some(network)),
        Err(e) => Err(e),
    }
}

/// A summary accounts for every satoshi: its fee and the outputs together
/// are worth exactly what the resolved inputs are worth, every input is
/// resolved, and its amounts are those of the outputs.
pub proof fn lemma_summary_balances(doc: DocumentView, network: Network)
    requires
        doc.well_formed(),
        summary_of(doc, network) is Ok,
    ensures
        all_resolved(doc),
        summary_of(doc, network)->Ok_0.fee >= 0,
        summary_of(doc, network)->Ok_0.fee + output_total(doc) == input_total(doc),
        summary_of(doc, network)->Ok_0.total_amount == doc.tx.outputs[0].value,
        summary_of(doc, network)->Ok_0.pay_to_info.len() == doc.tx.outputs.len(),
{
}

/// With every input resolved, a document whose outputs are worth more than
/// its inputs has no summary: it is an invalid amount on every network.
pub proof fn lemma_overspending_has_no_summary(doc: DocumentView, network: Network)
    requires
        doc.well_formed(),
        all_resolved(doc),
        output_total(doc) > input_total(doc),
    ensures
        summary_of(doc, network) == Err::<SummaryView, PsbtError>(PsbtError::InvalidAmount),
{
}

/// A document with an unresolved input has no summary: its data is incomplete.
pub proof fn lemma_unresolved_input_has_no_summary(
    doc: DocumentView,
    network: Network,
    index: int,
)
    requires
        doc.well_formed(),
        0 <= index < doc.inputs.len(),
        resolved_utxo(doc, index) is None,
    ensures
        summary_of(doc, network) == Err::<SummaryView, PsbtError>(PsbtError::IncompleteData),
{
}

/// Text that is not base64 is an encoding error, whatever else holds; bytes
/// without the PSBT header are a format error.
pub proof fn lemma_parse_fails_early(text: Seq<char>, network: Option<Network>)
    ensures
        bytes_decoded(text) is Err ==> parse_outcome(text, network) == Err::<
            SummaryView,
            PsbtError,
        >(PsbtError::Encoding),
        bytes_decoded(text) matches Ok(bytes) && !has_psbt_header(bytes) ==> parse_outcome(
            text,
            network,
        ) == Err::<SummaryView, PsbtError>(PsbtError::Format),
{
}

/// For text that decodes to a document whose inputs all resolve, parsing
/// either fails because the outputs are worth more than the inputs, or
/// returns a fee that balances the inputs against the outputs exactly.
pub proof fn lemma_parse_balances(text: Seq<char>, network: Option<Network>, doc: DocumentView)
    requires
        bytes_decoded(text) matches Ok(bytes) && document_decoded(bytes) == Ok::<
            DocumentView,
            PsbtError,
        >(doc),
        all_resolved(doc),
    ensures
        match parse_outcome(text, network) {
            Ok(summary) => summary.fee >= 0 && summary.fee + output_total(doc) == input_total(doc),
            Err(e) => e == PsbtError::InvalidAmount && output_total(doc) > input_total(doc),
        },
{
}

} // verus!
