//! Reading a PSBT document out of its BIP-174 bytes.
//!
//! The binary format is read by the `bitcoin` crate. What it returns is
//! copied, field by field, into a `PsbtDocument`.

use vstd::prelude::*;
use crate::document::{
    outpoints_view, outputs_view, utxos_view, DocumentView, InputUtxos, OutPoint, PsbtDocument,
    TxOut, UnsignedTransaction,
};
use crate::error::PsbtError;

verus! {

/// The `bitcoin` crate's decoded PSBT, carried from the decoder to the
/// functions that read its fields.
#[verifier::external_type_specification]
#[verifier::external_body]
pub struct ExPartiallySignedTransaction(bitcoin::util::psbt::PartiallySignedTransaction);

/// The `bitcoin` crate's decoding error. Nothing is read from it.
#[verifier::external_type_specification]
#[verifier::external_body]
pub struct ExEncodeError(bitcoin::consensus::encode::Error);

/// What `bitcoin::consensus::encode::deserialize` makes of a byte buffer read
/// as a PSBT: the parts of the decoded value that this library reads, or
/// `None` where the bytes are rejected.
pub uninterp spec fn psbt_decoded(bytes: Seq<u8>) -> Option<DocumentView>;

/// The parts of a decoded PSBT that this library reads: the id of
/// `unsigned_tx`, the previous outputs that its inputs name, its outputs, and
/// the two UTXO fields of each entry of `inputs`.
pub uninterp spec fn psbt_content(psbt: bitcoin::util::psbt::PartiallySignedTransaction) -> DocumentView;

/// Calls `bitcoin::consensus::encode::deserialize` for a
/// `PartiallySignedTransaction`. The call is a function of the bytes alone:
/// it fails exactly where `psbt_decoded` is `None`, and otherwise returns a
/// value whose content is `psbt_decoded` of the bytes.
#[verifier::external_body]
fn deserialize_psbt(bytes: &[u8]) -> (r: Result<
    bitcoin::util::psbt::PartiallySignedTransaction,
    bitcoin::consensus::encode::Error,
>)
    ensures
        match r {
            Ok(psbt) => psbt_decoded(bytes@) == Some(psbt_content(psbt)),
            Err(_) => psbt_decoded(bytes@) is None,
        },
{
    bitcoin::consensus::encode::deserialize(bytes)
}

/// Calls `Transaction::txid` on the unsigned transaction and renders the id
/// with its `Display` impl, which writes the hash as hex in reversed byte
/// order.
#[verifier::external_body]
fn psbt_txid(psbt: &bitcoin::util::psbt::PartiallySignedTransaction) -> (txid: String)
    ensures
        txid@ == psbt_content(*psbt).txid,
{
    psbt.unsigned_tx.txid().to_string()
}

/// Copies `previous_output` of each input of the unsigned transaction, in
/// order; the transaction id is rendered as by `psbt_txid`.
#[verifier::external_body]
fn psbt_prevouts(psbt: &bitcoin::util::psbt::PartiallySignedTransaction) -> (points: Vec<OutPoint>)
    ensures
        outpoints_view(points@) == psbt_content(*psbt).tx.inputs,
{
    psbt.unsigned_tx.input.iter().map(
        |i| OutPoint { txid: i.previous_output.txid.to_string(), vout: i.previous_output.vout },
    ).collect()
}

/// Copies `value` and the bytes of `script_pubkey` of each output of the
/// unsigned transaction, in order.
#[verifier::external_body]
fn psbt_outputs(psbt: &bitcoin::util::psbt::PartiallySignedTransaction) -> (outputs: Vec<TxOut>)
    ensures
        outputs_view(outputs@) == psbt_content(*psbt).tx.outputs,
{
    psbt.unsigned_tx.output.iter().map(
        |o| TxOut { value: o.value, script_pubkey: o.script_pubkey.to_bytes() },
    ).collect()
}

/// Copies, for each entry of `inputs` in order, `witness_utxo` and the
/// outputs of `non_witness_utxo`, each output as by `psbt_outputs`.
#[verifier::external_body]
fn psbt_input_utxos(psbt: &bitcoin::util::psbt::PartiallySignedTransaction) -> (inputs: Vec<
    InputUtxos,
>)
    ensures
        utxos_view(inputs@) == psbt_content(*psbt).inputs,
{
    psbt.inputs.iter().map(|i| InputUtxos {
        witness_utxo: i.witness_utxo.as_ref().map(
            |o| TxOut { value: o.value, script_pubkey: o.script_pubkey.to_bytes() },
        ),
        non_witness_utxo: i.non_witness_utxo.as_ref().map(|t| t.output.iter().map(
            |o| TxOut { value: o.value, script_pubkey: o.script_pubkey.to_bytes() },
        ).collect()),
    }).collect()
}

/// Whether a byte buffer starts with the PSBT header: the magic bytes `psbt`
/// and the separator `0xff`.
pub open spec fn has_psbt_header(bytes: Seq<u8>) -> bool {
    &&& bytes.len() >= 5
    &&& bytes[0] == 0x70
    &&& bytes[1] == 0x73
    &&& bytes[2] == 0x62
    &&& bytes[3] == 0x74
    &&& bytes[4] == 0xff
}

/// The document that a byte buffer holds: what the decoder reads, where the
/// buffer starts with the header, the decoder accepts it, and the result is
/// well formed.
pub open spec fn document_decoded(bytes: Seq<u8>) -> Result<DocumentView, PsbtError> {
    if !has_psbt_header(bytes) {
        Err(PsbtError::Format)
    } else {
        match psbt_decoded(bytes) {
            Some(doc) => if doc.well_formed() {
                Ok(doc)
            } else {
                Err(PsbtError::Format)
            },
            None => Err(PsbtError::Format),
        }
    }
}

/// The view of a document or of the error in its place.
pub open spec fn document_result_view(r: Result<PsbtDocument, PsbtError>) -> Result<
    DocumentView,
    PsbtError,
> {
    match r {
        Ok(doc) => Ok(doc@),
        Err(e) => Err(e),
    }
}

/// Tells whether a byte buffer starts with the PSBT header.
pub fn starts_with_psbt_header(bytes: &[u8]) -> (found: bool)
    ensures
        found == has_psbt_header(bytes@),
{
    bytes.len() >= 5 && bytes[0] == 0x70 && bytes[1] == 0x73 && bytes[2] == 0x62 && bytes[3] == 0x74
        && bytes[4] == 0xff
}

impl PsbtDocument {
    /// Reads a document from the bytes of a PSBT. Bytes without the PSBT
    /// header, bytes that the decoder rejects, and a transaction without
    /// outputs are a format error.
    pub fn deserialize(bytes: &[u8]) -> (r: Result<PsbtDocument, PsbtError>)
        ensures
            document_result_view(r) == document_decoded(bytes@),
    {
        if !starts_with_psbt_header(bytes) {
            return Err(PsbtError::Format);
        }
        match deserialize_psbt(bytes) {
            Err(_) => Err(PsbtError::Format),
            Ok(psbt) => {
                let txid = psbt_txid(&psbt);
                let tx = UnsignedTransaction {
                    inputs: psbt_prevouts(&psbt),
                    outputs: psbt_outputs(&psbt),
                };
                let inputs = psbt_input_utxos(&psbt);
                PsbtDocument::new(txid, tx, inputs)
            },
        }
    }
}

} // verus!
