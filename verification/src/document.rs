//! The PSBT document: the unsigned transaction and what is known of the
//! outputs that its inputs spend.

use vstd::prelude::*;
use crate::error::PsbtError;

verus! {

/// A transaction output: an amount in satoshis locked by a script.
#[derive(Clone, Debug, PartialEq, Eq)]
pub struct TxOut {
    pub value: u64,
    pub script_pubkey: Vec<u8>,
}

/// What a `TxOut` holds.
pub struct TxOutView {
    pub value: u64,
    pub script_pubkey: Seq<u8>,
}

impl View for TxOut {
    type V = TxOutView;

    open spec fn view(&self) -> TxOutView {
        TxOutView { value: self.value, script_pubkey: self.script_pubkey@ }
    }
}

/// The place of a spent output: the id of the transaction that made it, as
/// hex text, and its index among that transaction's outputs.
#[derive(Clone, Debug, PartialEq, Eq)]
pub struct OutPoint {
    pub txid: String,
    pub vout: u32,
}

/// What an `OutPoint` holds.
pub struct OutPointView {
    pub txid: Seq<char>,
    pub vout: u32,
}

impl View for OutPoint {
    type V = OutPointView;

    open spec fn view(&self) -> OutPointView {
        OutPointView { txid: self.txid@, vout: self.vout }
    }
}

/// The unsigned transaction of a PSBT: what it spends, in order, and what it
/// pays, in order.
#[derive(Clone, Debug, PartialEq, Eq)]
pub struct UnsignedTransaction {
    pub inputs: Vec<OutPoint>,
    pub outputs: Vec<TxOut>,
}

/// What an `UnsignedTransaction` holds.
pub struct TransactionView {
    pub inputs: Seq<OutPointView>,
    pub outputs: Seq<TxOutView>,
}

impl View for UnsignedTransaction {
    type V = TransactionView;

    open spec fn view(&self) -> TransactionView {
        TransactionView {
            inputs: outpoints_view(self.inputs@),
            outputs: outputs_view(self.outputs@),
        }
    }
}

/// What a PSBT records about the output that one input spends: the output
/// itself (the witness UTXO), the outputs of the whole previous transaction
/// (the non-witness UTXO), both, or neither.
#[derive(Clone, Debug, PartialEq, Eq)]
pub struct InputUtxos {
    pub witness_utxo: Option<TxOut>,
    pub non_witness_utxo: Option<Vec<TxOut>>,
}

/// What an `InputUtxos` holds.
pub struct InputUtxosView {
    pub witness_utxo: Option<TxOutView>,
    pub non_witness_utxo: Option<Seq<TxOutView>>,
}

impl View for InputUtxos {
    type V = InputUtxosView;

    open spec fn view(&self) -> InputUtxosView {
        InputUtxosView {
            witness_utxo: match self.witness_utxo {
                Some(utxo) => Some(utxo@),
                None => None,
            },
            non_witness_utxo: match self.non_witness_utxo {
                Some(outputs) => Some(outputs_view(outputs@)),
                None => None,
            },
        }
    }
}

/// The views of a sequence of outputs.
pub open spec fn outputs_view(outputs: Seq<TxOut>) -> Seq<TxOutView> {
    Seq::new(outputs.len(), |i: int| outputs[i]@)
}

/// The views of a sequence of outpoints.
pub open spec fn outpoints_view(points: Seq<OutPoint>) -> Seq<OutPointView> {
    Seq::new(points.len(), |i: int| points[i]@)
}

/// The views of a sequence of per-input records.
pub open spec fn utxos_view(inputs: Seq<InputUtxos>) -> Seq<InputUtxosView> {
    Seq::new(inputs.len(), |i: int| inputs[i]@)
}

/// What a `PsbtDocument` holds.
pub struct DocumentView {
    pub txid: Seq<char>,
    pub tx: TransactionView,
    pub inputs: Seq<InputUtxosView>,
}

impl DocumentView {
    /// A document has one record per transaction input, and its transaction
    /// pays at least one output.
    pub open spec fn well_formed(self) -> bool {
        &&& self.inputs.len() == self.tx.inputs.len()
        &&& self.tx.outputs.len() > 0
    }
}

/// A parsed PSBT. Every document is well formed: see `DocumentView::well_formed`.
#[derive(Debug, PartialEq, Eq)]
pub struct PsbtDocument {
    txid: String,
    tx: UnsignedTransaction,
    inputs: Vec<InputUtxos>,
}

impl View for PsbtDocument {
    type V = DocumentView;

    closed spec fn view(&self) -> DocumentView {
        DocumentView { txid: self.txid@, tx: self.tx@, inputs: utxos_view(self.inputs@) }
    }
}

impl PsbtDocument {
    #[verifier::type_invariant]
    spec fn shape_holds(self) -> bool {
        self@.well_formed()
    }

    /// Puts a document together from its parts. The parts must agree in
    /// shape: one record per transaction input, and at least one output.
    pub fn new(txid: String, tx: UnsignedTransaction, inputs: Vec<InputUtxos>) -> (r: Result<
        PsbtDocument,
        PsbtError,
    >)
        ensures
            match r {
                Ok(doc) => {
                    &&& doc@ == (DocumentView { txid: txid@, tx: tx@, inputs: utxos_view(inputs@) })
                    &&& doc@.well_formed()
                },
                Err(e) => {
                    &&& e == PsbtError::Format
                    &&& !(DocumentView {
                        txid: txid@,
                        tx: tx@,
                        inputs: utxos_view(inputs@),
                    }).well_formed()
                },
            },
    {
        if inputs.len() != tx.inputs.len() || tx.outputs.len() == 0 {
            return Err(PsbtError::Format);
        }
        Ok(PsbtDocument { txid, tx, inputs })
    }

    /// The id of the unsigned transaction, as hex text in display order.
    pub fn txid(&self) -> (txid: &str)
        ensures
            txid@ == self@.txid,
    {
        self.txid.as_str()
    }

    /// The unsigned transaction that the document carries.
    pub fn unsigned_tx(&self) -> (tx: &UnsignedTransaction)
        ensures
            tx@ == self@.tx,
            self@.well_formed(),
    {
        proof {
            use_type_invariant(self);
        }
        &self.tx
    }

    /// The per-input records, in the order of the transaction's inputs.
    pub fn input_utxos(&self) -> (inputs: &Vec<InputUtxos>)
        ensures
            utxos_view(inputs@) == self@.inputs,
            self@.well_formed(),
    {
        proof {
            use_type_invariant(self);
        }
        &self.inputs
    }
}

} // verus!
