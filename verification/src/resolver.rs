//! Finding the output that each input spends.
//!
//! A witness UTXO names the spent output directly and always wins. Without
//! one, the output is looked up in the non-witness UTXO at the index that the
//! input's outpoint gives; an index past its outputs leaves the input
//! unresolved, as does the absence of both.

use vstd::prelude::*;
use crate::document::{DocumentView, InputUtxosView, PsbtDocument, TxOut, TxOutView};
use crate::error::PsbtError;

verus! {

/// The output that an input spends, once it is found.
pub type ResolvedUtxo = TxOut;

/// The output that one input spends, given its record and the output index
/// of its outpoint.
pub open spec fn utxo_of(record: InputUtxosView, vout: u32) -> Option<TxOutView> {
    match record.witness_utxo {
        Some(utxo) => Some(utxo),
        None => match record.non_witness_utxo {
            Some(outputs) => if vout < outputs.len() {
                Some(outputs[vout as int])
            } else {
                None
            },
            None => None,
        },
    }
}

/// The output that the input at `index` spends; `None` where the document
/// has no such input or does not determine its spent output.
pub open spec fn resolved_utxo(doc: DocumentView, index: int) -> Option<TxOutView> {
    if 0 <= index < doc.inputs.len() && index < doc.tx.inputs.len() {
        utxo_of(doc.inputs[index], doc.tx.inputs[index].vout)
    } else {
        None
    }
}

/// Whether every input of the document resolves.
pub open spec fn all_resolved(doc: DocumentView) -> bool {
    forall|i: int| 0 <= i < doc.inputs.len() ==> (#[trigger] resolved_utxo(doc, i)) is Some
}

impl PsbtDocument {
    /// Resolves the output that the input at `index` spends. An input that
    /// cannot be resolved is a resolution gap at that index.
    pub fn resolve_utxo(&self, index: usize) -> (r: Result<&ResolvedUtxo, PsbtError>)
        ensures
            match resolved_utxo(self@, index as int) {
                Some(utxo) => r matches Ok(found) && found@ == utxo,
                None => r == Err::<&ResolvedUtxo, PsbtError>(
                    PsbtError::ResolutionGap { input: index },
                ),
            },
    {
        let tx = self.unsigned_tx();
        let inputs = self.input_utxos();
        if index >= inputs.len() {
            return Err(PsbtError::ResolutionGap { input: index });
        }
        let record = &inputs[index];
        let vout: u32 = tx.inputs[index].vout;
        match &record.witness_utxo {
            Some(utxo) => Ok(utxo),
            None => match &record.non_witness_utxo {
                Some(outputs) => {
                    if (vout as usize) < outputs.len() {
                        Ok(&outputs[vout as usize])
                    } else {
                        Err(PsbtError::ResolutionGap { input: index })
                    }
                },
                None => Err(PsbtError::ResolutionGap { input: index }),
            },
        }
    }
}

/// A witness UTXO is preferred: where an input has one, it is what the input
/// resolves to, whatever non-witness UTXO stands beside it.
pub proof fn lemma_witness_utxo_preferred(doc: DocumentView, index: int)
    requires
        doc.well_formed(),
        0 <= index < doc.inputs.len(),
        doc.inputs[index].witness_utxo is Some,
    ensures
        resolved_utxo(doc, index) == doc.inputs[index].witness_utxo,
{
}

/// Without a witness UTXO, an input whose outpoint index is not an output of
/// its non-witness UTXO does not resolve.
pub proof fn lemma_short_previous_transaction(doc: DocumentView, index: int)
    requires
        doc.well_formed(),
        0 <= index < doc.inputs.len(),
        doc.inputs[index].witness_utxo is None,
        doc.inputs[index].non_witness_utxo matches Some(outputs) && outputs.len()
            <= doc.tx.inputs[index].vout,
    ensures
        resolved_utxo(doc, index) is None,
{
}

/// Without a witness UTXO, an input whose outpoint index is an output of its
/// non-witness UTXO resolves to that output.
pub proof fn lemma_previous_transaction_lookup(doc: DocumentView, index: int)
    requires
        doc.well_formed(),
        0 <= index < doc.inputs.len(),
        doc.inputs[index].witness_utxo is None,
        doc.inputs[index].non_witness_utxo matches Some(outputs) && doc.tx.inputs[index].vout
            < outputs.len(),
    ensures
        resolved_utxo(doc, index) == Some(
            doc.inputs[index].non_witness_utxo->0[doc.tx.inputs[index].vout as int],
        ),
{
}

} // verus!
