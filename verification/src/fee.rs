//! The fee that a transaction pays: what its inputs are worth less what its
//! outputs are worth.
//!
//! Totals are kept in 128 bits: a sum of 64-bit amounts, however many, fits
//! there, so no total wraps.

use vstd::prelude::*;
use crate::document::{outputs_view, DocumentView, PsbtDocument, TxOut, TxOutView};
use crate::error::PsbtError;
use crate::resolver::{all_resolved, resolved_utxo};

verus! {

/// The value of the first `n` of a sequence of outputs, in satoshis.
pub open spec fn value_sum(outputs: Seq<TxOutView>, n: nat) -> int
    decreases n,
{
    if n == 0 {
        0
    } else {
        value_sum(outputs, (n - 1) as nat) + outputs[n - 1].value
    }
}

/// The value of a document's outputs.
pub open spec fn output_total(doc: DocumentView) -> int {
    value_sum(doc.tx.outputs, doc.tx.outputs.len())
}

/// The value that the input at `index` brings: that of the output it spends,
/// nothing where it does not resolve.
pub open spec fn input_value(doc: DocumentView, index: int) -> int {
    match resolved_utxo(doc, index) {
        Some(utxo) => utxo.value as int,
        None => 0,
    }
}

/// The value of the first `n` inputs of a document.
pub open spec fn input_value_sum(doc: DocumentView, n: nat) -> int
    decreases n,
{
    if n == 0 {
        0
    } else {
        input_value_sum(doc, (n - 1) as nat) + input_value(doc, n - 1)
    }
}

/// The value of a document's inputs.
pub open spec fn input_total(doc: DocumentView) -> int {
    input_value_sum(doc, doc.inputs.len())
}

/// The fee of a document. Without every input resolved there is none to
/// state; outputs worth more than the inputs are an invalid amount.
pub open spec fn fee_of(doc: DocumentView) -> Result<int, PsbtError> {
    if !all_resolved(doc) {
        Err(PsbtError::IncompleteData)
    } else if output_total(doc) > input_total(doc) {
        Err(PsbtError::InvalidAmount)
    } else {
        Ok(input_total(doc) - output_total(doc))
    }
}

/// The fee left by two totals, or the error where the outputs are worth more.
pub open spec fn fee_between(input_total: int, output_total: int) -> Result<int, PsbtError> {
    if output_total > input_total {
        Err(PsbtError::InvalidAmount)
    } else {
        Ok(input_total - output_total)
    }
}

/// An amount or the error in its place, as a mathematical integer.
pub open spec fn amount_result_view(r: Result<u128, PsbtError>) -> Result<int, PsbtError> {
    match r {
        Ok(amount) => Ok(amount as int),
        Err(e) => Err(e),
    }
}

/// The total value of a list of outputs.
pub fn total_value(outputs: &Vec<TxOut>) -> (total: u128)
    ensures
        total == value_sum(outputs_view(outputs@), outputs.len() as nat),
{
    let ghost view = outputs_view(outputs@);
    let mut total: u128 = 0;
    let mut i: usize = 0;
    while i < outputs.len()
        invariant
            i <= outputs.len(),
            view == outputs_view(outputs@),
            total == value_sum(view, i as nat),
            total <= i * u64::MAX,
        decreases outputs.len() - i,
    {
        total = total + outputs[i].value as u128;
        i += 1;
    }
    total
}

/// Subtracts the outputs' total from the inputs' total.
pub fn fee_from_totals(input_total: u128, output_total: u128) -> (r: Result<u128, PsbtError>)
    ensures
        amount_result_view(r) == fee_between(input_total as int, output_total as int),
{
    if output_total > input_total {
        Err(PsbtError::InvalidAmount)
    } else {
        Ok(input_total - output_total)
    }
}

impl PsbtDocument {
    /// The total value of the transaction's outputs.
    pub fn total_output_value(&self) -> (total: u128)
        ensures
            total == output_total(self@),
    {
        total_value(&self.unsigned_tx().outputs)
    }

    /// The total value of the outputs that the inputs spend. Nothing is
    /// summed from a part of the inputs: one unresolved input makes the data
    /// incomplete.
    pub fn total_input_value(&self) -> (r: Result<u128, PsbtError>)
        ensures
            all_resolved(self@) ==> (r matches Ok(total) && total == input_total(self@)),
            !all_resolved(self@) ==> r == Err::<u128, PsbtError>(PsbtError::IncompleteData),
    {
        let n: usize = self.input_utxos().len();
        let mut total: u128 = 0;
        let mut i: usize = 0;
        while i < n
            invariant
                i <= n,
                n == self@.inputs.len(),
                forall|j: int| 0 <= j < i ==> (#[trigger] resolved_utxo(self@, j)) is Some,
                total == input_value_sum(self@, i as nat),
                total <= i * u64::MAX,
            decreases n - i,
        {
            match self.resolve_utxo(i) {
                Ok(utxo) => {
                    total = total + utxo.value as u128;
                },
                Err(_) => {
                    assert(resolved_utxo(self@, i as int) is None);
                    return Err(PsbtError::IncompleteData);
                },
            }
            i += 1;
        }
        Ok(total)
    }

    /// The fee that the transaction pays.
    pub fn compute_fee(&self) -> (r: Result<u128, PsbtError>)
        ensures
            amount_result_view(r) == fee_of(self@),
    {
        match self.total_input_value() {
            Err(e) => Err(e),
            Ok(input_total) => fee_from_totals(input_total, self.total_output_value()),
        }
    }
}

/// Where a fee is computed, every input is resolved and the fee and the
/// outputs together are worth exactly what the inputs are worth.
pub proof fn lemma_fee_balances(doc: DocumentView)
    requires
        fee_of(doc) is Ok,
    ensures
        all_resolved(doc),
        fee_of(doc)->Ok_0 >= 0,
        fee_of(doc)->Ok_0 + output_total(doc) == input_total(doc),
{
}

/// With every input resolved, outputs worth more than the inputs are an
/// invalid amount: no fee is returned.
pub proof fn lemma_outputs_exceed_inputs(doc: DocumentView)
    requires
        all_resolved(doc),
        output_total(doc) > input_total(doc),
    ensures
        fee_of(doc) == Err::<int, PsbtError>(PsbtError::InvalidAmount),
{
}

/// One unresolved input is enough to leave the fee unknown.
pub proof fn lemma_unresolved_input_blocks_fee(doc: DocumentView, index: int)
    requires
        0 <= index < doc.inputs.len(),
        resolved_utxo(doc, index) is None,
    ensures
        fee_of(doc) == Err::<int, PsbtError>(PsbtError::IncompleteData),
{
}

} // verus!
