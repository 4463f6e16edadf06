//! Helpers for inspecting provenance chains.

use crate::bindable::C2paBindable;
use crate::c2pa::{C2pa, Verified};
use crate::digest::sha256;
use crate::hex::{encode, hex_text};
use vstd::prelude::*;
use vstd::slice::slice_subrange;

verus! {

/// How the record of a child stands to a supposed parent.
#[derive(Debug, Clone, Copy, PartialEq, Eq, Structural)]
pub enum ChainLink {
    /// The child names no ingredient at all.
    NoIngredients,
    /// The first ingredient of the child carries the parent's claim hash.
    Linked,
    /// The first ingredient of the child carries another claim hash.
    Mismatch,
}

/// What there is to show of one step of a chain.
#[derive(Debug)]
pub struct StepReport {
    /// The manifest identifier of the step's record.
    pub manifest_id: String,
    /// The first eight bytes of the claim hash, in hexadecimal.
    pub claim_hash: String,
    /// The first eight bytes of the payload's content hash, recomputed, in
    /// hexadecimal.
    pub content_hash: String,
    /// The number of ingredients of the record.
    pub ingredients: usize,
}

/// The first eight bytes of a hash, in hexadecimal.
pub fn hash_short(hash: &[u8; 32]) -> (text: String)
    ensures
        text@ == hex_text(hash@.subrange(0, 8)),
{
    encode(slice_subrange(hash, 0, 8))
}

/// Gathers what there is to show of a verified value.
pub fn describe_step<T: C2paBindable>(value: &C2pa<T, Verified>) -> (report: StepReport)
    ensures
        report.manifest_id@ == value.provenance().manifest_id@,
        report.claim_hash@ == hex_text(value.provenance().claim_hash@.subrange(0, 8)),
        report.content_hash@ == hex_text(
            sha256(value.payload().canonical_bytes()).subrange(0, 8),
        ),
        report.ingredients == value.provenance().ingredients@.len(),
{
    let record = value.provenance();
    let content_hash = value.payload().content_hash();
    StepReport {
        manifest_id: record.manifest_id.clone(),
        claim_hash: hash_short(record.claim_hash.as_bytes()),
        content_hash: hash_short(&content_hash.0),
        ingredients: record.ingredients.len(),
    }
}

/// Tells whether the first ingredient of `child` carries the claim hash of
/// `parent`.
pub fn verify_chain<T: C2paBindable, U: C2paBindable>(
    child: &C2pa<T, Verified>,
    parent: &C2pa<U, Verified>,
) -> (link: ChainLink)
    ensures
        link == (if child.provenance().ingredients@.len() == 0 {
            ChainLink::NoIngredients
        } else if child.provenance().ingredients@[0].claim_hash@ == parent.provenance().claim_hash@ {
            ChainLink::Linked
        } else {
            ChainLink::Mismatch
        }),
{
    let child_record = child.provenance();
    let parent_record = parent.provenance();
    if child_record.ingredients.is_empty() {
        return ChainLink::NoIngredients;
    }
    if child_record.ingredients[0].claim_hash == parent_record.claim_hash {
        ChainLink::Linked
    } else {
        ChainLink::Mismatch
    }
}

} // verus!
