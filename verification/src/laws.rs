//! Laws that relate signing, verification, transforms and commits.

use crate::bindable::C2paBindable;
use crate::builder::BuilderView;
use crate::c2pa::{admissible, C2pa, Verified};
use crate::context::AssertionView;
use crate::digest::sha256;
use crate::provenance::{IngredientRef, IngredientRelation, Provenance};
use crate::transform::{composed_from, derives_from};
use crate::transform_helper::{reference_to, transform_claim};
use vstd::prelude::*;

verus! {

/// Signing is deterministic: for a fixed generator label, payload,
/// ingredient list and list of assertions, any two records that signing
/// gives have the same claim hash, and with it the same manifest
/// identifier, binding and ingredients.
pub proof fn lemma_signing_is_deterministic<T: C2paBindable>(
    generator: Seq<char>,
    payload: T,
    ingredients: Seq<IngredientRef>,
    assertions: Seq<AssertionView>,
    first: Provenance,
    second: Provenance,
)
    requires
        (BuilderView { payload, ingredients, generator, assertions }).signs_to(&first),
        (BuilderView { payload, ingredients, generator, assertions }).signs_to(&second),
    ensures
        first.claim_hash@ == second.claim_hash@,
        first.manifest_id@ == second.manifest_id@,
        first.asset_binding.bound_hash() == second.asset_binding.bound_hash(),
        first.ingredients@ == second.ingredients@,
{
}

/// Round trip: a value that signing gives is admitted by verification
/// against its own claim hash, whatever the payload. Verification then
/// returns the payload and the record unchanged.
pub proof fn lemma_signed_value_verifies<T: C2paBindable>(parts: BuilderView<T>, record: Provenance)
    requires
        parts.signs_to(&record),
    ensures
        admissible(&parts.payload, &record, record.claim_hash@),
{
}

/// Tamper detection: a record that signing gave for one payload does not
/// admit a payload with another content hash, so verification of the pair
/// fails, with a verification error.
pub proof fn lemma_tampered_payload_is_refused<T: C2paBindable>(
    parts: BuilderView<T>,
    record: Provenance,
    tampered: T,
)
    requires
        parts.signs_to(&record),
        sha256(tampered.canonical_bytes()) != sha256(parts.payload.canonical_bytes()),
    ensures
        !admissible(&tampered, &record, record.claim_hash@),
{
}

/// A record is admitted against one claim hash only: its own.
pub proof fn lemma_foreign_claim_is_refused<T: C2paBindable>(
    payload: T,
    record: Provenance,
    expected: Seq<u8>,
)
    requires
        expected != record.claim_hash@,
    ensures
        !admissible(&payload, &record, expected),
{
}

/// Chain integrity: the record of a transform result names the input as its
/// only ingredient, by the input's claim hash and binding, under the
/// relation that was asked for.
pub proof fn lemma_transform_links_to_input<I: C2paBindable, O: C2paBindable>(
    output: O,
    input: &C2pa<I, Verified>,
    name: Seq<char>,
    relationship: IngredientRelation,
    commits: Seq<(String, [u8; 32])>,
    generator: Seq<char>,
    record: Provenance,
)
    requires
        transform_claim(output, input, name, relationship, commits, generator).signs_to(&record),
    ensures
        derives_from(&record, input.provenance()),
        record.ingredients@[0].relationship == relationship,
        !record.is_root(),
{
}

/// Fan-in: a record signed from two ingredients, the references to `a` and
/// to `b` in this order, names exactly these two parents, in this order.
pub proof fn lemma_composite_links_to_both<A: C2paBindable, B: C2paBindable, O: C2paBindable>(
    output: O,
    a: &C2pa<A, Verified>,
    b: &C2pa<B, Verified>,
    relationship: IngredientRelation,
    generator: Seq<char>,
    assertions: Seq<AssertionView>,
    record: Provenance,
)
    requires
        (BuilderView {
            payload: output,
            ingredients: seq![reference_to(a, relationship), reference_to(b, relationship)],
            generator,
            assertions,
        }).signs_to(&record),
    ensures
        composed_from(&record, a.provenance(), b.provenance()),
        record.ingredients@.len() == 2,
{
}

/// Commits are deterministic: two commits of the same canonical bytes are
/// the same 32 bytes, and each is the digest of the bytes, not the bytes.
pub proof fn lemma_commit_is_deterministic(
    first_bytes: Seq<u8>,
    second_bytes: Seq<u8>,
    first: (String, [u8; 32]),
    second: (String, [u8; 32]),
)
    requires
        first.1@ == sha256(first_bytes),
        second.1@ == sha256(second_bytes),
        first_bytes == second_bytes,
    ensures
        first.1@ == second.1@,
        first.1 == second.1,
{
    assert(first.1 =~= second.1);
}

} // verus!
