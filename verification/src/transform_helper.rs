//! The building blocks of a provenance-preserving transform: parameter
//! commits, the assertion that records a transform, and the function that
//! turns the output of a transform into a verified value.

use crate::bindable::C2paBindable;
use crate::builder::{BuilderView, C2paBuilder};
use crate::c2pa::{C2pa, Verified};
use crate::context::{records_transform, AssertionView, CustomAssertion, TransformContext};
use crate::digest::{sha256, sha256_digest};
use crate::error::TransformError;
use crate::hex::{encode, hex_text};
use crate::provenance::{IngredientRef, IngredientRelation};
use vstd::prelude::*;
use vstd::string::StringExecFns;
use vstd::utf8::encode_utf8;

verus! {

/// One entry of the commit object: the parameter's name and the hash in
/// hexadecimal, both in double quotes.
pub open spec fn commit_entry(name: Seq<char>, hash: Seq<u8>) -> Seq<char> {
    "\""@ + name + "\":"@ + "\""@ + hex_text(hash) + "\""@
}

/// The entries of the commits, in order, with commas between them.
pub open spec fn commit_entries(commits: Seq<(String, [u8; 32])>) -> Seq<char>
    decreases commits.len(),
{
    if commits.len() == 0 {
        Seq::empty()
    } else if commits.len() == 1 {
        commit_entry(commits[0].0@, commits[0].1@)
    } else {
        commit_entries(commits.drop_last()) + ","@ + commit_entry(
            commits.last().0@,
            commits.last().1@,
        )
    }
}

/// The JSON text that records a transform: its name, and the commits of its
/// recorded parameters. It holds hashes, never a parameter's value.
pub open spec fn transform_json(name: Seq<char>, commits: Seq<(String, [u8; 32])>) -> Seq<char> {
    "{\"transform\":\""@ + name + "\",\"param_commits\":{"@ + commit_entries(commits) + "}}"@
}

/// The assertion that records a transform.
pub open spec fn transform_assertion(
    name: Seq<char>,
    commits: Seq<(String, [u8; 32])>,
) -> AssertionView {
    AssertionView {
        label: "c2pa.transform"@,
        data: encode_utf8(transform_json(name, commits)),
        mime_type: "application/json"@,
    }
}

/// The assertions that a transform result carries: the one that records the
/// transform, unless there is neither a name nor a commit to record.
pub open spec fn transform_assertions(
    name: Seq<char>,
    commits: Seq<(String, [u8; 32])>,
) -> Seq<AssertionView> {
    if name.len() == 0 && commits.len() == 0 {
        Seq::empty()
    } else {
        seq![transform_assertion(name, commits)]
    }
}

/// The parts of the claim that a transform result is signed from: the
/// output, the input as the only ingredient, the generator label of the
/// run, and the assertion that records the transform.
pub open spec fn transform_claim<I: C2paBindable, O: C2paBindable>(
    output: O,
    input: &C2pa<I, Verified>,
    name: Seq<char>,
    relationship: IngredientRelation,
    commits: Seq<(String, [u8; 32])>,
    generator: Seq<char>,
) -> BuilderView<O> {
    BuilderView {
        payload: output,
        ingredients: seq![reference_to(input, relationship)],
        generator,
        assertions: transform_assertions(name, commits),
    }
}

/// The reference by which a derived record names `parent`.
pub open spec fn reference_to<I: C2paBindable>(
    parent: &C2pa<I, Verified>,
    relationship: IngredientRelation,
) -> IngredientRef {
    IngredientRef {
        claim_hash: parent.provenance().claim_hash,
        asset_binding: parent.provenance().asset_binding,
        relationship,
    }
}

/// Commits to a parameter: the commit is the SHA-256 digest of the
/// parameter's canonical bytes, under the parameter's name. The bytes
/// themselves are not kept.
pub fn commit_param(name: &str, canonical_bytes: &[u8]) -> (commit: (String, [u8; 32]))
    ensures
        commit.0@ == name@,
        commit.1@ == sha256(canonical_bytes@),
{
    (String::from_str(name), sha256_digest(canonical_bytes))
}

/// Builds the assertion that records a transform and its commits.
pub fn build_transform_assertion(
    transform_name: &str,
    param_commits: &[(String, [u8; 32])],
) -> (assertion: CustomAssertion)
    ensures
        assertion@ == transform_assertion(transform_name@, param_commits@),
{
    let mut entries: String = String::new();
    let mut i: usize = 0;
    while i < param_commits.len()
        invariant
            i <= param_commits@.len(),
            entries@ == commit_entries(param_commits@.take(i as int)),
        decreases param_commits@.len() - i,
    {
        proof {
            assert(param_commits@.take(i + 1).drop_last() =~= param_commits@.take(i as int));
            assert(param_commits@.take(i + 1).last() == param_commits@[i as int]);
            if i == 0 {
                assert(param_commits@.take(1)[0] == param_commits@[0]);
            }
        }
        if i > 0 {
            entries.append(",");
        }
        entries.append("\"");
        entries.append(param_commits[i].0.as_str());
        entries.append("\":");
        entries.append("\"");
        entries.append(encode(&param_commits[i].1).as_str());
        entries.append("\"");
        assert(entries@ =~= commit_entries(param_commits@.take(i + 1)));
        i += 1;
    }
    assert(param_commits@.take(i as int) =~= param_commits@);
    let mut json: String = String::from_str("{\"transform\":\"");
    json.append(transform_name);
    json.append("\",\"param_commits\":{");
    json.append(entries.as_str());
    json.append("}}");
    CustomAssertion::json("c2pa.transform", json.as_str())
}

/// Turns the output of a transform into a verified value.
///
/// The transform's name and commits are recorded in the context, after the
/// commits already there. The result is the output, signed under the
/// context's generator label, with the input as its only ingredient under
/// the given relation, and with the assertion that records the transform
/// (none if the name is empty and there is no commit). The signer used
/// never fails, so neither does this function.
pub fn build_transform_result<I, O>(
    output: O,
    input: &C2pa<I, Verified>,
    transform_name: &str,
    relationship: IngredientRelation,
    param_commits: Vec<(String, [u8; 32])>,
    ctx: &mut TransformContext,
) -> (outcome: Result<C2pa<O, Verified>, TransformError>) where I: C2paBindable, O: C2paBindable
    ensures
        outcome matches Ok(result) && *result.payload() == output && transform_claim(
            output,
            input,
            transform_name@,
            relationship,
            param_commits@,
            old(ctx).generator@,
        ).signs_to(result.provenance()),
        records_transform(old(ctx), final(ctx), transform_name@, param_commits@),
{
    ctx.set_transform_name(transform_name);
    let mut i: usize = 0;
    while i < param_commits.len()
        invariant
            i <= param_commits@.len(),
            ctx.transform_name matches Some(recorded) && recorded@ == transform_name@,
            ctx.param_commits@ == old(ctx).param_commits@ + param_commits@.take(i as int),
            ctx.generator == old(ctx).generator,
            ctx.require_timestamp == old(ctx).require_timestamp,
            ctx.assertions == old(ctx).assertions,
        decreases param_commits@.len() - i,
    {
        let name = param_commits[i].0.clone();
        let hash = param_commits[i].1;
        ctx.add_param_commit(name, hash);
        assert(ctx.param_commits@ =~= old(ctx).param_commits@ + param_commits@.take(i + 1));
        i += 1;
    }
    assert(param_commits@.take(i as int) =~= param_commits@);

    let mut builder = C2paBuilder::new(output).generator(ctx.generator.as_str()).add_ingredient(
        input,
        relationship,
    );
    assert(builder@.ingredients =~= seq![reference_to(input, relationship)]);
    if !transform_name.is_empty() || !param_commits.is_empty() {
        let assertion = build_transform_assertion(transform_name, param_commits.as_slice());
        builder = builder.add_assertion(assertion);
        assert(builder@.assertions =~= transform_assertions(transform_name@, param_commits@));
    }
    builder.sign_with_test_signer()
}

} // verus!
