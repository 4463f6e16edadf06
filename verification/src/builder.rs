//! The manifest builder: it gathers a payload, its ingredients and its
//! assertions, and on signing produces a verified value with a freshly
//! computed identity.

use crate::bindable::C2paBindable;
use crate::c2pa::{C2pa, Verified};
use crate::context::{AssertionView, CustomAssertion};
use crate::digest::{sha256, sha256_digest};
use crate::error::TransformError;
use crate::hex::{encode, hex_text};
use crate::provenance::{
    AssetBinding,
    ClaimHash,
    ContentHash,
    IngredientRef,
    IngredientRelation,
    Provenance,
};
use crate::text::extend_bytes;
use vstd::prelude::*;
use vstd::slice::slice_subrange;
use vstd::string::StringExecFns;
use vstd::utf8::encode_utf8;

verus! {

/// The claim hashes of the ingredients, one after the other, in order.
pub open spec fn ingredient_bytes(ingredients: Seq<IngredientRef>) -> Seq<u8>
    decreases ingredients.len(),
{
    if ingredients.len() == 0 {
        Seq::empty()
    } else {
        ingredient_bytes(ingredients.drop_last()) + ingredients.last().claim_hash@
    }
}

/// Label bytes and data of the assertions, one after the other, in order.
pub open spec fn assertion_bytes(assertions: Seq<AssertionView>) -> Seq<u8>
    decreases assertions.len(),
{
    if assertions.len() == 0 {
        Seq::empty()
    } else {
        assertion_bytes(assertions.drop_last()) + encode_utf8(assertions.last().label)
            + assertions.last().data
    }
}

/// The bytes that a claim hash is the digest of: the generator label, the
/// content hash of the payload, the claim hashes of the ingredients and the
/// assertions, in this order.
pub open spec fn claim_preimage(
    generator: Seq<char>,
    content_hash: Seq<u8>,
    ingredients: Seq<IngredientRef>,
    assertions: Seq<AssertionView>,
) -> Seq<u8> {
    encode_utf8(generator) + content_hash + ingredient_bytes(ingredients) + assertion_bytes(
        assertions,
    )
}

/// The claim hash of a claim with these parts.
pub open spec fn claim_digest(
    generator: Seq<char>,
    content_hash: Seq<u8>,
    ingredients: Seq<IngredientRef>,
    assertions: Seq<AssertionView>,
) -> Seq<u8> {
    sha256(claim_preimage(generator, content_hash, ingredients, assertions))
}

/// Sixteen bytes in the usual grouping of a UUID: 8, 4, 4, 4 and 12
/// hexadecimal digits, with hyphens between the groups.
pub open spec fn uuid_text(bytes: Seq<u8>) -> Seq<char>
    recommends
        bytes.len() >= 16,
{
    hex_text(bytes.subrange(0, 4)) + "-"@ + hex_text(bytes.subrange(4, 6)) + "-"@ + hex_text(
        bytes.subrange(6, 8),
    ) + "-"@ + hex_text(bytes.subrange(8, 10)) + "-"@ + hex_text(bytes.subrange(10, 16))
}

/// The displayable manifest identifier that goes with a claim hash. It is
/// made of the first sixteen bytes of the hash.
pub open spec fn manifest_id_text(claim_hash: Seq<u8>) -> Seq<char>
    recommends
        claim_hash.len() >= 16,
{
    "urn:uuid:"@ + uuid_text(claim_hash)
}

/// Renders the first sixteen bytes of `bytes` in the grouping of a UUID.
pub fn uuid_from_bytes(bytes: &[u8]) -> (text: String)
    requires
        bytes@.len() >= 16,
    ensures
        text@ == uuid_text(bytes@),
{
    let mut text: String = encode(slice_subrange(bytes, 0, 4));
    text.append("-");
    text.append(encode(slice_subrange(bytes, 4, 6)).as_str());
    text.append("-");
    text.append(encode(slice_subrange(bytes, 6, 8)).as_str());
    text.append("-");
    text.append(encode(slice_subrange(bytes, 8, 10)).as_str());
    text.append("-");
    text.append(encode(slice_subrange(bytes, 10, 16)).as_str());
    text
}

/// The record of a signed claim, from its two hashes and its ingredients: a
/// whole-payload binding to the content hash, and the manifest identifier
/// made of the claim hash. It is a root record if there is no ingredient.
pub fn signed_record(
    claim_hash: ClaimHash,
    content_hash: ContentHash,
    ingredients: Vec<IngredientRef>,
) -> (record: Provenance)
    ensures
        record.asset_binding == AssetBinding::Hash(content_hash),
        record.claim_hash == claim_hash,
        record.manifest_id@ == manifest_id_text(claim_hash@),
        record.ingredients@ == ingredients@,
        record.is_root() <==> ingredients@.len() == 0,
{
    let binding = AssetBinding::Hash(content_hash);
    let manifest_id = String::from_str("urn:uuid:").concat(
        uuid_from_bytes(&claim_hash.0).as_str(),
    );
    if ingredients.is_empty() {
        assert(ingredients@ =~= Seq::empty());
        Provenance::root(manifest_id.as_str(), claim_hash, binding)
    } else {
        Provenance::derived(manifest_id.as_str(), claim_hash, binding, ingredients)
    }
}

/// The capability of signing the bytes of a claim.
///
/// What a signer answers is not specified: a build goes by the answer it
/// gets, whatever it is.
pub trait Signer {
    /// Signs `data`, or says why it could not.
    fn sign(&self, data: &[u8]) -> Result<Vec<u8>, TransformError>;

    /// The certificates that vouch for the signing key, leaf first.
    fn certificate_chain(&self) -> &[Vec<u8>];
}

/// A signer for prototypes: it never fails and signs with 64 zero bytes.
pub struct TestSigner;

impl Signer for TestSigner {
    fn sign(&self, _data: &[u8]) -> (signature: Result<Vec<u8>, TransformError>)
        ensures
            signature matches Ok(bytes) && bytes@ == Seq::new(64, |i: int| 0u8),
    {
        let mut bytes: Vec<u8> = Vec::new();
        let mut i: usize = 0;
        while i < 64
            invariant
                i <= 64,
                bytes@ == Seq::new(i as nat, |j: int| 0u8),
            decreases 64 - i,
        {
            bytes.push(0u8);
            assert(bytes@ =~= Seq::new((i + 1) as nat, |j: int| 0u8));
            i += 1;
        }
        Ok(bytes)
    }

    fn certificate_chain(&self) -> (chain: &[Vec<u8>])
        ensures
            chain@.len() == 0,
    {
        &[]
    }
}

/// What a builder has gathered, as mathematical values.
pub ghost struct BuilderView<T> {
    pub payload: T,
    pub ingredients: Seq<IngredientRef>,
    pub generator: Seq<char>,
    pub assertions: Seq<AssertionView>,
}

impl<T: C2paBindable> BuilderView<T> {
    /// The content hash of the payload.
    pub open spec fn content_digest(&self) -> Seq<u8> {
        sha256(self.payload.canonical_bytes())
    }

    /// The claim hash that signing gives.
    pub open spec fn claim_digest(&self) -> Seq<u8> {
        claim_digest(self.generator, self.content_digest(), self.ingredients, self.assertions)
    }

    /// Whether `record` is the record that signing gives: a whole-payload
    /// binding to the content hash, the claim hash of the parts, the
    /// manifest identifier made of it, and the ingredients as gathered.
    pub open spec fn signs_to(&self, record: &Provenance) -> bool {
        &&& record.asset_binding matches AssetBinding::Hash(hash) && hash@ == self.content_digest()
        &&& record.claim_hash@ == self.claim_digest()
        &&& record.manifest_id@ == manifest_id_text(self.claim_digest())
        &&& record.ingredients@ == self.ingredients
    }

    /// Whether `outcome` is what sealing gives once the signer has answered
    /// with `signature`: the signed value where the signer succeeded, and a
    /// signing error with the signer's own detail where it failed.
    pub open spec fn seals_to(
        &self,
        signature: Result<Vec<u8>, TransformError>,
        outcome: Result<C2pa<T, Verified>, TransformError>,
    ) -> bool {
        match signature {
            Ok(_) => outcome matches Ok(signed) && *signed.payload() == self.payload
                && self.signs_to(signed.provenance()),
            Err(failure) => outcome matches Err(TransformError::Signing(detail)) && detail@
                == failure.detail(),
        }
    }
}

/// Gathers the parts of a claim. Signing consumes the builder, so nothing
/// can be added afterwards.
pub struct C2paBuilder<T: C2paBindable> {
    payload: T,
    ingredients: Vec<IngredientRef>,
    generator: String,
    assertions: Vec<CustomAssertion>,
}

impl<T: C2paBindable> View for C2paBuilder<T> {
    type V = BuilderView<T>;

    closed spec fn view(&self) -> BuilderView<T> {
        BuilderView {
            payload: self.payload,
            ingredients: self.ingredients@,
            generator: self.generator@,
            assertions: self.assertions.deep_view(),
        }
    }
}

impl<T: C2paBindable> C2paBuilder<T> {
    /// Starts a claim about `payload`, with the default generator label and
    /// neither ingredients nor assertions.
    pub fn new(payload: T) -> (builder: Self)
        ensures
            builder@ == (BuilderView {
                payload,
                ingredients: Seq::empty(),
                generator: "c2pa_primitives/0.1"@,
                assertions: Seq::empty(),
            }),
    {
        let builder = C2paBuilder {
            payload,
            ingredients: Vec::new(),
            generator: String::from_str("c2pa_primitives/0.1"),
            assertions: Vec::new(),
        };
        assert(builder.assertions.deep_view() =~= Seq::empty());
        builder
    }

    /// Sets the generator label.
    pub fn generator(self, generator: &str) -> (builder: Self)
        ensures
            builder@ == (BuilderView { generator: generator@, ..self@ }),
    {
        let mut builder = self;
        builder.generator = String::from_str(generator);
        builder
    }

    /// Adds a verified value as the next ingredient: its claim hash and
    /// binding, under the given relation.
    pub fn add_ingredient<I: C2paBindable>(
        self,
        ingredient: &C2pa<I, Verified>,
        relation: IngredientRelation,
    ) -> (builder: Self)
        ensures
            builder@ == (BuilderView {
                ingredients: self@.ingredients.push(
                    IngredientRef {
                        claim_hash: ingredient.provenance().claim_hash,
                        asset_binding: ingredient.provenance().asset_binding,
                        relationship: relation,
                    },
                ),
                ..self@
            }),
    {
        let mut builder = self;
        let record = ingredient.provenance();
        builder.ingredients.push(
            IngredientRef {
                claim_hash: record.claim_hash.clone(),
                asset_binding: record.asset_binding.clone(),
                relationship: relation,
            },
        );
        builder
    }

    /// Adds a custom assertion after those already present.
    pub fn add_assertion(self, assertion: CustomAssertion) -> (builder: Self)
        ensures
            builder@ == (BuilderView { assertions: self@.assertions.push(assertion@), ..self@ }),
    {
        let mut builder = self;
        builder.assertions.push(assertion);
        assert(builder.assertions.deep_view() =~= self.assertions.deep_view().push(assertion@));
        builder
    }

    /// The bytes that the claim hash is the digest of.
    fn claim_bytes(&self, content_hash: &ContentHash) -> (bytes: Vec<u8>)
        ensures
            bytes@ == claim_preimage(
                self@.generator,
                content_hash@,
                self@.ingredients,
                self@.assertions,
            ),
    {
        let mut bytes: Vec<u8> = Vec::new();
        extend_bytes(&mut bytes, self.generator.as_str().as_bytes());
        extend_bytes(&mut bytes, &content_hash.0);
        let ghost head = bytes@;
        let mut i: usize = 0;
        while i < self.ingredients.len()
            invariant
                i <= self.ingredients@.len(),
                bytes@ == head + ingredient_bytes(self.ingredients@.take(i as int)),
            decreases self.ingredients@.len() - i,
        {
            proof {
                assert(self.ingredients@.take(i + 1).drop_last() =~= self.ingredients@.take(
                    i as int,
                ));
            }
            extend_bytes(&mut bytes, &self.ingredients[i].claim_hash.0);
            assert(bytes@ =~= head + ingredient_bytes(self.ingredients@.take(i + 1)));
            i += 1;
        }
        assert(self.ingredients@.take(i as int) =~= self.ingredients@);
        let ghost middle = bytes@;
        let ghost views = self.assertions.deep_view();
        let mut j: usize = 0;
        while j < self.assertions.len()
            invariant
                j <= self.assertions@.len(),
                views == self.assertions.deep_view(),
                bytes@ == middle + assertion_bytes(views.take(j as int)),
            decreases self.assertions@.len() - j,
        {
            proof {
                assert(views.take(j + 1).drop_last() =~= views.take(j as int));
                assert(views.take(j + 1).last() == self.assertions@[j as int]@);
            }
            extend_bytes(&mut bytes, self.assertions[j].label.as_str().as_bytes());
            extend_bytes(&mut bytes, self.assertions[j].data.as_slice());
            assert(bytes@ =~= middle + assertion_bytes(views.take(j + 1)));
            j += 1;
        }
        assert(views.take(j as int) =~= views);
        bytes
    }

    /// Computes the hash of the claim, given the content hash of the
    /// payload.
    fn compute_claim_hash(&self, content_hash: &ContentHash) -> (claim_hash: ClaimHash)
        ensures
            claim_hash@ == claim_digest(
                self@.generator,
                content_hash@,
                self@.ingredients,
                self@.assertions,
            ),
    {
        let bytes = self.claim_bytes(content_hash);
        ClaimHash(sha256_digest(bytes.as_slice()))
    }

    /// Builds the signed value from the two hashes and the signer's answer.
    fn finish(
        self,
        content_hash: ContentHash,
        claim_hash: ClaimHash,
        signature: Result<Vec<u8>, TransformError>,
    ) -> (outcome: Result<C2pa<T, Verified>, TransformError>)
        requires
            content_hash@ == self@.content_digest(),
            claim_hash@ == self@.claim_digest(),
        ensures
            self@.seals_to(signature, outcome),
    {
        match signature {
            Err(failure) => Err(TransformError::Signing(failure.message())),
            Ok(_) => {
                let record = signed_record(claim_hash, content_hash, self.ingredients);
                Ok(C2pa::new_verified(self.payload, record))
            },
        }
    }

    /// Completes the claim with the answer of a signer.
    ///
    /// Where the signer succeeded, the result is the payload, verified, with
    /// a whole-payload binding, the claim hash of the gathered parts and the
    /// manifest identifier made of it; the record is a root if no ingredient
    /// was added. The signature itself enters neither the claim hash nor
    /// the record. Where the signer failed, the build fails with a signing
    /// error that keeps the signer's detail.
    pub fn seal(self, signature: Result<Vec<u8>, TransformError>) -> (outcome: Result<
        C2pa<T, Verified>,
        TransformError,
    >)
        ensures
            self@.seals_to(signature, outcome),
    {
        let content_hash = self.payload.content_hash();
        let claim_hash = self.compute_claim_hash(&content_hash);
        self.finish(content_hash, claim_hash, signature)
    }

    /// Signs the claim and returns the payload in the verified state.
    ///
    /// The signer is called once, on the 32 bytes of the claim hash, and its
    /// answer decides as `seal` says: a failure of the signer fails the
    /// build with a signing error, and nothing is retried. Where it
    /// succeeded it is also asked for its certificate chain; neither the
    /// signature nor the chain enters the claim hash or the record.
    pub fn sign(self, signer: &dyn Signer) -> (outcome: Result<C2pa<T, Verified>, TransformError>)
        ensures
            outcome matches Ok(signed) ==> *signed.payload() == self@.payload && self@.signs_to(
                signed.provenance(),
            ),
            outcome matches Err(failure) ==> failure is Signing,
    {
        let content_hash = self.payload.content_hash();
        let claim_hash = self.compute_claim_hash(&content_hash);
        let signature = signer.sign(&claim_hash.0);
        if signature.is_ok() {
            let _ = signer.certificate_chain();
        }
        self.finish(content_hash, claim_hash, signature)
    }

    /// Signs the claim with the `TestSigner`, which never fails.
    pub(crate) fn sign_with_test_signer(self) -> (outcome: Result<
        C2pa<T, Verified>,
        TransformError,
    >)
        ensures
            outcome matches Ok(signed) && *signed.payload() == self@.payload && self@.signs_to(
                signed.provenance(),
            ),
    {
        let content_hash = self.payload.content_hash();
        let claim_hash = self.compute_claim_hash(&content_hash);
        let signature = TestSigner.sign(&claim_hash.0);
        let _ = TestSigner.certificate_chain();
        self.finish(content_hash, claim_hash, signature)
    }
}

} // verus!
