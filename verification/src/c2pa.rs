//! Values bound to their provenance, and the verification that admits a
//! value of outside origin into the verified state.

use crate::bindable::C2paBindable;
use crate::digest::sha256;
use crate::error::TransformError;
use crate::provenance::{ClaimHash, Provenance};
use std::marker::PhantomData;
use vstd::prelude::*;
use vstd::string::StringExecFns;

verus! {

/// The two states that a wrapped value can be in, as type-level tags.
pub trait VerificationState {
    /// Whether values tagged with this state count as verified.
    spec fn verified() -> bool;
}

/// Tag of a value that reached the verified state through signing,
/// verification or a transform. It cannot be made outside this crate.
#[derive(Debug, Clone, Copy)]
pub struct Verified(());

/// Tag of a value that has not been verified.
#[derive(Debug, Clone, Copy)]
pub struct Unverified;

impl VerificationState for Verified {
    open spec fn verified() -> bool {
        true
    }
}

impl VerificationState for Unverified {
    open spec fn verified() -> bool {
        false
    }
}

/// A payload together with its provenance record, tagged with its state.
///
/// A value in the `Verified` state is bound: the hash in its asset binding
/// is the content hash of its payload. Such a value cannot be cloned, for a
/// copy that the payload's own `clone` made has not been verified; an
/// unverified value can.
#[derive(Debug)]
pub struct C2pa<T: C2paBindable, S: VerificationState = Unverified> {
    payload: T,
    provenance: Provenance,
    _state: PhantomData<S>,
}

impl<T: C2paBindable, S: VerificationState> C2pa<T, S> {
    #[verifier::type_invariant]
    spec fn verified_is_bound(self) -> bool {
        S::verified() ==> self.provenance.asset_binding.bound_hash() == sha256(
            self.payload.canonical_bytes(),
        )
    }

    /// The payload, in contracts.
    pub closed spec fn spec_payload(&self) -> &T {
        &self.payload
    }

    /// The provenance record, in contracts.
    pub closed spec fn spec_provenance(&self) -> &Provenance {
        &self.provenance
    }

    /// The payload.
    #[verifier::when_used_as_spec(spec_payload)]
    pub fn payload(&self) -> (payload: &T)
        ensures
            payload == self.spec_payload(),
    {
        &self.payload
    }

    /// The provenance record. Of a verified value, its binding holds the
    /// content hash of the payload.
    #[verifier::when_used_as_spec(spec_provenance)]
    pub fn provenance(&self) -> (record: &Provenance)
        ensures
            record == self.spec_provenance(),
            S::verified() ==> record.asset_binding.bound_hash() == sha256(
                self.payload().canonical_bytes(),
            ),
    {
        proof {
            use_type_invariant(self);
        }
        &self.provenance
    }

    /// Gives up the record and returns the payload.
    pub fn into_payload(self) -> (payload: T)
        ensures
            payload == *self.payload(),
    {
        self.payload
    }
}

impl<T: C2paBindable> C2pa<T, Unverified> {
    /// Wraps a payload and a record of outside origin, unverified.
    pub fn new(payload: T, provenance: Provenance) -> (value: Self)
        ensures
            *value.payload() == payload,
            *value.provenance() == provenance,
    {
        C2pa { payload, provenance, _state: PhantomData }
    }
}

impl<T: C2paBindable + Clone> Clone for C2pa<T, Unverified> {
    fn clone(&self) -> (copy: Self)
        ensures
            cloned(*self.payload(), *copy.payload()),
            copy.provenance().manifest_id@ == self.provenance().manifest_id@,
            copy.provenance().claim_hash == self.provenance().claim_hash,
            copy.provenance().asset_binding == self.provenance().asset_binding,
            copy.provenance().ingredients@ == self.provenance().ingredients@,
    {
        C2pa {
            payload: self.payload.clone(),
            provenance: self.provenance.clone(),
            _state: PhantomData,
        }
    }
}

impl<T: C2paBindable> C2pa<T, Verified> {
    /// Wraps a payload and the record that binds it, verified.
    pub(crate) fn new_verified(payload: T, provenance: Provenance) -> (value: Self)
        requires
            provenance.asset_binding.bound_hash() == sha256(payload.canonical_bytes()),
        ensures
            *value.payload() == payload,
            *value.provenance() == provenance,
    {
        C2pa { payload, provenance, _state: PhantomData }
    }

    /// Gives up the verified state: the same payload and record, as a value
    /// that has to be verified again.
    pub fn into_unverified_view(self) -> (value: C2pa<T, Unverified>)
        ensures
            value.payload() == self.payload(),
            value.provenance() == self.provenance(),
    {
        C2pa { payload: self.payload, provenance: self.provenance, _state: PhantomData }
    }
}

/// Whether a value with this payload and record is admitted for the
/// expected claim hash.
pub open spec fn admissible<T: C2paBindable>(
    payload: &T,
    record: &Provenance,
    expected: Seq<u8>,
) -> bool {
    &&& record.claim_hash@ == expected
    &&& record.asset_binding.bound_hash() == sha256(payload.canonical_bytes())
}

/// Admits a value into the verified state.
///
/// The claim hash of the record must be the expected one, and the hash in
/// the asset binding must be the content hash of the payload, recomputed
/// here. On success payload and record come back unchanged; only the state
/// differs. Both failures are of the verification kind, told apart by the
/// detail text.
pub fn verify<T: C2paBindable>(value: C2pa<T, Unverified>, expected_hash: &ClaimHash) -> (outcome:
    Result<C2pa<T, Verified>, TransformError>)
    ensures
        admissible(value.payload(), value.provenance(), expected_hash@) ==> (outcome matches Ok(
            admitted,
        ) && admitted.payload() == value.payload() && admitted.provenance()
            == value.provenance()),
        value.provenance().claim_hash@ != expected_hash@ ==> (outcome matches Err(
            TransformError::Verification(detail),
        ) && detail@ == "claim hash mismatch"@),
        value.provenance().claim_hash@ == expected_hash@ && !admissible(
            value.payload(),
            value.provenance(),
            expected_hash@,
        ) ==> (outcome matches Err(TransformError::Verification(detail)) && detail@
            == "asset binding mismatch"@),
{
    if value.provenance.claim_hash != *expected_hash {
        return Err(TransformError::Verification(String::from_str("claim hash mismatch")));
    }
    let computed = value.payload.content_hash();
    if *value.provenance.asset_binding.content_hash() != computed {
        return Err(TransformError::Verification(String::from_str("asset binding mismatch")));
    }
    Ok(C2pa::new_verified(value.payload, value.provenance))
}

} // verus!
