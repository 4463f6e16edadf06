//! The provenance record: content and claim hashes, asset bindings,
//! ingredient references and the record that holds them.

use crate::digest::{digest_eq, sha256, sha256_digest};
use crate::text::same_text;
use vstd::prelude::*;

verus! {

/// SHA-256 digest of a payload's canonical bytes.
#[derive(Debug)]
pub struct ContentHash(pub [u8; 32]);

impl View for ContentHash {
    type V = Seq<u8>;

    open spec fn view(&self) -> Seq<u8> {
        self.0@
    }
}

impl Clone for ContentHash {
    fn clone(&self) -> (copy: Self)
        ensures
            copy == *self,
    {
        ContentHash(self.0)
    }
}

impl PartialEq for ContentHash {
    fn eq(&self, other: &Self) -> (same: bool) {
        digest_eq(&self.0, &other.0)
    }
}

impl vstd::std_specs::cmp::PartialEqSpecImpl for ContentHash {
    open spec fn obeys_eq_spec() -> bool {
        true
    }

    open spec fn eq_spec(&self, other: &Self) -> bool {
        self@ == other@
    }
}

impl Eq for ContentHash {

}

impl ContentHash {
    /// Wraps 32 digest bytes.
    pub fn from_bytes(bytes: [u8; 32]) -> (hash: Self)
        ensures
            hash.0 == bytes,
    {
        ContentHash(bytes)
    }

    /// The content hash of `data`: its SHA-256 digest.
    pub fn compute(data: &[u8]) -> (hash: Self)
        ensures
            hash@ == sha256(data@),
    {
        ContentHash(sha256_digest(data))
    }
}

/// SHA-256 digest that identifies one claim.
#[derive(Debug)]
pub struct ClaimHash(pub [u8; 32]);

impl View for ClaimHash {
    type V = Seq<u8>;

    open spec fn view(&self) -> Seq<u8> {
        self.0@
    }
}

impl Clone for ClaimHash {
    fn clone(&self) -> (copy: Self)
        ensures
            copy == *self,
    {
        ClaimHash(self.0)
    }
}

impl PartialEq for ClaimHash {
    fn eq(&self, other: &Self) -> (same: bool) {
        digest_eq(&self.0, &other.0)
    }
}

impl vstd::std_specs::cmp::PartialEqSpecImpl for ClaimHash {
    open spec fn obeys_eq_spec() -> bool {
        true
    }

    open spec fn eq_spec(&self, other: &Self) -> bool {
        self@ == other@
    }
}

impl Eq for ClaimHash {

}

impl ClaimHash {
    /// Wraps 32 digest bytes.
    pub fn from_bytes(bytes: [u8; 32]) -> (hash: Self)
        ensures
            hash.0 == bytes,
    {
        ClaimHash(bytes)
    }

    /// The digest bytes.
    pub fn as_bytes(&self) -> (bytes: &[u8; 32])
        ensures
            *bytes == self.0,
    {
        &self.0
    }
}

/// How a payload is tied to its record.
#[derive(Debug)]
pub enum AssetBinding {
    /// The hash of the whole payload.
    Hash(ContentHash),
    /// The hash of an embedded region of `length` bytes at `offset`.
    Box { offset: u64, length: u64, hash: ContentHash },
}

impl AssetBinding {
    /// The digest that the binding holds, whichever its form.
    pub open spec fn bound_hash(&self) -> Seq<u8> {
        match self {
            AssetBinding::Hash(hash) => hash@,
            AssetBinding::Box { hash, .. } => hash@,
        }
    }

    /// The content hash that the binding holds.
    pub fn content_hash(&self) -> (hash: &ContentHash)
        ensures
            hash@ == self.bound_hash(),
    {
        match self {
            AssetBinding::Hash(hash) => hash,
            AssetBinding::Box { hash, .. } => hash,
        }
    }
}

impl Clone for AssetBinding {
    fn clone(&self) -> (copy: Self)
        ensures
            copy == *self,
    {
        match self {
            AssetBinding::Hash(hash) => AssetBinding::Hash(hash.clone()),
            AssetBinding::Box { offset, length, hash } => AssetBinding::Box {
                offset: *offset,
                length: *length,
                hash: hash.clone(),
            },
        }
    }
}

/// How a derived record relates to one of its parents.
#[derive(Debug, Clone, Copy, PartialEq, Eq, Structural)]
pub enum IngredientRelation {
    ParentOf,
    ComponentOf,
    InputTo,
    /// The content was derived or transformed from the parent.
    DerivedFrom,
    /// The content was composed from several parents.
    ComposedFrom,
}

impl IngredientRelation {
    /// The label under which the relation is written.
    pub open spec fn label(&self) -> Seq<char> {
        match self {
            IngredientRelation::ParentOf => "parentOf"@,
            IngredientRelation::ComponentOf => "componentOf"@,
            IngredientRelation::InputTo => "inputTo"@,
            IngredientRelation::DerivedFrom => "derivedFrom"@,
            IngredientRelation::ComposedFrom => "composedFrom"@,
        }
    }

    /// The relation that a label names; a label that names none stands for
    /// `DerivedFrom`.
    pub open spec fn named_by(label: Seq<char>) -> IngredientRelation {
        if label == "parentOf"@ {
            IngredientRelation::ParentOf
        } else if label == "componentOf"@ {
            IngredientRelation::ComponentOf
        } else if label == "inputTo"@ {
            IngredientRelation::InputTo
        } else if label == "composedFrom"@ {
            IngredientRelation::ComposedFrom
        } else {
            IngredientRelation::DerivedFrom
        }
    }

    /// The relation's label.
    pub fn as_str(&self) -> (label: &'static str)
        ensures
            label@ == self.label(),
    {
        match self {
            IngredientRelation::ParentOf => "parentOf",
            IngredientRelation::ComponentOf => "componentOf",
            IngredientRelation::InputTo => "inputTo",
            IngredientRelation::DerivedFrom => "derivedFrom",
            IngredientRelation::ComposedFrom => "composedFrom",
        }
    }

    /// Reads a relation from its label, with `DerivedFrom` as the default.
    pub fn from_label(label: &str) -> (relation: Self)
        ensures
            relation == Self::named_by(label@),
    {
        if same_text(label, "parentOf") {
            IngredientRelation::ParentOf
        } else if same_text(label, "componentOf") {
            IngredientRelation::ComponentOf
        } else if same_text(label, "inputTo") {
            IngredientRelation::InputTo
        } else if same_text(label, "composedFrom") {
            IngredientRelation::ComposedFrom
        } else {
            IngredientRelation::DerivedFrom
        }
    }

    /// Reading back the label of a relation gives that relation.
    pub proof fn lemma_label_round_trip(relation: IngredientRelation)
        ensures
            Self::named_by(relation.label()) == relation,
    {
        reveal_strlit("parentOf");
        reveal_strlit("componentOf");
        reveal_strlit("inputTo");
        reveal_strlit("derivedFrom");
        reveal_strlit("composedFrom");
        assert("parentOf"@.len() == 8 && "componentOf"@.len() == 11 && "inputTo"@.len() == 7);
        assert("derivedFrom"@.len() == 11 && "composedFrom"@.len() == 12);
        assert("componentOf"@[0] == 'c' && "derivedFrom"@[0] == 'd');
    }
}

/// A back-reference from a record to one of its parents, by hash.
#[derive(Debug)]
pub struct IngredientRef {
    /// The parent's claim hash.
    pub claim_hash: ClaimHash,
    /// The parent's asset binding.
    pub asset_binding: AssetBinding,
    /// How the child relates to the parent.
    pub relationship: IngredientRelation,
}

impl Clone for IngredientRef {
    fn clone(&self) -> (copy: Self)
        ensures
            copy == *self,
    {
        IngredientRef {
            claim_hash: self.claim_hash.clone(),
            asset_binding: self.asset_binding.clone(),
            relationship: self.relationship,
        }
    }
}

/// The lineage of one value: its claim, its binding and its parents.
#[derive(Debug)]
pub struct Provenance {
    /// Displayable identifier of the manifest; not an identity.
    pub manifest_id: String,
    /// The hash of the claim.
    pub claim_hash: ClaimHash,
    /// How the payload is bound to the record.
    pub asset_binding: AssetBinding,
    /// The parents, in the order in which they were added.
    pub ingredients: Vec<IngredientRef>,
}

impl Clone for Provenance {
    fn clone(&self) -> (copy: Self)
        ensures
            copy.manifest_id@ == self.manifest_id@,
            copy.claim_hash == self.claim_hash,
            copy.asset_binding == self.asset_binding,
            copy.ingredients@ == self.ingredients@,
    {
        let mut ingredients: Vec<IngredientRef> = Vec::new();
        let mut i: usize = 0;
        while i < self.ingredients.len()
            invariant
                i <= self.ingredients@.len(),
                ingredients@ == self.ingredients@.take(i as int),
            decreases self.ingredients@.len() - i,
        {
            ingredients.push(self.ingredients[i].clone());
            assert(ingredients@ =~= self.ingredients@.take(i + 1));
            i += 1;
        }
        assert(self.ingredients@.take(i as int) =~= self.ingredients@);
        Provenance {
            manifest_id: self.manifest_id.clone(),
            claim_hash: self.claim_hash.clone(),
            asset_binding: self.asset_binding.clone(),
            ingredients,
        }
    }
}

impl Provenance {
    /// Whether the record is an origin: it names no parent.
    pub open spec fn is_root(&self) -> bool {
        self.ingredients@.len() == 0
    }

    /// A record without parents.
    pub fn root(manifest_id: &str, claim_hash: ClaimHash, binding: AssetBinding) -> (record: Self)
        ensures
            record.manifest_id@ == manifest_id@,
            record.claim_hash == claim_hash,
            record.asset_binding == binding,
            record.ingredients@ == Seq::<IngredientRef>::empty(),
            record.is_root(),
    {
        Provenance {
            manifest_id: manifest_id.to_owned(),
            claim_hash,
            asset_binding: binding,
            ingredients: Vec::new(),
        }
    }

    /// A record with the given parents.
    pub fn derived(
        manifest_id: &str,
        claim_hash: ClaimHash,
        binding: AssetBinding,
        ingredients: Vec<IngredientRef>,
    ) -> (record: Self)
        ensures
            record.manifest_id@ == manifest_id@,
            record.claim_hash == claim_hash,
            record.asset_binding == binding,
            record.ingredients == ingredients,
    {
        Provenance {
            manifest_id: manifest_id.to_owned(),
            claim_hash,
            asset_binding: binding,
            ingredients,
        }
    }
}

} // verus!
