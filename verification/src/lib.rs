//! Type-level provenance tracking for values that flow through a chain or
//! DAG of transformations.
//!
//! A `C2pa<T, Verified>` can only be made by signing, by verification or by
//! a transform of verified inputs; every derived value carries a record
//! that names its parents by claim hash.

pub mod bindable;
pub mod builder;
pub mod c2pa;
pub mod context;
pub mod debug;
pub mod digest;
pub mod encoding;
pub mod error;
pub mod hex;
pub mod image;
pub mod invoice;
pub mod laws;
pub mod pipeline;
pub mod provenance;
pub mod text;
pub mod transform;
pub mod transform_helper;

pub use crate::bindable::C2paBindable;
pub use crate::builder::{signed_record, uuid_from_bytes, C2paBuilder, Signer, TestSigner};
pub use crate::c2pa::{verify, C2pa, Unverified, VerificationState, Verified};
pub use crate::context::{CustomAssertion, TransformContext};
pub use crate::error::TransformError;
pub use crate::image::{HConcatTransform, Image, RedactTransform};
pub use crate::invoice::{Invoice, ParseTransform};
pub use crate::pipeline::{
    c2pa_pipeline,
    c2pa_source,
    c2pa_transform,
    c2pa_try_transform,
    has_ctx,
    with_ctx,
    with_new_ctx,
    PipelineScope,
    ScopeMisuse,
};
pub use crate::provenance::{
    AssetBinding,
    ClaimHash,
    ContentHash,
    IngredientRef,
    IngredientRelation,
    Provenance,
};
pub use crate::transform::{C2paComposite, C2paTransform, FnComposite, FnTransform};
