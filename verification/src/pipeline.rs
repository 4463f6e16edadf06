//! The pipeline scope: the one slot of an execution unit that holds the
//! context of the pipeline run that is active on it.

use crate::bindable::C2paBindable;
use crate::builder::{BuilderView, C2paBuilder, Signer};
use crate::c2pa::{C2pa, Verified};
use crate::context::{records_transform, TransformContext};
use crate::error::TransformError;
use crate::provenance::IngredientRelation;
use crate::transform_helper::{build_transform_result, transform_claim};
use vstd::prelude::*;

verus! {

/// The two ways of misusing a pipeline scope. Both are faults of the call
/// graph, not of data, and are kept apart from the recoverable errors: a
/// caller outside verification tests for them and aborts with the message.
#[derive(Debug, Clone, Copy, PartialEq, Eq, Structural)]
pub enum ScopeMisuse {
    /// A pipeline was opened while another was active on the same slot.
    Nested,
    /// A transform was run while no pipeline was active.
    Outside,
}

impl ScopeMisuse {
    /// The message that goes with the fault.
    pub open spec fn text(&self) -> Seq<char> {
        match self {
            ScopeMisuse::Nested => "c2pa_pipeline cannot be nested"@,
            ScopeMisuse::Outside => "with_ctx called outside #[c2pa_pipeline]"@,
        }
    }

    /// The message that goes with the fault.
    pub fn message(&self) -> (text: &'static str)
        ensures
            text@ == self.text(),
    {
        match self {
            ScopeMisuse::Nested => "c2pa_pipeline cannot be nested",
            ScopeMisuse::Outside => "with_ctx called outside #[c2pa_pipeline]",
        }
    }
}

/// The slot of one execution unit. It holds at most one context: that of
/// the pipeline run that is active, if one is.
#[derive(Debug)]
pub struct PipelineScope {
    current: Option<TransformContext>,
}

impl PipelineScope {
    /// The context of the active run, if a run is active.
    pub closed spec fn active(&self) -> Option<TransformContext> {
        self.current
    }

    /// An empty slot.
    pub fn new() -> (scope: Self)
        ensures
            scope.active() is None,
    {
        PipelineScope { current: None }
    }

    /// The fault that opening a pipeline on this slot would be, if any.
    pub fn misuse_on_open(&self) -> (fault: Option<ScopeMisuse>)
        ensures
            fault == (if self.active() is Some {
                Some(ScopeMisuse::Nested)
            } else {
                None
            }),
    {
        if self.current.is_some() {
            Some(ScopeMisuse::Nested)
        } else {
            None
        }
    }

    /// The fault that running a transform on this slot would be, if any.
    pub fn misuse_on_use(&self) -> (fault: Option<ScopeMisuse>)
        ensures
            fault == (if self.active() is None {
                Some(ScopeMisuse::Outside)
            } else {
                None
            }),
    {
        if self.current.is_none() {
            Some(ScopeMisuse::Outside)
        } else {
            None
        }
    }
}

/// Whether a pipeline run is active on the slot.
pub fn has_ctx(scope: &PipelineScope) -> (active: bool)
    ensures
        active == scope.active() is Some,
{
    scope.current.is_some()
}

/// Opens a pipeline run on the slot, runs `f` in it and closes it.
///
/// No run may be active on the slot: pipelines do not nest. `f` finds the
/// slot holding a fresh context for `generator`. When `f` returns, on
/// whichever path, the slot is empty again, and the result of `f` is the
/// result of the call.
pub fn with_new_ctx<F, R>(scope: &mut PipelineScope, generator: &str, f: F) -> (result: R) where
    F: FnOnce(&mut PipelineScope) -> R,

    requires
        old(scope).active() is None,
        forall|inner: &mut PipelineScope|
            (inner.active() matches Some(ctx) && ctx.fresh(generator@)) ==> f.requires((inner,)),
    ensures
        final(scope).active() is None,
        exists|inner: &mut PipelineScope|
            (inner.active() matches Some(ctx) && ctx.fresh(generator@)) && f.ensures(
                (inner,),
                result,
            ),
{
    scope.current = Some(TransformContext::new(generator));
    let ghost opened = *scope;
    let result = f(scope);
    assert(exists|inner: &mut PipelineScope|
        mut_ref_current(inner) == opened && f.ensures((inner,), result));
    scope.current = None;
    result
}

/// Runs `f` on the context of the active run.
///
/// A run must be active on the slot. `f` may change the context; the slot
/// then holds the context as `f` left it, and the run stays active.
pub fn with_ctx<F, R>(scope: &mut PipelineScope, f: F) -> (result: R) where
    F: FnOnce(&mut TransformContext) -> R,

    requires
        old(scope).active() is Some,
        forall|ctx: &mut TransformContext| *ctx == old(scope).active()->0 ==> f.requires((ctx,)),
    ensures
        final(scope).active() is Some,
        exists|ctx: &mut TransformContext|
            *ctx == old(scope).active()->0 && *final(ctx) == final(scope).active()->0 && f.ensures(
                (ctx,),
                result,
            ),
{
    match &mut scope.current {
        Some(ctx) => f(ctx),
        None => vstd::pervasive::unreached(),
    }
}

/// The generator label of a pipeline that names none.
pub open spec fn default_generator() -> Seq<char> {
    "c2pa_pipeline"@
}

/// Runs `body` as a pipeline: in a run of its own on the slot, under the
/// given generator label, or under `c2pa_pipeline` where none is given.
pub fn c2pa_pipeline<F, R>(scope: &mut PipelineScope, generator: Option<&str>, body: F) -> (result:
    R) where F: FnOnce(&mut PipelineScope) -> R
    requires
        old(scope).active() is None,
        forall|inner: &mut PipelineScope|
            (inner.active() matches Some(ctx) && ctx.fresh(
                match generator {
                    Some(label) => label@,
                    None => default_generator(),
                },
            )) ==> body.requires((inner,)),
    ensures
        final(scope).active() is None,
        exists|inner: &mut PipelineScope|
            (inner.active() matches Some(ctx) && ctx.fresh(
                match generator {
                    Some(label) => label@,
                    None => default_generator(),
                },
            )) && body.ensures((inner,), result),
{
    match generator {
        Some(label) => with_new_ctx(scope, label, body),
        None => with_new_ctx(scope, "c2pa_pipeline", body),
    }
}

/// Signs `payload` as an origin of the active run: a root record, under the
/// run's generator label, without assertions. The signer decides between
/// success and a signing error.
pub fn c2pa_source<T: C2paBindable>(
    scope: &PipelineScope,
    payload: T,
    signer: &dyn Signer,
) -> (outcome: Result<C2pa<T, Verified>, TransformError>)
    requires
        scope.active() is Some,
    ensures
        outcome matches Ok(origin) ==> *origin.payload() == payload && (BuilderView {
            payload,
            ingredients: Seq::empty(),
            generator: scope.active()->0.generator@,
            assertions: Seq::empty(),
        }).signs_to(origin.provenance()) && origin.provenance().is_root(),
        outcome matches Err(failure) ==> failure is Signing,
{
    match &scope.current {
        Some(ctx) => C2paBuilder::new(payload).generator(ctx.generator.as_str()).sign(signer),
        None => vstd::pervasive::unreached(),
    }
}

/// Runs a plain function as a transform of the active run.
///
/// The function is applied to the payload of `input`; its output is signed
/// as `build_transform_result` says, under the relation that the label
/// names (`derivedFrom` where it names none), and the transform is recorded
/// in the context of the run. The call never fails.
pub fn c2pa_transform<I, O, F>(
    scope: &mut PipelineScope,
    func: F,
    input: &C2pa<I, Verified>,
    name: &str,
    relationship: &str,
    param_commits: Vec<(String, [u8; 32])>,
) -> (outcome: Result<C2pa<O, Verified>, TransformError>) where
    I: C2paBindable,
    O: C2paBindable,
    F: FnOnce(&I) -> O,

    requires
        old(scope).active() is Some,
        call_requires(func, (input.payload(),)),
    ensures
        outcome matches Ok(result) && call_ensures(func, (input.payload(),), *result.payload())
            && transform_claim(
            *result.payload(),
            input,
            name@,
            IngredientRelation::named_by(relationship@),
            param_commits@,
            old(scope).active()->0.generator@,
        ).signs_to(result.provenance()),
        final(scope).active() matches Some(after) && records_transform(
            &old(scope).active()->0,
            &after,
            name@,
            param_commits@,
        ),
{
    let output = func(input.payload());
    let relation = IngredientRelation::from_label(relationship);
    match &mut scope.current {
        Some(ctx) => build_transform_result(output, input, name, relation, param_commits, ctx),
        None => vstd::pervasive::unreached(),
    }
}

/// Runs a function that can fail as a transform of the active run.
///
/// Where the function fails, its message comes back as an error of the
/// derivation kind, and nothing is signed or recorded. Where it succeeds,
/// the call goes on as `c2pa_transform` does.
pub fn c2pa_try_transform<I, O, F>(
    scope: &mut PipelineScope,
    func: F,
    input: &C2pa<I, Verified>,
    name: &str,
    relationship: &str,
    param_commits: Vec<(String, [u8; 32])>,
) -> (outcome: Result<C2pa<O, Verified>, TransformError>) where
    I: C2paBindable,
    O: C2paBindable,
    F: FnOnce(&I) -> Result<O, String>,

    requires
        old(scope).active() is Some,
        call_requires(func, (input.payload(),)),
    ensures
        match outcome {
            Ok(result) => {
                &&& call_ensures(func, (input.payload(),), Ok(*result.payload()))
                &&& transform_claim(
                    *result.payload(),
                    input,
                    name@,
                    IngredientRelation::named_by(relationship@),
                    param_commits@,
                    old(scope).active()->0.generator@,
                ).signs_to(result.provenance())
                &&& final(scope).active() matches Some(after) && records_transform(
                    &old(scope).active()->0,
                    &after,
                    name@,
                    param_commits@,
                )
            },
            Err(failure) => {
                &&& failure matches TransformError::C2pa(detail) && call_ensures(
                    func,
                    (input.payload(),),
                    Err(detail),
                )
                &&& *final(scope) == *old(scope)
            },
        },
{
    match func(input.payload()) {
        Err(message) => Err(TransformError::C2pa(message)),
        Ok(output) => {
            let relation = IngredientRelation::from_label(relationship);
            match &mut scope.current {
                Some(ctx) => build_transform_result(
                    output,
                    input,
                    name,
                    relation,
                    param_commits,
                    ctx,
                ),
                None => vstd::pervasive::unreached(),
            }
        },
    }
}

} // verus!
