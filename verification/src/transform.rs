//! Transforms and composites: operations that take verified values to a
//! new verified value whose record names the inputs as its ingredients.

use crate::bindable::C2paBindable;
use crate::builder::{BuilderView, C2paBuilder};
use crate::c2pa::{C2pa, Verified};
use crate::context::{same_run, TransformContext};
use crate::error::TransformError;
use crate::provenance::{IngredientRelation, Provenance};
use crate::transform_helper::reference_to;
use std::marker::PhantomData;
use vstd::prelude::*;
use vstd::string::StringExecFns;

verus! {

/// Whether `child` names exactly one parent, and that parent is `parent`:
/// by its claim hash and its asset binding.
pub open spec fn derives_from(child: &Provenance, parent: &Provenance) -> bool {
    &&& child.ingredients@.len() == 1
    &&& child.ingredients@[0].claim_hash == parent.claim_hash
    &&& child.ingredients@[0].asset_binding == parent.asset_binding
}

/// Whether `child` names exactly two parents, `first` and then `second`.
pub open spec fn composed_from(child: &Provenance, first: &Provenance, second: &Provenance) -> bool {
    &&& child.ingredients@.len() == 2
    &&& child.ingredients@[0].claim_hash == first.claim_hash
    &&& child.ingredients@[0].asset_binding == first.asset_binding
    &&& child.ingredients@[1].claim_hash == second.claim_hash
    &&& child.ingredients@[1].asset_binding == second.asset_binding
}

/// A transformation from a verified input to a verified output.
///
/// Whatever the transformation computes, the record of its output names the
/// input as its only ingredient, and the settings of the run stay. An
/// implementation that is not verified is taken at its word for this.
pub trait C2paTransform<I: C2paBindable, O: C2paBindable> {
    /// The inputs that the transformation is defined on: all of them,
    /// unless an implementation says otherwise.
    open spec fn accepts(&self, input: &I) -> bool {
        true
    }

    /// Transforms the payload of `input` and signs the result.
    fn transform(&self, input: &C2pa<I, Verified>, ctx: &mut TransformContext) -> (outcome: Result<
        C2pa<O, Verified>,
        TransformError,
    >)
        requires
            self.accepts(input.payload()),
        ensures
            outcome matches Ok(output) ==> derives_from(output.provenance(), input.provenance()),
            same_run(old(ctx), final(ctx)),
    ;
}

/// A transform that applies a function to the payload.
#[verifier::reject_recursive_types(F)]
#[verifier::reject_recursive_types(I)]
#[verifier::reject_recursive_types(O)]
pub struct FnTransform<F, I, O> where F: Fn(&I) -> O, I: C2paBindable, O: C2paBindable {
    func: F,
    _action_label: String,
    _phantom: PhantomData<(I, O)>,
}

impl<F, I, O> FnTransform<F, I, O> where F: Fn(&I) -> O, I: C2paBindable, O: C2paBindable {
    /// The function that the transform applies.
    pub closed spec fn func(&self) -> F {
        self.func
    }

    /// The label of the action that the transform performs.
    pub closed spec fn action_label(&self) -> Seq<char> {
        self._action_label@
    }

    /// A transform that applies `func`, under the given action label.
    pub fn new(func: F, action_label: &str) -> (transform: Self)
        ensures
            transform.func() == func,
            transform.action_label() == action_label@,
    {
        FnTransform { func, _action_label: String::from_str(action_label), _phantom: PhantomData }
    }
}

impl<F, I, O> C2paTransform<I, O> for FnTransform<F, I, O> where
    F: Fn(&I) -> O,
    I: C2paBindable,
    O: C2paBindable,
 {
    open spec fn accepts(&self, input: &I) -> bool {
        call_requires(self.func(), (input,))
    }

    /// Applies the function and signs its result under the context's
    /// generator label, with the input as parent. The context is left as it
    /// was, and the call never fails.
    fn transform(&self, input: &C2pa<I, Verified>, ctx: &mut TransformContext) -> (outcome: Result<
        C2pa<O, Verified>,
        TransformError,
    >)
        ensures
            outcome matches Ok(output) && call_ensures(
                self.func(),
                (input.payload(),),
                *output.payload(),
            ) && (BuilderView {
                payload: *output.payload(),
                ingredients: seq![reference_to(input, IngredientRelation::ParentOf)],
                generator: old(ctx).generator@,
                assertions: Seq::empty(),
            }).signs_to(output.provenance()),
            *final(ctx) == *old(ctx),
    {
        let output = (self.func)(input.payload());
        let builder = C2paBuilder::new(output).generator(ctx.generator.as_str()).add_ingredient(
            input,
            IngredientRelation::ParentOf,
        );
        assert(builder@.ingredients =~= seq![reference_to(input, IngredientRelation::ParentOf)]);
        builder.sign_with_test_signer()
    }
}

/// A composition of two verified inputs into one verified output.
///
/// The record of the output names both inputs as its ingredients, in the
/// order of the arguments, and the settings of the run stay. An
/// implementation that is not verified is taken at its word for this.
pub trait C2paComposite<A: C2paBindable, B: C2paBindable, O: C2paBindable> {
    /// The pairs of inputs that the composition is defined on: all of
    /// them, unless an implementation says otherwise.
    open spec fn accepts(&self, a: &A, b: &B) -> bool {
        true
    }

    /// Composes the payloads of `a` and `b` and signs the result.
    fn compose(
        &self,
        a: &C2pa<A, Verified>,
        b: &C2pa<B, Verified>,
        ctx: &mut TransformContext,
    ) -> (outcome: Result<C2pa<O, Verified>, TransformError>)
        requires
            self.accepts(a.payload(), b.payload()),
        ensures
            outcome matches Ok(output) ==> composed_from(
                output.provenance(),
                a.provenance(),
                b.provenance(),
            ),
            same_run(old(ctx), final(ctx)),
    ;
}

/// A composite that applies a function to the two payloads.
#[verifier::reject_recursive_types(F)]
#[verifier::reject_recursive_types(A)]
#[verifier::reject_recursive_types(B)]
#[verifier::reject_recursive_types(O)]
pub struct FnComposite<F, A, B, O> where
    F: Fn(&A, &B) -> O,
    A: C2paBindable,
    B: C2paBindable,
    O: C2paBindable,
 {
    func: F,
    _phantom: PhantomData<(A, B, O)>,
}

impl<F, A, B, O> FnComposite<F, A, B, O> where
    F: Fn(&A, &B) -> O,
    A: C2paBindable,
    B: C2paBindable,
    O: C2paBindable,
 {
    /// The function that the composite applies.
    pub closed spec fn func(&self) -> F {
        self.func
    }

    /// A composite that applies `func`.
    pub fn new(func: F) -> (composite: Self)
        ensures
            composite.func() == func,
    {
        FnComposite { func, _phantom: PhantomData }
    }
}

impl<F, A, B, O> C2paComposite<A, B, O> for FnComposite<F, A, B, O> where
    F: Fn(&A, &B) -> O,
    A: C2paBindable,
    B: C2paBindable,
    O: C2paBindable,
 {
    open spec fn accepts(&self, a: &A, b: &B) -> bool {
        call_requires(self.func(), (a, b))
    }

    /// Applies the function and signs its result under the context's
    /// generator label, with `a` and then `b` as the parts it was composed
    /// from. The context is left as it was, and the call never fails.
    fn compose(
        &self,
        a: &C2pa<A, Verified>,
        b: &C2pa<B, Verified>,
        ctx: &mut TransformContext,
    ) -> (outcome: Result<C2pa<O, Verified>, TransformError>)
        ensures
            outcome matches Ok(output) && call_ensures(
                self.func(),
                (a.payload(), b.payload()),
                *output.payload(),
            ) && (BuilderView {
                payload: *output.payload(),
                ingredients: seq![
                    reference_to(a, IngredientRelation::ComposedFrom),
                    reference_to(b, IngredientRelation::ComposedFrom),
                ],
                generator: old(ctx).generator@,
                assertions: Seq::empty(),
            }).signs_to(output.provenance()),
            *final(ctx) == *old(ctx),
    {
        let output = (self.func)(a.payload(), b.payload());
        let builder = C2paBuilder::new(output).generator(ctx.generator.as_str()).add_ingredient(
            a,
            IngredientRelation::ComposedFrom,
        ).add_ingredient(b, IngredientRelation::ComposedFrom);
        assert(builder@.ingredients =~= seq![
            reference_to(a, IngredientRelation::ComposedFrom),
            reference_to(b, IngredientRelation::ComposedFrom),
        ]);
        builder.sign_with_test_signer()
    }
}

} // verus!
