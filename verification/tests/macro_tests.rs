//! Transforms, sources and pipelines run through the scope combinators.

use c2pa_primitives::transform_helper::commit_param;
use c2pa_primitives::{
    c2pa_pipeline, c2pa_source, c2pa_transform, with_new_ctx, C2pa, C2paBuilder,
    IngredientRelation, PipelineScope, TestSigner, TransformError, Verified,
};

type Outcome<T> = Result<C2pa<T, Verified>, TransformError>;

fn triple(x: &u32) -> u32 {
    x * 3
}

fn triple_c2pa(scope: &mut PipelineScope, input: &C2pa<u32, Verified>) -> Outcome<u32> {
    if let Some(fault) = scope.misuse_on_use() {
        panic!("{}", fault.message());
    }
    c2pa_transform(scope, triple, input, "triple", "derivedFrom", Vec::new())
}

#[test]
fn test_macro_basic_transform() {
    let mut scope = PipelineScope::new();
    with_new_ctx(&mut scope, "test", |scope| {
        let source: C2pa<u32, Verified> = C2paBuilder::new(7u32)
            .generator("test")
            .sign(&TestSigner)
            .unwrap();

        let result = triple_c2pa(scope, &source).unwrap();

        assert_eq!(*result.payload(), 21);
        assert_eq!(result.provenance().ingredients.len(), 1);
        assert_eq!(
            result.provenance().ingredients[0].claim_hash,
            source.provenance().claim_hash
        );
    });
}

#[test]
fn test_macro_chain() {
    let mut scope = PipelineScope::new();
    with_new_ctx(&mut scope, "test", |scope| {
        let v1: C2pa<u32, Verified> = C2paBuilder::new(2u32)
            .generator("test")
            .sign(&TestSigner)
            .unwrap();

        let v2 = triple_c2pa(scope, &v1).unwrap();
        let v3 = triple_c2pa(scope, &v2).unwrap();

        assert_eq!(*v3.payload(), 18);

        assert_eq!(
            v3.provenance().ingredients[0].claim_hash,
            v2.provenance().claim_hash
        );
        assert_eq!(
            v2.provenance().ingredients[0].claim_hash,
            v1.provenance().claim_hash
        );
    });
}

#[derive(Debug, Clone)]
struct Offset {
    dx: i32,
    dy: i32,
}

fn shift_value(x: &i32, offset: Offset) -> i32 {
    x + offset.dx + offset.dy
}

fn shift_value_c2pa(
    scope: &mut PipelineScope,
    input: &C2pa<i32, Verified>,
    offset: Offset,
) -> Outcome<i32> {
    let param_commits = vec![commit_param("offset", format!("{:?}", &offset).as_bytes())];
    c2pa_transform(
        scope,
        |x: &i32| shift_value(x, offset),
        input,
        "shift",
        "derivedFrom",
        param_commits,
    )
}

#[test]
fn test_macro_param_commit() {
    let mut scope = PipelineScope::new();
    with_new_ctx(&mut scope, "test", |scope| {
        let source: C2pa<i32, Verified> = C2paBuilder::new(100i32)
            .generator("test")
            .sign(&TestSigner)
            .unwrap();

        let offset = Offset { dx: 5, dy: 10 };
        let result = shift_value_c2pa(scope, &source, offset).unwrap();

        assert_eq!(*result.payload(), 115);
        assert_eq!(result.provenance().ingredients.len(), 1);
    });
}

#[test]
fn test_macro_different_params_produce_different_results() {
    let mut scope = PipelineScope::new();
    with_new_ctx(&mut scope, "test", |scope| {
        let source: C2pa<i32, Verified> = C2paBuilder::new(100i32)
            .generator("test")
            .sign(&TestSigner)
            .unwrap();

        let offset1 = Offset { dx: 5, dy: 10 };
        let result1 = shift_value_c2pa(scope, &source, offset1).unwrap();

        let offset2 = Offset { dx: 99, dy: 99 };
        let result2 = shift_value_c2pa(scope, &source, offset2).unwrap();

        assert_ne!(
            result1.provenance().claim_hash,
            result2.provenance().claim_hash
        );
    });
}

#[derive(Debug, Clone)]
struct Scale {
    factor: f64,
}

fn transform_with_multiple(x: &i32, offset: Offset, scale: Scale) -> i32 {
    (((*x + offset.dx + offset.dy) as f64) * scale.factor) as i32
}

fn transform_with_multiple_c2pa(
    scope: &mut PipelineScope,
    input: &C2pa<i32, Verified>,
    offset: Offset,
    scale: Scale,
) -> Outcome<i32> {
    let param_commits = vec![
        commit_param("offset", format!("{:?}", &offset).as_bytes()),
        commit_param("scale", format!("{:?}", &scale).as_bytes()),
    ];
    c2pa_transform(
        scope,
        |x: &i32| transform_with_multiple(x, offset, scale),
        input,
        "transform_both",
        "derivedFrom",
        param_commits,
    )
}

#[test]
fn test_macro_multiple_param_commits() {
    let mut scope = PipelineScope::new();
    with_new_ctx(&mut scope, "test", |scope| {
        let source: C2pa<i32, Verified> = C2paBuilder::new(10i32)
            .generator("test")
            .sign(&TestSigner)
            .unwrap();

        let offset = Offset { dx: 5, dy: 5 };
        let scale = Scale { factor: 2.0 };
        let result = transform_with_multiple_c2pa(scope, &source, offset, scale).unwrap();

        assert_eq!(*result.payload(), 40);
    });
}

#[test]
fn test_original_function_still_works() {
    let value = 7u32;
    let result = triple(&value);
    assert_eq!(result, 21);

    let offset = Offset { dx: 1, dy: 2 };
    let result = shift_value(&100, offset);
    assert_eq!(result, 103);
}

fn parent_transform(x: &u32) -> u32 {
    x + 1
}

fn parent_transform_c2pa(scope: &mut PipelineScope, input: &C2pa<u32, Verified>) -> Outcome<u32> {
    c2pa_transform(scope, parent_transform, input, "parent_test", "parentOf", Vec::new())
}

fn component_transform(x: &u32) -> u32 {
    x + 2
}

fn component_transform_c2pa(
    scope: &mut PipelineScope,
    input: &C2pa<u32, Verified>,
) -> Outcome<u32> {
    c2pa_transform(scope, component_transform, input, "component_test", "componentOf", Vec::new())
}

#[test]
fn test_different_relationships() {
    let mut scope = PipelineScope::new();
    with_new_ctx(&mut scope, "test", |scope| {
        let source: C2pa<u32, Verified> = C2paBuilder::new(10u32)
            .generator("test")
            .sign(&TestSigner)
            .unwrap();

        let result1 = parent_transform_c2pa(scope, &source).unwrap();
        assert_eq!(
            result1.provenance().ingredients[0].relationship,
            IngredientRelation::ParentOf
        );

        let result2 = component_transform_c2pa(scope, &source).unwrap();
        assert_eq!(
            result2.provenance().ingredients[0].relationship,
            IngredientRelation::ComponentOf
        );
    });
}

fn origin_value() -> u32 {
    42
}

fn origin_value_c2pa(scope: &mut PipelineScope) -> Outcome<u32> {
    let payload = origin_value();
    c2pa_source(scope, payload, &TestSigner)
}

#[test]
fn test_source_creates_verified() {
    let mut scope = PipelineScope::new();
    with_new_ctx(&mut scope, "test", |scope| {
        let verified = origin_value_c2pa(scope).unwrap();
        assert_eq!(*verified.payload(), 42);
        assert_eq!(verified.provenance().ingredients.len(), 0);
    });
}

#[test]
fn test_source_and_transform_chain() {
    let mut scope = PipelineScope::new();
    with_new_ctx(&mut scope, "test", |scope| {
        let start = origin_value_c2pa(scope).unwrap();
        let result = triple_c2pa(scope, &start).unwrap();

        assert_eq!(*result.payload(), 126);
        assert_eq!(result.provenance().ingredients.len(), 1);
    });
}

fn run_pipeline(scope: &mut PipelineScope) -> Result<u32, TransformError> {
    c2pa_pipeline(scope, Some("pipeline_test"), |scope| {
        let start = origin_value_c2pa(scope)?;
        let result = triple_c2pa(scope, &start)?;
        Ok(*result.payload())
    })
}

#[test]
fn test_pipeline_basic() {
    let mut scope = PipelineScope::new();
    let result = run_pipeline(&mut scope).unwrap();
    assert_eq!(result, 126);
}

#[test]
#[should_panic(expected = "with_ctx called outside #[c2pa_pipeline]")]
fn test_transform_without_pipeline_panics() {
    let source: C2pa<u32, Verified> = C2paBuilder::new(1u32)
        .generator("test")
        .sign(&TestSigner)
        .unwrap();
    let mut scope = PipelineScope::new();
    let _ = triple_c2pa(&mut scope, &source);
}
