//! The invoice and image payloads and their transforms.

use c2pa_primitives::{
    verify, AssetBinding, C2pa, C2paBindable, C2paBuilder, C2paComposite, C2paTransform,
    ClaimHash, HConcatTransform, Image, IngredientRelation, Invoice, ParseTransform, Provenance,
    RedactTransform, TestSigner, TransformContext, TransformError, Verified,
};
use sha2::{Digest, Sha256};

fn sha256(parts: &[&[u8]]) -> [u8; 32] {
    let mut hasher = Sha256::new();
    for part in parts {
        hasher.update(part);
    }
    hasher.finalize().into()
}

fn signed_bytes(bytes: &[u8]) -> C2pa<Vec<u8>, Verified> {
    C2paBuilder::new(bytes.to_vec()).generator("source").sign(&TestSigner).unwrap()
}

fn signed_image(image: Image) -> C2pa<Image, Verified> {
    C2paBuilder::new(image).generator("camera").sign(&TestSigner).unwrap()
}

fn parse(bytes: &[u8]) -> Result<Invoice, String> {
    let input = signed_bytes(bytes);
    let mut ctx = TransformContext::new("parser");
    match ParseTransform::<Invoice>::new().transform(&input, &mut ctx) {
        Ok(invoice) => Ok(invoice.into_payload()),
        Err(TransformError::C2pa(detail)) => Err(detail),
        Err(other) => panic!("unexpected error {:?}", other),
    }
}

#[test]
fn invoice_text_is_identifier_colon_amount() {
    assert_eq!(Invoice { id: 42, amount: 1000 }.to_bytes(), b"42:1000");
    assert_eq!(Invoice { id: 0, amount: 0 }.to_bytes(), b"0:0");
    assert_eq!(Invoice { id: u32::MAX, amount: 7 }.to_bytes(), b"4294967295:7");
    assert_eq!(Invoice { id: 10, amount: 909 }.to_bytes(), b"10:909");
}

#[test]
fn invoice_is_hashed_as_its_text() {
    let invoice = Invoice { id: 42, amount: 1000 };
    assert_eq!(invoice.content_hash().0, sha256(&[b"42:1000"]));
    assert_eq!(invoice.media_type(), "application/x-invoice");
}

#[test]
fn verified_bytes_parse_into_an_invoice_derived_from_them() {
    let input = signed_bytes(b"42:1000");
    let mut ctx = TransformContext::new("parser");
    let invoice = ParseTransform::<Invoice>::default().transform(&input, &mut ctx).unwrap();
    assert_eq!(*invoice.payload(), Invoice { id: 42, amount: 1000 });
    assert_eq!(invoice.provenance().ingredients.len(), 1);
    assert_eq!(invoice.provenance().ingredients[0].claim_hash, input.provenance().claim_hash);
    assert_eq!(invoice.provenance().ingredients[0].relationship, IngredientRelation::DerivedFrom);
    let content = sha256(&[b"42:1000"]);
    assert_eq!(
        invoice.provenance().claim_hash.0,
        sha256(&[b"parser", &content, &input.provenance().claim_hash.0])
    );
}

#[test]
fn bytes_of_outside_origin_parse_after_verification() {
    let raw = b"42:1000".to_vec();
    let content_hash = raw.content_hash();
    let claim_hash = ClaimHash(sha256(&[b"external-source", &content_hash.0]));
    let unverified = C2pa::new(
        raw,
        Provenance::root(
            "urn:uuid:external-source",
            claim_hash.clone(),
            AssetBinding::Hash(content_hash),
        ),
    );
    let verified = verify(unverified, &claim_hash).unwrap();
    let mut ctx = TransformContext::new("demo/1.0");
    let invoice = ParseTransform::<Invoice>::new().transform(&verified, &mut ctx).unwrap();
    assert_eq!(*invoice.payload(), Invoice { id: 42, amount: 1000 });
    assert_eq!(invoice.provenance().ingredients[0].relationship.as_str(), "derivedFrom");
}

#[test]
fn invoice_numbers_follow_the_grammar_of_unsigned_decimals() {
    assert_eq!(parse(b"0:0"), Ok(Invoice { id: 0, amount: 0 }));
    assert_eq!(parse(b"007:010"), Ok(Invoice { id: 7, amount: 10 }));
    assert_eq!(parse(b"+5:+7"), Ok(Invoice { id: 5, amount: 7 }));
    assert_eq!(parse(b"4294967295:4294967295"), Ok(Invoice { id: u32::MAX, amount: u32::MAX }));
    assert_eq!(
        parse(b"00000000000000000000001:2"),
        Ok(Invoice { id: 1, amount: 2 })
    );
}

#[test]
fn invoice_parse_round_trips_the_text() {
    for invoice in [
        Invoice { id: 1, amount: 2 },
        Invoice { id: 4294967295, amount: 0 },
        Invoice { id: 1234567, amount: 890 },
    ] {
        assert_eq!(parse(&invoice.to_bytes()), Ok(invoice));
    }
}

#[test]
fn invalid_utf8_is_refused_first() {
    assert_eq!(parse(&[0xff, b':', b'1']), Err(String::from("invalid UTF-8")));
    assert_eq!(parse(&[b'1', b':', 0xc3]), Err(String::from("invalid UTF-8")));
    assert_eq!(parse(&[0x80]), Err(String::from("invalid UTF-8")));
}

#[test]
fn text_without_exactly_one_colon_is_no_invoice() {
    assert_eq!(parse(b""), Err(String::from("invalid invoice format")));
    assert_eq!(parse(b"42"), Err(String::from("invalid invoice format")));
    assert_eq!(parse(b"1:2:3"), Err(String::from("invalid invoice format")));
    assert_eq!(parse(b"::"), Err(String::from("invalid invoice format")));
    assert_eq!(parse("é".as_bytes()), Err(String::from("invalid invoice format")));
}

#[test]
fn bad_identifier_is_reported_before_bad_amount() {
    assert_eq!(parse(b":1"), Err(String::from("invalid id")));
    assert_eq!(parse(b"x:y"), Err(String::from("invalid id")));
    assert_eq!(parse(b"-1:1"), Err(String::from("invalid id")));
    assert_eq!(parse(b"+:1"), Err(String::from("invalid id")));
    assert_eq!(parse(b"++1:1"), Err(String::from("invalid id")));
    assert_eq!(parse(b" 1:1"), Err(String::from("invalid id")));
    assert_eq!(parse(b"4294967296:1"), Err(String::from("invalid id")));
    assert_eq!(parse(b"99999999999999999999999999:1"), Err(String::from("invalid id")));
    assert_eq!(parse("é:1".as_bytes()), Err(String::from("invalid id")));
}

#[test]
fn bad_amount_is_reported() {
    assert_eq!(parse(b"1:"), Err(String::from("invalid amount")));
    assert_eq!(parse(b"1:1 "), Err(String::from("invalid amount")));
    assert_eq!(parse(b"1:1.5"), Err(String::from("invalid amount")));
    assert_eq!(parse(b"1:4294967296"), Err(String::from("invalid amount")));
    assert_eq!(parse(b"1:1e3"), Err(String::from("invalid amount")));
}

#[test]
fn new_image_is_filled() {
    let image = Image::new(4, 3, 0xaa);
    assert_eq!(image.width, 4);
    assert_eq!(image.height, 3);
    assert_eq!(image.pixels, vec![0xaa; 12]);
    let empty = Image::new(0, 5, 1);
    assert!(empty.pixels.is_empty());
    assert_eq!(empty.get(0, 0), None);
}

#[test]
fn test_pattern_counts_modulo_256() {
    let image = Image::test_pattern(8, 4);
    assert_eq!(image.pixels, (0u8..32).collect::<Vec<u8>>());
    let large = Image::test_pattern(20, 20);
    assert_eq!(large.pixels[255], 255);
    assert_eq!(large.pixels[256], 0);
    assert_eq!(large.pixels[399], (399 % 256) as u8);
}

#[test]
fn get_and_set_address_pixels_row_by_row() {
    let mut image = Image::test_pattern(8, 4);
    assert_eq!(image.get(0, 0), Some(0));
    assert_eq!(image.get(7, 0), Some(7));
    assert_eq!(image.get(0, 1), Some(8));
    assert_eq!(image.get(3, 2), Some(19));
    assert_eq!(image.get(7, 3), Some(31));
    assert_eq!(image.get(8, 0), None);
    assert_eq!(image.get(0, 4), None);
    assert_eq!(image.get(u32::MAX, u32::MAX), None);

    image.set(3, 2, 200);
    assert_eq!(image.get(3, 2), Some(200));
    assert_eq!(image.pixels[19], 200);
    let before = image.clone();
    image.set(8, 0, 1);
    image.set(0, 4, 1);
    assert_eq!(image, before);
}

#[test]
fn image_is_hashed_as_width_height_and_pixels() {
    let image = Image::test_pattern(3, 2);
    let expected = sha256(&[&3u32.to_le_bytes(), &2u32.to_le_bytes(), &[0, 1, 2, 3, 4, 5]]);
    assert_eq!(image.content_hash().0, expected);
    assert_eq!(image.media_type(), "image/x-grayscale");
}

#[test]
fn redaction_blanks_the_rectangle_and_derives_from_the_source() {
    let source = signed_image(Image::test_pattern(8, 4));
    let mut ctx = TransformContext::new("editor");
    let redacted = RedactTransform::new(2, 1, 4, 2).transform(&source, &mut ctx).unwrap();

    let mut expected: Vec<u8> = (0u8..32).collect();
    for y in 1..3 {
        for x in 2..6 {
            expected[y * 8 + x] = 0;
        }
    }
    assert_eq!(redacted.payload().pixels, expected);
    assert_eq!(redacted.payload().width, 8);
    assert_eq!(redacted.payload().height, 4);
    assert_eq!(source.payload().pixels, (0u8..32).collect::<Vec<u8>>());

    assert_eq!(redacted.provenance().ingredients.len(), 1);
    assert_eq!(redacted.provenance().ingredients[0].claim_hash, source.provenance().claim_hash);
    assert_eq!(
        redacted.provenance().ingredients[0].relationship,
        IngredientRelation::DerivedFrom
    );
    assert_eq!(ctx.generator, "editor");
}

#[test]
fn redaction_ignores_what_lies_outside_the_image() {
    let source = signed_image(Image::new(4, 4, 9));
    let mut ctx = TransformContext::new("editor");

    let corner = RedactTransform::new(3, 3, 10, 10).transform(&source, &mut ctx).unwrap();
    let mut expected = vec![9u8; 16];
    expected[15] = 0;
    assert_eq!(corner.payload().pixels, expected);

    let outside = RedactTransform::new(4, 0, 2, 2).transform(&source, &mut ctx).unwrap();
    assert_eq!(outside.payload().pixels, vec![9u8; 16]);

    let huge = RedactTransform::new(1, 1, u32::MAX, u32::MAX)
        .transform(&source, &mut ctx)
        .unwrap();
    let mut expected = vec![9u8; 16];
    for y in 1..4 {
        for x in 1..4 {
            expected[y * 4 + x] = 0;
        }
    }
    assert_eq!(huge.payload().pixels, expected);

    let nothing = RedactTransform::new(0, 0, 0, 4).transform(&source, &mut ctx).unwrap();
    assert_eq!(nothing.payload().pixels, vec![9u8; 16]);
}

#[test]
fn concatenation_joins_rows_and_names_both_sources_in_order() {
    let a = C2paBuilder::new(Image::new(4, 3, 0xaa)).generator("camera-a/1.0").sign(&TestSigner).unwrap();
    let b = C2paBuilder::new(Image::new(2, 3, 0x55)).generator("camera-b/1.0").sign(&TestSigner).unwrap();
    let mut ctx = TransformContext::new("compositor/1.0");
    let composite = HConcatTransform.compose(&a, &b, &mut ctx).unwrap();

    assert_eq!(composite.payload().width, 6);
    assert_eq!(composite.payload().height, 3);
    let row = [0xaa, 0xaa, 0xaa, 0xaa, 0x55, 0x55];
    assert_eq!(composite.payload().pixels, [row, row, row].concat());
    assert_eq!(composite.payload().get(3, 2), Some(0xaa));
    assert_eq!(composite.payload().get(4, 2), Some(0x55));

    let ingredients = &composite.provenance().ingredients;
    assert_eq!(ingredients.len(), 2);
    assert_eq!(ingredients[0].claim_hash, a.provenance().claim_hash);
    assert_eq!(ingredients[1].claim_hash, b.provenance().claim_hash);
    assert_eq!(ingredients[0].relationship, IngredientRelation::ComposedFrom);
    assert_eq!(ingredients[1].relationship, IngredientRelation::ComposedFrom);
}

#[test]
fn concatenation_keeps_each_row_of_each_image() {
    let a = signed_image(Image::test_pattern(2, 2));
    let mut right = Image::new(3, 2, 0);
    for y in 0..2 {
        for x in 0..3 {
            right.set(x, y, 100 + (y * 3 + x) as u8);
        }
    }
    let b = signed_image(right);
    let mut ctx = TransformContext::new("compositor");
    let composite = HConcatTransform.compose(&a, &b, &mut ctx).unwrap();
    assert_eq!(composite.payload().pixels, vec![0, 1, 100, 101, 102, 2, 3, 103, 104, 105]);

    let swapped = HConcatTransform.compose(&b, &a, &mut ctx).unwrap();
    assert_eq!(swapped.payload().pixels, vec![100, 101, 102, 0, 1, 103, 104, 105, 2, 3]);
    assert_ne!(swapped.provenance().claim_hash, composite.provenance().claim_hash);
}

#[test]
fn concatenation_of_different_heights_is_refused() {
    let a = signed_image(Image::new(4, 3, 1));
    let b = signed_image(Image::new(4, 2, 1));
    let mut ctx = TransformContext::new("compositor");
    match HConcatTransform.compose(&a, &b, &mut ctx) {
        Err(TransformError::C2pa(detail)) => assert_eq!(detail, "height mismatch"),
        other => panic!("unexpected outcome {:?}", other.map(|v| v.into_payload())),
    }
}

#[test]
fn concatenation_of_empty_images_is_empty() {
    let a = signed_image(Image::new(0, 0, 1));
    let b = signed_image(Image::new(3, 0, 1));
    let mut ctx = TransformContext::new("compositor");
    let composite = HConcatTransform.compose(&a, &b, &mut ctx).unwrap();
    assert_eq!(composite.payload().width, 3);
    assert_eq!(composite.payload().height, 0);
    assert!(composite.payload().pixels.is_empty());
}
