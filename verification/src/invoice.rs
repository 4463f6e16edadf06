//! An invoice as a payload, and the transform that parses one from
//! verified bytes.

use crate::bindable::C2paBindable;
use crate::builder::{BuilderView, C2paBuilder};
use crate::c2pa::{C2pa, Verified};
use crate::context::TransformContext;
use crate::error::TransformError;
use crate::provenance::{ContentHash, IngredientRelation};
use crate::transform::C2paTransform;
use crate::transform_helper::reference_to;
use std::marker::PhantomData;
use vstd::prelude::*;
use vstd::slice::slice_subrange;
use vstd::string::StringExecFns;
use vstd::utf8::{
    encode_utf8,
    encode_utf8_valid_utf8,
    is_ascii_chars,
    is_ascii_chars_encode_utf8,
    valid_utf8,
};

verus! {

/// The byte of the colon that separates the two numbers of an invoice.
pub open spec fn separator() -> u8 {
    58
}

/// The decimal digits of `n` in ASCII, without leading zeros.
pub open spec fn decimal_digits(n: nat) -> Seq<u8>
    decreases n,
{
    if n < 10 {
        seq![(48 + n) as u8]
    } else {
        decimal_digits(n / 10).push((48 + n % 10) as u8)
    }
}

/// Whether `text` is one or more ASCII digits.
pub open spec fn is_digits(text: Seq<u8>) -> bool {
    text.len() > 0 && forall|i: int| 0 <= i < text.len() ==> 48 <= #[trigger] text[i] <= 57
}

/// The number that a text of ASCII digits denotes.
pub open spec fn digits_value(text: Seq<u8>) -> nat
    decreases text.len(),
{
    if text.len() == 0 {
        0
    } else {
        digits_value(text.drop_last()) * 10 + (text.last() - 48) as nat
    }
}

/// The number that `text` denotes as a `u32`: an optional `+`, then one or
/// more digits whose value fits. Anything else denotes no number.
pub open spec fn parse_u32(text: Seq<u8>) -> Option<u32> {
    let digits = if text.len() > 0 && text[0] == 43 {
        text.drop_first()
    } else {
        text
    };
    if is_digits(digits) && digits_value(digits) <= u32::MAX {
        Some(digits_value(digits) as u32)
    } else {
        None
    }
}

/// Whether `i` is the place of the one and only colon in `bytes`.
pub open spec fn splits_at(bytes: Seq<u8>, i: int) -> bool {
    &&& 0 <= i < bytes.len()
    &&& bytes[i] == separator()
    &&& forall|j: int| 0 <= j < bytes.len() && j != i ==> #[trigger] bytes[j] != separator()
}

/// What parsing an invoice from `bytes` gives: the two numbers, or the
/// detail of the failure.
///
/// The bytes must be UTF-8 and hold exactly one colon; the text before it
/// is the identifier and the text after it the amount, each a `u32`.
pub open spec fn parse_invoice(bytes: Seq<u8>) -> Result<(u32, u32), Seq<char>> {
    if !valid_utf8(bytes) {
        Err("invalid UTF-8"@)
    } else if !exists|i: int| splits_at(bytes, i) {
        Err("invalid invoice format"@)
    } else {
        let at = choose|i: int| splits_at(bytes, i);
        match parse_u32(bytes.subrange(0, at)) {
            None => Err("invalid id"@),
            Some(id) => match parse_u32(bytes.subrange(at + 1, bytes.len() as int)) {
                None => Err("invalid amount"@),
                Some(amount) => Ok((id, amount)),
            },
        }
    }
}

/// Calls `std::str::from_utf8` on `bytes` and says whether it succeeded.
///
/// Trusted: the call succeeds exactly on the byte strings that are valid
/// UTF-8.
#[verifier::external_body]
fn is_utf8(bytes: &[u8]) -> (valid: bool)
    ensures
        valid == valid_utf8(bytes@),
{
    std::str::from_utf8(bytes).is_ok()
}

/// Appends the decimal digits of `n` to `buf`.
fn push_decimal(buf: &mut Vec<u8>, n: u32)
    ensures
        final(buf)@ == old(buf)@ + decimal_digits(n as nat),
    decreases n,
{
    if n < 10 {
        buf.push(48 + n as u8);
        assert(buf@ =~= old(buf)@ + decimal_digits(n as nat));
    } else {
        push_decimal(buf, n / 10);
        buf.push(48 + (n % 10) as u8);
        assert(buf@ =~= old(buf)@ + decimal_digits(n as nat));
    }
}

/// Reads a `u32` from its decimal text.
fn read_u32(text: &[u8]) -> (number: Option<u32>)
    ensures
        number == parse_u32(text@),
{
    let start: usize = if text.len() > 0 && text[0] == 43 {
        1
    } else {
        0
    };
    let ghost digits = text@.subrange(start as int, text@.len() as int);
    assert(digits =~= if text@.len() > 0 && text@[0] == 43 {
        text@.drop_first()
    } else {
        text@
    });
    if start == text.len() {
        return None;
    }
    let mut value: u64 = 0;
    let mut overflow: bool = false;
    let mut i: usize = start;
    while i < text.len()
        invariant
            start <= i <= text@.len(),
            digits == text@.subrange(start as int, text@.len() as int),
            digits == (if text@.len() > 0 && text@[0] == 43 {
                text@.drop_first()
            } else {
                text@
            }),
            forall|j: int| 0 <= j < i - start ==> 48 <= #[trigger] digits[j] <= 57,
            !overflow ==> value == digits_value(digits.take(i - start)) && value <= u32::MAX,
            overflow ==> digits_value(digits.take(i - start)) > u32::MAX,
        decreases text@.len() - i,
    {
        let byte: u8 = text[i];
        if byte < 48 || byte > 57 {
            assert(digits[i - start] == byte);
            return None;
        }
        proof {
            assert(digits.take(i - start + 1).drop_last() =~= digits.take(i - start));
            assert(digits.take(i - start + 1).last() == byte);
        }
        if !overflow {
            value = value * 10 + (byte - 48) as u64;
            if value > 0xffff_ffff {
                overflow = true;
            }
        }
        i += 1;
    }
    assert(digits.take(i - start) =~= digits);
    if overflow {
        None
    } else {
        Some(value as u32)
    }
}

/// An invoice: an identifier and an amount.
#[derive(Debug, Clone, PartialEq)]
pub struct Invoice {
    pub id: u32,
    pub amount: u32,
}

impl Invoice {
    /// The text of the invoice: identifier, colon, amount, in decimal.
    pub open spec fn text(&self) -> Seq<u8> {
        decimal_digits(self.id as nat).push(separator()) + decimal_digits(self.amount as nat)
    }

    /// Encodes the invoice as its text.
    pub fn to_bytes(&self) -> (bytes: Vec<u8>)
        ensures
            bytes@ == self.text(),
    {
        let mut bytes: Vec<u8> = Vec::new();
        push_decimal(&mut bytes, self.id);
        bytes.push(58);
        push_decimal(&mut bytes, self.amount);
        assert(bytes@ =~= self.text());
        bytes
    }

    /// Parses an invoice from its text.
    pub(crate) fn from_bytes(bytes: &[u8]) -> (parsed: Result<Invoice, TransformError>)
        ensures
            match parse_invoice(bytes@) {
                Ok(numbers) => parsed matches Ok(invoice) && invoice.id == numbers.0
                    && invoice.amount == numbers.1,
                Err(reason) => parsed matches Err(TransformError::C2pa(detail)) && detail@
                    == reason,
            },
    {
        if !is_utf8(bytes) {
            return Err(TransformError::C2pa(String::from_str("invalid UTF-8")));
        }
        let mut found: Option<usize> = None;
        let mut i: usize = 0;
        while i < bytes.len()
            invariant
                i <= bytes@.len(),
                valid_utf8(bytes@),
                match found {
                    None => forall|j: int| 0 <= j < i ==> #[trigger] bytes@[j] != separator(),
                    Some(at) => at < i && bytes@[at as int] == separator() && forall|j: int|
                        0 <= j < i && j != at ==> #[trigger] bytes@[j] != separator(),
                },
            decreases bytes@.len() - i,
        {
            if bytes[i] == 58 {
                match found {
                    Some(at) => {
                        assert forall|k: int| !splits_at(bytes@, k) by {
                            if splits_at(bytes@, k) {
                                assert(bytes@[at as int] == separator());
                                assert(bytes@[i as int] == separator());
                            }
                        }
                        return Err(
                            TransformError::C2pa(String::from_str("invalid invoice format")),
                        );
                    },
                    None => {
                        found = Some(i);
                    },
                }
            }
            i += 1;
        }
        match found {
            None => {
                assert forall|k: int| !splits_at(bytes@, k) by {
                    if splits_at(bytes@, k) {
                        assert(bytes@[k] == separator());
                    }
                }
                Err(TransformError::C2pa(String::from_str("invalid invoice format")))
            },
            Some(at) => {
                proof {
                    assert(splits_at(bytes@, at as int));
                    let chosen = choose|k: int| splits_at(bytes@, k);
                    assert(bytes@[at as int] == separator());
                    assert(chosen == at);
                }
                match read_u32(slice_subrange(bytes, 0, at)) {
                    None => Err(TransformError::C2pa(String::from_str("invalid id"))),
                    Some(id) => match read_u32(slice_subrange(bytes, at + 1, bytes.len())) {
                        None => Err(TransformError::C2pa(String::from_str("invalid amount"))),
                        Some(amount) => Ok(Invoice { id, amount }),
                    },
                }
            },
        }
    }
}

impl C2paBindable for Invoice {
    /// The text of the invoice.
    open spec fn canonical_bytes(&self) -> Seq<u8> {
        self.text()
    }

    fn content_hash(&self) -> (hash: ContentHash) {
        ContentHash::compute(self.to_bytes().as_slice())
    }

    fn media_type(&self) -> (label: &str)
        ensures
            label@ == "application/x-invoice"@,
    {
        "application/x-invoice"
    }
}

/// A transform that parses verified bytes into a value of type `T`. It
/// takes verified input only: bytes of outside origin have to be verified
/// before they can be parsed.
#[verifier::reject_recursive_types(T)]
pub struct ParseTransform<T> {
    _phantom: PhantomData<T>,
}

impl<T> ParseTransform<T> {
    /// A parsing transform.
    pub fn new() -> Self {
        ParseTransform { _phantom: PhantomData }
    }
}

impl<T> Default for ParseTransform<T> {
    fn default() -> Self {
        Self::new()
    }
}

impl C2paTransform<Vec<u8>, Invoice> for ParseTransform<Invoice> {
    /// Parses the bytes as an invoice and signs it under the context's
    /// generator label, as derived from the input. Bytes that are no
    /// invoice are refused with the detail that parsing gives, before
    /// anything is signed. The context is left as it was.
    fn transform(&self, input: &C2pa<Vec<u8>, Verified>, ctx: &mut TransformContext) -> (outcome:
        Result<C2pa<Invoice, Verified>, TransformError>)
        ensures
            match parse_invoice(input.payload()@) {
                Ok(numbers) => outcome matches Ok(output) && output.payload().id == numbers.0
                    && output.payload().amount == numbers.1 && (BuilderView {
                    payload: *output.payload(),
                    ingredients: seq![reference_to(input, IngredientRelation::DerivedFrom)],
                    generator: old(ctx).generator@,
                    assertions: Seq::empty(),
                }).signs_to(output.provenance()),
                Err(reason) => outcome matches Err(TransformError::C2pa(detail)) && detail@
                    == reason,
            },
            *final(ctx) == *old(ctx),
    {
        match Invoice::from_bytes(input.payload().as_slice()) {
            Err(failure) => Err(failure),
            Ok(invoice) => {
                let builder = C2paBuilder::new(invoice).generator(
                    ctx.generator.as_str(),
                ).add_ingredient(input, IngredientRelation::DerivedFrom);
                assert(builder@.ingredients =~= seq![
                    reference_to(input, IngredientRelation::DerivedFrom),
                ]);
                builder.sign_with_test_signer()
            },
        }
    }
}

/// The decimal digits of a number are digits, and denote the number.
pub proof fn lemma_decimal_digits_denote(n: nat)
    ensures
        is_digits(decimal_digits(n)),
        digits_value(decimal_digits(n)) == n,
    decreases n,
{
    if n < 10 {
        assert(decimal_digits(n).drop_last() =~= Seq::<u8>::empty());
        assert(digits_value(decimal_digits(n).drop_last()) == 0);
    } else {
        lemma_decimal_digits_denote(n / 10);
        assert(decimal_digits(n).drop_last() =~= decimal_digits(n / 10));
    }
}

/// A byte string below 128 throughout is valid UTF-8.
pub proof fn lemma_ascii_is_utf8(bytes: Seq<u8>)
    requires
        forall|i: int| 0 <= i < bytes.len() ==> bytes[i] < 128,
    ensures
        valid_utf8(bytes),
{
    let chars = Seq::new(bytes.len(), |i: int| bytes[i] as char);
    assert(is_ascii_chars(chars));
    is_ascii_chars_encode_utf8(chars);
    assert(encode_utf8(chars) =~= bytes);
    encode_utf8_valid_utf8(chars);
}

/// Round trip: parsing the text of an invoice gives back its two numbers.
pub proof fn lemma_invoice_text_parses(invoice: Invoice)
    ensures
        parse_invoice(invoice.text()) == Ok::<(u32, u32), Seq<char>>((invoice.id, invoice.amount)),
{
    let id = decimal_digits(invoice.id as nat);
    let amount = decimal_digits(invoice.amount as nat);
    let text = invoice.text();
    let at = id.len() as int;
    lemma_decimal_digits_denote(invoice.id as nat);
    lemma_decimal_digits_denote(invoice.amount as nat);
    assert forall|i: int| 0 <= i < text.len() implies text[i] < 128 && (i != at ==> text[i]
        != separator()) by {
        if i < at {
            assert(text[i] == id[i]);
        } else if i > at {
            assert(text[i] == amount[i - at - 1]);
        }
    }
    lemma_ascii_is_utf8(text);
    assert(splits_at(text, at));
    let chosen = choose|i: int| splits_at(text, i);
    assert(text[at] == separator());
    assert(chosen == at);
    assert(text.subrange(0, at) =~= id);
    assert(text.subrange(at + 1, text.len() as int) =~= amount);
    assert(id[0] != 43 && amount[0] != 43);
}

} // verus!
