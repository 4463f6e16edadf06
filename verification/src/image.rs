//! A grayscale image as a payload, with a redaction and a horizontal
//! concatenation that keep its provenance.

use crate::bindable::C2paBindable;
use crate::builder::{BuilderView, C2paBuilder};
use crate::c2pa::{C2pa, Verified};
use crate::context::TransformContext;
use crate::encoding::{encode_unsigned, le_bytes};
use crate::error::TransformError;
use crate::provenance::{ContentHash, IngredientRelation};
use crate::text::extend_bytes;
use crate::transform::{C2paComposite, C2paTransform};
use crate::transform_helper::reference_to;
use vstd::prelude::*;
use vstd::slice::slice_subrange;
use vstd::string::StringExecFns;

verus! {

/// A grayscale image: one byte per pixel, row after row.
#[derive(Debug, PartialEq)]
pub struct Image {
    pub width: u32,
    pub height: u32,
    pub pixels: Vec<u8>,
}

/// What an image holds, as mathematical values.
pub ghost struct ImageView {
    pub width: int,
    pub height: int,
    pub pixels: Seq<u8>,
}

impl ImageView {
    /// Whether there is exactly one pixel for each position.
    pub open spec fn wf(&self) -> bool {
        &&& 0 <= self.width
        &&& 0 <= self.height
        &&& self.pixels.len() == self.width * self.height
    }

    /// Whether `(x, y)` is a position of the image.
    pub open spec fn holds(&self, x: int, y: int) -> bool {
        0 <= x < self.width && 0 <= y < self.height
    }

    /// The place of the pixel at `(x, y)` among the pixels.
    pub open spec fn offset(&self, x: int, y: int) -> int {
        y * self.width + x
    }

    /// The row `y`, from left to right.
    pub open spec fn row(&self, y: int) -> Seq<u8> {
        self.pixels.subrange(y * self.width, (y + 1) * self.width)
    }
}

/// A rectangle of positions: `w` columns from `x`, `h` rows from `y`.
pub ghost struct Region {
    pub x: int,
    pub y: int,
    pub w: int,
    pub h: int,
}

impl Region {
    /// Whether `(px, py)` lies in the rectangle.
    pub open spec fn covers(&self, px: int, py: int) -> bool {
        self.x <= px < self.x + self.w && self.y <= py < self.y + self.h
    }
}

/// The image with the pixels of `region` set to zero. Positions of the
/// region that lie outside the image are ignored.
pub open spec fn redacted(image: ImageView, region: Region) -> ImageView {
    ImageView {
        pixels: Seq::new(
            image.pixels.len(),
            |i: int|
                if region.covers(i % image.width, i / image.width) {
                    0u8
                } else {
                    image.pixels[i]
                },
        ),
        ..image
    }
}

/// The first `rows` rows of `a` and `b`, joined row by row: each row of `a`
/// followed by the same row of `b`.
pub open spec fn joined_rows(a: ImageView, b: ImageView, rows: nat) -> Seq<u8>
    decreases rows,
{
    if rows == 0 {
        Seq::empty()
    } else {
        joined_rows(a, b, (rows - 1) as nat) + a.row(rows - 1) + b.row(rows - 1)
    }
}

/// `a` and `b`, of the same height, side by side: `a` on the left.
pub open spec fn side_by_side(a: ImageView, b: ImageView) -> ImageView {
    ImageView {
        width: a.width + b.width,
        height: a.height,
        pixels: joined_rows(a, b, a.height as nat),
    }
}

/// Joined rows hold one pixel for each position of the joined width.
pub proof fn lemma_joined_rows_len(a: ImageView, b: ImageView, rows: nat)
    requires
        a.wf(),
        b.wf(),
        rows <= a.height,
        rows <= b.height,
    ensures
        joined_rows(a, b, rows).len() == (a.width + b.width) * rows,
    decreases rows,
{
    if rows > 0 {
        lemma_joined_rows_len(a, b, (rows - 1) as nat);
        lemma_row_in_bounds(a, rows - 1);
        lemma_row_in_bounds(b, rows - 1);
        assert((a.width + b.width) * (rows - 1) + a.width + b.width == (a.width + b.width) * rows)
            by (nonlinear_arith);
    } else {
        assert((a.width + b.width) * 0 == 0);
    }
}

/// A row of a well-formed image lies within its pixels.
pub proof fn lemma_row_in_bounds(image: ImageView, y: int)
    requires
        image.wf(),
        0 <= y < image.height,
    ensures
        0 <= y * image.width,
        (y + 1) * image.width == y * image.width + image.width,
        (y + 1) * image.width <= image.pixels.len(),
        image.row(y).len() == image.width,
{
    assert(0 <= y * image.width && (y + 1) * image.width == y * image.width + image.width && (y
        + 1) * image.width <= image.width * image.height) by (nonlinear_arith)
        requires
            0 <= y < image.height,
            0 <= image.width,
    ;
}

/// A position of a well-formed image has its pixel within the pixels.
pub proof fn lemma_offset_in_bounds(image: ImageView, x: int, y: int)
    requires
        image.wf(),
        image.holds(x, y),
    ensures
        0 <= image.offset(x, y) < image.pixels.len(),
        image.offset(x, y) % image.width == x,
        image.offset(x, y) / image.width == y,
{
    lemma_row_in_bounds(image, y);
    vstd::arithmetic::div_mod::lemma_fundamental_div_mod_converse(
        image.offset(x, y),
        image.width,
        y,
        x,
    );
}

impl View for Image {
    type V = ImageView;

    open spec fn view(&self) -> ImageView {
        ImageView {
            width: self.width as int,
            height: self.height as int,
            pixels: self.pixels@,
        }
    }
}

impl Clone for Image {
    fn clone(&self) -> (copy: Self)
        ensures
            copy@ == self@,
    {
        Image { width: self.width, height: self.height, pixels: self.pixels.clone() }
    }
}

impl Image {
    /// Whether the image holds exactly one pixel for each position.
    pub open spec fn wf(&self) -> bool {
        self@.wf()
    }

    /// An image of the given size with every pixel set to `fill`.
    pub fn new(width: u32, height: u32, fill: u8) -> (image: Self)
        requires
            width * height <= u32::MAX,
        ensures
            image.wf(),
            image@ == (ImageView {
                width: width as int,
                height: height as int,
                pixels: Seq::new((width * height) as nat, |i: int| fill),
            }),
    {
        let count: u32 = width * height;
        let mut pixels: Vec<u8> = Vec::new();
        let mut i: u32 = 0;
        while i < count
            invariant
                i <= count,
                pixels@ == Seq::new(i as nat, |j: int| fill),
            decreases count - i,
        {
            pixels.push(fill);
            assert(pixels@ =~= Seq::new((i + 1) as nat, |j: int| fill));
            i += 1;
        }
        Image { width, height, pixels }
    }

    /// An image of the given size whose pixel at place `i` is `i % 256`.
    pub fn test_pattern(width: u32, height: u32) -> (image: Self)
        requires
            width * height <= u32::MAX,
        ensures
            image.wf(),
            image@ == (ImageView {
                width: width as int,
                height: height as int,
                pixels: Seq::new((width * height) as nat, |i: int| (i % 256) as u8),
            }),
    {
        let count: u32 = width * height;
        let mut pixels: Vec<u8> = Vec::new();
        let mut i: u32 = 0;
        while i < count
            invariant
                i <= count,
                pixels@ == Seq::new(i as nat, |j: int| (j % 256) as u8),
            decreases count - i,
        {
            pixels.push((i % 256) as u8);
            assert(pixels@ =~= Seq::new((i + 1) as nat, |j: int| (j % 256) as u8));
            i += 1;
        }
        Image { width, height, pixels }
    }

    /// The place of the pixel at `(x, y)` among the pixels.
    fn place(&self, x: u32, y: u32) -> (place: usize)
        requires
            self.wf(),
            self@.holds(x as int, y as int),
        ensures
            place == self@.offset(x as int, y as int),
            place < self.pixels@.len(),
    {
        proof {
            lemma_offset_in_bounds(self@, x as int, y as int);
            lemma_row_in_bounds(self@, y as int);
            assert(self.pixels@.len() == self.pixels.len());
            assert(y * self.width + x < self.pixels.len());
        }
        y as usize * self.width as usize + x as usize
    }

    /// The pixel at `(x, y)`, or `None` outside the image.
    pub fn get(&self, x: u32, y: u32) -> (pixel: Option<u8>)
        requires
            self.wf(),
        ensures
            pixel == (if self@.holds(x as int, y as int) {
                Some(self@.pixels[self@.offset(x as int, y as int)])
            } else {
                None
            }),
    {
        if x < self.width && y < self.height {
            let place = self.place(x, y);
            Some(self.pixels[place])
        } else {
            None
        }
    }

    /// Sets the pixel at `(x, y)`; outside the image nothing changes.
    pub fn set(&mut self, x: u32, y: u32, value: u8)
        requires
            old(self).wf(),
        ensures
            final(self).wf(),
            final(self)@ == (if old(self)@.holds(x as int, y as int) {
                ImageView {
                    pixels: old(self)@.pixels.update(old(self)@.offset(x as int, y as int), value),
                    ..old(self)@
                }
            } else {
                old(self)@
            }),
    {
        if x < self.width && y < self.height {
            let place = self.place(x, y);
            self.pixels[place] = value;
        }
    }
}

impl C2paBindable for Image {
    /// Width and height in four little-endian bytes each, then the pixels.
    open spec fn canonical_bytes(&self) -> Seq<u8> {
        le_bytes(self.width as int, 4) + le_bytes(self.height as int, 4) + self.pixels@
    }

    fn content_hash(&self) -> (hash: ContentHash) {
        let mut data: Vec<u8> = encode_unsigned(self.width as u128, 4);
        extend_bytes(&mut data, encode_unsigned(self.height as u128, 4).as_slice());
        extend_bytes(&mut data, self.pixels.as_slice());
        ContentHash::compute(data.as_slice())
    }

    fn media_type(&self) -> (label: &str)
        ensures
            label@ == "image/x-grayscale"@,
    {
        "image/x-grayscale"
    }
}

/// A transform that blanks a rectangle of an image: `w` columns from `x`
/// and `h` rows from `y` are set to zero.
pub struct RedactTransform {
    pub x: u32,
    pub y: u32,
    pub w: u32,
    pub h: u32,
}

impl RedactTransform {
    /// The rectangle that the transform blanks.
    pub open spec fn region(&self) -> Region {
        Region { x: self.x as int, y: self.y as int, w: self.w as int, h: self.h as int }
    }

    /// A transform that blanks `w` columns from `x` and `h` rows from `y`.
    pub fn new(x: u32, y: u32, w: u32, h: u32) -> (transform: Self)
        ensures
            transform.region() == (Region { x: x as int, y: y as int, w: w as int, h: h as int }),
    {
        RedactTransform { x, y, w, h }
    }

    /// Whether the rectangle covers the position `(px, py)`.
    fn covers(&self, px: usize, py: usize) -> (inside: bool)
        ensures
            inside == self.region().covers(px as int, py as int),
    {
        let x: usize = self.x as usize;
        let y: usize = self.y as usize;
        let w: usize = self.w as usize;
        let h: usize = self.h as usize;
        px >= x && px - x < w && py >= y && py - y < h
    }
}

impl C2paTransform<Image, Image> for RedactTransform {
    open spec fn accepts(&self, input: &Image) -> bool {
        input.wf()
    }

    /// Blanks the rectangle in a copy of the image and signs the copy under
    /// the context's generator label, as derived from the input. The
    /// context is left as it was, and the call never fails.
    fn transform(&self, input: &C2pa<Image, Verified>, ctx: &mut TransformContext) -> (outcome:
        Result<C2pa<Image, Verified>, TransformError>)
        ensures
            outcome matches Ok(output) && output.payload()@ == redacted(
                input.payload()@,
                self.region(),
            ) && output.payload().wf() && (BuilderView {
                payload: *output.payload(),
                ingredients: seq![reference_to(input, IngredientRelation::DerivedFrom)],
                generator: old(ctx).generator@,
                assertions: Seq::empty(),
            }).signs_to(output.provenance()),
            *final(ctx) == *old(ctx),
    {
        let mut output = input.payload().clone();
        let ghost before = input.payload()@;
        let ghost target = redacted(before, self.region());
        let count: usize = output.pixels.len();
        let width: usize = output.width as usize;
        let mut i: usize = 0;
        while i < count
            invariant
                i <= count,
                before.wf(),
                target == redacted(before, self.region()),
                width == before.width,
                output@.width == before.width,
                output@.height == before.height,
                output.pixels@.len() == count,
                before.pixels.len() == count,
                forall|j: int| 0 <= j < i ==> output.pixels@[j] == target.pixels[j],
                forall|j: int| i <= j < count ==> output.pixels@[j] == before.pixels[j],
            decreases count - i,
        {
            assert(width > 0) by (nonlinear_arith)
                requires
                    width * before.height > 0,
                    width >= 0,
            ;
            if self.covers(i % width, i / width) {
                output.pixels[i] = 0;
            }
            i += 1;
        }
        assert(output@.pixels =~= target.pixels);
        let builder = C2paBuilder::new(output).generator(ctx.generator.as_str()).add_ingredient(
            input,
            IngredientRelation::DerivedFrom,
        );
        assert(builder@.ingredients =~= seq![reference_to(input, IngredientRelation::DerivedFrom)]);
        builder.sign_with_test_signer()
    }
}

/// A composite that puts two images of the same height side by side.
pub struct HConcatTransform;

impl C2paComposite<Image, Image, Image> for HConcatTransform {
    /// Both images hold their pixels, and where the heights agree the
    /// joined width is a width.
    open spec fn accepts(&self, a: &Image, b: &Image) -> bool {
        &&& a.wf()
        &&& b.wf()
        &&& a.height == b.height ==> a.width + b.width <= u32::MAX
    }

    /// Joins the images row by row, `a` on the left, and signs the result
    /// under the context's generator label, as composed from `a` and then
    /// `b`. Images of different heights are refused with the detail
    /// `height mismatch`. The context is left as it was.
    fn compose(
        &self,
        a: &C2pa<Image, Verified>,
        b: &C2pa<Image, Verified>,
        ctx: &mut TransformContext,
    ) -> (outcome: Result<C2pa<Image, Verified>, TransformError>)
        ensures
            a.payload().height != b.payload().height ==> (outcome matches Err(
                TransformError::C2pa(detail),
            ) && detail@ == "height mismatch"@),
            a.payload().height == b.payload().height ==> (outcome matches Ok(output)
                && output.payload()@ == side_by_side(a.payload()@, b.payload()@)
                && output.payload().wf() && (BuilderView {
                payload: *output.payload(),
                ingredients: seq![
                    reference_to(a, IngredientRelation::ComposedFrom),
                    reference_to(b, IngredientRelation::ComposedFrom),
                ],
                generator: old(ctx).generator@,
                assertions: Seq::empty(),
            }).signs_to(output.provenance())),
            *final(ctx) == *old(ctx),
    {
        let img_a = a.payload();
        let img_b = b.payload();
        if img_a.height != img_b.height {
            return Err(TransformError::C2pa(String::from_str("height mismatch")));
        }
        let new_width: u32 = img_a.width + img_b.width;
        let height: u32 = img_a.height;
        let mut pixels: Vec<u8> = Vec::new();
        let mut y: u32 = 0;
        while y < height
            invariant
                y <= height,
                height == img_a.height,
                height == img_b.height,
                img_a.wf(),
                img_b.wf(),
                pixels@ == joined_rows(img_a@, img_b@, y as nat),
            decreases height - y,
        {
            proof {
                lemma_row_in_bounds(img_a@, y as int);
                lemma_row_in_bounds(img_b@, y as int);
                assert(img_a.pixels@.len() == img_a.pixels.len());
                assert(img_b.pixels@.len() == img_b.pixels.len());
            }
            let a_start: usize = y as usize * img_a.width as usize;
            let a_end: usize = a_start + img_a.width as usize;
            extend_bytes(&mut pixels, slice_subrange(img_a.pixels.as_slice(), a_start, a_end));
            let b_start: usize = y as usize * img_b.width as usize;
            let b_end: usize = b_start + img_b.width as usize;
            extend_bytes(&mut pixels, slice_subrange(img_b.pixels.as_slice(), b_start, b_end));
            y += 1;
        }
        proof {
            lemma_joined_rows_len(img_a@, img_b@, height as nat);
        }
        let output = Image { width: new_width, height, pixels };
        let builder = C2paBuilder::new(output).generator(ctx.generator.as_str()).add_ingredient(
            a,
            IngredientRelation::ComposedFrom,
        ).add_ingredient(b, IngredientRelation::ComposedFrom);
        assert(builder@.ingredients =~= seq![
            reference_to(a, IngredientRelation::ComposedFrom),
            reference_to(b, IngredientRelation::ComposedFrom),
        ]);
        builder.sign_with_test_signer()
    }
}

} // verus!
