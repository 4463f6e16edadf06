//! Payloads: the values that a provenance record can be bound to.

use crate::digest::sha256;
use crate::encoding::{encode_signed, encode_unsigned, le_bytes};
use crate::provenance::ContentHash;
use vstd::prelude::*;
use vstd::utf8::encode_utf8;

verus! {

/// A value that can be bound to a manifest.
///
/// An implementation fixes the canonical byte encoding of its values; the
/// content hash is the SHA-256 digest of that encoding, and so a function
/// of the value alone. Every guarantee of the crate rests on this: an
/// implementation that is not verified is taken at its word.
pub trait C2paBindable {
    /// The canonical byte encoding of the value. An implementation that
    /// does not say what it is has one all the same: some function of the
    /// value, of which the content hash is the digest.
    open spec fn canonical_bytes(&self) -> Seq<u8> {
        arbitrary::<spec_fn(&Self) -> Seq<u8>>()(self)
    }

    /// The hash that binds the value to a record.
    fn content_hash(&self) -> (hash: ContentHash)
        ensures
            hash@ == sha256(self.canonical_bytes()),
    ;

    /// The media type of the content.
    fn media_type(&self) -> (label: &str)
        default_ensures
            label@ == "application/octet-stream"@,
    {
        "application/octet-stream"
    }
}

impl C2paBindable for Vec<u8> {
    open spec fn canonical_bytes(&self) -> Seq<u8> {
        self@
    }

    fn content_hash(&self) -> (hash: ContentHash) {
        ContentHash::compute(self.as_slice())
    }
}

impl C2paBindable for [u8] {
    open spec fn canonical_bytes(&self) -> Seq<u8> {
        self@
    }

    fn content_hash(&self) -> (hash: ContentHash) {
        ContentHash::compute(self)
    }
}

impl C2paBindable for String {
    open spec fn canonical_bytes(&self) -> Seq<u8> {
        encode_utf8(self@)
    }

    fn content_hash(&self) -> (hash: ContentHash) {
        ContentHash::compute(self.as_str().as_bytes())
    }

    fn media_type(&self) -> (label: &str)
        ensures
            label@ == "text/plain"@,
    {
        "text/plain"
    }
}

impl C2paBindable for str {
    open spec fn canonical_bytes(&self) -> Seq<u8> {
        encode_utf8(self@)
    }

    fn content_hash(&self) -> (hash: ContentHash) {
        ContentHash::compute(self.as_bytes())
    }

    fn media_type(&self) -> (label: &str)
        ensures
            label@ == "text/plain"@,
    {
        "text/plain"
    }
}

impl C2paBindable for u8 {
    open spec fn canonical_bytes(&self) -> Seq<u8> {
        le_bytes(*self as int, 1)
    }

    fn content_hash(&self) -> (hash: ContentHash) {
        ContentHash::compute(encode_unsigned(*self as u128, 1).as_slice())
    }
}

impl C2paBindable for u16 {
    open spec fn canonical_bytes(&self) -> Seq<u8> {
        le_bytes(*self as int, 2)
    }

    fn content_hash(&self) -> (hash: ContentHash) {
        ContentHash::compute(encode_unsigned(*self as u128, 2).as_slice())
    }
}

impl C2paBindable for u32 {
    open spec fn canonical_bytes(&self) -> Seq<u8> {
        le_bytes(*self as int, 4)
    }

    fn content_hash(&self) -> (hash: ContentHash) {
        ContentHash::compute(encode_unsigned(*self as u128, 4).as_slice())
    }
}

impl C2paBindable for u64 {
    open spec fn canonical_bytes(&self) -> Seq<u8> {
        le_bytes(*self as int, 8)
    }

    fn content_hash(&self) -> (hash: ContentHash) {
        ContentHash::compute(encode_unsigned(*self as u128, 8).as_slice())
    }
}

impl C2paBindable for u128 {
    open spec fn canonical_bytes(&self) -> Seq<u8> {
        le_bytes(*self as int, 16)
    }

    fn content_hash(&self) -> (hash: ContentHash) {
        ContentHash::compute(encode_unsigned(*self, 16).as_slice())
    }
}

impl C2paBindable for i8 {
    open spec fn canonical_bytes(&self) -> Seq<u8> {
        le_bytes(*self as int, 1)
    }

    fn content_hash(&self) -> (hash: ContentHash) {
        ContentHash::compute(encode_signed(*self as i128, 1).as_slice())
    }
}

impl C2paBindable for i16 {
    open spec fn canonical_bytes(&self) -> Seq<u8> {
        le_bytes(*self as int, 2)
    }

    fn content_hash(&self) -> (hash: ContentHash) {
        ContentHash::compute(encode_signed(*self as i128, 2).as_slice())
    }
}

impl C2paBindable for i32 {
    open spec fn canonical_bytes(&self) -> Seq<u8> {
        le_bytes(*self as int, 4)
    }

    fn content_hash(&self) -> (hash: ContentHash) {
        ContentHash::compute(encode_signed(*self as i128, 4).as_slice())
    }
}

impl C2paBindable for i64 {
    open spec fn canonical_bytes(&self) -> Seq<u8> {
        le_bytes(*self as int, 8)
    }

    fn content_hash(&self) -> (hash: ContentHash) {
        ContentHash::compute(encode_signed(*self as i128, 8).as_slice())
    }
}

impl C2paBindable for i128 {
    open spec fn canonical_bytes(&self) -> Seq<u8> {
        le_bytes(*self as int, 16)
    }

    fn content_hash(&self) -> (hash: ContentHash) {
        ContentHash::compute(encode_signed(*self, 16).as_slice())
    }
}

} // verus!
