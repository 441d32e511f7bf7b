//! Structural content: the bytes a value contributes to a digest.
//!
//! A digest is taken by writing a value's content to a
//! [`DefaultHasher`] and reading the hasher's result. The hasher is modelled
//! by the sequence of writes it has received, one byte string per write, and
//! its result is a function of that sequence alone.

use std::collections::hash_map::DefaultHasher;
use std::hash::Hasher;
use vstd::bytes::{
    spec_u16_to_le_bytes, spec_u32_to_le_bytes, spec_u64_to_le_bytes, u16_to_le_bytes,
    u32_to_le_bytes, u64_to_le_bytes,
};
use vstd::prelude::*;
use vstd::std_specs::hash::DefaultHasherAdditionalSpecFns;
use vstd::utf8::encode_utf8;

verus! {

/// The digest a fresh hasher reports once it has received `writes`.
pub open spec fn digest_of(writes: Seq<Seq<u8>>) -> u64 {
    DefaultHasher::spec_finish(writes)
}

/// A value whose structural content can be hashed.
///
/// Two values with the same content have the same digest. An implementation
/// must write exactly its content, so that the digest of a value never
/// depends on anything but the value.
pub trait Hashable {
    /// The byte strings that make up this value, in the order they are
    /// written to a hasher.
    spec fn content(&self) -> Seq<Seq<u8>>;

    /// Writes the content of `self` to `state`, after whatever `state` has
    /// already received.
    fn feed(&self, state: &mut DefaultHasher)
        ensures
            final(state)@ == old(state)@ + self.content(),
    ;
}

/// Writes one byte string to `state`.
fn feed_bytes(state: &mut DefaultHasher, bytes: &[u8])
    ensures
        final(state)@ == old(state)@ + seq![bytes@],
{
    state.write(bytes);
    assert(state@ =~= old(state)@ + seq![bytes@]);
}

impl Hashable for u8 {
    /// A single byte.
    open spec fn content(&self) -> Seq<Seq<u8>> {
        seq![seq![*self]]
    }

    fn feed(&self, state: &mut DefaultHasher) {
        let bytes: [u8; 1] = [*self];
        assert(bytes@ =~= seq![*self]);
        feed_bytes(state, bytes.as_slice());
    }
}

impl Hashable for u16 {
    /// Two bytes, least significant first.
    open spec fn content(&self) -> Seq<Seq<u8>> {
        seq![spec_u16_to_le_bytes(*self)]
    }

    fn feed(&self, state: &mut DefaultHasher) {
        let bytes = u16_to_le_bytes(*self);
        feed_bytes(state, bytes.as_slice());
    }
}

impl Hashable for u32 {
    /// Four bytes, least significant first.
    open spec fn content(&self) -> Seq<Seq<u8>> {
        seq![spec_u32_to_le_bytes(*self)]
    }

    fn feed(&self, state: &mut DefaultHasher) {
        let bytes = u32_to_le_bytes(*self);
        feed_bytes(state, bytes.as_slice());
    }
}

impl Hashable for u64 {
    /// Eight bytes, least significant first.
    open spec fn content(&self) -> Seq<Seq<u8>> {
        seq![spec_u64_to_le_bytes(*self)]
    }

    fn feed(&self, state: &mut DefaultHasher) {
        let bytes = u64_to_le_bytes(*self);
        feed_bytes(state, bytes.as_slice());
    }
}

impl Hashable for usize {
    /// The content of the same number as a `u64`, whatever the width of
    /// `usize`.
    open spec fn content(&self) -> Seq<Seq<u8>> {
        (*self as u64).content()
    }

    fn feed(&self, state: &mut DefaultHasher) {
        (*self as u64).feed(state);
    }
}

impl Hashable for i8 {
    /// The content of the two's complement bit pattern.
    open spec fn content(&self) -> Seq<Seq<u8>> {
        (*self as u8).content()
    }

    fn feed(&self, state: &mut DefaultHasher) {
        (*self as u8).feed(state);
    }
}

impl Hashable for i16 {
    /// The content of the two's complement bit pattern.
    open spec fn content(&self) -> Seq<Seq<u8>> {
        (*self as u16).content()
    }

    fn feed(&self, state: &mut DefaultHasher) {
        (*self as u16).feed(state);
    }
}

impl Hashable for i32 {
    /// The content of the two's complement bit pattern.
    open spec fn content(&self) -> Seq<Seq<u8>> {
        (*self as u32).content()
    }

    fn feed(&self, state: &mut DefaultHasher) {
        (*self as u32).feed(state);
    }
}

impl Hashable for i64 {
    /// The content of the two's complement bit pattern.
    open spec fn content(&self) -> Seq<Seq<u8>> {
        (*self as u64).content()
    }

    fn feed(&self, state: &mut DefaultHasher) {
        (*self as u64).feed(state);
    }
}

impl Hashable for isize {
    /// The content of the same number as an `i64`, whatever the width of
    /// `isize`.
    open spec fn content(&self) -> Seq<Seq<u8>> {
        (*self as i64).content()
    }

    fn feed(&self, state: &mut DefaultHasher) {
        (*self as i64).feed(state);
    }
}

impl Hashable for bool {
    /// One byte: 1 for `true`, 0 for `false`.
    open spec fn content(&self) -> Seq<Seq<u8>> {
        if *self {
            1u8.content()
        } else {
            0u8.content()
        }
    }

    fn feed(&self, state: &mut DefaultHasher) {
        if *self {
            1u8.feed(state);
        } else {
            0u8.feed(state);
        }
    }
}

/// The content of a string with the characters `chars`: the length of its
/// UTF-8 encoding, then the encoding itself.
pub open spec fn text_content(chars: Seq<char>) -> Seq<Seq<u8>> {
    (encode_utf8(chars).len() as u64).content() + seq![encode_utf8(chars)]
}

impl Hashable for &str {
    /// See [`text_content`].
    open spec fn content(&self) -> Seq<Seq<u8>> {
        text_content(self@)
    }

    fn feed(&self, state: &mut DefaultHasher) {
        let bytes = self.as_bytes();
        (bytes.len() as u64).feed(state);
        feed_bytes(state, bytes);
    }
}

impl Hashable for String {
    /// See [`text_content`]: a `String` and a `&str` with the same
    /// characters have the same content.
    open spec fn content(&self) -> Seq<Seq<u8>> {
        text_content(self@)
    }

    fn feed(&self, state: &mut DefaultHasher) {
        self.as_str().feed(state);
    }
}

impl<T: Hashable> Hashable for Option<T> {
    /// A tag byte, 0 for `None` and 1 for `Some`, then the content of the
    /// value if there is one.
    open spec fn content(&self) -> Seq<Seq<u8>> {
        match self {
            Some(value) => 1u8.content() + value.content(),
            None => 0u8.content(),
        }
    }

    fn feed(&self, state: &mut DefaultHasher) {
        match self {
            Some(value) => {
                1u8.feed(state);
                value.feed(state);
            },
            None => {
                0u8.feed(state);
            },
        }
    }
}

} // verus!
