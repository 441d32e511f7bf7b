//! Hash pointers: an owned value together with the digest it had when the
//! pointer was made.
//!
//! The digest is taken once, at construction. The value can be changed
//! afterwards through [`HashPointer::as_mut`], and the digest is then left
//! as it was: a pointer whose value no longer hashes to its digest has been
//! tampered with, and [`HashPointer::validate`] says so.

use crate::content::{digest_of, Hashable};
use std::collections::hash_map::DefaultHasher;
use std::hash::Hasher;
use vstd::prelude::*;

verus! {

/// Digest of the structural content of `data`.
pub fn hash<T: Hashable>(data: &T) -> (digest: u64)
    ensures
        digest == digest_of(data.content()),
{
    let mut hasher = DefaultHasher::new();
    data.feed(&mut hasher);
    assert(hasher@ =~= data.content());
    hasher.finish()
}

/// Stores a value and the digest of the content it had at construction.
///
/// If the digest of the value differs from the stored one, the value has
/// been modified since.
pub struct HashPointer<T> {
    hash: u64,
    data: Box<T>,
}

impl<T> HashPointer<T> {
    /// The digest recorded when the pointer was made.
    pub closed spec fn spec_digest(&self) -> u64 {
        self.hash
    }

    /// The value the pointer owns now.
    pub closed spec fn value(&self) -> T {
        *self.data
    }

    /// The pointer that stores `digest` and owns `value`.
    pub closed spec fn of(digest: u64, value: T) -> Self {
        HashPointer { hash: digest, data: Box::new(value) }
    }

    /// This pointer after its value has been overwritten with `value`: the
    /// stored digest is the old one.
    pub open spec fn with_value(self, value: T) -> Self {
        Self::of(self.digest(), value)
    }

    /// What `of` puts into a pointer is what its accessors give back.
    pub proof fn lemma_of(digest: u64, value: T)
        ensures
            Self::of(digest, value).digest() == digest,
            Self::of(digest, value).value() == value,
    {
    }

    /// The value is structurally smaller than the pointer that owns it, so
    /// that a recursion may descend through a pointer.
    pub proof fn lemma_value_is_smaller(&self)
        ensures
            decreases_to!(*self => self.value()),
    {
    }

    /// The digest recorded when the pointer was made.
    #[verifier::when_used_as_spec(spec_digest)]
    pub fn digest(&self) -> (digest: u64)
        ensures
            digest == self.spec_digest(),
    {
        self.hash
    }

    /// Read access to the value.
    pub fn as_ref(&self) -> (value: &T)
        ensures
            *value == self.value(),
    {
        &*self.data
    }

    /// Write access to the value. The stored digest stays as it is, whatever
    /// is written: that is how a later [`validate`](Self::validate) detects
    /// the change.
    pub fn as_mut(&mut self) -> (value: &mut T)
        ensures
            *value == old(self).value(),
            final(self).value() == *final(value),
            final(self).digest() == old(self).digest(),
            *final(self) == old(self).with_value(*final(value)),
    {
        &mut *self.data
    }
}

impl<T: Hashable> HashPointer<T> {
    /// The pointer that `new` makes: it owns `data` and stores the digest
    /// of its content.
    pub open spec fn spec_new(data: T) -> Self {
        Self::of(digest_of(data.content()), data)
    }

    /// The pointer that `from_box` makes.
    pub open spec fn spec_from_box(data: Box<T>) -> Self {
        Self::spec_new(*data)
    }

    /// Whether the value still hashes to the stored digest.
    pub open spec fn spec_validate(&self) -> bool {
        self.digest() == digest_of(self.value().content())
    }

    /// Takes ownership of `data` and records the digest of its content.
    #[verifier::when_used_as_spec(spec_new)]
    pub fn new(data: T) -> (pointer: Self)
        ensures
            pointer == Self::spec_new(data),
            pointer.value() == data,
            pointer.digest() == digest_of(data.content()),
            pointer.validate(),
    {
        Self::from_box(Box::new(data))
    }

    /// As [`new`](Self::new), for a value that is already boxed.
    #[verifier::when_used_as_spec(spec_from_box)]
    pub fn from_box(data: Box<T>) -> (pointer: Self)
        ensures
            pointer == Self::spec_from_box(data),
            pointer.value() == *data,
            pointer.digest() == digest_of(data.content()),
            pointer.validate(),
    {
        let hash = hash(&*data);
        Self { hash, data }
    }

    /// Returns `true` if the digest of the value is the same as the digest
    /// initially computed.
    #[verifier::when_used_as_spec(spec_validate)]
    pub fn validate(&self) -> (intact: bool)
        ensures
            intact == self.spec_validate(),
    {
        self.hash == hash(&*self.data)
    }

    /// A freshly made pointer validates.
    pub proof fn lemma_fresh_pointer_validates(data: T)
        ensures
            Self::new(data).validate(),
    {
        Self::lemma_of(digest_of(data.content()), data);
    }

    /// Boxing a value first makes no difference: `from_box` on the boxed
    /// value gives the very pointer that `new` gives on the value, so the two
    /// validate alike, now and after any later write.
    pub proof fn lemma_from_box_is_new(data: T)
        ensures
            Self::from_box(Box::new(data)) == Self::new(data),
    {
    }

    /// Overwriting the value of a fresh pointer over `data` with `forged`
    /// makes validation fail, provided the digest tells the two apart.
    pub proof fn lemma_mutation_detected(data: T, forged: T)
        requires
            digest_of(forged.content()) != digest_of(data.content()),
        ensures
            !Self::new(data).with_value(forged).validate(),
    {
        let stored = digest_of(data.content());
        Self::lemma_of(stored, data);
        Self::lemma_of(stored, forged);
    }

    /// Overwriting the value of a fresh pointer over `data` with a value of
    /// the same content, `data` itself included, leaves the pointer valid.
    pub proof fn lemma_same_content_validates(data: T, rewritten: T)
        requires
            rewritten.content() == data.content(),
        ensures
            Self::new(data).with_value(rewritten).validate(),
    {
        let stored = digest_of(data.content());
        Self::lemma_of(stored, data);
        Self::lemma_of(stored, rewritten);
    }
}

impl<T: Hashable> Hashable for HashPointer<T> {
    /// The stored digest, then the content of the value.
    open spec fn content(&self) -> Seq<Seq<u8>> {
        self.digest().content() + self.value().content()
    }

    fn feed(&self, state: &mut DefaultHasher) {
        self.hash.feed(state);
        self.data.feed(state);
    }
}

} // verus!
