//! A chain of blocks linked backwards by hash pointers.
//!
//! A chain is held by its head block. Each block owns a payload and, unless
//! it is the origin of the chain, a hash pointer to the block before it, so
//! that a change to an earlier block shows in the pointer that leads to it.

use crate::content::{digest_of, Hashable};
use crate::hashptr::HashPointer;
use std::collections::hash_map::DefaultHasher;
use vstd::prelude::*;
use vstd::std_specs::iter::IteratorSpecImpl;

verus! {

/// Node in a linked list that uses hash pointers.
pub struct Block<T: Hashable> {
    ptr: Option<HashPointer<Block<T>>>,
    data: T,
}

impl<T: Hashable> Block<T> {
    /// The payload of this block.
    pub closed spec fn spec_payload(&self) -> &T {
        &self.data
    }

    /// The link to the block before this one; `None` at the origin.
    pub closed spec fn spec_previous(&self) -> Option<&HashPointer<Block<T>>> {
        match self.ptr {
            Some(link) => Some(&link),
            None => None,
        }
    }

    /// The block with the link `previous` and the payload `payload`.
    pub closed spec fn of(previous: Option<&HashPointer<Block<T>>>, payload: &T) -> Self {
        Block {
            ptr: match previous {
                Some(link) => Some(*link),
                None => None,
            },
            data: *payload,
        }
    }

    /// This block with its payload overwritten.
    pub open spec fn with_payload(self, payload: T) -> Self {
        Self::of(self.previous(), &payload)
    }

    /// This block with its link overwritten.
    pub open spec fn with_previous(self, link: HashPointer<Block<T>>) -> Self {
        Self::of(Some(&link), self.payload())
    }

    /// The origin block that `new` makes.
    pub open spec fn spec_new(data: T) -> Self {
        Self::of(None, &data)
    }

    /// The head that `prepend` makes: its link is a fresh pointer to `self`.
    pub open spec fn spec_prepend(self, data: T) -> Self {
        Self::of(Some(&HashPointer::new(self)), &data)
    }

    /// The iterator that `iter` makes: it stands at this block.
    pub closed spec fn spec_iter(&self) -> BlockIterator<'_, T> {
        BlockIterator { block: Some(self) }
    }

    /// The chain that `items.len() - 1` prepends build on a fresh origin
    /// block: the origin holds `items[0]`, and each later item is prepended
    /// in turn.
    pub open spec fn built_from(items: Seq<T>) -> Self
        recommends
            items.len() > 0,
        decreases items.len(),
    {
        if items.len() <= 1 {
            Self::new(items[0])
        } else {
            Self::built_from(items.drop_last()).prepend(items.last())
        }
    }

    /// What `of` puts into a block is what its accessors give back.
    pub proof fn lemma_of(previous: Option<&HashPointer<Block<T>>>, payload: &T)
        ensures
            Self::of(previous, payload).payload() == payload,
            Self::of(previous, payload).previous() == previous,
    {
    }

    /// The block before this one is structurally smaller than this one.
    pub proof fn lemma_previous_is_smaller(&self)
        ensures
            self.previous() matches Some(link) ==> decreases_to!(*self => link.value()),
    {
        if let Some(link) = self.ptr {
            link.lemma_value_is_smaller();
        }
    }

    /// The content of the chain that starts at this block: a tag byte for
    /// the link, 0 at the origin and 1 elsewhere; behind a 1 the digest that
    /// the link stores and the content of the chain it leads to; then the
    /// content of the payload.
    pub open spec fn chain_content(&self) -> Seq<Seq<u8>>
        decreases self,
    {
        (match self.previous() {
            Some(link) => {
                proof {
                    self.lemma_previous_is_smaller();
                }
                1u8.content() + link.digest().content() + link.value().chain_content()
            },
            None => 0u8.content(),
        }) + self.payload().content()
    }

    /// Allocates a new block, with nothing after it.
    #[verifier::when_used_as_spec(spec_new)]
    pub fn new(data: T) -> (block: Self)
        ensures
            block == Self::spec_new(data),
            *block.payload() == data,
            block.previous() is None,
            block@ == seq![data],
    {
        Self { ptr: None, data }
    }

    /// Inserts a new value before the chain.
    ///
    /// The chain so far moves behind a fresh hash pointer, whose digest
    /// covers all of it.
    #[verifier::when_used_as_spec(spec_prepend)]
    pub fn prepend(self, data: T) -> (block: Self)
        ensures
            block == self.spec_prepend(data),
            *block.payload() == data,
            block.previous() == Some(&HashPointer::new(self)),
            block@ == seq![data] + self@,
    {
        Self { ptr: Some(HashPointer::new(self)), data }
    }

    /// Iterator providing a read-only view through this block chain, from
    /// this block back to the origin.
    #[verifier::when_used_as_spec(spec_iter)]
    pub fn iter(&self) -> (iter: BlockIterator<'_, T>)
        ensures
            iter == self.spec_iter(),
            iter@ == self@,
    {
        BlockIterator { block: Some(self) }
    }

    /// The payload of this block.
    #[verifier::when_used_as_spec(spec_payload)]
    pub fn payload(&self) -> (payload: &T)
        ensures
            payload == self.spec_payload(),
    {
        &self.data
    }

    /// Write access to the payload of this block.
    pub fn payload_mut(&mut self) -> (payload: &mut T)
        ensures
            *payload == *old(self).payload(),
            *final(self).payload() == *final(payload),
            final(self).previous() == old(self).previous(),
            *final(self) == old(self).with_payload(*final(payload)),
    {
        &mut self.data
    }

    /// The link to the block before this one; `None` at the origin.
    #[verifier::when_used_as_spec(spec_previous)]
    pub fn previous(&self) -> (link: Option<&HashPointer<Block<T>>>)
        ensures
            link == self.spec_previous(),
    {
        self.ptr.as_ref()
    }

    /// Write access to the link to the block before this one.
    pub fn previous_mut(&mut self) -> (link: Option<&mut HashPointer<Block<T>>>)
        ensures
            final(self).payload() == old(self).payload(),
            match link {
                Some(link) => {
                    &&& old(self).previous() == Some(&*link)
                    &&& final(self).previous() == Some(&*final(link))
                    &&& *final(self) == old(self).with_previous(*final(link))
                },
                None => old(self).previous() is None && *final(self) == *old(self),
            },
    {
        self.ptr.as_mut()
    }

    /// An origin block is a chain of one payload.
    pub proof fn lemma_new_view(data: T)
        ensures
            Self::new(data)@ == seq![data],
    {
        Self::lemma_of(None, &data);
    }

    /// Prepending puts the new payload in front of the chain and keeps the
    /// rest in order.
    pub proof fn lemma_prepend_view(self, data: T)
        ensures
            self.prepend(data)@ == seq![data] + self@,
    {
        let link = HashPointer::new(self);
        Self::lemma_of(Some(&link), &data);
        HashPointer::lemma_of(digest_of(self.content()), self);
    }

    /// A chain yields its payloads most recently prepended first: the
    /// reverse of the order in which they were put in.
    pub proof fn lemma_chain_order(items: Seq<T>)
        requires
            items.len() > 0,
        ensures
            Self::built_from(items)@ == items.reverse(),
            Self::built_from(items).iter()@ == items.reverse(),
        decreases items.len(),
    {
        if items.len() <= 1 {
            Self::lemma_new_view(items[0]);
        } else {
            let earlier = items.drop_last();
            Self::lemma_chain_order(earlier);
            Self::built_from(earlier).lemma_prepend_view(items.last());
        }
        assert(Self::built_from(items)@ =~= items.reverse());
    }

    /// A chain built by `n - 1` prepends on a fresh origin block holds
    /// exactly `n` payloads.
    pub proof fn lemma_chain_length(items: Seq<T>)
        requires
            items.len() > 0,
        ensures
            Self::built_from(items)@.len() == items.len(),
            Self::built_from(items).iter()@.len() == items.len(),
    {
        Self::lemma_chain_order(items);
    }

    /// Iteration can be started over: every iterator made from a chain
    /// yields the whole chain, however many were made before it and however
    /// far they were advanced.
    pub proof fn lemma_iter_restartable(&self)
        ensures
            self.iter()@ == self@,
    {
    }

    /// Tampering with the block behind a link shows in that link and in no
    /// link further back: once the payload of the block that an intact `link`
    /// leads to is overwritten with `forged`, the link no longer validates,
    /// provided the digest tells the two chains apart, while the block's own
    /// link to its predecessor is what it was.
    pub proof fn lemma_tamper_behind_link(link: HashPointer<Block<T>>, forged: T)
        requires
            link.validate(),
            digest_of(link.value().with_payload(forged).content()) != digest_of(
                link.value().content(),
            ),
        ensures
            !link.with_value(link.value().with_payload(forged)).validate(),
            link.with_value(link.value().with_payload(forged)).value().previous()
                == link.value().previous(),
    {
        let tampered = link.value().with_payload(forged);
        HashPointer::lemma_of(link.digest(), tampered);
        Self::lemma_of(link.value().previous(), &forged);
    }

    /// Writes the content of the chain to `state`.
    fn feed_chain(&self, state: &mut DefaultHasher)
        ensures
            final(state)@ == old(state)@ + self.chain_content(),
        decreases self,
    {
        match &self.ptr {
            Some(link) => {
                proof {
                    self.lemma_previous_is_smaller();
                }
                1u8.feed(state);
                link.digest().feed(state);
                link.as_ref().feed_chain(state);
            },
            None => {
                0u8.feed(state);
            },
        }
        self.data.feed(state);
    }
}

impl<T: Hashable> View for Block<T> {
    type V = Seq<T>;

    /// The payloads of the chain, from this block back to the origin.
    open spec fn view(&self) -> Seq<T>
        decreases self,
    {
        match self.previous() {
            Some(link) => {
                proof {
                    self.lemma_previous_is_smaller();
                }
                seq![*self.payload()] + link.value().view()
            },
            None => seq![*self.payload()],
        }
    }
}

impl<T: Hashable> Hashable for Block<T> {
    /// The content of the whole chain behind this block, see
    /// [`Block::chain_content`].
    open spec fn content(&self) -> Seq<Seq<u8>> {
        self.chain_content()
    }

    fn feed(&self, state: &mut DefaultHasher) {
        self.feed_chain(state);
    }
}

/// Walks a chain from a block back to the origin.
pub struct BlockIterator<'a, T: Hashable> {
    block: Option<&'a Block<T>>,
}

impl<'a, T: Hashable> View for BlockIterator<'a, T> {
    type V = Seq<T>;

    /// The payloads still to come, in the order they will be yielded.
    closed spec fn view(&self) -> Seq<T> {
        match self.block {
            Some(block) => block@,
            None => Seq::empty(),
        }
    }
}

impl<'a, T: Hashable> Iterator for BlockIterator<'a, T> {
    type Item = &'a T;

    /// Yields the payload of the block the iterator stands at and steps to
    /// the block before it; yields `None` once the origin has been passed.
    fn next(&mut self) -> (item: Option<&'a T>)
        ensures
            old(self)@.len() == 0 ==> item is None && final(self)@ == old(self)@,
            old(self)@.len() > 0 ==> {
                &&& item == Some(&old(self)@[0])
                &&& final(self)@ == old(self)@.drop_first()
            },
    {
        match self.block {
            Some(block) => {
                self.block = match block.previous() {
                    Some(link) => Some(link.as_ref()),
                    None => None,
                };
                Some(block.payload())
            },
            None => None,
        }
    }
}

/// What the iterator will yield, for loops and other callers that reason
/// about it through the `Iterator` trait: the payloads of its view, in order,
/// and then `None` for good.
impl<'a, T: Hashable> IteratorSpecImpl for BlockIterator<'a, T> {
    open spec fn obeys_prophetic_iter_laws(&self) -> bool {
        true
    }

    open spec fn remaining(&self) -> Seq<&'a T> {
        self@.map_values(|payload: T| &payload)
    }

    open spec fn will_return_none(&self) -> bool {
        true
    }

    open spec fn decrease(&self) -> Option<nat> {
        Some(self@.len())
    }

    open spec fn initial_value_relation(&self, init: &Self) -> bool {
        self@ == init@
    }

    open spec fn peek(&self, index: int) -> Option<&'a T> {
        if 0 <= index < self@.len() {
            Some(&self@[index])
        } else {
            None
        }
    }
}

} // verus!
