use vstd::prelude::*;

verus! {

/// A source of fresh unique identifiers.
///
/// Each call to [`Allocator::mint`] returns a value that no earlier call on
/// the same allocator has returned; the counter only ever moves forward.
/// The one failure mode is exhaustion: once `spent()` reaches `capacity()`
/// the allocator refuses to proceed rather than wrap around, since wrapping
/// would silently hand out an identifier twice.
pub struct Allocator {
    next: u64,
    limit: u64,
}

impl Allocator {
    /// How many identifiers this allocator has minted so far.
    pub closed spec fn spent(self) -> nat {
        self.next as nat
    }

    /// How many identifiers this allocator may mint in total.
    pub closed spec fn capacity(self) -> nat {
        self.limit as nat
    }

    /// Well-formedness: the counter never runs past the capacity.
    pub open spec fn wf(self) -> bool {
        self.spent() <= self.capacity()
    }

    /// The allocator has handed out every identifier it may ever mint.
    pub open spec fn exhausted(self) -> bool {
        self.spent() == self.capacity()
    }

    /// The set of identifiers returned by `mint` so far: exactly the
    /// values below the counter, each returned exactly once.
    pub open spec fn minted(self) -> Set<nat> {
        Set::new(|i: nat| i < self.spent())
    }

    /// A fresh allocator with the full 64-bit identifier space.
    pub fn new() -> (a: Allocator)
        ensures
            a.wf(),
            a.spent() == 0,
            a.capacity() == u64::MAX,
    {
        Allocator { next: 0, limit: u64::MAX }
    }

    /// A fresh allocator that will mint at most `limit` identifiers.
    ///
    /// A narrow capacity makes the exhaustion behaviour observable without
    /// walking the full 64-bit space.
    pub fn with_capacity(limit: u64) -> (a: Allocator)
        ensures
            a.wf(),
            a.spent() == 0,
            a.capacity() == limit,
    {
        Allocator { next: 0, limit }
    }

    /// Mint a fresh identifier: one that no earlier call on this allocator
    /// has returned, and that no later call will return again.
    pub fn mint(&mut self) -> (id: u64)
        requires
            old(self).wf(),
            !old(self).exhausted(),
        ensures
            final(self).wf(),
            final(self).capacity() == old(self).capacity(),
            id as nat == old(self).spent(),
            final(self).spent() == old(self).spent() + 1,
            !old(self).minted().contains(id as nat),
            final(self).minted().contains(id as nat),
            forall|i: nat| old(self).minted().contains(i) ==> final(self).minted().contains(i),
    {
        let id: u64 = self.next;
        self.next = self.next + 1;
        id
    }

    /// Mint a fresh identifier, or refuse with `None` when the allocator is
    /// exhausted. Refusing, never reusing, is the documented response to
    /// exhaustion: continuing would let two distinct minting events share an
    /// identifier.
    pub fn try_mint(&mut self) -> (r: Option<u64>)
        requires
            old(self).wf(),
        ensures
            final(self).wf(),
            final(self).capacity() == old(self).capacity(),
            old(self).exhausted() ==> r is None && final(self).spent() == old(self).spent(),
            !old(self).exhausted() ==> (r matches Some(id)
                && id as nat == old(self).spent()
                && final(self).spent() == old(self).spent() + 1
                && !old(self).minted().contains(id as nat)
                && final(self).minted().contains(id as nat)),
    {
        if self.next < self.limit {
            Some(self.mint())
        } else {
            None
        }
    }

    /// How many identifiers are still available.
    pub fn remaining(&self) -> (r: u64)
        requires
            self.wf(),
        ensures
            r as nat == self.capacity() - self.spent(),
    {
        self.limit - self.next
    }

    /// Whether the allocator has run out of identifiers.
    pub fn is_exhausted(&self) -> (r: bool)
        ensures
            r == self.exhausted(),
    {
        self.next == self.limit
    }
}

} // verus!
