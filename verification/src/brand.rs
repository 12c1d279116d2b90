use vstd::prelude::*;
use crate::allocator::Allocator;

verus! {

/// A copyable, comparison-only view of one minting event's identity.
///
/// Many `Id`s may reference one minting event; they are immutable once
/// created and never expire. Their only operation is identity comparison
/// (plus ordering and hashing on the underlying identifier, for use as a
/// key). Two `Id`s are equal exactly when they derive from the same minting
/// event. An `Id` carries no reference back to the [`Guard`] it came from:
/// ending the guard's scope leaves every `Id` already issued valid.
///
/// The only public paths to an `Id` are [`Guard::handle`] and the consuming
/// conversion `Guard::into`; nothing else constructs one.
#[derive(Clone, Copy, PartialEq, Eq, PartialOrd, Ord, Hash, Debug, Structural)]
pub struct Id {
    value: u64,
}

impl View for Id {
    type V = nat;

    closed spec fn view(&self) -> nat {
        self.value as nat
    }
}

/// The exclusive owner of one freshly minted identifier, scoped to a lexical
/// extent.
///
/// A `Guard` is move-only: it is neither `Clone` nor `Copy`, so the
/// authority to derive handles for its minting event cannot be duplicated.
/// Its scope ends when it is dropped or consumed; Rust's ownership rules
/// make deriving a handle from an ended guard impossible, so no runtime
/// state tracks the transition. Handles already derived are unaffected.
#[derive(PartialEq, Eq, Debug, Structural)]
pub struct Guard {
    id: Id,
}

impl View for Guard {
    type V = nat;

    closed spec fn view(&self) -> nat {
        self.id@
    }
}

impl Guard {
    /// Derive a handle carrying this guard's identity.
    ///
    /// May be called any number of times while the guard lives; every handle
    /// so derived carries the same identifier.
    pub fn handle(&self) -> (h: Id)
        ensures
            h@ == self@,
    {
        self.id
    }
}

impl From<Guard> for Id {
    /// Consume the guard, keeping only the comparison-only view of its
    /// identity. Both this conversion and the repeatable [`Guard::handle`]
    /// are offered; they agree on the identifier.
    fn from(g: Guard) -> (r: Id)
        ensures
            r@ == g@,
    {
        g.id
    }
}

impl vstd::std_specs::convert::FromSpecImpl<Guard> for Id {
    open spec fn obeys_from_spec() -> bool {
        true
    }

    closed spec fn from_spec(g: Guard) -> Id {
        g.id
    }
}

/// One minting event: mint a fresh identifier and package it as the
/// [`Guard`] that owns it.
///
/// The guard is returned by value; keeping it within its intended scope is
/// the caller's discipline. For a structurally bounded scope use
/// [`with_scope`] instead. Either way the identifier is fresh: it was never
/// minted by an earlier event on this allocator, and no later event will
/// mint it again.
pub fn create_scope(alloc: &mut Allocator) -> (g: Guard)
    requires
        old(alloc).wf(),
        !old(alloc).exhausted(),
    ensures
        final(alloc).wf(),
        final(alloc).capacity() == old(alloc).capacity(),
        g@ == old(alloc).spent(),
        final(alloc).spent() == old(alloc).spent() + 1,
        !old(alloc).minted().contains(g@),
        final(alloc).minted().contains(g@),
        forall|i: nat| old(alloc).minted().contains(i) ==> final(alloc).minted().contains(i),
{
    let id: u64 = alloc.mint();
    Guard { id: Id { value: id } }
}

/// One minting event, or `None` when the allocator is exhausted.
///
/// Exhaustion is fatal for minting: the allocator refuses to proceed rather
/// than reuse an identifier, and the refusal leaves it unchanged.
pub fn try_create_scope(alloc: &mut Allocator) -> (r: Option<Guard>)
    requires
        old(alloc).wf(),
    ensures
        final(alloc).wf(),
        final(alloc).capacity() == old(alloc).capacity(),
        old(alloc).exhausted() ==> r is None && final(alloc).spent() == old(alloc).spent(),
        !old(alloc).exhausted() ==> (r matches Some(g)
            && g@ == old(alloc).spent()
            && final(alloc).spent() == old(alloc).spent() + 1
            && !old(alloc).minted().contains(g@)
            && final(alloc).minted().contains(g@)),
{
    match alloc.try_mint() {
        Some(id) => Some(Guard { id: Id { value: id } }),
        None => None,
    }
}

/// Mint `n` scopes in a row and collect one handle from each.
///
/// The handles come back pairwise distinct — no duplicate and no lost
/// increment — and each carries the identifier its event minted, in order.
pub fn mint_handles(alloc: &mut Allocator, n: usize) -> (hs: Vec<Id>)
    requires
        old(alloc).wf(),
        old(alloc).spent() + n <= old(alloc).capacity(),
    ensures
        final(alloc).wf(),
        final(alloc).capacity() == old(alloc).capacity(),
        final(alloc).spent() == old(alloc).spent() + n,
        hs.len() == n,
        forall|k: int| 0 <= k < n ==> hs[k]@ == old(alloc).spent() + k,
        forall|k: int, l: int| 0 <= k < l < n ==> hs[k]@ != hs[l]@,
        forall|k: int, l: int| 0 <= k < l < n ==> hs[k] != hs[l],
{
    let mut hs: Vec<Id> = Vec::new();
    let mut i: usize = 0;
    while i < n
        invariant
            alloc.wf(),
            alloc.capacity() == old(alloc).capacity(),
            i <= n,
            old(alloc).spent() + n <= old(alloc).capacity(),
            alloc.spent() == old(alloc).spent() + i,
            hs.len() == i,
            forall|k: int| 0 <= k < i ==> hs[k]@ == old(alloc).spent() + k,
        decreases n - i,
    {
        let g = create_scope(alloc);
        hs.push(g.handle());
        i = i + 1;
    }
    hs
}

/// Scoped acquisition: run `f` on the guard of one fresh minting event.
///
/// The callback receives the guard by value, so deriving handles is
/// structurally confined to the callback body unless the callback itself
/// moves the guard out. The event is fresh exactly as in [`create_scope`]:
/// whatever `f` returns, it was handed a guard carrying the next unminted
/// identifier.
pub fn with_scope<R, F: FnOnce(Guard) -> R>(alloc: &mut Allocator, f: F) -> (r: R)
    requires
        old(alloc).wf(),
        !old(alloc).exhausted(),
        forall|g: Guard| g@ == old(alloc).spent() ==> #[trigger] call_requires(f, (g,)),
    ensures
        final(alloc).wf(),
        final(alloc).capacity() == old(alloc).capacity(),
        final(alloc).spent() == old(alloc).spent() + 1,
        exists|g: Guard| g@ == old(alloc).spent() && #[trigger] call_ensures(f, (g,), r),
{
    let g = create_scope(alloc);
    f(g)
}

/// One scope creation steps the allocator from `pre` to `post` and yields
/// `g`: exactly what [`create_scope`] ensures of its caller's allocator.
pub open spec fn mints(pre: Allocator, post: Allocator, g: Guard) -> bool {
    &&& pre.wf()
    &&& !pre.exhausted()
    &&& post.wf()
    &&& post.capacity() == pre.capacity()
    &&& g@ == pre.spent()
    &&& post.spent() == pre.spent() + 1
}

/// Between two observations the allocator only moves forward: every
/// operation on it either keeps or grows the count of minted identifiers.
pub open spec fn advances_to(a: Allocator, b: Allocator) -> bool {
    a.spent() <= b.spent()
}

/// Distinct minting events yield distinct identities.
///
/// If one scope creation happens, the allocator then advances by any finite
/// number of further operations, and a second scope creation happens, the
/// two guards — and any handles derived from each — never compare equal.
pub proof fn lemma_distinct_scopes_distinct_handles(
    pre1: Allocator,
    post1: Allocator,
    g1: Guard,
    pre2: Allocator,
    post2: Allocator,
    g2: Guard,
    h1: Id,
    h2: Id,
)
    requires
        mints(pre1, post1, g1),
        advances_to(post1, pre2),
        mints(pre2, post2, g2),
        h1@ == g1@,
        h2@ == g2@,
    ensures
        g1@ != g2@,
        g1 != g2,
        h1@ != h2@,
        h1 != h2,
{
}

/// Handle equality coincides with identifier equality, and is therefore
/// reflexive, symmetric, and transitive.
pub proof fn lemma_handle_equality(a: Id, b: Id, c: Id)
    ensures
        (a == b) <==> (a@ == b@),
        a == a,
        (a == b) ==> (b == a),
        (a == b && b == c) ==> (a == c),
{
}

/// Guard equality likewise coincides with identifier equality: two guards
/// compare equal exactly when they carry the same minting event's identity.
pub proof fn lemma_guard_identity(g1: Guard, g2: Guard)
    ensures
        (g1 == g2) <==> (g1@ == g2@),
{
}

/// All handles derived from one guard, in any order and at any time, compare
/// equal to one another and carry the guard's own identity.
pub proof fn lemma_same_scope_handles_equal(g: Guard, h1: Id, h2: Id)
    requires
        h1@ == g@,
        h2@ == g@,
    ensures
        h1 == h2,
{
}

} // verus!
