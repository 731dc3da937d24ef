//! Authorship eligibility: filters, their composition, the slot beacon, the
//! authorship notification and the query made ahead of block execution.
use vstd::prelude::*;
use core::marker::PhantomData;

verus! {

/// Receives the author of the current block once it is known and eligible.
pub trait EventHandler<Author> {
    fn note_author(author: Author);
}

/// The handler that discards every notification.
impl<T> EventHandler<T> for () {
    fn note_author(_author: T) {
    }
}

/// A mechanism for determining the current slot.
///
/// The slot is read afresh from the chain context on every call.
pub trait SlotBeacon {
    fn slot() -> u32;
}

/// Decides whether an author is eligible to author in a slot.
///
/// This is the trait that an eligibility filter implements. The verdict is a
/// function of the author and the slot alone, evaluated against the chain state
/// that the filter reads: asking twice gives the same answer.
pub trait CanAuthor<AuthorId> {
    /// Whether `author` may produce the block of `slot`.
    spec fn permits(author: AuthorId, slot: u32) -> bool;

    fn can_author(author: &AuthorId, slot: &u32) -> (r: bool)
        ensures
            r == Self::permits(*author, *slot),
    ;
}

/// The filter under which anyone can author.
impl<T> CanAuthor<T> for () {
    open spec fn permits(author: T, slot: u32) -> bool {
        true
    }

    fn can_author(_author: &T, _slot: &u32) -> (r: bool)
        ensures
            r,
    {
        true
    }
}

/// A pair of filters that permits an author only where both of them do.
impl<T, F: CanAuthor<T>, G: CanAuthor<T>> CanAuthor<T> for (F, G) {
    open spec fn permits(author: T, slot: u32) -> bool {
        F::permits(author, slot) && G::permits(author, slot)
    }

    fn can_author(author: &T, slot: &u32) -> (r: bool) {
        F::can_author(author, slot) && G::can_author(author, slot)
    }
}

/// A filter that permits an author wherever one of `F` and `G` does.
pub struct Either<F, G> {
    filters: PhantomData<(F, G)>,
}

impl<T, F: CanAuthor<T>, G: CanAuthor<T>> CanAuthor<T> for Either<F, G> {
    open spec fn permits(author: T, slot: u32) -> bool {
        F::permits(author, slot) || G::permits(author, slot)
    }

    fn can_author(author: &T, slot: &u32) -> (r: bool) {
        F::can_author(author, slot) || G::can_author(author, slot)
    }
}

/// The filter under which anyone can author permits every author in every slot.
pub proof fn lemma_default_permits_all<T>(author: T, slot: u32)
    ensures
        <() as CanAuthor<T>>::permits(author, slot),
{
}

/// Combining two filters in a pair accepts exactly the intersection of what each accepts.
pub proof fn lemma_pair_is_intersection<T, F: CanAuthor<T>, G: CanAuthor<T>>(author: T, slot: u32)
    ensures
        <(F, G) as CanAuthor<T>>::permits(author, slot) <==> (F::permits(author, slot)
            && G::permits(author, slot)),
{
}

/// Combining two filters with [`Either`] accepts exactly the union of what each accepts.
pub proof fn lemma_either_is_union<T, F: CanAuthor<T>, G: CanAuthor<T>>(author: T, slot: u32)
    ensures
        <Either<F, G> as CanAuthor<T>>::permits(author, slot) <==> (F::permits(author, slot)
            || G::permits(author, slot)),
{
}

/// Runs the full check of `author` in `slot` and, only when it passes, notifies
/// the handler of the author, once. Returns the verdict.
pub fn note_if_eligible<T, F: CanAuthor<T>, H: EventHandler<T>>(author: T, slot: u32) -> (r: bool)
    ensures
        r == F::permits(author, slot),
{
    if F::can_author(&author, &slot) {
        H::note_author(author);
        true
    } else {
        false
    }
}

/// The query that a node makes before it builds a block: would `author` be
/// eligible at `relay_parent`, against the state that `relay_parent` identifies?
///
/// The query is read-only, and it never turns away an author that the full
/// check `Full` accepts: only the full check is authoritative, so the query may
/// admit more, never less.
pub trait AuthorFilterAPI<AuthorId> {
    /// The check made during block execution.
    type Full: CanAuthor<AuthorId>;

    /// The answer of the query.
    spec fn admits(author: AuthorId, relay_parent: u32) -> bool;

    /// Whatever the full check accepts, the query admits.
    proof fn lemma_admits_eligible(author: AuthorId, relay_parent: u32)
        ensures
            <Self::Full as CanAuthor<AuthorId>>::permits(author, relay_parent) ==> Self::admits(
                author,
                relay_parent,
            ),
    ;

    fn can_author(author: AuthorId, relay_parent: u32) -> (r: bool)
        ensures
            r == Self::admits(author, relay_parent),
    ;
}

/// The query answered by running the full check `F` itself.
pub struct Precheck<F> {
    filter: PhantomData<F>,
}

impl<T, F: CanAuthor<T>> AuthorFilterAPI<T> for Precheck<F> {
    type Full = F;

    open spec fn admits(author: T, relay_parent: u32) -> bool {
        F::permits(author, relay_parent)
    }

    proof fn lemma_admits_eligible(author: T, relay_parent: u32) {
    }

    fn can_author(author: T, relay_parent: u32) -> (r: bool) {
        F::can_author(&author, &relay_parent)
    }
}

/// Where the query turns an author away, the full check against the same state
/// turns that author away too.
pub proof fn lemma_denial_is_final<T, A: AuthorFilterAPI<T>>(author: T, relay_parent: u32)
    requires
        !A::admits(author, relay_parent),
    ensures
        !<A::Full as CanAuthor<T>>::permits(author, relay_parent),
{
    A::lemma_admits_eligible(author, relay_parent);
}

} // verus!
