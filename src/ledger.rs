//! The registry state and its one state transition.
//!
//! A [`Ledger`] holds the counter of the next identifier, the append-only
//! store of kitties keyed by owner and identifier, and the log of
//! notifications handed out so far.

use vstd::prelude::*;

use crate::generator::{dna_of, generate};
use crate::kitty::Kitty;

verus! {

/// The notification that a successful creation produces.
#[derive(Clone, Copy, Debug, PartialEq, Eq)]
pub enum Event {
    /// A kitty was created: owner, identifier, kitty.
    KittyCreated(u64, u32, Kitty),
}

/// The one way in which a creation can fail.
#[derive(Clone, Copy, Debug, PartialEq, Eq, Structural)]
pub enum Error {
    /// The identifier counter is at its largest value.
    KittiesIdOverflow,
}

/// Takes the next identifier from the counter and advances it by one.
/// At the counter's largest value it fails and leaves the counter alone.
pub fn allocate(next_id: &mut u32) -> (r: Result<u32, Error>)
    ensures
        *old(next_id) == u32::MAX ==> r == Err::<u32, Error>(Error::KittiesIdOverflow)
            && *final(next_id) == *old(next_id),
        *old(next_id) < u32::MAX ==> r == Ok::<u32, Error>(*old(next_id)) && *final(next_id)
            == *old(next_id) + 1,
{
    let current = *next_id;
    match next_id.checked_add(1) {
        None => Err(Error::KittiesIdOverflow),
        Some(n) => {
            *next_id = n;
            Ok(current)
        },
    }
}

/// The kitty stored under `(owner, id)` in a sequence of stored records,
/// the latest record winning.
pub open spec fn lookup(s: Seq<(u64, u32, Kitty)>, owner: u64, id: u32) -> Option<Kitty>
    decreases s.len(),
{
    if s.len() == 0 {
        None
    } else if s.last().0 == owner && s.last().1 == id {
        Some(s.last().2)
    } else {
        lookup(s.drop_last(), owner, id)
    }
}

/// The abstract state of a ledger.
pub struct LedgerView {
    /// The identifier that the next creation receives.
    pub next_kitty_id: u32,
    /// The stored records `(owner, identifier, kitty)`, in order of creation.
    pub kitties: Seq<(u64, u32, Kitty)>,
    /// The notifications produced so far, oldest first.
    pub events: Seq<Event>,
}

impl LedgerView {
    /// The identifier of the first stored record, if there is one.
    pub open spec fn first_id(self) -> int {
        self.next_kitty_id - self.kitties.len()
    }

    /// The records carry consecutive identifiers that end just below the
    /// counter.
    pub open spec fn wf(self) -> bool {
        &&& self.kitties.len() <= self.next_kitty_id
        &&& forall|i: int|
            0 <= i < self.kitties.len() ==> #[trigger] self.kitties[i].1 as int == self.first_id()
                + i
    }

    /// The kitty stored under `(owner, id)`, if any.
    pub open spec fn kitty(self, owner: u64, id: u32) -> Option<Kitty> {
        lookup(self.kitties, owner, id)
    }

    /// The registry as a map from `(owner, identifier)` to kitty.
    pub open spec fn registry(self) -> Map<(u64, u32), Kitty> {
        Map::new(
            |k: (u64, u32)| self.kitty(k.0, k.1) is Some,
            |k: (u64, u32)| self.kitty(k.0, k.1)->Some_0,
        )
    }
}

/// What a creation for `owner` whose attribute vector is `dna` does to a
/// ledger: at the counter's largest value it fails and changes nothing;
/// otherwise it hands out the counter's value as identifier, advances the
/// counter, stores exactly one new record and produces one notification.
pub open spec fn minted(
    pre: LedgerView,
    post: LedgerView,
    owner: u64,
    dna: Seq<u8>,
    r: Result<u32, Error>,
) -> bool {
    if pre.next_kitty_id == u32::MAX {
        r == Err::<u32, Error>(Error::KittiesIdOverflow) && post == pre
    } else {
        let kitty = post.kitties.last().2;
        &&& r == Ok::<u32, Error>(pre.next_kitty_id)
        &&& kitty.0@ == dna
        &&& post.next_kitty_id == pre.next_kitty_id + 1
        &&& post.kitties == pre.kitties.push((owner, pre.next_kitty_id, kitty))
        &&& post.events == pre.events.push(Event::KittyCreated(owner, pre.next_kitty_id, kitty))
    }
}

/// The registry's state: the identifier counter, the append-only store and
/// the notification log.
pub struct Ledger {
    next_kitty_id: u32,
    kitties: Vec<(u64, u32, Kitty)>,
    events: Vec<Event>,
}

impl View for Ledger {
    type V = LedgerView;

    closed spec fn view(&self) -> LedgerView {
        LedgerView { next_kitty_id: self.next_kitty_id, kitties: self.kitties@, events: self.events@ }
    }
}

impl Ledger {
    /// An empty ledger whose first identifier is 0.
    pub fn new() -> (r: Ledger)
        ensures
            r@.wf(),
            r@.next_kitty_id == 0,
            r@.kitties.len() == 0,
            r@.events.len() == 0,
    {
        Ledger { next_kitty_id: 0, kitties: Vec::new(), events: Vec::new() }
    }

    /// An empty ledger whose first identifier is `next_kitty_id`, as if the
    /// identifiers below it had been handed out before.
    pub fn from_genesis(next_kitty_id: u32) -> (r: Ledger)
        ensures
            r@.wf(),
            r@.next_kitty_id == next_kitty_id,
            r@.kitties.len() == 0,
            r@.events.len() == 0,
    {
        Ledger { next_kitty_id, kitties: Vec::new(), events: Vec::new() }
    }

    /// The identifier that the next creation receives.
    pub fn next_kitty_id(&self) -> (r: u32)
        ensures
            r == self@.next_kitty_id,
    {
        self.next_kitty_id
    }

    /// The notifications produced so far, oldest first.
    pub fn events(&self) -> (r: &Vec<Event>)
        ensures
            r@ == self@.events,
    {
        &self.events
    }

    /// The kitty stored under `(owner, id)`, or `None` if it was never
    /// created.
    pub fn kitties(&self, owner: u64, id: u32) -> (r: Option<Kitty>)
        ensures
            r == self@.kitty(owner, id),
    {
        let mut i: usize = self.kitties.len();
        assert(self.kitties@.subrange(0, i as int) =~= self.kitties@);
        while i > 0
            invariant
                i <= self.kitties@.len(),
                lookup(self.kitties@, owner, id) == lookup(
                    self.kitties@.subrange(0, i as int),
                    owner,
                    id,
                ),
            decreases i,
        {
            let record = &self.kitties[i - 1];
            if record.0 == owner && record.1 == id {
                return Some(record.2);
            }
            assert(self.kitties@.subrange(0, i as int).drop_last() =~= self.kitties@.subrange(
                0,
                i - 1,
            ));
            i = i - 1;
        }
        None
    }

    /// Stores `kitty` under `(owner, id)`.
    fn insert(&mut self, owner: u64, id: u32, kitty: Kitty)
        ensures
            final(self)@.next_kitty_id == old(self)@.next_kitty_id,
            final(self)@.kitties == old(self)@.kitties.push((owner, id, kitty)),
            final(self)@.events == old(self)@.events,
    {
        self.kitties.push((owner, id, kitty));
    }

    /// Creates `kitty` for `owner` under the next identifier, and returns
    /// that identifier. Fails with `KittiesIdOverflow`, changing nothing,
    /// when the counter is at its largest value.
    pub fn mint(&mut self, owner: u64, kitty: Kitty) -> (r: Result<u32, Error>)
        requires
            old(self)@.wf(),
        ensures
            final(self)@.wf(),
            minted(old(self)@, final(self)@, owner, kitty.0@, r),
            r is Ok ==> final(self)@.kitties.last().2 == kitty,
    {
        let id = match allocate(&mut self.next_kitty_id) {
            Ok(id) => id,
            Err(e) => return Err(e),
        };
        self.insert(owner, id, kitty);
        self.events.push(Event::KittyCreated(owner, id, kitty));
        Ok(id)
    }

    /// Creates a kitty for `caller`, derived from the block's randomness
    /// `seed`, the caller and the `index` of the call within its block, and
    /// returns its identifier. Fails with `KittiesIdOverflow`, changing
    /// nothing, when the counter is at its largest value.
    pub fn create(&mut self, caller: u64, seed: &[u8; 32], index: Option<u32>) -> (r: Result<
        u32,
        Error,
    >)
        requires
            old(self)@.wf(),
        ensures
            final(self)@.wf(),
            minted(old(self)@, final(self)@, caller, dna_of(seed@, caller, index), r),
    {
        // Deriving the attributes has no effect, so a failure after it
        // still leaves the ledger untouched.
        let kitty = generate(seed, caller, index);
        self.mint(caller, kitty)
    }
}

} // verus!
