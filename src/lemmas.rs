//! What holds of the ledger across creations: identifiers, counter, store.

use vstd::prelude::*;

use crate::kitty::Kitty;
use crate::ledger::{lookup, minted, Error, LedgerView};

verus! {

/// The keys `(owner, identifier)` under which a sequence of records stores
/// a kitty.
pub open spec fn keys_of(s: Seq<(u64, u32, Kitty)>) -> Set<(u64, u32)> {
    Set::new(|k: (u64, u32)| lookup(s, k.0, k.1) is Some)
}

/// In records whose identifiers run consecutively from `first`, the kitty
/// under `(owner, id)` is found at position `id - first`.
pub proof fn lemma_lookup_consecutive(s: Seq<(u64, u32, Kitty)>, first: int, owner: u64, id: u32)
    requires
        forall|i: int| 0 <= i < s.len() ==> #[trigger] s[i].1 as int == first + i,
    ensures
        lookup(s, owner, id) == (if first <= id < first + s.len() && s[id - first].0 == owner {
            Some(s[id - first].2)
        } else {
            None
        }),
    decreases s.len(),
{
    if s.len() > 0 {
        let t = s.drop_last();
        assert forall|i: int| 0 <= i < t.len() implies #[trigger] t[i].1 as int == first + i by {
            assert(t[i] == s[i]);
        }
        lemma_lookup_consecutive(t, first, owner, id);
        if first <= id < first + t.len() {
            assert(t[id - first] == s[id - first]);
        }
    }
}

/// Records with consecutive identifiers store exactly as many keys as
/// there are records.
pub proof fn lemma_keys_len(s: Seq<(u64, u32, Kitty)>, first: int)
    requires
        forall|i: int| 0 <= i < s.len() ==> #[trigger] s[i].1 as int == first + i,
    ensures
        keys_of(s).finite(),
        keys_of(s).len() == s.len(),
    decreases s.len(),
{
    if s.len() == 0 {
        assert(keys_of(s) =~= Set::empty());
    } else {
        let t = s.drop_last();
        let last = (s.last().0, s.last().1);
        assert forall|i: int| 0 <= i < t.len() implies #[trigger] t[i].1 as int == first + i by {
            assert(t[i] == s[i]);
        }
        lemma_keys_len(t, first);
        lemma_lookup_consecutive(t, first, last.0, last.1);
        assert(!keys_of(t).contains(last));
        assert(keys_of(s) =~= keys_of(t).insert(last));
    }
}

/// Every stored identifier lies below the counter, and identifiers grow
/// strictly with the order of creation, so no two records share one.
pub proof fn lemma_ids_increasing(v: LedgerView)
    requires
        v.wf(),
    ensures
        forall|i: int| 0 <= i < v.kitties.len() ==> #[trigger] v.kitties[i].1 < v.next_kitty_id,
        forall|i: int, j: int|
            0 <= i < j < v.kitties.len() ==> #[trigger] v.kitties[i].1 < #[trigger] v.kitties[j].1,
{
}

/// The registry holds exactly one entry per stored record.
pub proof fn lemma_registry_len(v: LedgerView)
    requires
        v.wf(),
    ensures
        v.registry().dom().finite(),
        v.registry().dom().len() == v.kitties.len(),
{
    lemma_keys_len(v.kitties, v.first_id());
    assert(v.registry().dom() =~= keys_of(v.kitties));
}

/// A creation keeps the ledger well formed, successful or not.
pub proof fn lemma_minted_wf(
    pre: LedgerView,
    post: LedgerView,
    owner: u64,
    dna: Seq<u8>,
    r: Result<u32, Error>,
)
    requires
        pre.wf(),
        minted(pre, post, owner, dna, r),
    ensures
        post.wf(),
{
    if pre.next_kitty_id != u32::MAX {
        assert forall|i: int| 0 <= i < post.kitties.len() implies #[trigger] post.kitties[i].1 as int
            == post.first_id() + i by {
            if i < pre.kitties.len() {
                assert(post.kitties[i] == pre.kitties[i]);
            }
        }
    }
}

/// Round trip: after a successful creation of identifier `id` for `owner`,
/// looking up `(owner, id)` gives the created kitty, whose attribute vector
/// is `dna`. The key was free before, and the registry gained that one
/// entry and nothing else.
pub proof fn lemma_round_trip(pre: LedgerView, post: LedgerView, owner: u64, dna: Seq<u8>, id: u32)
    requires
        pre.wf(),
        minted(pre, post, owner, dna, Ok::<u32, Error>(id)),
    ensures
        post.kitty(owner, id) == Some(post.kitties.last().2),
        post.kitty(owner, id)->Some_0.0@ == dna,
        pre.kitty(owner, id) is None,
        post.registry() == pre.registry().insert((owner, id), post.kitties.last().2),
{
    assert(post.kitties.drop_last() =~= pre.kitties);
    lemma_lookup_consecutive(pre.kitties, pre.first_id(), owner, id);
    assert(post.registry() =~= pre.registry().insert((owner, id), post.kitties.last().2));
}

/// The store is append-only: a creation, successful or not, leaves every
/// kitty that was stored before where it was.
pub proof fn lemma_append_only(
    pre: LedgerView,
    post: LedgerView,
    owner: u64,
    dna: Seq<u8>,
    r: Result<u32, Error>,
    o: u64,
    id: u32,
)
    requires
        pre.wf(),
        minted(pre, post, owner, dna, r),
        pre.kitty(o, id) is Some,
    ensures
        post.kitty(o, id) == pre.kitty(o, id),
{
    if pre.next_kitty_id != u32::MAX {
        assert(post.kitties.drop_last() =~= pre.kitties);
        lemma_lookup_consecutive(pre.kitties, pre.first_id(), o, id);
    }
}

proof fn lemma_run_prefix(
    vs: Seq<LedgerView>,
    owners: Seq<u64>,
    dnas: Seq<Seq<u8>>,
    ids: Seq<u32>,
    k: int,
)
    requires
        vs.len() == ids.len() + 1,
        owners.len() == ids.len(),
        dnas.len() == ids.len(),
        vs[0].next_kitty_id == 0,
        vs[0].kitties.len() == 0,
        forall|i: int|
            0 <= i < ids.len() ==> minted(vs[i], vs[i + 1], owners[i], dnas[i], Ok(#[trigger] ids[i])),
        0 <= k <= ids.len(),
    ensures
        vs[k].wf(),
        vs[k].next_kitty_id == k,
        vs[k].kitties.len() == k,
        forall|i: int| 0 <= i < k ==> #[trigger] ids[i] == i,
    decreases k,
{
    if k > 0 {
        lemma_run_prefix(vs, owners, dnas, ids, k - 1);
        assert(minted(vs[k - 1], vs[k], owners[k - 1], dnas[k - 1], Ok(ids[k - 1])));
        lemma_minted_wf(vs[k - 1], vs[k], owners[k - 1], dnas[k - 1], Ok(ids[k - 1]));
    }
}

/// Over a run of successful creations on a fresh ledger, the identifiers
/// handed out are 0, 1, 2, ... in order, whatever the owners, so none
/// repeats; after `n` creations the counter is `n` and the registry holds
/// exactly `n` entries.
pub proof fn lemma_creation_run(
    vs: Seq<LedgerView>,
    owners: Seq<u64>,
    dnas: Seq<Seq<u8>>,
    ids: Seq<u32>,
)
    requires
        vs.len() == ids.len() + 1,
        owners.len() == ids.len(),
        dnas.len() == ids.len(),
        vs[0].next_kitty_id == 0,
        vs[0].kitties.len() == 0,
        forall|i: int|
            0 <= i < ids.len() ==> minted(vs[i], vs[i + 1], owners[i], dnas[i], Ok(#[trigger] ids[i])),
    ensures
        forall|i: int| 0 <= i < ids.len() ==> #[trigger] ids[i] == i,
        vs.last().next_kitty_id == ids.len(),
        vs.last().registry().dom().finite(),
        vs.last().registry().dom().len() == ids.len(),
{
    lemma_run_prefix(vs, owners, dnas, ids, ids.len() as int);
    lemma_registry_len(vs.last());
}

} // verus!
