//! Job ids and an in-memory ledger that keeps the store's contract: every
//! write goes through one of the two transition scripts, atomically.
use vstd::prelude::*;
use vstd::arithmetic::power2::pow2;
use std::collections::HashMap;
use crate::error::{reads_as, reply_status, text_of, MyRedisError};
use crate::status::{decode_view, encode_view, lemma_round_trip, JobStatus, StatusView};
use crate::transition::{script_for, script_of, stored_after};

verus! {

broadcast use vstd::std_specs::hash::group_hash_axioms;

/// The lowercase hexadecimal digit of `d`, for `0 <= d < 16`.
pub open spec fn hex_digit(d: int) -> char {
    seq!['0', '1', '2', '3', '4', '5', '6', '7', '8', '9', 'a', 'b', 'c', 'd', 'e', 'f'][d]
}

/// The `k`-th of the 32 hexadecimal digits of `bits`, most significant first.
pub open spec fn nibble(bits: u128, k: int) -> int {
    (bits as int / pow2((4 * (31 - k)) as nat) as int) % 16
}

/// How many hyphens stand before position `p` of the hyphenated form.
pub open spec fn hyphens_before(p: int) -> int {
    (if p > 8 { 1int } else { 0int }) + (if p > 13 { 1int } else { 0int }) + (if p > 18 {
        1int
    } else {
        0int
    }) + (if p > 23 { 1int } else { 0int })
}

/// The hyphenated form of a 128-bit id: 32 lowercase hexadecimal digits in
/// groups of 8, 4, 4, 4 and 12.
pub open spec fn hyphenated_text(bits: u128) -> Seq<char> {
    Seq::new(
        36,
        |p: int|
            if p == 8 || p == 13 || p == 18 || p == 23 {
                '-'
            } else {
                hex_digit(nibble(bits, p - hyphens_before(p)))
            },
    )
}

/// Relies on uuid's `Uuid::from_u128`, which takes the bytes of the value most
/// significant first, and on its `Display`, which writes the hyphenated
/// lowercase form.
#[verifier::external_body]
fn hyphenated(bits: u128) -> (r: String)
    ensures
        r@ == hyphenated_text(bits),
{
    uuid::Uuid::from_u128(bits).hyphenated().to_string()
}

/// A job identifier: the 128 bits of its UUID.
#[derive(PartialEq, Eq, Structural, Clone, Copy, Debug)]
pub struct JobId {
    pub value: u128,
}

impl JobId {
    /// The key under which the job's status is stored: the id's hyphenated form.
    pub fn key(&self) -> (r: String)
        ensures
            r@ == hyphenated_text(self.value),
    {
        hyphenated(self.value)
    }
}

/// What the key `id` of `store` holds after a write of `s`.
pub open spec fn set_outcome(store: Map<u128, Seq<char>>, id: u128, s: StatusView) -> Seq<char> {
    stored_after(script_of(s), store.get(id), encode_view(s))
}

/// The per-job state machine: where a job stands after a write of
/// `requested`, from nothing or from `current`. A final status never changes.
pub open spec fn next_status(current: Option<StatusView>, requested: StatusView) -> StatusView {
    match current {
        None => requested,
        Some(c) => if c is Accepted {
            requested
        } else {
            c
        },
    }
}

/// A write of a valid status moves the job as the state machine says, from
/// a key that holds nothing or a readable status.
pub proof fn lemma_set_follows_state_machine(
    store: Map<u128, Seq<char>>,
    id: u128,
    requested: StatusView,
)
    requires
        requested.is_valid(),
        store.contains_key(id) ==> decode_view(store[id]) is Some,
    ensures
        decode_view(set_outcome(store, id, requested)) == Some(
            next_status(
                if store.contains_key(id) {
                    decode_view(store[id])
                } else {
                    None
                },
                requested,
            ),
        ),
{
    lemma_round_trip(requested);
}

/// The store after `writes` were written, in order, for `id`.
pub open spec fn after_writes(
    store: Map<u128, Seq<char>>,
    id: u128,
    writes: Seq<StatusView>,
) -> Map<u128, Seq<char>>
    decreases writes.len(),
{
    if writes.len() == 0 {
        store
    } else {
        let before = after_writes(store, id, writes.drop_last());
        before.insert(id, set_outcome(before, id, writes.last()))
    }
}

/// A final status is never replaced: a write on a key that holds a text
/// reading as `Done` or `Error` leaves that text as it is.
pub proof fn lemma_terminal_stays(store: Map<u128, Seq<char>>, id: u128, s: StatusView)
    requires
        store.contains_key(id),
        decode_view(store[id]) matches Some(t) && t.is_terminal(),
    ensures
        set_outcome(store, id, s) == store[id],
        store.insert(id, set_outcome(store, id, s)) == store,
{
    assert(store.insert(id, store[id]) =~= store);
}

/// No regression: once a write in a sequence of writes for one id leaves a
/// final status (`Done` or `Error`), the key holds that same text after every
/// later write, whatever status each asked for; so every later `set` and
/// `get` reads that same final status.
pub proof fn lemma_no_regression(
    store: Map<u128, Seq<char>>,
    id: u128,
    writes: Seq<StatusView>,
    i: int,
    j: int,
)
    requires
        0 < i <= j <= writes.len(),
        decode_view(after_writes(store, id, writes.take(i))[id]) matches Some(t) && t.is_terminal(),
    ensures
        after_writes(store, id, writes.take(j)).contains_key(id),
        after_writes(store, id, writes.take(j))[id] == after_writes(store, id, writes.take(i))[id],
    decreases j - i,
{
    if j > i {
        lemma_no_regression(store, id, writes, i, j - 1);
        let prev = after_writes(store, id, writes.take(j - 1));
        assert(writes.take(j).drop_last() =~= writes.take(j - 1));
        lemma_terminal_stays(prev, id, writes[j - 1]);
    } else {
        assert(writes.take(i).drop_last() =~= writes.take(i - 1));
    }
}

/// Writing `Accepted` twice for a job that is absent or accepted: both writes
/// read `Accepted`, and the second one leaves the store as the first left it.
pub proof fn lemma_accepted_idempotent(store: Map<u128, Seq<char>>, id: u128)
    requires
        !store.contains_key(id) || decode_view(store[id]) == Some(StatusView::Accepted),
    ensures
        ({
            let first = set_outcome(store, id, StatusView::Accepted);
            let after = store.insert(id, first);
            &&& decode_view(first) == Some(StatusView::Accepted)
            &&& set_outcome(after, id, StatusView::Accepted) == first
            &&& after.insert(id, set_outcome(after, id, StatusView::Accepted)) == after
        }),
{
    reveal_strlit("Accepted");
    let first = set_outcome(store, id, StatusView::Accepted);
    let after = store.insert(id, first);
    if store.contains_key(id) {
        assert(store[id] == "Accepted"@) by {
            reveal_strlit("Done");
            if store[id] != "Accepted"@ {
                assert(decode_view(store[id]) != Some(StatusView::Accepted));
            }
        }
    }
    assert(decode_view("Accepted"@) == Some(StatusView::Accepted));
    assert(after.insert(id, first) =~= after);
}

/// Two writers that both write `Accepted` for an absent job, one after the
/// other as the store serializes them, both read `Accepted` and see the same
/// stored text; neither fails.
pub proof fn lemma_accepted_first_write_wins(store: Map<u128, Seq<char>>, id: u128)
    requires
        !store.contains_key(id),
    ensures
        ({
            let first = set_outcome(store, id, StatusView::Accepted);
            let second = set_outcome(store.insert(id, first), id, StatusView::Accepted);
            &&& first == encode_view(StatusView::Accepted)
            &&& second == first
            &&& decode_view(second) == Some(StatusView::Accepted)
        }),
{
    lemma_accepted_idempotent(store, id);
}

/// A store of job statuses in their wire text, keyed by job id.
pub struct Ledger {
    records: HashMap<u128, String>,
}

impl View for Ledger {
    type V = Map<u128, Seq<char>>;

    closed spec fn view(&self) -> Map<u128, Seq<char>> {
        self.records@.map_values(|s: String| s@)
    }
}

impl Ledger {
    /// A ledger with no job in it.
    pub fn new() -> (r: Ledger)
        ensures
            r@ == Map::<u128, Seq<char>>::empty(),
    {
        let r = Ledger { records: HashMap::new() };
        assert(r@ =~= Map::<u128, Seq<char>>::empty());
        r
    }

    /// The status stored for `id`; a missing or unreadable value is an
    /// `IncompatibleType` error.
    pub fn get(&self, id: &JobId) -> (r: Result<JobStatus, MyRedisError>)
        ensures
            reads_as(r, self@.get(id.value)),
    {
        let stored = match self.records.get(&id.value) {
            Some(s) => Some(s.clone()),
            None => None,
        };
        assert(text_of(stored) == self@.get(id.value));
        reply_status(Ok(stored))
    }

    /// Writes `status` for `id` through its transition script and returns the
    /// status that the key holds afterwards, which differs from `status` where
    /// the write was refused.
    pub fn set(&mut self, id: &JobId, status: JobStatus) -> (r: Result<JobStatus, MyRedisError>)
        ensures
            final(self)@ == old(self)@.insert(id.value, set_outcome(old(self)@, id.value, status@)),
            reads_as(r, Some(set_outcome(old(self)@, id.value, status@))),
    {
        let script = script_for(&status);
        let current = match self.records.get(&id.value) {
            Some(s) => Some(s.clone()),
            None => None,
        };
        assert(text_of(current) == old(self)@.get(id.value));
        let next = script.apply(current, status.encode());
        self.records.insert(id.value, next.clone());
        assert(self@ =~= old(self)@.insert(id.value, next@));
        reply_status(Ok(Some(next)))
    }
}

} // verus!
