//! The bounded play queue: file names from the watch directory, in play order.

use rand::seq::IteratorRandom;
use vstd::prelude::*;

verus! {

/// Most items the queue holds at once.
pub const CAPACITY: usize = 5;

/// The names that a vector of strings holds.
pub open spec fn names_of(v: Seq<String>) -> Seq<Seq<char>> {
    v.map_values(|s: String| s@)
}

/// A queue in a valid state: within capacity, no name twice.
pub open spec fn queue_ok(q: Seq<Seq<char>>) -> bool {
    q.len() <= CAPACITY && q.no_duplicates()
}

/// The entries of a scan that may join `queue`: those not queued yet, each
/// name once, in the order of the scan.
pub open spec fn fresh_of(queue: Seq<Seq<char>>, entries: Seq<Seq<char>>) -> Seq<Seq<char>>
    decreases entries.len(),
{
    if entries.len() == 0 {
        Seq::empty()
    } else {
        let prev = fresh_of(queue, entries.drop_last());
        let e = entries.last();
        if queue.contains(e) || prev.contains(e) {
            prev
        } else {
            prev.push(e)
        }
    }
}

/// `new` is what a refill of `old` from the scan `entries` may give: `old`
/// kept in front, then as many fresh names as fit, none twice.
pub open spec fn refill_step(old: Seq<Seq<char>>, entries: Seq<Seq<char>>, new: Seq<Seq<char>>) -> bool {
    let fresh = fresh_of(old, entries);
    let added = new.skip(old.len() as int);
    &&& old.len() <= new.len()
    &&& new.take(old.len() as int) == old
    &&& added.no_duplicates()
    &&& forall|i: int| 0 <= i < added.len() ==> fresh.contains(#[trigger] added[i])
    &&& added.len() == vstd::math::min(fresh.len() as int, CAPACITY - old.len())
}

/// The fresh names of a scan repeat no name, and are exactly the scanned
/// names that are not queued.
pub proof fn lemma_fresh_of(queue: Seq<Seq<char>>, entries: Seq<Seq<char>>)
    ensures
        fresh_of(queue, entries).no_duplicates(),
        forall|x: Seq<char>| #[trigger] fresh_of(queue, entries).contains(x) <==> (entries.contains(x) && !queue.contains(x)),
    decreases entries.len(),
{
    if entries.len() > 0 {
        let prev_entries = entries.drop_last();
        lemma_fresh_of(queue, prev_entries);
        let prev = fresh_of(queue, prev_entries);
        let e = entries.last();
        assert forall|x: Seq<char>| entries.contains(x) <==> (prev_entries.contains(x) || x == e) by {
            if entries.contains(x) {
                let i = choose|i: int| 0 <= i < entries.len() && entries[i] == x;
                if i < entries.len() - 1 {
                    assert(prev_entries[i] == x);
                }
            }
            if prev_entries.contains(x) {
                let i = choose|i: int| 0 <= i < prev_entries.len() && prev_entries[i] == x;
                assert(entries[i] == x);
            }
            if x == e {
                assert(entries[entries.len() - 1] == x);
            }
        }
        if !(queue.contains(e) || prev.contains(e)) {
            let next = prev.push(e);
            assert forall|x: Seq<char>| next.contains(x) <==> (prev.contains(x) || x == e) by {
                if next.contains(x) {
                    let i = choose|i: int| 0 <= i < next.len() && next[i] == x;
                    if i < prev.len() {
                        assert(prev[i] == x);
                    }
                }
                if prev.contains(x) {
                    let i = choose|i: int| 0 <= i < prev.len() && prev[i] == x;
                    assert(next[i] == x);
                }
                if x == e {
                    assert(next[prev.len() as int] == x);
                }
            }
        }
    }
}


/// A refill keeps the queue within capacity and free of repeated names.
pub proof fn lemma_refill_keeps_queue_ok(old: Seq<Seq<char>>, entries: Seq<Seq<char>>, new: Seq<Seq<char>>)
    requires
        queue_ok(old),
        refill_step(old, entries, new),
    ensures
        queue_ok(new),
{
    lemma_fresh_of(old, entries);
    let fresh = fresh_of(old, entries);
    let added = new.skip(old.len() as int);
    assert(new =~= old + added);
    assert forall|i: int, j: int| 0 <= i < old.len() && 0 <= j < added.len() implies old[i] != added[j] by {
        assert(fresh.contains(added[j]));
        assert(old.contains(old[i]));
    }
    vstd::seq_lib::lemma_no_dup_in_concat(old, added);
}

/// Whatever sequence of scans and completed playbacks the queue goes through,
/// it never holds more than `CAPACITY` items nor the same name twice.
pub proof fn lemma_queue_stays_ok(states: Seq<Seq<Seq<char>>>, scans: Seq<Seq<Seq<char>>>)
    requires
        states.len() == scans.len() + 1,
        queue_ok(states[0]),
        forall|i: int|
            0 <= i < scans.len() ==> refill_step(#[trigger] states[i], scans[i], states[i + 1])
                || (states[i].len() > 0 && states[i + 1] == states[i].drop_first()),
    ensures
        forall|i: int| 0 <= i < states.len() ==> queue_ok(#[trigger] states[i]),
    decreases scans.len(),
{
    if scans.len() > 0 {
        let n = scans.len() - 1;
        lemma_queue_stays_ok(states.drop_last(), scans.drop_last());
        assert(queue_ok(states.drop_last()[n]));
        if refill_step(states[n], scans[n], states[n + 1]) {
            lemma_refill_keeps_queue_ok(states[n], scans[n], states[n + 1]);
        } else {
            lemma_drop_first_ok(states[n]);
        }
        assert forall|i: int| 0 <= i < states.len() implies queue_ok(#[trigger] states[i]) by {
            if i < n + 1 {
                assert(states[i] == states.drop_last()[i]);
            }
        }
    }
}

/// Removing the head keeps a valid queue valid, and the head is then gone.
pub proof fn lemma_drop_first_ok(q: Seq<Seq<char>>)
    requires
        queue_ok(q),
        q.len() > 0,
    ensures
        queue_ok(q.drop_first()),
        !q.drop_first().contains(q[0]),
{
    let rest = q.drop_first();
    if rest.contains(q[0]) {
        let i = choose|i: int| 0 <= i < rest.len() && rest[i] == q[0];
        assert(q[i + 1] == q[0]);
    }
}

/// The number of names a refill adds is the number of distinct scanned
/// names not queued yet, or the free room, whichever is smaller.
pub proof fn lemma_refill_count(old: Seq<Seq<char>>, entries: Seq<Seq<char>>, new: Seq<Seq<char>>)
    requires
        queue_ok(old),
        refill_step(old, entries, new),
    ensures
        new.len() - old.len() == vstd::math::min(
            entries.to_set().difference(old.to_set()).len() as int,
            CAPACITY - old.len(),
        ),
{
    lemma_fresh_of(old, entries);
    let fresh = fresh_of(old, entries);
    assert(fresh.to_set() =~= entries.to_set().difference(old.to_set()));
    fresh.unique_seq_to_set();
}

/// Once the head has finished playing and its file is gone from the watch
/// directory, no later refill brings it back.
pub proof fn lemma_completed_item_stays_gone(
    old: Seq<Seq<char>>,
    entries: Seq<Seq<char>>,
    new: Seq<Seq<char>>,
)
    requires
        queue_ok(old),
        old.len() > 0,
        !entries.contains(old[0]),
        refill_step(old.drop_first(), entries, new),
    ensures
        !new.contains(old[0]),
{
    let rest = old.drop_first();
    lemma_drop_first_ok(old);
    lemma_fresh_of(rest, entries);
    let added = new.skip(rest.len() as int);
    assert(new =~= rest + added);
    if new.contains(old[0]) {
        let i = choose|i: int| 0 <= i < new.len() && new[i] == old[0];
        if i < rest.len() {
            assert(rest.contains(old[0]));
        } else {
            assert(fresh_of(rest, entries).contains(added[i - rest.len()]));
        }
    }
}

/// Relies on rand's `IteratorRandom::choose_multiple` over `0..n` with the
/// thread-local generator: it returns `min(amount, n)` values of the range,
/// each taken from the range at most once.
#[verifier::external_body]
fn choose_indices(n: usize, amount: usize) -> (r: Vec<usize>)
    ensures
        r@.len() == vstd::math::min(n as int, amount as int),
        r@.no_duplicates(),
        forall|i: int| 0 <= i < r@.len() ==> #[trigger] r@[i] < n,
{
    let mut rng = rand::thread_rng();
    (0..n).choose_multiple(&mut rng, amount)
}

/// The play queue. Its head is the item playing or next to play.
pub struct ReplayQueue {
    items: Vec<String>,
}

impl View for ReplayQueue {
    type V = Seq<Seq<char>>;

    closed spec fn view(&self) -> Seq<Seq<char>> {
        names_of(self.items@)
    }
}

impl ReplayQueue {
    /// An empty queue.
    pub fn new() -> (r: ReplayQueue)
        ensures
            r@ == Seq::<Seq<char>>::empty(),
    {
        let r = ReplayQueue { items: Vec::new() };
        assert(r@ =~= Seq::<Seq<char>>::empty());
        r
    }

    /// Number of queued items.
    pub fn len(&self) -> (r: usize)
        ensures
            r == self@.len(),
    {
        self.items.len()
    }

    pub fn is_empty(&self) -> (r: bool)
        ensures
            r == (self@.len() == 0),
    {
        self.items.len() == 0
    }

    /// The name at position `i`; position 0 is the head.
    pub fn get(&self, i: usize) -> (r: &String)
        requires
            i < self@.len(),
        ensures
            r@ == self@[i as int],
    {
        &self.items[i]
    }

    /// Whether `name` is queued.
    pub fn contains(&self, name: &String) -> (r: bool)
        ensures
            r == self@.contains(name@),
    {
        let mut i: usize = 0;
        while i < self.items.len()
            invariant
                i <= self.items@.len(),
                self@ == names_of(self.items@),
                forall|j: int| 0 <= j < i ==> self@[j] != name@,
            decreases self.items@.len() - i,
        {
            if self.items[i] == *name {
                assert(self@[i as int] == name@);
                return true;
            }
            i += 1;
        }
        proof {
            if self@.contains(name@) {
                let j = choose|j: int| 0 <= j < self@.len() && self@[j] == name@;
                assert(self@[j] != name@);
            }
        }
        false
    }

    /// The entries of a scan that may join the queue: those not queued yet,
    /// each name once, in the order of the scan.
    pub fn fresh_candidates(&self, entries: &Vec<String>) -> (r: Vec<String>)
        ensures
            names_of(r@) == fresh_of(self@, names_of(entries@)),
    {
        let mut r: Vec<String> = Vec::new();
        let mut i: usize = 0;
        while i < entries.len()
            invariant
                i <= entries@.len(),
                names_of(r@) == fresh_of(self@, names_of(entries@).take(i as int)),
            decreases entries@.len() - i,
        {
            let e = &entries[i];
            let ghost all = names_of(entries@);
            let ghost prefix = all.take(i as int);
            let ghost next = all.take(i + 1);
            assert(next.drop_last() =~= prefix);
            assert(next.last() == e@);
            let queued = self.contains(e);
            let mut seen = false;
            let mut j: usize = 0;
            while j < r.len()
                invariant
                    j <= r@.len(),
                    !seen ==> forall|k: int| 0 <= k < j ==> names_of(r@)[k] != e@,
                    seen ==> names_of(r@).contains(e@),
                decreases r@.len() - j,
            {
                if r[j] == *e {
                    assert(names_of(r@)[j as int] == e@);
                    seen = true;
                }
                j += 1;
            }
            proof {
                if !seen && names_of(r@).contains(e@) {
                    let k = choose|k: int| 0 <= k < names_of(r@).len() && names_of(r@)[k] == e@;
                    assert(names_of(r@)[k] != e@);
                }
            }
            if !queued && !seen {
                let ghost before = r@;
                r.push(e.clone());
                assert(names_of(r@) =~= names_of(before).push(e@));
            }
            i += 1;
        }
        assert(names_of(entries@).take(entries@.len() as int) =~= names_of(entries@));
        r
    }

    /// Appends `fresh[picks[0]]`, `fresh[picks[1]]`, ... in that order.
    pub fn append_picks(&mut self, fresh: &Vec<String>, picks: &Vec<usize>)
        requires
            queue_ok(old(self)@),
            names_of(fresh@).no_duplicates(),
            forall|i: int| 0 <= i < fresh@.len() ==> !old(self)@.contains(#[trigger] fresh@[i]@),
            picks@.no_duplicates(),
            forall|i: int| 0 <= i < picks@.len() ==> #[trigger] picks@[i] < fresh@.len(),
            old(self)@.len() + picks@.len() <= CAPACITY,
        ensures
            final(self)@ == old(self)@ + picks@.map_values(|j: usize| fresh@[j as int]@),
            queue_ok(final(self)@),
    {
        let ghost start = self@;
        let ghost added = picks@.map_values(|j: usize| fresh@[j as int]@);
        let mut k: usize = 0;
        while k < picks.len()
            invariant
                k <= picks@.len(),
                self@ == start + added.take(k as int),
                self@ == names_of(self.items@),
                forall|i: int| 0 <= i < picks@.len() ==> #[trigger] picks@[i] < fresh@.len(),
                added == picks@.map_values(|j: usize| fresh@[j as int]@),
            decreases picks@.len() - k,
        {
            let item = fresh[picks[k]].clone();
            let ghost before = self.items@;
            self.items.push(item);
            assert(names_of(self.items@) =~= names_of(before).push(added[k as int]));
            assert(added.take(k + 1) =~= added.take(k as int).push(added[k as int]));
            k += 1;
        }
        assert(added.take(picks@.len() as int) =~= added);
        proof {
            assert forall|a: int, b: int| 0 <= a < b < added.len() implies added[a] != added[b] by {
                assert(picks@[a] != picks@[b]);
                assert(names_of(fresh@)[picks@[a] as int] == added[a]);
                assert(names_of(fresh@)[picks@[b] as int] == added[b]);
            }
            assert forall|i: int, j: int| 0 <= i < start.len() && 0 <= j < added.len() implies start[i] != added[j] by {
                assert(start.contains(start[i]));
            }
            vstd::seq_lib::lemma_no_dup_in_concat(start, added);
        }
    }

    /// Fills the free room from a scan of the watch directory: as many names
    /// as fit, drawn at random from the scanned names not queued yet, each
    /// appended after the items already queued.
    pub fn refill(&mut self, entries: &Vec<String>)
        requires
            queue_ok(old(self)@),
        ensures
            refill_step(old(self)@, names_of(entries@), final(self)@),
            queue_ok(final(self)@),
    {
        let ghost start = self@;
        let fresh = self.fresh_candidates(entries);
        proof {
            lemma_fresh_of(start, names_of(entries@));
        }
        let room = CAPACITY - self.items.len();
        let picks = choose_indices(fresh.len(), room);
        proof {
            assert forall|i: int| 0 <= i < fresh@.len() implies !start.contains(#[trigger] fresh@[i]@) by {
                assert(names_of(fresh@)[i] == fresh@[i]@);
                assert(names_of(fresh@).contains(fresh@[i]@));
            }
        }
        self.append_picks(&fresh, &picks);
        proof {
            let added = picks@.map_values(|j: usize| fresh@[j as int]@);
            assert(self@.skip(start.len() as int) =~= added);
            assert(self@.take(start.len() as int) =~= start);
            assert forall|i: int| 0 <= i < added.len() implies names_of(fresh@).contains(#[trigger] added[i]) by {
                assert(names_of(fresh@)[picks@[i] as int] == added[i]);
            }
            assert forall|a: int, b: int| 0 <= a < b < added.len() implies added[a] != added[b] by {
                assert(self@[start.len() + a] == added[a]);
                assert(self@[start.len() + b] == added[b]);
            }
        }
    }

    /// Removes the head, the item that has just finished playing.
    pub fn pop_head(&mut self) -> (r: Option<String>)
        requires
            queue_ok(old(self)@),
        ensures
            old(self)@.len() == 0 ==> r is None && final(self)@ == old(self)@,
            old(self)@.len() > 0 ==> (r matches Some(h) && h@ == old(self)@[0]
                && final(self)@ == old(self)@.drop_first()),
            queue_ok(final(self)@),
    {
        if self.items.len() == 0 {
            None
        } else {
            let ghost start = self@;
            let h = self.items.remove(0);
            assert(self@ =~= start.drop_first());
            proof {
                lemma_drop_first_ok(start);
            }
            Some(h)
        }
    }
}

} // verus!
