//! Capacity-bounded, oldest-evicted log of progress text.

use vstd::prelude::*;

verus! {

/// What one `record` call leaves in the log: the new entry is appended, and
/// the oldest entries are evicted until at most `cap` remain.
pub open spec fn record_model(log: Seq<Seq<char>>, cap: nat, line: Seq<char>) -> Seq<Seq<char>> {
    let full = log.push(line);
    if full.len() <= cap {
        full
    } else {
        full.subrange(full.len() - cap, full.len() as int)
    }
}

/// How many entries survive once `total` entries have been recorded into a
/// log bounded at `cap`.
pub open spec fn retained_len(total: nat, cap: nat) -> nat {
    if total <= cap {
        total
    } else {
        cap
    }
}

/// The log left by recording each of `lines` in order, starting from `log`.
pub open spec fn record_all(log: Seq<Seq<char>>, cap: nat, lines: Seq<Seq<char>>) -> Seq<
    Seq<char>,
>
    decreases lines.len(),
{
    if lines.len() == 0 {
        log
    } else {
        record_all(record_model(log, cap, lines[0]), cap, lines.drop_first())
    }
}

/// After any nonempty sequence of `record` calls at a fixed capacity, the
/// log holds at most `cap` entries, and those entries are exactly the most
/// recently recorded ones (counting any earlier content), in original order.
pub proof fn lemma_record_all_bounded(log: Seq<Seq<char>>, cap: nat, lines: Seq<Seq<char>>)
    requires
        lines.len() > 0,
    ensures
        record_all(log, cap, lines).len() == retained_len((log + lines).len(), cap),
        record_all(log, cap, lines) =~= (log + lines).subrange(
            (log + lines).len() - record_all(log, cap, lines).len(),
            (log + lines).len() as int,
        ),
    decreases lines.len(),
{
    let all = log + lines;
    let full0 = log.push(lines[0]);
    let log1 = record_model(log, cap, lines[0]);
    let rest = lines.drop_first();
    if lines.len() == 1 {
        assert(record_all(log1, cap, rest) == log1);
        assert(all =~= full0);
        if full0.len() <= cap {
            assert(log1 =~= all.subrange(0, all.len() as int));
        }
    } else {
        lemma_record_all_bounded(log1, cap, rest);
        let all1 = log1 + rest;
        let result = record_all(log1, cap, rest);
        // `log1` is a suffix of `full0`, and `all == full0 + rest`, so `all1`
        // is a suffix of `all`.
        assert(all =~= full0 + rest);
        let d = all.len() - all1.len();
        assert forall|i: int| 0 <= i < all1.len() implies all1[i] == all[d + i] by {
            if i < log1.len() {
                if full0.len() <= cap {
                    assert(all1[i] == full0[i]);
                } else {
                    assert(log1[i] == full0[full0.len() - cap + i]);
                }
            } else {
                assert(all1[i] == rest[i - log1.len()]);
                assert(all[d + i] == rest[d + i - full0.len()]);
            }
        }
        assert(all1 =~= all.subrange(d, all.len() as int));
        assert(retained_len(all1.len(), cap) == retained_len(all.len(), cap));
        assert forall|i: int| 0 <= i < result.len() implies result[i] == all.subrange(
            all.len() - result.len(),
            all.len() as int,
        )[i] by {
            assert(result[i] == all1[all1.len() - result.len() + i]);
            assert(all1[all1.len() - result.len() + i] == all[d + all1.len() - result.len() + i]);
        }
        assert(record_all(log, cap, lines) == result);
    }
}

/// An ordered history of progress text, capped at a configurable capacity;
/// recording beyond the cap evicts the oldest entries first.
pub struct BoundedLog {
    entries: Vec<String>,
    capacity: usize,
}

impl View for BoundedLog {
    type V = Seq<Seq<char>>;

    closed spec fn view(&self) -> Seq<Seq<char>> {
        self.entries.deep_view()
    }
}

impl BoundedLog {
    /// The configured bound on how many entries the log retains.
    pub closed spec fn cap(&self) -> nat {
        self.capacity as nat
    }

    /// An empty log with the given capacity.
    pub fn new(capacity: usize) -> (log: Self)
        ensures
            log@ =~= Seq::<Seq<char>>::empty(),
            log.cap() == capacity,
    {
        BoundedLog { entries: Vec::new(), capacity }
    }

    /// Append one entry, then evict the oldest entries until at most
    /// `cap` remain. After every call the log holds at most `cap` entries.
    pub fn record(&mut self, line: String)
        ensures
            final(self)@ == record_model(old(self)@, old(self).cap(), line@),
            final(self).cap() == old(self).cap(),
            final(self)@.len() <= final(self).cap(),
    {
        self.entries.push(line);
        let ghost full = self.entries@;
        let ghost full_deep = self.entries.deep_view();
        proof {
            assert(full_deep =~= old(self)@.push(line@));
        }
        while self.entries.len() > self.capacity
            invariant
                self.capacity == old(self).capacity,
                self.entries@.len() <= full.len(),
                self.entries@.len() >= self.capacity || self.entries@.len() == full.len(),
                self.entries@ =~= full.subrange(
                    full.len() - self.entries@.len(),
                    full.len() as int,
                ),
            decreases self.entries@.len(),
        {
            self.entries.remove(0);
        }
        proof {
            let d = full.len() - self.entries@.len();
            assert forall|i: int| 0 <= i < self.entries@.len() implies self.entries.deep_view()[i]
                == full_deep.subrange(d, full.len() as int)[i] by {
                assert(self.entries@[i] == full[d + i]);
            }
            assert(self.entries.deep_view() =~= full_deep.subrange(d, full.len() as int));
            if full.len() <= self.capacity {
                assert(self.entries.deep_view() =~= full_deep);
            }
            assert(final(self)@ =~= record_model(old(self)@, old(self).cap(), line@));
        }
    }

    /// Change the bound used by future `record` calls. Existing content is
    /// not truncated retroactively.
    pub fn set_capacity(&mut self, capacity: usize)
        ensures
            final(self)@ == old(self)@,
            final(self).cap() == capacity,
    {
        self.capacity = capacity;
    }

    /// How many entries the log currently holds.
    pub fn len(&self) -> (n: usize)
        ensures
            n == self@.len(),
    {
        self.entries.len()
    }

    /// The configured capacity.
    pub fn capacity(&self) -> (c: usize)
        ensures
            c == self.cap(),
    {
        self.capacity
    }

    /// The retained entries, oldest first.
    pub fn entries(&self) -> (v: &Vec<String>)
        ensures
            v.deep_view() == self@,
    {
        &self.entries
    }
}

} // verus!
