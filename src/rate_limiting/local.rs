use vstd::prelude::*;
use vstd::string::StringExecFns;

use crate::rate_limiting::messages::{GetRateLimitingStats, PutRateLimitingStats, RateLimitingEntry};
use crate::text::same_text;

verus! {

/// The key under which the requests of `client` to `bucket` are counted.
pub open spec fn stats_key_of(bucket: Seq<char>, client: Seq<char>) -> Seq<char> {
    bucket + ":"@ + client
}

/// The counts kept under `key`, from the first entry with that key; none where there is none.
pub open spec fn counts_of(stats: Seq<(String, (u64, u64))>, key: Seq<char>) -> (u64, u64)
    decreases stats.len(),
{
    if stats.len() == 0 {
        (0, 0)
    } else if stats[0].0@ == key {
        stats[0].1
    } else {
        counts_of(stats.drop_first(), key)
    }
}

/// Changing the counts of the first entry with `key` changes what `key` counts and no
/// other key's.
proof fn lemma_counts_update(stats: Seq<(String, (u64, u64))>, i: int, c: (u64, u64), k: Seq<char>)
    requires
        0 <= i < stats.len(),
        forall|j: int| 0 <= j < i ==> #[trigger] stats[j].0@ != stats[i].0@,
    ensures
        counts_of(stats.update(i, (stats[i].0, c)), k) == if k == stats[i].0@ { c } else { counts_of(stats, k) },
    decreases stats.len(),
{
    let u = stats.update(i, (stats[i].0, c));
    if i == 0 {
        assert(u.drop_first() =~= stats.drop_first());
    } else {
        assert(u.drop_first() =~= stats.drop_first().update(i - 1, (stats[i].0, c)));
        assert forall|j: int| 0 <= j < i - 1 implies #[trigger] stats.drop_first()[j].0@ != stats.drop_first()[i - 1].0@ by {
            assert(stats[j + 1].0@ != stats[i].0@);
        }
        lemma_counts_update(stats.drop_first(), i - 1, c, k);
        assert(stats[0].0@ != stats[i].0@);
    }
}

/// Appending an entry for a key not yet counted gives that key its counts and leaves the
/// others.
proof fn lemma_counts_push(stats: Seq<(String, (u64, u64))>, key: String, c: (u64, u64), k: Seq<char>)
    requires
        forall|j: int| 0 <= j < stats.len() ==> #[trigger] stats[j].0@ != key@,
    ensures
        counts_of(stats.push((key, c)), k) == if k == key@ { c } else { counts_of(stats, k) },
    decreases stats.len(),
{
    if stats.len() == 0 {
        assert(stats.push((key, c)).drop_first() =~= stats);
    } else {
        assert(stats.push((key, c)).drop_first() =~= stats.drop_first().push((key, c)));
        assert forall|j: int| 0 <= j < stats.drop_first().len() implies #[trigger] stats.drop_first()[j].0@ != key@ by {
            assert(stats[j + 1].0@ != key@);
        }
        lemma_counts_push(stats.drop_first(), key, c, k);
    }
}

/// Counts requests per bucket and client, in process, one entry per key.
pub struct LocalRateLimiter {
    stats: Vec<(String, (u64, u64))>,
}

impl LocalRateLimiter {
    /// The counts kept under `key`: requests seen, and requests limited.
    pub closed spec fn counts(&self, key: Seq<char>) -> (u64, u64) {
        counts_of(self.stats@, key)
    }

    /// Each key is counted in one entry only.
    pub closed spec fn wf(&self) -> bool {
        forall|i: int, j: int|
            0 <= i < j < self.stats@.len() ==> #[trigger] self.stats@[i].0@ != #[trigger] self.stats@[j].0@
    }

    pub fn new() -> (r: Self)
        ensures
            r.wf(),
            forall|k: Seq<char>| #[trigger] r.counts(k) == (0u64, 0u64),
    {
        LocalRateLimiter { stats: Vec::new() }
    }

    /// Counts one more request of the message's client to its bucket; the count stays at its
    /// largest value once there.
    pub fn handle(&mut self, msg: PutRateLimitingStats)
        requires
            old(self).wf(),
        ensures
            final(self).wf(),
            forall|k: Seq<char>| #[trigger] final(self).counts(k) == if k == stats_key_of(msg.bucket@, msg.client@) {
                (
                    if old(self).counts(k).0 == u64::MAX { u64::MAX } else { (old(self).counts(k).0 + 1) as u64 },
                    old(self).counts(k).1,
                )
            } else {
                old(self).counts(k)
            },
    {
        let mut key = String::from_str(msg.bucket.as_str());
        key.append(":");
        key.append(msg.client.as_str());
        let mut i: usize = 0;
        while i < self.stats.len()
            invariant
                key@ == stats_key_of(msg.bucket@, msg.client@),
                self.stats@ == old(self).stats@,
                old(self).wf(),
                i <= self.stats@.len(),
                forall|j: int| 0 <= j < i ==> #[trigger] self.stats@[j].0@ != key@,
            decreases self.stats@.len() - i,
        {
            if same_text(self.stats[i].0.as_str(), key.as_str()) {
                let (seen, limited) = self.stats[i].1;
                let next = if seen == u64::MAX { u64::MAX } else { seen + 1 };
                let ghost before = self.stats@;
                let name = self.stats[i].0.clone();
                self.stats.set(i, (name, (next, limited)));
                proof {
                    assert(self.stats@ =~= before.update(i as int, (before[i as int].0, (next, limited))));
                    assert forall|k: Seq<char>| #[trigger] counts_of(self.stats@, k) == if k == key@ {
                        (next, limited)
                    } else {
                        counts_of(before, k)
                    } by {
                        lemma_counts_update(before, i as int, (next, limited), k);
                        assert(self.stats@ =~= before.update(i as int, (before[i as int].0, (next, limited))));
                    }
                    assert forall|a: int, b: int| 0 <= a < b < self.stats@.len() implies
                        #[trigger] self.stats@[a].0@ != #[trigger] self.stats@[b].0@ by {
                        assert(self.stats@[a].0 == before[a].0 && self.stats@[b].0 == before[b].0);
                        assert(before[a].0@ != before[b].0@);
                    }
                    lemma_counts_first(before, i as int);
                }
                return;
            }
            i = i + 1;
        }
        let ghost before = self.stats@;
        let k2 = key.clone();
        self.stats.push((key, (1, 0)));
        proof {
            assert forall|k: Seq<char>| #[trigger] counts_of(self.stats@, k) == if k == k2@ {
                (1u64, 0u64)
            } else {
                counts_of(before, k)
            } by {
                lemma_counts_push(before, k2, (1, 0), k);
            }
            assert forall|a: int, b: int| 0 <= a < b < self.stats@.len() implies
                #[trigger] self.stats@[a].0@ != #[trigger] self.stats@[b].0@ by {
                if b < before.len() {
                    assert(self.stats@[a] == before[a] && self.stats@[b] == before[b]);
                } else {
                    assert(self.stats@[a] == before[a]);
                }
            }
            lemma_counts_absent(before, k2@);
        }
    }

    /// The count of requests of the message's client to its bucket.
    pub fn requests(&self, msg: &GetRateLimitingStats) -> (r: RateLimitingEntry)
        ensures
            r.bucket@ == msg.bucket@,
            r.client@ == msg.client@,
            r.requests == self.counts(stats_key_of(msg.bucket@, msg.client@)).0,
    {
        let mut key = String::from_str(msg.bucket.as_str());
        key.append(":");
        key.append(msg.client.as_str());
        let mut i: usize = 0;
        assert(self.stats@.subrange(0, self.stats@.len() as int) =~= self.stats@);
        while i < self.stats.len()
            invariant
                key@ == stats_key_of(msg.bucket@, msg.client@),
                i <= self.stats@.len(),
                counts_of(self.stats@, key@) == counts_of(self.stats@.subrange(i as int, self.stats@.len() as int), key@),
            decreases self.stats@.len() - i,
        {
            let ghost rest = self.stats@.subrange(i as int, self.stats@.len() as int);
            assert(rest.drop_first() =~= self.stats@.subrange(i + 1, self.stats@.len() as int));
            if same_text(self.stats[i].0.as_str(), key.as_str()) {
                assert(rest[0] == self.stats@[i as int]);
                return RateLimitingEntry {
                    bucket: msg.bucket.clone(),
                    client: msg.client.clone(),
                    requests: self.stats[i].1.0,
                };
            }
            i = i + 1;
        }
        assert(self.stats@.subrange(i as int, self.stats@.len() as int) =~= Seq::<(String, (u64, u64))>::empty());
        RateLimitingEntry { bucket: msg.bucket.clone(), client: msg.client.clone(), requests: 0 }
    }
}

/// The counts of the first entry with a key are those the key has.
proof fn lemma_counts_first(stats: Seq<(String, (u64, u64))>, i: int)
    requires
        0 <= i < stats.len(),
        forall|j: int| 0 <= j < i ==> #[trigger] stats[j].0@ != stats[i].0@,
    ensures
        counts_of(stats, stats[i].0@) == stats[i].1,
    decreases i,
{
    if i > 0 {
        assert forall|j: int| 0 <= j < i - 1 implies #[trigger] stats.drop_first()[j].0@ != stats.drop_first()[i - 1].0@ by {
            assert(stats[j + 1].0@ != stats[i].0@);
        }
        lemma_counts_first(stats.drop_first(), i - 1);
        assert(stats[0].0@ != stats[i].0@);
    }
}

/// A key that no entry has counts nothing.
proof fn lemma_counts_absent(stats: Seq<(String, (u64, u64))>, key: Seq<char>)
    requires
        forall|j: int| 0 <= j < stats.len() ==> #[trigger] stats[j].0@ != key,
    ensures
        counts_of(stats, key) == (0u64, 0u64),
    decreases stats.len(),
{
    if stats.len() > 0 {
        assert forall|j: int| 0 <= j < stats.drop_first().len() implies #[trigger] stats.drop_first()[j].0@ != key by {
            assert(stats[j + 1].0@ != key);
        }
        lemma_counts_absent(stats.drop_first(), key);
        assert(stats[0].0@ != key);
    }
}

} // verus!
