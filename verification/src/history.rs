//! The rolling usage history.
//!
//! Snapshots of bucket percentages are kept for seven days. Loading migrates
//! legacy bucket labels to the canonical vocabulary and prunes expired
//! snapshots; saving appends a snapshot of the just-fetched usage and prunes
//! again. A snapshot's buckets are a list of label/value pairs with distinct
//! labels, read as a finite mapping.

use vstd::prelude::*;

use crate::usage::{UsageData, UsageLimit};

verus! {

/// Retention window of the history, in seconds: seven days.
pub const MAX_AGE_SECS: i64 = 604800;

/// One timestamped recording of all bucket percentages, immutable once
/// written. Values are in ten-thousandths of full usage.
#[derive(Debug, Clone, PartialEq, Eq)]
pub struct UsageSnapshot {
    /// Unix seconds of the recording.
    pub timestamp: i64,
    /// Label/value pairs with pairwise distinct labels.
    pub buckets: Vec<(String, u32)>,
}

/// The whole persisted history, ordered by append.
#[derive(Debug, Clone, PartialEq, Eq)]
pub struct UsageHistory {
    pub snapshots: Vec<UsageSnapshot>,
}

/// The mapping a pair list denotes; a later pair with the same label wins.
pub open spec fn bucket_lookup(s: Seq<(String, u32)>, k: Seq<char>) -> Option<u32>
    decreases s.len(),
{
    if s.len() == 0 {
        None
    } else if s.last().0@ == k {
        Some(s.last().1)
    } else {
        bucket_lookup(s.drop_last(), k)
    }
}

/// Pairwise distinct labels.
pub open spec fn keys_unique(s: Seq<(String, u32)>) -> bool {
    forall|i: int, j: int| 0 <= i < j < s.len() ==> (#[trigger] s[i]).0@ != (#[trigger] s[j]).0@
}

/// The pair list with the pair labelled `k` taken out (the last such pair,
/// which under distinct labels is the only one).
pub open spec fn remove_key(s: Seq<(String, u32)>, k: Seq<char>) -> Seq<(String, u32)>
    decreases s.len(),
{
    if s.len() == 0 {
        s
    } else if s.last().0@ == k {
        s.drop_last()
    } else {
        remove_key(s.drop_last(), k).push(s.last())
    }
}

proof fn lemma_remove_key_lookup(s: Seq<(String, u32)>, k: Seq<char>, k2: Seq<char>)
    requires
        keys_unique(s),
    ensures
        k2 == k ==> bucket_lookup(remove_key(s, k), k2) is None,
        k2 != k ==> bucket_lookup(remove_key(s, k), k2) == bucket_lookup(s, k2),
    decreases s.len(),
{
    if s.len() == 0 {
    } else if s.last().0@ == k {
        // remove_key is the prefix; the removed pair was the only one
        // labelled k, so looking k up in the prefix finds nothing.
        if k2 == k {
            if bucket_lookup(s.drop_last(), k) is Some {
                lemma_lookup_some_key_at(s.drop_last(), k);
            }
        }
    } else {
        assert(keys_unique(s.drop_last())) by {
            assert forall|i: int, j: int| 0 <= i < j < s.drop_last().len() implies (
            #[trigger] s.drop_last()[i]).0@ != (#[trigger] s.drop_last()[j]).0@ by {
                assert(s.drop_last()[i] == s[i]);
                assert(s.drop_last()[j] == s[j]);
            }
        }
        lemma_remove_key_lookup(s.drop_last(), k, k2);
        let r = remove_key(s.drop_last(), k).push(s.last());
        assert(r.last() == s.last());
        assert(r.drop_last() =~= remove_key(s.drop_last(), k));
    }
}

proof fn lemma_lookup_some_key_at(s: Seq<(String, u32)>, k: Seq<char>)
    requires
        bucket_lookup(s, k) is Some,
    ensures
        exists|j: int| 0 <= j < s.len() && (#[trigger] s[j]).0@ == k,
    decreases s.len(),
{
    if s.len() > 0 {
        if s.last().0@ == k {
            assert(s[s.len() - 1].0@ == k);
        } else {
            lemma_lookup_some_key_at(s.drop_last(), k);
            let j = choose|j: int|
                0 <= j < s.drop_last().len() && (#[trigger] s.drop_last()[j]).0@ == k;
            assert(s[j].0@ == k);
        }
    }
}

proof fn lemma_remove_key_unique(s: Seq<(String, u32)>, k: Seq<char>)
    requires
        keys_unique(s),
    ensures
        keys_unique(remove_key(s, k)),
        forall|j: int|
            0 <= j < remove_key(s, k).len() ==> (#[trigger] remove_key(s, k)[j]).0@ != k,
    decreases s.len(),
{
    if s.len() == 0 {
    } else if s.last().0@ == k {
        assert(remove_key(s, k) == s.drop_last());
        assert forall|i: int, j: int| 0 <= i < j < s.drop_last().len() implies (#[trigger] s
            .drop_last()[i]).0@ != (#[trigger] s.drop_last()[j]).0@ by {
            assert(s.drop_last()[i] == s[i]);
            assert(s.drop_last()[j] == s[j]);
        }
        assert forall|j: int|
            0 <= j < s.drop_last().len() implies (#[trigger] s.drop_last()[j]).0@ != k by {
            assert(s.drop_last()[j] == s[j]);
            assert(s[s.len() - 1].0@ == k);
        }
    } else {
        assert(keys_unique(s.drop_last())) by {
            assert forall|i: int, j: int| 0 <= i < j < s.drop_last().len() implies (
            #[trigger] s.drop_last()[i]).0@ != (#[trigger] s.drop_last()[j]).0@ by {
                assert(s.drop_last()[i] == s[i]);
                assert(s.drop_last()[j] == s[j]);
            }
        }
        lemma_remove_key_unique(s.drop_last(), k);
        let pre = remove_key(s.drop_last(), k);
        let r = pre.push(s.last());
        assert(remove_key(s, k) == r);
        // every label of the shorter removal result occurs in the prefix
        lemma_remove_key_keys_from(s.drop_last(), k);
        assert forall|i: int, j: int| 0 <= i < j < r.len() implies (#[trigger] r[i]).0@ != (
        #[trigger] r[j]).0@ by {
            if j < r.len() - 1 {
                assert(r[i] == pre[i]);
                assert(r[j] == pre[j]);
            } else {
                assert(r[j] == s.last());
                assert(r[i] == pre[i]);
            }
        }
        assert forall|j: int| 0 <= j < r.len() implies (#[trigger] r[j]).0@ != k by {
            if j < r.len() - 1 {
                assert(r[j] == pre[j]);
            } else {
                assert(r[j] == s.last());
            }
        }
    }
}

/// Every pair of a removal result is a pair of the original list.
proof fn lemma_remove_key_keys_from(s: Seq<(String, u32)>, k: Seq<char>)
    ensures
        forall|i: int|
            0 <= i < remove_key(s, k).len() ==> exists|j: int|
                0 <= j < s.len() && #[trigger] remove_key(s, k)[i] == s[j],
    decreases s.len(),
{
    if s.len() == 0 {
    } else if s.last().0@ == k {
        assert forall|i: int| 0 <= i < remove_key(s, k).len() implies exists|j: int|
            0 <= j < s.len() && #[trigger] remove_key(s, k)[i] == s[j] by {
            assert(remove_key(s, k)[i] == s[i]);
        }
    } else {
        lemma_remove_key_keys_from(s.drop_last(), k);
        let pre = remove_key(s.drop_last(), k);
        let r = pre.push(s.last());
        assert forall|i: int| 0 <= i < r.len() implies exists|j: int|
            0 <= j < s.len() && #[trigger] r[i] == s[j] by {
            if i < r.len() - 1 {
                assert(r[i] == pre[i]);
                let j = choose|j: int| 0 <= j < s.drop_last().len() && pre[i] == s.drop_last()[j];
                assert(s.drop_last()[j] == s[j]);
                assert(r[i] == s[j]);
            } else {
                assert(r[i] == s[s.len() - 1]);
            }
        }
    }
}

/// A list whose lookup misses `k` is unchanged by removing `k`.
proof fn lemma_remove_key_absent(s: Seq<(String, u32)>, k: Seq<char>)
    requires
        bucket_lookup(s, k) is None,
    ensures
        remove_key(s, k) == s,
    decreases s.len(),
{
    if s.len() > 0 {
        lemma_remove_key_absent(s.drop_last(), k);
        assert(remove_key(s.drop_last(), k).push(s.last()) =~= s);
    }
}

proof fn lemma_push_unique(s: Seq<(String, u32)>, p: (String, u32))
    requires
        keys_unique(s),
        forall|j: int| 0 <= j < s.len() ==> (#[trigger] s[j]).0@ != p.0@,
    ensures
        keys_unique(s.push(p)),
{
    let r = s.push(p);
    assert forall|i: int, j: int| 0 <= i < j < r.len() implies (#[trigger] r[i]).0@ != (
    #[trigger] r[j]).0@ by {
        if j < r.len() - 1 {
            assert(r[i] == s[i]);
            assert(r[j] == s[j]);
        } else {
            assert(r[i] == s[i]);
            assert(r[j] == p);
        }
    }
}

/// Removes the pair labelled `key`, returning its value if one was there.
fn remove_entry(b: &mut Vec<(String, u32)>, key: &str) -> (r: Option<u32>)
    requires
        keys_unique(old(b)@),
    ensures
        keys_unique(final(b)@),
        final(b)@ == remove_key(old(b)@, key@),
        r == bucket_lookup(old(b)@, key@),
{
    let target = String::from_str(key);
    let ghost orig = b@;
    let mut out: Vec<(String, u32)> = Vec::new();
    let mut found: Option<u32> = None;
    let n = b.len();
    let mut i: usize = 0;
    while i < n
        invariant
            n == orig.len(),
            b@ == orig,
            keys_unique(orig),
            i <= n,
            target@ == key@,
            match found {
                Some(v) => {
                    &&& out@ == remove_key(orig.take(i as int), key@)
                    &&& bucket_lookup(orig.take(i as int), key@) == Some(v)
                    &&& exists|j: int| 0 <= j < i && (#[trigger] orig[j]).0@ == key@
                },
                None => {
                    &&& out@ == orig.take(i as int)
                    &&& bucket_lookup(orig.take(i as int), key@) is None
                },
            },
        decreases n - i,
    {
        proof {
            assert(orig.take(i + 1).drop_last() =~= orig.take(i as int));
            assert(orig.take(i + 1).last() == orig[i as int]);
        }
        let pair = &b[i];
        if found.is_none() && pair.0 == target {
            found = Some(pair.1);
            assert(bucket_lookup(orig.take(i + 1), key@) == Some(orig[i as int].1));
        } else {
            proof {
                if found is Some {
                    // a pair labelled `key` already went by; distinct labels
                    // rule out a second one here
                    let j = choose|j: int| 0 <= j < i && (#[trigger] orig[j]).0@ == key@;
                    assert(orig[j].0@ != orig[i as int].0@);
                }
            }
            let cloned = (pair.0.clone(), pair.1);
            assert(cloned == orig[i as int]);
            out.push(cloned);
        }
        i = i + 1;
    }
    proof {
        assert(orig.take(n as int) =~= orig);
        if found is None {
            lemma_remove_key_absent(orig, key@);
        }
        lemma_remove_key_unique(orig, key@);
    }
    *b = out;
    found
}

/// Binds `kstr` to `v`, replacing any pair that carried the same label.
fn set_entry(b: &mut Vec<(String, u32)>, kstr: String, v: u32)
    requires
        keys_unique(old(b)@),
    ensures
        keys_unique(final(b)@),
        final(b)@ == remove_key(old(b)@, kstr@).push((kstr, v)),
        forall|k: Seq<char>|
            #[trigger] bucket_lookup(final(b)@, k) == if k == kstr@ {
                Some(v)
            } else {
                bucket_lookup(old(b)@, k)
            },
{
    let ghost orig = b@;
    let _ = remove_entry(b, kstr.as_str());
    proof {
        lemma_remove_key_unique(orig, kstr@);
        lemma_push_unique(b@, (kstr, v));
    }
    b.push((kstr, v));
    proof {
        let r = remove_key(orig, kstr@).push((kstr, v));
        assert(r.drop_last() =~= remove_key(orig, kstr@));
        assert forall|k: Seq<char>|
            #[trigger] bucket_lookup(b@, k) == if k == kstr@ {
                Some(v)
            } else {
                bucket_lookup(orig, k)
            } by {
            lemma_remove_key_lookup(orig, kstr@, k);
        }
    }
}

/// What one migration step leaves at `k`: if a pair labelled `l` was
/// present, its value now sits under `c`, nothing sits under `l`, and all
/// other labels are untouched.
pub open spec fn spec_migrate_pair(
    s: Seq<(String, u32)>,
    l: Seq<char>,
    c: Seq<char>,
    k: Seq<char>,
) -> Option<u32> {
    match bucket_lookup(s, l) {
        Some(v) => if k == c {
            Some(v)
        } else if k == l {
            None
        } else {
            bucket_lookup(s, k)
        },
        None => bucket_lookup(s, k),
    }
}

fn migrate_one(b: &mut Vec<(String, u32)>, legacy: &str, canonical: &str)
    requires
        keys_unique(old(b)@),
        legacy@ != canonical@,
    ensures
        keys_unique(final(b)@),
        forall|k: Seq<char>|
            #[trigger] bucket_lookup(final(b)@, k) == spec_migrate_pair(
                old(b)@,
                legacy@,
                canonical@,
                k,
            ),
{
    let ghost orig = b@;
    match remove_entry(b, legacy) {
        Some(v) => {
            let ghost mid = b@;
            set_entry(b, String::from_str(canonical), v);
            proof {
                assert forall|k: Seq<char>|
                    #[trigger] bucket_lookup(b@, k) == spec_migrate_pair(
                        orig,
                        legacy@,
                        canonical@,
                        k,
                    ) by {
                    lemma_remove_key_lookup(orig, legacy@, k);
                    lemma_remove_key_lookup(orig, legacy@, canonical@);
                }
            }
        },
        None => {
            proof {
                lemma_remove_key_absent(orig, legacy@);
            }
        },
    }
}

pub open spec fn legacy_session() -> Seq<char> {
    "Session (5hr rolling)"@
}

pub open spec fn legacy_week_all() -> Seq<char> {
    "Weekly All Models"@
}

pub open spec fn legacy_week_sonnet() -> Seq<char> {
    "Weekly Sonnet"@
}

pub open spec fn legacy_week_opus() -> Seq<char> {
    "Weekly Opus"@
}

/// The canonical label a legacy label migrates to.
pub open spec fn legacy_target(k: Seq<char>) -> Option<Seq<char>> {
    if k == legacy_session() {
        Some(crate::usage::session_label())
    } else if k == legacy_week_all() {
        Some(crate::usage::week_all_label())
    } else if k == legacy_week_sonnet() {
        Some(crate::usage::week_sonnet_label())
    } else if k == legacy_week_opus() {
        Some(crate::usage::week_opus_label())
    } else {
        None
    }
}

/// The legacy label that migrates to a canonical label.
pub open spec fn legacy_source(k: Seq<char>) -> Option<Seq<char>> {
    if k == crate::usage::session_label() {
        Some(legacy_session())
    } else if k == crate::usage::week_all_label() {
        Some(legacy_week_all())
    } else if k == crate::usage::week_sonnet_label() {
        Some(legacy_week_sonnet())
    } else if k == crate::usage::week_opus_label() {
        Some(legacy_week_opus())
    } else {
        None
    }
}

/// What migration leaves at `k`: legacy labels are gone; a canonical label
/// carries the legacy pair's value when one was stored, else its own; every
/// other label is untouched.
pub open spec fn migrated_lookup(b: Seq<(String, u32)>, k: Seq<char>) -> Option<u32> {
    if legacy_target(k) is Some {
        None
    } else {
        match legacy_source(k) {
            Some(l) => if bucket_lookup(b, l) is Some {
                bucket_lookup(b, l)
            } else {
                bucket_lookup(b, k)
            },
            None => bucket_lookup(b, k),
        }
    }
}

proof fn lemma_migration_labels_distinct()
    ensures
        legacy_session() != legacy_week_all(),
        legacy_session() != legacy_week_sonnet(),
        legacy_session() != legacy_week_opus(),
        legacy_week_all() != legacy_week_sonnet(),
        legacy_week_all() != legacy_week_opus(),
        legacy_week_sonnet() != legacy_week_opus(),
        crate::usage::session_label() != crate::usage::week_all_label(),
        crate::usage::session_label() != crate::usage::week_sonnet_label(),
        crate::usage::session_label() != crate::usage::week_opus_label(),
        crate::usage::week_all_label() != crate::usage::week_sonnet_label(),
        crate::usage::week_all_label() != crate::usage::week_opus_label(),
        crate::usage::week_sonnet_label() != crate::usage::week_opus_label(),
        forall|k: Seq<char>| legacy_target(k) is Some ==> legacy_source(k) is None,
        forall|k: Seq<char>| legacy_source(k) is Some ==> legacy_target(k) is None,
        legacy_target(legacy_session()) == Some(crate::usage::session_label()),
        legacy_target(legacy_week_all()) == Some(crate::usage::week_all_label()),
        legacy_target(legacy_week_sonnet()) == Some(crate::usage::week_sonnet_label()),
        legacy_target(legacy_week_opus()) == Some(crate::usage::week_opus_label()),
        legacy_source(crate::usage::session_label()) == Some(legacy_session()),
        legacy_source(crate::usage::week_all_label()) == Some(legacy_week_all()),
        legacy_source(crate::usage::week_sonnet_label()) == Some(legacy_week_sonnet()),
        legacy_source(crate::usage::week_opus_label()) == Some(legacy_week_opus()),
{
    reveal_strlit("Session (5hr rolling)");
    reveal_strlit("Weekly All Models");
    reveal_strlit("Weekly Sonnet");
    reveal_strlit("Weekly Opus");
    reveal_strlit("Current session");
    reveal_strlit("Current week (all models)");
    reveal_strlit("Current week (Sonnet only)");
    reveal_strlit("Current week (Opus only)");
    assert(legacy_session().len() == 21);
    assert(legacy_week_all().len() == 17);
    assert(legacy_week_sonnet().len() == 13);
    assert(legacy_week_opus().len() == 11);
    assert(crate::usage::session_label().len() == 15);
    assert(crate::usage::week_all_label().len() == 25);
    assert(crate::usage::week_sonnet_label().len() == 26);
    assert(crate::usage::week_opus_label().len() == 24);
}

/// Renames every legacy-labelled pair to its canonical label, in the fixed
/// migration order, a legacy value overwriting a canonical pair already
/// there.
pub fn migrate_buckets(b: &mut Vec<(String, u32)>)
    requires
        keys_unique(old(b)@),
    ensures
        keys_unique(final(b)@),
        forall|k: Seq<char>|
            #[trigger] bucket_lookup(final(b)@, k) == migrated_lookup(old(b)@, k),
{
    let ghost s0 = b@;
    proof {
        lemma_migration_labels_distinct();
    }
    migrate_one(b, "Session (5hr rolling)", "Current session");
    let ghost s1 = b@;
    migrate_one(b, "Weekly All Models", "Current week (all models)");
    let ghost s2 = b@;
    migrate_one(b, "Weekly Sonnet", "Current week (Sonnet only)");
    let ghost s3 = b@;
    migrate_one(b, "Weekly Opus", "Current week (Opus only)");
    proof {
        lemma_migration_labels_distinct();
        let l1 = legacy_session();
        let c1 = crate::usage::session_label();
        let l2 = legacy_week_all();
        let c2 = crate::usage::week_all_label();
        let l3 = legacy_week_sonnet();
        let c3 = crate::usage::week_sonnet_label();
        let l4 = legacy_week_opus();
        let c4 = crate::usage::week_opus_label();
        assert(bucket_lookup(s1, l2) == bucket_lookup(s0, l2));
        assert(bucket_lookup(s1, l3) == bucket_lookup(s0, l3));
        assert(bucket_lookup(s1, l4) == bucket_lookup(s0, l4));
        assert(bucket_lookup(s2, l3) == bucket_lookup(s0, l3));
        assert(bucket_lookup(s2, l4) == bucket_lookup(s0, l4));
        assert(bucket_lookup(s3, l4) == bucket_lookup(s0, l4));
        assert forall|k: Seq<char>|
            #[trigger] bucket_lookup(b@, k) == migrated_lookup(s0, k) by {
            assert(bucket_lookup(s1, k) == spec_migrate_pair(s0, l1, c1, k));
            assert(bucket_lookup(s2, k) == spec_migrate_pair(s1, l2, c2, k));
            assert(bucket_lookup(s3, k) == spec_migrate_pair(s2, l3, c3, k));
            assert(bucket_lookup(b@, k) == spec_migrate_pair(s3, l4, c4, k));
        }
    }
}

/// The mapping a limits list records, later limits winning a label clash.
pub open spec fn limits_lookup(s: Seq<UsageLimit>, k: Seq<char>) -> Option<u32>
    decreases s.len(),
{
    if s.len() == 0 {
        None
    } else if s.last().label@ == k {
        Some(s.last().usage_bp)
    } else {
        limits_lookup(s.drop_last(), k)
    }
}

/// Records the buckets of a fetch: one pair per labelled limit, the last
/// limit winning a repeated label.
pub fn build_buckets(limits: &Vec<UsageLimit>) -> (r: Vec<(String, u32)>)
    ensures
        keys_unique(r@),
        forall|k: Seq<char>| #[trigger] bucket_lookup(r@, k) == limits_lookup(limits@, k),
{
    let mut b: Vec<(String, u32)> = Vec::new();
    let n = limits.len();
    let mut i: usize = 0;
    while i < n
        invariant
            n == limits@.len(),
            i <= n,
            keys_unique(b@),
            forall|k: Seq<char>|
                #[trigger] bucket_lookup(b@, k) == limits_lookup(limits@.take(i as int), k),
        decreases n - i,
    {
        proof {
            assert(limits@.take(i + 1).drop_last() =~= limits@.take(i as int));
            assert(limits@.take(i + 1).last() == limits@[i as int]);
        }
        let label = limits[i].label.clone();
        let v = limits[i].usage_bp;
        set_entry(&mut b, label, v);
        i = i + 1;
    }
    proof {
        assert(limits@.take(n as int) =~= limits@);
    }
    b
}

/// The snapshots that survive pruning at `cutoff`, in order.
pub open spec fn retained(s: Seq<UsageSnapshot>, cutoff: int) -> Seq<UsageSnapshot>
    decreases s.len(),
{
    if s.len() == 0 {
        s
    } else if s.last().timestamp >= cutoff {
        retained(s.drop_last(), cutoff).push(s.last())
    } else {
        retained(s.drop_last(), cutoff)
    }
}

/// Every retained snapshot is within the retention window.
pub proof fn lemma_retained_in_window(s: Seq<UsageSnapshot>, cutoff: int)
    ensures
        forall|i: int|
            0 <= i < retained(s, cutoff).len() ==> (#[trigger] retained(s, cutoff)[i]).timestamp
                >= cutoff,
    decreases s.len(),
{
    if s.len() > 0 {
        lemma_retained_in_window(s.drop_last(), cutoff);
        if s.last().timestamp >= cutoff {
            let pre = retained(s.drop_last(), cutoff);
            let r = pre.push(s.last());
            assert forall|i: int| 0 <= i < r.len() implies (#[trigger] r[i]).timestamp
                >= cutoff by {
                if i < r.len() - 1 {
                    assert(r[i] == pre[i]);
                } else {
                    assert(r[i] == s.last());
                }
            }
        }
    }
}

/// Every retained snapshot is one of the original snapshots.
pub proof fn lemma_retained_from(s: Seq<UsageSnapshot>, cutoff: int)
    ensures
        forall|i: int|
            0 <= i < retained(s, cutoff).len() ==> exists|j: int|
                0 <= j < s.len() && #[trigger] retained(s, cutoff)[i] == s[j],
    decreases s.len(),
{
    if s.len() > 0 {
        lemma_retained_from(s.drop_last(), cutoff);
        let pre = retained(s.drop_last(), cutoff);
        assert forall|i: int| 0 <= i < retained(s, cutoff).len() implies exists|j: int|
            0 <= j < s.len() && #[trigger] retained(s, cutoff)[i] == s[j] by {
            if s.last().timestamp >= cutoff && i == retained(s, cutoff).len() - 1 {
                assert(retained(s, cutoff)[i] == s[s.len() - 1]);
            } else {
                assert(retained(s, cutoff)[i] == pre[i]);
                let j = choose|j: int|
                    0 <= j < s.drop_last().len() && #[trigger] pre[i] == s.drop_last()[j];
                assert(s.drop_last()[j] == s[j]);
            }
        }
    }
}

/// Retention law: pruning keeps exactly the snapshots inside the window.
pub proof fn lemma_retention(s: Seq<UsageSnapshot>, cutoff: int, x: UsageSnapshot)
    ensures
        x.timestamp < cutoff ==> !retained(s, cutoff).contains(x),
        s.contains(x) && x.timestamp >= cutoff ==> retained(s, cutoff).contains(x),
    decreases s.len(),
{
    if x.timestamp < cutoff {
        lemma_retained_in_window(s, cutoff);
        if retained(s, cutoff).contains(x) {
            let i = choose|i: int|
                0 <= i < retained(s, cutoff).len() && retained(s, cutoff)[i] == x;
            assert(retained(s, cutoff)[i].timestamp >= cutoff);
        }
    }
    if s.len() > 0 {
        lemma_retention(s.drop_last(), cutoff, x);
        if s.contains(x) && x.timestamp >= cutoff {
            let i = choose|i: int| 0 <= i < s.len() && s[i] == x;
            if i < s.len() - 1 {
                assert(s.drop_last()[i] == x);
                assert(s.drop_last().contains(x));
                let pre = retained(s.drop_last(), cutoff);
                let j = choose|j: int| 0 <= j < pre.len() && pre[j] == x;
                if s.last().timestamp >= cutoff {
                    assert(retained(s, cutoff)[j] == x);
                } else {
                    assert(retained(s, cutoff)[j] == x);
                }
            } else {
                assert(s.last() == x);
                assert(retained(s, cutoff).last() == x);
            }
        }
    }
}

/// Drops every snapshot older than the cutoff, keeping order.
fn prune_snapshots(v: Vec<UsageSnapshot>, cutoff: i64) -> (r: Vec<UsageSnapshot>)
    ensures
        r@ == retained(v@, cutoff as int),
{
    let ghost orig = v@;
    let mut rest = v;
    let total: usize = rest.len();
    let mut out: Vec<UsageSnapshot> = Vec::new();
    let mut i: usize = 0;
    while rest.len() > 0
        invariant
            total == orig.len(),
            i <= total,
            i + rest@.len() == orig.len(),
            rest@ == orig.skip(i as int),
            out@ == retained(orig.take(i as int), cutoff as int),
        decreases rest@.len(),
    {
        proof {
            assert(orig.skip(i as int)[0] == orig[i as int]);
            assert(orig.skip(i as int).remove(0) =~= orig.skip(i + 1));
            assert(orig.take(i + 1).drop_last() =~= orig.take(i as int));
            assert(orig.take(i + 1).last() == orig[i as int]);
        }
        let s = rest.remove(0);
        if s.timestamp >= cutoff {
            out.push(s);
        }
        i = i + 1;
    }
    proof {
        assert(orig.take(i as int) =~= orig);
    }
    out
}

/// The snapshots a possibly-absent parsed document holds.
pub open spec fn parsed_snapshots(parsed: Option<UsageHistory>) -> Seq<UsageSnapshot> {
    match parsed {
        Some(h) => h.snapshots@,
        None => Seq::empty(),
    }
}

/// Loads the history: an absent or unreadable document is an empty history;
/// otherwise every expired snapshot is pruned and every legacy bucket label
/// is migrated, so callers never see stale or legacy-labelled data.
pub fn load_history(parsed: Option<UsageHistory>, now: i64) -> (r: UsageHistory)
    requires
        now >= 0,
        forall|i: int|
            0 <= i < parsed_snapshots(parsed).len() ==> keys_unique(
                (#[trigger] parsed_snapshots(parsed)[i]).buckets@,
            ),
    ensures
        r.snapshots@.len() == retained(parsed_snapshots(parsed), now - MAX_AGE_SECS).len(),
        forall|i: int|
            0 <= i < r.snapshots@.len() ==> (#[trigger] r.snapshots@[i]).timestamp == retained(
                parsed_snapshots(parsed),
                now - MAX_AGE_SECS,
            )[i].timestamp,
        forall|i: int|
            0 <= i < r.snapshots@.len() ==> keys_unique((#[trigger] r.snapshots@[i]).buckets@),
        forall|i: int, k: Seq<char>|
            0 <= i < r.snapshots@.len() ==> #[trigger] bucket_lookup(
                r.snapshots@[i].buckets@,
                k,
            ) == migrated_lookup(
                retained(parsed_snapshots(parsed), now - MAX_AGE_SECS)[i].buckets@,
                k,
            ),
        forall|i: int|
            0 <= i < r.snapshots@.len() ==> (#[trigger] r.snapshots@[i]).timestamp >= now
                - MAX_AGE_SECS,
{
    let snaps: Vec<UsageSnapshot> = match parsed {
        Some(h) => h.snapshots,
        None => Vec::new(),
    };
    let cutoff = now - MAX_AGE_SECS;
    let ghost orig = snaps@;
    let mut pruned = prune_snapshots(snaps, cutoff);
    let ghost kept = pruned@;
    proof {
        lemma_retained_from(orig, cutoff as int);
        lemma_retained_in_window(orig, cutoff as int);
    }
    let n = pruned.len();
    let mut i: usize = 0;
    while i < n
        invariant
            n == pruned@.len(),
            kept == retained(orig, cutoff as int),
            kept.len() == n,
            i <= n,
            forall|j: int|
                0 <= j < kept.len() ==> keys_unique((#[trigger] kept[j]).buckets@),
            forall|j: int| i <= j < n ==> #[trigger] pruned@[j] == kept[j],
            forall|j: int|
                0 <= j < n ==> (#[trigger] pruned@[j]).timestamp == kept[j].timestamp,
            forall|j: int| 0 <= j < i ==> keys_unique((#[trigger] pruned@[j]).buckets@),
            forall|j: int, k: Seq<char>|
                0 <= j < i ==> #[trigger] bucket_lookup(pruned@[j].buckets@, k)
                    == migrated_lookup(kept[j].buckets@, k),
        decreases n - i,
    {
        migrate_buckets(&mut pruned[i].buckets);
        i = i + 1;
    }
    UsageHistory { snapshots: pruned }
}

/// Saves one fetch's snapshot: appends the recorded buckets stamped `now`
/// to the already-loaded history, then prunes the expired snapshots.
pub fn save_snapshot(history: UsageHistory, usage: &UsageData, now: i64) -> (r: UsageHistory)
    requires
        now >= 0,
    ensures
        r.snapshots@.len() == retained(history.snapshots@, now - MAX_AGE_SECS).len() + 1,
        r.snapshots@.drop_last() == retained(history.snapshots@, now - MAX_AGE_SECS),
        r.snapshots@.last().timestamp == now,
        keys_unique(r.snapshots@.last().buckets@),
        forall|k: Seq<char>|
            #[trigger] bucket_lookup(r.snapshots@.last().buckets@, k) == limits_lookup(
                usage.limits@,
                k,
            ),
        forall|i: int|
            0 <= i < r.snapshots@.len() ==> (#[trigger] r.snapshots@[i]).timestamp >= now
                - MAX_AGE_SECS,
{
    let cutoff = now - MAX_AGE_SECS;
    let buckets = build_buckets(&usage.limits);
    let snap = UsageSnapshot { timestamp: now, buckets };
    let mut snaps = history.snapshots;
    let ghost orig = snaps@;
    snaps.push(snap);
    let pruned = prune_snapshots(snaps, cutoff);
    proof {
        assert(orig.push(snap).drop_last() =~= orig);
        assert(retained(orig.push(snap), cutoff as int) == retained(orig, cutoff as int).push(
            snap,
        ));
        assert(retained(orig, cutoff as int).push(snap).drop_last() =~= retained(
            orig,
            cutoff as int,
        ));
        lemma_retained_in_window(orig, cutoff as int);
    }
    UsageHistory { snapshots: pruned }
}

/// The two on-disk files of the store's crash-safe write: the persisted
/// document and its temporary sibling. A save serializes, writes the whole
/// text to the sibling, then renames the sibling over the document; the
/// document only ever changes by the rename, so a reader never observes a
/// partially written document. This models that sequence; the file layer
/// performs it with the same two steps.
#[derive(Debug, Clone, PartialEq, Eq)]
pub struct AtomicDocState {
    /// The persisted document's content, if the file exists.
    pub document: Option<String>,
    /// The temporary sibling's content, if the file exists.
    pub temp: Option<String>,
}

impl AtomicDocState {
    /// The first step of a save: the new text goes to the sibling file.
    /// The document is untouched, so an interruption anywhere up to the
    /// rename leaves it exactly as it was.
    pub fn write_temp(&mut self, content: String)
        ensures
            final(self).document == old(self).document,
            final(self).temp == Some(content),
    {
        self.temp = Some(content);
    }

    /// The second step: the rename replaces the document with the sibling
    /// in one step.
    pub fn commit_rename(&mut self)
        requires
            old(self).temp is Some,
        ensures
            final(self).document == old(self).temp,
            final(self).temp is None,
    {
        let content = match &self.temp {
            Some(s) => Some(s.clone()),
            None => None,
        };
        self.document = content;
        self.temp = None;
    }
}

/// Label migration law: a value stored under a legacy label surfaces under
/// the canonical label, unchanged, and nothing remains under the legacy one.
pub proof fn lemma_label_migration(b: Seq<(String, u32)>, legacy: Seq<char>, v: u32)
    requires
        legacy_target(legacy) is Some,
        bucket_lookup(b, legacy) == Some(v),
    ensures
        migrated_lookup(b, legacy_target(legacy).unwrap()) == Some(v),
        migrated_lookup(b, legacy) is None,
{
    lemma_migration_labels_distinct();
}

} // verus!
