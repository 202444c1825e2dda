//! Dual-scope cooldown tracking.
//!
//! A cooldown key pairs a scope (global, or private to one actor) with the
//! numeric identifier of the throttled resource. Each key is associated with
//! an absolute expiry instant; entries expire lazily, and a sweep operation
//! offers explicit eviction. Times are u64 seconds on an arbitrary clock;
//! callers pass the current instant in, which keeps every operation a pure
//! function of its arguments.

use vstd::prelude::*;

verus! {

/// The axis along which a cooldown key is tracked: shared by every actor,
/// or private to one actor.
#[derive(Clone, Copy, PartialEq, Eq, Structural, Debug)]
pub enum CooldownScope {
    Global,
    PerActor(u64),
}

/// A cooldown key: a scope together with the identifier of the throttled
/// resource (for a role ping, the role's numeric id). The same identifier
/// under different scopes forms distinct, independent keys.
#[derive(Clone, Copy, PartialEq, Eq, Structural, Debug)]
pub struct CooldownKey {
    pub scope: CooldownScope,
    pub id: u64,
}

pub open spec fn global_key(id: u64) -> CooldownKey {
    CooldownKey { scope: CooldownScope::Global, id }
}

pub open spec fn actor_key(actor: u64, id: u64) -> CooldownKey {
    CooldownKey { scope: CooldownScope::PerActor(actor), id }
}

impl CooldownKey {
    /// The key shared by all actors for one identifier.
    pub fn global(id: u64) -> (r: CooldownKey)
        ensures
            r == global_key(id),
    {
        CooldownKey { scope: CooldownScope::Global, id }
    }

    /// The key private to `actor` for one identifier.
    pub fn per_actor(actor: u64, id: u64) -> (r: CooldownKey)
        ensures
            r == actor_key(actor, id),
    {
        CooldownKey { scope: CooldownScope::PerActor(actor), id }
    }
}

struct CooldownEntry {
    key: CooldownKey,
    expiry: u64,
}

/// The expiry stored by a refresh at instant `now` for duration `dur`:
/// `now + dur`, saturating at the end of representable time.
pub open spec fn expiry_spec(now: u64, dur: u64) -> u64 {
    if now + dur > u64::MAX {
        u64::MAX
    } else {
        (now + dur) as u64
    }
}

/// Time remaining at instant `now` until a stored expiry: positive while the
/// expiry is in the future, nothing once it has passed or was never stored.
pub open spec fn remaining_spec(expiry: Option<u64>, now: u64) -> Option<u64> {
    match expiry {
        Option::Some(e) => if now < e {
            Option::Some((e - now) as u64)
        } else {
            Option::None
        },
        Option::None => Option::None,
    }
}

/// A stored expiry that survives a sweep at instant `now`: kept exactly while
/// it is still in the future.
pub open spec fn surviving_spec(expiry: Option<u64>, now: u64) -> Option<u64> {
    match expiry {
        Option::Some(e) => if now < e {
            Option::Some(e)
        } else {
            Option::None
        },
        Option::None => Option::None,
    }
}

spec fn lookup(s: Seq<CooldownEntry>, k: CooldownKey) -> Option<u64>
    decreases s.len(),
{
    if s.len() == 0 {
        Option::None
    } else if s[0].key == k {
        Option::Some(s[0].expiry)
    } else {
        lookup(s.drop_first(), k)
    }
}

spec fn distinct_keys(s: Seq<CooldownEntry>) -> bool {
    forall|i: int, j: int| 0 <= i < j < s.len() ==> s[i].key != s[j].key
}

proof fn lemma_lookup_absent(s: Seq<CooldownEntry>, k: CooldownKey)
    ensures
        lookup(s, k) is None <==> (forall|i: int| 0 <= i < s.len() ==> s[i].key != k),
    decreases s.len(),
{
    if s.len() > 0 {
        lemma_lookup_absent(s.drop_first(), k);
        if s[0].key != k {
            assert forall|i: int| 0 <= i < s.len() && s[i].key == k implies exists|j: int|
                0 <= j < s.drop_first().len() && s.drop_first()[j].key == k by {
                assert(s.drop_first()[i - 1].key == k);
            }
        }
    }
}

proof fn lemma_lookup_update(s: Seq<CooldownEntry>, i: int, e: CooldownEntry, k: CooldownKey)
    requires
        0 <= i < s.len(),
        s[i].key == e.key,
        forall|j: int| 0 <= j < i ==> s[j].key != e.key,
    ensures
        lookup(s.update(i, e), k) == (if k == e.key {
            Option::Some(e.expiry)
        } else {
            lookup(s, k)
        }),
    decreases s.len(),
{
    let t = s.update(i, e);
    if i == 0 {
        assert(t.drop_first() =~= s.drop_first());
    } else {
        assert(t[0] == s[0]);
        assert(t.drop_first() =~= s.drop_first().update(i - 1, e));
        if k != s[0].key {
            lemma_lookup_update(s.drop_first(), i - 1, e, k);
        }
    }
}

proof fn lemma_lookup_push(s: Seq<CooldownEntry>, e: CooldownEntry, k: CooldownKey)
    requires
        forall|j: int| 0 <= j < s.len() ==> s[j].key != e.key,
    ensures
        lookup(s.push(e), k) == (if k == e.key {
            Option::Some(e.expiry)
        } else {
            lookup(s, k)
        }),
    decreases s.len(),
{
    let t = s.push(e);
    if s.len() == 0 {
        assert(t[0] == e);
        assert(t.drop_first() =~= Seq::<CooldownEntry>::empty());
        assert(lookup(Seq::<CooldownEntry>::empty(), k) is None);
        assert(lookup(s, k) is None);
    } else {
        assert(t[0] == s[0]);
        assert(t.drop_first() =~= s.drop_first().push(e));
        if k != s[0].key {
            lemma_lookup_push(s.drop_first(), e, k);
        }
    }
}

/// Tracks the expiry instant of every cooldown key that was ever refreshed
/// and has not been swept. The map from keys to expiries is the whole state.
pub struct Cooldowns {
    entries: Vec<CooldownEntry>,
}

/// What an atomic check-and-set at instant `now` does: it answers what a
/// check would, leaves the state untouched while `k` is cooling down, and
/// otherwise starts a cooldown of `dur` on `k` alone.
pub open spec fn acquire_rel(
    pre: Cooldowns,
    post: Cooldowns,
    k: CooldownKey,
    now: u64,
    dur: u64,
    r: Option<u64>,
) -> bool {
    &&& r == pre.check_spec(k, now)
    &&& (r is Some ==> post == pre)
    &&& (r is None ==> post.expiry_of(k) == Option::Some(expiry_spec(now, dur)))
    &&& (r is None ==> forall|k2: CooldownKey| k2 != k ==> post.expiry_of(k2) == pre.expiry_of(k2))
}

impl Cooldowns {
    /// The expiry instant stored for `k`, if any.
    pub closed spec fn expiry_of(&self, k: CooldownKey) -> Option<u64> {
        lookup(self.entries@, k)
    }

    /// Internal well-formedness: one entry per key.
    pub closed spec fn wf(&self) -> bool {
        distinct_keys(self.entries@)
    }

    /// What a check at instant `now` answers for key `k`.
    pub open spec fn check_spec(&self, k: CooldownKey, now: u64) -> Option<u64> {
        remaining_spec(self.expiry_of(k), now)
    }

    /// An engine with no key cooling down.
    pub fn new() -> (r: Cooldowns)
        ensures
            r.wf(),
            forall|k: CooldownKey| r.expiry_of(k) == Option::<u64>::None,
    {
        Cooldowns { entries: Vec::new() }
    }

    /// Answers whether `k` is still cooling down at instant `now`, and for
    /// how long; mutates nothing.
    pub fn check_at(&self, k: CooldownKey, now: u64) -> (r: Option<u64>)
        ensures
            r == self.check_spec(k, now),
    {
        let n = self.entries.len();
        let mut i: usize = 0;
        proof {
            assert(self.entries@.skip(0) =~= self.entries@);
        }
        while i < n
            invariant
                i <= n,
                n == self.entries@.len(),
                lookup(self.entries@, k) == lookup(self.entries@.skip(i as int), k),
                forall|j: int| 0 <= j < i ==> self.entries@[j].key != k,
            decreases n - i,
        {
            let entry_key = self.entries[i].key;
            proof {
                let rest = self.entries@.skip(i as int);
                assert(rest[0] == self.entries@[i as int]);
                assert(rest.drop_first() =~= self.entries@.skip(i as int + 1));
            }
            if entry_key == k {
                let expiry = self.entries[i].expiry;
                if now < expiry {
                    return Some(expiry - now);
                } else {
                    return None;
                }
            }
            i = i + 1;
        }
        proof {
            assert(self.entries@.skip(n as int) =~= Seq::<CooldownEntry>::empty());
        }
        None
    }

    /// Sets or overwrites the expiry of `k` to `now + dur` (saturating);
    /// no other key changes.
    pub fn refresh_at(&mut self, k: CooldownKey, now: u64, dur: u64)
        requires
            old(self).wf(),
        ensures
            final(self).wf(),
            final(self).expiry_of(k) == Option::Some(expiry_spec(now, dur)),
            forall|k2: CooldownKey| k2 != k ==> final(self).expiry_of(k2) == old(
                self,
            ).expiry_of(k2),
    {
        let expiry = if dur > u64::MAX - now {
            u64::MAX
        } else {
            now + dur
        };
        let n = self.entries.len();
        let mut i: usize = 0;
        while i < n
            invariant
                i <= n,
                n == self.entries@.len(),
                self.entries@ == old(self).entries@,
                distinct_keys(self.entries@),
                expiry == expiry_spec(now, dur),
                forall|j: int| 0 <= j < i ==> self.entries@[j].key != k,
            decreases n - i,
        {
            let entry_key = self.entries[i].key;
            if entry_key == k {
                let ghost pre = self.entries@;
                let ghost e = CooldownEntry { key: k, expiry };
                self.entries[i] = CooldownEntry { key: k, expiry };
                proof {
                    assert(self.entries@ == pre.update(i as int, e));
                    let updated = pre.update(i as int, e);
                    lemma_lookup_update(pre, i as int, e, k);
                    assert forall|k2: CooldownKey| k2 != k implies lookup(updated, k2) == lookup(
                        pre,
                        k2,
                    ) by {
                        lemma_lookup_update(pre, i as int, e, k2);
                    }
                    assert forall|j: int| 0 <= j < updated.len() implies updated[j].key
                        == pre[j].key by {}
                    assert(distinct_keys(updated));
                    assert(expiry == expiry_spec(now, dur));
                }
                return ;
            }
            i = i + 1;
        }
        proof {
            let e = CooldownEntry { key: k, expiry };
            let pushed = self.entries@.push(e);
            lemma_lookup_push(self.entries@, e, k);
            assert forall|k2: CooldownKey| k2 != k implies lookup(pushed, k2) == lookup(
                self.entries@,
                k2,
            ) by {
                lemma_lookup_push(self.entries@, e, k2);
            }
            assert forall|a: int, b: int| 0 <= a < b < pushed.len() implies pushed[a].key
                != pushed[b].key by {
                if b < pushed.len() - 1 {
                    assert(pushed[a] == self.entries@[a]);
                    assert(pushed[b] == self.entries@[b]);
                } else {
                    assert(pushed[a] == self.entries@[a]);
                    assert(pushed[b] == e);
                }
            }
        }
        self.entries.push(CooldownEntry { key: k, expiry });
    }

    /// Atomic check-and-set for one key: reports the remaining time if `k` is
    /// still cooling down (leaving the state untouched), and otherwise starts
    /// a new cooldown of `dur`. Offering this as one operation is deliberate:
    /// separate check and refresh calls would let two concurrent invocations
    /// both observe "not cooling down" before either refreshes.
    pub fn check_and_refresh_at(&mut self, k: CooldownKey, now: u64, dur: u64) -> (r: Option<
        u64,
    >)
        requires
            old(self).wf(),
        ensures
            final(self).wf(),
            acquire_rel(*old(self), *final(self), k, now, dur, r),
    {
        let existing = self.check_at(k, now);
        match existing {
            Some(t) => Some(t),
            None => {
                self.refresh_at(k, now, dur);
                None
            },
        }
    }

    /// Evicts every entry whose expiry is at or before `now`; the answer to
    /// any later check is unchanged, only the storage shrinks.
    pub fn sweep_at(&mut self, now: u64)
        requires
            old(self).wf(),
        ensures
            final(self).wf(),
            forall|k: CooldownKey| final(self).expiry_of(k) == surviving_spec(
                old(self).expiry_of(k),
                now,
            ),
    {
        let n = self.entries.len();
        let mut kept: Vec<CooldownEntry> = Vec::new();
        let mut i: usize = 0;
        while i < n
            invariant
                i <= n,
                n == self.entries@.len(),
                self.entries@ == old(self).entries@,
                distinct_keys(self.entries@),
                distinct_keys(kept@),
                forall|k: CooldownKey| lookup(kept@, k) == surviving_spec(
                    lookup(self.entries@.take(i as int), k),
                    now,
                ),
            decreases n - i,
        {
            let entry_key = self.entries[i].key;
            let entry_expiry = self.entries[i].expiry;
            proof {
                let prefix = self.entries@.take(i as int);
                let e = self.entries@[i as int];
                assert(self.entries@.take(i as int + 1) =~= prefix.push(e));
                assert forall|j: int| 0 <= j < prefix.len() implies prefix[j].key != e.key by {
                    assert(prefix[j] == self.entries@[j]);
                }
                assert forall|k: CooldownKey| true implies lookup(prefix.push(e), k) == (if k
                    == e.key {
                    Option::Some(e.expiry)
                } else {
                    lookup(prefix, k)
                }) by {
                    lemma_lookup_push(prefix, e, k);
                }
                lemma_lookup_absent(prefix, e.key);
                lemma_lookup_absent(kept@, e.key);
                if now < e.expiry {
                    assert forall|k: CooldownKey| true implies lookup(
                        kept@.push(e),
                        k,
                    ) == (if k == e.key {
                        Option::Some(e.expiry)
                    } else {
                        lookup(kept@, k)
                    }) by {
                        lemma_lookup_push(kept@, e, k);
                    }
                }
            }
            if now < entry_expiry {
                kept.push(CooldownEntry { key: entry_key, expiry: entry_expiry });
            }
            i = i + 1;
        }
        proof {
            assert(self.entries@.take(n as int) =~= self.entries@);
        }
        self.entries = kept;
    }

    /// A check against the real clock: the answer a `check_at` gives for
    /// the instant the clock reported.
    pub fn check_current(&self, k: CooldownKey) -> (r: Option<u64>)
        ensures
            exists|now: u64| r == self.check_spec(k, now),
    {
        let now = crate::clock::now_instant();
        let r = self.check_at(k, now);
        proof {
            assert(r == self.check_spec(k, now));
        }
        r
    }

    /// An atomic check-and-set against the real clock: what
    /// `check_and_refresh_at` does for the instant the clock reported.
    pub fn check_and_refresh_current(&mut self, k: CooldownKey, dur: u64) -> (r: Option<u64>)
        requires
            old(self).wf(),
        ensures
            final(self).wf(),
            exists|now: u64| acquire_rel(*old(self), *final(self), k, now, dur, r),
    {
        let now = crate::clock::now_instant();
        let r = self.check_and_refresh_at(k, now, dur);
        proof {
            assert(acquire_rel(*old(self), *self, k, now, dur, r));
        }
        r
    }
}

/// After `refresh_at(k, now, d)` stores the expiry `expiry_spec(now, d)` for
/// a positive duration `d`, a check at the same instant reports a remaining
/// time that is positive and at most `d`, and a check at any instant at or
/// past `now + d` reports nothing.
pub proof fn lemma_refresh_then_check(now: u64, d: u64, later: u64)
    requires
        d > 0,
        now + d <= u64::MAX,
    ensures
        ({
            let r = remaining_spec(Option::Some(expiry_spec(now, d)), now);
            &&& r is Some
            &&& 0 < r.unwrap() <= d
        }),
        now + d <= later ==> remaining_spec(
            Option::Some(expiry_spec(now, d)),
            later,
        ) is None,
{
}

/// The global scope and any per-actor scope of the same identifier are
/// distinct keys.
pub proof fn lemma_global_actor_keys_distinct(id: u64, actor: u64)
    ensures
        global_key(id) != actor_key(actor, id),
{
}

/// Refreshing one key leaves every check of any other key unchanged: with
/// `lemma_global_actor_keys_distinct`, the two scopes of one identifier are
/// independent. `pre` and `post` are the engine states before and after the
/// refresh of `refreshed`; the premise on them is what `refresh_at` ensures
/// for the keys it did not touch.
pub proof fn lemma_unrelated_key_check_unchanged(
    pre: Cooldowns,
    post: Cooldowns,
    refreshed: CooldownKey,
    other: CooldownKey,
    now: u64,
)
    requires
        refreshed != other,
        forall|k: CooldownKey| k != refreshed ==> post.expiry_of(k) == pre.expiry_of(k),
    ensures
        post.check_spec(other, now) == pre.check_spec(other, now),
{
}

} // verus!
