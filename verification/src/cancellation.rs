use vstd::prelude::*;
use crate::messages::CancelKeyData;

verus! {

/// The identifier of the cancellation capability a session stored for
/// its cancel key. The driver keeps the actual capability (the closure
/// bound to the compute-node connection) under this identifier and
/// invokes it when the table hands the identifier back.
pub type HandleId = u64;

/// The association a sequence of entries describes, later entries
/// winning; with unique keys the order carries no weight.
pub open spec fn spec_entries_map(s: Seq<(CancelKeyData, HandleId)>) -> Map<
    CancelKeyData,
    HandleId,
>
    decreases s.len(),
{
    if s.len() == 0 {
        Map::empty()
    } else {
        spec_entries_map(s.drop_last()).insert(s.last().0, s.last().1)
    }
}

/// The table that correlates a cancel key with the session that owns it.
///
/// A session registers its key and cancellation handle when it becomes
/// able to run queries, and removes the entry on every exit path. A
/// cancel request takes the entry out, so the cancellation it triggers
/// happens at most once even when the same key arrives on several
/// connections.
pub struct CancelMap {
    entries: Vec<(CancelKeyData, HandleId)>,
}

impl View for CancelMap {
    type V = Map<CancelKeyData, HandleId>;

    closed spec fn view(&self) -> Map<CancelKeyData, HandleId> {
        spec_entries_map(self.entries@)
    }
}

/// What a cancel request does to the table: a registered key is taken
/// out and its handle returned for invocation; an unknown key returns
/// nothing and leaves the table as it was.
pub open spec fn spec_cancel(m: Map<CancelKeyData, HandleId>, key: CancelKeyData) -> (
    Option<HandleId>,
    Map<CancelKeyData, HandleId>,
) {
    if m.contains_key(key) {
        (Some(m[key]), m.remove(key))
    } else {
        (None, m)
    }
}

impl CancelMap {
    /// No two entries share a key, so the map view loses nothing.
    pub closed spec fn inv(&self) -> bool {
        forall|i: int, j: int|
            0 <= i < j < self.entries@.len() ==> self.entries@[i].0 != self.entries@[j].0
    }

    /// An empty table, as the accept loop builds at process start.
    pub fn new() -> (m: Self)
        ensures
            m.inv(),
            m@ == Map::<CancelKeyData, HandleId>::empty(),
    {
        CancelMap { entries: Vec::new() }
    }

    /// Whether a session currently owns this key.
    pub fn contains(&self, key: CancelKeyData) -> (r: bool)
        requires
            self.inv(),
        ensures
            r == self@.contains_key(key),
    {
        let mut i: usize = 0;
        let n = self.entries.len();
        proof {
            self.lemma_view_contains();
        }
        while i < n
            invariant
                n == self.entries.len(),
                i <= n,
                forall|j: int| 0 <= j < i ==> self.entries@[j].0 != key,
                self@.contains_key(key) <==> exists|j: int|
                    0 <= j < n && self.entries@[j].0 == key,
            decreases n - i,
        {
            if self.entries[i].0 == key {
                return true;
            }
            i = i + 1;
        }
        false
    }

    /// Store the handle for a freshly minted key. Returns whether the
    /// key was free; on a collision nothing changes and the caller mints
    /// another key.
    pub fn register(&mut self, key: CancelKeyData, handle: HandleId) -> (r: bool)
        requires
            old(self).inv(),
        ensures
            final(self).inv(),
            r == !old(self)@.contains_key(key),
            r ==> final(self)@ == old(self)@.insert(key, handle),
            !r ==> *final(self) == *old(self),
    {
        if self.contains(key) {
            return false;
        }
        proof {
            self.lemma_view_contains();
        }
        self.entries.push((key, handle));
        proof {
            assert(self.entries@.drop_last() =~= old(self).entries@);
            assert(self.entries@.last() == (key, handle));
            assert(forall|i: int, j: int|
                0 <= i < j < self.entries@.len() - 1 ==> self.entries@[i].0
                    != self.entries@[j].0);
            assert(forall|i: int| #![auto]
                0 <= i < self.entries@.len() - 1 ==> self.entries@[i]
                    == old(self).entries@[i]);
            old(self).lemma_view_contains();
        }
        true
    }

    /// Handle a cancel request: take the key's entry out and hand back
    /// the handle to invoke, or nothing when no live session owns the
    /// key — a silent no-op, so an unknown key reveals nothing.
    #[verifier::loop_isolation(false)]
    pub fn cancel(&mut self, key: CancelKeyData) -> (r: Option<HandleId>)
        requires
            old(self).inv(),
        ensures
            final(self).inv(),
            (r, final(self)@) == spec_cancel(old(self)@, key),
    {
        proof {
            self.lemma_view_contains();
        }
        let n = self.entries.len();
        let mut i: usize = 0;
        while i < n
            invariant
                n == self.entries.len(),
                i <= n,
                *self == *old(self),
                forall|j: int| 0 <= j < i ==> self.entries@[j].0 != key,
            decreases n - i,
        {
            if self.entries[i].0 == key {
                let ghost gi = i as int;
                let entry = self.entries.remove(i);
                proof {
                    assert(old(self)@.contains_key(key));
                    assert(old(self)@[key] == entry.1);
                    old(self).lemma_remove_key(gi);
                    assert(self.entries@ =~= old(self).entries@.remove(gi));
                }
                return Some(entry.1);
            }
            i = i + 1;
        }
        proof {
            assert(!self@.contains_key(key));
        }
        None
    }

    /// Drop a session's entry when the session ends, on every exit path;
    /// a no-op when a cancel request already took the entry.
    pub fn remove(&mut self, key: CancelKeyData)
        requires
            old(self).inv(),
        ensures
            final(self).inv(),
            final(self)@ == old(self)@.remove(key),
    {
        let _ = self.cancel(key);
        proof {
            if !old(self)@.contains_key(key) {
                assert(old(self)@.remove(key) =~= old(self)@);
            }
        }
    }

    /// With unique keys, the map view contains a key exactly when some
    /// entry holds it, with that entry's handle.
    proof fn lemma_view_contains(&self)
        requires
            self.inv(),
        ensures
            forall|k: CancelKeyData|
                self@.contains_key(k) <==> exists|j: int|
                    0 <= j < self.entries@.len() && self.entries@[j].0 == k,
            forall|j: int| #![auto]
                0 <= j < self.entries@.len() ==> self@.contains_key(self.entries@[j].0)
                    && self@[self.entries@[j].0] == self.entries@[j].1,
    {
        self.lemma_entries_map_props(self.entries@);
    }

    proof fn lemma_entries_map_props(&self, s: Seq<(CancelKeyData, HandleId)>)
        ensures
            forall|k: CancelKeyData|
                spec_entries_map(s).contains_key(k) <==> exists|j: int|
                    0 <= j < s.len() && s[j].0 == k,
            (forall|i: int, j: int| 0 <= i < j < s.len() ==> s[i].0 != s[j].0) ==> forall|
                j: int,
            | #![auto]
                0 <= j < s.len() ==> spec_entries_map(s).contains_key(s[j].0)
                    && spec_entries_map(s)[s[j].0] == s[j].1,
        decreases s.len(),
    {
        if s.len() > 0 {
            let d = s.drop_last();
            self.lemma_entries_map_props(d);
            assert(forall|j: int| #![auto] 0 <= j < d.len() ==> d[j] == s[j]);
            let m = spec_entries_map(s);
            assert forall|k: CancelKeyData| m.contains_key(k) implies exists|j: int|
                0 <= j < s.len() && s[j].0 == k by {
                if k == s.last().0 {
                    assert(s[s.len() - 1].0 == k);
                } else {
                    assert(spec_entries_map(d).contains_key(k));
                    assert(exists|j: int| 0 <= j < d.len() && d[j].0 == k);
                    let j = choose|j: int| 0 <= j < d.len() && d[j].0 == k;
                    assert(s[j].0 == k);
                }
            }
            assert forall|k: CancelKeyData| (exists|j: int| 0 <= j < s.len() && s[j].0 == k)
                implies m.contains_key(k) by {
                let j = choose|j: int| 0 <= j < s.len() && s[j].0 == k;
                if j < s.len() - 1 {
                    assert(d[j].0 == k);
                    assert(spec_entries_map(d).contains_key(k));
                }
            }
            if forall|i: int, j: int| 0 <= i < j < s.len() ==> s[i].0 != s[j].0 {
                assert(forall|i: int, j: int| 0 <= i < j < d.len() ==> d[i].0 != d[j].0);
                assert forall|j: int| #![auto] 0 <= j < s.len() implies m.contains_key(s[j].0)
                    && m[s[j].0] == s[j].1 by {
                    if j < s.len() - 1 {
                        assert(s[j].0 != s.last().0);
                        assert(spec_entries_map(d)[d[j].0] == d[j].1);
                    }
                }
            }
        }
    }

    /// Removing the entry at `i` removes exactly its key from the view.
    proof fn lemma_remove_key(&self, i: int)
        requires
            self.inv(),
            0 <= i < self.entries@.len(),
        ensures
            spec_entries_map(self.entries@.remove(i)) == self@.remove(self.entries@[i].0),
            forall|i2: int, j2: int|
                0 <= i2 < j2 < self.entries@.remove(i).len() ==> self.entries@.remove(i)[i2].0
                    != self.entries@.remove(i)[j2].0,
    {
        let s = self.entries@;
        let key = s[i].0;
        lemma_entries_map_remove(s, i);
        assert forall|i2: int, j2: int| 0 <= i2 < j2 < s.remove(i).len() implies s.remove(i)[i2].0
            != s.remove(i)[j2].0 by {
            let a = if i2 < i {
                i2
            } else {
                i2 + 1
            };
            let b = if j2 < i {
                j2
            } else {
                j2 + 1
            };
            assert(s.remove(i)[i2] == s[a]);
            assert(s.remove(i)[j2] == s[b]);
        }
    }
}

/// Removing the entry at `i` from a uniquely-keyed sequence removes
/// exactly its key from the association.
proof fn lemma_entries_map_remove(s: Seq<(CancelKeyData, HandleId)>, i: int)
    requires
        0 <= i < s.len(),
        forall|a: int, b: int| 0 <= a < b < s.len() ==> s[a].0 != s[b].0,
    ensures
        spec_entries_map(s.remove(i)) == spec_entries_map(s).remove(s[i].0),
    decreases s.len(),
{
    if i == s.len() - 1 {
        assert(s.remove(i) =~= s.drop_last());
        lemma_entries_map_no_key(s.drop_last(), s[i].0);
        assert(spec_entries_map(s.drop_last()).insert(s[i].0, s[i].1).remove(s[i].0)
            =~= spec_entries_map(s.drop_last()));
    } else {
        let s2 = s.remove(i);
        assert(s2.len() == s.len() - 1);
        assert(s2.last() == s.last());
        assert(s2.drop_last() =~= s.drop_last().remove(i));
        assert(forall|a: int, b: int|
            0 <= a < b < s.drop_last().len() ==> s.drop_last()[a].0 != s.drop_last()[b].0);
        lemma_entries_map_remove(s.drop_last(), i);
        assert(s.drop_last()[i] == s[i]);
        assert(s.last().0 != s[i].0);
        assert(spec_entries_map(s.drop_last()).remove(s[i].0).insert(s.last().0, s.last().1)
            =~= spec_entries_map(s.drop_last()).insert(s.last().0, s.last().1).remove(s[i].0));
    }
}

/// A key that appears in no entry is absent from the association.
proof fn lemma_entries_map_no_key(s: Seq<(CancelKeyData, HandleId)>, key: CancelKeyData)
    requires
        forall|j: int| 0 <= j < s.len() ==> s[j].0 != key,
    ensures
        !spec_entries_map(s).contains_key(key),
    decreases s.len(),
{
    if s.len() > 0 {
        assert(forall|j: int| 0 <= j < s.drop_last().len() ==> s.drop_last()[j] == s[j]);
        lemma_entries_map_no_key(s.drop_last(), key);
    }
}

/// Law: a key not owned by any live session is a silent no-op — the
/// request is accepted, nothing is cancelled, the table is unchanged.
pub proof fn lemma_cancel_unknown_key_no_effect(m: Map<CancelKeyData, HandleId>, key: CancelKeyData)
    requires
        !m.contains_key(key),
    ensures
        spec_cancel(m, key) == (None::<HandleId>, m),
{
}

/// Law: a cancel request for a key a session just registered hands back
/// exactly that session's handle and leaves the table as it was before
/// the registration.
pub proof fn lemma_register_then_cancel(
    m: Map<CancelKeyData, HandleId>,
    key: CancelKeyData,
    handle: HandleId,
)
    requires
        !m.contains_key(key),
    ensures
        spec_cancel(m.insert(key, handle), key).0 == Some(handle),
        spec_cancel(m.insert(key, handle), key).1 == m,
{
    assert(m.insert(key, handle).remove(key) =~= m);
}

/// Law: a registered key triggers its own session's handle exactly once:
/// the first cancel request returns the handle and takes the entry out,
/// so a concurrent or later request for the same key finds nothing, and
/// every other session's entry is untouched.
pub proof fn lemma_cancel_at_most_once(m: Map<CancelKeyData, HandleId>, key: CancelKeyData)
    requires
        m.contains_key(key),
    ensures
        spec_cancel(m, key).0 == Some(m[key]),
        spec_cancel(spec_cancel(m, key).1, key).0 is None,
        spec_cancel(spec_cancel(m, key).1, key).1 == spec_cancel(m, key).1,
        forall|other: CancelKeyData| #![auto]
            other != key && m.contains_key(other) ==> spec_cancel(m, key).1.contains_key(other)
                && spec_cancel(m, key).1[other] == m[other],
{
}

} // verus!
