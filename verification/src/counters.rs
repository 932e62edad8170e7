use vstd::prelude::*;

verus! {

/// The two per-destination byte counters of the relay: `sent` counts
/// bytes that went to the client (node to client), `recv` counts bytes
/// the client sent towards the compute node (client to node). Both only
/// ever grow.
#[derive(Clone, Copy, Debug, PartialEq, Eq, Structural)]
pub struct CounterEntry {
    pub dest: u64,
    pub sent: u64,
    pub recv: u64,
}

/// Addition that pins at the top of the counter's range instead of
/// wrapping; counters are monotone, never reset.
pub open spec fn spec_sat_add(a: u64, b: u64) -> u64 {
    if a + b > u64::MAX {
        u64::MAX
    } else {
        (a + b) as u64
    }
}

/// The first entry for `dest`, if one exists.
pub open spec fn spec_find(s: Seq<CounterEntry>, dest: u64) -> Option<(u64, u64)>
    decreases s.len(),
{
    if s.len() == 0 {
        None
    } else if s[0].dest == dest {
        Some((s[0].sent, s[0].recv))
    } else {
        spec_find(s.drop_first(), dest)
    }
}

/// The counters for `dest`: a destination never written counts as zero.
pub open spec fn spec_counters(s: Seq<CounterEntry>, dest: u64) -> (u64, u64) {
    match spec_find(s, dest) {
        Some(c) => c,
        None => (0, 0),
    }
}

/// Per-destination byte counters, shared by every relay in the process.
///
/// Each destination identifier owns one pair of monotone counters; a
/// transfer for one destination never moves another destination's
/// counters.
pub struct ByteCounters {
    entries: Vec<CounterEntry>,
}

impl View for ByteCounters {
    type V = Seq<CounterEntry>;

    closed spec fn view(&self) -> Seq<CounterEntry> {
        self.entries@
    }
}

impl ByteCounters {
    /// Fresh counters, all destinations at zero.
    pub fn new() -> (c: Self)
        ensures
            c@ =~= Seq::<CounterEntry>::empty(),
    {
        ByteCounters { entries: Vec::new() }
    }

    /// Both counters for one destination, `(sent, recv)`.
    #[verifier::loop_isolation(false)]
    pub fn get(&self, dest: u64) -> (r: (u64, u64))
        ensures
            r == spec_counters(self@, dest),
    {
        let n = self.entries.len();
        let mut i: usize = 0;
        proof {
            assert(self@.skip(0) =~= self@);
        }
        while i < n
            invariant
                i <= n,
                spec_find(self@, dest) == spec_find(self@.skip(i as int), dest),
            decreases n - i,
        {
            proof {
                assert(self@.skip(i as int)[0] == self@[i as int]);
            }
            if self.entries[i].dest == dest {
                return (self.entries[i].sent, self.entries[i].recv);
            }
            proof {
                assert(self@.skip(i as int).drop_first() =~= self@.skip(i + 1));
            }
            i = i + 1;
        }
        proof {
            assert(self@.skip(n as int) =~= Seq::<CounterEntry>::empty());
        }
        (0, 0)
    }

    /// Account one relay transfer for `dest`: `recv_add` bytes went from
    /// the client towards the compute node, `sent_add` bytes came back.
    /// Exactly this destination's counters move, each by exactly the
    /// bytes transferred (pinned at the counter's top), and every other
    /// destination's counters stay as they were.
    #[verifier::loop_isolation(false)]
    pub fn record(&mut self, dest: u64, sent_add: u64, recv_add: u64)
        ensures
            spec_counters(final(self)@, dest) == (
                spec_sat_add(spec_counters(old(self)@, dest).0, sent_add),
                spec_sat_add(spec_counters(old(self)@, dest).1, recv_add),
            ),
            forall|d: u64|
                d != dest ==> spec_counters(final(self)@, d) == spec_counters(old(self)@, d),
    {
        let n = self.entries.len();
        let mut i: usize = 0;
        while i < n
            invariant
                i <= n,
                n == self.entries.len(),
                *self == *old(self),
                forall|j: int| 0 <= j < i ==> self.entries@[j].dest != dest,
            decreases n - i,
        {
            if self.entries[i].dest == dest {
                let e = self.entries[i];
                let updated = CounterEntry {
                    dest,
                    sent: e.sent.saturating_add(sent_add),
                    recv: e.recv.saturating_add(recv_add),
                };
                self.entries[i] = updated;
                proof {
                    assert(self@ =~= old(self)@.update(i as int, updated));
                    lemma_find_prefix_miss(old(self)@, i as int, dest);
                    lemma_find_update(old(self)@, i as int, updated, dest);
                    assert forall|d: u64| d != dest implies spec_counters(self@, d)
                        == spec_counters(old(self)@, d) by {
                        lemma_find_update(old(self)@, i as int, updated, d);
                    }
                }
                return ;
            }
            i = i + 1;
        }
        let fresh = CounterEntry {
            dest,
            sent: sent_add,
            recv: recv_add,
        };
        self.entries.push(fresh);
        proof {
            assert(self@ =~= old(self)@.push(fresh));
            lemma_find_none(old(self)@, dest);
            lemma_find_push(old(self)@, fresh, dest);
            assert forall|d: u64| d != dest implies spec_counters(self@, d) == spec_counters(
                old(self)@,
                d,
            ) by {
                lemma_find_push(old(self)@, fresh, d);
            }
        }
    }
}

/// If no entry before `i` holds `dest`, the search for `dest` passes
/// them all.
proof fn lemma_find_prefix_miss(s: Seq<CounterEntry>, i: int, dest: u64)
    requires
        0 <= i < s.len(),
        forall|j: int| 0 <= j < i ==> s[j].dest != dest,
        s[i].dest == dest,
    ensures
        spec_find(s, dest) == Some((s[i].sent, s[i].recv)),
    decreases i,
{
    if i > 0 {
        lemma_find_prefix_miss(s.drop_first(), i - 1, dest);
    }
}

/// If `dest` appears nowhere, the search finds nothing.
proof fn lemma_find_none(s: Seq<CounterEntry>, dest: u64)
    requires
        forall|j: int| 0 <= j < s.len() ==> s[j].dest != dest,
    ensures
        spec_find(s, dest) is None,
    decreases s.len(),
{
    if s.len() > 0 {
        lemma_find_none(s.drop_first(), dest);
    }
}

/// Updating the first entry for a destination changes the search result
/// for that destination alone.
proof fn lemma_find_update(s: Seq<CounterEntry>, i: int, e: CounterEntry, d: u64)
    requires
        0 <= i < s.len(),
        forall|j: int| 0 <= j < i ==> s[j].dest != s[i].dest,
        e.dest == s[i].dest,
    ensures
        spec_find(s.update(i, e), s[i].dest) == Some((e.sent, e.recv)),
        d != s[i].dest ==> spec_find(s.update(i, e), d) == spec_find(s, d),
    decreases i,
{
    if i == 0 {
        assert(s.update(0, e)[0] == e);
        assert(s.update(0, e).drop_first() =~= s.drop_first());
    } else {
        assert(s.update(i, e)[0] == s[0]);
        assert(s.update(i, e).drop_first() =~= s.drop_first().update(i - 1, e));
        lemma_find_update(s.drop_first(), i - 1, e, d);
    }
}

/// Appending an entry only answers searches that failed before, and only
/// for that entry's destination.
proof fn lemma_find_push(s: Seq<CounterEntry>, e: CounterEntry, d: u64)
    ensures
        spec_find(s.push(e), d) == (if spec_find(s, d) is Some {
            spec_find(s, d)
        } else if e.dest == d {
            Some((e.sent, e.recv))
        } else {
            None
        }),
    decreases s.len(),
{
    if s.len() == 0 {
        assert(s.push(e)[0] == e);
        assert(s.push(e).drop_first() =~= Seq::<CounterEntry>::empty());
        assert(spec_find(Seq::<CounterEntry>::empty(), d) is None);
        assert(spec_find(s, d) is None);
    } else {
        assert(s.push(e)[0] == s[0]);
        assert(s.push(e).drop_first() =~= s.drop_first().push(e));
        lemma_find_push(s.drop_first(), e, d);
    }
}

} // verus!
