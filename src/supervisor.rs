use vstd::prelude::*;

verus! {

/// Seconds between two reconciliation sweeps of the supervisor.
pub const RESTART_DELAY_SECS: u64 = 120;

/// Capacity of the publish bus of each session.
pub const PUBLISH_BUS_CAPACITY: usize = 32;

/// One live session: the relay it serves and the driver's handle on it (its
/// task and the sending half of its publish bus).
pub struct SessionEntry<H> {
    pub relay_id: String,
    pub handle: H,
}

/// The supervisor's sessions, at most one per relay, in order of creation.
pub struct SessionTable<H> {
    entries: Vec<SessionEntry<H>>,
}

/// The relay identifiers of a run of entries.
pub open spec fn ids_of<H>(entries: Seq<SessionEntry<H>>) -> Seq<Seq<char>> {
    entries.map_values(|e: SessionEntry<H>| e.relay_id@)
}

/// No relay has two entries.
pub open spec fn unique_ids<H>(entries: Seq<SessionEntry<H>>) -> bool {
    forall|i: int, j: int|
        0 <= i < j < entries.len() ==> #[trigger] entries[i].relay_id@ != #[trigger] entries[j].relay_id@
}

/// The entries whose task has not finished, in their order.
pub open spec fn unfinished<H>(entries: Seq<SessionEntry<H>>, finished: Seq<bool>) -> Seq<SessionEntry<H>>
    decreases entries.len(),
{
    if entries.len() == 0 || finished.len() == 0 {
        Seq::empty()
    } else {
        let rest = unfinished(entries.drop_first(), finished.drop_first());
        if finished[0] {
            rest
        } else {
            seq![entries[0]] + rest
        }
    }
}

impl<H> View for SessionTable<H> {
    type V = Seq<SessionEntry<H>>;

    closed spec fn view(&self) -> Seq<SessionEntry<H>> {
        self.entries@
    }
}

impl<H> SessionTable<H> {
    /// The relay identifiers of the sessions, in order.
    pub open spec fn ids(&self) -> Seq<Seq<char>> {
        ids_of(self@)
    }

    pub open spec fn wf(&self) -> bool {
        unique_ids(self@)
    }

    pub fn new() -> (t: SessionTable<H>)
        ensures
            t@.len() == 0,
            t.wf(),
    {
        SessionTable { entries: Vec::new() }
    }

    pub fn len(&self) -> (n: usize)
        ensures
            n == self@.len(),
    {
        self.entries.len()
    }

    /// The handle of the session at `index`.
    pub fn handle(&self, index: usize) -> (h: &H)
        requires
            index < self@.len(),
        ensures
            *h == self@[index as int].handle,
    {
        &self.entries[index].handle
    }

    /// The position of the session of a relay, if it has one.
    pub fn position(&self, relay_id: &String) -> (r: Option<usize>)
        requires
            self.wf(),
        ensures
            r matches Some(i) ==> i < self@.len() && self.ids()[i as int] == relay_id@,
            r is None ==> !self.ids().contains(relay_id@),
    {
        let mut i: usize = 0;
        while i < self.entries.len()
            invariant
                i <= self.entries@.len(),
                forall|k: int| 0 <= k < i ==> self.entries@[k].relay_id@ != relay_id@,
            decreases self.entries@.len() - i,
        {
            if self.entries[i].relay_id.eq(relay_id) {
                return Some(i);
            }
            i = i + 1;
        }
        proof {
            if self.ids().contains(relay_id@) {
                let k = choose|k: int| 0 <= k < self.ids().len() && self.ids()[k] == relay_id@;
                assert(self.entries@[k].relay_id@ == relay_id@);
            }
        }
        None
    }

    /// Whether a relay has a session.
    pub fn contains_key(&self, relay_id: &String) -> (r: bool)
        requires
            self.wf(),
        ensures
            r == self.ids().contains(relay_id@),
    {
        self.position(relay_id).is_some()
    }

    /// Records the new session of a relay that had none.
    pub fn insert(&mut self, relay_id: String, handle: H)
        requires
            old(self).wf(),
            !old(self).ids().contains(relay_id@),
        ensures
            final(self).wf(),
            final(self)@ == old(self)@.push(SessionEntry { relay_id, handle }),
    {
        let ghost before = self.entries@;
        self.entries.push(SessionEntry { relay_id, handle });
        proof {
            assert forall|i: int, j: int|
                0 <= i < j < self.entries@.len() implies #[trigger] self.entries@[i].relay_id@
                != #[trigger] self.entries@[j].relay_id@ by {
                if j == before.len() {
                    assert(ids_of(before)[i] == before[i].relay_id@);
                }
            }
        }
    }

    /// The relays of `relays` that have no session, each once.
    pub fn missing(&self, relays: &Vec<String>) -> (r: Vec<String>)
        requires
            self.wf(),
        ensures
            forall|k: int| 0 <= k < r@.len() ==> relays@.contains(#[trigger] r@[k]),
            forall|k: int| 0 <= k < r@.len() ==> !self.ids().contains(#[trigger] r@[k]@),
            forall|k: int|
                0 <= k < relays@.len() && !self.ids().contains(#[trigger] relays@[k]@) ==> exists|m: int|
                    0 <= m < r@.len() && r@[m]@ == relays@[k]@,
            forall|a: int, b: int| 0 <= a < b < r@.len() ==> #[trigger] r@[a]@ != #[trigger] r@[b]@,
    {
        let mut out: Vec<String> = Vec::new();
        let mut i: usize = 0;
        while i < relays.len()
            invariant
                i <= relays@.len(),
                self.wf(),
                forall|k: int| 0 <= k < out@.len() ==> relays@.contains(#[trigger] out@[k]),
                forall|k: int| 0 <= k < out@.len() ==> !self.ids().contains(#[trigger] out@[k]@),
                forall|k: int|
                    0 <= k < i && !self.ids().contains(#[trigger] relays@[k]@) ==> exists|m: int|
                        0 <= m < out@.len() && out@[m]@ == relays@[k]@,
                forall|a: int, b: int| 0 <= a < b < out@.len() ==> #[trigger] out@[a]@ != #[trigger] out@[b]@,
            decreases relays@.len() - i,
        {
            let id = &relays[i];
            if !self.contains_key(id) {
                let mut seen = false;
                let mut j: usize = 0;
                while j < out.len()
                    invariant
                        j <= out@.len(),
                        seen ==> exists|m: int| 0 <= m < out@.len() && out@[m]@ == id@,
                        !seen ==> forall|m: int| 0 <= m < j ==> out@[m]@ != id@,
                    decreases out@.len() - j,
                {
                    if out[j].eq(id) {
                        seen = true;
                    }
                    j = j + 1;
                }
                if !seen {
                    let ghost before = out@;
                    out.push(id.clone());
                    proof {
                        assert(out@[before.len() as int] == relays@[i as int]);
                        assert(relays@.contains(relays@[i as int]));
                        assert forall|k: int|
                            0 <= k <= i && !self.ids().contains(#[trigger] relays@[k]@) implies exists|m: int|
                                0 <= m < out@.len() && out@[m]@ == relays@[k]@ by {
                            if k == i {
                                assert(out@[before.len() as int]@ == relays@[k]@);
                            } else {
                                let m = choose|m: int| 0 <= m < before.len() && before[m]@ == relays@[k]@;
                                assert(out@[m] == before[m]);
                            }
                        }
                    }
                }
            }
            i = i + 1;
        }
        out
    }

    /// Drops the sessions whose task has finished; `finished[k]` tells
    /// whether the task of the session at `k` has.
    pub fn sweep(&mut self, finished: &Vec<bool>)
        requires
            old(self).wf(),
            finished@.len() == old(self)@.len(),
        ensures
            final(self).wf(),
            final(self)@ == unfinished(old(self)@, finished@),
    {
        let ghost all = self.entries@;
        let ghost f = finished@;
        let mut i: usize = self.entries.len();
        proof {
            assert(all.subrange(i as int, all.len() as int).len() == 0);
            assert(self.entries@ =~= all.subrange(0, i as int) + unfinished(
                all.subrange(i as int, all.len() as int),
                f.subrange(i as int, f.len() as int),
            ));
        }
        while i > 0
            invariant
                i <= all.len(),
                f.len() == all.len(),
                f == finished@,
                unique_ids(self.entries@),
                self.entries@ == all.subrange(0, i as int) + unfinished(
                    all.subrange(i as int, all.len() as int),
                    f.subrange(i as int, f.len() as int),
                ),
            decreases i,
        {
            let ghost before = self.entries@;
            let ghost tail = unfinished(
                all.subrange(i as int, all.len() as int),
                f.subrange(i as int, f.len() as int),
            );
            let ghost s1 = all.subrange(i - 1, all.len() as int);
            let ghost f1 = f.subrange(i - 1, f.len() as int);
            assert(s1.drop_first() =~= all.subrange(i as int, all.len() as int));
            assert(f1.drop_first() =~= f.subrange(i as int, f.len() as int));
            if finished[i - 1] {
                self.entries.remove(i - 1);
                assert(self.entries@ =~= all.subrange(0, i - 1) + unfinished(s1, f1));
            } else {
                assert(before[i - 1] == all[i - 1]);
                assert(self.entries@ =~= all.subrange(0, i - 1) + unfinished(s1, f1));
            }
            proof {
                assert forall|a: int, b: int|
                    0 <= a < b < self.entries@.len() implies #[trigger] self.entries@[a].relay_id@
                    != #[trigger] self.entries@[b].relay_id@ by {
                    if finished@[i - 1] {
                        let a0 = if a < i - 1 { a } else { a + 1 };
                        let b0 = if b < i - 1 { b } else { b + 1 };
                        assert(self.entries@[a] == before[a0]);
                        assert(self.entries@[b] == before[b0]);
                    }
                }
            }
            i = i - 1;
        }
        assert(all.subrange(0, all.len() as int) =~= all);
        assert(f.subrange(0, f.len() as int) =~= f);
        assert(self.entries@ =~= unfinished(all, f));
    }

    /// The position of the session a downlink publish goes to: the named
    /// relay's, or the first session's when no relay is named.
    pub fn route(&self, relay_id: &Option<String>) -> (r: Option<usize>)
        requires
            self.wf(),
        ensures
            r matches Some(i) ==> i < self@.len(),
            match relay_id {
                None => r == (if self@.len() == 0 { None::<usize> } else { Some(0usize) }),
                Some(id) => {
                    &&& r is Some <==> self.ids().contains(id@)
                    &&& r matches Some(i) ==> self.ids()[i as int] == id@
                    &&& r matches Some(i) ==> forall|j: int|
                        0 <= j < self@.len() && #[trigger] self.ids()[j] == id@ ==> j == i
                },
            },
    {
        match relay_id {
            None => if self.entries.len() == 0 {
                None
            } else {
                Some(0)
            },
            Some(id) => self.position(id),
        }
    }
}

/// A sweep leaves exactly the sessions whose task has not finished: every
/// remaining entry is one of them, and each of them remains.
pub proof fn lemma_sweep_leaves_no_finished<H>(entries: Seq<SessionEntry<H>>, finished: Seq<bool>)
    requires
        finished.len() == entries.len(),
    ensures
        forall|k: int| 0 <= k < unfinished(entries, finished).len() ==> exists|j: int|
            0 <= j < entries.len() && !finished[j] && #[trigger] unfinished(entries, finished)[k]
                == entries[j],
        forall|j: int|
            0 <= j < entries.len() && !finished[j] ==> unfinished(entries, finished).contains(
                #[trigger] entries[j],
            ),
    decreases entries.len(),
{
    if entries.len() > 0 {
        let rest_e = entries.drop_first();
        let rest_f = finished.drop_first();
        lemma_sweep_leaves_no_finished(rest_e, rest_f);
        let rest = unfinished(rest_e, rest_f);
        let u = unfinished(entries, finished);
        assert forall|k: int| 0 <= k < u.len() implies exists|j: int|
            0 <= j < entries.len() && !finished[j] && #[trigger] u[k] == entries[j] by {
            if finished[0] {
                let j = choose|j: int| 0 <= j < rest_e.len() && !rest_f[j] && rest[k] == rest_e[j];
                assert(u[k] == entries[j + 1]);
            } else if k == 0 {
                assert(u[k] == entries[0]);
            } else {
                assert(u[k] == rest[k - 1]);
                let j = choose|j: int| 0 <= j < rest_e.len() && !rest_f[j] && rest[k - 1] == rest_e[j];
                assert(u[k] == entries[j + 1]);
            }
        }
        assert forall|j: int| 0 <= j < entries.len() && !finished[j] implies u.contains(
            #[trigger] entries[j],
        ) by {
            if j == 0 {
                assert(u[0] == entries[0]);
            } else {
                assert(entries[j] == rest_e[j - 1]);
                assert(rest.contains(rest_e[j - 1]));
                let m = choose|m: int| 0 <= m < rest.len() && rest[m] == rest_e[j - 1];
                if finished[0] {
                    assert(u[m] == entries[j]);
                } else {
                    assert(u[m + 1] == entries[j]);
                }
            }
        }
    }
}

} // verus!
