//! Counting admission pools and the concurrency governor built from them.
//!
//! Every network call must hold one permit from the global pool, and, when
//! the target host has a configured override pool, one permit from that pool
//! as well. The pools are the system's only backpressure mechanism: a caller
//! that cannot obtain a permit waits instead of issuing more concurrent work.
//! The governor here is the instrumented admission model: it counts the
//! permits that are out, and each of its operations performs exactly one
//! step of the event model below — so the bound proved of every event
//! sequence holds of every run. An embedding runtime maps `None` from
//! [`Governor::try_admit`] to suspension rather than to an error.
use vstd::prelude::*;

verus! {

/// A counting admission pool with a fixed capacity.
pub struct PermitPool {
    cap: usize,
    used: usize,
}

impl PermitPool {
    /// The configured ceiling of the pool.
    pub closed spec fn capacity(self) -> nat {
        self.cap as nat
    }

    /// The number of permits currently out.
    pub closed spec fn in_flight(self) -> nat {
        self.used as nat
    }

    /// The permits out never exceed the capacity.
    pub open spec fn wf(self) -> bool {
        self.in_flight() <= self.capacity()
    }

    /// A fresh pool has no permits out.
    pub fn new(capacity: usize) -> (p: PermitPool)
        ensures
            p.wf(),
            p.capacity() == capacity,
            p.in_flight() == 0,
    {
        PermitPool { cap: capacity, used: 0 }
    }

    /// Hand out one permit if the pool is not exhausted; an exhausted pool
    /// grants nothing and is left unchanged.
    pub fn try_acquire(&mut self) -> (granted: bool)
        requires
            old(self).wf(),
        ensures
            final(self).wf(),
            final(self).capacity() == old(self).capacity(),
            granted ==> old(self).in_flight() < old(self).capacity() && final(self).in_flight()
                == old(self).in_flight() + 1,
            !granted ==> *final(self) == *old(self) && old(self).in_flight() == old(
                self,
            ).capacity(),
    {
        if self.used < self.cap {
            self.used = self.used + 1;
            true
        } else {
            false
        }
    }

    /// Return one permit to the pool.
    pub fn release(&mut self)
        requires
            old(self).wf(),
            old(self).in_flight() > 0,
        ensures
            final(self).wf(),
            final(self).capacity() == old(self).capacity(),
            final(self).in_flight() == old(self).in_flight() - 1,
    {
        self.used = self.used - 1;
    }
}

/// Evidence of one successful admission; returning it releases exactly the
/// permits that were taken. `host_slot` remembers which override pool (if
/// any) contributed a permit besides the global pool.
pub struct Permit {
    host_slot: Option<usize>,
}

impl Permit {
    /// The override pool this permit also draws on, if any.
    pub closed spec fn spec_host_slot(self) -> Option<int> {
        match self.host_slot {
            Some(i) => Some(i as int),
            None => None,
        }
    }
}

/// The index of the first override pool registered under `host`.
pub open spec fn spec_slot_from(pools: Seq<(String, PermitPool)>, host: Seq<char>, i: int) -> Option<
    int,
>
    decreases pools.len() - i,
{
    if i < 0 || i >= pools.len() {
        None
    } else if pools[i].0@ == host {
        Some(i)
    } else {
        spec_slot_from(pools, host, i + 1)
    }
}

/// Override-pool lookup depends only on the registered host identities, not
/// on the permit counts.
proof fn lemma_slot_from_names(
    p1: Seq<(String, PermitPool)>,
    p2: Seq<(String, PermitPool)>,
    host: Seq<char>,
    i: int,
)
    requires
        p1.len() == p2.len(),
        forall|k: int| 0 <= k < p1.len() ==> p1[k].0@ == p2[k].0@,
    ensures
        spec_slot_from(p1, host, i) == spec_slot_from(p2, host, i),
    decreases p1.len() - i,
{
    if 0 <= i && i < p1.len() {
        lemma_slot_from_names(p1, p2, host, i + 1);
    }
}

/// The concurrency governor: one global admission pool, plus override pools
/// keyed by host identity, all fixed at construction.
pub struct Governor {
    global: PermitPool,
    host_pools: Vec<(String, PermitPool)>,
}

impl Governor {
    /// The ceiling of the global pool.
    pub closed spec fn global_capacity(self) -> nat {
        self.global.capacity()
    }

    /// The permits currently out of the global pool.
    pub closed spec fn global_in_flight(self) -> nat {
        self.global.in_flight()
    }

    /// The number of configured override pools.
    pub closed spec fn n_hosts(self) -> nat {
        self.host_pools@.len()
    }

    /// The host identity of override pool `i`.
    pub closed spec fn host_name(self, i: int) -> Seq<char> {
        self.host_pools@[i].0@
    }

    /// The ceiling of override pool `i`.
    pub closed spec fn host_capacity(self, i: int) -> nat {
        self.host_pools@[i].1.capacity()
    }

    /// The permits currently out of override pool `i`.
    pub closed spec fn host_in_flight(self, i: int) -> nat {
        self.host_pools@[i].1.in_flight()
    }

    /// The override pool responsible for `host`: the first one registered
    /// under that identity, if any.
    pub closed spec fn spec_host_slot(self, host: Seq<char>) -> Option<int> {
        spec_slot_from(self.host_pools@, host, 0)
    }

    /// The override-pool ceilings, as the admission model sees them.
    pub open spec fn spec_host_caps(self) -> Seq<nat> {
        Seq::new(self.n_hosts(), |i: int| self.host_capacity(i))
    }

    /// The permits out of each override pool, as the admission model sees
    /// them.
    pub open spec fn spec_host_counts(self) -> Seq<nat> {
        Seq::new(self.n_hosts(), |i: int| self.host_in_flight(i))
    }

    /// No pool ever exceeds its ceiling, globally or per host.
    pub open spec fn wf(self) -> bool {
        &&& self.global_in_flight() <= self.global_capacity()
        &&& forall|i: int|
            0 <= i < self.n_hosts() ==> self.host_in_flight(i) <= self.host_capacity(i)
    }

    /// The two governors have the same pools with the same ceilings; only
    /// the permit counts may differ.
    pub open spec fn same_shape(self, other: Governor) -> bool {
        &&& self.global_capacity() == other.global_capacity()
        &&& self.n_hosts() == other.n_hosts()
        &&& forall|i: int|
            0 <= i < self.n_hosts() ==> self.host_name(i) == other.host_name(i)
                && self.host_capacity(i) == other.host_capacity(i)
    }

    /// Build a governor with the given global ceiling and per-host override
    /// ceilings; no permits are out initially.
    pub fn new(global_capacity: usize, host_limits: Vec<(String, usize)>) -> (g: Governor)
        ensures
            g.wf(),
            g.global_capacity() == global_capacity,
            g.global_in_flight() == 0,
            g.n_hosts() == host_limits@.len(),
            forall|i: int|
                0 <= i < g.n_hosts() ==> g.host_name(i) == host_limits@[i].0@ && g.host_capacity(i)
                    == host_limits@[i].1 && g.host_in_flight(i) == 0,
    {
        let ghost limits = host_limits@;
        let mut host_limits = host_limits;
        let mut host_pools: Vec<(String, PermitPool)> = Vec::new();
        while host_limits.len() > 0
            invariant
                host_limits@.len() <= limits.len(),
                host_limits@ == limits.subrange(
                    limits.len() - host_limits@.len(),
                    limits.len() as int,
                ),
                host_pools@.len() == limits.len() - host_limits@.len(),
                forall|i: int|
                    0 <= i < host_pools@.len() ==> (#[trigger] host_pools@[i]).0@ == limits[i].0@
                        && host_pools@[i].1.capacity() == limits[i].1 && host_pools@[i].1.in_flight()
                        == 0,
            decreases host_limits@.len(),
        {
            let (name, limit) = host_limits.remove(0);
            host_pools.push((name, PermitPool::new(limit)));
            proof {
                assert(host_limits@ =~= limits.subrange(
                    limits.len() - host_limits@.len(),
                    limits.len() as int,
                ));
            }
        }
        proof {
            assert forall|i: int|
                0 <= i < host_pools@.len() implies host_pools@[i].1.in_flight()
                <= host_pools@[i].1.capacity() by {
                assert(host_pools@[i].1.in_flight() == 0);
            }
        }
        Governor { global: PermitPool::new(global_capacity), host_pools }
    }

    /// The override pool registered for `host`, if one is.
    fn host_slot(&self, host: &String) -> (r: Option<usize>)
        ensures
            (match r {
                Some(i) => self.spec_host_slot(host@) == Some(i as int) && i < self.n_hosts(),
                None => self.spec_host_slot(host@) is None,
            }),
    {
        let mut i: usize = 0;
        while i < self.host_pools.len()
            invariant
                i <= self.host_pools@.len(),
                spec_slot_from(self.host_pools@, host@, 0) == spec_slot_from(
                    self.host_pools@,
                    host@,
                    i as int,
                ),
            decreases self.host_pools@.len() - i,
        {
            if self.host_pools[i].0 == *host {
                return Some(i);
            }
            i = i + 1;
        }
        None
    }

    /// Try to admit one call that targets `host`: take a permit from the
    /// host's override pool when one is registered, then from the global
    /// pool. Admission is all or nothing — if either pool is exhausted the
    /// governor is left unchanged and the caller must wait.
    pub fn try_admit(&mut self, host: &String) -> (r: Option<Permit>)
        requires
            old(self).wf(),
        ensures
            final(self).wf(),
            final(self).same_shape(*old(self)),
            final(self).spec_host_slot(host@) == old(self).spec_host_slot(host@),
            (final(self).global_in_flight(), final(self).spec_host_counts()) == spec_apply_event(
                old(self).global_capacity(),
                old(self).spec_host_caps(),
                (old(self).global_in_flight(), old(self).spec_host_counts()),
                PoolEvent::Admit { host_slot: old(self).spec_host_slot(host@) },
            ),
            (match r {
                Some(p) => {
                    &&& p.spec_host_slot() == old(self).spec_host_slot(host@)
                    &&& final(self).global_in_flight() == old(self).global_in_flight() + 1
                    &&& (match old(self).spec_host_slot(host@) {
                        Some(i) => final(self).host_in_flight(i) == old(self).host_in_flight(i) + 1
                            && forall|j: int|
                            0 <= j < old(self).n_hosts() && j != i ==> final(self).host_in_flight(j)
                                == old(self).host_in_flight(j),
                        None => forall|j: int|
                            0 <= j < old(self).n_hosts() ==> final(self).host_in_flight(j) == old(
                                self,
                            ).host_in_flight(j),
                    })
                },
                None => {
                    &&& final(self).global_in_flight() == old(self).global_in_flight()
                    &&& forall|j: int|
                        0 <= j < old(self).n_hosts() ==> final(self).host_in_flight(j) == old(
                            self,
                        ).host_in_flight(j)
                    &&& (old(self).global_in_flight() == old(self).global_capacity() || (match old(
                        self,
                    ).spec_host_slot(host@) {
                        Some(i) => old(self).host_in_flight(i) == old(self).host_capacity(i),
                        None => false,
                    }))
                },
            }),
    {
        let ghost pools0 = self.host_pools@;
        let slot = self.host_slot(host);
        match slot {
            Some(i) => {
                proof {
                    assert(old(self).host_in_flight(i as int) <= old(self).host_capacity(i as int));
                }
                let entry = &mut self.host_pools[i];
                let got_host = entry.1.try_acquire();
                proof {
                    lemma_slot_from_names(self.host_pools@, pools0, host@, 0);
                }
                if !got_host {
                    proof {
                        assert(self.host_pools@ =~= pools0);
                        assert forall|j: int|
                            0 <= j < self.n_hosts() implies self.host_in_flight(j)
                            <= self.host_capacity(j) by {
                            assert(old(self).host_in_flight(j) <= old(self).host_capacity(j));
                        }
                        assert(self.spec_host_counts() =~= old(self).spec_host_counts());
                    }
                    return None;
                }
                let got_global = self.global.try_acquire();
                if got_global {
                    proof {
                        assert forall|j: int|
                            0 <= j < self.n_hosts() implies self.host_in_flight(j)
                            <= self.host_capacity(j) by {
                            if j == i as int {
                                assert(self.host_pools@[j].1.wf());
                            } else {
                                assert(old(self).host_in_flight(j) <= old(self).host_capacity(j));
                                assert(self.host_pools@[j] == pools0[j]);
                            }
                        }
                        assert(self.spec_host_counts() =~= old(self).spec_host_counts().update(
                            i as int,
                            (old(self).host_in_flight(i as int) + 1) as nat,
                        ));
                    }
                    Some(Permit { host_slot: Some(i) })
                } else {
                    let entry = &mut self.host_pools[i];
                    entry.1.release();
                    proof {
                        assert(self.host_pools@ =~= pools0);
                        assert forall|j: int|
                            0 <= j < self.n_hosts() implies self.host_in_flight(j)
                            <= self.host_capacity(j) by {
                            assert(old(self).host_in_flight(j) <= old(self).host_capacity(j));
                        }
                        assert(self.spec_host_counts() =~= old(self).spec_host_counts());
                    }
                    None
                }
            },
            None => {
                let got_global = self.global.try_acquire();
                proof {
                    assert forall|j: int|
                        0 <= j < self.n_hosts() implies self.host_in_flight(j)
                        <= self.host_capacity(j) by {
                        assert(old(self).host_in_flight(j) <= old(self).host_capacity(j));
                    }
                    assert(self.spec_host_counts() =~= old(self).spec_host_counts());
                }
                if got_global {
                    Some(Permit { host_slot: None })
                } else {
                    None
                }
            },
        }
    }

    /// Give back the permits behind one admission.
    pub fn release(&mut self, permit: Permit)
        requires
            old(self).wf(),
            old(self).global_in_flight() > 0,
            (match permit.spec_host_slot() {
                Some(i) => 0 <= i < old(self).n_hosts() && old(self).host_in_flight(i) > 0,
                None => true,
            }),
        ensures
            final(self).wf(),
            final(self).same_shape(*old(self)),
            final(self).global_in_flight() == old(self).global_in_flight() - 1,
            (final(self).global_in_flight(), final(self).spec_host_counts()) == spec_apply_event(
                old(self).global_capacity(),
                old(self).spec_host_caps(),
                (old(self).global_in_flight(), old(self).spec_host_counts()),
                PoolEvent::Complete { host_slot: permit.spec_host_slot() },
            ),
            (match permit.spec_host_slot() {
                Some(i) => final(self).host_in_flight(i) == old(self).host_in_flight(i) - 1
                    && forall|j: int|
                    0 <= j < old(self).n_hosts() && j != i ==> final(self).host_in_flight(j) == old(
                        self,
                    ).host_in_flight(j),
                None => forall|j: int|
                    0 <= j < old(self).n_hosts() ==> final(self).host_in_flight(j) == old(
                        self,
                    ).host_in_flight(j),
            }),
    {
        let ghost pools0 = self.host_pools@;
        match permit.host_slot {
            Some(i) => {
                proof {
                    assert(old(self).host_in_flight(i as int) <= old(self).host_capacity(i as int));
                }
                let entry = &mut self.host_pools[i];
                entry.1.release();
            },
            None => (),
        }
        self.global.release();
        proof {
            assert forall|j: int|
                0 <= j < self.n_hosts() implies self.host_in_flight(j) <= self.host_capacity(
                j,
            ) by {
                assert(old(self).host_in_flight(j) <= old(self).host_capacity(j));
            }
            match permit.host_slot {
                Some(i) => {
                    assert(self.spec_host_counts() =~= old(self).spec_host_counts().update(
                        i as int,
                        (old(self).host_in_flight(i as int) - 1) as nat,
                    ));
                },
                None => {
                    assert(self.spec_host_counts() =~= old(self).spec_host_counts());
                },
            }
        }
    }
}

/// One admission-control event: an admission attempt that draws on the
/// given override pool (if any) besides the global pool, or the completion
/// of such an admission.
pub enum PoolEvent {
    Admit { host_slot: Option<int> },
    Complete { host_slot: Option<int> },
}

/// How the counts of permits out change when one event occurs. An
/// admission takes effect only when every pool it draws on has room —
/// otherwise the caller is still waiting and nothing changes — and a
/// completion only returns permits that are actually out.
pub open spec fn spec_apply_event(
    global_cap: nat,
    host_caps: Seq<nat>,
    counts: (nat, Seq<nat>),
    event: PoolEvent,
) -> (nat, Seq<nat>) {
    let (g, hs) = counts;
    match event {
        PoolEvent::Admit { host_slot } => match host_slot {
            None => if g < global_cap {
                ((g + 1) as nat, hs)
            } else {
                (g, hs)
            },
            Some(i) => if 0 <= i < hs.len() && g < global_cap && hs[i] < host_caps[i] {
                ((g + 1) as nat, hs.update(i, (hs[i] + 1) as nat))
            } else {
                (g, hs)
            },
        },
        PoolEvent::Complete { host_slot } => match host_slot {
            None => if g > 0 {
                ((g - 1) as nat, hs)
            } else {
                (g, hs)
            },
            Some(i) => if 0 <= i < hs.len() && g > 0 && hs[i] > 0 {
                ((g - 1) as nat, hs.update(i, (hs[i] - 1) as nat))
            } else {
                (g, hs)
            },
        },
    }
}

/// The permits out of the global pool and of each override pool after
/// `events`, starting from an idle system.
pub open spec fn spec_counts_after(
    global_cap: nat,
    host_caps: Seq<nat>,
    events: Seq<PoolEvent>,
) -> (nat, Seq<nat>)
    decreases events.len(),
{
    if events.len() == 0 {
        (0nat, Seq::new(host_caps.len(), |i: int| 0nat))
    } else {
        spec_apply_event(
            global_cap,
            host_caps,
            spec_counts_after(global_cap, host_caps, events.drop_last()),
            events.last(),
        )
    }
}

/// For any configured ceilings and any sequence of admissions and
/// completions, in any order, the instrumented concurrency never exceeds
/// the global cap nor any per-host override cap.
pub proof fn lemma_counts_never_exceed_caps(
    global_cap: nat,
    host_caps: Seq<nat>,
    events: Seq<PoolEvent>,
)
    ensures
        ({
            let (g, hs) = spec_counts_after(global_cap, host_caps, events);
            g <= global_cap && hs.len() == host_caps.len() && forall|i: int|
                0 <= i < hs.len() ==> hs[i] <= host_caps[i]
        }),
    decreases events.len(),
{
    if events.len() > 0 {
        lemma_counts_never_exceed_caps(global_cap, host_caps, events.drop_last());
    }
}

} // verus!
