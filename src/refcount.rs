use vstd::prelude::*;

verus! {

/// One change to the closure's reference count made by a holder of the cookie.
#[derive(Clone, Copy, Debug, PartialEq, Eq, Structural)]
pub enum RefEvent {
    /// A holder takes one more reference.
    Acquire,
    /// A holder gives up one reference.
    Release,
}

/// What a change to the reference count did.
#[derive(Clone, Copy, Debug, PartialEq, Eq, Structural)]
pub enum RefOutcome {
    /// One more reference is held.
    Acquired,
    /// No reference was taken: the closure is already freed, or the count
    /// cannot grow.
    AcquireRefused,
    /// One reference was dropped and others remain: the closure stays.
    Retained,
    /// The last reference was dropped: the closure is to be freed now.
    Freed,
    /// A release with no reference outstanding: nothing changes.
    OverReleased,
}

/// The count after `e` on a count of `c`, and what `e` did.
pub open spec fn step(c: nat, e: RefEvent) -> (nat, RefOutcome) {
    match e {
        RefEvent::Acquire => if c == 0 || c >= u64::MAX {
            (c, RefOutcome::AcquireRefused)
        } else {
            ((c + 1) as nat, RefOutcome::Acquired)
        },
        RefEvent::Release => if c == 0 {
            (0, RefOutcome::OverReleased)
        } else if c == 1 {
            (0, RefOutcome::Freed)
        } else {
            ((c - 1) as nat, RefOutcome::Retained)
        },
    }
}

/// The count after `evs` in order from a count of `c`, and the outcome of each.
pub open spec fn run(c: nat, evs: Seq<RefEvent>) -> (nat, Seq<RefOutcome>)
    decreases evs.len(),
{
    if evs.len() == 0 {
        (c, seq![])
    } else {
        let (c1, o) = step(c, evs[0]);
        let (c2, os) = run(c1, evs.subrange(1, evs.len() as int));
        (c2, seq![o] + os)
    }
}

/// Acquisitions minus releases in `evs`.
pub open spec fn balance(evs: Seq<RefEvent>) -> int
    decreases evs.len(),
{
    if evs.len() == 0 {
        0
    } else {
        (if evs[0] is Acquire {
            1int
        } else {
            -1int
        }) + balance(evs.subrange(1, evs.len() as int))
    }
}

/// The holders' side of the protocol, from a count of `c`: the count never
/// drops to zero before the last event, and the last release brings it to
/// zero. The count never has to grow past `u64::MAX - 1`.
pub open spec fn follows_protocol(c: nat, evs: Seq<RefEvent>) -> bool {
    &&& evs.len() > 0
    &&& c + balance(evs) == 0
    &&& forall|k: int| 0 < k < evs.len() ==> c + #[trigger] balance(evs.take(k)) > 0
    &&& forall|k: int| 0 <= k <= evs.len() ==> c + #[trigger] balance(evs.take(k)) < u64::MAX
}

/// The reference count of a resolver closure shared with the native layer
/// through a cookie.
#[derive(Debug)]
pub struct CookieRefCount {
    count: u64,
}

impl CookieRefCount {
    pub closed spec fn spec_count(&self) -> nat {
        self.count as nat
    }

    /// A count for a newly allocated closure: the one reference that is handed
    /// to the native layer with the cookie.
    pub fn new() -> (r: CookieRefCount)
        ensures
            r.spec_count() == 1,
    {
        CookieRefCount { count: 1 }
    }

    pub fn count(&self) -> (r: u64)
        ensures
            r == self.spec_count(),
    {
        self.count
    }

    /// Whether the closure is still allocated.
    pub fn is_live(&self) -> (r: bool)
        ensures
            r == (self.spec_count() > 0),
    {
        self.count > 0
    }

    /// Takes one more reference, unless the closure is already freed or the
    /// count is at its limit.
    pub fn acquire(&mut self) -> (r: RefOutcome)
        ensures
            (final(self).spec_count(), r) == step(old(self).spec_count(), RefEvent::Acquire),
    {
        if self.count == 0 || self.count == u64::MAX {
            RefOutcome::AcquireRefused
        } else {
            self.count = self.count + 1;
            RefOutcome::Acquired
        }
    }

    /// Gives up one reference; `Freed` tells the caller that it dropped the
    /// last one and must free the closure.
    pub fn release(&mut self) -> (r: RefOutcome)
        ensures
            (final(self).spec_count(), r) == step(old(self).spec_count(), RefEvent::Release),
    {
        if self.count == 0 {
            RefOutcome::OverReleased
        } else if self.count == 1 {
            self.count = 0;
            RefOutcome::Freed
        } else {
            self.count = self.count - 1;
            RefOutcome::Retained
        }
    }

    /// Applies `e`.
    pub fn apply(&mut self, e: RefEvent) -> (r: RefOutcome)
        ensures
            (final(self).spec_count(), r) == step(old(self).spec_count(), e),
    {
        match e {
            RefEvent::Acquire => self.acquire(),
            RefEvent::Release => self.release(),
        }
    }
}

/// An accessor that is created and destroyed with no resolution in between
/// frees its closure: the native layer's one release finds the single
/// reference made at construction.
pub proof fn lemma_create_then_destroy_frees()
    ensures
        run(1, seq![RefEvent::Release]) == (0nat, seq![RefOutcome::Freed]),
{
    let evs = seq![RefEvent::Release];
    let (c1, o) = step(1, evs[0]);
    assert(evs.subrange(1, 1) =~= Seq::<RefEvent>::empty());
    assert(run(c1, evs.subrange(1, 1)) == (0nat, Seq::<RefOutcome>::empty()));
    assert(seq![o] + Seq::<RefOutcome>::empty() =~= seq![RefOutcome::Freed]);
}

proof fn lemma_take_tail(evs: Seq<RefEvent>, k: int)
    requires
        0 < k <= evs.len(),
    ensures
        evs.take(k).subrange(1, k) =~= evs.subrange(1, evs.len() as int).take(k - 1),
        evs.take(k)[0] == evs[0],
{
}

proof fn lemma_balance_take(evs: Seq<RefEvent>, k: int)
    requires
        0 < k <= evs.len(),
    ensures
        balance(evs.take(k)) == (if evs[0] is Acquire {
            1int
        } else {
            -1int
        }) + balance(evs.subrange(1, evs.len() as int).take(k - 1)),
{
    lemma_take_tail(evs, k);
}

/// Whatever the order of the holders' acquisitions and releases, as long as
/// they follow the protocol, the closure is freed exactly once: at the last
/// release, and at no earlier event.
pub proof fn lemma_freed_exactly_at_last_release(c: nat, evs: Seq<RefEvent>)
    requires
        c > 0,
        follows_protocol(c, evs),
    ensures
        run(c, evs).0 == 0,
        run(c, evs).1.len() == evs.len(),
        run(c, evs).1.last() == RefOutcome::Freed,
        forall|i: int| 0 <= i < evs.len() - 1 ==> run(c, evs).1[i] != RefOutcome::Freed,
    decreases evs.len(),
{
    let tail = evs.subrange(1, evs.len() as int);
    let d: int = if evs[0] is Acquire {
        1int
    } else {
        -1int
    };
    assert(balance(evs) == d + balance(tail));
    assert(evs.take(evs.len() as int) =~= evs);
    lemma_balance_take(evs, 1);
    assert(tail.take(0) =~= Seq::<RefEvent>::empty());
    assert(c + balance(evs.take(1)) < u64::MAX);
    let (c1, o) = step(c, evs[0]);
    assert(c1 == c + d);
    if evs.len() == 1 {
        assert(tail =~= Seq::<RefEvent>::empty());
        assert(c + d == 0);
        assert(o == RefOutcome::Freed);
        assert(run(c, evs).1 =~= seq![o]);
    } else {
        assert(c + balance(evs.take(1)) > 0);
        assert(o != RefOutcome::Freed);
        assert forall|k: int| 0 < k < tail.len() implies c1 + #[trigger] balance(tail.take(k))
            > 0 by {
            lemma_balance_take(evs, k + 1);
            assert(c + balance(evs.take(k + 1)) > 0);
        }
        assert forall|k: int| 0 <= k <= tail.len() implies c1 + #[trigger] balance(tail.take(k))
            < u64::MAX by {
            lemma_balance_take(evs, k + 1);
            assert(c + balance(evs.take(k + 1)) < u64::MAX);
        }
        lemma_freed_exactly_at_last_release(c1, tail);
        let os = run(c1, tail).1;
        assert(run(c, evs).1 == seq![o] + os);
        assert forall|i: int| 0 <= i < evs.len() - 1 implies run(c, evs).1[i]
            != RefOutcome::Freed by {
            if i > 0 {
                assert(run(c, evs).1[i] == os[i - 1]);
            }
        }
    }
}

/// While a resolution call holds its own reference, releasing any other
/// reference (the one the native accessor drops when it is destroyed) leaves
/// the closure allocated.
pub proof fn lemma_release_during_call_retains(c: nat)
    requires
        c >= 2,
    ensures
        step(c, RefEvent::Release) == ((c - 1) as nat, RefOutcome::Retained),
        (c - 1) as nat > 0,
{
}

/// Once the closure is freed, no holder can take a reference to it again, and
/// a further release never frees it a second time.
pub proof fn lemma_freed_stays_freed(e: RefEvent)
    ensures
        step(0, e).0 == 0,
        step(0, e).1 != RefOutcome::Freed,
{
}

} // verus!
