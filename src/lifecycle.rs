//! Lifecycle of the single application handle and of the shared references
//! to it: the process-wide slot that says whether a handle is live, and the
//! count of references that keep its state reachable.
use vstd::prelude::*;

verus! {

/// The state of the slot: whether a handle is live, and how many references
/// to its state exist (the handle's own one included).
pub struct SlotView {
    pub live: bool,
    pub refs: nat,
}

/// An operation on the slot.
#[derive(Clone, Copy, Debug, PartialEq, Eq, Structural)]
pub enum Op {
    /// Create the application handle.
    Create,
    /// Clone a shared reference (or mint one from the handle).
    Acquire,
    /// Drop a shared reference.
    Release,
    /// Look the handle up; the flag says whether the lock was free.
    Lookup(bool),
    /// Destroy the application handle.
    Teardown,
}

/// What destroying the handle must do.
#[derive(Clone, Copy, Debug, PartialEq, Eq, Structural)]
pub enum Teardown {
    /// No shared reference is left: clear the slot and delete the native
    /// application.
    Release,
    /// Shared references are still outstanding: leak the native application
    /// and stop with a fatal usage error.
    LeakAndAbort,
}

/// The slot at process start: no handle, no reference.
pub open spec fn empty_slot() -> SlotView {
    SlotView { live: false, refs: 0 }
}

/// A handle is live exactly when some reference to its state exists.
pub open spec fn slot_wf(v: SlotView) -> bool {
    v.live <==> v.refs >= 1
}

/// The number of application handles that exist in state `v`.
pub open spec fn handles(v: SlotView) -> nat {
    if v.live {
        1
    } else {
        0
    }
}

/// Whether a lookup finds the handle.
pub open spec fn lookup_finds(v: SlotView, lock_free: bool) -> bool {
    lock_free && v.live
}

/// The state after one operation, or `None` where the operation is a fatal
/// usage error (a second handle, a reference without a handle, destroying a
/// handle that is still referenced).
pub open spec fn step(v: SlotView, op: Op) -> Option<SlotView> {
    match op {
        Op::Create => if v.live {
            None
        } else {
            Some(SlotView { live: true, refs: 1 })
        },
        Op::Acquire => if v.live {
            Some(SlotView { live: true, refs: v.refs + 1 })
        } else {
            None
        },
        Op::Release => if v.live && v.refs >= 2 {
            Some(SlotView { live: true, refs: (v.refs - 1) as nat })
        } else {
            None
        },
        Op::Lookup(lock_free) => if lookup_finds(v, lock_free) {
            Some(SlotView { live: true, refs: v.refs + 1 })
        } else {
            Some(v)
        },
        Op::Teardown => if v.live && v.refs == 1 {
            Some(empty_slot())
        } else {
            None
        },
    }
}

/// The state after a sequence of operations, or `None` once one of them is
/// a fatal usage error.
pub open spec fn run(v: SlotView, ops: Seq<Op>) -> Option<SlotView>
    decreases ops.len(),
{
    if ops.len() == 0 {
        Some(v)
    } else {
        match step(v, ops[0]) {
            None => None,
            Some(w) => run(w, ops.drop_first()),
        }
    }
}

/// What destroying the handle decides, and the state it leaves: the slot is
/// cleared only when no shared reference is outstanding; otherwise the
/// reference being dropped is leaked, so the state is never freed.
pub open spec fn teardown_outcome(v: SlotView) -> (Teardown, SlotView) {
    if v.refs > 1 {
        (Teardown::LeakAndAbort, SlotView { live: true, refs: v.refs + 1 })
    } else {
        (Teardown::Release, empty_slot())
    }
}

/// `n` copies of one operation.
pub open spec fn repeat(op: Op, n: nat) -> Seq<Op> {
    Seq::new(n, |i: int| op)
}

proof fn lemma_run_concat(v: SlotView, a: Seq<Op>, b: Seq<Op>)
    ensures
        run(v, a + b) == (match run(v, a) {
            None => None,
            Some(w) => run(w, b),
        }),
    decreases a.len(),
{
    if a.len() == 0 {
        assert(a + b =~= b);
    } else {
        assert((a + b)[0] == a[0]);
        assert((a + b).drop_first() =~= a.drop_first() + b);
        if let Some(w) = step(v, a[0]) {
            lemma_run_concat(w, a.drop_first(), b);
        }
    }
}

proof fn lemma_run_wf(v: SlotView, ops: Seq<Op>)
    requires
        slot_wf(v),
    ensures
        run(v, ops) matches Some(w) ==> slot_wf(w),
    decreases ops.len(),
{
    if ops.len() > 0 {
        if let Some(w) = step(v, ops[0]) {
            lemma_run_wf(w, ops.drop_first());
        }
    }
}

proof fn lemma_run_acquires(v: SlotView, n: nat)
    requires
        v.live,
    ensures
        run(v, repeat(Op::Acquire, n)) == Some(SlotView { live: true, refs: v.refs + n }),
    decreases n,
{
    if n > 0 {
        let w = SlotView { live: true, refs: v.refs + 1 };
        assert(repeat(Op::Acquire, n).drop_first() =~= repeat(Op::Acquire, (n - 1) as nat));
        lemma_run_acquires(w, (n - 1) as nat);
    }
}

proof fn lemma_run_releases(v: SlotView, k: nat)
    requires
        v.live,
        v.refs >= k + 1,
    ensures
        run(v, repeat(Op::Release, k)) == Some(SlotView { live: true, refs: (v.refs - k) as nat }),
    decreases k,
{
    if k > 0 {
        let w = SlotView { live: true, refs: (v.refs - 1) as nat };
        assert(repeat(Op::Release, k).drop_first() =~= repeat(Op::Release, (k - 1) as nat));
        lemma_run_releases(w, (k - 1) as nat);
    }
}

/// Whatever operations ran from process start, at most one handle exists,
/// it is live exactly while references to it exist, and creating another
/// one while it is live is a fatal usage error.
pub proof fn lemma_single_handle(ops: Seq<Op>, v: SlotView)
    requires
        run(empty_slot(), ops) == Some(v),
    ensures
        handles(v) <= 1,
        slot_wf(v),
        v.live ==> run(empty_slot(), ops.push(Op::Create)) is None,
{
    lemma_run_wf(empty_slot(), ops);
    assert(ops.push(Op::Create) =~= ops + seq![Op::Create]);
    lemma_run_concat(empty_slot(), ops, seq![Op::Create]);
    assert(seq![Op::Create].drop_first() =~= Seq::<Op>::empty());
}

/// A lookup finds nothing while no handle is live, whether or not the lock
/// is free; while one is live and the lock is free, it finds it and the new
/// reference is counted.
pub proof fn lemma_lookup_follows_liveness(v: SlotView, lock_free: bool)
    requires
        slot_wf(v),
    ensures
        !v.live ==> !lookup_finds(v, lock_free) && step(v, Op::Lookup(lock_free)) == Some(v),
        v.live && lock_free ==> lookup_finds(v, lock_free) && step(v, Op::Lookup(lock_free))
            == Some(SlotView { live: true, refs: v.refs + 1 }),
{
}

/// Cloning a reference `n` times and dropping `n - 1` of the clones leaves
/// the handle live, with one reference more than before.
pub proof fn lemma_clones_keep_handle(v: SlotView, n: nat)
    requires
        slot_wf(v),
        v.live,
        n >= 1,
    ensures
        run(v, repeat(Op::Acquire, n) + repeat(Op::Release, (n - 1) as nat)) == Some(
            SlotView { live: true, refs: v.refs + 1 },
        ),
{
    lemma_run_concat(v, repeat(Op::Acquire, n), repeat(Op::Release, (n - 1) as nat));
    lemma_run_acquires(v, n);
    lemma_run_releases(SlotView { live: true, refs: v.refs + n }, (n - 1) as nat);
}

/// Destroying the handle while a shared reference is outstanding is a fatal
/// usage error, and its state is leaked rather than freed: the slot still
/// holds it.
pub proof fn lemma_teardown_while_referenced(v: SlotView)
    requires
        slot_wf(v),
        v.refs >= 2,
    ensures
        step(v, Op::Teardown) is None,
        teardown_outcome(v).0 == Teardown::LeakAndAbort,
        teardown_outcome(v).1.live,
        teardown_outcome(v).1.refs > v.refs,
{
}

/// The process-wide slot of the application handle.
pub struct Slot {
    live: bool,
    refs: u64,
}

impl View for Slot {
    type V = SlotView;

    closed spec fn view(&self) -> SlotView {
        SlotView { live: self.live, refs: self.refs as nat }
    }
}

impl Slot {
    /// The slot at process start.
    pub fn new() -> (r: Slot)
        ensures
            r@ == empty_slot(),
    {
        Slot { live: false, refs: 0 }
    }

    /// Whether a handle is live.
    pub fn is_live(&self) -> (r: bool)
        ensures
            r == self@.live,
    {
        self.live
    }

    /// The number of references to the live handle's state.
    pub fn refs(&self) -> (r: u64)
        ensures
            r as nat == self@.refs,
    {
        self.refs
    }

    /// Records the creation of the handle. Creating a second one while one
    /// is live is a fatal usage error, left to the caller to detect.
    pub fn create(&mut self)
        requires
            !old(self)@.live,
        ensures
            step(old(self)@, Op::Create) == Some(final(self)@),
            final(self)@.live,
            final(self)@.refs == 1,
    {
        self.live = true;
        self.refs = 1;
    }

    /// Records a new reference to the live handle's state.
    pub fn acquire(&mut self)
        requires
            old(self)@.live,
            old(self)@.refs < u64::MAX,
        ensures
            step(old(self)@, Op::Acquire) == Some(final(self)@),
            final(self)@ == (SlotView { live: true, refs: old(self)@.refs + 1 }),
    {
        self.refs = self.refs + 1;
    }

    /// Records that a shared reference was dropped. The handle's own
    /// reference is not one of them: it goes in `teardown`.
    pub fn release(&mut self)
        requires
            old(self)@.live,
            old(self)@.refs >= 2,
        ensures
            step(old(self)@, Op::Release) == Some(final(self)@),
            final(self)@ == (SlotView { live: true, refs: (old(self)@.refs - 1) as nat }),
    {
        self.refs = self.refs - 1;
    }

    /// Looks the handle up; `lock_free` says whether the slot's lock could be
    /// taken without waiting. Finds it, and counts the new reference, exactly
    /// when the lock was free and a handle is live.
    pub fn lookup(&mut self, lock_free: bool) -> (r: bool)
        requires
            old(self)@.refs < u64::MAX,
        ensures
            r == lookup_finds(old(self)@, lock_free),
            step(old(self)@, Op::Lookup(lock_free)) == Some(final(self)@),
    {
        if lock_free && self.live {
            self.refs = self.refs + 1;
            true
        } else {
            false
        }
    }

    /// Decides what destroying the live handle does; see
    /// `teardown_outcome`.
    pub fn teardown(&mut self) -> (r: Teardown)
        requires
            old(self)@.live,
            old(self)@.refs < u64::MAX,
        ensures
            (r, final(self)@) == teardown_outcome(old(self)@),
    {
        if self.refs > 1 {
            self.refs = self.refs + 1;
            Teardown::LeakAndAbort
        } else {
            self.live = false;
            self.refs = 0;
            Teardown::Release
        }
    }
}

} // verus!
