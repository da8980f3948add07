//! Building blocks for a host's implementation of the kernel services: interrupt handlers and deferred work.
use vstd::prelude::*;
use crate::status::Status;
use crate::types::{Handle, ThreadId, WorkType};

verus! {

/// Whether `hs` holds a handle with value `h`.
pub open spec fn lists(hs: Seq<Handle>, h: u64) -> bool {
    exists|k: int| 0 <= k < hs.len() && (#[trigger] hs[k])@ == h
}

/// The interrupt handlers a host has installed for the engine: each has a handle of its own
/// and the IRQ it serves.
pub struct InterruptTable {
    entries: Vec<(u64, u32)>,
    next: u64,
}

impl InterruptTable {
    /// The installed handlers, in the order they were installed: (handle, IRQ).
    pub closed spec fn entries(&self) -> Seq<(u64, u32)> {
        self.entries@
    }

    /// Whether a handler with handle value `h` is installed.
    pub open spec fn has_handle(&self, h: u64) -> bool {
        exists|i: int| 0 <= i < self.entries().len() && #[trigger] self.entries()[i].0 == h
    }

    /// Whether the handler with handle value `h` is installed for `irq`.
    pub open spec fn serves(&self, h: u64, irq: u32) -> bool {
        exists|i: int| 0 <= i < self.entries().len() && #[trigger] self.entries()[i] == (h, irq)
    }

    /// The handle value that the next installation gives out.
    pub closed spec fn next_handle(&self) -> u64 {
        self.next
    }

    /// Handles are nonzero and no two handlers share one.
    pub closed spec fn wf(&self) -> bool {
        &&& self.next >= 1
        &&& forall|i: int| 0 <= i < self.entries@.len() ==> 0 < #[trigger] self.entries@[i].0 < self.next
        &&& forall|i: int, j: int|
            0 <= i < j < self.entries@.len() ==> #[trigger] self.entries@[i].0 != #[trigger] self.entries@[j].0
    }

    pub fn new() -> (r: InterruptTable)
        ensures
            r.wf(),
            r.entries().len() == 0,
            r.next_handle() == 1,
    {
        InterruptTable { entries: Vec::new(), next: 1 }
    }

    /// Installs a handler for `irq` under a new handle. Fails with `OutOfMemory` only when
    /// every handle value has been given out.
    pub fn install(&mut self, irq: u32) -> (r: Result<Handle, Status>)
        requires
            old(self).wf(),
        ensures
            final(self).wf(),
            r is Err <==> old(self).next_handle() == u64::MAX,
            match r {
                Ok(h) => h@ == old(self).next_handle() && h@ != 0 && !old(self).has_handle(h@)
                    && final(self).entries() == old(self).entries().push((h@, irq))
                    && final(self).next_handle() == old(self).next_handle() + 1,
                Err(e) => e == Status::OutOfMemory && final(self).entries() == old(self).entries()
                    && final(self).next_handle() == old(self).next_handle(),
            },
    {
        if self.next == u64::MAX {
            return Err(Status::OutOfMemory);
        }
        let h = self.next;
        self.next = self.next + 1;
        self.entries.push((h, irq));
        proof {
            assert(self.entries@.last() == (h, irq));
        }
        Ok(Handle::new(h))
    }

    /// Whether the handler with handle value `h` is installed for `irq` among the first
    /// `n` entries.
    closed spec fn serves_upto(&self, h: u64, irq: u32, n: int) -> bool {
        exists|i: int| 0 <= i < n && #[trigger] self.entries@[i] == (h, irq)
    }

    fn position_of(&self, h: u64) -> (r: Option<usize>)
        requires
            self.wf(),
        ensures
            match r {
                Some(i) => i < self.entries().len() && self.entries()[i as int].0 == h,
                None => !self.has_handle(h),
            },
    {
        let mut i: usize = 0;
        while i < self.entries.len()
            invariant
                i <= self.entries@.len(),
                forall|j: int| 0 <= j < i ==> self.entries@[j].0 != h,
            decreases self.entries@.len() - i,
        {
            if self.entries[i].0 == h {
                return Some(i);
            }
            i = i + 1;
        }
        assert(!self.has_handle(h)) by {
            if self.has_handle(h) {
                let a = choose|a: int| 0 <= a < self.entries().len() && #[trigger] self.entries()[a].0 == h;
                assert(self.entries@[a].0 != h);
            }
        }
        None
    }

    /// Removes the handler with the given handle; `NotFound` if there is none.
    pub fn uninstall(&mut self, handle: Handle) -> (r: Result<(), Status>)
        requires
            old(self).wf(),
        ensures
            final(self).wf(),
            old(self).has_handle(handle@) ==> r is Ok && !final(self).has_handle(handle@)
                && exists|i: int|
                0 <= i < old(self).entries().len() && old(self).entries()[i].0 == handle@
                    && final(self).entries() == old(self).entries().remove(i),
            !old(self).has_handle(handle@) ==> r == Err::<(), Status>(Status::NotFound)
                && final(self).entries() == old(self).entries(),
    {
        let h = handle.as_u64();
        match self.position_of(h) {
            None => Err(Status::NotFound),
            Some(i) => {
                let ghost before = self.entries@;
                self.entries.remove(i);
                proof {
                    assert(before[i as int].0 == h);
                    assert(old(self).has_handle(h));
                    assert forall|a: int| 0 <= a < self.entries@.len() implies self.entries@[a].0
                        != h by {
                        if a < i {
                            assert(self.entries@[a] == before[a]);
                        } else {
                            assert(self.entries@[a] == before[a + 1]);
                        }
                    }
                    assert forall|a: int, b: int|
                        0 <= a < b < self.entries@.len() implies #[trigger] self.entries@[a].0
                        != #[trigger] self.entries@[b].0 by {
                        let a1 = if a < i { a } else { a + 1 };
                        let b1 = if b < i { b } else { b + 1 };
                        assert(self.entries@[a] == before[a1]);
                        assert(self.entries@[b] == before[b1]);
                    }
                    assert forall|a: int| 0 <= a < self.entries@.len() implies 0
                        < #[trigger] self.entries@[a].0 < self.next by {
                        let a1 = if a < i { a } else { a + 1 };
                        assert(self.entries@[a] == before[a1]);
                    }
                    assert(!self.has_handle(h)) by {
                        if self.has_handle(h) {
                            let a = choose|a: int|
                                0 <= a < self.entries().len() && #[trigger] self.entries()[a].0 == h;
                            assert(self.entries@[a].0 != h);
                        }
                    }
                    assert(self.entries() == old(self).entries().remove(i as int));
                }
                Ok(())
            }
        }
    }

    /// The handles of the handlers installed for `irq`, each once: the handlers an
    /// interrupt on that line runs.
    pub fn handlers_for(&self, irq: u32) -> (r: Vec<Handle>)
        requires
            self.wf(),
        ensures
            forall|h: u64| #[trigger] lists(r@, h) <==> self.serves(h, irq),
            forall|a: int, b: int| 0 <= a < b < r@.len() ==> (#[trigger] r@[a])@ != (#[trigger] r@[b])@,
    {
        let mut out: Vec<Handle> = Vec::new();
        let mut i: usize = 0;
        while i < self.entries.len()
            invariant
                self.wf(),
                i <= self.entries@.len(),
                forall|h: u64| #[trigger] lists(out@, h) <==> self.serves_upto(h, irq, i as int),
                forall|a: int, b: int| 0 <= a < b < out@.len() ==> (#[trigger] out@[a])@ != (#[trigger] out@[b])@,
            decreases self.entries@.len() - i,
        {
            let (h, line) = self.entries[i];
            let ghost old_out = out@;
            proof {
                assert forall|x: u64| #[trigger] self.serves_upto(x, irq, i + 1) <==> (self.serves_upto(x, irq, i as int)
                    || self.entries@[i as int] == (x, irq)) by {
                    if self.serves_upto(x, irq, i + 1) && self.entries@[i as int] != (x, irq) {
                        let j = choose|j: int| 0 <= j < i + 1 && #[trigger] self.entries@[j] == (x, irq);
                        assert(self.serves_upto(x, irq, i as int));
                    }
                }
            }
            if line == irq {
                proof {
                    assert(!lists(out@, h)) by {
                        if lists(out@, h) {
                            assert(self.serves_upto(h, irq, i as int));
                            let j = choose|j: int| 0 <= j < i && #[trigger] self.entries@[j] == (h, irq);
                            assert(self.entries@[j].0 != self.entries@[i as int].0);
                        }
                    }
                }
                let hv = Handle::new(h);
                out.push(hv);
                proof {
                    assert forall|x: u64| #[trigger] lists(out@, x) <==> (lists(old_out, x) || x == h) by {
                        lemma_lists_push(old_out, hv, x);
                    }
                    assert forall|a: int, b: int| 0 <= a < b < out@.len() implies (#[trigger] out@[a])@ != (#[trigger] out@[b])@ by {
                        if b == out@.len() - 1 {
                            assert(out@[a] == old_out[a]);
                            assert(lists(old_out, out@[a]@));
                        } else {
                            assert(out@[a] == old_out[a]);
                            assert(out@[b] == old_out[b]);
                        }
                    }
                }
            }
            i = i + 1;
        }
        proof {
            assert forall|h: u64| #[trigger] lists(out@, h) <==> self.serves(h, irq) by {
                if self.serves(h, irq) {
                    let j = choose|j: int| 0 <= j < self.entries().len() && #[trigger] self.entries()[j] == (h, irq);
                    assert(self.serves_upto(h, irq, self.entries@.len() as int));
                }
                if self.serves_upto(h, irq, self.entries@.len() as int) {
                    let j = choose|j: int| 0 <= j < self.entries@.len() && #[trigger] self.entries@[j] == (h, irq);
                    assert(self.entries()[j] == (h, irq));
                }
            }
        }
        out
    }
}

proof fn lemma_lists_push(s: Seq<Handle>, v: Handle, x: u64)
    ensures
        lists(s.push(v), x) <==> (lists(s, x) || v@ == x),
{
    if lists(s, x) {
        let k = choose|k: int| 0 <= k < s.len() && (#[trigger] s[k])@ == x;
        assert(s.push(v)[k] == s[k]);
    }
    if v@ == x {
        assert(s.push(v)[s.len() as int] == v);
    }
    if lists(s.push(v), x) {
        let k = choose|k: int| 0 <= k < s.len() + 1 && (#[trigger] s.push(v)[k])@ == x;
        if k < s.len() {
            assert(s.push(v)[k] == s[k]);
        }
    }
}

/// A handler runs for its IRQ from its installation on, and no longer once it is
/// uninstalled: after `install` adds a fresh handle for `irq`, `handlers_for(irq)` lists
/// it, and after `uninstall` removes that entry it is listed for no IRQ.
pub proof fn lemma_handler_lifetime(
    before: InterruptTable,
    installed: InterruptTable,
    removed: InterruptTable,
    h: u64,
    irq: u32,
    i: int,
)
    requires
        installed.entries() == before.entries().push((h, irq)),
        installed.wf(),
        0 <= i < installed.entries().len(),
        installed.entries()[i].0 == h,
        removed.entries() == installed.entries().remove(i),
    ensures
        installed.serves(h, irq),
        forall|line: u32| !removed.serves(h, line),
{
    let n = before.entries().len() as int;
    assert(installed.entries()[n] == (h, irq));
    assert forall|line: u32| !removed.serves(h, line) by {
        if removed.serves(h, line) {
            let k = choose|k: int| 0 <= k < removed.entries().len() && #[trigger] removed.entries()[k] == (h, line);
            let k1 = if k < i { k } else { k + 1 };
            assert(removed.entries()[k] == installed.entries()[k1]);
            installed.lemma_unique_handles(i, k1);
        }
    }
}

impl InterruptTable {
    proof fn lemma_unique_handles(&self, a: int, b: int)
        requires
            self.wf(),
            0 <= a < self.entries().len(),
            0 <= b < self.entries().len(),
            a != b,
        ensures
            self.entries()[a].0 != self.entries()[b].0,
    {
        if a < b {
            assert(self.entries@[a].0 != self.entries@[b].0);
        } else {
            assert(self.entries@[b].0 != self.entries@[a].0);
        }
    }
}

/// Deferred work that a host has accepted and not yet run, oldest first.
pub struct WorkQueue<T> {
    items: Vec<(WorkType, T)>,
}

impl<T> WorkQueue<T> {
    /// The pending work, oldest first.
    pub closed spec fn pending(&self) -> Seq<(WorkType, T)> {
        self.items@
    }

    pub fn new() -> (r: WorkQueue<T>)
        ensures
            r.pending().len() == 0,
    {
        WorkQueue { items: Vec::new() }
    }

    /// Adds work of the given kind at the end of the queue.
    pub fn schedule(&mut self, kind: WorkType, work: T)
        ensures
            final(self).pending() == old(self).pending().push((kind, work)),
    {
        self.items.push((kind, work));
    }

    /// Takes the oldest pending work, or `None` when the queue is empty.
    pub fn take_next(&mut self) -> (r: Option<(WorkType, T)>)
        ensures
            old(self).pending().len() == 0 ==> r.is_none()
                && final(self).pending() == old(self).pending(),
            old(self).pending().len() > 0 ==> r == Some(old(self).pending()[0])
                && final(self).pending() == old(self).pending().drop_first(),
    {
        if self.items.len() == 0 {
            None
        } else {
            let w = self.items.remove(0);
            proof {
                assert(self.items@ == old(self).items@.drop_first());
            }
            Some(w)
        }
    }

    /// Whether all scheduled work has been taken: the point at which waiting for the
    /// completion of work may return.
    pub fn is_empty(&self) -> (r: bool)
        ensures
            r == (self.pending().len() == 0),
    {
        self.items.len() == 0
    }
}

/// Work leaves the queue in the order it was scheduled, whatever its kind: after two
/// items are scheduled on an empty queue, taking gives the first, then the second, and
/// only then finds the queue empty.
pub proof fn lemma_work_drains_in_order<T>(
    empty: WorkQueue<T>,
    one: WorkQueue<T>,
    two: WorkQueue<T>,
    first: (WorkType, T),
    second: (WorkType, T),
)
    requires
        empty.pending().len() == 0,
        one.pending() == empty.pending().push(first),
        two.pending() == one.pending().push(second),
    ensures
        two.pending()[0] == first,
        two.pending().drop_first()[0] == second,
        two.pending().drop_first().drop_first().len() == 0,
{
    assert(two.pending() =~= seq![first, second]);
}

} // verus!
