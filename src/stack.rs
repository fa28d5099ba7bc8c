use vstd::prelude::*;

verus! {

/// One entry of the active-span stack.
#[derive(Clone, Copy, Debug, PartialEq, Eq, Structural)]
pub struct ContextId {
    pub id: u64,
    /// Set when the id was already on the stack when this entry was pushed.
    pub duplicate: bool,
}

/// Whether `id` is on the stack `s`.
pub open spec fn present(s: Seq<ContextId>, id: u64) -> bool {
    exists|i: int| 0 <= i < s.len() && (#[trigger] s[i]).id == id
}

/// Each entry is marked duplicate exactly when its id occurs below it.
pub open spec fn entries_wf(s: Seq<ContextId>) -> bool {
    forall|i: int|
        0 <= i < s.len() ==> (#[trigger] s[i]).duplicate == present(s.subrange(0, i), s[i].id)
}

/// The stack after `push(id)`.
pub open spec fn pushed(s: Seq<ContextId>, id: u64) -> Seq<ContextId> {
    s.push(ContextId { id, duplicate: present(s, id) })
}

/// The stack after `pop(expected)`, and what the call returns: the top entry
/// leaves only when its id is `expected`.
pub open spec fn popped(s: Seq<ContextId>, expected: u64) -> (Seq<ContextId>, Option<u64>) {
    if s.len() > 0 && s.last().id == expected {
        (s.drop_last(), Some(expected))
    } else {
        (s, None)
    }
}

/// The nearest entry from the top that is not a duplicate.
pub open spec fn current_of(s: Seq<ContextId>) -> Option<u64>
    decreases s.len(),
{
    if s.len() == 0 {
        None
    } else if !s.last().duplicate {
        Some(s.last().id)
    } else {
        current_of(s.drop_last())
    }
}

/// The spans that are entered on one call path, innermost last.
pub struct SpanStack {
    stack: Vec<ContextId>,
}

impl View for SpanStack {
    type V = Seq<ContextId>;

    closed spec fn view(&self) -> Seq<ContextId> {
        self.stack@
    }
}

impl SpanStack {
    pub open spec fn wf(&self) -> bool {
        entries_wf(self@)
    }

    pub fn new() -> (r: Self)
        ensures
            r@ == Seq::<ContextId>::empty(),
            r.wf(),
    {
        SpanStack { stack: Vec::new() }
    }

    pub fn contains(&self, id: u64) -> (r: bool)
        ensures
            r == present(self@, id),
    {
        let mut i: usize = 0;
        while i < self.stack.len()
            invariant
                i <= self.stack@.len(),
                forall|k: int| 0 <= k < i ==> (#[trigger] self.stack@[k]).id != id,
            decreases self.stack@.len() - i,
        {
            if self.stack[i].id == id {
                return true;
            }
            i += 1;
        }
        false
    }

    /// Enters `id`; the entry is a duplicate when `id` is already entered.
    pub fn push(&mut self, id: u64)
        requires
            old(self).wf(),
        ensures
            final(self)@ == pushed(old(self)@, id),
            final(self).wf(),
    {
        let duplicate = self.contains(id);
        self.stack.push(ContextId { id, duplicate });
        proof {
            let s = self.stack@;
            assert(s.subrange(0, s.len() - 1) =~= old(self)@);
            assert forall|i: int| 0 <= i < s.len() - 1 implies (#[trigger] s[i]).duplicate
                == present(s.subrange(0, i), s[i].id) by {
                assert(s.subrange(0, i) =~= old(self)@.subrange(0, i));
                assert(s[i] == old(self)@[i]);
            }
        }
    }

    /// Exits `expected_id`; nothing changes unless it is the top entry.
    pub fn pop(&mut self, expected_id: u64) -> (r: Option<u64>)
        requires
            old(self).wf(),
        ensures
            (final(self)@, r) == popped(old(self)@, expected_id),
            final(self).wf(),
    {
        let n = self.stack.len();
        if n > 0 && self.stack[n - 1].id == expected_id {
            let _ = self.stack.pop();
            proof {
                let s = old(self)@;
                assert(self.stack@ =~= s.drop_last());
                assert forall|i: int| 0 <= i < self.stack@.len() implies (
                #[trigger] self.stack@[i]).duplicate == present(
                    self.stack@.subrange(0, i),
                    self.stack@[i].id,
                ) by {
                    assert(self.stack@.subrange(0, i) =~= s.subrange(0, i));
                    assert(self.stack@[i] == s[i]);
                }
            }
            Some(expected_id)
        } else {
            None
        }
    }

    /// The innermost entered span that is not a duplicate entry.
    pub fn current(&self) -> (r: Option<u64>)
        ensures
            r == current_of(self@),
    {
        let mut i: usize = self.stack.len();
        assert(self.stack@.subrange(0, i as int) =~= self.stack@);
        while i > 0
            invariant
                i <= self.stack@.len(),
                current_of(self.stack@) == current_of(self.stack@.subrange(0, i as int)),
            decreases i,
        {
            let e = self.stack[i - 1];
            assert(self.stack@.subrange(0, i as int).drop_last() =~= self.stack@.subrange(
                0,
                i - 1,
            ));
            if !e.duplicate {
                return Some(e.id);
            }
            i -= 1;
        }
        assert(self.stack@.subrange(0, 0) =~= Seq::<ContextId>::empty());
        None
    }

    pub fn len(&self) -> (r: usize)
        ensures
            r == self@.len(),
    {
        self.stack.len()
    }

    pub fn is_empty(&self) -> (r: bool)
        ensures
            r == (self@.len() == 0),
    {
        self.stack.len() == 0
    }
}

/// A reentrant push of an id that is already entered does not change the
/// current span, and popping it again restores the stack as it was, so the
/// current span after the matching pop is the one before the push.
pub proof fn lemma_reentrant_push_pop(s: Seq<ContextId>, id: u64)
    requires
        entries_wf(s),
        present(s, id),
    ensures
        current_of(pushed(s, id)) == current_of(s),
        popped(pushed(s, id), id) == (s, Some(id)),
        current_of(popped(pushed(s, id), id).0) == current_of(s),
{
    assert(pushed(s, id).drop_last() =~= s);
}

/// One operation on the active-span stack.
#[derive(Clone, Copy, Debug, PartialEq, Eq, Structural)]
pub enum StackOp {
    Push(u64),
    Pop(u64),
}

/// The stack after one operation.
pub open spec fn step(s: Seq<ContextId>, op: StackOp) -> Seq<ContextId> {
    match op {
        StackOp::Push(id) => pushed(s, id),
        StackOp::Pop(id) => popped(s, id).0,
    }
}

/// The stack after a sequence of operations, first to last.
pub open spec fn run(s: Seq<ContextId>, ops: Seq<StackOp>) -> Seq<ContextId>
    decreases ops.len(),
{
    if ops.len() == 0 {
        s
    } else {
        step(run(s, ops.drop_last()), ops.last())
    }
}

/// `a` lies at the bottom of `b`.
pub open spec fn is_bottom_of(a: Seq<ContextId>, b: Seq<ContextId>) -> bool {
    a.len() <= b.len() && b.subrange(0, a.len() as int) == a
}

/// Whatever operations follow a reentrant push of `id`, the operation that
/// removes the duplicate entry leaves the stack as it was before the push,
/// so the current span is again the one before the push.
pub proof fn lemma_matching_pop_restores_current(
    s: Seq<ContextId>,
    id: u64,
    ops: Seq<StackOp>,
    k: int,
)
    requires
        entries_wf(s),
        present(s, id),
        0 <= k < ops.len(),
        forall|j: int| 0 <= j <= k ==> is_bottom_of(pushed(s, id), #[trigger] run(pushed(s, id), ops.take(j))),
        !is_bottom_of(pushed(s, id), run(pushed(s, id), ops.take(k + 1))),
    ensures
        current_of(pushed(s, id)) == current_of(s),
        run(pushed(s, id), ops.take(k + 1)) == s,
        current_of(run(pushed(s, id), ops.take(k + 1))) == current_of(s),
{
    let t = pushed(s, id);
    assert(t.drop_last() =~= s);
    let u = run(t, ops.take(k));
    assert(ops.take(k + 1).drop_last() =~= ops.take(k));
    assert(ops.take(k + 1).last() == ops[k]);
    assert(is_bottom_of(t, u));
    match ops[k] {
        StackOp::Push(x) => {
            assert(pushed(u, x).subrange(0, t.len() as int) =~= u.subrange(0, t.len() as int));
        },
        StackOp::Pop(x) => {
            if u.len() > 0 && u.last().id == x {
                if u.len() > t.len() {
                    assert(u.drop_last().subrange(0, t.len() as int) =~= u.subrange(
                        0,
                        t.len() as int,
                    ));
                } else {
                    assert(u =~= t);
                }
            }
        },
    }
}

} // verus!
