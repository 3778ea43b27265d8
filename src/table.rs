//! The process table, its scheduling cursor, and the round-robin scheduler
//! that moves the cursor on yield and exit.
use vstd::prelude::*;
use vstd::arithmetic::div_mod::{
    lemma_add_mod_noop_right, lemma_mod_add_multiples_vanish, lemma_mod_bound, lemma_mod_equivalence,
    lemma_mod_self_0, lemma_small_mod,
};
use crate::mask::Interrupts;

verus! {

/// A schedulable unit of execution: its address-space mapping and its saved
/// stack pointer, both opaque words to the scheduler.
#[derive(Clone, Copy, Debug, PartialEq, Eq, Structural)]
pub struct Context {
    pub pid: u64,
    pub address_space: u64,
    pub stack: u64,
}

/// A transfer of the processor: remap `to`'s address space, then save the
/// running state into `from` and resume `to`.
#[derive(Clone, Copy, Debug, PartialEq, Eq, Structural)]
pub struct Switch {
    pub from: Context,
    pub to: Context,
}

/// The cursor position after one yield on a table of length `len`: the
/// next slot, wrapping to 0 past the end (`(cur + 1) % len` for a cursor
/// inside the table).
pub open spec fn next_index(cur: nat, len: nat) -> nat {
    if cur + 1 < len {
        cur + 1
    } else {
        0
    }
}

/// The cursor position after exit has shortened the table to `new_len`:
/// unchanged, or 0 where it fell off the end (`cur % new_len` for a cursor
/// at most `new_len`).
pub open spec fn rebased(cur: nat, new_len: nat) -> nat {
    if cur < new_len {
        cur
    } else {
        0
    }
}

/// The cursor position after `k` yields from `cur` on a table of length `len`.
pub open spec fn cursor_after_yields(cur: nat, len: nat, k: nat) -> nat
    decreases k,
{
    if k == 0 {
        cur
    } else {
        next_index(cursor_after_yields(cur, len, (k - 1) as nat), len)
    }
}

/// Slot `s` is where one of the yields number 1 to `n` leaves the cursor.
pub open spec fn visited_within(cur: nat, len: nat, n: nat, s: nat) -> bool {
    exists|k: nat| 1 <= k <= n && #[trigger] cursor_after_yields(cur, len, k) == s
}

/// The switch a yield from `from` to `to` performs: none when the cursor
/// did not move.
pub open spec fn yield_switch(cs: Seq<Context>, from: nat, to: nat) -> Option<Switch> {
    if from != to {
        Some(Switch { from: cs[from as int], to: cs[to as int] })
    } else {
        None
    }
}

/// The ordered table of contexts and the cursor naming the running one.
/// Slot 0 holds the idle context, which exit never removes.
pub struct ProcessTable {
    contexts: Vec<Context>,
    current: usize,
}

impl ProcessTable {
    pub closed spec fn contexts(&self) -> Seq<Context> {
        self.contexts@
    }

    pub closed spec fn cursor(&self) -> nat {
        self.current as nat
    }

    /// The table is never empty and the cursor names one of its entries.
    pub open spec fn wf(&self) -> bool {
        self.contexts().len() > 0 && self.cursor() < self.contexts().len()
    }

    /// Exit is allowed only with another context left and outside the two
    /// lowest slots.
    pub open spec fn exit_permitted(&self) -> bool {
        self.contexts().len() > 1 && self.cursor() > 1
    }

    /// `post` and `r` are the table and the switch after one yield from
    /// this table.
    pub open spec fn yielded(self, post: ProcessTable, r: Option<Switch>) -> bool {
        &&& post.contexts() == self.contexts()
        &&& post.cursor() == next_index(self.cursor(), self.contexts().len())
        &&& r == yield_switch(self.contexts(), self.cursor(), post.cursor())
    }

    /// `post` and `r` are the table and the switch after one exit from this
    /// table.
    pub open spec fn exited(self, post: ProcessTable, r: Option<Switch>) -> bool {
        if self.exit_permitted() {
            &&& post.contexts() == self.contexts().remove(self.cursor() as int)
            &&& post.cursor() == rebased(self.cursor(), post.contexts().len())
            &&& r == Some(
                Switch {
                    from: self.contexts()[self.cursor() as int],
                    to: post.contexts()[post.cursor() as int],
                },
            )
        } else {
            post == self && r is None
        }
    }

    /// A table holding the idle context alone, which is running.
    pub fn new(idle: Context) -> (r: ProcessTable)
        ensures
            r.wf(),
            r.contexts() == seq![idle],
            r.cursor() == 0,
    {
        let mut contexts: Vec<Context> = Vec::new();
        contexts.push(idle);
        ProcessTable { contexts, current: 0 }
    }

    /// Appends a newly created context; the running one stays running.
    pub fn push(&mut self, c: Context)
        requires
            old(self).wf(),
        ensures
            final(self).wf(),
            final(self).contexts() == old(self).contexts().push(c),
            final(self).cursor() == old(self).cursor(),
    {
        self.contexts.push(c);
    }

    pub fn len(&self) -> (r: usize)
        ensures
            r == self.contexts().len(),
    {
        self.contexts.len()
    }

    pub fn current(&self) -> (r: usize)
        ensures
            r == self.cursor(),
    {
        self.current
    }

    pub fn get(&self, i: usize) -> (r: Option<Context>)
        ensures
            r == (if i < self.contexts().len() {
                Some(self.contexts()[i as int])
            } else {
                None
            }),
    {
        if i < self.contexts.len() {
            Some(self.contexts[i])
        } else {
            None
        }
    }

    /// Moves the cursor one slot on, wrapping at the end of the table, and
    /// returns the switch into the newly running context, if it changed.
    /// The table is touched with interrupts masked; the flag is restored.
    pub fn yield_now(&mut self, ints: &mut Interrupts) -> (r: Option<Switch>)
        requires
            old(self).wf(),
        ensures
            final(self).wf(),
            old(self).yielded(*final(self), r),
            *final(ints) == *old(ints),
    {
        let token = ints.acquire();
        let from = self.current;
        let len = self.contexts.len();
        let to: usize = if from + 1 >= len {
            0
        } else {
            from + 1
        };
        self.current = to;
        let r = if to != from {
            Some(Switch { from: self.contexts[from], to: self.contexts[to] })
        } else {
            None
        };
        ints.release(token);
        r
    }

    /// Removes the running context when exit is permitted, rebases the
    /// cursor into the shorter table and returns the switch from the removed
    /// context into the one now at the cursor. Otherwise nothing changes.
    pub fn exit(&mut self, ints: &mut Interrupts) -> (r: Option<Switch>)
        requires
            old(self).wf(),
        ensures
            final(self).wf(),
            *final(ints) == *old(ints),
            old(self).exited(*final(self), r),
    {
        let token = ints.acquire();
        let mut r: Option<Switch> = None;
        if self.contexts.len() > 1 && self.current > 1 {
            let removed = self.contexts.remove(self.current);
            let len = self.contexts.len();
            if self.current >= len {
                self.current = self.current - len;
            }
            r = Some(Switch { from: removed, to: self.contexts[self.current] });
        }
        ints.release(token);
        r
    }
}

/// Yield and exit move the cursor by modular arithmetic: one slot on
/// modulo the length, and modulo the new length after a removal.
pub proof fn lemma_cursor_moves_are_modular(cur: nat, len: nat)
    requires
        cur < len,
    ensures
        next_index(cur, len) == (cur + 1) % len,
        rebased(cur, len) == cur % len,
        rebased(len, len) == len % len,
{
    lemma_small_mod(cur, len);
    lemma_mod_self_0(len as int);
    if cur + 1 < len {
        lemma_small_mod(cur + 1, len);
    }
}

/// The cursor after `k` yields is `cur + k` wrapped to the table.
pub proof fn lemma_cursor_after_yields(cur: nat, len: nat, k: nat)
    requires
        cur < len,
    ensures
        cursor_after_yields(cur, len, k) == (cur + k) % len,
    decreases k,
{
    if k == 0 {
        lemma_small_mod(cur, len);
    } else {
        let prev = cursor_after_yields(cur, len, (k - 1) as nat);
        lemma_cursor_after_yields(cur, len, (k - 1) as nat);
        lemma_add_mod_noop_right(1, cur + k - 1, len as int);
        lemma_mod_bound(cur + k - 1, len as int);
        if prev + 1 < len {
            lemma_small_mod(prev + 1, len);
        } else {
            lemma_mod_self_0(len as int);
        }
    }
}

/// On a table of length `len` the yields number 1 to `len` visit every
/// slot exactly once, and the last of them brings the cursor back to where
/// it started.
pub proof fn lemma_yields_visit_each_once(cur: nat, len: nat)
    requires
        cur < len,
    ensures
        cursor_after_yields(cur, len, len) == cur,
        forall|i: nat, j: nat|
            1 <= i < j <= len ==> #[trigger] cursor_after_yields(cur, len, i)
                != #[trigger] cursor_after_yields(cur, len, j),
        forall|s: nat| s < len ==> #[trigger] visited_within(cur, len, len, s),
{
    lemma_cursor_after_yields(cur, len, len);
    assert((cur + len) % len == cur) by {
        lemma_mod_add_multiples_vanish(cur as int, len as int);
        lemma_small_mod(cur, len);
    };
    assert forall|i: nat, j: nat|
        1 <= i < j <= len implies #[trigger] cursor_after_yields(cur, len, i)
            != #[trigger] cursor_after_yields(cur, len, j) by {
        lemma_cursor_after_yields(cur, len, i);
        lemma_cursor_after_yields(cur, len, j);
        lemma_mod_equivalence((cur + j) as int, (cur + i) as int, len as int);
        lemma_small_mod((j - i) as nat, len);
    };
    assert forall|s: nat| s < len implies #[trigger] visited_within(cur, len, len, s) by {
        let k: nat = if s > cur { (s - cur) as nat } else { (s + len - cur) as nat };
        lemma_cursor_after_yields(cur, len, k);
        if s > cur {
            lemma_small_mod(s, len);
        } else {
            lemma_mod_add_multiples_vanish(s as int, len as int);
            lemma_small_mod(s, len);
        }
        assert(cursor_after_yields(cur, len, k) == s);
    };
}

/// Exit from the last slot of a table, where exit is permitted, removes
/// the last entry and moves the cursor to slot 0 of the shortened table.
pub proof fn lemma_exit_from_last_rebases_to_zero(pre: ProcessTable, post: ProcessTable, r: Option<Switch>)
    requires
        pre.wf(),
        pre.exit_permitted(),
        pre.cursor() == pre.contexts().len() - 1,
        pre.exited(post, r),
    ensures
        post.contexts() == pre.contexts().drop_last(),
        post.cursor() == 0,
        r == Some(Switch { from: pre.contexts().last(), to: pre.contexts()[0] }),
{
    assert(pre.contexts().remove(pre.cursor() as int) =~= pre.contexts().drop_last());
}

} // verus!
