//! The connection pool: round-robin selection over a fixed set of
//! established backend connections.
//!
//! Establishing the connections talks to the network and stays with
//! the caller; the pool itself only owns the flat ordered sequence and
//! the cursor. Selection is a single cursor read and advance, taken
//! modulo the pool size as one unit, so concurrent callers that
//! serialize through the cursor's guard see strict round-robin order.
use vstd::prelude::*;

use crate::config::ConfigError;

verus! {

/// A fixed ordered sequence of established connections and the cursor
/// of the next one to hand out.
pub struct Pool<C> {
    index: usize,
    pool: Vec<C>,
}

impl<C> Pool<C> {
    /// The connections, in the order the pool was built with.
    pub closed spec fn connections(&self) -> Seq<C> {
        self.pool@
    }

    /// The slot the next selection returns.
    pub closed spec fn cursor(&self) -> nat {
        self.index as nat
    }

    /// The pool is nonempty and the cursor stays inside it.
    pub closed spec fn wf(&self) -> bool {
        self.pool@.len() >= 1 && (self.index as nat) < self.pool@.len()
    }

    /// Wraps an established connection list into a pool; an empty list
    /// is a configuration fault.
    pub fn new(pool: Vec<C>) -> (r: Result<Pool<C>, ConfigError>)
        ensures
            pool@.len() == 0 ==> r == Err::<Pool<C>, ConfigError>(ConfigError::EmptyInstanceList),
            pool@.len() >= 1 ==> r is Ok && r->Ok_0.wf() && r->Ok_0.connections() == pool@
                && r->Ok_0.cursor() == 0,
    {
        if pool.len() == 0 {
            return Err(ConfigError::EmptyInstanceList);
        }
        Ok(Pool { index: 0, pool })
    }

    /// How many connections the pool holds.
    pub fn len(&self) -> (n: usize)
        ensures
            n == self.connections().len(),
    {
        self.pool.len()
    }

    /// Returns the connection under the cursor and advances the cursor
    /// by one, modulo the pool size: strict round-robin selection.
    pub fn get_connection(&mut self) -> (r: &C)
        requires
            old(self).wf(),
        ensures
            final(self).wf(),
            final(self).connections() == old(self).connections(),
            *r == old(self).connections()[old(self).cursor() as int],
            final(self).cursor() == (old(self).cursor() + 1) % old(self).connections().len(),
    {
        let n = self.pool.len();
        let i = self.index;
        self.index = (i + 1) % n;
        &self.pool[i]
    }
}

/// The slots that `n` consecutive selections return, starting from
/// cursor `start` over a pool of `len` connections.
pub open spec fn round_robin_indices(start: nat, n: nat, len: nat) -> Seq<nat> {
    Seq::new(n, |i: int| ((start + i) % (len as int)) as nat)
}

/// Round-robin fairness: from a fresh pool of `len` connections, `len`
/// consecutive selections return every slot exactly once, in pool
/// order, and the selection after them wraps back to the first slot.
pub proof fn lemma_round_robin_permutation(len: nat)
    requires
        len >= 1,
    ensures
        round_robin_indices(0, len, len) =~= Seq::new(len, |i: int| i as nat),
        (len as int) % (len as int) == 0,
{
    let s = round_robin_indices(0, len, len);
    let t = Seq::new(len, |i: int| i as nat);
    assert forall|i: int| 0 <= i < len implies s[i] == t[i] by {
        vstd::arithmetic::div_mod::lemma_small_mod(i as nat, len);
    }
    assert(s =~= t);
    vstd::arithmetic::div_mod::lemma_mod_self_0(len as int);
}

/// Advancing the cursor one selection at a time is the same as taking
/// the call number modulo the pool size: after the `i`-th selection
/// from a fresh pool the cursor stands at `i % len`, so the walk of
/// the cursor never skips or repeats a slot within a round.
pub proof fn lemma_round_robin_step(i: nat, len: nat)
    requires
        len >= 1,
    ensures
        ((i % len) as int + 1) % (len as int) == (i as int + 1) % (len as int),
{
    let m = len as int;
    vstd::arithmetic::div_mod::lemma_add_mod_noop(i as int, 1, m);
    if len > 1 {
        vstd::arithmetic::div_mod::lemma_small_mod(1nat, len);
    } else {
        vstd::arithmetic::div_mod::lemma_mod_bound((i % len) as int + 1, m);
        vstd::arithmetic::div_mod::lemma_mod_bound(i as int + 1, m);
    }
}

} // verus!
