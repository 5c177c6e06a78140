//! Pointer-chain resolution.
//!
//! A chain is an ordered sequence of at least two unsigned offsets. The
//! first two offsets are summed and read as an address; each subsequent
//! offset is added to the previously read address and read again, so a
//! chain of `N` offsets takes `N - 1` reads. A zero read at any step means
//! "structure not currently present" — not an error — and resolution
//! short-circuits to "not found" without issuing further reads.
//!
//! The reads themselves are blocking operations against the target
//! process, performed by the caller. [`ChainResolver`] is the resolution
//! state machine: it hands out the next address to read and consumes the
//! read's result, until the outcome is decided. Its contract ties every
//! state to the specification functions below, and the two lemmas at the
//! end state the short-circuit and read-count guarantees.

use vstd::prelude::*;

verus! {

/// Address arithmetic wraps at the machine word, as the target process's
/// own pointers do.
pub open spec fn wrap_add(a: usize, b: usize) -> usize {
    vstd::wrapping::usize_specs::wrapping_add(a, b)
}

/// The address of read number `j` (0-based), given the chain's offsets and
/// the values the earlier reads returned: read 0 goes to the sum of the
/// first two offsets, and read `j >= 1` goes to the value of read `j - 1`
/// plus offset `j + 1`.
pub open spec fn request_at(offsets: Seq<usize>, values: Seq<usize>, j: int) -> usize {
    if j <= 0 {
        wrap_add(offsets[0], offsets[1])
    } else {
        wrap_add(values[j - 1], offsets[j + 1])
    }
}

/// How many reads a chain of `n_offsets` offsets consumes when the
/// successive reads return `values`: all `n_offsets - 1` of them, unless a
/// zero value stops resolution earlier.
pub open spec fn reads_used(n_offsets: int, values: Seq<usize>) -> int
    decreases n_offsets,
{
    if n_offsets <= 2 {
        1
    } else if values[0] == 0 {
        1
    } else {
        1 + reads_used(n_offsets - 1, values.drop_first())
    }
}

/// The outcome of resolving a chain of `n_offsets` offsets against read
/// results `values`: `None` ("not found") as soon as any read returns
/// zero, otherwise the value of the final read.
pub open spec fn chain_outcome(n_offsets: int, values: Seq<usize>) -> Option<usize>
    decreases n_offsets,
{
    if n_offsets <= 2 {
        if values[0] == 0 {
            None
        } else {
            Some(values[0])
        }
    } else if values[0] == 0 {
        None
    } else {
        chain_outcome(n_offsets - 1, values.drop_first())
    }
}

/// Whether the prefix `values` of read results already decides the
/// outcome of a chain of `n_offsets` offsets.
pub open spec fn decided(n_offsets: int, values: Seq<usize>) -> bool
    decreases values.len(),
{
    if values.len() == 0 {
        false
    } else if n_offsets <= 2 {
        true
    } else if values[0] == 0 {
        true
    } else {
        decided(n_offsets - 1, values.drop_first())
    }
}

/// Where a resolution stands after the reads supplied so far.
#[derive(Debug, Clone, Copy, PartialEq, Eq, Structural)]
pub enum ChainStatus {
    /// More reads are needed; the resolver has a pending read request.
    Pending,
    /// A read returned zero: the structure is not currently present.
    NotFound,
    /// Every read succeeded with a nonzero value; the field holds the
    /// final resolved address.
    Resolved(usize),
}

/// The resolution state machine for one chain. The caller repeatedly asks
/// [`ChainResolver::pending_read`] for the next address, performs the
/// blocking read, and feeds the value back through
/// [`ChainResolver::supply`], until the status leaves `Pending`.
pub struct ChainResolver {
    /// The chain's offsets; fixed at construction, at least two.
    pub offsets: Vec<usize>,
    /// The values returned by the reads supplied so far (ghost history the
    /// contracts are stated over).
    pub supplied: Ghost<Seq<usize>>,
    /// Number of reads supplied so far.
    pub pos: usize,
    /// The address of the pending read, meaningful while `status` is
    /// `Pending`.
    pub cur: usize,
    /// The decision reached so far.
    pub status: ChainStatus,
}

impl ChainResolver {
    /// Every reachable state of a resolver satisfies this: the recorded
    /// position matches the history, and the status and pending address
    /// agree with the specification run on that history.
    pub open spec fn wf(self) -> bool {
        &&& self.offsets@.len() >= 2
        &&& self.pos == self.supplied@.len()
        &&& if decided(self.offsets@.len() as int, self.supplied@) {
            self.status == match chain_outcome(self.offsets@.len() as int, self.supplied@) {
                None => ChainStatus::NotFound,
                Some(a) => ChainStatus::Resolved(a),
            }
        } else {
            &&& self.status == ChainStatus::Pending
            &&& self.pos <= self.offsets@.len() - 2
            &&& self.cur == request_at(self.offsets@, self.supplied@, self.pos as int)
        }
    }

    /// Starts resolving `offsets`. Fewer than two offsets is a programming
    /// error, rejected here before any read is dispatched.
    pub fn new(offsets: Vec<usize>) -> (r: Self)
        requires
            offsets@.len() >= 2,
        ensures
            r.wf(),
            r.offsets@ == offsets@,
            r.supplied@ === Seq::empty(),
            r.status == ChainStatus::Pending,
    {
        let first = offsets[0].wrapping_add(offsets[1]);
        ChainResolver {
            offsets,
            supplied: Ghost(Seq::empty()),
            pos: 0,
            cur: first,
            status: ChainStatus::Pending,
        }
    }

    /// The address the caller must read next, or `None` once the outcome
    /// is decided: a decided resolver never issues another read.
    pub fn pending_read(&self) -> (r: Option<usize>)
        requires
            self.wf(),
        ensures
            r matches Some(a) ==> self.status == ChainStatus::Pending && a == request_at(
                self.offsets@,
                self.supplied@,
                self.pos as int,
            ),
            r is None <==> self.status != ChainStatus::Pending,
    {
        match self.status {
            ChainStatus::Pending => Some(self.cur),
            _ => None,
        }
    }

    /// Feeds the value the pending read returned. A zero decides the
    /// outcome as "not found"; the value of the last read decides it as
    /// resolved; anything else advances the pending request.
    pub fn supply(&mut self, value: usize)
        requires
            old(self).wf(),
            old(self).status == ChainStatus::Pending,
        ensures
            final(self).wf(),
            final(self).offsets@ == old(self).offsets@,
            final(self).supplied@ === old(self).supplied@.push(value),
            final(self).status == (if value == 0 {
                ChainStatus::NotFound
            } else if old(self).pos == old(self).offsets@.len() - 2 {
                ChainStatus::Resolved(value)
            } else {
                ChainStatus::Pending
            }),
    {
        let n = self.offsets.len();
        let ghost old_supplied = self.supplied@;
        proof {
            lemma_undecided_extend(n as int, old_supplied, value);
        }
        self.supplied = Ghost(old_supplied.push(value));
        if value == 0 {
            self.status = ChainStatus::NotFound;
            self.pos = self.pos + 1;
        } else if self.pos == n - 2 {
            self.status = ChainStatus::Resolved(value);
            self.pos = self.pos + 1;
        } else {
            self.cur = value.wrapping_add(self.offsets[self.pos + 2]);
            self.pos = self.pos + 1;
        }
    }

    /// The decision reached so far.
    pub fn status(&self) -> (r: ChainStatus)
        ensures
            r == self.status,
    {
        self.status
    }
}

/// How pushing one more read result moves the specification run forward
/// from an undecided state: a zero decides "not found", the last read
/// decides the final address, and any other value leaves the outcome open.
pub proof fn lemma_undecided_extend(n_offsets: int, values: Seq<usize>, v: usize)
    requires
        n_offsets >= 2,
        !decided(n_offsets, values),
    ensures
        values.len() <= n_offsets - 2,
        v == 0 ==> decided(n_offsets, values.push(v)) && chain_outcome(n_offsets, values.push(v))
            is None,
        v != 0 && values.len() == n_offsets - 2 ==> decided(n_offsets, values.push(v))
            && chain_outcome(n_offsets, values.push(v)) == Some(v),
        v != 0 && values.len() < n_offsets - 2 ==> !decided(n_offsets, values.push(v)),
    decreases values.len(),
{
    if values.len() == 0 {
        assert(values.push(v) =~= seq![v]);
        assert(values.push(v).drop_first() =~= Seq::<usize>::empty());
        assert(!decided(n_offsets - 1, Seq::<usize>::empty()));
    } else {
        assert(values[0] != 0);
        assert(n_offsets > 2);
        assert(values.push(v).drop_first() =~= values.drop_first().push(v));
        lemma_undecided_extend(n_offsets - 1, values.drop_first(), v);
    }
}

/// The reads a resolver actually consumes are counted by `reads_used`: a
/// history that has just become decided — its last read settled the
/// outcome — has exactly that length. Together with the resolver's
/// contract (reads are supplied only while undecided) this pins the
/// number of reads a caller-driven resolution performs.
pub proof fn lemma_history_length(n_offsets: int, values: Seq<usize>, v: usize)
    requires
        n_offsets >= 2,
        !decided(n_offsets, values),
        decided(n_offsets, values.push(v)),
    ensures
        values.push(v).len() == reads_used(n_offsets, values.push(v)),
    decreases values.len(),
{
    if values.len() == 0 {
        assert(values.push(v) =~= seq![v]);
        assert(values.push(v).drop_first() =~= Seq::<usize>::empty());
        if n_offsets > 2 && v != 0 {
            assert(!decided(n_offsets - 1, Seq::<usize>::empty()));
        }
    } else {
        assert(values[0] != 0);
        assert(n_offsets > 2);
        assert(values.push(v).drop_first() =~= values.drop_first().push(v));
        lemma_history_length(n_offsets - 1, values.drop_first(), v);
    }
}

/// Short-circuit law: if read `j` (0-based) is the first to return zero,
/// resolution ends "not found" and consumes exactly `j + 1` reads — it
/// never issues a read past the zero.
pub proof fn lemma_short_circuit(n_offsets: int, values: Seq<usize>, j: int)
    requires
        n_offsets >= 2,
        0 <= j <= n_offsets - 2,
        j < values.len(),
        values[j] == 0,
        forall|i: int| 0 <= i < j ==> values[i] != 0,
    ensures
        chain_outcome(n_offsets, values) is None,
        reads_used(n_offsets, values) == j + 1,
    decreases j,
{
    if j == 0 {
    } else {
        lemma_short_circuit(n_offsets - 1, values.drop_first(), j - 1);
    }
}

/// Read-count law: a chain of `N` offsets whose first `N - 2` reads all
/// return nonzero values consumes exactly `N - 1` reads — in particular, a
/// chain of length exactly 2 always performs exactly one read — and the
/// outcome is then decided by the final read's value.
pub proof fn lemma_read_count(n_offsets: int, values: Seq<usize>)
    requires
        n_offsets >= 2,
        values.len() >= n_offsets - 1,
        forall|i: int| 0 <= i < n_offsets - 2 ==> values[i] != 0,
    ensures
        reads_used(n_offsets, values) == n_offsets - 1,
        chain_outcome(n_offsets, values) == (if values[n_offsets - 2] == 0 {
            None
        } else {
            Some(values[n_offsets - 2])
        }),
    decreases n_offsets,
{
    if n_offsets <= 2 {
    } else {
        assert forall|i: int| 0 <= i < n_offsets - 3 implies values.drop_first()[i] != 0 by {
            assert(values[i + 1] != 0);
        }
        lemma_read_count(n_offsets - 1, values.drop_first());
    }
}

} // verus!
