//! The process-wide store of Valence handles staged for task dispatch, keyed by invoke id.
//!
//! A host keeps one `StagedValences` for the whole process (behind a lock): building a
//! dispatch context stages a Valence under a fresh invoke id, and the task handler takes it
//! back out exactly once.
use vstd::prelude::*;
use std::collections::HashMap;
use valence::Valence;
use crate::errors::{DispatchError, is_internal_with, missing_valence, missing_valence_message};

verus! {

broadcast use vstd::std_specs::hash::group_hash_axioms;

/// The invoke id handed out after `id`; the counter wraps at `u64::MAX`.
pub open spec fn next_invoke_id_after(id: u64) -> u64 {
    if id == u64::MAX {
        0
    } else {
        (id + 1) as u64
    }
}

/// The abstract state of the store: the next invoke id and the staged handles.
pub ghost struct StagedState {
    /// The id the next staging receives.
    pub next_invoke_id: u64,
    /// The staged handles by invoke id.
    pub entries: Map<u64, Valence>,
}

impl StagedState {
    /// The state after staging `valence` under `self.next_invoke_id`.
    pub open spec fn stage(self, valence: Valence) -> StagedState {
        StagedState {
            next_invoke_id: next_invoke_id_after(self.next_invoke_id),
            entries: self.entries.insert(self.next_invoke_id, valence),
        }
    }

    /// What taking `invoke_id` gives back.
    pub open spec fn lookup(self, invoke_id: u64) -> Option<Valence> {
        if self.entries.contains_key(invoke_id) {
            Some(self.entries[invoke_id])
        } else {
            None
        }
    }

    /// The state after taking `invoke_id` out.
    pub open spec fn take(self, invoke_id: u64) -> StagedState {
        StagedState { next_invoke_id: self.next_invoke_id, entries: self.entries.remove(invoke_id) }
    }

    /// Every staged id was handed out before the counter's current value (ids start at 1).
    pub open spec fn ids_below_counter(self) -> bool {
        &&& 1 <= self.next_invoke_id
        &&& forall|k: u64| #[trigger] self.entries.contains_key(k) ==> 1 <= k < self.next_invoke_id
    }
}

/// Valence handles staged for dispatch, keyed by the invoke id that the context label carries.
pub struct StagedValences {
    next_invoke_id: u64,
    entries: HashMap<u64, Valence>,
}

impl View for StagedValences {
    type V = StagedState;

    closed spec fn view(&self) -> StagedState {
        StagedState { next_invoke_id: self.next_invoke_id, entries: self.entries@ }
    }
}

impl StagedValences {
    /// An empty store whose first invoke id is 1.
    pub fn new() -> (r: Self)
        ensures
            r@.next_invoke_id == 1,
            r@.entries == Map::<u64, Valence>::empty(),
            r@.ids_below_counter(),
    {
        StagedValences { next_invoke_id: 1, entries: HashMap::new() }
    }

    /// Stages `valence` under the next invoke id and returns that id.
    pub fn stage(&mut self, valence: Valence) -> (invoke_id: u64)
        ensures
            invoke_id == old(self)@.next_invoke_id,
            final(self)@ == old(self)@.stage(valence),
            old(self)@.ids_below_counter() ==> !old(self)@.entries.contains_key(invoke_id),
            old(self)@.ids_below_counter() && invoke_id < u64::MAX
                ==> final(self)@.ids_below_counter(),
    {
        proof {
            lemma_ids_below_counter(self@, valence, 0);
        }
        let invoke_id = self.next_invoke_id;
        self.next_invoke_id = if invoke_id == u64::MAX {
            0
        } else {
            invoke_id + 1
        };
        self.entries.insert(invoke_id, valence);
        invoke_id
    }

    /// Takes the Valence staged under `invoke_id` out of the store, if there is one.
    pub fn take(&mut self, invoke_id: u64) -> (r: Option<Valence>)
        ensures
            r == old(self)@.lookup(invoke_id),
            final(self)@ == old(self)@.take(invoke_id),
            final(self)@.entries == old(self)@.entries.remove(invoke_id),
            final(self)@.next_invoke_id == old(self)@.next_invoke_id,
            old(self)@.ids_below_counter() ==> final(self)@.ids_below_counter(),
    {
        self.entries.remove(&invoke_id)
    }
}

/// Takes the Valence staged under `invoke_id`, or fails with `missing invoke valence`.
pub fn take_staged(store: &mut StagedValences, invoke_id: u64) -> (r: Result<Valence, DispatchError>)
    ensures
        final(store)@ == old(store)@.take(invoke_id),
        final(store)@.entries == old(store)@.entries.remove(invoke_id),
        final(store)@.next_invoke_id == old(store)@.next_invoke_id,
        match old(store)@.lookup(invoke_id) {
            Some(v) => r == Ok::<Valence, DispatchError>(v),
            None => r matches Err(e) && is_internal_with(e, missing_valence_message()),
        },
{
    match store.take(invoke_id) {
        Some(v) => Ok(v),
        None => Err(missing_valence()),
    }
}

/// One call on the store: a staging or a take.
pub ghost enum StoreOp {
    /// Stage a Valence under the next invoke id.
    Stage(Valence),
    /// Take whatever is staged under an invoke id.
    Take(u64),
}

/// The state after one call.
pub open spec fn apply_op(s: StagedState, op: StoreOp) -> StagedState {
    match op {
        StoreOp::Stage(v) => s.stage(v),
        StoreOp::Take(k) => s.take(k),
    }
}

/// The state after a sequence of calls, in order.
pub open spec fn run_ops(s: StagedState, ops: Seq<StoreOp>) -> StagedState
    decreases ops.len(),
{
    if ops.len() == 0 {
        s
    } else {
        run_ops(apply_op(s, ops[0]), ops.drop_first())
    }
}

/// How many stagings a sequence of calls makes.
pub open spec fn stage_count(ops: Seq<StoreOp>) -> nat
    decreases ops.len(),
{
    if ops.len() == 0 {
        0
    } else {
        (if ops[0] is Stage {
            1nat
        } else {
            0nat
        }) + stage_count(ops.drop_first())
    }
}

/// The calls in `ops` never take `invoke_id`.
pub open spec fn never_takes(ops: Seq<StoreOp>, invoke_id: u64) -> bool {
    forall|i: int| 0 <= i < ops.len() ==> ops[i] != StoreOp::Take(invoke_id)
}

/// While the counter does not wrap, it moves on by one per staging and is untouched by
/// takes, and the store invariant is kept.
pub proof fn lemma_run_counter(s: StagedState, ops: Seq<StoreOp>)
    requires
        s.next_invoke_id + stage_count(ops) <= u64::MAX,
    ensures
        run_ops(s, ops).next_invoke_id == s.next_invoke_id + stage_count(ops),
        s.ids_below_counter() ==> run_ops(s, ops).ids_below_counter(),
    decreases ops.len(),
{
    if ops.len() > 0 {
        match ops[0] {
            StoreOp::Stage(v) => lemma_ids_below_counter(s, v, 0),
            StoreOp::Take(k) => lemma_ids_below_counter(s, arbitrary(), k),
        }
        lemma_run_counter(apply_op(s, ops[0]), ops.drop_first());
    }
}

/// Dispatch ids increase: a staging made after any calls that follow an earlier staging
/// gets a larger id than the earlier one, so no two stagings share an id (while the counter
/// does not wrap).
pub proof fn lemma_later_stage_gets_larger_id(s: StagedState, first: Valence, ops: Seq<StoreOp>)
    requires
        s.next_invoke_id + 1 + stage_count(ops) <= u64::MAX,
    ensures
        run_ops(s.stage(first), ops).next_invoke_id > s.next_invoke_id,
{
    lemma_run_counter(s.stage(first), ops);
}

/// An id below the counter is never staged again: once it is taken, no sequence of later
/// calls brings a Valence back under it (while the counter does not wrap).
pub proof fn lemma_taken_id_stays_empty(s: StagedState, invoke_id: u64, ops: Seq<StoreOp>)
    requires
        invoke_id < s.next_invoke_id,
        s.next_invoke_id + stage_count(ops) <= u64::MAX,
    ensures
        run_ops(s.take(invoke_id), ops).lookup(invoke_id) is None,
{
    lemma_absent_stays_absent(s.take(invoke_id), invoke_id, ops);
}

/// An id below the counter that holds nothing keeps holding nothing through later calls.
proof fn lemma_absent_stays_absent(s: StagedState, invoke_id: u64, ops: Seq<StoreOp>)
    requires
        invoke_id < s.next_invoke_id,
        s.next_invoke_id + stage_count(ops) <= u64::MAX,
        !s.entries.contains_key(invoke_id),
    ensures
        run_ops(s, ops).lookup(invoke_id) is None,
    decreases ops.len(),
{
    if ops.len() > 0 {
        lemma_absent_stays_absent(apply_op(s, ops[0]), invoke_id, ops.drop_first());
    }
}

/// A staged Valence stays staged, unchanged, through any later calls that do not take its
/// id (while the counter does not wrap).
pub proof fn lemma_staged_survives_other_calls(s: StagedState, invoke_id: u64, ops: Seq<StoreOp>)
    requires
        s.entries.contains_key(invoke_id),
        invoke_id < s.next_invoke_id,
        s.next_invoke_id + stage_count(ops) <= u64::MAX,
        never_takes(ops, invoke_id),
    ensures
        run_ops(s, ops).lookup(invoke_id) == s.lookup(invoke_id),
    decreases ops.len(),
{
    if ops.len() > 0 {
        let rest = ops.drop_first();
        assert(ops[0] != StoreOp::Take(invoke_id));
        assert forall|i: int| 0 <= i < rest.len() implies rest[i] != StoreOp::Take(invoke_id) by {
            assert(rest[i] == ops[i + 1]);
        }
        lemma_staged_survives_other_calls(apply_op(s, ops[0]), invoke_id, rest);
    }
}

/// The state of a store just made by `StagedValences::new`.
pub open spec fn empty_state() -> StagedState {
    StagedState { next_invoke_id: 1, entries: Map::empty() }
}

/// Every history of a store made by `new` keeps the store invariant, and its counter is one
/// past the number of stagings, as long as there were fewer than `u64::MAX` stagings.
pub proof fn lemma_history_keeps_invariant(ops: Seq<StoreOp>)
    requires
        stage_count(ops) < u64::MAX,
    ensures
        run_ops(empty_state(), ops).ids_below_counter(),
        run_ops(empty_state(), ops).next_invoke_id == 1 + stage_count(ops),
{
    lemma_ids_below_counter(empty_state(), arbitrary(), 0);
    lemma_run_counter(empty_state(), ops);
}

/// Taking the id that a staging returned gives back the staged Valence.
pub proof fn lemma_take_returns_staged(s: StagedState, valence: Valence)
    ensures
        s.stage(valence).lookup(s.next_invoke_id) == Some(valence),
{
}

/// A staged Valence can be taken once: after a take, the same id finds nothing.
pub proof fn lemma_take_is_one_shot(s: StagedState, invoke_id: u64)
    ensures
        s.take(invoke_id).lookup(invoke_id) is None,
{
}

/// Staging leaves every other invoke id as it was.
pub proof fn lemma_stage_keeps_other_ids(s: StagedState, valence: Valence, invoke_id: u64)
    requires
        invoke_id != s.next_invoke_id,
    ensures
        s.stage(valence).lookup(invoke_id) == s.lookup(invoke_id),
{
}

/// A take removes exactly its own id: every other entry, and the counter, stay as they were.
pub proof fn lemma_take_removes_only_its_id(s: StagedState, taken: u64, other: u64)
    requires
        taken != other,
    ensures
        !s.take(taken).entries.contains_key(taken),
        s.take(taken).entries.contains_key(other) == s.entries.contains_key(other),
        s.entries.contains_key(other) ==> s.take(taken).entries[other] == s.entries[other],
        s.take(taken).next_invoke_id == s.next_invoke_id,
{
}

/// Taking one id leaves every other invoke id as it was.
pub proof fn lemma_take_keeps_other_ids(s: StagedState, taken: u64, invoke_id: u64)
    requires
        taken != invoke_id,
    ensures
        s.take(taken).lookup(invoke_id) == s.lookup(invoke_id),
{
}

/// A new store hands out ids above everything staged, staging keeps that so until the
/// counter reaches `u64::MAX`, and taking keeps it; while it holds, a staging never replaces
/// a Valence that is already staged.
pub proof fn lemma_ids_below_counter(s: StagedState, valence: Valence, taken: u64)
    ensures
        (StagedState { next_invoke_id: 1, entries: Map::empty() }).ids_below_counter(),
        s.ids_below_counter() ==> s.take(taken).ids_below_counter(),
        s.ids_below_counter() && s.next_invoke_id < u64::MAX ==> s.stage(valence).ids_below_counter(),
        s.ids_below_counter() ==> !s.entries.contains_key(s.next_invoke_id),
{
}

} // verus!
