//! The life of a revocable value as a state machine.
//!
//! A cell is in one of two states: it holds a live value, `Some(v)`, or it has
//! been revoked, `None`. Callers reach it one at a time, so its history is a
//! sequence of operations.

use vstd::prelude::*;

verus! {

/// One operation on a cell.
pub enum Op<T> {
    /// The value is revoked.
    Revoke,
    /// Access is asked for. Where it is granted, the holder leaves this value
    /// behind when it lets go.
    Access(T),
}

/// The state that `op` leaves a cell in.
///
/// A revocation ends in `None` whatever it finds. An access changes nothing
/// about whether the value lives: it can replace a live value, and it finds a
/// revoked cell revoked.
pub open spec fn step<T>(state: Option<T>, op: Op<T>) -> Option<T> {
    match op {
        Op::Revoke => None,
        Op::Access(left) => match state {
            Some(_) => Some(left),
            None => None,
        },
    }
}

/// Whether `op` destroys a value: it finds one alive and leaves none.
pub open spec fn destroys<T>(state: Option<T>, op: Op<T>) -> bool {
    state is Some && step(state, op) is None
}

/// The state after `ops`, applied first to last.
pub open spec fn run<T>(state: Option<T>, ops: Seq<Op<T>>) -> Option<T>
    decreases ops.len(),
{
    if ops.len() == 0 {
        state
    } else {
        step(run(state, ops.drop_last()), ops.last())
    }
}

/// How many values `ops` destroy between them.
pub open spec fn destructions<T>(state: Option<T>, ops: Seq<Op<T>>) -> nat
    decreases ops.len(),
{
    if ops.len() == 0 {
        0
    } else {
        let before = ops.drop_last();
        let last: nat = if destroys(run(state, before), ops.last()) {
            1
        } else {
            0
        };
        destructions(state, before) + last
    }
}

/// Two revocations in a row destroy the value once: the first destroys a live
/// value, the second destroys nothing and leaves the cell as it found it.
pub proof fn lemma_second_revoke_is_noop<T>(state: Option<T>)
    ensures
        destroys(state, Op::<T>::Revoke) <==> state is Some,
        !destroys(step(state, Op::<T>::Revoke), Op::<T>::Revoke),
        step(step(state, Op::<T>::Revoke), Op::<T>::Revoke) == step(state, Op::<T>::Revoke),
{
}

/// An access destroys nothing, and leaves a live cell live with what its
/// holder left in it.
pub proof fn lemma_access_keeps_the_value_live<T>(state: Option<T>, left: T)
    ensures
        !destroys(state, Op::Access(left)),
        state is Some ==> step(state, Op::Access(left)) == Some(left),
{
}

/// The value in a cell is whole: a live cell holds the value that it was made
/// with or, after an access, the one that the last access left.
pub proof fn lemma_live_value_is_the_last_left<T>(state: Option<T>, ops: Seq<Op<T>>)
    ensures
        ops.len() == 0 ==> run(state, ops) == state,
        ops.len() > 0 && run(state, ops) is Some ==> ops.last() is Access && run(state, ops)
            == Some(ops.last()->Access_0),
{
}

/// A revoked cell stays revoked under every operation.
pub proof fn lemma_revoked_is_terminal<T>(ops: Seq<Op<T>>)
    ensures
        run(None::<T>, ops) is None,
    decreases ops.len(),
{
    if ops.len() > 0 {
        lemma_revoked_is_terminal(ops.drop_last());
    }
}

/// After a revocation the value is never live again: whatever operations
/// follow it, each of them finds the cell revoked, so no access among them is
/// granted.
pub proof fn lemma_no_access_after_revoke<T>(state: Option<T>, ops: Seq<Op<T>>, i: int)
    requires
        0 <= i <= ops.len(),
    ensures
        run(step(state, Op::<T>::Revoke), ops.take(i)) is None,
{
    lemma_revoked_is_terminal(ops.take(i));
}

/// A value is live after `ops` exactly if it was live before and none of them
/// was a revocation.
pub proof fn lemma_live_iff_never_revoked<T>(state: Option<T>, ops: Seq<Op<T>>)
    ensures
        run(state, ops) is Some <==> state is Some && forall|i: int|
            0 <= i < ops.len() ==> !(#[trigger] ops[i] is Revoke),
    decreases ops.len(),
{
    if ops.len() > 0 {
        let before = ops.drop_last();
        lemma_live_iff_never_revoked(state, before);
        assert(forall|i: int| 0 <= i < before.len() ==> before[i] == ops[i]);
        if run(state, ops) is Some {
            assert forall|i: int| 0 <= i < ops.len() implies !(#[trigger] ops[i] is Revoke) by {
                if i < before.len() {
                    assert(before[i] == ops[i]);
                }
            }
        }
    }
}

/// Whatever is done to a cell, and in whatever order, at most one value is
/// destroyed; one is destroyed exactly if the cell held a live value and some
/// operation was a revocation.
pub proof fn lemma_destroyed_at_most_once<T>(state: Option<T>, ops: Seq<Op<T>>)
    ensures
        destructions(state, ops) <= 1,
        destructions(state, ops) == 1 <==> state is Some && run(state, ops) is None,
    decreases ops.len(),
{
    if ops.len() > 0 {
        lemma_destroyed_at_most_once(state, ops.drop_last());
        if state is None {
            lemma_revoked_is_terminal(ops.drop_last());
        }
    }
}

} // verus!
