//! Laws of the two-buffer FIFO queue, stated over the model its contracts
//! use: a queue state is the sequence of held elements, oldest first, a push
//! appends at the back, and a pop takes [`pop_value`] and leaves
//! [`pop_state`]. The lemmas here hold of every run of [`crate::queue::Queue`]
//! and [`crate::queue::GenericQueue`], since each operation's `ensures` is
//! exactly one step of this model.

use vstd::prelude::*;

use crate::queue::{pop_state, pop_value};

verus! {

/// One operation on a queue: pushing a value, or popping.
pub enum QueueOp<T> {
    Push(T),
    Pop,
}

/// The elements a queue holds, oldest first, after running `ops` from the
/// empty queue.
pub open spec fn run_state<T>(ops: Seq<QueueOp<T>>) -> Seq<T>
    decreases ops.len(),
{
    if ops.len() == 0 {
        Seq::empty()
    } else {
        let prev = run_state(ops.drop_last());
        match ops.last() {
            QueueOp::Push(v) => prev.push(v),
            QueueOp::Pop => pop_state(prev),
        }
    }
}

/// The values returned by the pops of `ops`, in the order they were
/// returned, when `ops` runs from the empty queue. Pops of an empty queue
/// return nothing and add no value here.
pub open spec fn run_popped<T>(ops: Seq<QueueOp<T>>) -> Seq<T>
    decreases ops.len(),
{
    if ops.len() == 0 {
        Seq::empty()
    } else {
        let prev = run_popped(ops.drop_last());
        match ops.last() {
            QueueOp::Push(v) => prev,
            QueueOp::Pop => match pop_value(run_state(ops.drop_last())) {
                Some(v) => prev.push(v),
                None => prev,
            },
        }
    }
}

/// The values pushed by `ops`, in push order.
pub open spec fn pushed_values<T>(ops: Seq<QueueOp<T>>) -> Seq<T>
    decreases ops.len(),
{
    if ops.len() == 0 {
        Seq::empty()
    } else {
        let prev = pushed_values(ops.drop_last());
        match ops.last() {
            QueueOp::Push(v) => prev.push(v),
            QueueOp::Pop => prev,
        }
    }
}

/// FIFO ordering: over any sequence of pushes and pops run from the empty
/// queue, the values the pops returned, in order, followed by the values the
/// queue still holds, oldest first, are exactly the pushed values in their
/// push order. In particular, pops return values in the relative order in
/// which they were pushed.
pub proof fn lemma_fifo_order<T>(ops: Seq<QueueOp<T>>)
    ensures
        run_popped(ops) + run_state(ops) == pushed_values(ops),
    decreases ops.len(),
{
    if ops.len() == 0 {
        assert(run_popped(ops) + run_state(ops) =~= pushed_values(ops));
    } else {
        let prev = ops.drop_last();
        lemma_fifo_order(prev);
        match ops.last() {
            QueueOp::Push(v) => {
                assert(run_popped(ops) + run_state(ops) =~= pushed_values(ops));
            },
            QueueOp::Pop => {
                let s = run_state(prev);
                if s.len() == 0 {
                    assert(run_popped(ops) + run_state(ops) =~= pushed_values(ops));
                } else {
                    assert(run_popped(ops) + run_state(ops) =~= run_popped(prev).push(s[0])
                        + s.drop_first());
                    assert(run_popped(prev).push(s[0]) + s.drop_first() =~= run_popped(prev) + s);
                }
            },
        }
    }
}

/// Emptiness: the queue left by a run is empty exactly when every pushed
/// value has been returned by a pop, that is, when the count of pushes
/// equals the count of successful pops.
pub proof fn lemma_empty_iff_all_popped<T>(ops: Seq<QueueOp<T>>)
    ensures
        run_popped(ops).len() + run_state(ops).len() == pushed_values(ops).len(),
        run_state(ops).len() == 0 <==> run_popped(ops).len() == pushed_values(ops).len(),
{
    lemma_fifo_order(ops);
    assert((run_popped(ops) + run_state(ops)).len() == pushed_values(ops).len());
}

/// The run that pushes the values of `vs`, in order, and pops nothing.
pub open spec fn push_run<T>(vs: Seq<T>) -> Seq<QueueOp<T>> {
    vs.map_values(|v: T| QueueOp::Push(v))
}

/// A run of `n` pops.
pub open spec fn pop_run<T>(n: nat) -> Seq<QueueOp<T>> {
    Seq::new(n, |i: int| QueueOp::Pop)
}

/// Round trip: pushing the `n` values of `vs` onto the empty queue and then
/// popping `n` times returns exactly `vs`, in order, leaves the queue empty,
/// and a further pop returns nothing.
pub proof fn lemma_round_trip<T>(vs: Seq<T>)
    ensures
        run_state(push_run(vs)) == vs,
        run_popped(push_run(vs) + pop_run(vs.len())) == vs,
        run_state(push_run(vs) + pop_run(vs.len())) == Seq::<T>::empty(),
        pop_value(run_state(push_run(vs) + pop_run(vs.len()))) is None,
{
    lemma_push_run(vs);
    lemma_pop_off(push_run(vs), vs.len());
    assert(vs.skip(vs.len() as int) =~= Seq::<T>::empty());
    assert(vs.take(vs.len() as int) =~= vs);
}

/// Running only pushes builds exactly the pushed sequence.
proof fn lemma_push_run<T>(vs: Seq<T>)
    ensures
        run_state(push_run(vs)) == vs,
        run_popped(push_run(vs)) == Seq::<T>::empty(),
    decreases vs.len(),
{
    if vs.len() == 0 {
        assert(push_run(vs) =~= Seq::<QueueOp<T>>::empty());
        assert(run_state(push_run(vs)) =~= vs);
        assert(run_popped(push_run(vs)) =~= Seq::<T>::empty());
    } else {
        lemma_push_run(vs.drop_last());
        assert(push_run(vs).drop_last() =~= push_run(vs.drop_last()));
        assert(push_run(vs).last() == QueueOp::Push(vs.last()));
        assert(run_state(push_run(vs)) =~= vs);
    }
}

/// Popping `n` times after any run returns the first `n` of the held
/// elements, oldest first, and leaves the rest.
proof fn lemma_pop_off<T>(ops: Seq<QueueOp<T>>, n: nat)
    ensures
        run_state(ops + pop_run(n)) == run_state(ops).skip(
            if n <= run_state(ops).len() {
                n as int
            } else {
                run_state(ops).len() as int
            },
        ),
        run_popped(ops + pop_run(n)) == run_popped(ops) + run_state(ops).take(
            if n <= run_state(ops).len() {
                n as int
            } else {
                run_state(ops).len() as int
            },
        ),
    decreases n,
{
    let s = run_state(ops);
    if n == 0 {
        assert(ops + pop_run(0) =~= ops);
        assert(s.skip(0) =~= s);
        assert(run_popped(ops) + s.take(0) =~= run_popped(ops));
    } else {
        lemma_pop_off(ops, (n - 1) as nat);
        let shorter = ops + pop_run((n - 1) as nat);
        assert((ops + pop_run(n)).drop_last() =~= shorter);
        assert((ops + pop_run(n)).last() == QueueOp::<T>::Pop);
        let k = if n - 1 <= s.len() {
            n - 1
        } else {
            s.len() as int
        };
        let kk = if n <= s.len() {
            n as int
        } else {
            s.len() as int
        };
        assert(run_state(shorter) == s.skip(k));
        if s.len() <= n - 1 {
            assert(s.skip(k).len() == 0);
            assert(kk == k);
            assert(run_state(ops + pop_run(n)) == s.skip(kk));
            assert(run_popped(ops + pop_run(n)) == run_popped(ops) + s.take(kk));
        } else {
            assert(s.skip(k).len() > 0);
            assert(run_state(ops + pop_run(n)) == s.skip(k).drop_first());
            assert(s.skip(k).drop_first() =~= s.skip(kk));
            assert(run_popped(ops + pop_run(n)) == (run_popped(ops) + s.take(k)).push(
                s.skip(k)[0],
            ));
            assert((run_popped(ops) + s.take(k)).push(s[k]) =~= run_popped(ops) + s.take(kk));
        }
    }
}

/// The number of element moves a pop performs at a state with `len` held
/// elements of which `staged` have not yet migrated: a rebalance moves all
/// staged elements exactly when the migrated buffer is exhausted, that is,
/// when every held element is staged; otherwise a pop moves nothing.
pub open spec fn migration_moves(len: nat, staged: nat) -> nat {
    if len == staged {
        staged
    } else {
        0
    }
}

/// The number of elements not yet migrated after running `ops` from the
/// empty queue, mirroring the `staged` clauses of the queue's contracts.
pub open spec fn run_staged<T>(ops: Seq<QueueOp<T>>) -> nat
    decreases ops.len(),
{
    if ops.len() == 0 {
        0
    } else {
        let prev = run_staged(ops.drop_last());
        match ops.last() {
            QueueOp::Push(v) => prev + 1,
            QueueOp::Pop => if run_state(ops.drop_last()).len() == prev {
                0
            } else {
                prev
            },
        }
    }
}

/// The total number of element moves performed by the rebalances of a run.
pub open spec fn run_moves<T>(ops: Seq<QueueOp<T>>) -> nat
    decreases ops.len(),
{
    if ops.len() == 0 {
        0
    } else {
        let prev = run_moves(ops.drop_last());
        match ops.last() {
            QueueOp::Push(v) => prev,
            QueueOp::Pop => prev + migration_moves(
                run_state(ops.drop_last()).len(),
                run_staged(ops.drop_last()),
            ),
        }
    }
}

/// Amortized cost: over any run, the element moves performed by all
/// rebalances together with the elements still waiting to migrate account
/// for exactly one move per pushed value. In particular the total moves
/// never exceed the number of pushes: no element is ever moved by a
/// rebalance more than once between being pushed and being popped.
pub proof fn lemma_amortized_moves<T>(ops: Seq<QueueOp<T>>)
    ensures
        run_moves(ops) + run_staged(ops) == pushed_values(ops).len(),
        run_moves(ops) <= pushed_values(ops).len(),
    decreases ops.len(),
{
    if ops.len() > 0 {
        lemma_amortized_moves(ops.drop_last());
    }
}

/// Ownership: a pop of a non-empty queue hands its front value to the
/// caller and the remaining state holds exactly one fewer instance of that
/// value; what Rust's move semantics add is that the instance handed out
/// cannot alias anything the queue still owns.
pub proof fn lemma_pop_releases_value<T>(s: Seq<T>)
    requires
        s.len() > 0,
    ensures
        pop_value(s) == Some(s[0]),
        pop_state(s).to_multiset() == s.to_multiset().remove(s[0]),
{
    broadcast use vstd::seq_lib::group_to_multiset_ensures;

    assert(s.drop_first() =~= s.remove(0));
    assert(s.remove(0).to_multiset() == s.to_multiset().remove(s[0]));
}

} // verus!
