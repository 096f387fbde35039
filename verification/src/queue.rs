//! A strict-FIFO queue of characters built from two growable arrays.
//!
//! Elements are pushed onto the tail of `younger`. When a pop finds `older`
//! empty, the two buffers swap identities and the new `older` is reversed in
//! place, so that the logical front of the queue is always the back of
//! `older`. Each element is moved by such a rebalance at most once between
//! being pushed and being popped, which makes both operations amortized O(1).

use vstd::prelude::*;

verus! {

/// The value a pop returns when the queue holds the elements `s`,
/// oldest first: the front element, or nothing when the queue is empty.
pub open spec fn pop_value<T>(s: Seq<T>) -> Option<T> {
    if s.len() == 0 {
        None
    } else {
        Some(s[0])
    }
}

/// The elements remaining after a pop when the queue held `s`, oldest first:
/// all but the front element, or `s` itself when the queue is empty.
pub open spec fn pop_state<T>(s: Seq<T>) -> Seq<T> {
    if s.len() == 0 {
        s
    } else {
        s.drop_first()
    }
}

/// Relies on the standard library's `<[T]>::reverse`, which reverses the
/// order of the elements in place.
#[verifier::external_body]
fn reverse_in_place<T>(v: &mut Vec<T>)
    ensures
        final(v)@ == old(v)@.reverse(),
{
    v.as_mut_slice().reverse();
}

/// A first-in-first-out queue of characters.
///
/// The queue's view is the sequence of the elements it holds, oldest first.
pub struct Queue {
    /// Elements already migrated, stored in reverse: the back is the front
    /// of the logical queue.
    older: Vec<char>,
    /// Elements in arrival order since the last rebalance: the back is the
    /// tail of the logical queue.
    younger: Vec<char>,
}

impl View for Queue {
    type V = Seq<char>;

    closed spec fn view(&self) -> Seq<char> {
        self.older@.reverse() + self.younger@
    }
}

impl Queue {
    /// The number of elements that have not yet migrated into `older`.
    /// The next rebalance moves exactly these.
    pub closed spec fn staged(self) -> nat {
        self.younger@.len()
    }

    /// Constructs an empty queue.
    pub fn new() -> (q: Queue)
        ensures
            q@ == Seq::<char>::empty(),
            q.staged() == 0,
    {
        let q = Queue { older: Vec::new(), younger: Vec::new() };
        proof {
            assert(q@ =~= Seq::<char>::empty());
        }
        q
    }

    /// Appends `c` at the tail of the queue.
    pub fn push(&mut self, c: char)
        ensures
            final(self)@ == old(self)@.push(c),
            final(self).staged() == old(self).staged() + 1,
    {
        self.younger.push(c);
        proof {
            assert(final(self)@ =~= old(self)@.push(c));
        }
    }

    /// Removes and returns the front of the queue, or nothing when the
    /// queue is empty. When `older` is exhausted, first migrates every
    /// element of `younger` into `older` (reversing them), so an element
    /// migrates at most once in its lifetime.
    pub fn pop(&mut self) -> (r: Option<char>)
        ensures
            r == pop_value(old(self)@),
            final(self)@ == pop_state(old(self)@),
            final(self).staged() == (if old(self)@.len() == old(self).staged() {
                0nat
            } else {
                old(self).staged()
            }),
    {
        if self.older.is_empty() {
            if self.younger.is_empty() {
                proof {
                    assert(old(self)@ =~= Seq::<char>::empty());
                }
                return None;
            }
            core::mem::swap(&mut self.older, &mut self.younger);
            reverse_in_place(&mut self.older);
            proof {
                assert(self@ =~= old(self)@);
            }
        }
        let ghost pre = self@;
        let ghost x = self.older@;
        let r = self.older.pop();
        proof {
            assert(x.len() > 0);
            assert(pre =~= x.reverse() + self.younger@);
            assert(pre[0] == x.reverse()[0]);
            assert(x.reverse()[0] == x.last());
            assert(self@ =~= pre.drop_first()) by {
                assert(self@ =~= x.drop_last().reverse() + self.younger@);
                assert forall|i: int| 0 <= i < pre.len() - 1 implies pre.drop_first()[i]
                    == (x.drop_last().reverse() + self.younger@)[i] by {
                    if i < x.len() - 1 {
                        assert(pre.drop_first()[i] == x.reverse()[i + 1]);
                        assert(x.reverse()[i + 1] == x[x.len() - 2 - i]);
                        assert(x.drop_last().reverse()[i] == x.drop_last()[x.len() - 2 - i]);
                    }
                }
            }
        }
        r
    }

    /// True exactly when the queue holds no element.
    pub fn is_empty(&self) -> (r: bool)
        ensures
            r == (self@.len() == 0),
    {
        self.older.is_empty() && self.younger.is_empty()
    }
}

/// A first-in-first-out queue over an arbitrary element type: the same
/// two-buffer design as [`Queue`], made type-parametric.
///
/// The queue's view is the sequence of the elements it holds, oldest first.
pub struct GenericQueue<T> {
    /// Elements already migrated, stored in reverse: the back is the front
    /// of the logical queue.
    older: Vec<T>,
    /// Elements in arrival order since the last rebalance: the back is the
    /// tail of the logical queue.
    younger: Vec<T>,
}

impl<T> View for GenericQueue<T> {
    type V = Seq<T>;

    closed spec fn view(&self) -> Seq<T> {
        self.older@.reverse() + self.younger@
    }
}

impl<T> GenericQueue<T> {
    /// The number of elements that have not yet migrated into `older`.
    /// The next rebalance moves exactly these.
    pub closed spec fn staged(self) -> nat {
        self.younger@.len()
    }

    /// Constructs an empty queue.
    pub fn new() -> (q: GenericQueue<T>)
        ensures
            q@ == Seq::<T>::empty(),
            q.staged() == 0,
    {
        let q = GenericQueue { older: Vec::new(), younger: Vec::new() };
        proof {
            assert(q@ =~= Seq::<T>::empty());
        }
        q
    }

    /// Appends `c` at the tail of the queue.
    pub fn push(&mut self, c: T)
        ensures
            final(self)@ == old(self)@.push(c),
            final(self).staged() == old(self).staged() + 1,
    {
        self.younger.push(c);
        proof {
            assert(final(self)@ =~= old(self)@.push(c));
        }
    }

    /// Removes and returns the front of the queue, or nothing when the
    /// queue is empty. When `older` is exhausted, first migrates every
    /// element of `younger` into `older` (reversing them), so an element
    /// migrates at most once in its lifetime.
    pub fn pop(&mut self) -> (r: Option<T>)
        ensures
            r == pop_value(old(self)@),
            final(self)@ == pop_state(old(self)@),
            final(self).staged() == (if old(self)@.len() == old(self).staged() {
                0nat
            } else {
                old(self).staged()
            }),
    {
        if self.older.is_empty() {
            if self.younger.is_empty() {
                proof {
                    assert(old(self)@ =~= Seq::<T>::empty());
                }
                return None;
            }
            core::mem::swap(&mut self.older, &mut self.younger);
            reverse_in_place(&mut self.older);
            proof {
                assert(self@ =~= old(self)@);
            }
        }
        let ghost pre = self@;
        let ghost x = self.older@;
        let r = self.older.pop();
        proof {
            assert(x.len() > 0);
            assert(pre =~= x.reverse() + self.younger@);
            assert(pre[0] == x.reverse()[0]);
            assert(x.reverse()[0] == x.last());
            assert(self@ =~= pre.drop_first()) by {
                assert(self@ =~= x.drop_last().reverse() + self.younger@);
                assert forall|i: int| 0 <= i < pre.len() - 1 implies pre.drop_first()[i]
                    == (x.drop_last().reverse() + self.younger@)[i] by {
                    if i < x.len() - 1 {
                        assert(pre.drop_first()[i] == x.reverse()[i + 1]);
                        assert(x.reverse()[i + 1] == x[x.len() - 2 - i]);
                        assert(x.drop_last().reverse()[i] == x.drop_last()[x.len() - 2 - i]);
                    }
                }
            }
        }
        r
    }

    /// True exactly when the queue holds no element.
    pub fn is_empty(&self) -> (r: bool)
        ensures
            r == (self@.len() == 0),
    {
        self.older.is_empty() && self.younger.is_empty()
    }
}

} // verus!
