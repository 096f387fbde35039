//! Users with measurable statistics: selecting a statistic, sorting by it,
//! and counting users that satisfy a caller-supplied test.

use vstd::prelude::*;

verus! {

/// Which statistic of a user to read.
#[derive(Copy, Clone)]
pub enum Statistic {
    UserWeight,
    UserHeight,
}

/// A user with a name and two measured statistics.
#[derive(Debug)]
pub struct User {
    pub name: String,
    pub weight: i64,
    pub height: i64,
}

impl User {
    /// The statistic `stat` selects: the user's weight or height.
    pub open spec fn stat_spec(self, stat: Statistic) -> i64 {
        match stat {
            Statistic::UserWeight => self.weight,
            Statistic::UserHeight => self.height,
        }
    }

    /// Reads the statistic `stat` selects.
    pub fn get_statistic(&self, stat: Statistic) -> (r: i64)
        ensures
            r == self.stat_spec(stat),
    {
        match stat {
            Statistic::UserWeight => self.weight,
            Statistic::UserHeight => self.height,
        }
    }
}

/// The first `k` users of `s` are ordered by descending `stat`.
pub open spec fn sorted_desc_to(s: Seq<User>, stat: Statistic, k: int) -> bool {
    forall|a: int, b: int|
        0 <= a <= b < k && b < s.len() ==> s[a].stat_spec(stat) >= s[b].stat_spec(stat)
}

/// The users of `s` are ordered by descending `stat`.
pub open spec fn sorted_desc_by(s: Seq<User>, stat: Statistic) -> bool {
    sorted_desc_to(s, stat, s.len() as int)
}

/// Sorts the users by the chosen statistic, largest first, keeping exactly
/// the same users.
pub fn sort_by_static(users: &mut Vec<User>, stat: Statistic)
    ensures
        sorted_desc_by(final(users)@, stat),
        final(users)@.to_multiset() == old(users)@.to_multiset(),
{
    let mut i: usize = 1;
    while i < users.len()
        invariant
            1 <= i,
            users@.len() > 0 ==> i <= users@.len(),
            users@.len() == 0 ==> i == 1,
            users@.to_multiset() == old(users)@.to_multiset(),
            sorted_desc_to(users@, stat, i as int),
        decreases users@.len() - i,
    {
        let ghost prev = users@;
        let x = users.remove(i);
        let ghost mid = users@;
        let xs = x.get_statistic(stat);
        let mut j: usize = 0;
        while j < i && users[j].get_statistic(stat) >= xs
            invariant
                j <= i,
                i <= mid.len(),
                users@ == mid,
                xs == x.stat_spec(stat),
                forall|k: int| 0 <= k < j ==> mid[k].stat_spec(stat) >= x.stat_spec(stat),
            decreases i - j,
        {
            j += 1;
        }
        users.insert(j, x);
        proof {
            let cur = users@;
            assert(cur.to_multiset() =~= prev.to_multiset()) by {
                broadcast use vstd::seq_lib::group_to_multiset_ensures;

                assert(prev.contains(prev[i as int]));
                vstd::seq_lib::to_multiset_remove(prev, i as int);
                vstd::seq_lib::to_multiset_insert(mid, j as int, x);
            }
            assert(sorted_desc_to(cur, stat, i + 1)) by {
                assert forall|a: int, b: int|
                    0 <= a <= b < i + 1 && b < cur.len() implies cur[a].stat_spec(stat)
                    >= cur[b].stat_spec(stat) by {
                    if a < j {
                        assert(cur[a] == mid[a]);
                    }
                    if b < j {
                        assert(cur[b] == mid[b]);
                    }
                    if j < a {
                        assert(cur[a] == mid[a - 1]);
                    }
                    if j < b {
                        assert(cur[b] == mid[b - 1]);
                    }
                    if j < b && j < i {
                        assert(mid[j as int].stat_spec(stat) <= x.stat_spec(stat)
                            || mid[b - 1].stat_spec(stat) <= mid[j as int].stat_spec(stat));
                    }
                }
            }
        }
        i += 1;
    }
}

/// The number of `true` entries of `bs`.
pub open spec fn count_true(bs: Seq<bool>) -> int
    decreases bs.len(),
{
    if bs.len() == 0 {
        0
    } else {
        count_true(bs.drop_last()) + if bs.last() {
            1int
        } else {
            0int
        }
    }
}

/// Counts the users that `test_fn` accepts: there is one verdict per user,
/// each a possible answer of `test_fn` for that user, and the count is the
/// number of verdicts that came back true.
pub fn count_specific_user<F: Fn(&User) -> bool>(users: &Vec<User>, test_fn: F) -> (count: usize)
    requires
        forall|i: int| 0 <= i < users@.len() ==> call_requires(test_fn, (&users@[i],)),
    ensures
        count <= users@.len(),
        exists|bs: Seq<bool>|
            {
                &&& bs.len() == users@.len()
                &&& forall|i: int|
                    0 <= i < bs.len() ==> call_ensures(test_fn, (&users@[i],), bs[i])
                &&& count == count_true(bs)
            },
{
    let ghost mut bs: Seq<bool> = Seq::empty();
    let mut count: usize = 0;
    let mut idx: usize = 0;
    while idx < users.len()
        invariant
            idx <= users@.len(),
            bs.len() == idx,
            count <= idx,
            count == count_true(bs),
            forall|i: int| 0 <= i < users@.len() ==> call_requires(test_fn, (&users@[i],)),
            forall|i: int| 0 <= i < bs.len() ==> call_ensures(test_fn, (&users@[i],), bs[i]),
        decreases users@.len() - idx,
    {
        let accepted = test_fn(&users[idx]);
        proof {
            let extended = bs.push(accepted);
            assert(extended.drop_last() =~= bs);
            assert(extended.last() == accepted);
            bs = extended;
        }
        if accepted {
            count += 1;
        }
        idx += 1;
    }
    count
}

} // verus!
