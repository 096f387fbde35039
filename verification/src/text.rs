//! Substring search and line filtering, the computational core of a
//! line-oriented grep.

use vstd::prelude::*;
use vstd::string::StrSliceExecFns;

verus! {

/// `h` holds `n` as a contiguous run: some offset of `h` starts a full copy
/// of `n`. The empty sequence is held by every sequence.
pub open spec fn contains_seq(h: Seq<char>, n: Seq<char>) -> bool {
    exists|i: int| 0 <= i && i + n.len() <= h.len() && #[trigger] h.subrange(i, i + n.len()) == n
}

/// True exactly when `hay` holds `target` as a contiguous substring of its
/// characters.
pub fn contains_substring(hay: &str, target: &str) -> (r: bool)
    ensures
        r == contains_seq(hay@, target@),
{
    let h_len = hay.unicode_len();
    let n_len = target.unicode_len();
    if n_len > h_len {
        return false;
    }
    let mut i: usize = 0;
    loop
        invariant
            n_len <= h_len,
            h_len == hay@.len(),
            n_len == target@.len(),
            i <= h_len - n_len,
            forall|k: int|
                0 <= k < i ==> #[trigger] hay@.subrange(k, k + target@.len()) != target@,
        decreases h_len - n_len - i,
    {
        let mut j: usize = 0;
        let mut matches_here = true;
        while j < n_len
            invariant
                n_len <= h_len,
                h_len == hay@.len(),
                n_len == target@.len(),
                i + n_len <= h_len,
                j <= n_len,
                matches_here ==> forall|k: int| 0 <= k < j ==> hay@[i + k] == target@[k],
                !matches_here ==> hay@.subrange(i as int, i + target@.len()) != target@,
            decreases n_len - j,
        {
            if hay.get_char(i + j) != target.get_char(j) {
                proof {
                    assert(hay@.subrange(i as int, i + target@.len())[j as int] == hay@[i + j]);
                }
                matches_here = false;
                j = n_len;
            } else {
                j += 1;
            }
        }
        if matches_here {
            proof {
                assert(hay@.subrange(i as int, i + target@.len()) =~= target@);
            }
            return true;
        }
        if i == h_len - n_len {
            proof {
                assert forall|k: int|
                    0 <= k && k + target@.len() <= hay@.len() implies #[trigger] hay@.subrange(
                    k,
                    k + target@.len(),
                ) != target@ by {
                    assert(k <= i);
                }
            }
            return false;
        }
        i += 1;
    }
}

/// The lines of `lines`, in order, that hold `target` as a substring.
pub open spec fn matching_lines(lines: Seq<Seq<char>>, target: Seq<char>) -> Seq<Seq<char>>
    decreases lines.len(),
{
    if lines.len() == 0 {
        Seq::empty()
    } else {
        matching_lines(lines.drop_last(), target) + if contains_seq(lines.last(), target) {
            seq![lines.last()]
        } else {
            Seq::empty()
        }
    }
}

/// Keeps, in order, exactly the lines that hold `target` as a substring.
pub fn grep_lines(target: &str, lines: &Vec<String>) -> (r: Vec<String>)
    ensures
        r.deep_view() == matching_lines(lines.deep_view(), target@),
{
    let mut r: Vec<String> = Vec::new();
    let mut idx: usize = 0;
    while idx < lines.len()
        invariant
            idx <= lines@.len(),
            r.deep_view() == matching_lines(lines.deep_view().take(idx as int), target@),
        decreases lines@.len() - idx,
    {
        let ghost before = r.deep_view();
        let line = &lines[idx];
        if contains_substring(line.as_str(), target) {
            r.push(line.clone());
            proof {
                assert(r.deep_view() =~= before.push(line@));
            }
        }
        proof {
            let taken = lines.deep_view().take(idx + 1);
            assert(taken.drop_last() =~= lines.deep_view().take(idx as int));
            assert(taken.last() == lines.deep_view()[idx as int]);
            assert(r.deep_view() =~= matching_lines(taken, target@));
        }
        idx += 1;
    }
    proof {
        assert(lines.deep_view().take(lines@.len() as int) =~= lines.deep_view());
    }
    r
}

} // verus!
