use vstd::prelude::*;

use crate::record::{Timed, Timestamp};

verus! {

/// Times never increase from one element to the next.
pub open spec fn sorted_desc<T: Timed>(s: Seq<T>) -> bool {
    forall|i: int, j: int| 0 <= i < j < s.len() ==> s[i].spec_time() >= s[j].spec_time()
}

/// Where a value of time `t` goes in a time-descending sequence: after every
/// element that is strictly later, before every element at or before `t`.
/// Among elements of equal time, the one inserted last therefore comes first:
/// of two observations at the same time, the second is compared against the
/// first.
pub open spec fn insertion_index<T: Timed>(s: Seq<T>, t: Timestamp) -> int
    decreases s.len(),
{
    if s.len() == 0 {
        0
    } else if s[0].spec_time() <= t {
        0
    } else {
        1 + insertion_index(s.drop_first(), t)
    }
}

/// `s` with `x` placed at its insertion index.
pub open spec fn insert_sorted<T: Timed>(s: Seq<T>, x: T) -> Seq<T> {
    s.insert(insertion_index(s, x.spec_time()), x)
}

/// The insertion index is the first position whose element is not later than `t`.
pub proof fn lemma_insertion_index<T: Timed>(s: Seq<T>, t: Timestamp, p: int)
    requires
        0 <= p <= s.len(),
        forall|k: int| 0 <= k < p ==> s[k].spec_time() > t,
        p == s.len() || s[p].spec_time() <= t,
    ensures
        insertion_index(s, t) == p,
    decreases p,
{
    if p > 0 {
        let d = s.drop_first();
        assert forall|k: int| 0 <= k < p - 1 implies d[k].spec_time() > t by {
            assert(d[k] == s[k + 1]);
        }
        if p - 1 < d.len() {
            assert(d[p - 1] == s[p]);
        }
        lemma_insertion_index(d, t, p - 1);
    }
}

/// The insertion index lies within the sequence, every element before it is
/// later than `t`, and none from it on is.
pub proof fn lemma_insertion_index_bounds<T: Timed>(s: Seq<T>, t: Timestamp)
    requires
        sorted_desc(s),
    ensures
        0 <= insertion_index(s, t) <= s.len(),
        forall|k: int| 0 <= k < insertion_index(s, t) ==> s[k].spec_time() > t,
        forall|k: int| insertion_index(s, t) <= k < s.len() ==> s[k].spec_time() <= t,
    decreases s.len(),
{
    if s.len() > 0 && s[0].spec_time() > t {
        let d = s.drop_first();
        assert(sorted_desc(d)) by {
            assert forall|i: int, j: int| 0 <= i < j < d.len() implies d[i].spec_time()
                >= d[j].spec_time() by {
                assert(d[i] == s[i + 1] && d[j] == s[j + 1]);
            }
        }
        lemma_insertion_index_bounds(d, t);
        assert forall|k: int| 0 < k < s.len() implies s[k] == d[k - 1] by {}
    }
}

/// Inserting at the insertion index keeps a sequence time-descending.
pub proof fn lemma_insert_sorted_keeps_order<T: Timed>(s: Seq<T>, x: T)
    requires
        sorted_desc(s),
    ensures
        sorted_desc(insert_sorted(s, x)),
        insert_sorted(s, x).len() == s.len() + 1,
{
    let t = x.spec_time();
    let p = insertion_index(s, t);
    lemma_insertion_index_bounds(s, t);
    let r = insert_sorted(s, x);
    assert forall|i: int, j: int| 0 <= i < j < r.len() implies r[i].spec_time()
        >= r[j].spec_time() by {
        if i < p && j < p {
            assert(r[i] == s[i] && r[j] == s[j]);
        } else if i < p && j == p {
            assert(r[i] == s[i]);
        } else if i < p {
            assert(r[i] == s[i] && r[j] == s[j - 1]);
        } else if i == p {
            assert(r[j] == s[j - 1]);
        } else {
            assert(r[i] == s[i - 1] && r[j] == s[j - 1]);
        }
    }
}

/// Places `x` into the time-descending vector `v` at its insertion index.
pub fn insert_by_time<T: Timed>(v: &mut Vec<T>, x: T)
    requires
        sorted_desc(old(v)@),
    ensures
        final(v)@ == insert_sorted(old(v)@, x),
        sorted_desc(final(v)@),
{
    let t = x.time();
    let mut i: usize = 0;
    while i < v.len() && v[i].time() > t
        invariant
            0 <= i <= v.len(),
            forall|k: int| 0 <= k < i ==> v@[k].spec_time() > t,
        decreases v.len() - i,
    {
        i = i + 1;
    }
    proof {
        lemma_insertion_index(v@, t, i as int);
        lemma_insert_sorted_keeps_order(v@, x);
    }
    v.insert(i, x);
}

} // verus!
