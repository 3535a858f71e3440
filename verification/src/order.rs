//! Alphabetic order of texts, and stable sorting by it.

use crate::text;
use vstd::prelude::*;

verus! {

/// `a` stands before `b` in alphabetic order: at the first difference it has the smaller
/// character, or it ends first.
pub open spec fn stands_before(a: Seq<char>, b: Seq<char>) -> bool
    decreases a.len(),
{
    if b.len() == 0 {
        false
    } else if a.len() == 0 {
        true
    } else if a[0] == b[0] {
        stands_before(a.skip(1), b.skip(1))
    } else {
        a[0] < b[0]
    }
}

/// Exactly one of three holds of two texts: the first stands before the second, they are equal,
/// or the second stands before the first.
pub proof fn order_is_total(a: Seq<char>, b: Seq<char>)
    ensures
        stands_before(a, b) ==> a != b && !stands_before(b, a),
        a != b ==> stands_before(a, b) || stands_before(b, a),
    decreases a.len(),
{
    if a.len() > 0 && b.len() > 0 {
        if a[0] == b[0] {
            order_is_total(a.skip(1), b.skip(1));
            if a.skip(1) == b.skip(1) {
                assert(a =~= seq![a[0]] + a.skip(1));
                assert(b =~= seq![b[0]] + b.skip(1));
            }
        }
    } else if a.len() == 0 && b.len() == 0 {
        assert(a =~= b);
    }
}

/// The order is transitive.
pub proof fn order_is_transitive(a: Seq<char>, b: Seq<char>, c: Seq<char>)
    requires
        stands_before(a, b),
        stands_before(b, c),
    ensures
        stands_before(a, c),
    decreases a.len(),
{
    if a.len() > 0 {
        if a[0] == b[0] && b[0] == c[0] {
            order_is_transitive(a.skip(1), b.skip(1), c.skip(1));
        }
    }
}

/// Whether `a` stands before `b` in alphabetic order.
pub fn is_before(a: &str, b: &str) -> (r: bool)
    ensures
        r == stands_before(a@, b@),
{
    let x = text::chars_of(a);
    let y = text::chars_of(b);
    let mut i: usize = 0;
    assert(x@.skip(0) =~= x@ && y@.skip(0) =~= y@);
    while i < x.len() && i < y.len() && x[i] == y[i]
        invariant
            i <= x@.len(),
            i <= y@.len(),
            stands_before(x@, y@) == stands_before(x@.skip(i as int), y@.skip(i as int)),
        decreases x@.len() - i,
    {
        assert(x@.skip(i as int).skip(1) =~= x@.skip(i + 1));
        assert(y@.skip(i as int).skip(1) =~= y@.skip(i + 1));
        i = i + 1;
    }
    if i >= y.len() {
        false
    } else if i >= x.len() {
        true
    } else {
        x[i] < y[i]
    }
}

/// `a` goes before `b` in the wanted direction.
pub open spec fn goes_first(a: Seq<char>, b: Seq<char>, descending: bool) -> bool {
    if descending {
        stands_before(b, a)
    } else {
        stands_before(a, b)
    }
}

fn is_first(a: &str, b: &str, descending: bool) -> (r: bool)
    ensures
        r == goes_first(a@, b@, descending),
{
    if descending {
        is_before(b, a)
    } else {
        is_before(a, b)
    }
}

/// `p` lists every position below `n` once.
pub open spec fn lists_all(p: Seq<usize>, n: nat) -> bool {
    &&& p.len() == n
    &&& forall|i: int| 0 <= i < p.len() ==> #[trigger] p[i] < n
    &&& forall|i: int, j: int| 0 <= i < j < p.len() ==> #[trigger] p[i] != #[trigger] p[j]
}

/// The keys at the listed positions are in order; equal keys keep the order of their positions.
pub open spec fn in_order(keys: Seq<String>, p: Seq<usize>, descending: bool) -> bool {
    forall|i: int, j: int|
        0 <= i < j < p.len() ==> {
            let a = keys[(#[trigger] p[i]) as int]@;
            let b = keys[(#[trigger] p[j]) as int]@;
            goes_first(a, b, descending) || (a == b && p[i] < p[j])
        }
}

/// The positions of the keys, sorted by key; equal keys keep their order.
pub fn stable_order(keys: &Vec<String>, descending: bool) -> (p: Vec<usize>)
    ensures
        lists_all(p@, keys@.len()),
        in_order(keys@, p@, descending),
{
    let mut p: Vec<usize> = Vec::new();
    let mut k: usize = 0;
    while k < keys.len()
        invariant
            k <= keys@.len(),
            lists_all(p@, k as nat),
            in_order(keys@, p@, descending),
        decreases keys@.len() - k,
    {
        let mut at: usize = p.len();
        while at > 0 && is_first(keys[k].as_str(), keys[p[at - 1]].as_str(), descending)
            invariant
                k < keys@.len(),
                at <= p@.len(),
                lists_all(p@, k as nat),
                in_order(keys@, p@, descending),
                forall|i: int|
                    at <= i < p@.len() ==> goes_first(
                        keys@[k as int]@,
                        keys@[(#[trigger] p@[i]) as int]@,
                        descending,
                    ),
            ensures
                at <= p@.len(),
                forall|i: int|
                    at <= i < p@.len() ==> goes_first(
                        keys@[k as int]@,
                        keys@[(#[trigger] p@[i]) as int]@,
                        descending,
                    ),
                at > 0 ==> !goes_first(
                    keys@[k as int]@,
                    keys@[p@[at - 1] as int]@,
                    descending,
                ),
            decreases at,
        {
            at = at - 1;
        }
        let ghost old_p = p@;
        p.insert(at, k);
        proof {
            let key = keys@[k as int]@;
            assert forall|i: int| 0 <= i < at implies ({
                let a = keys@[(#[trigger] old_p[i]) as int]@;
                goes_first(a, key, descending) || a == key
            }) by {
                let a = keys@[old_p[i] as int]@;
                let l = keys@[old_p[at - 1] as int]@;
                order_is_total(l, key);
                if i < at - 1 {
                    assert(goes_first(a, l, descending) || a == l);
                    order_is_total(a, key);
                    if stands_before(a, l) && stands_before(l, key) {
                        order_is_transitive(a, l, key);
                    }
                    if stands_before(key, l) && stands_before(l, a) {
                        order_is_transitive(key, l, a);
                    }
                }
            }
            assert forall|i: int, j: int| 0 <= i < j < p@.len() implies ({
                let a = keys@[(#[trigger] p@[i]) as int]@;
                let b = keys@[(#[trigger] p@[j]) as int]@;
                goes_first(a, b, descending) || (a == b && p@[i] < p@[j])
            }) by {
                if i < at && j < at {
                    assert(p@[i] == old_p[i] && p@[j] == old_p[j]);
                } else if i < at && j == at {
                    assert(p@[i] == old_p[i]);
                } else if i < at && j > at {
                    assert(p@[i] == old_p[i] && p@[j] == old_p[j - 1]);
                } else if i == at {
                    assert(p@[j] == old_p[j - 1]);
                } else {
                    assert(p@[i] == old_p[i - 1] && p@[j] == old_p[j - 1]);
                }
            }
            assert forall|i: int, j: int| 0 <= i < j < p@.len() implies #[trigger] p@[i]
                != #[trigger] p@[j] by {
                let x = if i < at {
                    i
                } else {
                    i - 1
                };
                let y = if j < at {
                    j
                } else {
                    j - 1
                };
                if i != at {
                    assert(p@[i] == old_p[x]);
                }
                if j != at {
                    assert(p@[j] == old_p[y]);
                }
            }
            assert forall|i: int| 0 <= i < p@.len() implies #[trigger] p@[i] < k + 1 by {
                if i < at {
                    assert(p@[i] == old_p[i]);
                } else if i > at {
                    assert(p@[i] == old_p[i - 1]);
                }
            }
        }
        k = k + 1;
    }
    p
}

/// A text stands before another one where, behind what they have in common, it ends or goes on with
/// the smaller character.
pub proof fn the_first_difference_decides(a: &str, b: &str, r: bool, i: int)
    requires
        call_ensures(is_before, (a, b), r),
        0 <= i <= a@.len(),
        i <= b@.len(),
        forall|k: int| 0 <= k < i ==> a@[k] == #[trigger] b@[k],
    ensures
        r == stands_before(a@, b@),
        i == b@.len() ==> !r,
        i == a@.len() && i < b@.len() ==> r,
        i < a@.len() && i < b@.len() && a@[i] != b@[i] ==> r == (a@[i] < b@[i]),
{
    common_beginnings_do_not_matter(a@, b@, i);
}

proof fn common_beginnings_do_not_matter(a: Seq<char>, b: Seq<char>, i: int)
    requires
        0 <= i <= a.len(),
        i <= b.len(),
        forall|k: int| 0 <= k < i ==> a[k] == #[trigger] b[k],
    ensures
        stands_before(a, b) == stands_before(a.skip(i), b.skip(i)),
    decreases i,
{
    if i == 0 {
        assert(a.skip(0) =~= a);
        assert(b.skip(0) =~= b);
    } else {
        assert(a[0] == b[0]);
        assert forall|k: int| 0 <= k < i - 1 implies a.skip(1)[k] == #[trigger] b.skip(1)[k] by {
            assert(a[k + 1] == b[k + 1]);
        }
        common_beginnings_do_not_matter(a.skip(1), b.skip(1), i - 1);
        assert(a.skip(1).skip(i - 1) =~= a.skip(i));
        assert(b.skip(1).skip(i - 1) =~= b.skip(i));
    }
}

/// A list of every position once leaves none out.
pub proof fn every_position_is_listed(p: Seq<usize>, n: nat, k: int)
    requires
        lists_all(p, n),
        0 <= k < n,
    ensures
        exists|j: int| 0 <= j < p.len() && #[trigger] p[j] == k,
{
    if !(exists|j: int| 0 <= j < p.len() && #[trigger] p[j] == k) {
        let q = Seq::new(p.len(), |i: int| p[i] as int);
        assert(q.no_duplicates()) by {
            assert forall|i: int, j: int| 0 <= i < q.len() && 0 <= j < q.len() && i != j implies q[i]
                != q[j] by {
                if i < j {
                    assert(p[i] != p[j]);
                } else {
                    assert(p[j] != p[i]);
                }
            }
        }
        q.unique_seq_to_set();
        let room = vstd::set_lib::set_int_range(0, n as int);
        vstd::set_lib::lemma_int_range(0, n as int);
        assert(room.contains(k));
        let less = room.remove(k);
        assert forall|x: int| #[trigger] q.to_set().contains(x) implies less.contains(x) by {
            let j = choose|j: int| 0 <= j < q.len() && q[j] == x;
            assert(p[j] < n);
            assert(p[j] == x);
        }
        vstd::set_lib::lemma_len_subset(q.to_set(), less);
    }
}

/// Sorting keeps every text once: a later one never goes before an earlier one, and of equal ones
/// the one that stood first stays first.
pub proof fn sorting_is_stable(
    keys: Vec<String>,
    descending: bool,
    p: Vec<usize>,
    i: int,
    j: int,
    k: int,
)
    requires
        call_ensures(stable_order, (&keys, descending), p),
        0 <= i < j < p@.len(),
    ensures
        p@.len() == keys@.len(),
        p@[i] < keys@.len() && p@[j] < keys@.len() && p@[i] != p@[j],
        descending ==> !stands_before(keys@[p@[i] as int]@, keys@[p@[j] as int]@),
        !descending ==> !stands_before(keys@[p@[j] as int]@, keys@[p@[i] as int]@),
        keys@[p@[i] as int]@ == keys@[p@[j] as int]@ ==> p@[i] < p@[j],
        0 <= k < keys@.len() ==> exists|x: int| 0 <= x < p@.len() && #[trigger] p@[x] == k,
{
    let a = keys@[p@[i] as int]@;
    let b = keys@[p@[j] as int]@;
    order_is_total(a, b);
    assert(goes_first(a, b, descending) || (a == b && p@[i] < p@[j]));
    if 0 <= k < keys@.len() {
        every_position_is_listed(p@, keys@.len(), k);
    }
}

} // verus!
