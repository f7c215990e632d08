//! Finding the values that occur more than once in a batch.

use vstd::multiset::Multiset;
use vstd::prelude::*;

verus! {

/// The number of times `x` occurs in `s`.
pub open spec fn occurrences(s: Seq<i8>, x: i8) -> nat
    decreases s.len(),
{
    if s.len() == 0 {
        0
    } else {
        occurrences(s.drop_last(), x) + if s.last() == x { 1nat } else { 0nat }
    }
}

/// Each element of `s` is smaller than every element after it.
pub open spec fn strictly_increasing(s: Seq<i8>) -> bool {
    forall|i: int, j: int| 0 <= i < j < s.len() ==> s[i] < s[j]
}

/// `report` lists, in increasing order and once each, exactly the values
/// that occur more than once in `values`.
pub open spec fn is_repeated_report(values: Seq<i8>, report: Seq<i8>) -> bool {
    &&& strictly_increasing(report)
    &&& forall|x: i8| report.contains(x) <==> occurrences(values, x) > 1
}

/// A value that occurs at least once is an element of the sequence.
pub proof fn lemma_occurring_value_is_present(s: Seq<i8>, x: i8)
    requires
        occurrences(s, x) > 0,
    ensures
        s.contains(x),
    decreases s.len(),
{
    if s.last() == x {
        assert(s[s.len() - 1] == x);
    } else {
        let prefix = s.drop_last();
        lemma_occurring_value_is_present(prefix, x);
        let k = choose|k: int| 0 <= k < prefix.len() && prefix[k] == x;
        assert(s[k] == x);
    }
}

/// How many times `x` occurs in `values`.
fn count_occurrences(values: &[i8], x: i8) -> (n: usize)
    ensures
        n == occurrences(values@, x),
{
    let mut n: usize = 0;
    let mut i: usize = 0;
    while i < values.len()
        invariant
            i <= values.len(),
            n <= i,
            n == occurrences(values@.take(i as int), x),
        decreases values.len() - i,
    {
        assert(values@.take(i + 1).drop_last() == values@.take(i as int));
        if values[i] == x {
            n = n + 1;
        }
        i = i + 1;
    }
    assert(values@.take(values.len() as int) == values@);
    n
}

/// Adds `x` to an increasing list of distinct values, keeping it so.
fn insert_in_order(report: &mut Vec<i8>, x: i8)
    requires
        strictly_increasing(old(report)@),
    ensures
        strictly_increasing(final(report)@),
        forall|y: i8|
            #[trigger] final(report)@.contains(y) <==> (old(report)@.contains(y) || y == x),
{
    let mut p: usize = 0;
    while p < report.len() && report[p] < x
        invariant
            p <= report.len(),
            forall|k: int| 0 <= k < p ==> report@[k] < x,
        decreases report.len() - p,
    {
        p = p + 1;
    }
    if p < report.len() && report[p] == x {
        assert(report@[p as int] == x);
        return;
    }
    let ghost before = report@;
    assert(before == old(report)@);
    report.insert(p, x);
    assert(report@ == before.insert(p as int, x));
    assert forall|i: int, j: int| 0 <= i < j < report@.len() implies report@[i] < report@[j] by {
        if j < p {
        } else if j == p {
        } else if i < p {
            assert(before[i] < x);
            assert(before[p as int] > x);
            assert(before[p as int] <= before[j - 1]);
        } else if i == p {
            assert(before[p as int] > x);
            assert(before[p as int] <= before[j - 1]);
        } else {
        }
    }
    assert forall|y: i8| #[trigger] report@.contains(y) <==> (before.contains(y) || y == x) by {
        if report@.contains(y) {
            let k = choose|k: int| 0 <= k < report@.len() && report@[k] == y;
            if k < p {
                assert(before[k] == y);
            } else if k > p {
                assert(before[k - 1] == y);
            }
        }
        if before.contains(y) {
            let k = choose|k: int| 0 <= k < before.len() && before[k] == y;
            if k < p {
                assert(report@[k] == y);
            } else {
                assert(report@[k + 1] == y);
            }
        }
        if y == x {
            assert(report@[p as int] == x);
        }
    }
}

/// The values that occur more than once in `values`, in increasing order,
/// each listed once.
pub fn find_repeated_values(values: &[i8]) -> (repeated: Vec<i8>)
    ensures
        is_repeated_report(values@, repeated@),
{
    let mut repeated: Vec<i8> = Vec::new();
    let mut i: usize = 0;
    while i < values.len()
        invariant
            i <= values.len(),
            strictly_increasing(repeated@),
            forall|y: i8|
                repeated@.contains(y) <==> (values@.take(i as int).contains(y) && occurrences(
                    values@,
                    y,
                ) > 1),
        decreases values.len() - i,
    {
        let x = values[i];
        if count_occurrences(values, x) > 1 {
            insert_in_order(&mut repeated, x);
        }
        let ghost next = values@.take(i + 1);
        let ghost prev = values@.take(i as int);
        assert forall|y: i8| next.contains(y) <==> (prev.contains(y) || y == x) by {
            if next.contains(y) {
                let k = choose|k: int| 0 <= k < next.len() && next[k] == y;
                if k < i {
                    assert(prev[k] == y);
                }
            }
            if prev.contains(y) {
                let k = choose|k: int| 0 <= k < prev.len() && prev[k] == y;
                assert(next[k] == y);
            }
            if y == x {
                assert(next[i as int] == x);
            }
        }
        i = i + 1;
    }
    assert(values@.take(values.len() as int) == values@);
    assert forall|y: i8| occurrences(values@, y) > 1 implies repeated@.contains(y) by {
        lemma_occurring_value_is_present(values@, y);
    }
    repeated
}

/// Two increasing lists of distinct values that hold the same values are equal.
proof fn lemma_increasing_lists_with_same_values_are_equal(a: Seq<i8>, b: Seq<i8>)
    requires
        strictly_increasing(a),
        strictly_increasing(b),
        forall|x: i8| a.contains(x) <==> b.contains(x),
    ensures
        a == b,
    decreases a.len(),
{
    if a.len() == 0 {
        if b.len() > 0 {
            assert(b.contains(b[0]));
        }
        assert(a =~= b);
    } else {
        assert(a.contains(a[0]));
        let j = choose|j: int| 0 <= j < b.len() && b[j] == a[0];
        assert(b.contains(b[0]));
        let i = choose|i: int| 0 <= i < a.len() && a[i] == b[0];
        assert(a[0] <= a[i]);
        assert(b[0] <= b[j]);
        assert(a[0] == b[0]);
        let ra = a.drop_first();
        let rb = b.drop_first();
        assert forall|x: i8| ra.contains(x) <==> rb.contains(x) by {
            if ra.contains(x) {
                let k = choose|k: int| 0 <= k < ra.len() && ra[k] == x;
                assert(a[k + 1] == x && a[0] < x);
                assert(a.contains(x));
                let m = choose|m: int| 0 <= m < b.len() && b[m] == x;
                assert(m != 0);
                assert(rb[m - 1] == x);
            }
            if rb.contains(x) {
                let k = choose|k: int| 0 <= k < rb.len() && rb[k] == x;
                assert(b[k + 1] == x && b[0] < x);
                assert(b.contains(x));
                let m = choose|m: int| 0 <= m < a.len() && a[m] == x;
                assert(m != 0);
                assert(ra[m - 1] == x);
            }
        }
        lemma_increasing_lists_with_same_values_are_equal(ra, rb);
        assert(a =~= b) by {
            assert forall|k: int| 0 <= k < a.len() implies a[k] == b[k] by {
                if k > 0 {
                    assert(ra[k - 1] == rb[k - 1]);
                }
            }
        }
    }
}

/// `occurrences` is the multiplicity of the value in the multiset of the
/// sequence's elements.
pub proof fn lemma_occurrences_is_multiset_count(s: Seq<i8>, x: i8)
    ensures
        occurrences(s, x) == s.to_multiset().count(x),
    decreases s.len(),
{
    broadcast use vstd::seq_lib::group_to_multiset_ensures;

    if s.len() == 0 {
        assert(s.to_multiset() =~= Multiset::empty());
    } else {
        let prefix = s.drop_last();
        lemma_occurrences_is_multiset_count(prefix, x);
        assert(s == prefix.push(s.last()));
        assert(prefix.push(s.last()).to_multiset() =~= prefix.to_multiset().insert(s.last()));
    }
}

/// The report of repeated values depends only on the batch's values and how
/// many times each occurs, not on the order in which they arrived: two
/// batches that are permutations of each other (the same multiset of values)
/// get the same report.
pub proof fn lemma_repeated_report_ignores_order(
    first: Seq<i8>,
    second: Seq<i8>,
    first_report: Seq<i8>,
    second_report: Seq<i8>,
)
    requires
        first.to_multiset() == second.to_multiset(),
        is_repeated_report(first, first_report),
        is_repeated_report(second, second_report),
    ensures
        first_report == second_report,
{
    assert forall|x: i8| first_report.contains(x) <==> second_report.contains(x) by {
        lemma_occurrences_is_multiset_count(first, x);
        lemma_occurrences_is_multiset_count(second, x);
    }
    lemma_increasing_lists_with_same_values_are_equal(first_report, second_report);
}

/// In an increasing list of distinct values, no value occurs twice.
proof fn lemma_increasing_list_has_no_repeats(s: Seq<i8>, x: i8)
    requires
        strictly_increasing(s),
    ensures
        occurrences(s, x) <= 1,
    decreases s.len(),
{
    if s.len() > 0 {
        let prefix = s.drop_last();
        assert(strictly_increasing(prefix));
        lemma_increasing_list_has_no_repeats(prefix, x);
        if s.last() == x && occurrences(prefix, x) > 0 {
            lemma_occurring_value_is_present(prefix, x);
            let k = choose|k: int| 0 <= k < prefix.len() && prefix[k] == x;
            assert(s[k] < s[s.len() - 1]);
        }
    }
}

/// Reporting the repeated values of a report finds none: each value is
/// reported once.
pub proof fn lemma_report_has_no_repeated_values(values: Seq<i8>, report: Seq<i8>)
    requires
        is_repeated_report(values, report),
    ensures
        is_repeated_report(report, Seq::<i8>::empty()),
{
    assert forall|x: i8| !(occurrences(report, x) > 1) by {
        lemma_increasing_list_has_no_repeats(report, x);
    }
}

} // verus!
