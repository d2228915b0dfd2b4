//! Lists of pairs in the order of their keys.
use crate::assoc::Duplicate;
use crate::text::to_chars;
use vstd::prelude::*;

verus! {

/// Whether a string comes before another, character by character. The bytes of the strings are
/// ordered alike.
pub open spec fn less(a: Seq<char>, b: Seq<char>) -> bool
    decreases a.len(),
{
    if b.len() == 0 {
        false
    } else if a.len() == 0 {
        true
    } else if a[0] == b[0] {
        less(a.drop_first(), b.drop_first())
    } else {
        (a[0] as u32) < (b[0] as u32)
    }
}

/// What decides is the first character that differs.
proof fn lemma_less(a: Seq<char>, b: Seq<char>, n: int)
    requires
        0 <= n <= a.len(),
        n <= b.len(),
        forall|i: int| 0 <= i < n ==> a[i] == b[i],
    ensures
        less(a, b) == less(a.skip(n), b.skip(n)),
    decreases n,
{
    if n == 0 {
        assert(a.skip(0) =~= a);
        assert(b.skip(0) =~= b);
    } else {
        assert(a.drop_first().skip(n - 1) =~= a.skip(n));
        assert(b.drop_first().skip(n - 1) =~= b.skip(n));
        lemma_less(a.drop_first(), b.drop_first(), n - 1);
    }
}

/// Whether a string comes before another.
pub fn is_less(a: &str, b: &str) -> (r: bool)
    ensures
        r == less(a@, b@),
{
    let x = to_chars(a);
    let y = to_chars(b);
    let mut i: usize = 0;
    while i < x.len() && i < y.len() && x[i] == y[i]
        invariant
            x@ == a@,
            y@ == b@,
            i <= x@.len(),
            i <= y@.len(),
            forall|k: int| 0 <= k < i ==> x@[k] == y@[k],
        decreases x@.len() - i,
    {
        i += 1;
    }
    proof {
        lemma_less(a@, b@, i as int);
    }
    if i >= y.len() {
        false
    } else if i >= x.len() {
        true
    } else {
        (x[i] as u32) < (y[i] as u32)
    }
}

/// How many pairs at the beginning of a list do not come after a key.
pub open spec fn passed<V>(list: Seq<(Seq<char>, V)>, key: Seq<char>) -> nat
    decreases list.len(),
{
    if list.len() == 0 || less(key, list[0].0) {
        0
    } else {
        1 + passed(list.drop_first(), key)
    }
}

/// The pairs of a list in the order of their keys; those of one key stay in the order of the list.
pub open spec fn by_name<V>(list: Seq<(Seq<char>, V)>) -> Seq<(Seq<char>, V)>
    decreases list.len(),
{
    if list.len() == 0 {
        Seq::empty()
    } else {
        let rest = by_name(list.drop_last());
        rest.insert(passed(rest, list.last().0) as int, list.last())
    }
}

proof fn lemma_passed<V>(list: Seq<(Seq<char>, V)>, key: Seq<char>, i: int)
    requires
        0 <= i <= list.len(),
        forall|k: int| 0 <= k < i ==> !less(key, (#[trigger] list[k]).0),
        i < list.len() ==> less(key, list[i].0),
    ensures
        passed(list, key) == i,
    decreases list.len(),
{
    if list.len() > 0 && !less(key, list[0].0) {
        let rest = list.drop_first();
        assert forall|k: int| 0 <= k < i - 1 implies !less(key, (#[trigger] rest[k]).0) by {
            assert(rest[k] == list[k + 1]);
        }
        lemma_passed(rest, key, i - 1);
    }
}

proof fn lemma_passed_props<V>(list: Seq<(Seq<char>, V)>, key: Seq<char>)
    ensures
        passed(list, key) <= list.len(),
        forall|k: int| 0 <= k < passed(list, key) ==> !less(key, (#[trigger] list[k]).0),
        passed(list, key) < list.len() ==> less(key, list[passed(list, key) as int].0),
    decreases list.len(),
{
    if list.len() > 0 && !less(key, list[0].0) {
        let rest = list.drop_first();
        lemma_passed_props(rest, key);
        assert forall|k: int| 0 <= k < passed(list, key) implies !less(
            key,
            (#[trigger] list[k]).0,
        ) by {
            if k > 0 {
                assert(rest[k - 1] == list[k]);
            }
        }
    }
}

/// The pairs of a list in the order of their keys.
pub fn sort_by_name<T: Duplicate>(list: &Vec<(String, T)>) -> (r: Vec<(String, T)>)
    ensures
        r.deep_view() == by_name(list.deep_view()),
        r@.len() == list@.len(),
{
    let ghost all = list.deep_view();
    let mut r: Vec<(String, T)> = Vec::new();
    let mut i: usize = 0;
    assert(all.take(0) =~= Seq::empty());
    assert(r.deep_view() =~= Seq::empty());
    while i < list.len()
        invariant
            all == list.deep_view(),
            i <= list@.len(),
            r@.len() == i,
            r.deep_view() == by_name(all.take(i as int)),
        decreases list@.len() - i,
    {
        let ghost before = r.deep_view();
        let ghost key = list@[i as int].0@;
        assert(all.take(i + 1).drop_last() =~= all.take(i as int));
        assert(all.take(i + 1).last() == (key, list@[i as int].1.deep_view()));
        let mut at: usize = 0;
        while at < r.len() && !is_less(list[i].0.as_str(), r[at].0.as_str())
            invariant
                i < list@.len(),
                key == list@[i as int].0@,
                before == r.deep_view(),
                at <= r@.len(),
                forall|k: int| 0 <= k < at ==> !less(key, (#[trigger] before[k]).0),
            decreases r@.len() - at,
        {
            assert(before[at as int].0 == r@[at as int].0@);
            at += 1;
        }
        proof {
            if at < r@.len() {
                assert(before[at as int].0 == r@[at as int].0@);
            }
            lemma_passed(before, key, at as int);
        }
        let value = list[i].1.duplicate();
        r.insert(at, (list[i].0.clone(), value));
        assert(r.deep_view() =~= before.insert(at as int, (key, list@[i as int].1.deep_view())));
        i += 1;
    }
    assert(all.take(i as int) =~= all);
    r
}

/// Whether the keys of a list are in order.
pub open spec fn in_order<V>(list: Seq<(Seq<char>, V)>) -> bool {
    forall|i: int, j: int|
        0 <= i < j < list.len() ==> !less((#[trigger] list[j]).0, (#[trigger] list[i]).0)
}

proof fn lemma_less_antisymmetric(a: Seq<char>, b: Seq<char>)
    ensures
        !(less(a, b) && less(b, a)),
    decreases a.len(),
{
    if a.len() > 0 && b.len() > 0 && a[0] == b[0] {
        lemma_less_antisymmetric(a.drop_first(), b.drop_first());
    }
}

/// What comes before a string that comes no later than another does not come after that other.
proof fn lemma_less_transitive(a: Seq<char>, b: Seq<char>, c: Seq<char>)
    requires
        less(a, b),
        !less(c, b),
    ensures
        less(a, c),
    decreases a.len(),
{
    assert(b.len() > 0);
    assert(c.len() > 0);
    if a.len() > 0 {
        if a[0] == b[0] && b[0] == c[0] {
            lemma_less_transitive(a.drop_first(), b.drop_first(), c.drop_first());
        } else if b[0] != c[0] {
            lemma_characters_differ(b[0], c[0]);
            assert((b[0] as u32) < (c[0] as u32));
        }
    }
}

proof fn lemma_characters_differ(a: char, b: char)
    requires
        a != b,
    ensures
        a as u32 != b as u32,
{
}

/// The pairs of a list come out in the order of their keys, and they are the pairs of the list.
pub proof fn law_by_name_is_in_order<V>(list: Seq<(Seq<char>, V)>)
    ensures
        in_order(by_name(list)),
        by_name(list).to_multiset() == list.to_multiset(),
    decreases list.len(),
{
    if list.len() == 0 {
        assert(by_name(list) =~= list);
    } else {
        let rest = by_name(list.drop_last());
        let last = list.last();
        let at = passed(rest, last.0) as int;
        law_by_name_is_in_order(list.drop_last());
        lemma_passed_props(rest, last.0);
        let r = by_name(list);
        assert forall|i: int, j: int| 0 <= i < j < r.len() implies !less(
            (#[trigger] r[j]).0,
            (#[trigger] r[i]).0,
        ) by {
            if j < at {
                assert(r[i] == rest[i] && r[j] == rest[j]);
            } else if j == at {
                assert(r[i] == rest[i] && r[j] == last);
            } else if i < at {
                assert(r[i] == rest[i] && r[j] == rest[j - 1]);
            } else if i == at {
                assert(r[i] == last && r[j] == rest[j - 1]);
                if j - 1 > at {
                    assert(!less(rest[j - 1].0, rest[at].0));
                    lemma_less_transitive(last.0, rest[at].0, rest[j - 1].0);
                }
                lemma_less_antisymmetric(last.0, rest[j - 1].0);
            } else {
                assert(r[i] == rest[i - 1] && r[j] == rest[j - 1]);
            }
        }
        assert(list =~= list.drop_last().push(last));
        vstd::seq_lib::to_multiset_insert(rest, at, last);
        vstd::seq_lib::to_multiset_build(list.drop_last(), last);
    }
}

} // verus!
