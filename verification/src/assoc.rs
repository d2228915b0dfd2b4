//! Association lists: vectors of key and value pairs in which the first pair of a key counts.
use crate::text::same;
use vstd::prelude::*;

verus! {

/// The position of the first pair with `key`, or the length of the list.
pub open spec fn key_index<K, V>(list: Seq<(K, V)>, key: K) -> nat
    decreases list.len(),
{
    if list.len() == 0 || list[0].0 == key {
        0
    } else {
        1 + key_index(list.drop_first(), key)
    }
}

/// The value of `key`.
pub open spec fn lookup<K, V>(list: Seq<(K, V)>, key: K) -> Option<V> {
    if key_index(list, key) < list.len() {
        Some(list[key_index(list, key) as int].1)
    } else {
        None
    }
}

/// The list with `value` for `key`: in place where the key is there, else at the end.
pub open spec fn put<K, V>(list: Seq<(K, V)>, key: K, value: V) -> Seq<(K, V)> {
    if key_index(list, key) < list.len() {
        list.update(key_index(list, key) as int, (key, value))
    } else {
        list.push((key, value))
    }
}

/// The list with each pair of `more` put in, in order.
pub open spec fn put_all<K, V>(list: Seq<(K, V)>, more: Seq<(K, V)>) -> Seq<(K, V)>
    decreases more.len(),
{
    if more.len() == 0 {
        list
    } else {
        put(put_all(list, more.drop_last()), more.last().0, more.last().1)
    }
}

/// The list without the pair of `key`, whose place the last pair takes.
pub open spec fn removed<K, V>(list: Seq<(K, V)>, key: K) -> Seq<(K, V)> {
    if key_index(list, key) < list.len() {
        list.update(key_index(list, key) as int, list.last()).drop_last()
    } else {
        list
    }
}

/// [`key_index`] by its defining property.
pub proof fn lemma_key_index<K, V>(list: Seq<(K, V)>, key: K, i: int)
    requires
        0 <= i <= list.len(),
        forall|k: int| 0 <= k < i ==> list[k].0 != key,
        i < list.len() ==> list[i].0 == key,
    ensures
        key_index(list, key) == i,
    decreases list.len(),
{
    if list.len() > 0 && list[0].0 != key {
        lemma_key_index(list.drop_first(), key, i - 1);
    }
}

/// What [`key_index`] is.
pub proof fn lemma_key_index_props<K, V>(list: Seq<(K, V)>, key: K)
    ensures
        key_index(list, key) <= list.len(),
        forall|k: int| 0 <= k < key_index(list, key) ==> list[k].0 != key,
        key_index(list, key) < list.len() ==> list[key_index(list, key) as int].0 == key,
    decreases list.len(),
{
    if list.len() > 0 && list[0].0 != key {
        lemma_key_index_props(list.drop_first(), key);
        assert forall|k: int| 0 <= k < key_index(list, key) implies list[k].0 != key by {
            if k > 0 {
                assert(list[k] == list.drop_first()[k - 1]);
            }
        }
    }
}

/// What was put in is found, and nothing else changes.
pub proof fn lemma_put<K, V>(list: Seq<(K, V)>, key: K, value: V, other: K)
    ensures
        lookup(put(list, key, value), other) == if other == key {
            Some(value)
        } else {
            lookup(list, other)
        },
{
    let after = put(list, key, value);
    let i = key_index(list, key);
    lemma_key_index_props(list, key);
    lemma_key_index_props(list, other);
    let j = key_index(list, other);
    if other == key {
        lemma_key_index(after, key, i as int);
    } else if j < list.len() {
        assert(after[j as int].0 == other);
        lemma_key_index(after, other, j as int);
        assert(i != j);
    } else {
        assert forall|k: int| 0 <= k < after.len() implies after[k].0 != other by {
            if k < list.len() {
                assert(list[k].0 != other);
            }
        }
        lemma_key_index(after, other, after.len() as int);
    }
}

/// What [`put_all`] puts in is found, and nothing else changes.
pub proof fn lemma_put_all<K, V>(list: Seq<(K, V)>, more: Seq<(K, V)>, key: K)
    requires
        distinct(more),
    ensures
        lookup(put_all(list, more), key) == match lookup(more, key) {
            Some(v) => Some(v),
            None => lookup(list, key),
        },
    decreases more.len(),
{
    lemma_key_index_props(more, key);
    if more.len() > 0 {
        let rest = more.drop_last();
        lemma_put_all(list, rest, key);
        lemma_put(put_all(list, rest), more.last().0, more.last().1, key);
        lemma_key_index_props(rest, key);
        let i = key_index(more, key);
        if i < rest.len() {
            lemma_key_index(rest, key, i as int);
        } else {
            lemma_key_index(rest, key, rest.len() as int);
        }
    }
}

/// Whether no key occurs twice.
pub open spec fn distinct<K, V>(list: Seq<(K, V)>) -> bool {
    forall|i: int, j: int|
        0 <= i < j < list.len() ==> (#[trigger] list[i]).0 != (#[trigger] list[j]).0
}

/// [`put`] keeps keys distinct.
pub proof fn lemma_put_distinct<K, V>(list: Seq<(K, V)>, key: K, value: V)
    requires
        distinct(list),
    ensures
        distinct(put(list, key, value)),
{
    lemma_key_index_props(list, key);
    let after = put(list, key, value);
    assert forall|i: int, j: int| 0 <= i < j < after.len() implies (#[trigger] after[i]).0 != (
    #[trigger] after[j]).0 by {
        if j < list.len() {
            assert(list[i].0 != list[j].0);
        } else {
            assert(list[i].0 != key);
        }
    }
}

/// What was taken out is not found any more, and nothing else changes.
pub proof fn lemma_removed<K, V>(list: Seq<(K, V)>, key: K, other: K)
    requires
        distinct(list),
    ensures
        distinct(removed(list, key)),
        lookup(removed(list, key), other) == if other == key {
            None
        } else {
            lookup(list, other)
        },
{
    lemma_key_index_props(list, key);
    lemma_key_index_props(list, other);
    let i = key_index(list, key) as int;
    let j = key_index(list, other) as int;
    let after = removed(list, key);
    if i < list.len() {
        assert forall|a: int| 0 <= a < after.len() implies after[a] == if a == i {
            list[list.len() - 1]
        } else {
            list[a]
        } by {}
        assert forall|a: int, b: int| 0 <= a < b < after.len() implies (#[trigger] after[a]).0 != (
        #[trigger] after[b]).0 by {
            assert(list[a].0 != list[b].0);
            assert(list[a].0 != list[list.len() - 1].0);
            assert(list[b].0 != list[list.len() - 1].0);
        }
        if other == key {
            assert forall|k: int| 0 <= k < after.len() implies after[k].0 != key by {
                if k < i {
                    assert(list[k].0 != list[i].0);
                } else if k > i {
                    assert(list[i].0 != list[k].0);
                } else if i < list.len() - 1 {
                    assert(list[i].0 != list[list.len() - 1].0);
                }
            }
            lemma_key_index(after, key, after.len() as int);
        } else if j == list.len() {
            assert forall|k: int| 0 <= k < after.len() implies after[k].0 != other by {
                assert(list[k].0 != other);
                assert(list[list.len() - 1].0 != other);
            }
            lemma_key_index(after, other, after.len() as int);
        } else {
            let at = if j == list.len() - 1 {
                i
            } else {
                j
            };
            assert(i != j);
            assert(after[at].0 == other);
            assert forall|k: int| 0 <= k < at implies after[k].0 != other by {
                if k == i {
                    assert(list[j].0 != list[list.len() - 1].0);
                } else if k < j {
                    assert(list[k].0 != other);
                }
            }
            lemma_key_index(after, other, at);
        }
    }
}

/// Values that can be copied with nothing lost.
pub trait Duplicate: DeepView + Sized {
    /// A copy with the same model.
    fn duplicate(&self) -> (r: Self)
        ensures
            r.deep_view() == self.deep_view(),
    ;
}

impl Duplicate for String {
    fn duplicate(&self) -> (r: Self) {
        self.clone()
    }
}

impl Duplicate for Option<String> {
    fn duplicate(&self) -> (r: Self) {
        self.clone()
    }
}

/// Copies a list.
pub fn copy_list<T: Duplicate>(list: &Vec<(String, T)>) -> (r: Vec<(String, T)>)
    ensures
        r.deep_view() == list.deep_view(),
{
    let mut r: Vec<(String, T)> = Vec::new();
    let mut i: usize = 0;
    while i < list.len()
        invariant
            i <= list@.len(),
            r@.len() == i,
            forall|k: int|
                0 <= k < i ==> (#[trigger] r@[k]).0@ == list@[k].0@ && r@[k].1.deep_view()
                    == list@[k].1.deep_view(),
        decreases list@.len() - i,
    {
        r.push((list[i].0.clone(), list[i].1.duplicate()));
        i += 1;
    }
    assert(r.deep_view() =~= list.deep_view());
    r
}

/// Copies a list that may be absent.
pub fn copy_optional_list<T: Duplicate>(list: &Option<Vec<(String, T)>>) -> (r: Option<
    Vec<(String, T)>,
>)
    ensures
        r.deep_view() == list.deep_view(),
{
    match list {
        Some(list) => Some(copy_list(list)),
        None => None,
    }
}

/// Finds the first pair with `key`.
pub fn find<T: DeepView>(list: &Vec<(String, T)>, key: &str) -> (r: usize)
    ensures
        r == key_index(list.deep_view(), key@),
        r <= list@.len(),
{
    let ghost model = list.deep_view();
    let mut i: usize = 0;
    while i < list.len()
        invariant
            model == list.deep_view(),
            i <= list@.len(),
            forall|k: int| 0 <= k < i ==> model[k].0 != key@,
        decreases list@.len() - i,
    {
        assert(model[i as int].0 == list@[i as int].0@);
        if same(list[i].0.as_str(), key) {
            proof {
                lemma_key_index(model, key@, i as int);
            }
            return i;
        }
        i += 1;
    }
    proof {
        lemma_key_index(model, key@, i as int);
    }
    i
}

/// The value of `key`.
pub fn get<'a, T: DeepView>(list: &'a Vec<(String, T)>, key: &str) -> (r: Option<&'a T>)
    ensures
        r.deep_view() == lookup(list.deep_view(), key@),
{
    let i = find(list, key);
    if i < list.len() {
        Some(&list[i].1)
    } else {
        None
    }
}

/// Puts `value` in for `key`.
pub fn insert<T: DeepView>(list: &mut Vec<(String, T)>, key: String, value: T)
    ensures
        final(list).deep_view() == put(old(list).deep_view(), key@, value.deep_view()),
{
    let ghost model = list.deep_view();
    let ghost pair = (key@, value.deep_view());
    let i = find(list, key.as_str());
    if i < list.len() {
        list.set(i, (key, value));
        assert(list.deep_view() =~= model.update(i as int, pair));
    } else {
        list.push((key, value));
        assert(list.deep_view() =~= model.push(pair));
    }
}

/// Takes the pair of `key` out; the last pair takes its place.
pub fn remove<T: DeepView>(list: &mut Vec<(String, T)>, key: &str)
    ensures
        final(list).deep_view() == removed(old(list).deep_view(), key@),
{
    let ghost model = list.deep_view();
    let i = find(list, key);
    if i < list.len() {
        list.swap_remove(i);
        assert(list.deep_view() =~= model.update(i as int, model.last()).drop_last());
    }
}

/// Finds the first pair with the number `key`.
pub fn find_number<T: DeepView>(list: &Vec<(u64, T)>, key: u64) -> (r: usize)
    ensures
        r == key_index(list.deep_view(), key),
        r <= list@.len(),
{
    let ghost model = list.deep_view();
    let mut i: usize = 0;
    while i < list.len()
        invariant
            model == list.deep_view(),
            i <= list@.len(),
            forall|k: int| 0 <= k < i ==> model[k].0 != key,
        decreases list@.len() - i,
    {
        assert(model[i as int].0 == list@[i as int].0);
        if list[i].0 == key {
            proof {
                lemma_key_index(model, key, i as int);
            }
            return i;
        }
        i += 1;
    }
    proof {
        lemma_key_index(model, key, i as int);
    }
    i
}

/// Takes the pair of the number `key` out; the last pair takes its place.
pub fn remove_number<T: DeepView>(list: &mut Vec<(u64, T)>, key: u64) -> (r: Option<T>)
    ensures
        final(list).deep_view() == removed(old(list).deep_view(), key),
        r.deep_view() == lookup(old(list).deep_view(), key),
{
    let ghost model = list.deep_view();
    let i = find_number(list, key);
    if i < list.len() {
        let pair = list.swap_remove(i);
        assert(list.deep_view() =~= model.update(i as int, model.last()).drop_last());
        Some(pair.1)
    } else {
        None
    }
}

/// Puts `value` in for the number `key`.
pub fn insert_number<T: DeepView>(list: &mut Vec<(u64, T)>, key: u64, value: T)
    ensures
        final(list).deep_view() == put(old(list).deep_view(), key, value.deep_view()),
{
    let ghost model = list.deep_view();
    let ghost pair = (key, value.deep_view());
    let i = find_number(list, key);
    if i < list.len() {
        list.set(i, (key, value));
        assert(list.deep_view() =~= model.update(i as int, pair));
    } else {
        list.push((key, value));
        assert(list.deep_view() =~= model.push(pair));
    }
}

} // verus!
