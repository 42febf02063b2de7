//! Lists of values under distinct text keys, read as maps.
use crate::text::same_text;
use vstd::prelude::*;

verus! {

/// No key occurs twice.
pub open spec fn distinct<V>(s: Seq<(String, V)>) -> bool {
    forall|i: int, j: int| 0 <= i < j < s.len() ==> (#[trigger] s[i]).0@ != (#[trigger] s[j]).0@
}

/// The key stands at position `i`.
pub open spec fn key_at<V>(s: Seq<(String, V)>, key: Seq<char>, i: int) -> bool {
    0 <= i < s.len() && s[i].0@ == key
}

/// The key occurs.
pub open spec fn has_key<V>(s: Seq<(String, V)>, key: Seq<char>) -> bool {
    exists|i: int| key_at(s, key, i)
}

/// What stands under each key.
pub open spec fn as_map<V: View>(s: Seq<(String, V)>) -> Map<Seq<char>, V::V> {
    Map::new(
        |key: Seq<char>| has_key(s, key),
        |key: Seq<char>| s[choose|i: int| key_at(s, key, i)].1@,
    )
}

pub proof fn lemma_map_at<V: View>(s: Seq<(String, V)>, i: int)
    requires
        distinct(s),
        0 <= i < s.len(),
    ensures
        as_map(s).contains_key(s[i].0@),
        as_map(s)[s[i].0@] == s[i].1@,
{
    let key = s[i].0@;
    assert(key_at(s, key, i));
    let k = choose|k: int| key_at(s, key, k);
    if k < i {
        assert(s[k].0@ != s[i].0@);
    } else if i < k {
        assert(s[i].0@ != s[k].0@);
    }
}

pub proof fn lemma_map_absent<V: View>(s: Seq<(String, V)>, key: Seq<char>)
    requires
        forall|i: int| 0 <= i < s.len() ==> (#[trigger] s[i]).0@ != key,
    ensures
        !as_map(s).contains_key(key),
{
}

pub proof fn lemma_map_update<V: View>(s: Seq<(String, V)>, t: Seq<(String, V)>, i: int)
    requires
        distinct(s),
        0 <= i < s.len(),
        t.len() == s.len(),
        t[i].0@ == s[i].0@,
        forall|k: int| 0 <= k < s.len() && k != i ==> t[k] == #[trigger] s[k],
    ensures
        distinct(t),
        as_map(t) == as_map(s).insert(s[i].0@, t[i].1@),
{
    assert forall|a: int, b: int| 0 <= a < b < t.len() implies (#[trigger] t[a]).0@ != (
    #[trigger] t[b]).0@ by {
        assert(s[a].0@ != s[b].0@);
    }
    let expected = as_map(s).insert(s[i].0@, t[i].1@);
    assert forall|key: Seq<char>| #[trigger]
        as_map(t).contains_key(key) == expected.contains_key(key) by {
        if as_map(t).contains_key(key) {
            let k = choose|k: int| key_at(t, key, k);
            lemma_map_at(s, k);
        }
        if expected.contains_key(key) {
            if key == s[i].0@ {
                assert(key_at(t, key, i));
            } else {
                let k = choose|k: int| key_at(s, key, k);
                assert(key_at(t, key, k));
            }
        }
    }
    assert forall|key: Seq<char>| #[trigger] as_map(t).contains_key(key) implies as_map(t)[key]
        == expected[key] by {
        let k = choose|k: int| key_at(t, key, k);
        lemma_map_at(t, k);
        lemma_map_at(s, k);
        if k < i {
            assert(s[k].0@ != s[i].0@);
        } else if i < k {
            assert(s[i].0@ != s[k].0@);
        }
    }
    assert(as_map(t) =~= expected);
}

pub proof fn lemma_map_push<V: View>(s: Seq<(String, V)>, entry: (String, V))
    requires
        distinct(s),
        !as_map(s).contains_key(entry.0@),
    ensures
        distinct(s.push(entry)),
        as_map(s.push(entry)) == as_map(s).insert(entry.0@, entry.1@),
{
    let t = s.push(entry);
    assert forall|a: int, b: int| 0 <= a < b < t.len() implies (#[trigger] t[a]).0@ != (
    #[trigger] t[b]).0@ by {
        if b == s.len() {
            lemma_map_at(s, a);
        } else {
            assert(s[a].0@ != s[b].0@);
        }
    }
    let expected = as_map(s).insert(entry.0@, entry.1@);
    assert forall|key: Seq<char>| #[trigger]
        as_map(t).contains_key(key) == expected.contains_key(key) by {
        if as_map(t).contains_key(key) {
            let k = choose|k: int| key_at(t, key, k);
            if k < s.len() {
                lemma_map_at(s, k);
            }
        }
        if expected.contains_key(key) {
            if key == entry.0@ {
                assert(key_at(t, key, s.len() as int));
            } else {
                let k = choose|k: int| key_at(s, key, k);
                assert(key_at(t, key, k));
            }
        }
    }
    assert forall|key: Seq<char>| #[trigger] as_map(t).contains_key(key) implies as_map(t)[key]
        == expected[key] by {
        let k = choose|k: int| key_at(t, key, k);
        lemma_map_at(t, k);
        if k < s.len() {
            lemma_map_at(s, k);
        }
    }
    assert(as_map(t) =~= expected);
}

pub proof fn lemma_map_remove<V: View>(s: Seq<(String, V)>, i: int)
    requires
        distinct(s),
        0 <= i < s.len(),
    ensures
        distinct(s.remove(i)),
        as_map(s.remove(i)) == as_map(s).remove(s[i].0@),
{
    let t = s.remove(i);
    assert forall|a: int, b: int| 0 <= a < b < t.len() implies (#[trigger] t[a]).0@ != (
    #[trigger] t[b]).0@ by {
        let x = if a < i { a } else { a + 1 };
        let y = if b < i { b } else { b + 1 };
        assert(s[x].0@ != s[y].0@);
    }
    let expected = as_map(s).remove(s[i].0@);
    assert forall|key: Seq<char>| #[trigger]
        as_map(t).contains_key(key) == expected.contains_key(key) by {
        if as_map(t).contains_key(key) {
            let k = choose|k: int| key_at(t, key, k);
            let x = if k < i { k } else { k + 1 };
            lemma_map_at(s, x);
            if x < i {
                assert(s[x].0@ != s[i].0@);
            } else {
                assert(s[i].0@ != s[x].0@);
            }
        }
        if expected.contains_key(key) {
            let k = choose|k: int| key_at(s, key, k);
            let x = if k < i { k } else { k - 1 };
            assert(key_at(t, key, x));
        }
    }
    assert forall|key: Seq<char>| #[trigger] as_map(t).contains_key(key) implies as_map(t)[key]
        == expected[key] by {
        let k = choose|k: int| key_at(t, key, k);
        lemma_map_at(t, k);
        lemma_map_at(s, if k < i { k } else { k + 1 });
    }
    assert(as_map(t) =~= expected);
}

/// The position of a key.
pub fn find_key<V: View>(list: &Vec<(String, V)>, key: &str) -> (r: Option<usize>)
    requires
        distinct(list@),
    ensures
        r is Some <==> as_map(list@).contains_key(key@),
        r matches Some(i) ==> i < list.len() && list@[i as int].0@ == key@ && as_map(list@)[key@]
            == list@[i as int].1@,
{
    let mut i: usize = 0;
    while i < list.len()
        invariant
            i <= list.len(),
            distinct(list@),
            forall|k: int| 0 <= k < i ==> (#[trigger] list@[k]).0@ != key@,
        decreases list.len() - i,
    {
        if same_text(list[i].0.as_str(), key) {
            proof {
                lemma_map_at(list@, i as int);
            }
            return Some(i);
        }
        i = i + 1;
    }
    proof {
        lemma_map_absent(list@, key@);
    }
    None
}

} // verus!
