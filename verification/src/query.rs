use vstd::prelude::*;

verus! {

/// A query parameter: a key and its value.
pub type Pair = (Seq<char>, Seq<char>);

/// The pairs that a list of arguments contributes to a query: for each
/// argument that is given, its key with its value, in the order of the keys.
/// An argument that is not given contributes nothing.
pub open spec fn present(keys: Seq<Seq<char>>, values: Seq<Option<Seq<char>>>) -> Seq<Pair>
    decreases keys.len(),
{
    if keys.len() == 0 || values.len() != keys.len() {
        Seq::empty()
    } else {
        let before = present(keys.drop_last(), values.drop_last());
        match values.last() {
            Some(value) => before.push((keys.last(), value)),
            None => before,
        }
    }
}

/// No key stands at two places of `keys`.
pub open spec fn distinct(keys: Seq<Seq<char>>) -> bool {
    forall|i: int, j: int| 0 <= i < j < keys.len() ==> keys[i] != keys[j]
}

/// `key` is the key of some pair of `pairs`.
pub open spec fn has_key(pairs: Seq<Pair>, key: Seq<char>) -> bool {
    exists|j: int| 0 <= j < pairs.len() && (#[trigger] pairs[j]).0 == key
}

/// `pair` stands at exactly one place of `pairs`, and its key is the key of
/// no other pair.
pub open spec fn holds_once(pairs: Seq<Pair>, pair: Pair) -> bool {
    exists|j: int|
        0 <= j < pairs.len() && #[trigger] pairs[j] == pair && forall|k: int|
            0 <= k < pairs.len() && k != j ==> (#[trigger] pairs[k]).0 != pair.0
}

/// Every pair of `present(keys, values)` is the key and the value of a given
/// argument.
pub proof fn lemma_present_from_given(keys: Seq<Seq<char>>, values: Seq<Option<Seq<char>>>, j: int)
    requires
        values.len() == keys.len(),
        0 <= j < present(keys, values).len(),
    ensures
        exists|i: int|
            0 <= i < keys.len() && #[trigger] values[i] == Some(present(keys, values)[j].1)
                && keys[i] == present(keys, values)[j].0,
    decreases keys.len(),
{
    let before = present(keys.drop_last(), values.drop_last());
    if j < before.len() {
        // The pair was there before the last argument was looked at.
        lemma_present_from_given(keys.drop_last(), values.drop_last(), j);
        let i = choose|i: int|
            0 <= i < keys.len() - 1 && #[trigger] values.drop_last()[i] == Some(before[j].1)
                && keys.drop_last()[i] == before[j].0;
        assert(values[i] == Some(present(keys, values)[j].1));
    } else {
        // The pair is that of the last argument.
        assert(values[keys.len() - 1] == Some(present(keys, values)[j].1));
    }
}

/// An argument that is not given leaves no pair under its key, where the
/// keys are distinct.
pub proof fn lemma_absent_has_no_pair(keys: Seq<Seq<char>>, values: Seq<Option<Seq<char>>>, i: int)
    requires
        values.len() == keys.len(),
        distinct(keys),
        0 <= i < keys.len(),
        values[i] is None,
    ensures
        !has_key(present(keys, values), keys[i]),
{
    let pairs = present(keys, values);
    assert forall|j: int| 0 <= j < pairs.len() implies (#[trigger] pairs[j]).0 != keys[i] by {
        lemma_present_from_given(keys, values, j);
    }
}

/// An argument that is given has exactly one pair, its key with its value,
/// where the keys are distinct.
pub proof fn lemma_given_has_one_pair(keys: Seq<Seq<char>>, values: Seq<Option<Seq<char>>>, i: int)
    requires
        values.len() == keys.len(),
        distinct(keys),
        0 <= i < keys.len(),
        values[i] is Some,
    ensures
        holds_once(present(keys, values), (keys[i], values[i]->0)),
    decreases keys.len(),
{
    let pairs = present(keys, values);
    let before = present(keys.drop_last(), values.drop_last());
    let pair = (keys[i], values[i]->0);
    if i == keys.len() - 1 {
        // The pair comes last, and every pair before it has the key of an
        // earlier argument.
        let j = before.len() as int;
        assert(pairs[j] == pair);
        assert forall|k: int| 0 <= k < pairs.len() && k != j implies (#[trigger] pairs[k]).0
            != pair.0 by {
            lemma_present_from_given(keys.drop_last(), values.drop_last(), k);
        }
    } else {
        // The pair stands once among the earlier ones, and the last argument
        // adds at most a pair with another key.
        lemma_given_has_one_pair(keys.drop_last(), values.drop_last(), i);
        let j = choose|j: int|
            0 <= j < before.len() && #[trigger] before[j] == pair && forall|k: int|
                0 <= k < before.len() && k != j ==> (#[trigger] before[k]).0 != pair.0;
        assert(pairs[j] == pair);
    }
}

/// No two pairs of `pairs` have one key.
pub open spec fn unique_keys(pairs: Seq<Pair>) -> bool {
    forall|j: int, k: int|
        0 <= j < k < pairs.len() ==> (#[trigger] pairs[j]).0 != (#[trigger] pairs[k]).0
}

/// Arguments with distinct keys give pairs with distinct keys.
pub proof fn lemma_present_keys_unique(keys: Seq<Seq<char>>, values: Seq<Option<Seq<char>>>)
    requires
        values.len() == keys.len(),
        distinct(keys),
    ensures
        unique_keys(present(keys, values)),
{
    let pairs = present(keys, values);
    assert forall|j: int, k: int| 0 <= j < k < pairs.len() implies (#[trigger] pairs[j]).0
        != (#[trigger] pairs[k]).0 by {
        // The pair at `j` is that of a given argument, which has no second pair.
        lemma_present_from_given(keys, values, j);
        let i = choose|i: int|
            0 <= i < keys.len() && #[trigger] values[i] == Some(pairs[j].1) && keys[i]
                == pairs[j].0;
        lemma_given_has_one_pair(keys, values, i);
    }
}

/// The items of a list written one after the other, with a comma between
/// each two.
pub open spec fn joined(items: Seq<Seq<char>>) -> Seq<char>
    decreases items.len(),
{
    if items.len() == 0 {
        Seq::empty()
    } else if items.len() == 1 {
        items[0]
    } else {
        joined(items.drop_last()) + ","@ + items.last()
    }
}

/// Writes a list of identifiers as one text, separated by commas.
pub fn join(items: &[&str]) -> (list: String)
    ensures
        list@ == joined(items.deep_view()),
{
    let mut list = String::new();
    let mut i: usize = 0;
    while i < items.len()
        invariant
            i <= items.len(),
            list@ == joined(items.deep_view().take(i as int)),
        decreases items.len() - i,
    {
        if i > 0 {
            list.append(",");
        }
        list.append(items[i]);
        proof {
            let done = items.deep_view().take(i + 1);
            assert(done.drop_last() =~= items.deep_view().take(i as int));
        }
        i += 1;
    }
    proof {
        assert(items.deep_view().take(items.len() as int) =~= items.deep_view());
    }
    list
}

} // verus!
