//! The dictionary encoder: the distinct values of a batch of texts, and for
//! each text its index among them.

use vstd::prelude::*;
use crate::error::Pod5Error;

verus! {

/// The greatest number of distinct values that a signed 16-bit index can
/// number.
pub const MAX_DICTIONARY: usize = 32768;

/// The values of `values` without repetition, each at the place of its first
/// occurrence.
pub open spec fn distinct(values: Seq<Seq<char>>) -> Seq<Seq<char>>
    decreases values.len(),
{
    if values.len() == 0 {
        Seq::empty()
    } else {
        let before = distinct(values.drop_last());
        if before.contains(values.last()) {
            before
        } else {
            before.push(values.last())
        }
    }
}

/// The index of `value` in a dictionary that holds it.
pub open spec fn position(dictionary: Seq<Seq<char>>, value: Seq<char>) -> int {
    choose|i: int| 0 <= i < dictionary.len() && dictionary[i] == value
}

/// What `distinct` keeps: nothing twice, and exactly the values that it was
/// given.
pub proof fn lemma_distinct(values: Seq<Seq<char>>)
    ensures
        distinct(values).no_duplicates(),
        distinct(values).len() <= values.len(),
        forall|v: Seq<char>| #[trigger] distinct(values).contains(v) <==> values.contains(v),
    decreases values.len(),
{
    if values.len() > 0 {
        let front = values.drop_last();
        let last = values.last();
        lemma_distinct(front);
        let before = distinct(front);
        assert forall|v: Seq<char>| #[trigger] distinct(values).contains(v) <==> values.contains(
            v,
        ) by {
            if values.contains(v) {
                let i = choose|i: int| 0 <= i < values.len() && values[i] == v;
                if i < values.len() - 1 {
                    assert(front[i] == v);
                    assert(front.contains(v));
                    assert(before.contains(v));
                    let j = choose|j: int| 0 <= j < before.len() && before[j] == v;
                    assert(distinct(values)[j] == v);
                } else {
                    if !before.contains(last) {
                        assert(distinct(values)[before.len() as int] == v);
                    }
                }
            }
            if distinct(values).contains(v) {
                let j = choose|j: int| 0 <= j < distinct(values).len() && distinct(values)[j] == v;
                if j < before.len() {
                    assert(before[j] == v);
                    assert(before.contains(v));
                    assert(front.contains(v));
                    let i = choose|i: int| 0 <= i < front.len() && front[i] == v;
                    assert(values[i] == v);
                } else {
                    assert(v == last);
                    assert(values[values.len() - 1] == v);
                }
            }
        }
    }
}

/// Dictionary soundness: the dictionary of a batch holds no value twice, and
/// the index of every value of the batch leads back to that value.
pub proof fn lemma_dictionary_sound(values: Seq<Seq<char>>, i: int)
    requires
        0 <= i < values.len(),
    ensures
        distinct(values).no_duplicates(),
        0 <= position(distinct(values), values[i]) < distinct(values).len(),
        distinct(values)[position(distinct(values), values[i])] == values[i],
{
    lemma_distinct(values);
    assert(values.contains(values[i]));
    assert(distinct(values).contains(values[i]));
}

/// In a dictionary without repetition a value stands at one index only.
proof fn lemma_position_unique(dictionary: Seq<Seq<char>>, i: int)
    requires
        dictionary.no_duplicates(),
        0 <= i < dictionary.len(),
    ensures
        position(dictionary, dictionary[i]) == i,
{
}

/// Looks a value up in a dictionary: its first index, or `None` where the
/// dictionary does not hold it.
pub fn lookup(dictionary: &Vec<String>, value: &String) -> (found: Option<usize>)
    ensures
        match found {
            Some(i) => {
                &&& i < dictionary@.len()
                &&& dictionary@[i as int]@ == value@
                &&& forall|k: int| 0 <= k < i ==> dictionary@[k]@ != value@
            },
            None => !dictionary.deep_view().contains(value@),
        },
{
    let mut i: usize = 0;
    while i < dictionary.len()
        invariant
            i <= dictionary@.len(),
            forall|k: int| 0 <= k < i ==> dictionary@[k]@ != value@,
        decreases dictionary@.len() - i,
    {
        if dictionary[i] == *value {
            return Some(i);
        }
        i += 1;
    }
    assert forall|k: int| 0 <= k < dictionary.deep_view().len() implies dictionary.deep_view()[k]
        != value@ by {
        assert(dictionary.deep_view()[k] == dictionary@[k]@);
    }
    None
}

/// Collects the distinct values of a batch, each at the place of its first
/// occurrence.
pub fn build_dictionary(values: &Vec<String>) -> (dictionary: Vec<String>)
    ensures
        dictionary.deep_view() == distinct(values.deep_view()),
        dictionary.deep_view().no_duplicates(),
{
    let mut dictionary: Vec<String> = Vec::new();
    let mut i: usize = 0;
    let ghost all = values.deep_view();
    assert(dictionary.deep_view() =~= distinct(all.take(0)));
    while i < values.len()
        invariant
            i <= values@.len(),
            all == values.deep_view(),
            dictionary.deep_view() == distinct(all.take(i as int)),
        decreases values@.len() - i,
    {
        let ghost before = dictionary.deep_view();
        let found = lookup(&dictionary, &values[i]);
        proof {
            assert(all.take(i + 1).drop_last() =~= all.take(i as int));
            assert(all.take(i + 1).last() == values@[i as int]@);
        }
        if found.is_none() {
            dictionary.push(values[i].clone());
            assert(dictionary.deep_view() =~= before.push(values@[i as int]@));
        } else {
            assert(before[found.unwrap() as int] == values@[i as int]@);
            assert(before.contains(values@[i as int]@));
        }
        i += 1;
    }
    proof {
        assert(all.take(values@.len() as int) =~= all);
        lemma_distinct(all);
    }
    dictionary
}

/// The index of a value of the batch in the batch's dictionary.
pub(crate) fn key_of(dictionary: &Vec<String>, value: &String) -> (key: i16)
    requires
        dictionary.deep_view().no_duplicates(),
        dictionary.deep_view().contains(value@),
        dictionary@.len() <= MAX_DICTIONARY,
    ensures
        key == position(dictionary.deep_view(), value@),
        0 <= key < dictionary@.len(),
        dictionary@[key as int]@ == value@,
{
    match lookup(dictionary, value) {
        Some(i) => {
            assert(dictionary.deep_view()[i as int] == value@);
            proof {
                lemma_position_unique(dictionary.deep_view(), i as int);
            }
            i as i16
        },
        None => {
            assert(false);
            0
        },
    }
}

/// Encodes one categorical column: the dictionary of its values, and for
/// every row the index of the row's value in the dictionary.
///
/// Fails where the batch has more distinct values than a signed 16-bit index
/// can number.
pub fn encode_column(values: &Vec<String>) -> (result: Result<(Vec<String>, Vec<i16>), Pod5Error>)
    ensures
        result is Ok <==> distinct(values.deep_view()).len() <= MAX_DICTIONARY,
        result matches Ok((dictionary, keys)) ==> {
            &&& dictionary.deep_view() == distinct(values.deep_view())
            &&& keys@.len() == values@.len()
            &&& forall|i: int|
                0 <= i < values@.len() ==> #[trigger] keys@[i] == position(
                    dictionary.deep_view(),
                    values@[i]@,
                )
            &&& forall|i: int|
                0 <= i < values@.len() ==> 0 <= #[trigger] keys@[i] < dictionary@.len()
                    && dictionary@[keys@[i] as int]@ == values@[i]@
        },
        result matches Err(e) ==> e == Pod5Error::DictionaryOverflow,
{
    let dictionary = build_dictionary(values);
    if dictionary.len() > MAX_DICTIONARY {
        return Err(Pod5Error::DictionaryOverflow);
    }
    let mut keys: Vec<i16> = Vec::new();
    let mut i: usize = 0;
    while i < values.len()
        invariant
            i <= values@.len(),
            keys@.len() == i,
            dictionary.deep_view() == distinct(values.deep_view()),
            dictionary.deep_view().no_duplicates(),
            dictionary@.len() <= MAX_DICTIONARY,
            forall|k: int|
                0 <= k < i ==> #[trigger] keys@[k] == position(
                    dictionary.deep_view(),
                    values@[k]@,
                ),
            forall|k: int|
                0 <= k < i ==> 0 <= #[trigger] keys@[k] < dictionary@.len()
                    && dictionary@[keys@[k] as int]@ == values@[k]@,
        decreases values@.len() - i,
    {
        proof {
            lemma_dictionary_sound(values.deep_view(), i as int);
            assert(values.deep_view()[i as int] == values@[i as int]@);
        }
        let key = key_of(&dictionary, &values[i]);
        keys.push(key);
        i += 1;
    }
    Ok((dictionary, keys))
}

} // verus!
