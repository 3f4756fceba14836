//! Field values: the raw value of each field, by the field's key, whichever
//! source they were decoded from.

use crate::container::pairs_view;
use crate::text::str_eq;
use vstd::hash_map::StringHashMap;
use vstd::prelude::*;
use vstd::string::*;

verus! {

/// The raw values of fields, each under the key of its field.
pub struct FieldValues {
    map: StringHashMap<String>,
}

impl View for FieldValues {
    type V = Map<Seq<char>, Seq<char>>;

    closed spec fn view(&self) -> Map<Seq<char>, Seq<char>> {
        self.map@.map_values(|value: String| value@)
    }
}

/// The value that a key has among field values: the empty text where it has
/// none.
pub open spec fn value_of(values: Map<Seq<char>, Seq<char>>, key: Seq<char>) -> Seq<char> {
    if values.contains_key(key) {
        values[key]
    } else {
        Seq::empty()
    }
}

/// A value without the wrapping that some records put around a text: what
/// stands between `string(` and a closing `)`, and any other value as it is.
pub open spec fn unwrapped(value: Seq<char>) -> Seq<char> {
    if "string("@.is_prefix_of(value) && ")"@.is_suffix_of(value) {
        value.subrange(7, value.len() - 1)
    } else {
        value
    }
}

/// The field values that the first `n` pairs of a record give: each pair's
/// value, unwrapped, under the pair's key; of two pairs with one key the
/// later one counts.
pub open spec fn values_of_pairs(pairs: Seq<(Seq<char>, Seq<char>)>, n: nat) -> Map<
    Seq<char>,
    Seq<char>,
>
    decreases n,
{
    if n == 0 {
        Map::empty()
    } else {
        values_of_pairs(pairs, (n - 1) as nat).insert(
            pairs[n - 1].0,
            unwrapped(pairs[n - 1].1),
        )
    }
}

/// Takes the wrapping off a value.
pub fn unwrap_value<'a>(value: &'a str) -> (inner: &'a str)
    ensures
        inner@ == unwrapped(value@),
{
    proof {
        reveal_strlit("string(");
        reveal_strlit(")");
    }
    let n = value.unicode_len();
    if n >= 8 && str_eq(value.substring_char(0, 7), "string(") && value.get_char(n - 1) == ')' {
        assert(value@.subrange(0, 7) == "string("@);
        assert(value@.subrange(n - 1, n as int) =~= ")"@);
        value.substring_char(7, n - 1)
    } else {
        proof {
            if "string("@.is_prefix_of(value@) && ")"@.is_suffix_of(value@) {
                let head = value@.subrange(0, 7);
                let tail = value@.subrange(value@.len() - 1, value@.len() as int);
                assert(head == "string("@);
                assert(tail == ")"@);
                assert(value@[6] == head[6]);
                assert(value@[value@.len() - 1] == tail[0]);
            }
        }
        value
    }
}

impl FieldValues {
    /// No values at all.
    pub fn new() -> (values: Self)
        ensures
            values@ == Map::<Seq<char>, Seq<char>>::empty(),
    {
        let values = FieldValues { map: StringHashMap::new() };
        assert(values@ =~= Map::<Seq<char>, Seq<char>>::empty());
        values
    }

    /// Puts a value under a key, in place of the one that the key had.
    pub fn insert(&mut self, key: &str, value: &str)
        ensures
            final(self)@ == old(self)@.insert(key@, value@),
    {
        self.map.insert(String::from_str(key), String::from_str(value));
        assert(self@ =~= old(self)@.insert(key@, value@));
    }

    /// The value under a key, if the key has one.
    pub fn get(&self, key: &str) -> (value: Option<&str>)
        ensures
            match value {
                Some(text) => self@.contains_key(key@) && text@ == self@[key@],
                None => !self@.contains_key(key@),
            },
    {
        match self.map.get(key) {
            Some(text) => Some(text.as_str()),
            None => None,
        }
    }

    /// The value under a key, or the empty text where the key has none.
    pub fn value(&self, key: &str) -> (text: &str)
        ensures
            text@ == value_of(self@, key@),
    {
        match self.get(key) {
            Some(text) => text,
            None => {
                proof {
                    reveal_strlit("");
                }
                assert(""@ =~= Seq::<char>::empty());
                ""
            },
        }
    }

    /// The values that the pairs of a decoded record give.
    pub fn from_pairs(pairs: &Vec<(String, String)>) -> (values: Self)
        ensures
            values@ == values_of_pairs(pairs_view(pairs@), pairs.len() as nat),
    {
        let mut values = FieldValues::new();
        let mut i: usize = 0;
        while i < pairs.len()
            invariant
                i <= pairs.len(),
                values@ == values_of_pairs(pairs_view(pairs@), i as nat),
            decreases pairs.len() - i,
        {
            let pair = &pairs[i];
            values.insert(pair.0.as_str(), unwrap_value(pair.1.as_str()));
            i += 1;
        }
        values
    }
}

} // verus!
