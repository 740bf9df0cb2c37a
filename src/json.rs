//! Flat JSON objects whose values are all strings: the shape of every
//! message on the wire. Reading and writing the text is serde_json's work.
use std::collections::BTreeMap;
use vstd::prelude::*;

verus! {

/// A flat JSON object: each key maps to a string.
pub type Fields = Map<Seq<char>, Seq<char>>;

/// The object that a list of key/value pairs stands for.
pub open spec fn fields_of(pairs: Seq<(Seq<char>, Seq<char>)>) -> Fields {
    Map::new(
        |k: Seq<char>| exists|i: int| 0 <= i < pairs.len() && pairs[i].0 == k,
        |k: Seq<char>| pairs[choose|i: int| 0 <= i < pairs.len() && pairs[i].0 == k].1,
    )
}

/// No key occurs twice.
pub open spec fn keys_distinct(pairs: Seq<(Seq<char>, Seq<char>)>) -> bool {
    forall|i: int, j: int|
        0 <= i < pairs.len() && 0 <= j < pairs.len() && #[trigger] pairs[i].0 == #[trigger] pairs[j].0
            ==> i == j
}

pub open spec fn pairs_view(v: Seq<(String, String)>) -> Seq<(Seq<char>, Seq<char>)> {
    v.map_values(|p: (String, String)| (p.0@, p.1@))
}

/// The bytes that serde_json writes for an object of string fields.
pub uninterp spec fn json_object_bytes(fields: Fields) -> Seq<u8>;

/// The object of string fields that serde_json reads from the bytes, if any.
pub uninterp spec fn parsed_json_object(bytes: Seq<u8>) -> Option<Fields>;

/// Relies on `serde_json::to_vec` over a `BTreeMap<&str, &str>`: the text of
/// the object depends on its fields alone (the map orders the keys), and a map
/// with string keys always serialises.
#[verifier::external_body]
pub(crate) fn write_object(pairs: &Vec<(String, String)>) -> (r: Vec<u8>)
    requires
        keys_distinct(pairs_view(pairs@)),
    ensures
        r@ == json_object_bytes(fields_of(pairs_view(pairs@))),
{
    let map: BTreeMap<&str, &str> = pairs.iter().map(|p| (p.0.as_str(), p.1.as_str())).collect();
    serde_json::to_vec(&map).unwrap_or_default()
}

/// Relies on `serde_json::from_slice` into a `BTreeMap<String, String>`: it
/// succeeds exactly on a JSON object whose values are all strings, yields each
/// key once, and reads back what `serde_json::to_vec` wrote for such a map.
#[verifier::external_body]
pub(crate) fn read_object(bytes: &[u8]) -> (r: Option<Vec<(String, String)>>)
    ensures
        match r {
            None => parsed_json_object(bytes@) is None,
            Some(v) => keys_distinct(pairs_view(v@)) && parsed_json_object(bytes@) == Some(
                fields_of(pairs_view(v@)),
            ),
        },
        forall|m: Fields|
            m.dom().finite() && #[trigger] json_object_bytes(m) == bytes@ ==> (r is Some
                && fields_of(pairs_view(r->Some_0@)) == m),
{
    serde_json::from_slice::<BTreeMap<String, String>>(bytes).ok().map(|m| m.into_iter().collect())
}

/// Appends one field whose key the object does not hold yet.
pub fn push_field(pairs: &mut Vec<(String, String)>, key: &str, value: String)
    requires
        keys_distinct(pairs_view(old(pairs)@)),
        !fields_of(pairs_view(old(pairs)@)).contains_key(key@),
    ensures
        keys_distinct(pairs_view(final(pairs)@)),
        fields_of(pairs_view(final(pairs)@)) == fields_of(pairs_view(old(pairs)@)).insert(
            key@,
            value@,
        ),
{
    let ghost before = pairs_view(pairs@);
    let ghost v = value@;
    pairs.push((key.to_owned(), value));
    proof {
        let after = pairs_view(pairs@);
        let n = before.len() as int;
        assert(after =~= before.push((key@, v)));
        assert forall|i: int, j: int|
            0 <= i < after.len() && 0 <= j < after.len() && #[trigger] after[i].0
                == #[trigger] after[j].0 implies i == j by {
            if i < n && j < n {
                assert(before[i].0 == before[j].0);
            } else if i < n {
                assert(before[i].0 == key@);
            } else if j < n {
                assert(before[j].0 == key@);
            }
        }
        let target = fields_of(before).insert(key@, v);
        assert forall|k: Seq<char>|
            #[trigger] fields_of(after).contains_key(k) <==> target.contains_key(k) by {
            if k != key@ {
                if fields_of(after).contains_key(k) {
                    let j = choose|j: int| 0 <= j < after.len() && after[j].0 == k;
                    assert(before[j].0 == k);
                }
                if fields_of(before).contains_key(k) {
                    let j = choose|j: int| 0 <= j < before.len() && before[j].0 == k;
                    assert(after[j].0 == k);
                }
            } else {
                assert(after[n].0 == key@);
            }
        }
        assert forall|k: Seq<char>| #[trigger]
            fields_of(after).contains_key(k) implies fields_of(after)[k] == target[k] by {
            let j = choose|j: int| 0 <= j < after.len() && after[j].0 == k;
            if k == key@ {
                assert(after[n].0 == k);
            } else {
                assert(after[j].0 == k);
                assert(before[j].0 == k);
                let j2 = choose|j2: int| 0 <= j2 < before.len() && before[j2].0 == k;
                assert(after[j2].0 == k);
            }
        }
        assert(fields_of(after) =~= target);
    }
}

/// The value of `key` in the object that `pairs` stands for.
pub fn field(pairs: &Vec<(String, String)>, key: &String) -> (r: Option<String>)
    requires
        keys_distinct(pairs_view(pairs@)),
    ensures
        match r {
            None => !fields_of(pairs_view(pairs@)).contains_key(key@),
            Some(v) => fields_of(pairs_view(pairs@)).contains_key(key@) && fields_of(
                pairs_view(pairs@),
            )[key@] == v@,
        },
{
    let ghost pv = pairs_view(pairs@);
    let mut i: usize = 0;
    while i < pairs.len()
        invariant
            0 <= i <= pairs.len(),
            pv == pairs_view(pairs@),
            keys_distinct(pv),
            forall|j: int| 0 <= j < i ==> pv[j].0 != key@,
        decreases pairs.len() - i,
    {
        if pairs[i].0 == *key {
            let v = pairs[i].1.clone();
            proof {
                assert(pv[i as int].0 == key@);
                assert(exists|j: int| 0 <= j < pv.len() && pv[j].0 == key@);
                let c = choose|j: int| 0 <= j < pv.len() && pv[j].0 == key@;
                assert(pv[c].0 == pv[i as int].0);
            }
            return Some(v);
        }
        i += 1;
    }
    None
}

} // verus!
