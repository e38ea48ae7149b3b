//! Records of named fields in their JSON form: maps from a name to a byte
//! string, written as an array of numbers, or from a name to a text.

use std::collections::BTreeMap;
use vstd::prelude::*;

verus! {

/// The fields of the JSON map of byte strings that `text` is, in the order
/// of their names; `None` where `text` is no such map.
pub uninterp spec fn json_blob_fields(text: Seq<u8>) -> Option<Seq<(Seq<char>, Seq<u8>)>>;

/// The fields of the JSON map of texts that `text` is, in the order of
/// their names; `None` where `text` is no such map.
pub uninterp spec fn json_text_fields(text: Seq<u8>) -> Option<Seq<(Seq<char>, Seq<char>)>>;

/// The JSON map that holds `fields`.
pub uninterp spec fn json_of_blob_fields(fields: Seq<(Seq<char>, Seq<u8>)>) -> Seq<u8>;

/// Runs `serde_json::from_slice` for a `BTreeMap<String, Vec<u8>>` and hands
/// out the entries of the map in its own order. What comes out depends on
/// the text alone: it is named, and nothing else is claimed of it.
#[verifier::external_body]
fn parse_blob_fields(text: &[u8]) -> (r: Option<Vec<(String, Vec<u8>)>>)
    ensures
        r.deep_view() == json_blob_fields(text@),
{
    serde_json::from_slice::<BTreeMap<String, Vec<u8>>>(text).ok().map(|m| m.into_iter().collect())
}

/// Runs `serde_json::from_slice` for a `BTreeMap<String, String>` and hands
/// out the entries of the map in its own order. What comes out depends on
/// the text alone: it is named, and nothing else is claimed of it.
#[verifier::external_body]
fn parse_text_fields(text: &[u8]) -> (r: Option<Vec<(String, String)>>)
    ensures
        r.deep_view() == json_text_fields(text@),
{
    serde_json::from_slice::<BTreeMap<String, String>>(text).ok().map(|m| m.into_iter().collect())
}

/// Runs `serde_json::to_vec` on the `BTreeMap` of the fields, which it
/// cannot refuse: every key is a text. What comes out depends on the fields
/// alone: it is named, and nothing else is claimed of it.
#[verifier::external_body]
fn render_blob_fields(fields: &Vec<(String, Vec<u8>)>) -> (out: Vec<u8>)
    ensures
        out@ == json_of_blob_fields(fields.deep_view()),
{
    let map: BTreeMap<&String, &Vec<u8>> = fields.iter().map(|f| (&f.0, &f.1)).collect();
    serde_json::to_vec(&map).expect("a map from text to bytes has a JSON form")
}

/// The names and the values of byte-string fields, as the contracts speak
/// of them.
pub open spec fn blob_fields_view(fields: Seq<(String, Vec<u8>)>) -> Seq<(Seq<char>, Seq<u8>)> {
    Seq::new(fields.len(), |i: int| (fields[i].0@, fields[i].1@))
}

/// The names and the values of text fields, as the contracts speak of them.
pub open spec fn text_fields_view(fields: Seq<(String, String)>) -> Seq<(Seq<char>, Seq<char>)> {
    Seq::new(fields.len(), |i: int| (fields[i].0@, fields[i].1@))
}

/// The view of byte-string fields is what the fields hold through and
/// through.
proof fn lemma_blob_fields_view(fields: Vec<(String, Vec<u8>)>)
    ensures
        fields.deep_view() == blob_fields_view(fields@),
{
    assert forall|i: int| 0 <= i < fields@.len() implies fields.deep_view()[i]
        == blob_fields_view(fields@)[i] by {
        assert(fields@[i].1.deep_view() =~= fields@[i].1@);
    }
    assert(fields.deep_view() =~= blob_fields_view(fields@));
}

/// Reads a JSON map from names to byte strings.
pub fn read_blob_fields(text: &[u8]) -> (r: Option<Vec<(String, Vec<u8>)>>)
    ensures
        match r {
            Some(fields) => json_blob_fields(text@) == Some(blob_fields_view(fields@)),
            None => json_blob_fields(text@) is None,
        },
{
    let r = parse_blob_fields(text);
    proof {
        if let Some(fields) = &r {
            lemma_blob_fields_view(*fields);
        }
    }
    r
}

/// Reads a JSON map from names to texts.
pub fn read_text_fields(text: &[u8]) -> (r: Option<Vec<(String, String)>>)
    ensures
        match r {
            Some(fields) => json_text_fields(text@) == Some(text_fields_view(fields@)),
            None => json_text_fields(text@) is None,
        },
{
    let r = parse_text_fields(text);
    proof {
        if let Some(fields) = &r {
            assert(fields.deep_view() =~= text_fields_view(fields@));
        }
    }
    r
}

/// Writes a JSON map from names to byte strings.
pub fn write_blob_fields(fields: &Vec<(String, Vec<u8>)>) -> (out: Vec<u8>)
    ensures
        out@ == json_of_blob_fields(blob_fields_view(fields@)),
{
    proof {
        lemma_blob_fields_view(*fields);
    }
    render_blob_fields(fields)
}

/// The place of the first field called `name`, if there is one.
pub open spec fn first_named<V>(fields: Seq<(Seq<char>, V)>, name: Seq<char>) -> Option<int>
    decreases fields.len(),
{
    if fields.len() == 0 {
        None
    } else if fields[0].0 == name {
        Some(0)
    } else {
        match first_named(fields.drop_first(), name) {
            Some(i) => Some(i + 1),
            None => None,
        }
    }
}

/// What the first field called `name` holds, if there is one.
pub open spec fn field_named<V>(fields: Seq<(Seq<char>, V)>, name: Seq<char>) -> Option<V> {
    match first_named(fields, name) {
        Some(i) => Some(fields[i].1),
        None => None,
    }
}

/// Where a name is found, a field of that name stands there, and none
/// stands before it; where it is not found, no field has that name.
pub proof fn lemma_first_named<V>(fields: Seq<(Seq<char>, V)>, name: Seq<char>)
    ensures
        match first_named(fields, name) {
            Some(i) => {
                &&& 0 <= i < fields.len()
                &&& fields[i].0 == name
                &&& forall|j: int| 0 <= j < i ==> fields[j].0 != name
            },
            None => forall|j: int| 0 <= j < fields.len() ==> fields[j].0 != name,
        },
    decreases fields.len(),
{
    if fields.len() > 0 && fields[0].0 != name {
        let rest = fields.drop_first();
        lemma_first_named(rest, name);
        match first_named(rest, name) {
            Some(i) => {
                assert forall|j: int| 0 <= j < i + 1 implies fields[j].0 != name by {
                    if j > 0 {
                        assert(fields[j] == rest[j - 1]);
                    }
                }
            },
            None => {
                assert forall|j: int| 0 <= j < fields.len() implies fields[j].0 != name by {
                    if j > 0 {
                        assert(fields[j] == rest[j - 1]);
                    }
                }
            },
        }
    }
}

/// The first place `i` at which a field called `name` stands is the place
/// that `first_named` gives.
pub proof fn lemma_first_named_at<V>(fields: Seq<(Seq<char>, V)>, name: Seq<char>, i: int)
    requires
        0 <= i < fields.len(),
        fields[i].0 == name,
        forall|j: int| 0 <= j < i ==> fields[j].0 != name,
    ensures
        first_named(fields, name) == Some(i),
{
    lemma_first_named(fields, name);
}

/// Finds the first byte-string field called `name`.
pub fn find_blob<'a>(fields: &'a Vec<(String, Vec<u8>)>, name: &str) -> (r: Option<&'a Vec<u8>>)
    ensures
        match r {
            Some(v) => field_named(blob_fields_view(fields@), name@) == Some(v@),
            None => field_named(blob_fields_view(fields@), name@) is None,
        },
{
    let key: String = name.to_owned();
    let ghost view = blob_fields_view(fields@);
    let mut i: usize = 0;
    while i < fields.len()
        invariant
            i <= fields@.len(),
            key@ == name@,
            view == blob_fields_view(fields@),
            forall|j: int| 0 <= j < i ==> view[j].0 != name@,
        decreases fields@.len() - i,
    {
        if fields[i].0 == key {
            proof {
                lemma_first_named_at(view, name@, i as int);
            }
            return Some(&fields[i].1);
        }
        i += 1;
    }
    proof {
        lemma_first_named(view, name@);
    }
    None
}

/// Finds the first text field called `name`.
pub fn find_text<'a>(fields: &'a Vec<(String, String)>, name: &str) -> (r: Option<&'a String>)
    ensures
        match r {
            Some(v) => field_named(text_fields_view(fields@), name@) == Some(v@),
            None => field_named(text_fields_view(fields@), name@) is None,
        },
{
    let key: String = name.to_owned();
    let ghost view = text_fields_view(fields@);
    let mut i: usize = 0;
    while i < fields.len()
        invariant
            i <= fields@.len(),
            key@ == name@,
            view == text_fields_view(fields@),
            forall|j: int| 0 <= j < i ==> view[j].0 != name@,
        decreases fields@.len() - i,
    {
        if fields[i].0 == key {
            proof {
                lemma_first_named_at(view, name@, i as int);
            }
            return Some(&fields[i].1);
        }
        i += 1;
    }
    proof {
        lemma_first_named(view, name@);
    }
    None
}

} // verus!
