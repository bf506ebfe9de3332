//! The JSON boundary: decoding batch key specs and encoding address lists.
//!
//! JSON itself is an external codec here, never reimplemented.  What the
//! codec returns for a given text is a function of that text alone, so each
//! step of the decoding carries a name, and the decoded key specs are
//! pinned to those names; everything computed from them is verified
//! downstream for every possible value.

use vstd::prelude::*;

use crate::hidden::HiddenServiceKeySpec;

verus! {

#[verifier::external_type_specification]
#[verifier::external_body]
pub struct ExJsonValue(serde_json::Value);

/// The element values of the JSON array a string parses as, `None` when
/// the string is not a JSON array; parsing depends on the string alone.
pub uninterp spec fn json_values_of(s: Seq<char>) -> Option<Seq<serde_json::Value>>;

/// Whether a JSON value is an object.
pub uninterp spec fn json_is_object_of(v: serde_json::Value) -> bool;

/// A JSON object's field under a key, read as a string: `None` when the
/// field is absent or null, `Some(None)` when it holds a value of another
/// type, `Some(Some(text))` when it holds a string.
pub uninterp spec fn json_string_field_of(v: serde_json::Value, key: Seq<char>) -> Option<
    Option<String>,
>;

/// A JSON object's field under a key, read as a boolean, in the same
/// three-way shape.
pub uninterp spec fn json_bool_field_of(v: serde_json::Value, key: Seq<char>) -> Option<
    Option<bool>,
>;

/// Relies on serde_json::from_str: a JSON array parses into its element
/// values; anything else is refused.
#[verifier::external_body]
fn json_parse_array(s: &str) -> (r: Option<Vec<serde_json::Value>>)
    ensures
        r is Some <==> json_values_of(s@) is Some,
        r matches Some(v) ==> Some(v@) == json_values_of(s@),
{
    serde_json::from_str::<Vec<serde_json::Value>>(s).ok()
}

/// Relies on serde_json::Value::is_object.
#[verifier::external_body]
fn json_is_object(v: &serde_json::Value) -> (r: bool)
    ensures
        r == json_is_object_of(*v),
{
    v.is_object()
}

/// Relies on serde_json::Value::get, Value::is_null and Value::as_str: an
/// absent or null field gives `None`, a string field `Some(Some(text))`,
/// a field of any other type `Some(None)`.
#[verifier::external_body]
fn json_field_string(v: &serde_json::Value, key: &str) -> (r: Option<Option<String>>)
    ensures
        r == json_string_field_of(*v, key@),
{
    match v.get(key) {
        None => None,
        Some(f) => if f.is_null() {
            None
        } else {
            match f.as_str() {
                Some(x) => Some(Some(x.to_string())),
                None => Some(None),
            }
        },
    }
}

/// Relies on serde_json::Value::get, Value::is_null and Value::as_bool: an
/// absent or null field gives `None`, a boolean field `Some(Some(b))`, a
/// field of any other type `Some(None)`.
#[verifier::external_body]
fn json_field_bool(v: &serde_json::Value, key: &str) -> (r: Option<Option<bool>>)
    ensures
        r == json_bool_field_of(*v, key@),
{
    match v.get(key) {
        None => None,
        Some(f) => if f.is_null() {
            None
        } else {
            match f.as_bool() {
                Some(b) => Some(Some(b)),
                None => Some(None),
            }
        },
    }
}

/// A field read is acceptable unless the field is present with a wrongly
/// typed value.
pub open spec fn string_field_ok(f: Option<Option<String>>) -> bool {
    !(f matches Some(None))
}

/// The value an acceptable string field contributes to a spec.
pub open spec fn string_field_value(f: Option<Option<String>>) -> Option<String> {
    match f {
        Some(Some(x)) => Some(x),
        _ => None,
    }
}

/// A boolean field read is acceptable unless the field is present with a
/// wrongly typed value.
pub open spec fn bool_field_ok(f: Option<Option<bool>>) -> bool {
    !(f matches Some(None))
}

/// The value an acceptable boolean field contributes to a spec.
pub open spec fn bool_field_value(f: Option<Option<bool>>) -> Option<bool> {
    match f {
        Some(Some(b)) => Some(b),
        _ => None,
    }
}

/// The key spec one JSON value stands for: `None` when the value is not an
/// object or a known field holds a wrongly typed value.
pub open spec fn spec_parse_one(v: serde_json::Value) -> Option<HiddenServiceKeySpec> {
    if json_is_object_of(v) && string_field_ok(json_string_field_of(v, "onion"@))
        && string_field_ok(json_string_field_of(v, "seed_hex"@)) && string_field_ok(
        json_string_field_of(v, "pub_hex"@),
    ) && bool_field_ok(json_bool_field_of(v, "generate"@)) {
        Some(
            HiddenServiceKeySpec {
                onion: string_field_value(json_string_field_of(v, "onion"@)),
                seed_hex: string_field_value(json_string_field_of(v, "seed_hex"@)),
                pub_hex: string_field_value(json_string_field_of(v, "pub_hex"@)),
                generate: bool_field_value(json_bool_field_of(v, "generate"@)),
            },
        )
    } else {
        None
    }
}

/// The key specs a sequence of JSON values stands for; one bad value
/// refuses the whole batch.
pub open spec fn spec_parse_specs(vs: Seq<serde_json::Value>) -> Option<
    Seq<HiddenServiceKeySpec>,
>
    decreases vs.len(),
{
    if vs.len() == 0 {
        Some(Seq::empty())
    } else {
        match spec_parse_specs(vs.drop_last()) {
            Some(rest) => match spec_parse_one(vs.last()) {
                Some(ks) => Some(rest.push(ks)),
                None => None,
            },
            None => None,
        }
    }
}

/// The key specs a JSON text stands for: the decoded array, every element
/// a well-formed spec; `None` otherwise.
pub open spec fn spec_parsed_key_specs(s: Seq<char>) -> Option<Seq<HiddenServiceKeySpec>> {
    match json_values_of(s) {
        Some(vs) => spec_parse_specs(vs),
        None => None,
    }
}

/// One bad element refuses the whole sequence.
proof fn lemma_parse_specs_failure(vs: Seq<serde_json::Value>, i: int)
    requires
        0 <= i < vs.len(),
        spec_parse_one(vs[i]) is None,
    ensures
        spec_parse_specs(vs) is None,
    decreases vs.len(),
{
    if i < vs.len() - 1 {
        assert(vs.drop_last()[i] == vs[i]);
        lemma_parse_specs_failure(vs.drop_last(), i);
    }
}

/// Decodes a batch of key specs from JSON text: an array of objects whose
/// known fields, where present and not null, must be strings (a boolean
/// for `generate`).  Any other shape refuses the whole batch, which
/// callers treat as "no usable specs".
pub fn parse_key_specs(s: &str) -> (r: Option<Vec<HiddenServiceKeySpec>>)
    ensures
        r is Some <==> spec_parsed_key_specs(s@) is Some,
        r matches Some(v) ==> Some(v@) == spec_parsed_key_specs(s@),
{
    let arr = match json_parse_array(s) {
        Some(a) => a,
        None => {
            return None;
        },
    };
    let mut specs: Vec<HiddenServiceKeySpec> = Vec::new();
    let mut i: usize = 0;
    proof {
        assert(arr@.take(0) =~= Seq::<serde_json::Value>::empty());
    }
    while i < arr.len()
        invariant
            i <= arr@.len(),
            Some(arr@) == json_values_of(s@),
            spec_parse_specs(arr@.take(i as int)) == Some(specs@),
        decreases arr@.len() - i,
    {
        let v = &arr[i];
        if !json_is_object(v) {
            proof {
                lemma_parse_specs_failure(arr@, i as int);
            }
            return None;
        }
        let onion = match json_field_string(v, "onion") {
            None => None,
            Some(Some(x)) => Some(x),
            Some(None) => {
                proof {
                    lemma_parse_specs_failure(arr@, i as int);
                }
                return None;
            },
        };
        let seed_hex = match json_field_string(v, "seed_hex") {
            None => None,
            Some(Some(x)) => Some(x),
            Some(None) => {
                proof {
                    lemma_parse_specs_failure(arr@, i as int);
                }
                return None;
            },
        };
        let pub_hex = match json_field_string(v, "pub_hex") {
            None => None,
            Some(Some(x)) => Some(x),
            Some(None) => {
                proof {
                    lemma_parse_specs_failure(arr@, i as int);
                }
                return None;
            },
        };
        let generate = match json_field_bool(v, "generate") {
            None => None,
            Some(Some(b)) => Some(b),
            Some(None) => {
                proof {
                    lemma_parse_specs_failure(arr@, i as int);
                }
                return None;
            },
        };
        let ks = HiddenServiceKeySpec { onion, seed_hex, pub_hex, generate };
        proof {
            assert(spec_parse_one(arr@[i as int]) == Some(ks));
            let t = arr@.take(i as int + 1);
            assert(t.drop_last() =~= arr@.take(i as int));
            assert(t.last() == arr@[i as int]);
        }
        specs.push(ks);
        i += 1;
    }
    proof {
        assert(arr@.take(arr@.len() as int) =~= arr@);
    }
    Some(specs)
}

/// The JSON text for a list of addresses; the text depends on the list
/// alone.
pub uninterp spec fn json_of(addresses: Seq<String>) -> Seq<char>;

/// Relies on serde_json::to_string: the JSON array text for a list of
/// strings is a function of the list alone.
#[verifier::external_body]
pub(crate) fn json_of_strings(addresses: &Vec<String>) -> (r: String)
    ensures
        r@ == json_of(addresses@),
{
    match serde_json::to_string(addresses) {
        Ok(s) => s,
        Err(_) => String::from("[]"),
    }
}

} // verus!
