//! Reading top-level string members of a JSON text.  The parse is
//! `serde_json`'s; what the library decides from the members is verified.

use crate::run_validation::opt_view;
use crate::text::str_views;
use vstd::prelude::*;

verus! {

/// The top-level members of a JSON text that the library reads: the number
/// of members when the text is an object, and for each asked key the
/// member's value when it is a string.
pub struct JsonMembers {
    pub count: Option<usize>,
    pub strings: Vec<Option<String>>,
}

/// The views of optional strings.
pub open spec fn opt_views(v: Seq<Option<String>>) -> Seq<Option<Seq<char>>> {
    v.map_values(|o: Option<String>| opt_view(o))
}

/// What `serde_json::from_str::<serde_json::Value>` makes of `text`, read
/// for `keys`: the number of members when the value is an object, and for
/// each key its member's value where that is a string; or the text of the
/// parse error.
pub uninterp spec fn json_string_members(text: Seq<char>, keys: Seq<Seq<char>>)
    -> Result<(Option<nat>, Seq<Option<Seq<char>>>), Seq<char>>;

/// Parses `text` with `serde_json::from_str` into a JSON value, counts the
/// members of an object with `Map::len`, and reads each key with
/// `Value::get` and `Value::as_str`.  Claimed: the result is what
/// `json_string_members` names for the text and keys, one entry per key.
#[verifier::external_body]
pub(crate) fn string_members(text: &str, keys: &Vec<&str>) -> (r: Result<JsonMembers, String>)
    ensures
        (match (r, json_string_members(text@, str_views(keys@))) {
            (Ok(m), Ok(n)) => (match m.count {
                Some(c) => n.0 == Some(c as nat),
                None => n.0 is None,
            }) && opt_views(m.strings@) == n.1 && m.strings@.len() == keys@.len(),
            (Err(e), Err(f)) => e@ == f,
            _ => false,
        }),
{
    match serde_json::from_str::<serde_json::Value>(text) {
        Ok(value) => Ok(JsonMembers {
            count: value.as_object().map(|object| object.len()),
            strings: keys.iter().map(|key| value.get(*key).and_then(|v| v.as_str()).map(|v| v.to_string())).collect(),
        }),
        Err(e) => Err(e.to_string()),
    }
}

} // verus!
