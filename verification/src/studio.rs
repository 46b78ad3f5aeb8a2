//! The UI studio's requests: the page posts JSON messages, and a message
//! `{"type": "save", "yaml": ...}` asks to save that configuration text.

use vstd::prelude::*;

verus! {

/// The string member `key` of a JSON text: `None` when the text is not
/// JSON, `Some(None)` when the member is absent or not a string.
pub uninterp spec fn json_string_member(body: Seq<char>, key: Seq<char>) -> Option<Option<Seq<char>>>;

/// Calls `serde_json::from_str::<serde_json::Value>`, then `Value::get`
/// with `key` and `Value::as_str`. Claimed: the result is
/// `json_string_member` of the text and the key, which depends on them alone.
#[verifier::external_body]
fn json_member(body: &str, key: &str) -> (r: Option<Option<String>>)
    ensures
        json_string_member(body@, key@) == match r {
            Some(Some(v)) => Some(Some(v@)),
            Some(None) => Some(None),
            None => None::<Option<Seq<char>>>,
        },
{
    let value = match serde_json::from_str::<serde_json::Value>(body) {
        Ok(value) => value,
        Err(_) => return None,
    };
    Some(value.get(key).and_then(serde_json::Value::as_str).map(String::from))
}

/// The `type` and `yaml` string members of a studio message, or `None`
/// when the message is not JSON.
pub open spec fn ipc_fields(body: Seq<char>) -> Option<(Option<Seq<char>>, Option<Seq<char>>)> {
    match (json_string_member(body, "type"@), json_string_member(body, "yaml"@)) {
        (Some(kind), Some(yaml)) => Some((kind, yaml)),
        _ => None,
    }
}

/// The configuration text a message asks to save: its `yaml` member when
/// its `type` is `save`.
pub open spec fn requested_yaml(fields: Option<(Option<Seq<char>>, Option<Seq<char>>)>) -> Option<Seq<char>> {
    match fields {
        Some((Some(kind), Some(yaml))) => if kind == "save"@ {
            Some(yaml)
        } else {
            None
        },
        _ => None,
    }
}

/// The configuration text to save, from the members of a parsed message.
pub fn save_yaml_of(fields: Option<(Option<String>, Option<String>)>) -> (r: Option<String>)
    ensures
        match r {
            Some(y) => requested_yaml(
                match fields {
                    Some((kind, yaml)) => Some(
                        (
                            match kind {
                                Some(k) => Some(k@),
                                None => None,
                            },
                            match yaml {
                                Some(y) => Some(y@),
                                None => None,
                            },
                        ),
                    ),
                    None => None,
                },
            ) == Some(y@),
            None => requested_yaml(
                match fields {
                    Some((kind, yaml)) => Some(
                        (
                            match kind {
                                Some(k) => Some(k@),
                                None => None,
                            },
                            match yaml {
                                Some(y) => Some(y@),
                                None => None,
                            },
                        ),
                    ),
                    None => None,
                },
            ) is None,
        },
{
    match fields {
        Some((Some(kind), Some(yaml))) => {
            if crate::text::compare_chars(kind.as_str(), "save") == 0 {
                Some(yaml)
            } else {
                None
            }
        },
        _ => None,
    }
}

/// The configuration text a studio message asks to save, if it is a save
/// request.
pub fn save_request(body: &str) -> (r: Option<String>)
    ensures
        match r {
            Some(y) => requested_yaml(ipc_fields(body@)) == Some(y@),
            None => requested_yaml(ipc_fields(body@)) is None,
        },
{
    let kind = json_member(body, "type");
    let yaml = json_member(body, "yaml");
    let fields = match (kind, yaml) {
        (Some(k), Some(y)) => Some((k, y)),
        _ => None,
    };
    save_yaml_of(fields)
}

} // verus!
