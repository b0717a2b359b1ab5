use vstd::prelude::*;

verus! {

/// A JSON document as a tree of plain values. Numbers keep their text; an
/// object keeps its members in the order the parser hands them out, one per key.
#[derive(Debug, PartialEq)]
pub enum Json {
    Null,
    Bool(bool),
    Number(String),
    Text(String),
    Array(Vec<Json>),
    Object(Vec<(String, Json)>),
}

#[verifier::external_type_specification]
#[verifier::external_body]
pub struct ExJsonValue(serde_json::Value);

#[verifier::external_type_specification]
#[verifier::external_body]
pub struct ExJsonError(serde_json::Error);

/// What `serde_json::from_str` makes of a text, as a `Json` tree; `None` when
/// the text is not a JSON document.
pub uninterp spec fn json_of_text(text: Seq<char>) -> Option<Json>;

/// Relies on serde_json::Value: copies its tree node for node into `Json`.
#[verifier::external_body]
fn json_from_value(v: &serde_json::Value) -> Json {
    match v {
        serde_json::Value::Null => Json::Null,
        serde_json::Value::Bool(b) => Json::Bool(*b),
        serde_json::Value::Number(n) => Json::Number(n.to_string()),
        serde_json::Value::String(s) => Json::Text(s.clone()),
        serde_json::Value::Array(a) => Json::Array(a.iter().map(json_from_value).collect()),
        serde_json::Value::Object(m) => Json::Object(
            m.iter().map(|(k, x)| (k.clone(), json_from_value(x))).collect(),
        ),
    }
}

/// Relies on serde_json::from_str: parses a JSON text, failing exactly when
/// the text is not a JSON document.
#[verifier::external_body]
fn parse_json_text(text: &str) -> (r: Result<Json, serde_json::Error>)
    ensures
        r is Ok <==> json_of_text(text@) is Some,
        r matches Ok(j) ==> json_of_text(text@) == Some(j),
{
    serde_json::from_str::<serde_json::Value>(text).map(|v| json_from_value(&v))
}

/// Parses a JSON text; `None` when it is not a JSON document.
pub fn parse_json(text: &str) -> (r: Option<Json>)
    ensures
        r == json_of_text(text@),
{
    match parse_json_text(text) {
        Ok(j) => Some(j),
        Err(_) => None,
    }
}

/// The value of the first member of `fields` at or after `i` named `key`.
pub open spec fn member_from(fields: Seq<(String, Json)>, key: Seq<char>, i: int) -> Option<Json>
    decreases fields.len() - i,
{
    if i < 0 || i >= fields.len() {
        None
    } else if fields[i].0@ == key {
        Some(fields[i].1)
    } else {
        member_from(fields, key, i + 1)
    }
}

/// The member `key` of an object; `None` for a missing key or a non-object.
pub open spec fn member(j: Json, key: Seq<char>) -> Option<Json> {
    match j {
        Json::Object(fields) => member_from(fields@, key, 0),
        _ => None,
    }
}

/// The text held by the member `key` of an object, if that member is a string.
pub open spec fn text_member(j: Json, key: Seq<char>) -> Option<Seq<char>> {
    match member(j, key) {
        Some(Json::Text(t)) => Some(t@),
        _ => None,
    }
}

impl Json {
    /// Looks up the member `key` of an object.
    pub fn get<'a>(&'a self, key: &str) -> (r: Option<&'a Json>)
        ensures
            match r {
                Some(v) => member(*self, key@) == Some(*v),
                None => member(*self, key@) is None,
            },
    {
        match self {
            Json::Object(fields) => {
                let n = fields.len();
                let wanted = String::from_str(key);
                let mut i: usize = 0;
                while i < n
                    invariant
                        n == fields@.len(),
                        *self == Json::Object(*fields),
                        wanted@ == key@,
                        0 <= i <= n,
                        member_from(fields@, key@, 0) == member_from(fields@, key@, i as int),
                    decreases n - i,
                {
                    let entry = &fields[i];
                    if entry.0 == wanted {
                        assert(member_from(fields@, key@, i as int) == Some(fields@[i as int].1));
                        assert(fields@[i as int].1 == entry.1);
                        return Some(&entry.1);
                    }
                    i = i + 1;
                }
                None
            },
            _ => None,
        }
    }

    /// The text of a member `key` that is a JSON string, copied out.
    pub fn text_member(&self, key: &str) -> (r: Option<String>)
        ensures
            r matches Some(t) ==> text_member(*self, key@) == Some(t@),
            r is None <==> text_member(*self, key@) is None,
    {
        match self.get(key) {
            Some(Json::Text(t)) => Some(t.clone()),
            _ => None,
        }
    }
}

} // verus!
