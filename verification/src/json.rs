//! JSON as the Notion API speaks it: a model of parsed documents, and the
//! calls into `serde_json` that parse, navigate and quote.

use vstd::prelude::*;

verus! {

/// A parsed JSON document as the library reads it. Numbers are kept only as
/// the fact that a number stood there: nothing in the library reads one.
pub enum JsonTree {
    Null,
    Bool(bool),
    Number,
    Str(Seq<char>),
    Array(Seq<JsonTree>),
    Object(Map<Seq<char>, JsonTree>),
}

#[verifier::external_type_specification]
#[verifier::external_body]
pub struct ExJsonValue(serde_json::Value);

/// The document that a `serde_json::Value` holds.
pub uninterp spec fn json_tree(value: serde_json::Value) -> JsonTree;

/// What `serde_json::from_str::<Value>` makes of a text: the document, or
/// the `Display` text of the error it reports (which names the kind of error
/// and its line and column).
pub uninterp spec fn parsed_json(text: Seq<char>) -> Result<JsonTree, Seq<char>>;

/// The lower-case hexadecimal digit of `d`, which is below 16.
pub open spec fn hex_digit(d: nat) -> char {
    if d < 10 {
        crate::text::digit_char(d)
    } else if d == 10 { 'a' }
    else if d == 11 { 'b' }
    else if d == 12 { 'c' }
    else if d == 13 { 'd' }
    else if d == 14 { 'e' }
    else { 'f' }
}

/// How `serde_json` writes one character inside a string: `"` and `\`
/// behind a backslash, the controls with a short escape as `\b`, `\t`,
/// `\n`, `\f`, `\r`, the other controls below 0x20 as `\u00XX` in
/// lower-case hex, and every other character as it is.
pub open spec fn escaped_char(c: char) -> Seq<char> {
    if c == '"' {
        seq!['\\', '"']
    } else if c == '\\' {
        seq!['\\', '\\']
    } else if c == '\u{8}' {
        seq!['\\', 'b']
    } else if c == '\t' {
        seq!['\\', 't']
    } else if c == '\n' {
        seq!['\\', 'n']
    } else if c == '\u{c}' {
        seq!['\\', 'f']
    } else if c == '\r' {
        seq!['\\', 'r']
    } else if (c as nat) < 0x20 {
        seq!['\\', 'u', '0', '0', hex_digit((c as nat) / 16), hex_digit((c as nat) % 16)]
    } else {
        seq![c]
    }
}

/// The characters of a string, each written as `escaped_char` writes it.
pub open spec fn json_escaped(text: Seq<char>) -> Seq<char>
    decreases text.len(),
{
    if text.len() == 0 {
        Seq::empty()
    } else {
        json_escaped(text.drop_last()) + escaped_char(text.last())
    }
}

/// A string as JSON text: in double quotes, its characters escaped.
pub open spec fn json_string_literal(text: Seq<char>) -> Seq<char> {
    seq!['"'] + json_escaped(text) + seq!['"']
}

/// The member `key` of an object; `None` for anything else.
pub open spec fn object_get(tree: JsonTree, key: Seq<char>) -> Option<JsonTree> {
    match tree {
        JsonTree::Object(m) => if m.dom().contains(key) { Some(m[key]) } else { None },
        _ => None,
    }
}

/// `tree[key]` as `serde_json` indexes a value: `Null` where `tree` is no
/// object or has no such member.
pub open spec fn index_key(tree: JsonTree, key: Seq<char>) -> JsonTree {
    match object_get(tree, key) {
        Some(t) => t,
        None => JsonTree::Null,
    }
}

/// `tree[i]` as `serde_json` indexes a value: `Null` where `tree` is no
/// array or `i` is out of its bounds.
pub open spec fn index_pos(tree: JsonTree, i: int) -> JsonTree {
    match tree {
        JsonTree::Array(items) => if 0 <= i < items.len() { items[i] } else { JsonTree::Null },
        _ => JsonTree::Null,
    }
}

/// The text of a JSON string; `None` for anything else.
pub open spec fn tree_str(tree: JsonTree) -> Option<Seq<char>> {
    match tree {
        JsonTree::Str(s) => Some(s),
        _ => None,
    }
}

/// The items of a JSON array; `None` for anything else.
pub open spec fn tree_items(tree: JsonTree) -> Option<Seq<JsonTree>> {
    match tree {
        JsonTree::Array(items) => Some(items),
        _ => None,
    }
}

/// The documents that a vector of values holds, in order.
pub open spec fn json_trees(values: Seq<serde_json::Value>) -> Seq<JsonTree> {
    values.map_values(|v: serde_json::Value| json_tree(v))
}

/// Parses `text` with `serde_json::from_str` into a `serde_json::Value`, an
/// error taken by its `Display` text. Both are named by `parsed_json`; the
/// contract says nothing more of the parser.
#[verifier::external_body]
pub(crate) fn parse_json(text: &str) -> (r: Result<serde_json::Value, String>)
    ensures
        r matches Ok(v) ==> (parsed_json(text@) matches Ok(t) && t == json_tree(v)),
        r matches Err(m) ==> (parsed_json(text@) matches Err(e) && e == m@),
{
    serde_json::from_str(text).map_err(|e: serde_json::Error| e.to_string())
}

/// `Value::get` with a string key: the member of that name when the value
/// is an object that has one.
#[verifier::external_body]
pub(crate) fn value_get<'a>(value: &'a serde_json::Value, key: &str) -> (r: Option<&'a serde_json::Value>)
    ensures
        r matches Some(v) ==> object_get(json_tree(*value), key@) == Some(json_tree(*v)),
        r is None ==> object_get(json_tree(*value), key@) is None,
{
    value.get(key)
}

/// `Value::as_array`: the items when the value is an array.
#[verifier::external_body]
pub(crate) fn value_as_array(value: &serde_json::Value) -> (r: Option<&Vec<serde_json::Value>>)
    ensures
        r matches Some(a) ==> tree_items(json_tree(*value)) == Some(json_trees(a@)),
        r is None ==> tree_items(json_tree(*value)) is None,
{
    value.as_array()
}

/// `Value::as_str`: the text when the value is a string.
#[verifier::external_body]
pub(crate) fn value_as_str(value: &serde_json::Value) -> (r: Option<&str>)
    ensures
        r matches Some(s) ==> tree_str(json_tree(*value)) == Some(s@),
        r is None ==> tree_str(json_tree(*value)) is None,
{
    value.as_str()
}

/// `serde_json::to_string` on a string, which cannot fail for a string: the
/// string in double quotes, escaped as `json_string_literal` states.
#[verifier::external_body]
pub(crate) fn quote_json(text: &str) -> (r: String)
    ensures
        r@ == json_string_literal(text@),
{
    match serde_json::to_string(text) {
        Ok(quoted) => quoted,
        Err(_) => String::new(),
    }
}

/// The document that an optional value holds, `Null` standing for a
/// missing one: the convention of `serde_json`'s indexing.
pub open spec fn opt_tree(value: Option<&serde_json::Value>) -> JsonTree {
    match value {
        Some(v) => json_tree(*v),
        None => JsonTree::Null,
    }
}

/// `value[key]`, with `None` for `Null`.
pub(crate) fn member<'a>(value: Option<&'a serde_json::Value>, key: &str) -> (r: Option<&'a serde_json::Value>)
    ensures
        opt_tree(r) == index_key(opt_tree(value), key@),
{
    match value {
        Some(v) => value_get(v, key),
        None => None,
    }
}

/// `value[i]`, with `None` for `Null`.
pub(crate) fn element<'a>(value: Option<&'a serde_json::Value>, i: usize) -> (r: Option<&'a serde_json::Value>)
    ensures
        opt_tree(r) == index_pos(opt_tree(value), i as int),
{
    match value {
        Some(v) => match value_as_array(v) {
            Some(items) => {
                if i < items.len() {
                    proof {
                        assert(json_trees(items@)[i as int] == json_tree(items@[i as int]));
                    }
                    Some(&items[i])
                } else {
                    None
                }
            },
            None => None,
        },
        None => None,
    }
}

/// The text of `value` when it is a JSON string.
pub(crate) fn text_of<'a>(value: Option<&'a serde_json::Value>) -> (r: Option<&'a str>)
    ensures
        r matches Some(s) ==> tree_str(opt_tree(value)) == Some(s@),
        r is None ==> tree_str(opt_tree(value)) is None,
{
    match value {
        Some(v) => value_as_str(v),
        None => None,
    }
}

} // verus!
