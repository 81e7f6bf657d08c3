//! JSON text as `serde_json` writes and reads it, and the bytes of a text.
//! This is the one place where the library leaves verified code: each
//! function below that has no verified body is believed, not proved.

use vstd::prelude::*;
use vstd::utf8::{encode_utf8, valid_utf8};

verus! {

/// `serde_json::Error`, carried through as an opaque value.
#[verifier::external_type_specification]
#[verifier::external_body]
pub struct ExJsonError(serde_json::Error);

/// One value of a JSON object, as far as this library looks into it: its kind,
/// and the content of a boolean or a string.
#[derive(Debug)]
pub enum Field {
    Null,
    Flag(bool),
    Number,
    Text(String),
    Array,
    Object,
}

/// The mathematical value of a [`Field`].
pub enum FieldView {
    Null,
    Flag(bool),
    Number,
    Text(Seq<char>),
    Array,
    Object,
}

impl View for Field {
    type V = FieldView;

    open spec fn view(&self) -> FieldView {
        match self {
            Field::Null => FieldView::Null,
            Field::Flag(flag) => FieldView::Flag(*flag),
            Field::Number => FieldView::Number,
            Field::Text(text) => FieldView::Text(text@),
            Field::Array => FieldView::Array,
            Field::Object => FieldView::Object,
        }
    }
}

/// One member of a JSON object: a key and what stands under it.
#[derive(Debug)]
pub struct Member {
    pub key: String,
    pub value: Field,
}

/// The mathematical value of a [`Member`].
pub struct MemberView {
    pub key: Seq<char>,
    pub value: FieldView,
}

impl View for Member {
    type V = MemberView;

    open spec fn view(&self) -> MemberView {
        MemberView { key: self.key@, value: self.value@ }
    }
}

/// The values of a list of members, in the same order.
pub open spec fn members_view(members: Seq<Member>) -> Seq<MemberView> {
    members.map_values(|member: Member| member@)
}

/// Whether the JSON writer cannot put `c` into a string as it is: the double
/// quote, the backslash and the control characters below the space.
pub open spec fn needs_escape(c: char) -> bool {
    c == '"' || c == '\\' || (c as u32) < 0x20
}

/// Whether no character of `text` needs an escape.
pub open spec fn is_plain(text: Seq<char>) -> bool {
    forall|i: int| 0 <= i < text.len() ==> !needs_escape(#[trigger] text[i])
}

/// The JSON string, quotes included, that `serde_json` writes for a `text`
/// of which some character needs an escape.
pub uninterp spec fn json_escaped_string(text: Seq<char>) -> Seq<char>;

/// The JSON string that `serde_json` writes for `text`: a plain text between
/// double quotes as it is, any other as `escaped`, its spelling with escapes.
pub open spec fn json_string(text: Seq<char>, escaped: Seq<char>) -> Seq<char> {
    if is_plain(text) {
        seq!['"'] + text + seq!['"']
    } else {
        escaped
    }
}

/// How the JSON writer spells a boolean.
pub open spec fn json_bool(flag: bool) -> Seq<char> {
    if flag {
        "true"@
    } else {
        "false"@
    }
}

/// The JSON string that `serde_json` writes for `text`.
pub open spec fn json_written_string(text: Seq<char>) -> Seq<char> {
    json_string(text, json_escaped_string(text))
}

/// The pretty-printed JSON text of an object of two members, the second of
/// them a string, where the keys and that string are given as the JSON
/// strings they are written as: one member to a line, indented by two
/// spaces, and no line break at the end.
pub open spec fn json_pretty_frame(
    flag_key: Seq<char>,
    flag: bool,
    text_key: Seq<char>,
    text: Seq<char>,
) -> Seq<char> {
    "{\n  "@ + flag_key + ": "@ + json_bool(flag) + ",\n  "@ + text_key + ": "@ + text + "\n}"@
}

/// The pretty-printed JSON text of the object that holds the boolean `flag`
/// under `flag_key`, followed by the string `text` under `text_key`.
pub open spec fn json_pretty_object(
    flag_key: Seq<char>,
    flag: bool,
    text_key: Seq<char>,
    text: Seq<char>,
) -> Seq<char> {
    json_pretty_frame(
        json_written_string(flag_key),
        flag,
        json_written_string(text_key),
        json_written_string(text),
    )
}

/// The members of the JSON object that `text` spells, in the order in which
/// `serde_json` keeps them, or `None` where `text` is not one JSON object.
/// `serde_json` keeps a key once, at its first place and with its last value,
/// however often the text repeats it.
pub uninterp spec fn json_object_members(text: Seq<char>) -> Option<Seq<MemberView>>;

/// Calls `serde_json::to_string_pretty` on the `serde_json::Value` object made
/// of the two given members, inserted in the order of the parameters. The
/// contract claims that the call succeeds, since the writer fails only on a
/// sink that fails or on a key that is no string, and that the text of two
/// members under different keys is laid out as [`json_pretty_frame`] says.
#[verifier::external_body]
pub(crate) fn pretty_object(flag_key: &str, flag: bool, text_key: &str, text: &str) -> (rendered:
    Result<String, serde_json::Error>)
    ensures
        rendered is Ok,
        rendered matches Ok(json) ==> (flag_key@ != text_key@ ==> json@ == json_pretty_frame(
            json_string(flag_key@, json_escaped_string(flag_key@)),
            flag,
            json_string(text_key@, json_escaped_string(text_key@)),
            json_string(text@, json_escaped_string(text@)),
        )),
{
    let mut object = serde_json::Map::new();
    object.insert(flag_key.to_string(), serde_json::Value::Bool(flag));
    object.insert(text_key.to_string(), serde_json::Value::String(text.to_string()));
    serde_json::to_string_pretty(&serde_json::Value::Object(object))
}

/// Calls `serde_json::from_str` for a `serde_json::Map<String, Value>` and
/// hands out each member with the kind of its value. The contract claims that
/// the call succeeds exactly on the texts that spell one JSON object, and that
/// the members handed out are those the text spells.
#[verifier::external_body]
pub(crate) fn parse_object(text: &str) -> (parsed: Result<Vec<Member>, serde_json::Error>)
    ensures
        match json_object_members(text@) {
            Some(members) => parsed matches Ok(found) && members_view(found@) == members,
            None => parsed is Err,
        },
{
    let object: serde_json::Map<String, serde_json::Value> = serde_json::from_str(text)?;
    let mut members = Vec::new();
    for (key, found) in object {
        let value = match found {
            serde_json::Value::Null => Field::Null,
            serde_json::Value::Bool(flag) => Field::Flag(flag),
            serde_json::Value::Number(_) => Field::Number,
            serde_json::Value::String(text) => Field::Text(text),
            serde_json::Value::Array(_) => Field::Array,
            serde_json::Value::Object(_) => Field::Object,
        };
        members.push(Member { key, value });
    }
    Ok(members)
}

/// Calls `core::str::from_utf8`: the bytes as a text, where they are the
/// UTF-8 encoding of one, and `None` where they are not.
#[verifier::external_body]
pub(crate) fn utf8_text(bytes: &[u8]) -> (text: Option<&str>)
    ensures
        text is Some <==> valid_utf8(bytes@),
        text matches Some(found) ==> encode_utf8(found@) == bytes@,
{
    core::str::from_utf8(bytes).ok()
}

/// Calls `to_string` on a `serde_json::Error`: the error as `serde_json`
/// words it. Nothing is claimed of the wording.
#[verifier::external_body]
pub(crate) fn error_text(error: &serde_json::Error) -> (detail: String) {
    error.to_string()
}

} // verus!
