//! The state file's format: a JSON object with exactly two members, the
//! boolean `usb` and the string `headphone`.

use vstd::prelude::*;
use vstd::utf8::{decode_utf8, encode_utf8_decode_utf8, valid_utf8};
use crate::error::{DeviceError, DeviceErrorView};
use crate::json::{
    error_text, is_plain, json_bool, json_object_members, json_pretty_object, members_view,
    parse_object, pretty_object, utf8_text, Field, FieldView, Member, MemberView,
};
use crate::state::{DeviceState, DeviceStateView};

verus! {

/// The key of the USB flag in the state file.
pub const USB_KEY: &'static str = "usb";

/// The key of the headphone mode in the state file.
pub const HEADPHONE_KEY: &'static str = "headphone";

/// The detail of the error for a JSON object that is not a device state.
pub const SHAPE_DETAIL: &'static str =
    "expected an object with exactly a boolean `usb` and a string `headphone`";

/// The detail of the error for a state file whose bytes are no text.
pub const ENCODING_DETAIL: &'static str = "the state file is not valid UTF-8";

/// The text of the state file for `state`.
pub open spec fn state_text(state: DeviceStateView) -> Seq<char> {
    json_pretty_object(USB_KEY@, state.usb, HEADPHONE_KEY@, state.headphone)
}

/// The two keys differ, and neither needs an escape.
pub proof fn lemma_keys()
    ensures
        USB_KEY@ != HEADPHONE_KEY@,
        is_plain(USB_KEY@),
        is_plain(HEADPHONE_KEY@),
{
    reveal_strlit("usb");
    reveal_strlit("headphone");
    assert(USB_KEY@.len() == 3);
    assert(HEADPHONE_KEY@.len() == 9);
}

/// The state file of a state whose mode needs no escape, character by
/// character: the two members in their order, each on a line of its own.
pub proof fn lemma_plain_state_text(state: DeviceStateView)
    requires
        is_plain(state.headphone),
    ensures
        state_text(state) == "{\n  \"usb\": "@ + json_bool(state.usb) + ",\n  \"headphone\": \""@
            + state.headphone + "\"\n}"@,
{
    lemma_keys();
    reveal_strlit("usb");
    reveal_strlit("headphone");
    reveal_strlit("{\n  ");
    reveal_strlit(": ");
    reveal_strlit(",\n  ");
    reveal_strlit("\n}");
    reveal_strlit("{\n  \"usb\": ");
    reveal_strlit(",\n  \"headphone\": \"");
    reveal_strlit("\"\n}");
    let head = "{\n  "@ + (seq!['"'] + USB_KEY@ + seq!['"']) + ": "@;
    assert(head =~= "{\n  \"usb\": "@);
    let middle = ",\n  "@ + (seq!['"'] + HEADPHONE_KEY@ + seq!['"']) + ": "@ + seq!['"'];
    assert(middle =~= ",\n  \"headphone\": \""@);
    let tail = seq!['"'] + "\n}"@;
    assert(tail =~= "\"\n}"@);
    assert(state_text(state) =~= head + json_bool(state.usb) + middle + state.headphone + tail);
}

/// Whether `flag` is the USB member and `mode` the headphone member.
pub open spec fn is_state_pair(flag: MemberView, mode: MemberView) -> bool {
    &&& flag.key == USB_KEY@
    &&& flag.value is Flag
    &&& mode.key == HEADPHONE_KEY@
    &&& mode.value is Text
}

/// The state held by the two members of a state file.
pub open spec fn pair_state(flag: MemberView, mode: MemberView) -> DeviceStateView {
    DeviceStateView { usb: flag.value->Flag_0, headphone: mode.value->Text_0 }
}

/// The state that the members of a JSON object stand for: they must be the
/// two expected members and nothing else, in either order. A missing member,
/// a further member, or a member of another kind leaves no state.
pub open spec fn document_state(members: Seq<MemberView>) -> Option<DeviceStateView> {
    if members.len() == 2 && is_state_pair(members[0], members[1]) {
        Some(pair_state(members[0], members[1]))
    } else if members.len() == 2 && is_state_pair(members[1], members[0]) {
        Some(pair_state(members[1], members[0]))
    } else {
        None
    }
}

/// The members under which a state is kept: the USB flag, then the headphone
/// mode.
pub open spec fn state_members(state: DeviceStateView) -> Seq<MemberView> {
    seq![
        MemberView { key: USB_KEY@, value: FieldView::Flag(state.usb) },
        MemberView { key: HEADPHONE_KEY@, value: FieldView::Text(state.headphone) },
    ]
}

/// The members under which a state is kept stand for that state, in either
/// order.
pub proof fn lemma_state_members_read_back(state: DeviceStateView)
    ensures
        document_state(state_members(state)) == Some(state),
        document_state(state_members(state).reverse()) == Some(state),
{
    lemma_keys();
    let members = state_members(state);
    assert(members.reverse()[0] == members[1]);
    assert(members.reverse()[1] == members[0]);
}

/// Members stand for a state only where they are the two under which that
/// state is kept, in one order or the other.
pub proof fn lemma_document_state_is_exact(members: Seq<MemberView>, state: DeviceStateView)
    requires
        document_state(members) == Some(state),
    ensures
        members == state_members(state) || members == state_members(state).reverse(),
{
    let kept = state_members(state);
    assert(kept.reverse()[0] == kept[1]);
    assert(kept.reverse()[1] == kept[0]);
    if is_state_pair(members[0], members[1]) {
        assert(members =~= kept);
    } else {
        assert(members =~= kept.reverse());
    }
}

/// What decoding gives for the outcome of reading a text as a JSON object:
/// the members, or the reader's complaint.
pub open spec fn decoded(parsed: Result<Seq<MemberView>, Seq<char>>) -> Result<
    DeviceStateView,
    DeviceErrorView,
> {
    match parsed {
        Ok(members) => match document_state(members) {
            Some(state) => Ok(state),
            None => Err(DeviceErrorView::Deserialization { detail: SHAPE_DETAIL@ }),
        },
        Err(detail) => Err(DeviceErrorView::Deserialization { detail }),
    }
}

/// The value of an outcome of decoding.
pub open spec fn decoding_view(outcome: Result<DeviceState, DeviceError>) -> Result<
    DeviceStateView,
    DeviceErrorView,
> {
    match outcome {
        Ok(state) => Ok(state@),
        Err(error) => Err(error@),
    }
}

/// The value of an outcome of reading a text as a JSON object.
pub open spec fn parsing_view(parsed: Result<Vec<Member>, String>) -> Result<
    Seq<MemberView>,
    Seq<char>,
> {
    match parsed {
        Ok(members) => Ok(members_view(members@)),
        Err(detail) => Err(detail@),
    }
}

/// Whether `member` has the key `key`.
fn has_key(member: &Member, key: &str) -> (found: bool)
    ensures
        found == (member.key@ == key@),
{
    member.key == String::from_str(key)
}

/// Reads the two settings out of the USB member and the headphone member.
fn read_pair(flag: &Member, mode: &Member) -> (state: Option<DeviceState>)
    ensures
        match state {
            Some(found) => is_state_pair(flag@, mode@) && found@ == pair_state(flag@, mode@),
            None => !is_state_pair(flag@, mode@),
        },
{
    if !has_key(flag, USB_KEY) || !has_key(mode, HEADPHONE_KEY) {
        return None;
    }
    match (&flag.value, &mode.value) {
        (Field::Flag(usb), Field::Text(headphone)) => Some(
            DeviceState { usb: *usb, headphone: headphone.clone() },
        ),
        _ => None,
    }
}

/// Checks the members of a JSON object against the state file's format and
/// reads the state out of them.
pub fn state_from_members(members: &Vec<Member>) -> (state: Option<DeviceState>)
    ensures
        match state {
            Some(found) => document_state(members_view(members@)) == Some(found@),
            None => document_state(members_view(members@)) is None,
        },
{
    if members.len() != 2 {
        return None;
    }
    assert(members_view(members@)[0] == members@[0]@);
    assert(members_view(members@)[1] == members@[1]@);
    match read_pair(&members[0], &members[1]) {
        Some(found) => Some(found),
        None => read_pair(&members[1], &members[0]),
    }
}

/// Finishes decoding from the outcome of reading the text as a JSON object:
/// a complaint of the reader becomes the error's detail, members that are not
/// a device state are refused, and the others give the state.
pub fn state_from_document(parsed: Result<Vec<Member>, String>) -> (outcome: Result<
    DeviceState,
    DeviceError,
>)
    ensures
        decoding_view(outcome) == decoded(parsing_view(parsed)),
{
    match parsed {
        Ok(members) => match state_from_members(&members) {
            Some(state) => Ok(state),
            None => Err(DeviceError::Deserialization { detail: String::from_str(SHAPE_DETAIL) }),
        },
        Err(detail) => Err(DeviceError::Deserialization { detail }),
    }
}

/// Whether `outcome` is what decoding owes for `text`: where the text spells
/// one JSON object, what its members stand for; any other text is a
/// deserialization error, whose detail is the JSON reader's.
pub open spec fn decodes_text(outcome: Result<DeviceState, DeviceError>, text: Seq<char>) -> bool {
    match json_object_members(text) {
        Some(members) => decoding_view(outcome) == decoded(Ok(members)),
        None => outcome matches Err(error) && error@ is Deserialization,
    }
}

/// Decodes the text of a state file.
pub fn decode_text(text: &str) -> (outcome: Result<DeviceState, DeviceError>)
    ensures
        decodes_text(outcome, text@),
{
    let parsed = match parse_object(text) {
        Ok(members) => Ok(members),
        Err(error) => Err(error_text(&error)),
    };
    state_from_document(parsed)
}

/// Decodes the content of a state file. Bytes that are not the UTF-8
/// encoding of a text are a deserialization error; the others are decoded as
/// the text they encode.
pub fn decode_state(content: &[u8]) -> (outcome: Result<DeviceState, DeviceError>)
    ensures
        valid_utf8(content@) ==> decodes_text(outcome, decode_utf8(content@)),
        !valid_utf8(content@) ==> decoding_view(outcome) == Err::<DeviceStateView, DeviceErrorView>(
            DeviceErrorView::Deserialization { detail: ENCODING_DETAIL@ },
        ),
{
    match utf8_text(content) {
        Some(text) => {
            proof {
                encode_utf8_decode_utf8(text@);
            }
            decode_text(text)
        },
        None => Err(DeviceError::Deserialization { detail: String::from_str(ENCODING_DETAIL) }),
    }
}

/// Finishes encoding from the outcome of writing the state as JSON: the text
/// is kept as it is, a complaint of the writer becomes the error's detail.
pub fn text_from_rendering(rendered: Result<String, String>) -> (outcome: Result<
    String,
    DeviceError,
>)
    ensures
        match rendered {
            Ok(json) => outcome matches Ok(text) && text@ == json@,
            Err(detail) => outcome matches Err(error) && error@ == (
            DeviceErrorView::Serialization { detail: detail@ }),
        },
{
    match rendered {
        Ok(json) => Ok(json),
        Err(detail) => Err(DeviceError::Serialization { detail }),
    }
}

/// Encodes `state` as the text of its state file. Encoding a state always
/// succeeds, whatever its mode holds.
pub fn encode_state(state: &DeviceState) -> (outcome: Result<String, DeviceError>)
    ensures
        outcome matches Ok(text) && text@ == state_text(state@),
{
    proof {
        lemma_keys();
    }
    let rendered = match pretty_object(USB_KEY, state.usb, HEADPHONE_KEY, state.headphone.as_str()) {
        Ok(json) => Ok(json),
        Err(error) => Err(error_text(&error)),
    };
    text_from_rendering(rendered)
}

} // verus!
