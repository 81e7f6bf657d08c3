//! The device state store. The store owns one file, `device_state.json`, in
//! the application data directory that the host supplies. It decides; the
//! host acts: each operation is a conversation in which the host reports what
//! happened and is told what to do next, until the operation finishes.

use vstd::prelude::*;
use vstd::utf8::{
    decode_utf8, encode_utf8, encode_utf8_decode_utf8, encode_utf8_valid_utf8, valid_utf8,
};
use crate::codec::{
    decode_state, document_state, encode_state, lemma_state_members_read_back, state_members,
    state_text,
};
use crate::error::{DeviceError, DeviceErrorView, IoOperation};
use crate::json::json_object_members;
use crate::state::{default_state, DeviceState, DeviceStateView};

verus! {

/// The name of the state file inside the application data directory.
pub const STATE_FILE_NAME: &'static str = "device_state.json";

/// What the host reports to a save in progress.
#[derive(Debug)]
pub enum SaveEvent {
    /// The save was requested; nothing has been done yet.
    Started,
    /// The host looked for its application data directory.
    DirectoryResolved { found: bool },
    /// The host tried to create the directory and its missing parents.
    DirectoryCreated { outcome: Result<(), String> },
    /// The host tried to write the state file.
    FileWritten { outcome: Result<(), String> },
}

/// What a save asks of the host next.
#[derive(Debug)]
pub enum SaveAction {
    /// Look for the application data directory.
    ResolveDirectory,
    /// Create the directory, and any missing parent, unless it is there.
    CreateDirectory,
    /// Replace the whole content of the state file with `text`, encoded as
    /// UTF-8.
    WriteFile { text: String },
    /// The save is over.
    Finish { outcome: Result<(), DeviceError> },
}

/// What the host reports to a load in progress.
#[derive(Debug)]
pub enum LoadEvent {
    /// The load was requested; nothing has been done yet.
    Started,
    /// The host looked for its application data directory.
    DirectoryResolved { found: bool },
    /// The host looked for the state file.
    FileChecked { exists: bool },
    /// The host tried to read the whole state file, as the bytes it holds.
    FileRead { outcome: Result<Vec<u8>, String> },
}

/// What a load asks of the host next. No action of a load changes anything
/// on disk.
#[derive(Debug)]
pub enum LoadAction {
    /// Look for the application data directory.
    ResolveDirectory,
    /// Say whether the state file exists.
    CheckFile,
    /// Read the whole state file.
    ReadFile,
    /// The load is over.
    Finish { outcome: Result<DeviceState, DeviceError> },
}

/// Whether `action` ends an operation with `error`.
pub open spec fn save_fails_with(action: SaveAction, error: DeviceErrorView) -> bool {
    action matches SaveAction::Finish { outcome: Err(found) } && found@ == error
}

/// Whether `action` is the right answer of a save of `state` to `event`.
/// A missing directory and a failed step end the save with their error. A
/// created directory is always followed by the write of the state's text.
pub open spec fn save_answers(state: DeviceStateView, event: SaveEvent, action: SaveAction) -> bool {
    match event {
        SaveEvent::Started => action is ResolveDirectory,
        SaveEvent::DirectoryResolved { found: true } => action is CreateDirectory,
        SaveEvent::DirectoryResolved { found: false } => save_fails_with(
            action,
            DeviceErrorView::DirectoryResolution,
        ),
        SaveEvent::DirectoryCreated { outcome: Ok(_) } => action matches SaveAction::WriteFile {
            text,
        } && text@ == state_text(state),
        SaveEvent::DirectoryCreated { outcome: Err(detail) } => save_fails_with(
            action,
            DeviceErrorView::Io { operation: IoOperation::CreateDirectory, detail: detail@ },
        ),
        SaveEvent::FileWritten { outcome: Ok(_) } => action matches SaveAction::Finish {
            outcome: Ok(_),
        },
        SaveEvent::FileWritten { outcome: Err(detail) } => save_fails_with(
            action,
            DeviceErrorView::Io { operation: IoOperation::WriteFile, detail: detail@ },
        ),
    }
}

/// One step of saving `state`: the answer to the host's latest report.
pub fn save_device_state(state: &DeviceState, event: SaveEvent) -> (action: SaveAction)
    ensures
        save_answers(state@, event, action),
{
    match event {
        SaveEvent::Started => SaveAction::ResolveDirectory,
        SaveEvent::DirectoryResolved { found } => {
            if found {
                SaveAction::CreateDirectory
            } else {
                SaveAction::Finish { outcome: Err(DeviceError::DirectoryResolution) }
            }
        },
        SaveEvent::DirectoryCreated { outcome } => match outcome {
            Ok(_) => match encode_state(state) {
                Ok(text) => SaveAction::WriteFile { text },
                Err(error) => SaveAction::Finish { outcome: Err(error) },
            },
            Err(detail) => SaveAction::Finish {
                outcome: Err(DeviceError::Io { operation: IoOperation::CreateDirectory, detail }),
            },
        },
        SaveEvent::FileWritten { outcome } => match outcome {
            Ok(_) => SaveAction::Finish { outcome: Ok(()) },
            Err(detail) => SaveAction::Finish {
                outcome: Err(DeviceError::Io { operation: IoOperation::WriteFile, detail }),
            },
        },
    }
}

/// The state that a load finds in the state file, where `file` is the file's
/// content, or `None` while no file exists: the defaults before the first
/// save, else what the content decodes to. `None` stands for a content that
/// is no device state: bytes that are no UTF-8 text, a text that is not one
/// JSON object, or an object of another shape.
pub open spec fn stored_state(file: Option<Seq<u8>>) -> Option<DeviceStateView> {
    match file {
        None => Some(default_state()),
        Some(content) => if valid_utf8(content) {
            match json_object_members(decode_utf8(content)) {
                Some(members) => document_state(members),
                None => None,
            }
        } else {
            None
        },
    }
}

/// Whether `action` ends a load with what `file` holds: its state, or a
/// deserialization error.
pub open spec fn load_finishes_with(action: LoadAction, file: Option<Seq<u8>>) -> bool {
    match stored_state(file) {
        Some(state) => action matches LoadAction::Finish { outcome: Ok(found) } && found@ == state,
        None => action matches LoadAction::Finish { outcome: Err(error) } && error@
            is Deserialization,
    }
}

/// Whether `action` ends a load with `error`.
pub open spec fn load_fails_with(action: LoadAction, error: DeviceErrorView) -> bool {
    action matches LoadAction::Finish { outcome: Err(found) } && found@ == error
}

/// Whether `action` is the right answer of a load to `event`. A missing
/// directory and a failed read end the load with their error. A missing file
/// is no error: the load ends with the defaults. A file that was read is
/// decoded.
pub open spec fn load_answers(event: LoadEvent, action: LoadAction) -> bool {
    match event {
        LoadEvent::Started => action is ResolveDirectory,
        LoadEvent::DirectoryResolved { found: true } => action is CheckFile,
        LoadEvent::DirectoryResolved { found: false } => load_fails_with(
            action,
            DeviceErrorView::DirectoryResolution,
        ),
        LoadEvent::FileChecked { exists: true } => action is ReadFile,
        LoadEvent::FileChecked { exists: false } => load_finishes_with(action, None),
        LoadEvent::FileRead { outcome: Ok(content) } => load_finishes_with(action, Some(content@)),
        LoadEvent::FileRead { outcome: Err(detail) } => load_fails_with(
            action,
            DeviceErrorView::Io { operation: IoOperation::ReadFile, detail: detail@ },
        ),
    }
}

/// One step of loading the state: the answer to the host's latest report.
pub fn load_device_state(event: LoadEvent) -> (action: LoadAction)
    ensures
        load_answers(event, action),
{
    match event {
        LoadEvent::Started => LoadAction::ResolveDirectory,
        LoadEvent::DirectoryResolved { found } => {
            if found {
                LoadAction::CheckFile
            } else {
                LoadAction::Finish { outcome: Err(DeviceError::DirectoryResolution) }
            }
        },
        LoadEvent::FileChecked { exists } => {
            if exists {
                LoadAction::ReadFile
            } else {
                LoadAction::Finish { outcome: Ok(DeviceState::default()) }
            }
        },
        LoadEvent::FileRead { outcome } => match outcome {
            Ok(content) => LoadAction::Finish { outcome: decode_state(content.as_slice()) },
            Err(detail) => LoadAction::Finish {
                outcome: Err(DeviceError::Io { operation: IoOperation::ReadFile, detail }),
            },
        },
    }
}

/// The state file after a save of `state` that ran to its successful end,
/// where `before` is what the file held until then: the UTF-8 encoding of the
/// state's text, and nothing of what was there.
pub open spec fn file_after_save(before: Option<Seq<u8>>, state: DeviceStateView) -> Option<
    Seq<u8>,
> {
    Some(encode_utf8(state_text(state)))
}

/// Once the directory is there, a save asks for exactly the write that
/// leaves the file as [`file_after_save`] says, whatever the file held.
pub proof fn lemma_save_writes_the_state_file(
    state: DeviceStateView,
    action: SaveAction,
    before: Option<Seq<u8>>,
)
    requires
        save_answers(state, SaveEvent::DirectoryCreated { outcome: Ok(()) }, action),
    ensures
        action matches SaveAction::WriteFile { text } && Some(encode_utf8(text@))
            == file_after_save(before, state),
{
}

/// Where every step of the host succeeds, a save runs through its four steps
/// and ends in success.
pub proof fn lemma_save_succeeds(
    state: DeviceStateView,
    first: SaveAction,
    second: SaveAction,
    third: SaveAction,
    last: SaveAction,
)
    requires
        save_answers(state, SaveEvent::Started, first),
        save_answers(state, SaveEvent::DirectoryResolved { found: true }, second),
        save_answers(state, SaveEvent::DirectoryCreated { outcome: Ok(()) }, third),
        save_answers(state, SaveEvent::FileWritten { outcome: Ok(()) }, last),
    ensures
        first is ResolveDirectory,
        second is CreateDirectory,
        third matches SaveAction::WriteFile { text } && text@ == state_text(state),
        last matches SaveAction::Finish { outcome: Ok(_) },
{
}

/// Before the first save a load gives the defaults and is no error.
pub proof fn lemma_missing_file_loads_defaults(action: LoadAction)
    requires
        load_answers(LoadEvent::FileChecked { exists: false }, action),
    ensures
        action matches LoadAction::Finish { outcome: Ok(state) } && state@ == default_state(),
{
}

/// A state file whose bytes are no UTF-8 text ends a load in a
/// deserialization error, never in the defaults.
pub proof fn lemma_undecodable_file_is_an_error(content: Vec<u8>, action: LoadAction)
    requires
        !valid_utf8(content@),
        load_answers(LoadEvent::FileRead { outcome: Ok(content) }, action),
    ensures
        action matches LoadAction::Finish { outcome: Err(error) } && error@ is Deserialization,
{
}

/// A save overwrites: after two saves in a row the file holds what the second
/// alone would have left, and a load finds nothing of the first, nor of what
/// the file held before.
pub proof fn lemma_save_overwrites(
    before: Option<Seq<u8>>,
    other: Option<Seq<u8>>,
    first: DeviceStateView,
    second: DeviceStateView,
)
    ensures
        file_after_save(file_after_save(before, first), second) == file_after_save(other, second),
        stored_state(file_after_save(file_after_save(before, first), second)) == stored_state(
            file_after_save(other, second),
        ),
{
}

/// A save is idempotent: saving the same state a second time changes neither
/// the file nor what a load finds in it.
pub proof fn lemma_save_is_idempotent(before: Option<Seq<u8>>, state: DeviceStateView)
    ensures
        file_after_save(file_after_save(before, state), state) == file_after_save(before, state),
        stored_state(file_after_save(file_after_save(before, state), state)) == stored_state(
            file_after_save(before, state),
        ),
{
}

/// What a load finds after a save is what the JSON reader makes of the saved
/// text: the file's bytes always decode to that text again.
pub proof fn lemma_saved_file_is_read_as_its_text(before: Option<Seq<u8>>, state: DeviceStateView)
    ensures
        stored_state(file_after_save(before, state)) == match json_object_members(
            state_text(state),
        ) {
            Some(members) => document_state(members),
            None => None,
        },
{
    encode_utf8_valid_utf8(state_text(state));
    encode_utf8_decode_utf8(state_text(state));
}

/// A load after a save gives back the saved state, provided that the JSON
/// reader finds in the saved text the two members that the writer was given,
/// in whichever order. That the reader does so is a matter of the JSON
/// library and is not shown here.
pub proof fn lemma_saved_members_load_back(before: Option<Seq<u8>>, state: DeviceStateView)
    ensures
        json_object_members(state_text(state)) == Some(state_members(state)) ==> stored_state(
            file_after_save(before, state),
        ) == Some(state),
        json_object_members(state_text(state)) == Some(state_members(state).reverse())
            ==> stored_state(file_after_save(before, state)) == Some(state),
{
    lemma_state_members_read_back(state);
    lemma_saved_file_is_read_as_its_text(before, state);
}

} // verus!
