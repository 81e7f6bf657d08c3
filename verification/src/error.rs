//! The failures an operation can end in, and the text shown for each.

use vstd::prelude::*;

verus! {

/// The file-system step that failed.
#[derive(Debug, Clone, Copy, PartialEq, Eq, Structural)]
pub enum IoOperation {
    /// Creating the application data directory and its missing parents.
    CreateDirectory,
    /// Writing the state file.
    WriteFile,
    /// Reading the state file.
    ReadFile,
}

/// Why an operation failed. A `detail` is the underlying cause as text.
#[derive(Debug)]
pub enum DeviceError {
    /// The host could not supply an application data directory.
    DirectoryResolution,
    /// Creating the directory, or reading or writing the state file, failed.
    Io { operation: IoOperation, detail: String },
    /// The state could not be encoded.
    Serialization { detail: String },
    /// The state file is not JSON, or not a JSON object of the expected shape.
    Deserialization { detail: String },
    /// The headphone configuration is not one of the three known modes.
    InvalidConfiguration,
}

/// The mathematical value of a [`DeviceError`].
pub enum DeviceErrorView {
    DirectoryResolution,
    Io { operation: IoOperation, detail: Seq<char> },
    Serialization { detail: Seq<char> },
    Deserialization { detail: Seq<char> },
    InvalidConfiguration,
}

impl View for DeviceError {
    type V = DeviceErrorView;

    open spec fn view(&self) -> DeviceErrorView {
        match self {
            DeviceError::DirectoryResolution => DeviceErrorView::DirectoryResolution,
            DeviceError::Io { operation, detail } => DeviceErrorView::Io {
                operation: *operation,
                detail: detail@,
            },
            DeviceError::Serialization { detail } => DeviceErrorView::Serialization {
                detail: detail@,
            },
            DeviceError::Deserialization { detail } => DeviceErrorView::Deserialization {
                detail: detail@,
            },
            DeviceError::InvalidConfiguration => DeviceErrorView::InvalidConfiguration,
        }
    }
}

/// What comes before the detail in the message of a failed file-system step.
pub open spec fn io_prefix(operation: IoOperation) -> Seq<char> {
    match operation {
        IoOperation::CreateDirectory => "Failed to create app directory: "@,
        IoOperation::WriteFile => "Failed to write state file: "@,
        IoOperation::ReadFile => "Failed to read state file: "@,
    }
}

/// The text a caller is shown for an error: a fixed sentence, followed by the
/// detail where the error carries one.
pub open spec fn message_text(error: DeviceErrorView) -> Seq<char> {
    match error {
        DeviceErrorView::DirectoryResolution => "Failed to get app data directory"@,
        DeviceErrorView::Io { operation, detail } => io_prefix(operation) + detail,
        DeviceErrorView::Serialization { detail } => "Failed to serialize state: "@ + detail,
        DeviceErrorView::Deserialization { detail } => "Failed to deserialize state: "@ + detail,
        DeviceErrorView::InvalidConfiguration => "Invalid headphone configuration"@,
    }
}

impl DeviceError {
    /// The descriptive string handed to the caller in place of the error.
    pub fn message(&self) -> (text: String)
        ensures
            text@ == message_text(self@),
    {
        match self {
            DeviceError::DirectoryResolution => String::from_str(
                "Failed to get app data directory",
            ),
            DeviceError::Io { operation, detail } => {
                let prefix = match operation {
                    IoOperation::CreateDirectory => "Failed to create app directory: ",
                    IoOperation::WriteFile => "Failed to write state file: ",
                    IoOperation::ReadFile => "Failed to read state file: ",
                };
                String::from_str(prefix).concat(detail.as_str())
            },
            DeviceError::Serialization { detail } => String::from_str(
                "Failed to serialize state: ",
            ).concat(detail.as_str()),
            DeviceError::Deserialization { detail } => String::from_str(
                "Failed to deserialize state: ",
            ).concat(detail.as_str()),
            DeviceError::InvalidConfiguration => String::from_str(
                "Invalid headphone configuration",
            ),
        }
    }
}

} // verus!
