//! The failures that the operations of this library report.

use vstd::prelude::*;

verus! {

/// Why an operation failed. No failure is fatal: each is handed to the caller
/// as a text, through [`CoreError::message`].
#[derive(Debug, PartialEq, Eq)]
pub enum CoreError {
    /// The uploader executable is not where the caller said.
    ToolNotFound,
    /// The image to upload is not where the caller said.
    ImageNotFound,
    /// The path to reveal does not exist.
    FileNotFound,
    /// The image of a self-test could not be written; the text is the
    /// system's own.
    ImageWriteFailed(String),
    /// A process could not be started; the text is the system's own.
    ProcessSpawnFailed(String),
    /// A process ran and reported failure; the text is what it printed.
    ProcessExecutionFailed(String),
    /// The menu could not be built or installed.
    MenuInstallFailed(String),
    /// A call into the platform's shell failed.
    PlatformApiFailed(String),
}

/// The mathematical value of a [`CoreError`].
pub enum CoreErrorModel {
    ToolNotFound,
    ImageNotFound,
    FileNotFound,
    ImageWriteFailed(Seq<char>),
    ProcessSpawnFailed(Seq<char>),
    ProcessExecutionFailed(Seq<char>),
    MenuInstallFailed(Seq<char>),
    PlatformApiFailed(Seq<char>),
}

impl View for CoreError {
    type V = CoreErrorModel;

    open spec fn view(&self) -> CoreErrorModel {
        match self {
            CoreError::ToolNotFound => CoreErrorModel::ToolNotFound,
            CoreError::ImageNotFound => CoreErrorModel::ImageNotFound,
            CoreError::FileNotFound => CoreErrorModel::FileNotFound,
            CoreError::ImageWriteFailed(text) => CoreErrorModel::ImageWriteFailed(text@),
            CoreError::ProcessSpawnFailed(text) => CoreErrorModel::ProcessSpawnFailed(text@),
            CoreError::ProcessExecutionFailed(text) => CoreErrorModel::ProcessExecutionFailed(
                text@,
            ),
            CoreError::MenuInstallFailed(text) => CoreErrorModel::MenuInstallFailed(text@),
            CoreError::PlatformApiFailed(text) => CoreErrorModel::PlatformApiFailed(text@),
        }
    }
}

/// The text under which a failure reaches the caller.
pub open spec fn message_of(error: CoreErrorModel) -> Seq<char> {
    match error {
        CoreErrorModel::ToolNotFound => "PicGo path not found"@,
        CoreErrorModel::ImageNotFound => "Image path not found"@,
        CoreErrorModel::FileNotFound => "Path does not exist"@,
        CoreErrorModel::ImageWriteFailed(text) => text,
        CoreErrorModel::ProcessSpawnFailed(text) => text,
        CoreErrorModel::ProcessExecutionFailed(text) => text,
        CoreErrorModel::MenuInstallFailed(text) => text,
        CoreErrorModel::PlatformApiFailed(text) => text,
    }
}

impl CoreError {
    /// The text under which this failure reaches the caller.
    pub fn message(&self) -> (r: String)
        ensures
            r@ == message_of(self@),
    {
        match self {
            CoreError::ToolNotFound => "PicGo path not found".to_owned(),
            CoreError::ImageNotFound => "Image path not found".to_owned(),
            CoreError::FileNotFound => "Path does not exist".to_owned(),
            CoreError::ImageWriteFailed(text) => text.clone(),
            CoreError::ProcessSpawnFailed(text) => text.clone(),
            CoreError::ProcessExecutionFailed(text) => text.clone(),
            CoreError::MenuInstallFailed(text) => text.clone(),
            CoreError::PlatformApiFailed(text) => text.clone(),
        }
    }
}

/// Whether `r` is the failure `wanted`.
pub open spec fn fails_with<T>(r: Result<T, CoreError>, wanted: CoreErrorModel) -> bool {
    r matches Err(error) && error@ == wanted
}

} // verus!
