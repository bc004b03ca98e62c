//! The uploader facade: what to run for each operation, and what the
//! outcome of the run means. Running the executable, reading the file
//! system and the clock are the caller's part; every decision is made here.

use crate::error::{fails_with, CoreError, CoreErrorModel};
use crate::process::{
    Invocation, InvocationModel, ProcessOutput, ProcessOutputModel, RunOutcome, RunOutcomeModel,
};
use crate::text::{decimal, decimal_text, joined, trim, trimmed};
use crate::url::{extract_url, extracted_url, merge_output, merged_output};
use vstd::prelude::*;

verus! {

/// What an upload came to.
#[derive(Debug, PartialEq, Eq)]
pub struct UploadResult {
    pub success: bool,
    pub url: Option<String>,
    pub stdout: String,
    pub stderr: String,
}

/// The mathematical value of an [`UploadResult`].
pub struct UploadResultModel {
    pub success: bool,
    pub url: Option<Seq<char>>,
    pub stdout: Seq<char>,
    pub stderr: Seq<char>,
}

impl View for UploadResult {
    type V = UploadResultModel;

    open spec fn view(&self) -> UploadResultModel {
        UploadResultModel {
            success: self.success,
            url: match self.url {
                Some(url) => Some(url@),
                None => None,
            },
            stdout: self.stdout@,
            stderr: self.stderr@,
        }
    }
}

/// The result that the output of an upload run amounts to.
pub open spec fn upload_result_of(output: ProcessOutputModel) -> UploadResultModel {
    UploadResultModel {
        success: output.success,
        url: extracted_url(output.stdout, output.stderr),
        stdout: output.stdout,
        stderr: output.stderr,
    }
}

/// Builds the result of an upload from what the uploader left behind: the
/// streams are kept as they are, and the address is recovered from them.
pub fn upload_result(output: ProcessOutput) -> (r: UploadResult)
    ensures
        r@ == upload_result_of(output@),
{
    let url = extract_url(output.stdout.as_str(), output.stderr.as_str());
    UploadResult { success: output.success, url, stdout: output.stdout, stderr: output.stderr }
}

/// The invocation that asks the uploader for its version.
pub open spec fn version_invocation(tool_path: Seq<char>) -> InvocationModel {
    InvocationModel { program: tool_path, args: seq!["--version"@] }
}

/// The invocation that uploads one image.
pub open spec fn upload_invocation(tool_path: Seq<char>, image_path: Seq<char>) -> InvocationModel {
    InvocationModel { program: tool_path, args: seq!["upload"@, image_path] }
}

/// Whether `r` is the invocation `wanted`.
pub open spec fn is_invocation(r: Result<Invocation, CoreError>, wanted: InvocationModel) -> bool {
    r matches Ok(invocation) && invocation@ == wanted
}

fn version_command(tool_path: &str) -> (r: Invocation)
    ensures
        r@ == version_invocation(tool_path@),
{
    let mut args: Vec<String> = Vec::new();
    args.push("--version".to_owned());
    let r = Invocation { program: tool_path.to_owned(), args };
    assert(r@.args =~= seq!["--version"@]);
    r
}

fn upload_command(tool_path: &str, image_path: &str) -> (r: Invocation)
    ensures
        r@ == upload_invocation(tool_path@, image_path@),
{
    let mut args: Vec<String> = Vec::new();
    args.push("upload".to_owned());
    args.push(image_path.to_owned());
    let r = Invocation { program: tool_path.to_owned(), args };
    assert(r@.args =~= seq!["upload"@, image_path@]);
    r
}

/// What to run to validate the uploader at `tool_path`: nothing where the
/// executable is missing, else the executable with its version flag.
pub fn plan_validate(tool_path: &str, tool_exists: bool) -> (r: Result<Invocation, CoreError>)
    ensures
        !tool_exists ==> fails_with(r, CoreErrorModel::ToolNotFound),
        tool_exists ==> is_invocation(r, version_invocation(tool_path@)),
{
    if !tool_exists {
        return Err(CoreError::ToolNotFound);
    }
    Ok(version_command(tool_path))
}

/// `text`, or `fallback` where `text` is empty.
pub open spec fn or_fallback(text: Seq<char>, fallback: Seq<char>) -> Seq<char> {
    if text.len() == 0 {
        fallback
    } else {
        text
    }
}

/// What a validation run means: the trimmed version text where the
/// uploader reported success, else its trimmed error text; each with a fixed
/// text in place of an empty one.
pub open spec fn validate_verdict(run: RunOutcomeModel) -> Result<Seq<char>, CoreErrorModel> {
    match run {
        RunOutcomeModel::NotStarted(reason) => Err(CoreErrorModel::ProcessSpawnFailed(reason)),
        RunOutcomeModel::Finished(output) => if output.success {
            Ok(or_fallback(trimmed(output.stdout), "PicGo detected"@))
        } else {
            Err(
                CoreErrorModel::ProcessExecutionFailed(
                    or_fallback(trimmed(output.stderr), "PicGo validate failed"@),
                ),
            )
        },
    }
}

/// Whether `r` is `wanted`, text for text and failure for failure.
pub open spec fn is_text_verdict(
    r: Result<String, CoreError>,
    wanted: Result<Seq<char>, CoreErrorModel>,
) -> bool {
    match r {
        Ok(text) => wanted == Ok::<Seq<char>, CoreErrorModel>(text@),
        Err(error) => wanted == Err::<Seq<char>, CoreErrorModel>(error@),
    }
}

fn text_or(text: String, fallback: &str) -> (r: String)
    ensures
        r@ == or_fallback(text@, fallback@),
{
    if text.as_str().is_empty() {
        fallback.to_owned()
    } else {
        text
    }
}

/// Reads the outcome of a validation run, as [`validate_verdict`] defines it.
pub fn finish_validate(run: RunOutcome) -> (r: Result<String, CoreError>)
    ensures
        is_text_verdict(r, validate_verdict(run@)),
{
    match run {
        RunOutcome::NotStarted(reason) => Err(CoreError::ProcessSpawnFailed(reason)),
        RunOutcome::Finished(output) => {
            if output.success {
                Ok(text_or(trim(output.stdout.as_str()), "PicGo detected"))
            } else {
                Err(
                    CoreError::ProcessExecutionFailed(
                        text_or(trim(output.stderr.as_str()), "PicGo validate failed"),
                    ),
                )
            }
        },
    }
}

/// What to run to upload the image at `image_path`: nothing where the
/// executable or the image is missing, the executable being looked at first.
pub fn plan_upload(tool_path: &str, tool_exists: bool, image_path: &str, image_exists: bool) -> (r:
    Result<Invocation, CoreError>)
    ensures
        !tool_exists ==> fails_with(r, CoreErrorModel::ToolNotFound),
        tool_exists && !image_exists ==> fails_with(r, CoreErrorModel::ImageNotFound),
        tool_exists && image_exists ==> is_invocation(
            r,
            upload_invocation(tool_path@, image_path@),
        ),
{
    if !tool_exists {
        return Err(CoreError::ToolNotFound);
    }
    if !image_exists {
        return Err(CoreError::ImageNotFound);
    }
    Ok(upload_command(tool_path, image_path))
}

/// The text of the failure of an upload whose process reported failure.
pub open spec fn upload_failure_text(output: ProcessOutputModel) -> Seq<char> {
    "PicGo upload failed: "@ + trimmed(merged_output(output.stdout, output.stderr))
}

/// What an upload run means: the result where the uploader reported
/// success; else a failure that carries all it printed.
pub open spec fn upload_verdict(run: RunOutcomeModel) -> Result<UploadResultModel, CoreErrorModel> {
    match run {
        RunOutcomeModel::NotStarted(reason) => Err(CoreErrorModel::ProcessSpawnFailed(reason)),
        RunOutcomeModel::Finished(output) => if output.success {
            Ok(upload_result_of(output))
        } else {
            Err(CoreErrorModel::ProcessExecutionFailed(upload_failure_text(output)))
        },
    }
}

/// Whether `r` is `wanted`, result for result and failure for failure.
pub open spec fn is_upload_verdict(
    r: Result<UploadResult, CoreError>,
    wanted: Result<UploadResultModel, CoreErrorModel>,
) -> bool {
    match r {
        Ok(result) => wanted == Ok::<UploadResultModel, CoreErrorModel>(result@),
        Err(error) => wanted == Err::<UploadResultModel, CoreErrorModel>(error@),
    }
}

/// Reads the outcome of an upload run, as [`upload_verdict`] defines it.
pub fn finish_upload(run: RunOutcome) -> (r: Result<UploadResult, CoreError>)
    ensures
        is_upload_verdict(r, upload_verdict(run@)),
{
    match run {
        RunOutcome::NotStarted(reason) => Err(CoreError::ProcessSpawnFailed(reason)),
        RunOutcome::Finished(output) => {
            if output.success {
                Ok(upload_result(output))
            } else {
                let merged = merge_output(output.stdout.as_str(), output.stderr.as_str());
                let shown = trim(merged.as_str());
                Err(
                    CoreError::ProcessExecutionFailed(
                        joined("PicGo upload failed: ", shown.as_str()),
                    ),
                )
            }
        },
    }
}

/// The name of the image file of a self-test made at `stamp_millis`
/// milliseconds since the epoch.
pub open spec fn self_test_name(stamp_millis: nat) -> Seq<char> {
    "ease-md-picgo-test-"@ + decimal(stamp_millis) + ".png"@
}

/// The name of the image file of a self-test; the time stamp in it keeps
/// self-tests that run at the same time apart.
pub fn self_test_file_name(stamp_millis: u128) -> (r: String)
    ensures
        r@ == self_test_name(stamp_millis as nat),
{
    let number = decimal_text(stamp_millis);
    let head = joined("ease-md-picgo-test-", number.as_str());
    joined(head.as_str(), ".png")
}

/// A transparent PNG image of one pixel.
pub const TEST_IMAGE: [u8; 67] = [
    137, 80, 78, 71, 13, 10, 26, 10, 0, 0, 0, 13, 73, 72, 68, 82, 0, 0, 0, 1, 0, 0, 0, 1, 8, 6, 0,
    0, 0, 31, 21, 196, 137, 0, 0, 0, 11, 73, 68, 65, 84, 120, 156, 99, 0, 1, 0, 0, 5, 0, 1, 13,
    10, 45, 180, 0, 0, 0, 0, 73, 69, 78, 68, 174, 66, 96, 130,
];

/// The bytes of the image that a self-test uploads.
pub fn test_image() -> (r: Vec<u8>)
    ensures
        r@ == TEST_IMAGE@,
{
    let mut out: Vec<u8> = Vec::new();
    let mut i: usize = 0;
    while i < 67
        invariant
            i <= 67,
            out@ == TEST_IMAGE@.take(i as int),
        decreases 67 - i,
    {
        out.push(TEST_IMAGE[i]);
        assert(TEST_IMAGE@.take(i + 1) == TEST_IMAGE@.take(i as int).push(TEST_IMAGE@[i as int]));
        i += 1;
    }
    assert(TEST_IMAGE@.take(67) == TEST_IMAGE@);
    out
}

/// The first step of a self-test: the image is to be written to `path`.
/// Nothing is on disk yet.
#[derive(Debug, PartialEq, Eq)]
pub struct ImageWrite {
    pub path: String,
    pub bytes: Vec<u8>,
    pub tool_path: String,
}

/// The second step of a self-test: the image is on disk and `invocation` is
/// to be run.
#[derive(Debug, PartialEq, Eq)]
pub struct UploadRun {
    pub invocation: Invocation,
    pub image_path: String,
}

/// The last step of a self-test: the file at `remove` is to be deleted,
/// whether or not that succeeds, and `outcome` handed to the caller.
#[derive(Debug, PartialEq, Eq)]
pub struct Cleanup {
    pub remove: String,
    pub outcome: Result<UploadResult, CoreError>,
}

/// What a self-test run means: the result, whatever the uploader reported.
pub open spec fn self_test_verdict(run: RunOutcomeModel) -> Result<
    UploadResultModel,
    CoreErrorModel,
> {
    match run {
        RunOutcomeModel::NotStarted(reason) => Err(CoreErrorModel::ProcessSpawnFailed(reason)),
        RunOutcomeModel::Finished(output) => Ok(upload_result_of(output)),
    }
}

/// Begins a self-test of the uploader at `tool_path`, whose image is to
/// stand at `image_path`: nothing is to be written where the executable is
/// missing.
pub fn plan_self_test(tool_path: &str, tool_exists: bool, image_path: &str) -> (r: Result<
    ImageWrite,
    CoreError,
>)
    ensures
        !tool_exists ==> fails_with(r, CoreErrorModel::ToolNotFound),
        tool_exists ==> (r matches Ok(write) && write.path@ == image_path@ && write.bytes@
            == TEST_IMAGE@ && write.tool_path@ == tool_path@),
{
    if !tool_exists {
        return Err(CoreError::ToolNotFound);
    }
    Ok(ImageWrite { path: image_path.to_owned(), bytes: test_image(), tool_path: tool_path.to_owned() })
}

impl ImageWrite {
    /// Takes the outcome of writing the image. Where it was written, the
    /// upload of that file is next; where it was not, the self-test ends
    /// with the system's own words, and there is nothing to delete.
    pub fn written(self, outcome: Result<(), String>) -> (r: Result<UploadRun, CoreError>)
        ensures
            match outcome {
                Ok(_) => (r matches Ok(run) && run.invocation@ == upload_invocation(
                    self.tool_path@,
                    self.path@,
                ) && run.image_path@ == self.path@),
                Err(reason) => fails_with(r, CoreErrorModel::ImageWriteFailed(reason@)),
            },
    {
        match outcome {
            Ok(_) => {
                let invocation = upload_command(self.tool_path.as_str(), self.path.as_str());
                Ok(UploadRun { invocation, image_path: self.path })
            },
            Err(reason) => Err(CoreError::ImageWriteFailed(reason)),
        }
    }
}

impl UploadRun {
    /// Takes the outcome of the upload. Whatever it is, and also where the
    /// uploader could not be started, the image is to be deleted before the
    /// outcome reaches the caller.
    pub fn finished(self, run: RunOutcome) -> (r: Cleanup)
        ensures
            r.remove@ == self.image_path@,
            is_upload_verdict(r.outcome, self_test_verdict(run@)),
    {
        let outcome = match run {
            RunOutcome::NotStarted(reason) => Err(CoreError::ProcessSpawnFailed(reason)),
            RunOutcome::Finished(output) => Ok(upload_result(output)),
        };
        Cleanup { remove: self.image_path, outcome }
    }
}

} // verus!
