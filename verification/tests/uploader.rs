use ease_md_core::error::CoreError;
use ease_md_core::process::{Invocation, ProcessOutput, RunOutcome};
use ease_md_core::upload::{
    finish_upload, finish_validate, plan_self_test, plan_upload, plan_validate,
    self_test_file_name, test_image, upload_result, UploadResult, TEST_IMAGE,
};

fn ran(success: bool, stdout: &str, stderr: &str) -> RunOutcome {
    RunOutcome::Finished(ProcessOutput {
        success,
        stdout: stdout.to_string(),
        stderr: stderr.to_string(),
    })
}

fn upload_of(tool: &str, image: &str) -> Invocation {
    Invocation { program: tool.to_string(), args: vec!["upload".to_string(), image.to_string()] }
}

#[test]
fn validate_needs_the_tool() {
    assert_eq!(plan_validate("/bin/picgo", false), Err(CoreError::ToolNotFound));
}

#[test]
fn validate_asks_for_the_version() {
    assert_eq!(
        plan_validate("/bin/picgo", true),
        Ok(Invocation { program: "/bin/picgo".to_string(), args: vec!["--version".to_string()] })
    );
}

#[test]
fn validate_reports_the_error_text_of_a_failed_run() {
    let verdict = finish_validate(ran(false, "", "bad flag"));
    assert_eq!(verdict, Err(CoreError::ProcessExecutionFailed("bad flag".to_string())));
    assert_eq!(verdict.unwrap_err().message(), "bad flag");
}

#[test]
fn validate_trims_the_error_text() {
    assert_eq!(
        finish_validate(ran(false, "1.0", "  bad flag\n")),
        Err(CoreError::ProcessExecutionFailed("bad flag".to_string()))
    );
}

#[test]
fn validate_has_a_text_for_a_silent_failure() {
    assert_eq!(
        finish_validate(ran(false, "ignored", " \n")),
        Err(CoreError::ProcessExecutionFailed("PicGo validate failed".to_string()))
    );
}

#[test]
fn validate_gives_the_trimmed_version() {
    assert_eq!(finish_validate(ran(true, " 1.5.0\n", "warning")), Ok("1.5.0".to_string()));
}

#[test]
fn validate_has_a_text_for_a_silent_success() {
    assert_eq!(finish_validate(ran(true, "\n", "noise")), Ok("PicGo detected".to_string()));
}

#[test]
fn validate_reports_a_tool_that_did_not_start() {
    assert_eq!(
        finish_validate(RunOutcome::NotStarted("permission denied".to_string())),
        Err(CoreError::ProcessSpawnFailed("permission denied".to_string()))
    );
}

#[test]
fn upload_needs_tool_and_image() {
    assert_eq!(plan_upload("/bin/picgo", false, "/i.png", true), Err(CoreError::ToolNotFound));
    assert_eq!(plan_upload("/bin/picgo", false, "/i.png", false), Err(CoreError::ToolNotFound));
    assert_eq!(plan_upload("/bin/picgo", true, "/i.png", false), Err(CoreError::ImageNotFound));
}

#[test]
fn upload_runs_the_upload_subcommand() {
    assert_eq!(
        plan_upload("/bin/picgo", true, "/tmp/my image.png", true),
        Ok(upload_of("/bin/picgo", "/tmp/my image.png"))
    );
}

#[test]
fn upload_result_keeps_the_streams_and_finds_the_address() {
    let result = upload_result(ProcessOutput {
        success: true,
        stdout: "Uploaded: https://example.com/a.png\n".to_string(),
        stderr: "warn".to_string(),
    });
    assert_eq!(
        result,
        UploadResult {
            success: true,
            url: Some("https://example.com/a.png".to_string()),
            stdout: "Uploaded: https://example.com/a.png\n".to_string(),
            stderr: "warn".to_string(),
        }
    );
}

#[test]
fn upload_result_without_an_address() {
    let result = upload_result(ProcessOutput {
        success: false,
        stdout: "nothing".to_string(),
        stderr: String::new(),
    });
    assert_eq!(
        result,
        UploadResult {
            success: false,
            url: None,
            stdout: "nothing".to_string(),
            stderr: String::new(),
        }
    );
}

#[test]
fn a_successful_upload_gives_its_result() {
    assert_eq!(
        finish_upload(ran(true, "{\"result\":[\"https://x.io/b.png\"]}", "")),
        Ok(UploadResult {
            success: true,
            url: Some("https://x.io/b.png".to_string()),
            stdout: "{\"result\":[\"https://x.io/b.png\"]}".to_string(),
            stderr: String::new(),
        })
    );
}

#[test]
fn a_successful_upload_may_have_no_address() {
    assert_eq!(
        finish_upload(ran(true, "ok", "")),
        Ok(UploadResult {
            success: true,
            url: None,
            stdout: "ok".to_string(),
            stderr: String::new(),
        })
    );
}

#[test]
fn a_failed_upload_carries_all_that_was_printed() {
    let verdict = finish_upload(ran(false, " partial https://x.io/b.png", "boom \n"));
    assert_eq!(
        verdict,
        Err(CoreError::ProcessExecutionFailed(
            "PicGo upload failed: partial https://x.io/b.png\nboom".to_string()
        ))
    );
}

#[test]
fn a_failed_silent_upload_has_the_bare_text() {
    assert_eq!(
        finish_upload(ran(false, "", "")),
        Err(CoreError::ProcessExecutionFailed("PicGo upload failed: ".to_string()))
    );
}

#[test]
fn an_upload_that_did_not_start() {
    assert_eq!(
        finish_upload(RunOutcome::NotStarted("no such file".to_string())),
        Err(CoreError::ProcessSpawnFailed("no such file".to_string()))
    );
}

#[test]
fn self_test_file_name_holds_the_stamp() {
    assert_eq!(self_test_file_name(1700000000123), "ease-md-picgo-test-1700000000123.png");
    assert_eq!(self_test_file_name(0), "ease-md-picgo-test-0.png");
    assert_ne!(self_test_file_name(1), self_test_file_name(2));
}

#[test]
fn test_image_is_a_one_pixel_png() {
    let image = test_image();
    assert_eq!(image.len(), 67);
    assert_eq!(image, TEST_IMAGE.to_vec());
    assert_eq!(&image[0..8], &[137, 80, 78, 71, 13, 10, 26, 10]);
    assert_eq!(&image[12..16], b"IHDR");
    assert_eq!(&image[16..24], &[0, 0, 0, 1, 0, 0, 0, 1]);
    assert_eq!(&image[59..63], b"IEND");
}

#[test]
fn self_test_needs_the_tool() {
    assert_eq!(plan_self_test("/bin/picgo", false, "/tmp/t.png"), Err(CoreError::ToolNotFound));
}

#[test]
fn self_test_writes_the_image_first() {
    let write = plan_self_test("/bin/picgo", true, "/tmp/t.png").unwrap();
    assert_eq!(write.path, "/tmp/t.png");
    assert_eq!(write.bytes, TEST_IMAGE.to_vec());
    assert_eq!(write.tool_path, "/bin/picgo");
}

#[test]
fn self_test_ends_where_the_image_cannot_be_written() {
    let write = plan_self_test("/bin/picgo", true, "/tmp/t.png").unwrap();
    assert_eq!(
        write.written(Err("disk full".to_string())),
        Err(CoreError::ImageWriteFailed("disk full".to_string()))
    );
}

#[test]
fn self_test_uploads_the_written_image() {
    let write = plan_self_test("/bin/picgo", true, "/tmp/t.png").unwrap();
    let run = write.written(Ok(())).unwrap();
    assert_eq!(run.invocation, upload_of("/bin/picgo", "/tmp/t.png"));
    assert_eq!(run.image_path, "/tmp/t.png");
}

#[test]
fn self_test_removes_the_image_after_a_good_upload() {
    let run = plan_self_test("/bin/picgo", true, "/tmp/t.png").unwrap().written(Ok(())).unwrap();
    let cleanup = run.finished(ran(true, "https://x.io/t.png", ""));
    assert_eq!(cleanup.remove, "/tmp/t.png");
    assert_eq!(
        cleanup.outcome,
        Ok(UploadResult {
            success: true,
            url: Some("https://x.io/t.png".to_string()),
            stdout: "https://x.io/t.png".to_string(),
            stderr: String::new(),
        })
    );
}

#[test]
fn self_test_removes_the_image_after_a_failed_upload() {
    let run = plan_self_test("/bin/picgo", true, "/tmp/t.png").unwrap().written(Ok(())).unwrap();
    let cleanup = run.finished(ran(false, "", "no config"));
    assert_eq!(cleanup.remove, "/tmp/t.png");
    assert_eq!(
        cleanup.outcome,
        Ok(UploadResult {
            success: false,
            url: None,
            stdout: String::new(),
            stderr: "no config".to_string(),
        })
    );
}

#[test]
fn self_test_removes_the_image_when_the_tool_does_not_start() {
    let run = plan_self_test("/bin/picgo", true, "/tmp/t.png").unwrap().written(Ok(())).unwrap();
    let cleanup = run.finished(RunOutcome::NotStarted("not executable".to_string()));
    assert_eq!(cleanup.remove, "/tmp/t.png");
    assert_eq!(cleanup.outcome, Err(CoreError::ProcessSpawnFailed("not executable".to_string())));
}
