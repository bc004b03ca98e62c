use ease_md_core::error::CoreError;

#[test]
fn fixed_failures_have_fixed_texts() {
    assert_eq!(CoreError::ToolNotFound.message(), "PicGo path not found");
    assert_eq!(CoreError::ImageNotFound.message(), "Image path not found");
    assert_eq!(CoreError::FileNotFound.message(), "Path does not exist");
}

#[test]
fn carried_texts_are_the_message() {
    assert_eq!(CoreError::ImageWriteFailed("a".to_string()).message(), "a");
    assert_eq!(CoreError::ProcessSpawnFailed("b".to_string()).message(), "b");
    assert_eq!(CoreError::ProcessExecutionFailed("c".to_string()).message(), "c");
    assert_eq!(CoreError::MenuInstallFailed("d".to_string()).message(), "d");
    assert_eq!(CoreError::PlatformApiFailed("e".to_string()).message(), "e");
}
