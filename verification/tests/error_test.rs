// The sentences that describe the error kinds.

use facingtime_core::error::CoreError;

#[test]
fn each_error_has_its_sentence() {
    assert_eq!(CoreError::NotRunning.message(), "Server is not running");
    assert_eq!(CoreError::AlreadyRunning.message(), "Server is already running");
    assert_eq!(
        CoreError::BindFailed("0.0.0.0:80".to_string()).message(),
        "Failed to bind to address: 0.0.0.0:80"
    );
    assert_eq!(
        CoreError::InvalidAddress("nowhere".to_string()).message(),
        "Invalid address format: nowhere"
    );
    assert_eq!(
        CoreError::StaticDirNotFound("/missing".to_string()).message(),
        "Static directory not found: /missing"
    );
    assert_eq!(CoreError::IoError("broken pipe".to_string()).message(), "IO error: broken pipe");
    assert_eq!(
        CoreError::JsonError("eof".to_string()).message(),
        "JSON serialization error: eof"
    );
    assert_eq!(CoreError::Unknown.message(), "Unknown error occurred");
    assert_eq!(CoreError::IoError(String::new()).message(), "IO error: ");
}
