use zitadel_cli::error::{IoError, ZitadelCLIError};
use zitadel_cli::logout::logout;

#[test]
fn logout_after_removal_succeeds() {
    assert_eq!(logout(Ok(())), Ok(()));
}

#[test]
fn logout_without_a_file_succeeds() {
    let missing = IoError { not_found: true, message: "No such file or directory (os error 2)".to_string() };
    assert_eq!(logout(Err(missing.clone())), Ok(()));
    assert_eq!(logout(Err(missing)), Ok(()));
}

#[test]
fn logout_reports_other_failures() {
    let denied = IoError { not_found: false, message: "Permission denied (os error 13)".to_string() };
    assert_eq!(logout(Err(denied.clone())), Err(ZitadelCLIError::IO(denied)));
}
