use audio_playback::error::Error;

#[test]
fn zero_status_is_success() {
    assert_eq!(Error::from_os_status(0), Ok(()));
}

#[test]
fn nonzero_status_is_kept() {
    assert_eq!(Error::from_os_status(-50), Err(Error::Status(-50)));
    assert_eq!(Error::from_os_status(1), Err(Error::Status(1)));
    assert_eq!(Error::from_os_status(i32::MIN), Err(Error::Status(i32::MIN)));
}

#[test]
fn unresolved_path_is_a_file_error_without_status() {
    assert_eq!(Error::from_open_attempt(false, 0), Err(Error::File(None)));
    assert_eq!(Error::from_open_attempt(false, -43), Err(Error::File(None)));
}

#[test]
fn failed_open_is_a_file_error_with_status() {
    assert_eq!(Error::from_open_attempt(true, -43), Err(Error::File(Some(-43))));
    assert_eq!(Error::from_open_attempt(true, 0), Ok(()));
}

#[test]
fn teardown_failure_keeps_the_status_of_its_cause() {
    assert_eq!(Error::during_teardown(Error::Status(-10863)), Error::Teardown(Some(-10863)));
    assert_eq!(Error::during_teardown(Error::Unspecified), Error::Teardown(None));
    assert_eq!(Error::during_teardown(Error::File(Some(2))), Error::Teardown(Some(2)));
}

#[test]
fn status_is_given_where_there_is_one() {
    assert_eq!(Error::Status(7).os_status(), Some(7));
    assert_eq!(Error::File(None).os_status(), None);
    assert_eq!(Error::File(Some(-43)).os_status(), Some(-43));
    assert_eq!(Error::Unspecified.os_status(), None);
    assert_eq!(Error::Teardown(Some(3)).os_status(), Some(3));
}

#[test]
fn only_teardown_failure_is_fatal() {
    assert!(Error::Teardown(None).is_fatal());
    assert!(Error::Teardown(Some(1)).is_fatal());
    assert!(!Error::Status(1).is_fatal());
    assert!(!Error::File(None).is_fatal());
    assert!(!Error::Unspecified.is_fatal());
}
