use vexide_fs::fs::{
    check_create_new, check_handle, decode_text, fresult_to_io_error, read_result, valide_fs,
    write_result, ErrorKind, FR_DENIED, FR_DISK_ERR, FR_EXIST, FR_INVALID_NAME,
    FR_INVALID_OBJECT, FR_LOCKED, FR_NO_FILE, FR_NO_FILESYSTEM, FR_NO_PATH, FR_OK, FR_TIMEOUT,
    FR_TOO_MANY_OPEN_FILES, FR_WRITE_PROTECTED,
};

fn kind_of(code: u8) -> Option<ErrorKind> {
    fresult_to_io_error(code).map(|e| e.kind())
}

#[test]
fn classify_success() {
    assert!(fresult_to_io_error(FR_OK).is_none());
}

#[test]
fn classify_not_found() {
    assert_eq!(kind_of(FR_NO_FILE), Some(ErrorKind::NotFound));
    assert_eq!(kind_of(FR_NO_PATH), Some(ErrorKind::NotFound));
    assert_eq!(kind_of(FR_NO_FILESYSTEM), Some(ErrorKind::NotFound));
    assert_eq!(fresult_to_io_error(FR_NO_FILE).unwrap().message(), "no such file");
}

#[test]
fn classify_already_exists() {
    assert_eq!(kind_of(FR_EXIST), Some(ErrorKind::AlreadyExists));
}

#[test]
fn classify_unknown_code_is_other() {
    assert_eq!(kind_of(20), Some(ErrorKind::Other));
    assert_eq!(kind_of(255), Some(ErrorKind::Other));
    assert_eq!(fresult_to_io_error(200).unwrap().message(), "unknown error");
}

#[test]
fn classify_other_kinds() {
    assert_eq!(kind_of(FR_DISK_ERR), Some(ErrorKind::Other));
    assert_eq!(kind_of(FR_TOO_MANY_OPEN_FILES), Some(ErrorKind::Other));
    assert_eq!(kind_of(FR_INVALID_NAME), Some(ErrorKind::InvalidInput));
    assert_eq!(kind_of(FR_DENIED), Some(ErrorKind::PermissionDenied));
    assert_eq!(kind_of(FR_WRITE_PROTECTED), Some(ErrorKind::PermissionDenied));
    assert_eq!(kind_of(FR_LOCKED), Some(ErrorKind::PermissionDenied));
    assert_eq!(kind_of(FR_INVALID_OBJECT), Some(ErrorKind::InvalidData));
    assert_eq!(kind_of(FR_TIMEOUT), Some(ErrorKind::TimedOut));
}

#[test]
fn mount_check() {
    assert!(valide_fs(FR_OK).is_ok());
    assert_eq!(valide_fs(FR_NOT_READY_CODE).unwrap_err().kind(), ErrorKind::Other);
    assert_eq!(valide_fs(FR_NO_FILESYSTEM).unwrap_err().kind(), ErrorKind::NotFound);
}

const FR_NOT_READY_CODE: u8 = 3;

#[test]
fn write_zero_bytes_of_nonempty_buffer() {
    assert_eq!(write_result(0, 5).unwrap_err().kind(), ErrorKind::WriteZero);
}

#[test]
fn write_results() {
    assert_eq!(write_result(-1, 5).unwrap_err().kind(), ErrorKind::Other);
    assert_eq!(write_result(3, 5).unwrap(), 3);
    assert_eq!(write_result(0, 0).unwrap(), 0);
}

#[test]
fn read_results() {
    assert_eq!(read_result(0).unwrap(), 0);
    assert_eq!(read_result(17).unwrap(), 17);
    assert_eq!(read_result(-1).unwrap_err().kind(), ErrorKind::Other);
}

#[test]
fn null_handle_is_not_found() {
    assert_eq!(check_handle(true).unwrap_err().kind(), ErrorKind::NotFound);
    assert!(check_handle(false).is_ok());
}

#[test]
fn create_new_refuses_existing() {
    assert_eq!(check_create_new(true).unwrap_err().kind(), ErrorKind::AlreadyExists);
    assert!(check_create_new(false).is_ok());
}

#[test]
fn decode_valid_text() {
    assert_eq!(decode_text(b"hello \xc3\xa9".to_vec()).unwrap(), "hello é");
}

#[test]
fn decode_invalid_text() {
    assert_eq!(decode_text(vec![0xff, 0x41]).unwrap_err().kind(), ErrorKind::InvalidData);
}
