use vstd::prelude::*;
use vstd::utf8::*;

verus! {

/// Result codes of the storage engine.
pub const FR_OK: u8 = 0;
pub const FR_DISK_ERR: u8 = 1;
pub const FR_INT_ERR: u8 = 2;
pub const FR_NOT_READY: u8 = 3;
pub const FR_NO_FILE: u8 = 4;
pub const FR_NO_PATH: u8 = 5;
pub const FR_INVALID_NAME: u8 = 6;
pub const FR_DENIED: u8 = 7;
pub const FR_EXIST: u8 = 8;
pub const FR_INVALID_OBJECT: u8 = 9;
pub const FR_WRITE_PROTECTED: u8 = 10;
pub const FR_INVALID_DRIVE: u8 = 11;
pub const FR_NOT_ENABLED: u8 = 12;
pub const FR_NO_FILESYSTEM: u8 = 13;
pub const FR_MKFS_ABORTED: u8 = 14;
pub const FR_TIMEOUT: u8 = 15;
pub const FR_LOCKED: u8 = 16;
pub const FR_NOT_ENOUGH_CORE: u8 = 17;
pub const FR_TOO_MANY_OPEN_FILES: u8 = 18;
pub const FR_INVALID_PARAMETER: u8 = 19;

/// The kinds of failure that file operations report.
#[derive(Clone, Copy, Debug, PartialEq, Eq, Structural)]
pub enum ErrorKind {
    NotFound,
    InvalidInput,
    PermissionDenied,
    AlreadyExists,
    InvalidData,
    TimedOut,
    WriteZero,
    Other,
}

/// A failed file operation: what kind of failure, and a description.
#[derive(Clone, Copy, Debug)]
pub struct IoError {
    pub kind: ErrorKind,
    pub message: &'static str,
}

impl IoError {
    pub fn new(kind: ErrorKind, message: &'static str) -> (r: IoError)
        ensures
            r.kind == kind,
            r.message == message,
    {
        IoError { kind, message }
    }

    pub fn kind(&self) -> (r: ErrorKind)
        ensures
            r == self.kind,
    {
        self.kind
    }

    pub fn message(&self) -> (r: &'static str)
        ensures
            r == self.message,
    {
        self.message
    }
}

/// The kind of failure that an engine result code stands for; `None` for
/// success. Every code has a kind: those the engine does not document are
/// `Other`.
pub open spec fn kind_of_code(code: u8) -> Option<ErrorKind> {
    if code == FR_OK {
        None
    } else if code == FR_NO_FILE || code == FR_NO_PATH || code == FR_NO_FILESYSTEM {
        Some(ErrorKind::NotFound)
    } else if code == FR_INVALID_NAME || code == FR_INVALID_DRIVE || code
        == FR_INVALID_PARAMETER {
        Some(ErrorKind::InvalidInput)
    } else if code == FR_DENIED || code == FR_WRITE_PROTECTED || code == FR_LOCKED {
        Some(ErrorKind::PermissionDenied)
    } else if code == FR_EXIST {
        Some(ErrorKind::AlreadyExists)
    } else if code == FR_INVALID_OBJECT {
        Some(ErrorKind::InvalidData)
    } else if code == FR_TIMEOUT {
        Some(ErrorKind::TimedOut)
    } else {
        Some(ErrorKind::Other)
    }
}

/// The description that comes with the error for an engine result code.
pub open spec fn message_of_code(code: u8) -> &'static str {
    if code == FR_DISK_ERR {
        "hard disk error"
    } else if code == FR_INT_ERR {
        "internal assertion failed"
    } else if code == FR_NOT_READY {
        "the drive is not ready to work"
    } else if code == FR_NO_FILE {
        "no such file"
    } else if code == FR_NO_PATH {
        "no such path"
    } else if code == FR_INVALID_NAME {
        "invalid path name format"
    } else if code == FR_DENIED {
        "access denied or directory full"
    } else if code == FR_EXIST {
        "access denied"
    } else if code == FR_INVALID_OBJECT {
        "invalid file or directory object"
    } else if code == FR_WRITE_PROTECTED {
        "the drive is write protected"
    } else if code == FR_INVALID_DRIVE {
        "invalid drive number"
    } else if code == FR_NOT_ENABLED {
        "drive not enabled/has no work area"
    } else if code == FR_NO_FILESYSTEM {
        "drive has no FAT filesystem"
    } else if code == FR_MKFS_ABORTED {
        "internal function f_mkfs encountered an error"
    } else if code == FR_TIMEOUT {
        "could not give access to the filesystem in time"
    } else if code == FR_LOCKED {
        "operation violated the file sharing policy"
    } else if code == FR_NOT_ENOUGH_CORE {
        "LFN working buffer could not be allocated"
    } else if code == FR_TOO_MANY_OPEN_FILES {
        "too many open files. you may only have 8 open files at a given time"
    } else if code == FR_INVALID_PARAMETER {
        "invalid parameter given"
    } else {
        "unknown error"
    }
}

/// Classifies an engine result code: `None` on success, else the error it
/// stands for.
pub fn fresult_to_io_error(fresult: u8) -> (r: Option<IoError>)
    ensures
        r is None <==> kind_of_code(fresult) is None,
        r matches Some(e) ==> kind_of_code(fresult) == Some(e.kind) && e.message
            == message_of_code(fresult),
{
    match fresult {
        FR_OK => None,
        FR_DISK_ERR => Some(IoError::new(ErrorKind::Other, "hard disk error")),
        FR_INT_ERR => Some(IoError::new(ErrorKind::Other, "internal assertion failed")),
        FR_NOT_READY => Some(IoError::new(ErrorKind::Other, "the drive is not ready to work")),
        FR_NO_FILE => Some(IoError::new(ErrorKind::NotFound, "no such file")),
        FR_NO_PATH => Some(IoError::new(ErrorKind::NotFound, "no such path")),
        FR_INVALID_NAME => Some(IoError::new(ErrorKind::InvalidInput, "invalid path name format")),
        FR_DENIED => Some(
            IoError::new(ErrorKind::PermissionDenied, "access denied or directory full"),
        ),
        FR_EXIST => Some(IoError::new(ErrorKind::AlreadyExists, "access denied")),
        FR_INVALID_OBJECT => Some(
            IoError::new(ErrorKind::InvalidData, "invalid file or directory object"),
        ),
        FR_WRITE_PROTECTED => Some(
            IoError::new(ErrorKind::PermissionDenied, "the drive is write protected"),
        ),
        FR_INVALID_DRIVE => Some(IoError::new(ErrorKind::InvalidInput, "invalid drive number")),
        FR_NOT_ENABLED => Some(
            IoError::new(ErrorKind::Other, "drive not enabled/has no work area"),
        ),
        FR_NO_FILESYSTEM => Some(IoError::new(ErrorKind::NotFound, "drive has no FAT filesystem")),
        FR_MKFS_ABORTED => Some(
            IoError::new(ErrorKind::Other, "internal function f_mkfs encountered an error"),
        ),
        FR_TIMEOUT => Some(
            IoError::new(ErrorKind::TimedOut, "could not give access to the filesystem in time"),
        ),
        FR_LOCKED => Some(
            IoError::new(ErrorKind::PermissionDenied, "operation violated the file sharing policy"),
        ),
        FR_NOT_ENOUGH_CORE => Some(
            IoError::new(ErrorKind::Other, "LFN working buffer could not be allocated"),
        ),
        FR_TOO_MANY_OPEN_FILES => Some(
            IoError::new(
                ErrorKind::Other,
                "too many open files. you may only have 8 open files at a given time",
            ),
        ),
        FR_INVALID_PARAMETER => Some(IoError::new(ErrorKind::InvalidInput, "invalid parameter given")),
        _ => Some(IoError::new(ErrorKind::Other, "unknown error")),
    }
}

/// Turns the result code of a mount request into the outcome of the check
/// that opens every file operation.
pub fn valide_fs(mount_result: u8) -> (r: Result<(), IoError>)
    ensures
        r is Ok <==> mount_result == FR_OK,
        r matches Err(e) ==> kind_of_code(mount_result) == Some(e.kind) && e.message
            == message_of_code(mount_result),
{
    match fresult_to_io_error(mount_result) {
        Some(err) => Err(err),
        None => Ok(()),
    }
}

/// The outcome of an open request, from whether the engine handed back a
/// null handle. A null handle means that no file was opened, and so nothing
/// is left to close.
pub fn check_handle(handle_is_null: bool) -> (r: Result<(), IoError>)
    ensures
        r is Ok <==> !handle_is_null,
        r matches Err(e) ==> e.kind == ErrorKind::NotFound,
{
    if handle_is_null {
        Err(IoError::new(ErrorKind::NotFound, "file not found"))
    } else {
        Ok(())
    }
}

/// The outcome of an exclusive create, from whether the path already names
/// a file: that is refused, anything else goes on as a plain create.
pub fn check_create_new(already_exists: bool) -> (r: Result<(), IoError>)
    ensures
        r is Ok <==> !already_exists,
        r matches Err(e) ==> e.kind == ErrorKind::AlreadyExists,
{
    if already_exists {
        Err(IoError::new(ErrorKind::AlreadyExists, "file already exists"))
    } else {
        Ok(())
    }
}

/// The outcome of a read, from the count that the engine reported. A short
/// count, zero included, is a success; a negative one is an error.
pub fn read_result(count: i32) -> (r: Result<usize, IoError>)
    ensures
        r is Ok <==> count >= 0,
        r matches Ok(n) ==> n == count,
        r matches Err(e) ==> e.kind == ErrorKind::Other,
{
    if count < 0 {
        Err(IoError::new(ErrorKind::Other, "read error"))
    } else {
        Ok(count as usize)
    }
}

/// The outcome of writing `requested` bytes, from the count that the engine
/// reported: a negative count is a write error, and zero bytes written out
/// of a non-empty buffer is `WriteZero`.
pub fn write_result(count: i32, requested: usize) -> (r: Result<usize, IoError>)
    ensures
        r is Ok <==> count > 0 || (count == 0 && requested == 0),
        r matches Ok(n) ==> n == count,
        r matches Err(e) ==> (count < 0 ==> e.kind == ErrorKind::Other) && (count >= 0
            ==> e.kind == ErrorKind::WriteZero),
{
    if count < 0 {
        Err(IoError::new(ErrorKind::Other, "write error"))
    } else if count == 0 && requested > 0 {
        Err(IoError::new(ErrorKind::WriteZero, "could not write any bytes"))
    } else {
        Ok(count as usize)
    }
}

/// Relies on String::from_utf8: it accepts exactly the valid UTF-8
/// sequences, and the text it then builds is what those bytes encode.
#[verifier::external_body]
fn string_from_utf8(bytes: Vec<u8>) -> (r: Option<String>)
    ensures
        r is Some <==> valid_utf8(bytes@),
        r matches Some(s) ==> s@ == decode_utf8(bytes@),
{
    String::from_utf8(bytes).ok()
}

/// The contents of a file as text; bytes that are not valid UTF-8 are
/// `InvalidData`.
pub fn decode_text(bytes: Vec<u8>) -> (r: Result<String, IoError>)
    ensures
        r is Ok <==> valid_utf8(bytes@),
        r matches Ok(s) ==> s@ == decode_utf8(bytes@),
        r matches Err(e) ==> e.kind == ErrorKind::InvalidData,
{
    match string_from_utf8(bytes) {
        Some(s) => Ok(s),
        None => Err(IoError::new(ErrorKind::InvalidData, "stream did not contain valid UTF-8")),
    }
}

} // verus!
