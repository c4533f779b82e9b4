use vexide_fs::fs_str::FsStr;
use vexide_fs::path::{Path, PathBuf};

#[test]
fn view_text_round_trip() {
    let bytes: &[u8] = "dir/naïve.txt".as_bytes();
    let view = FsStr::from_encoded_bytes_unchecked(bytes);
    assert_eq!(view.to_str().as_bytes(), bytes);
    assert_eq!(view.to_str(), "dir/naïve.txt");
    assert_eq!(view.to_bytes(), bytes);
}

#[test]
fn view_length_and_emptiness() {
    let empty = FsStr::new("");
    assert!(empty.is_empty());
    assert_eq!(empty.len(), 0);
    let name = FsStr::new("é.txt");
    assert!(!name.is_empty());
    assert_eq!(name.len(), 6);
}

#[test]
fn view_is_ascii() {
    assert!(FsStr::new("plain/name.bin").is_ascii());
    assert!(FsStr::new("").is_ascii());
    assert!(!FsStr::new("café").is_ascii());
}

#[test]
fn view_nul_terminated() {
    assert_eq!(FsStr::new("ab").to_nul_terminated_bytes(), vec![b'a', b'b', 0]);
    assert_eq!(FsStr::new("").to_nul_terminated_bytes(), vec![0]);
}

#[test]
fn push_then_cstring_adds_one_nul() {
    let mut buf = PathBuf::new();
    buf.push(&Path::new("logs/run.txt"));
    let c = buf.as_cstring();
    let mut expected = b"logs/run.txt".to_vec();
    expected.push(0);
    assert_eq!(c, expected);
    assert_eq!(c.iter().filter(|b| **b == 0).count(), 1);
    // the buffer itself holds no terminator
    buf.pop();
    assert_eq!(buf.as_cstring(), b"logs/run.tx\0".to_vec());
}

#[test]
fn push_adds_no_separator() {
    let mut buf = PathBuf::with_capacity(16);
    buf.push(&Path::new("a"));
    buf.push(&Path::new("b"));
    assert_eq!(buf.as_cstring(), b"ab\0".to_vec());
}

#[test]
fn pop_on_empty_buffer_does_nothing() {
    let mut buf = PathBuf::new();
    buf.pop();
    assert_eq!(buf.as_cstring(), vec![0]);
}

#[test]
fn capacity_management_keeps_contents() {
    let mut buf = PathBuf::new();
    buf.push(&Path::new("usd/data.csv"));
    buf.reserve(10);
    buf.reserve_exact(20);
    assert!(buf.try_reserve(5).is_ok());
    assert!(buf.try_reserve_exact(5).is_ok());
    buf.shrink_to(4);
    buf.shrink_to_fit();
    assert_eq!(buf.as_cstring(), b"usd/data.csv\0".to_vec());
}

#[test]
fn try_reserve_reports_overflow() {
    let mut buf = PathBuf::new();
    buf.push(&Path::new("x"));
    assert!(buf.try_reserve(usize::MAX).is_err());
    assert!(buf.try_reserve_exact(usize::MAX).is_err());
    assert_eq!(buf.as_cstring(), b"x\0".to_vec());
}

#[test]
fn components_come_last_first() {
    let path = Path::new("a/b/c");
    let mut parts = path.iter();
    assert_eq!(parts.next().map(|s| s.to_str()), Some("c"));
    assert_eq!(parts.next().map(|s| s.to_str()), Some("b"));
    assert_eq!(parts.next().map(|s| s.to_str()), Some("a"));
    assert!(parts.next().is_none());
}

#[test]
fn components_of_empty_path() {
    let path = Path::new("");
    let mut parts = path.iter();
    assert_eq!(parts.next().map(|s| s.to_str()), Some(""));
    assert!(parts.next().is_none());
}

#[test]
fn components_keep_empty_pieces() {
    let path = Path::new("/x//y/");
    let mut parts = path.iter();
    let mut seen = Vec::new();
    while let Some(p) = parts.next() {
        seen.push(p.to_str());
    }
    assert_eq!(seen, vec!["", "y", "", "x", ""]);
}

#[test]
fn components_last_is_first_piece() {
    let path = Path::new("usd/logs/run.txt");
    assert_eq!(path.iter().last().map(|s| s.to_str()), Some("usd"));
}

#[test]
fn file_name_strips_extension() {
    let path = Path::new("report.txt");
    assert_eq!(path.file_name().map(|s| s.to_str()), Some("report"));
}

#[test]
fn file_name_uses_last_dot() {
    let path = Path::new("archive.tar.gz");
    assert_eq!(path.file_name().map(|s| s.to_str()), Some("archive.tar"));
}

#[test]
fn file_name_without_extension() {
    let path = Path::new("report");
    assert_eq!(path.file_name().map(|s| s.to_str()), Some("report"));
}

#[test]
fn file_name_takes_component_reached_last() {
    let path = Path::new("logs.d/run.txt");
    assert_eq!(path.file_name().map(|s| s.to_str()), Some("logs"));
}

#[test]
fn file_name_with_wide_extension() {
    let path = Path::new("a.éé");
    assert_eq!(path.file_name().map(|s| s.to_str()), Some("a"));
}

#[test]
fn path_views_and_owned_copy() {
    let mut path = Path::new("dir/file");
    assert_eq!(path.as_fs_str().to_str(), "dir/file");
    assert_eq!(path.as_mut_fs_str().len(), 8);
    let owned = path.into_path_buf();
    assert_eq!(owned.as_cstring(), b"dir/file\0".to_vec());
}
