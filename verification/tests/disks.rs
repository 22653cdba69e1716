use rkos_builder::disk::{blkid_lines, get_uuid, is_valid_workdir, split_lines, uuid_or_null, Answer};

const LINE: &str = "/dev/vdb1: UUID=\"4C2A-1F3B\" TYPE=\"vfat\" PARTUUID=\"a1b2c3d4-01\"";

#[test]
fn lines_are_split_like_a_reader() {
    assert_eq!(split_lines("a\r\nb\n\nc"), vec!["a", "b", "", "c"]);
    assert_eq!(split_lines("a\n"), vec!["a"]);
    assert_eq!(split_lines("a\r"), vec!["a\r"]);
    assert!(split_lines("").is_empty());
}

#[test]
fn blkid_output_lines() {
    assert_eq!(blkid_lines(b"/dev/a: X\n/dev/b: Y\n".to_vec()), vec!["/dev/a: X", "/dev/b: Y"]);
    assert!(blkid_lines(vec![0xff, 0xfe, b'\n']).is_empty());
}

#[test]
fn uuid_and_partuuid() {
    assert_eq!(get_uuid(Answer::ListItem(LINE.to_string()), true), "4C2A-1F3B");
    assert_eq!(get_uuid(Answer::ListItem(LINE.to_string()), false), "a1b2c3d4-01");
    assert_eq!(get_uuid(Answer::ListItem("/dev/vdb1: TYPE=\"vfat\"".to_string()), true), "NULL");
    assert_eq!(get_uuid(Answer::Other, true), "NULL");
    assert_eq!(uuid_or_null(None), "NULL");
    assert_eq!(uuid_or_null(Some("x".to_string())), "x");
}

#[test]
fn workdir_must_be_under_mnt() {
    assert!(is_valid_workdir("/mnt/lfs"));
    assert!(!is_valid_workdir("/home/lfs"));
    assert!(!is_valid_workdir("/mnt"));
    assert!(!is_valid_workdir("/"));
}
