use ratatube::paths::{
    backup_path, document_within_limit, join, pid_file_path, socket_path, staging_name, tmp_path,
    AppPaths, MAX_DOCUMENT_BYTES,
};

#[test]
fn the_socket_lives_in_the_data_directory() {
    let paths = AppPaths { data_dir: "/home/u/.local/share/ratatube".into() };
    assert_eq!(socket_path(&paths), "/home/u/.local/share/ratatube/ratatube.sock");
    assert_eq!(pid_file_path(&paths), "/home/u/.local/share/ratatube/daemon.pid");
}

#[test]
fn joining_does_not_double_the_separator() {
    assert_eq!(join("/data/", "x.json"), "/data/x.json");
    assert_eq!(join("/data", "x.json"), "/data/x.json");
    assert_eq!(join("", "x.json"), "x.json");
}

#[test]
fn sibling_paths_append_their_suffix() {
    assert_eq!(tmp_path("/d/queue.json"), "/d/queue.json.tmp");
    assert_eq!(backup_path("/d/queue.json"), "/d/queue.json.bak");
}

#[test]
fn staging_names_use_the_pid_in_hex() {
    assert_eq!(staging_name(0), ".0");
    assert_eq!(staging_name(255), ".ff");
    assert_eq!(staging_name(4096), ".1000");
    assert_eq!(staging_name(u32::MAX), ".ffffffff");
    assert!(staging_name(u32::MAX).len() <= "ratatube.sock".len());
}

#[test]
fn oversized_write_is_rejected_and_preserves_previous_file() {
    assert!(document_within_limit(MAX_DOCUMENT_BYTES as u64));
    assert!(!document_within_limit(MAX_DOCUMENT_BYTES as u64 + 1));
    assert_eq!(MAX_DOCUMENT_BYTES, 16 * 1024 * 1024);
}
