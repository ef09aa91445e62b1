use subworker_gateway::files::FileSystem;
use subworker_gateway::paths::{bytes_eq, check_absolute, check_under};
use subworker_gateway::workdir::WorkDir;

#[test]
fn absolute_paths_start_with_the_separator() {
    assert!(check_absolute(&b"/".to_vec()));
    assert!(check_absolute(&b"/sub/dir".to_vec()));
    assert!(!check_absolute(&b"sub/dir".to_vec()));
    assert!(!check_absolute(&b"".to_vec()));
}

#[test]
fn under_means_the_directory_or_a_descendant() {
    let dir = b"/sub/dir".to_vec();
    assert!(check_under(&b"/sub/dir".to_vec(), &dir));
    assert!(check_under(&b"/sub/dir/out.bin".to_vec(), &dir));
    assert!(check_under(&b"/sub/dir/a/b".to_vec(), &dir));
    assert!(!check_under(&b"/sub/dirx".to_vec(), &dir));
    assert!(!check_under(&b"/sub".to_vec(), &dir));
    assert!(!check_under(&b"/other/dir/out.bin".to_vec(), &dir));
    assert!(!check_under(&b"/sub/di".to_vec(), &dir));
}

#[test]
fn byte_string_equality_is_exact() {
    assert!(bytes_eq(&b"abc".to_vec(), &b"abc".to_vec()));
    assert!(!bytes_eq(&b"abc".to_vec(), &b"abd".to_vec()));
    assert!(!bytes_eq(&b"abc".to_vec(), &b"ab".to_vec()));
    assert!(bytes_eq(&b"".to_vec(), &b"".to_vec()));
}

#[test]
fn work_dir_mints_decimal_paths_in_order() {
    let mut work_dir = WorkDir::new(b"/work/data".to_vec());
    assert_eq!(work_dir.new_path_for_dataobject(), b"/work/data/0".to_vec());
    for _ in 0..9 {
        work_dir.new_path_for_dataobject();
    }
    assert_eq!(work_dir.new_path_for_dataobject(), b"/work/data/10".to_vec());
    assert_eq!(work_dir.new_path_for_dataobject(), b"/work/data/11".to_vec());
}

#[test]
fn filesystem_write_read_remove() {
    let mut fs = FileSystem::new();
    let p = b"/a/b".to_vec();
    assert!(!fs.contains(&p));
    assert!(fs.read(&p).is_none());
    fs.write(p.clone(), vec![1, 2]);
    assert!(fs.contains(&p));
    assert_eq!(fs.read(&p).unwrap(), &vec![1, 2]);
    fs.write(p.clone(), vec![3]);
    assert_eq!(fs.read(&p).unwrap(), &vec![3]);
    assert_eq!(fs.remove(&p), Some(vec![3]));
    assert!(!fs.contains(&p));
    assert_eq!(fs.remove(&p), None);
}

#[test]
fn filesystem_move_transfers_contents() {
    let mut fs = FileSystem::new();
    fs.write(b"/src".to_vec(), vec![5, 6]);
    fs.write(b"/other".to_vec(), vec![7]);
    fs.move_file(&b"/src".to_vec(), b"/dst".to_vec());
    assert!(!fs.contains(&b"/src".to_vec()));
    assert_eq!(fs.read(&b"/dst".to_vec()).unwrap(), &vec![5, 6]);
    // Unrelated files keep their contents.
    assert_eq!(fs.read(&b"/other".to_vec()).unwrap(), &vec![7]);
}
