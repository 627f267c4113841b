use lsplus::structs::{DirEntry, EntryKind, EntryMeta, FileInfo, LinkTarget, Listing, Params};
use lsplus::utils::file::{
    check_display_name, collect_file_names, create_file_info, display_name, get_file_details,
    get_groupname, get_username, group_dirs_first, name_or_id,
};
use lsplus::utils::icons::Icon;
use std::time::SystemTime;

const BLUE: &str = "\x1b[34m";
const CYAN: &str = "\x1b[36m";
const RED: &str = "\x1b[31m";
const GREEN: &str = "\x1b[32m";
const BOLD: &str = "\x1b[1m";
const RESET: &str = "\x1b[39m";

fn meta(kind: EntryKind, mode: u32, size: u64) -> EntryMeta {
    EntryMeta {
        kind,
        mode,
        nlink: 1,
        size,
        uid: 0,
        gid: 0,
        mtime: SystemTime::now(),
        link: None,
    }
}

fn link_meta(target: &str, exists: bool) -> EntryMeta {
    EntryMeta {
        link: Some(LinkTarget::Resolved { target: String::from(target), exists }),
        ..meta(EntryKind::Symlink, 0o777, 0)
    }
}

fn entry(name: &str, is_dir: bool) -> DirEntry {
    DirEntry { name: String::from(name), is_dir }
}

fn info(display_name: &str, full_path: &str, file_type: &str) -> FileInfo {
    FileInfo {
        file_type: String::from(file_type),
        mode: String::from("-rw-r--r--"),
        nlink: 1,
        user: String::from("user"),
        group: String::from("group"),
        size: 0,
        mtime: SystemTime::now(),
        item_icon: None,
        display_name: String::from(display_name),
        full_path: String::from(full_path),
    }
}

#[test]
fn test_check_display_name() {
    let file = info("test.txt", "/tmp/x/test.txt", "regular file");
    assert_eq!(check_display_name(&file), "test.txt");

    let dir = info("testdir", "/tmp/x/testdir", "directory");
    assert_eq!(check_display_name(&dir), "testdir");

    let dot = info(".", "/tmp/x/.", "directory");
    assert_eq!(check_display_name(&dot), format!("{}.", BLUE));

    let dotdot = info("x", "/tmp/x/..", "directory");
    assert_eq!(check_display_name(&dotdot), format!("{}..", BLUE));
}

#[test]
fn test_collect_file_info() {
    let entries = vec![
        entry("file1.txt", false),
        entry("file2.txt", false),
        entry("dir1", true),
        entry(".hidden", false),
    ];
    let listing = Listing::Directory { entries };

    let params = Params::default();
    let names = collect_file_names(&listing, &params);
    assert_eq!(names.len(), 3);

    let params = Params { show_all: true, ..Default::default() };
    let names = collect_file_names(&listing, &params);
    assert_eq!(names.len(), 6);
    assert_eq!(names, vec![".", "..", "dir1", "file1.txt", "file2.txt", ".hidden"]);

    let params = Params { dirs_first: true, ..Default::default() };
    let names = collect_file_names(&listing, &params);
    assert_eq!(names, vec!["dir1", "file1.txt", "file2.txt"]);
}

#[test]
fn test_get_file_info() {
    let params = Params::default();
    let info = create_file_info("/tmp/x/test.txt", &meta(EntryKind::File, 0o644, 12), &params);

    assert_eq!(info.display_name, format!("{}test.txt", RESET));
    assert_eq!(info.size, 12);
    assert!(info.item_icon.is_some());
    assert_eq!(info.full_path, "/tmp/x/test.txt");
    assert_eq!(info.file_type, "-");
    assert_eq!(info.mode, "rw-r--r--");
}

#[test]
fn test_sort_file_info() {
    let mut files = vec![
        info("b.txt", "b.txt", "regular file"),
        info("a.txt", "a.txt", "regular file"),
        info("dir", "dir", "directory"),
    ];

    files.sort_by(|a, b| a.display_name.cmp(&b.display_name));
    assert_eq!(files[0].display_name, "a.txt");
    assert_eq!(files[1].display_name, "b.txt");
    assert_eq!(files[2].display_name, "dir");

    files.sort_by(|a, b| {
        if a.file_type == "directory" && b.file_type != "directory" {
            std::cmp::Ordering::Less
        } else if a.file_type != "directory" && b.file_type == "directory" {
            std::cmp::Ordering::Greater
        } else {
            a.display_name.cmp(&b.display_name)
        }
    });
    assert_eq!(files[0].display_name, "dir");
    assert_eq!(files[1].display_name, "a.txt");
    assert_eq!(files[2].display_name, "b.txt");
}

#[test]
fn test_get_file_details() {
    let (file_type, _, _, _, _, _, _, _) = get_file_details(&meta(EntryKind::Directory, 0o755, 0));
    assert_eq!(file_type, "d");

    let (file_type, _, _, _, _, _, _, executable) = get_file_details(&meta(EntryKind::File, 0o644, 0));
    assert_eq!(file_type, "-");
    assert!(!executable);

    let (file_type, _, _, _, _, _, _, _) = get_file_details(&meta(EntryKind::Symlink, 0o777, 0));
    assert_eq!(file_type, "l");

    let (_, _, _, _, _, _, _, executable) = get_file_details(&meta(EntryKind::File, 0o755, 0));
    assert!(executable);

    let (file_type, mode, nlink, size, _, _, _, _) = get_file_details(&meta(EntryKind::Other, 0o600, 7));
    assert_eq!(file_type, "?");
    assert_eq!(mode, "rw-------");
    assert_eq!(nlink, 1);
    assert_eq!(size, 7);
}

#[test]
fn test_get_username_groupname() {
    let username = get_username(0);
    assert!(username == "root" || username == "0");

    let nonexistent_uid = u32::MAX;
    assert_eq!(get_username(nonexistent_uid), nonexistent_uid.to_string());

    let groupname = get_groupname(0);
    assert!(groupname == "root" || groupname == "0");

    let nonexistent_gid = u32::MAX;
    assert_eq!(get_groupname(nonexistent_gid), nonexistent_gid.to_string());
}

#[test]
fn name_or_id_falls_back_to_number() {
    assert_eq!(name_or_id(Some(String::from("alice")), 1000), "alice");
    assert_eq!(name_or_id(None, 1000), "1000");
    assert_eq!(name_or_id(None, 0), "0");
}

#[test]
fn test_create_file_info_symlinks() {
    let mut params = Params::default();
    params.long_format = true;
    let info = create_file_info("/tmp/x/valid_symlink", &link_meta("/tmp/x/test_file", true), &params);
    assert!(info.display_name.contains("->"));
    assert!(!info.display_name.contains("[Broken Link]"));

    let info = create_file_info("/tmp/x/broken_symlink", &link_meta("/tmp/x/nonexistent", false), &params);
    assert!(info.display_name.contains("->"));
    assert!(info.display_name.contains("[Broken Link]"));
}

#[test]
fn test_create_file_info_special_cases() {
    let mut params = Params::default();
    params.append_slash = true;
    let info = create_file_info("/tmp/x/test_dir", &meta(EntryKind::Directory, 0o755, 0), &params);
    assert!(info.display_name.ends_with('/'));

    let info = create_file_info("./test_file", &meta(EntryKind::File, 0o644, 0), &params);
    assert!(!info.display_name.starts_with("./"));

    params.no_icons = true;
    let info = create_file_info("/tmp/x/test_file", &meta(EntryKind::File, 0o644, 0), &params);
    assert!(info.item_icon.is_none());

    let info = create_file_info("/tmp/x/test_file", &meta(EntryKind::File, 0o755, 0), &params);
    assert!(info.display_name.contains(GREEN));
}

#[test]
fn test_collect_file_names() {
    let entries = vec![entry(".hidden_file", false), entry("visible_file", false), entry("subdir", true)];
    let listing = Listing::Directory { entries };

    let params = Params::default();
    let files = collect_file_names(&listing, &params);
    assert!(!files.contains(&".hidden_file".to_string()));
    assert!(files.contains(&"visible_file".to_string()));

    let mut params = Params::default();
    params.show_all = true;
    let files = collect_file_names(&listing, &params);
    assert!(files.contains(&".".to_string()));
    assert!(files.contains(&"..".to_string()));
    assert!(files.contains(&".hidden_file".to_string()));

    let mut params = Params::default();
    params.almost_all = true;
    let files = collect_file_names(&listing, &params);
    assert!(!files.contains(&".".to_string()));
    assert!(!files.contains(&"..".to_string()));
    assert!(files.contains(&".hidden_file".to_string()));

    let mut params = Params::default();
    params.dirs_first = true;
    let files = collect_file_names(&listing, &params);
    let subdir_idx = files.iter().position(|x| x == "subdir").unwrap();
    let file_idx = files.iter().position(|x| x == "visible_file").unwrap();
    assert!(subdir_idx < file_idx);

    let single = Listing::NotADirectory { path: String::from("/tmp/x/visible_file") };
    let files = collect_file_names(&single, &params);
    assert_eq!(files, vec!["visible_file"]);
}

#[test]
fn test_create_file_info_edge_cases() {
    let mut params = Params::default();
    params.long_format = true;
    let info = create_file_info("/tmp/x/test_symlink", &link_meta("/tmp/x/nonexistent", false), &params);
    assert!(info.display_name.contains("[Broken Link]"));
}

#[test]
fn sorting_ignores_leading_dot_and_case() {
    let entries = vec![entry(".bashrc", false), entry("apple", false), entry("Banana", false)];
    let listing = Listing::Directory { entries };
    let params = Params { almost_all: true, ..Default::default() };
    assert_eq!(collect_file_names(&listing, &params), vec!["apple", "Banana", ".bashrc"]);
}

#[test]
fn equal_keys_keep_directory_order() {
    let entries = vec![entry("Readme", false), entry(".readme", false), entry("README", false)];
    let listing = Listing::Directory { entries };
    let params = Params { show_all: true, almost_all: true, ..Default::default() };
    assert_eq!(collect_file_names(&listing, &params), vec!["Readme", ".readme", "README"]);
}

#[test]
fn dirs_first_keeps_sorted_order_within_groups() {
    let entries = vec![
        entry("file_b", false),
        entry("dir_a", true),
        entry("file_a", false),
        entry("dir_b", true),
    ];
    let listing = Listing::Directory { entries };
    let plain = collect_file_names(&listing, &Params::default());
    assert_eq!(plain, vec!["dir_a", "dir_b", "file_a", "file_b"]);
    let grouped = collect_file_names(&listing, &Params { dirs_first: true, ..Default::default() });
    assert_eq!(grouped, vec!["dir_a", "dir_b", "file_a", "file_b"]);

    let entries = vec![entry("a", false), entry("b", true), entry("c", false), entry("d", true)];
    assert_eq!(group_dirs_first(&entries, &vec![0, 1, 2, 3]), vec![1, 3, 0, 2]);
    assert_eq!(group_dirs_first(&entries, &vec![]), Vec::<usize>::new());
}

#[test]
fn dots_come_first_even_with_dirs_first() {
    let entries = vec![entry("zdir", true), entry("afile", false)];
    let listing = Listing::Directory { entries };
    let params = Params { show_all: true, dirs_first: true, ..Default::default() };
    assert_eq!(collect_file_names(&listing, &params), vec![".", "..", "zdir", "afile"]);
}

#[test]
fn empty_directory_lists_nothing() {
    let listing = Listing::Directory { entries: vec![] };
    assert!(collect_file_names(&listing, &Params::default()).is_empty());
    let params = Params { show_all: true, ..Default::default() };
    assert_eq!(collect_file_names(&listing, &params), vec![".", ".."]);
}

#[test]
fn link_display_names() {
    let params = Params::default();
    let ok = display_name("dir/valid", &link_meta("dir/target", true), &params);
    assert_eq!(ok, format!("{}valid -> dir/target", CYAN));
    let broken = display_name("dir/broken", &link_meta("dir/nonexistent", false), &params);
    assert_eq!(broken, format!("{}broken -> dir/nonexistent {}[Broken Link]", CYAN, RED));
    let unreadable = EntryMeta { link: Some(LinkTarget::Unreadable), ..meta(EntryKind::Symlink, 0o777, 0) };
    assert_eq!(display_name("dir/odd", &unreadable, &params), format!("{}odd -> (unreadable)", RED));
}

#[test]
fn styled_display_names() {
    let params = Params { append_slash: true, ..Default::default() };
    assert_eq!(display_name("a/src", &meta(EntryKind::Directory, 0o755, 0), &params), format!("{}src/", BLUE));
    assert_eq!(display_name("a/run.sh", &meta(EntryKind::File, 0o700, 0), &params), format!("{}{}run.sh", BOLD, GREEN));
    assert_eq!(display_name("a/fifo", &meta(EntryKind::Other, 0o755, 0), &params), format!("{}fifo", RESET));
    assert_eq!(display_name("./..", &meta(EntryKind::Directory, 0o755, 0), &Params::default()), format!("{}..", BLUE));
}

#[test]
fn created_info_carries_icon_and_counts() {
    let params = Params::default();
    let mut m = meta(EntryKind::File, 0o644, 2048);
    m.nlink = 3;
    let info = create_file_info("proj/main.rs", &m, &params);
    assert_eq!(info.item_icon, Some(Icon::RustFile));
    assert_eq!(info.nlink, 3);
    assert_eq!(info.size, 2048);
    assert_eq!(info.user, get_username(0));
}

#[test]
fn short_listing_shows_link_arrow() {
    let params = Params { append_slash: true, ..Default::default() };
    assert!(!params.long_format);
    let info = create_file_info("/tmp/x/valid_symlink", &link_meta("/tmp/x/test_file", true), &params);
    assert_eq!(info.display_name, format!("{}valid_symlink -> /tmp/x/test_file", CYAN));
    let info = create_file_info("/tmp/x/broken_symlink", &link_meta("/tmp/x/nonexistent", false), &params);
    assert!(info.display_name.contains(" -> /tmp/x/nonexistent"));
    assert!(info.display_name.ends_with("[Broken Link]"));
}
