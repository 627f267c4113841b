use lsplus::structs::EntryKind;
use lsplus::utils::icons::{
    file_name_icons, file_type_icons, folder_icons, get_file_icon, get_folder_icon,
    get_item_icon, has_extension, Icon,
};

#[test]
fn test_has_extension() {
    assert!(has_extension("test.txt", "txt"));
    assert!(has_extension("path/to/file.rs", "rs"));
    assert!(has_extension(".hidden.conf", "conf"));
    assert!(has_extension("multiple.dots.md", "md"));

    assert!(!has_extension("text", "txt"));
    assert!(!has_extension("notanexe", "exe"));
    assert!(!has_extension(".gitignore", "git"));
    assert!(!has_extension("Makefile", "file"));

    assert!(!has_extension("", "txt"));
    assert!(!has_extension(".", ""));
    assert!(!has_extension("..", "."));
    assert!(!has_extension("txt", "txt"));
    assert!(!has_extension(".txt", "txt"));

    assert!(!has_extension("txt.bak", "txt"));
    assert!(!has_extension("mytxt", "txt"));
    assert!(!has_extension(".txt.swp", "txt"));

    assert!(has_extension("test.t.x.t", "t"));
    assert!(has_extension("$^#@.bin", "bin"));
    assert!(has_extension("spaces in name.doc", "doc"));
}

#[test]
fn test_get_item_icon() {
    let icon = get_item_icon(EntryKind::File, "test.unknown");
    assert_eq!(icon, Icon::GenericFile);

    let icon = get_item_icon(EntryKind::File, "test.rs");
    assert_eq!(icon, Icon::RustFile);

    let icon = get_item_icon(EntryKind::File, "Cargo.toml");
    assert_eq!(icon, Icon::TomlFile);

    let icon = get_item_icon(EntryKind::Directory, "test_dir");
    assert_eq!(icon, Icon::Folder);

    let icon = get_item_icon(EntryKind::Symlink, "test_link");
    assert_eq!(icon, Icon::Symlink);
}

#[test]
fn test_get_filename_icon() {
    assert_eq!(file_name_icons("swapfile"), Some(Icon::SwapFile));
    assert_eq!(file_name_icons("docker-compose.yml"), Some(Icon::DockerFile));
    assert_eq!(file_name_icons("Dockerfile"), Some(Icon::DockerFile));
    assert_eq!(file_name_icons("LICENSE"), Some(Icon::TextFile));
    assert_eq!(file_name_icons("Rakefile"), Some(Icon::RubyFile));
    assert_eq!(file_name_icons("Gemfile"), Some(Icon::RubyFile));

    assert_eq!(file_name_icons("unknown.txt"), None);
}

#[test]
fn test_folder_icons() {
    assert_eq!(folder_icons(".git"), Some(Icon::GitFile));
    assert_eq!(folder_icons("node_modules"), Some(Icon::NodeModulesFolder));
    assert_eq!(folder_icons(".vscode"), Some(Icon::VsCodeFolder));

    assert_eq!(folder_icons("unknown_folder"), None);
}

#[test]
fn dotfile_classified_by_exact_name() {
    assert_eq!(get_item_icon(EntryKind::File, ".gitignore"), Icon::GitFile);
    assert_eq!(get_item_icon(EntryKind::File, "project/.gitignore"), Icon::GitFile);
    assert_eq!(get_file_icon(".gitignore"), Icon::GenericFile);
    assert!(!has_extension(".gitignore", "gitignore"));
    assert_eq!(get_file_icon(".bashrc"), Icon::GenericFile);
}

#[test]
fn longest_extension_wins() {
    assert_eq!(get_file_icon("archive.tar.gz"), Icon::ZipFile);
    assert_eq!(get_file_icon("notes.txt"), Icon::LogFile);
    assert_eq!(get_file_icon("server.log"), Icon::TextFile);
    assert_eq!(get_file_icon("backup.bash_history"), Icon::HistoryFile);
    assert_eq!(get_file_icon("photo.jpg.lock"), Icon::LockFile);
    assert_eq!(get_file_icon("font.woff2"), Icon::FontFile);
    assert_eq!(get_file_icon("noext"), Icon::GenericFile);
    assert_eq!(get_file_icon(""), Icon::GenericFile);
}

#[test]
fn extension_table_lookups() {
    assert_eq!(file_type_icons("rs"), Some(Icon::RustFile));
    assert_eq!(file_type_icons("Z"), Some(Icon::ZipFile));
    assert_eq!(file_type_icons("z"), Some(Icon::ZipFile));
    assert_eq!(file_type_icons("gitignore"), Some(Icon::GitFile));
    assert_eq!(file_type_icons("exe"), None);
    assert_eq!(file_type_icons(".rs"), None);
}

#[test]
fn folder_icon_fallback() {
    assert_eq!(get_folder_icon(".cache"), Icon::CacheFolder);
    assert_eq!(get_folder_icon("src"), Icon::Folder);
    assert_eq!(get_item_icon(EntryKind::Directory, "/home/user/.ssh"), Icon::SecurityFolder);
    assert_eq!(get_item_icon(EntryKind::Other, "pipe.fifo"), Icon::GenericFile);
}

#[test]
fn icon_glyphs() {
    assert_eq!(Icon::Folder.as_char(), '\u{f07c}');
    assert_eq!(Icon::Symlink.as_char() as u32, 0xf1177);
    assert_eq!(Icon::RustFile.as_string(), "\u{e7a8}");
}
