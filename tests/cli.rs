use lsplus::cli::{merge_params, patterns_or_default, version_info, Flags};
use lsplus::structs::Params;

const VERSION: &str = "0.1.0";
const AUTHORS: &str = "Jane Doe <jane@example.org>";
const DESCRIPTION: &str = "A directory lister with icons";

fn no_flags() -> Flags {
    Flags {
        version: false,
        paths: vec![],
        show_all: false,
        almost_all: false,
        slash: false,
        dirs_first: false,
        long: false,
        human_readable: false,
        no_icons: false,
        fuzzy_time: false,
        shorten_names: false,
    }
}

#[test]
fn test_version_info() {
    let info = version_info(VERSION, AUTHORS, DESCRIPTION);
    assert!(info.contains("lsplus v"));
    assert!(info.contains("Released under the MIT license by"));
    assert!(info.contains(AUTHORS));
    assert!(info.contains(DESCRIPTION));
}

#[test]
fn test_version_info_empty() {
    let version_info = version_info(VERSION, "", "");
    assert!(version_info.contains("lsplus v"));
    assert!(version_info.contains("Released under the MIT license by"));
}

#[test]
fn test_version_info_with_empty_env() {
    let info = version_info(VERSION, "", "");
    assert!(info.contains("lsplus v"));
    assert!(info.contains("Released under the MIT license by"));

    let formatted = format!(
        "lsplus v{}\n\
        \n{}\n\
        \nReleased under the MIT license by {}\n",
        VERSION, "No description provided", "Unknown"
    );
    assert_eq!(info, formatted);
}

#[test]
fn version_text_in_full() {
    assert_eq!(
        version_info("1.2.3", "Ann", "Lists files"),
        "lsplus v1.2.3\n\nLists files\n\nReleased under the MIT license by Ann\n"
    );
}

#[test]
fn test_main_flags() {
    assert!(version_info(VERSION, AUTHORS, DESCRIPTION).contains("lsplus"));

    let args = no_flags();
    assert_eq!(patterns_or_default(args.paths), vec![String::from(".")]);
    let given = vec![String::from("path1"), String::from("path2")];
    assert_eq!(patterns_or_default(given.clone()), given);
}

#[test]
fn test_main_config_merge() {
    let config = Params {
        show_all: true,
        append_slash: true,
        dirs_first: false,
        almost_all: false,
        long_format: true,
        human_readable: true,
        no_icons: false,
        fuzzy_time: false,
        shorten_names: true,
    };

    let args = Flags {
        almost_all: true,
        dirs_first: true,
        no_icons: true,
        fuzzy_time: true,
        ..no_flags()
    };

    let params = merge_params(&args, &config);

    assert!(params.show_all);
    assert!(params.append_slash);
    assert!(params.dirs_first);
    assert!(params.almost_all);
    assert!(params.long_format);
    assert!(params.human_readable);
    assert!(params.no_icons);
    assert!(params.fuzzy_time);
    assert!(params.shorten_names);
}

#[test]
fn merge_of_nothing_is_nothing() {
    assert_eq!(merge_params(&no_flags(), &Params::default()), Params::default());
    let only_slash = Flags { slash: true, long: true, ..no_flags() };
    let merged = merge_params(&only_slash, &Params::default());
    assert_eq!(merged, Params { append_slash: true, long_format: true, ..Default::default() });
}
