//! The data that flows from the entry collector to the renderer.
use vstd::prelude::*;
use crate::utils::icons::Icon;

verus! {

/// What kind of filesystem object an entry is, as read without following
/// symbolic links.
#[derive(Debug, Clone, Copy, PartialEq, Eq, Structural)]
pub enum EntryKind {
    Directory,
    File,
    Symlink,
    Other,
}

/// What a symbolic link points to, as far as it could be read.
#[derive(Debug)]
pub enum LinkTarget {
    /// The target path (resolved against the link's directory where it is
    /// relative) and whether something exists there.
    Resolved { target: String, exists: bool },
    /// The link itself could not be read.
    Unreadable,
}

/// One metadata snapshot of an entry, read without following symbolic links.
#[derive(Debug)]
pub struct EntryMeta {
    pub kind: EntryKind,
    /// The mode bits; the low nine are the permissions.
    pub mode: u32,
    pub nlink: u64,
    pub size: u64,
    pub uid: u32,
    pub gid: u32,
    pub mtime: std::time::SystemTime,
    /// Where a symbolic link points; None where the entry is no link.
    pub link: Option<LinkTarget>,
}

/// One entry of a directory, as read from it.
#[derive(Debug)]
pub struct DirEntry {
    pub name: String,
    pub is_dir: bool,
}

/// What a path to be listed turned out to be.
#[derive(Debug)]
pub enum Listing {
    /// A file, link or other non-directory, listed as itself.
    NotADirectory { path: String },
    /// A directory and its entries, in the order it gave them.
    Directory { entries: Vec<DirEntry> },
}

/// The run's display and filter options, fixed once at startup.
#[derive(Debug, Clone, Copy, PartialEq, Eq, Structural)]
pub struct Params {
    pub show_all: bool,
    pub append_slash: bool,
    pub dirs_first: bool,
    pub almost_all: bool,
    pub long_format: bool,
    pub human_readable: bool,
    pub no_icons: bool,
    pub fuzzy_time: bool,
    pub shorten_names: bool,
}

impl Params {
    /// Every option off.
    pub open spec fn all_off() -> Params {
        Params {
            show_all: false,
            append_slash: false,
            dirs_first: false,
            almost_all: false,
            long_format: false,
            human_readable: false,
            no_icons: false,
            fuzzy_time: false,
            shorten_names: false,
        }
    }

    /// The option called `key` in a configuration file set to `value`;
    /// an unknown key changes nothing.
    pub open spec fn set_spec(self, key: Seq<char>, value: bool) -> Params {
        if key == "show_all"@ {
            Params { show_all: value, ..self }
        } else if key == "append_slash"@ {
            Params { append_slash: value, ..self }
        } else if key == "dirs_first"@ {
            Params { dirs_first: value, ..self }
        } else if key == "almost_all"@ {
            Params { almost_all: value, ..self }
        } else if key == "long_format"@ {
            Params { long_format: value, ..self }
        } else if key == "human_readable"@ {
            Params { human_readable: value, ..self }
        } else if key == "no_icons"@ {
            Params { no_icons: value, ..self }
        } else if key == "fuzzy_time"@ {
            Params { fuzzy_time: value, ..self }
        } else if key == "shorten_names"@ {
            Params { shorten_names: value, ..self }
        } else {
            self
        }
    }

    /// Sets the option that a configuration file calls `key`.
    pub fn with_setting(self, key: &str, value: bool) -> (r: Params)
        ensures
            r == self.set_spec(key@, value),
    {
        let k = crate::utils::text::chars_of(key);
        let mut p = self;
        if crate::utils::text::eq_str(&k, "show_all") {
            p.show_all = value;
        } else if crate::utils::text::eq_str(&k, "append_slash") {
            p.append_slash = value;
        } else if crate::utils::text::eq_str(&k, "dirs_first") {
            p.dirs_first = value;
        } else if crate::utils::text::eq_str(&k, "almost_all") {
            p.almost_all = value;
        } else if crate::utils::text::eq_str(&k, "long_format") {
            p.long_format = value;
        } else if crate::utils::text::eq_str(&k, "human_readable") {
            p.human_readable = value;
        } else if crate::utils::text::eq_str(&k, "no_icons") {
            p.no_icons = value;
        } else if crate::utils::text::eq_str(&k, "fuzzy_time") {
            p.fuzzy_time = value;
        } else if crate::utils::text::eq_str(&k, "shorten_names") {
            p.shorten_names = value;
        }
        p
    }
}

#[verifier::external_type_specification]
#[verifier::external_body]
pub struct ExConfig(config::Config);

/// Relies on `config::Config::get_bool`: the boolean stored under `key`,
/// None where the key is missing or holds no boolean.
#[verifier::external_body]
fn config_bool(settings: &config::Config, key: &str) -> Option<bool> {
    settings.get_bool(key).ok()
}

/// The name of the `i`-th option a configuration file may set.
pub open spec fn setting_name(i: int) -> Seq<char> {
    if i == 0 {
        "show_all"@
    } else if i == 1 {
        "append_slash"@
    } else if i == 2 {
        "dirs_first"@
    } else if i == 3 {
        "almost_all"@
    } else if i == 4 {
        "long_format"@
    } else if i == 5 {
        "human_readable"@
    } else if i == 6 {
        "no_icons"@
    } else if i == 7 {
        "fuzzy_time"@
    } else {
        "shorten_names"@
    }
}

/// The number of options a configuration file may set.
pub const SETTING_COUNT: usize = 9;

fn setting_key(i: usize) -> (r: &'static str)
    requires
        i < SETTING_COUNT,
    ensures
        r@ == setting_name(i as int),
{
    if i == 0 {
        "show_all"
    } else if i == 1 {
        "append_slash"
    } else if i == 2 {
        "dirs_first"
    } else if i == 3 {
        "almost_all"
    } else if i == 4 {
        "long_format"
    } else if i == 5 {
        "human_readable"
    } else if i == 6 {
        "no_icons"
    } else if i == 7 {
        "fuzzy_time"
    } else {
        "shorten_names"
    }
}

/// The options with the `i`-th setting set to `found[i]` where that is
/// Some, the others off.
pub open spec fn settings_applied(found: Seq<Option<bool>>) -> Params
    decreases found.len(),
{
    if found.len() == 0 {
        Params::all_off()
    } else {
        let p = settings_applied(found.drop_last());
        match found.last() {
            Some(v) => p.set_spec(setting_name(found.len() - 1), v),
            None => p,
        }
    }
}

impl Params {
    /// The options a configuration file gives: for each option in turn, the
    /// value found for it (None where it has none).
    pub fn from_settings(found: &Vec<Option<bool>>) -> (r: Params)
        requires
            found@.len() <= SETTING_COUNT,
        ensures
            r == settings_applied(found@),
    {
        let mut p = Params::default();
        let mut i: usize = 0;
        while i < found.len()
            invariant
                i <= found@.len() <= SETTING_COUNT,
                p == settings_applied(found@.subrange(0, i as int)),
            decreases found@.len() - i,
        {
            assert(found@.subrange(0, i + 1).drop_last() =~= found@.subrange(0, i as int));
            match found[i] {
                Some(v) => {
                    p = p.with_setting(setting_key(i), v);
                },
                None => {},
            }
            i = i + 1;
        }
        assert(found@.subrange(0, found@.len() as int) =~= found@);
        p
    }

    /// The options a loaded configuration sets; those it does not set, or
    /// sets to something other than a boolean, stay off.
    pub fn from_config(settings: &config::Config) -> (r: Params)
        ensures
            exists|found: Seq<Option<bool>>|
                found.len() == SETTING_COUNT && r == settings_applied(found),
    {
        let mut found: Vec<Option<bool>> = Vec::new();
        let mut i: usize = 0;
        while i < SETTING_COUNT
            invariant
                i <= SETTING_COUNT,
                found@.len() == i,
            decreases SETTING_COUNT - i,
        {
            found.push(config_bool(settings, setting_key(i)));
            i = i + 1;
        }
        Params::from_settings(&found)
    }
}

impl Default for Params {
    fn default() -> (r: Params)
        ensures
            r == Params::all_off(),
    {
        Params {
            show_all: false,
            append_slash: false,
            dirs_first: false,
            almost_all: false,
            long_format: false,
            human_readable: false,
            no_icons: false,
            fuzzy_time: false,
            shorten_names: false,
        }
    }
}

/// Everything the renderer shows of one entry.
#[derive(Debug)]
pub struct FileInfo {
    /// "d", "-", "l" or "?".
    pub file_type: String,
    /// The nine-character permission string.
    pub mode: String,
    pub nlink: u64,
    pub user: String,
    pub group: String,
    /// In bytes.
    pub size: u64,
    pub mtime: std::time::SystemTime,
    /// None where icons are switched off.
    pub item_icon: Option<Icon>,
    /// The name as shown, styling included.
    pub display_name: String,
    pub full_path: String,
}

} // verus!
