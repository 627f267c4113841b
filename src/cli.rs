//! The command-line options and how they combine with the configuration.
use vstd::prelude::*;
use vstd::string::StringExecFns;
use crate::structs::Params;

verus! {

/// The options given on the command line.
#[derive(Debug)]
pub struct Flags {
    pub show_all: bool,
    pub almost_all: bool,
    pub long: bool,
    pub human_readable: bool,
    /// The path patterns to list.
    pub paths: Vec<String>,
    pub slash: bool,
    pub dirs_first: bool,
    pub no_icons: bool,
    pub version: bool,
    pub fuzzy_time: bool,
    pub shorten_names: bool,
}

/// The effective options: each is on where the command line or the
/// configuration turns it on.
pub open spec fn merged(flags: Flags, config: Params) -> Params {
    Params {
        show_all: flags.show_all || config.show_all,
        append_slash: flags.slash || config.append_slash,
        dirs_first: flags.dirs_first || config.dirs_first,
        almost_all: flags.almost_all || config.almost_all,
        long_format: flags.long || config.long_format,
        human_readable: flags.human_readable || config.human_readable,
        no_icons: flags.no_icons || config.no_icons,
        fuzzy_time: flags.fuzzy_time || config.fuzzy_time,
        shorten_names: flags.shorten_names || config.shorten_names,
    }
}

/// Combines the command line with the configuration: see [`merged`].
pub fn merge_params(flags: &Flags, config: &Params) -> (r: Params)
    ensures
        r == merged(*flags, *config),
{
    Params {
        show_all: flags.show_all || config.show_all,
        append_slash: flags.slash || config.append_slash,
        dirs_first: flags.dirs_first || config.dirs_first,
        almost_all: flags.almost_all || config.almost_all,
        long_format: flags.long || config.long_format,
        human_readable: flags.human_readable || config.human_readable,
        no_icons: flags.no_icons || config.no_icons,
        fuzzy_time: flags.fuzzy_time || config.fuzzy_time,
        shorten_names: flags.shorten_names || config.shorten_names,
    }
}

/// The patterns to list: those given, or `.` where none were.
pub fn patterns_or_default(paths: Vec<String>) -> (r: Vec<String>)
    ensures
        paths@.len() == 0 ==> r@.len() == 1 && r@[0]@ == "."@,
        paths@.len() > 0 ==> r@ == paths@,
{
    if paths.len() == 0 {
        let mut r: Vec<String> = Vec::new();
        r.push(String::from_str("."));
        r
    } else {
        paths
    }
}

/// A field of the version text, or its stand-in where the field is empty.
pub open spec fn or_default(field: Seq<char>, default: Seq<char>) -> Seq<char> {
    if field.len() == 0 {
        default
    } else {
        field
    }
}

/// The version text: the program name and version, the description and
/// the license line naming the authors, an empty line between each.
pub open spec fn version_text(version: Seq<char>, authors: Seq<char>, description: Seq<char>) -> Seq<char> {
    "lsplus v"@ + version + "\n\n"@ + or_default(description, "No description provided"@)
        + "\n\nReleased under the MIT license by "@ + or_default(authors, "Unknown"@) + "\n"@
}

/// The text printed for `--version`, from the package's version, authors
/// and description; empty authors read "Unknown" and an empty description
/// "No description provided".
pub fn version_info(version: &str, authors: &str, description: &str) -> (r: String)
    ensures
        r@ == version_text(version@, authors@, description@),
{
    let authors = if authors.unicode_len() == 0 {
        "Unknown"
    } else {
        authors
    };
    let description = if description.unicode_len() == 0 {
        "No description provided"
    } else {
        description
    };
    let mut s = String::from_str("lsplus v");
    s.append(version);
    s.append("\n\n");
    s.append(description);
    s.append("\n\nReleased under the MIT license by ");
    s.append(authors);
    s.append("\n");
    s
}

} // verus!
