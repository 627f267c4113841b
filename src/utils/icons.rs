//! Icon classification: exact file names, extensions and folder names.
use vstd::prelude::*;
use crate::structs::EntryKind;
use crate::utils::text::{chars_of, eq_str, file_name_of, path_leaf, push_char, trim_dots, trimmed_len};
use crate::utils::text::has_suffix;

verus! {

/// The symbol shown beside an entry.
#[derive(Debug, Clone, Copy, PartialEq, Eq, Structural)]
pub enum Icon {
    Folder,
    Symlink,
    GenericFile,
    CacheFolder,
    GitHubFolder,
    HomeFolder,
    NodeModulesFolder,
    SecurityFolder,
    TrashFolder,
    VsCodeFolder,
    CompactDiscFile,
    ConfigFile,
    CssFile,
    DatabaseFile,
    DebianFile,
    DockerFile,
    FontFile,
    GitFile,
    HistoryFile,
    HtmlFile,
    JavaScriptFile,
    JsonFile,
    LockFile,
    LogFile,
    LuaFile,
    MarkdownFile,
    PictureFile,
    PerlFile,
    PythonFile,
    ReactFile,
    RubyFile,
    RustFile,
    SassFile,
    SwapFile,
    TerminalFile,
    TextFile,
    TomlFile,
    TypeScriptFile,
    WrenchFile,
    XmlFile,
    ZipFile,
}

impl Icon {
    /// The code point of the glyph for this icon.
    pub open spec fn code_point(self) -> u32 {
        match self {
            Icon::Folder => 0xf07c,
            Icon::Symlink => 0xf1177,
            Icon::GenericFile => 0xf15b,
            Icon::CacheFolder => 0xf163f,
            Icon::GitHubFolder => 0xf408,
            Icon::HomeFolder => 0xf015,
            Icon::NodeModulesFolder => 0xf0399,
            Icon::SecurityFolder => 0xf084,
            Icon::TrashFolder => 0xea81,
            Icon::VsCodeFolder => 0xf0a1e,
            Icon::CompactDiscFile => 0xe271,
            Icon::ConfigFile => 0xf013,
            Icon::CssFile => 0xe749,
            Icon::DatabaseFile => 0xe706,
            Icon::DebianFile => 0xf306,
            Icon::DockerFile => 0xf21f,
            Icon::FontFile => 0xe659,
            Icon::GitFile => 0xf1d3,
            Icon::HistoryFile => 0xf1da,
            Icon::HtmlFile => 0xe736,
            Icon::JavaScriptFile => 0xe74e,
            Icon::JsonFile => 0xe60b,
            Icon::LockFile => 0xf0221,
            Icon::LogFile => 0xf18d,
            Icon::LuaFile => 0xe620,
            Icon::MarkdownFile => 0xe73e,
            Icon::PictureFile => 0xf03e,
            Icon::PerlFile => 0xe67e,
            Icon::PythonFile => 0xe606,
            Icon::ReactFile => 0xe7ba,
            Icon::RubyFile => 0xe23e,
            Icon::RustFile => 0xe7a8,
            Icon::SassFile => 0xe603,
            Icon::SwapFile => 0xf0fb4,
            Icon::TerminalFile => 0xea85,
            Icon::TextFile => 0xf15c,
            Icon::TomlFile => 0xe6b2,
            Icon::TypeScriptFile => 0xe628,
            Icon::WrenchFile => 0xf0ad,
            Icon::XmlFile => 0xe619,
            Icon::ZipFile => 0xf1c6,
        }
    }

    /// The glyph for this icon.
    pub open spec fn glyph(self) -> char {
        match self {
            Icon::Folder => '\u{f07c}',
            Icon::Symlink => '\u{f1177}',
            Icon::GenericFile => '\u{f15b}',
            Icon::CacheFolder => '\u{f163f}',
            Icon::GitHubFolder => '\u{f408}',
            Icon::HomeFolder => '\u{f015}',
            Icon::NodeModulesFolder => '\u{f0399}',
            Icon::SecurityFolder => '\u{f084}',
            Icon::TrashFolder => '\u{ea81}',
            Icon::VsCodeFolder => '\u{f0a1e}',
            Icon::CompactDiscFile => '\u{e271}',
            Icon::ConfigFile => '\u{f013}',
            Icon::CssFile => '\u{e749}',
            Icon::DatabaseFile => '\u{e706}',
            Icon::DebianFile => '\u{f306}',
            Icon::DockerFile => '\u{f21f}',
            Icon::FontFile => '\u{e659}',
            Icon::GitFile => '\u{f1d3}',
            Icon::HistoryFile => '\u{f1da}',
            Icon::HtmlFile => '\u{e736}',
            Icon::JavaScriptFile => '\u{e74e}',
            Icon::JsonFile => '\u{e60b}',
            Icon::LockFile => '\u{f0221}',
            Icon::LogFile => '\u{f18d}',
            Icon::LuaFile => '\u{e620}',
            Icon::MarkdownFile => '\u{e73e}',
            Icon::PictureFile => '\u{f03e}',
            Icon::PerlFile => '\u{e67e}',
            Icon::PythonFile => '\u{e606}',
            Icon::ReactFile => '\u{e7ba}',
            Icon::RubyFile => '\u{e23e}',
            Icon::RustFile => '\u{e7a8}',
            Icon::SassFile => '\u{e603}',
            Icon::SwapFile => '\u{f0fb4}',
            Icon::TerminalFile => '\u{ea85}',
            Icon::TextFile => '\u{f15c}',
            Icon::TomlFile => '\u{e6b2}',
            Icon::TypeScriptFile => '\u{e628}',
            Icon::WrenchFile => '\u{f0ad}',
            Icon::XmlFile => '\u{e619}',
            Icon::ZipFile => '\u{f1c6}',
        }
    }

    /// The glyph for this icon.
    pub fn as_char(self) -> (r: char)
        ensures
            r == self.glyph(),
            r as u32 == self.code_point(),
    {
        match self {
            Icon::Folder => '\u{f07c}',
            Icon::Symlink => '\u{f1177}',
            Icon::GenericFile => '\u{f15b}',
            Icon::CacheFolder => '\u{f163f}',
            Icon::GitHubFolder => '\u{f408}',
            Icon::HomeFolder => '\u{f015}',
            Icon::NodeModulesFolder => '\u{f0399}',
            Icon::SecurityFolder => '\u{f084}',
            Icon::TrashFolder => '\u{ea81}',
            Icon::VsCodeFolder => '\u{f0a1e}',
            Icon::CompactDiscFile => '\u{e271}',
            Icon::ConfigFile => '\u{f013}',
            Icon::CssFile => '\u{e749}',
            Icon::DatabaseFile => '\u{e706}',
            Icon::DebianFile => '\u{f306}',
            Icon::DockerFile => '\u{f21f}',
            Icon::FontFile => '\u{e659}',
            Icon::GitFile => '\u{f1d3}',
            Icon::HistoryFile => '\u{f1da}',
            Icon::HtmlFile => '\u{e736}',
            Icon::JavaScriptFile => '\u{e74e}',
            Icon::JsonFile => '\u{e60b}',
            Icon::LockFile => '\u{f0221}',
            Icon::LogFile => '\u{f18d}',
            Icon::LuaFile => '\u{e620}',
            Icon::MarkdownFile => '\u{e73e}',
            Icon::PictureFile => '\u{f03e}',
            Icon::PerlFile => '\u{e67e}',
            Icon::PythonFile => '\u{e606}',
            Icon::ReactFile => '\u{e7ba}',
            Icon::RubyFile => '\u{e23e}',
            Icon::RustFile => '\u{e7a8}',
            Icon::SassFile => '\u{e603}',
            Icon::SwapFile => '\u{f0fb4}',
            Icon::TerminalFile => '\u{ea85}',
            Icon::TextFile => '\u{f15c}',
            Icon::TomlFile => '\u{e6b2}',
            Icon::TypeScriptFile => '\u{e628}',
            Icon::WrenchFile => '\u{f0ad}',
            Icon::XmlFile => '\u{e619}',
            Icon::ZipFile => '\u{f1c6}',
        }
    }

    /// The glyph for this icon, as a one-character string.
    pub fn as_string(self) -> (r: String)
        ensures
            r@ == seq![self.glyph()],
    {
        let mut s = String::new();
        push_char(&mut s, self.as_char());
        assert(s@ =~= seq![self.glyph()]);
        s
    }
}

/// The icon for a folder of this exact name, if it has one of its own.
pub open spec fn folder_icon_of(name: Seq<char>) -> Option<Icon> {
    if name == ".config"@ {
        Some(Icon::ConfigFile)
    } else if name == ".github"@ {
        Some(Icon::GitHubFolder)
    } else if name == ".ssh"@ {
        Some(Icon::SecurityFolder)
    } else if name == ".git"@ {
        Some(Icon::GitFile)
    } else if name == ".vscode"@ {
        Some(Icon::VsCodeFolder)
    } else if name == "node_modules"@ {
        Some(Icon::NodeModulesFolder)
    } else if name == "Trash"@ {
        Some(Icon::TrashFolder)
    } else if name == "home"@ {
        Some(Icon::HomeFolder)
    } else if name == "root"@ {
        Some(Icon::SecurityFolder)
    } else if name == "venv"@ {
        Some(Icon::PythonFile)
    } else if name == ".venv"@ {
        Some(Icon::PythonFile)
    } else if name == ".pyenv"@ {
        Some(Icon::PythonFile)
    } else if name == ".rbenv"@ {
        Some(Icon::RubyFile)
    } else if name == ".npm"@ {
        Some(Icon::NodeModulesFolder)
    } else if name == ".yarn"@ {
        Some(Icon::NodeModulesFolder)
    } else if name == ".cargo"@ {
        Some(Icon::RustFile)
    } else if name == ".rustup"@ {
        Some(Icon::RustFile)
    } else if name == ".gnupg"@ {
        Some(Icon::SecurityFolder)
    } else if name == ".docker"@ {
        Some(Icon::DockerFile)
    } else if name == ".cpan"@ {
        Some(Icon::PerlFile)
    } else if name == ".cpanm"@ {
        Some(Icon::PerlFile)
    } else if name == ".cache"@ {
        Some(Icon::CacheFolder)
    } else {
        None
    }
}

/// The icon for a file of this exact name, if it has one of its own.
pub open spec fn file_name_icon_of(name: Seq<char>) -> Option<Icon> {
    if name == "swapfile"@ {
        Some(Icon::SwapFile)
    } else if name == "docker-compose.yml"@ {
        Some(Icon::DockerFile)
    } else if name == "Dockerfile"@ {
        Some(Icon::DockerFile)
    } else if name == "LICENSE"@ {
        Some(Icon::TextFile)
    } else if name == "Rakefile"@ {
        Some(Icon::RubyFile)
    } else if name == "Gemfile"@ {
        Some(Icon::RubyFile)
    } else if name == ".gitignore"@ {
        Some(Icon::GitFile)
    } else {
        None
    }
}

/// The icon for a file extension (without its dot), if it is a known one.
pub open spec fn ext_icon(e: Seq<char>) -> Option<Icon> {
    if e == "txt"@ {
        Some(Icon::LogFile)
    } else if e == "log"@ {
        Some(Icon::TextFile)
    } else if e == "conf"@ || e == "cfg"@ || e == "ini"@ || e == "pylintrc"@ || e == "yaml"@ || e == "yml"@ || e == "yarnrc"@ {
        Some(Icon::ConfigFile)
    } else if e == "gitignore"@ || e == "gitconfig"@ || e == "gitattributes"@ || e == "gitmodules"@ {
        Some(Icon::GitFile)
    } else if e == "env"@ {
        Some(Icon::WrenchFile)
    } else if e == "json"@ {
        Some(Icon::JsonFile)
    } else if e == "md"@ {
        Some(Icon::MarkdownFile)
    } else if e == "toml"@ {
        Some(Icon::TomlFile)
    } else if e == "xml"@ {
        Some(Icon::XmlFile)
    } else if e == "db"@ || e == "sqlite"@ || e == "sql"@ {
        Some(Icon::DatabaseFile)
    } else if e == "py"@ || e == "whl"@ {
        Some(Icon::PythonFile)
    } else if e == "jsx"@ || e == "tsx"@ {
        Some(Icon::ReactFile)
    } else if e == "rb"@ || e == "gemrc"@ || e == "rspec"@ {
        Some(Icon::RubyFile)
    } else if e == "rs"@ {
        Some(Icon::RustFile)
    } else if e == "ts"@ {
        Some(Icon::TypeScriptFile)
    } else if e == "lua"@ {
        Some(Icon::LuaFile)
    } else if e == "pl"@ {
        Some(Icon::PerlFile)
    } else if e == "css"@ {
        Some(Icon::CssFile)
    } else if e == "scss"@ || e == "sass"@ {
        Some(Icon::SassFile)
    } else if e == "html"@ || e == "htm"@ {
        Some(Icon::HtmlFile)
    } else if e == "js"@ || e == "cjs"@ {
        Some(Icon::JavaScriptFile)
    } else if e == "jpg"@ || e == "png"@ || e == "svg"@ {
        Some(Icon::PictureFile)
    } else if e == "sh"@ || e == "bash"@ || e == "bashrc"@ || e == "zsh"@ || e == "zshrc"@ || e == "fish"@ || e == "profile"@ || e == "zprofile"@ {
        Some(Icon::TerminalFile)
    } else if e == "bash_history"@ || e == "zsh_history"@ || e == "psql_history"@ {
        Some(Icon::HistoryFile)
    } else if e == "deb"@ {
        Some(Icon::DebianFile)
    } else if e == "gz"@ || e == "tgz"@ || e == "zip"@ || e == "rar"@ || e == "xz"@ || e == "tar"@ || e == "7z"@ || e == "bz2"@ || e == "z"@ || e == "Z"@ || e == "arj"@ || e == "lzh"@ || e == "cab"@ {
        Some(Icon::ZipFile)
    } else if e == "iso"@ || e == "bin"@ || e == "dmg"@ || e == "img"@ || e == "qcow"@ || e == "vdi"@ || e == "vmdk"@ {
        Some(Icon::CompactDiscFile)
    } else if e == "lock"@ {
        Some(Icon::LockFile)
    } else if e == "ttf"@ || e == "otf"@ || e == "woff"@ || e == "woff2"@ || e == "eot"@ || e == "pfb"@ || e == "pfm"@ || e == "fon"@ || e == "dfont"@ || e == "pfa"@ || e == "pcf"@ || e == "bdf"@ || e == "snf"@ {
        Some(Icon::FontFile)
    } else {
        None
    }
}

fn folder_icon_chars(name: &Vec<char>) -> (r: Option<Icon>)
    ensures
        r == folder_icon_of(name@),
{
    if eq_str(name, ".config") {
        Some(Icon::ConfigFile)
    } else if eq_str(name, ".github") {
        Some(Icon::GitHubFolder)
    } else if eq_str(name, ".ssh") {
        Some(Icon::SecurityFolder)
    } else if eq_str(name, ".git") {
        Some(Icon::GitFile)
    } else if eq_str(name, ".vscode") {
        Some(Icon::VsCodeFolder)
    } else if eq_str(name, "node_modules") {
        Some(Icon::NodeModulesFolder)
    } else if eq_str(name, "Trash") {
        Some(Icon::TrashFolder)
    } else if eq_str(name, "home") {
        Some(Icon::HomeFolder)
    } else if eq_str(name, "root") {
        Some(Icon::SecurityFolder)
    } else if eq_str(name, "venv") {
        Some(Icon::PythonFile)
    } else if eq_str(name, ".venv") {
        Some(Icon::PythonFile)
    } else if eq_str(name, ".pyenv") {
        Some(Icon::PythonFile)
    } else if eq_str(name, ".rbenv") {
        Some(Icon::RubyFile)
    } else if eq_str(name, ".npm") {
        Some(Icon::NodeModulesFolder)
    } else if eq_str(name, ".yarn") {
        Some(Icon::NodeModulesFolder)
    } else if eq_str(name, ".cargo") {
        Some(Icon::RustFile)
    } else if eq_str(name, ".rustup") {
        Some(Icon::RustFile)
    } else if eq_str(name, ".gnupg") {
        Some(Icon::SecurityFolder)
    } else if eq_str(name, ".docker") {
        Some(Icon::DockerFile)
    } else if eq_str(name, ".cpan") {
        Some(Icon::PerlFile)
    } else if eq_str(name, ".cpanm") {
        Some(Icon::PerlFile)
    } else if eq_str(name, ".cache") {
        Some(Icon::CacheFolder)
    } else {
        None
    }
}

fn file_name_icon_chars(name: &Vec<char>) -> (r: Option<Icon>)
    ensures
        r == file_name_icon_of(name@),
{
    if eq_str(name, "swapfile") {
        Some(Icon::SwapFile)
    } else if eq_str(name, "docker-compose.yml") {
        Some(Icon::DockerFile)
    } else if eq_str(name, "Dockerfile") {
        Some(Icon::DockerFile)
    } else if eq_str(name, "LICENSE") {
        Some(Icon::TextFile)
    } else if eq_str(name, "Rakefile") {
        Some(Icon::RubyFile)
    } else if eq_str(name, "Gemfile") {
        Some(Icon::RubyFile)
    } else if eq_str(name, ".gitignore") {
        Some(Icon::GitFile)
    } else {
        None
    }
}

fn ext_icon_chars(e: &Vec<char>) -> (r: Option<Icon>)
    ensures
        r == ext_icon(e@),
{
    if eq_str(e, "txt") {
        Some(Icon::LogFile)
    } else if eq_str(e, "log") {
        Some(Icon::TextFile)
    } else if eq_str(e, "conf") || eq_str(e, "cfg") || eq_str(e, "ini") || eq_str(e, "pylintrc") || eq_str(e, "yaml") || eq_str(e, "yml") || eq_str(e, "yarnrc") {
        Some(Icon::ConfigFile)
    } else if eq_str(e, "gitignore") || eq_str(e, "gitconfig") || eq_str(e, "gitattributes") || eq_str(e, "gitmodules") {
        Some(Icon::GitFile)
    } else if eq_str(e, "env") {
        Some(Icon::WrenchFile)
    } else if eq_str(e, "json") {
        Some(Icon::JsonFile)
    } else if eq_str(e, "md") {
        Some(Icon::MarkdownFile)
    } else if eq_str(e, "toml") {
        Some(Icon::TomlFile)
    } else if eq_str(e, "xml") {
        Some(Icon::XmlFile)
    } else if eq_str(e, "db") || eq_str(e, "sqlite") || eq_str(e, "sql") {
        Some(Icon::DatabaseFile)
    } else if eq_str(e, "py") || eq_str(e, "whl") {
        Some(Icon::PythonFile)
    } else if eq_str(e, "jsx") || eq_str(e, "tsx") {
        Some(Icon::ReactFile)
    } else if eq_str(e, "rb") || eq_str(e, "gemrc") || eq_str(e, "rspec") {
        Some(Icon::RubyFile)
    } else if eq_str(e, "rs") {
        Some(Icon::RustFile)
    } else if eq_str(e, "ts") {
        Some(Icon::TypeScriptFile)
    } else if eq_str(e, "lua") {
        Some(Icon::LuaFile)
    } else if eq_str(e, "pl") {
        Some(Icon::PerlFile)
    } else if eq_str(e, "css") {
        Some(Icon::CssFile)
    } else if eq_str(e, "scss") || eq_str(e, "sass") {
        Some(Icon::SassFile)
    } else if eq_str(e, "html") || eq_str(e, "htm") {
        Some(Icon::HtmlFile)
    } else if eq_str(e, "js") || eq_str(e, "cjs") {
        Some(Icon::JavaScriptFile)
    } else if eq_str(e, "jpg") || eq_str(e, "png") || eq_str(e, "svg") {
        Some(Icon::PictureFile)
    } else if eq_str(e, "sh") || eq_str(e, "bash") || eq_str(e, "bashrc") || eq_str(e, "zsh") || eq_str(e, "zshrc") || eq_str(e, "fish") || eq_str(e, "profile") || eq_str(e, "zprofile") {
        Some(Icon::TerminalFile)
    } else if eq_str(e, "bash_history") || eq_str(e, "zsh_history") || eq_str(e, "psql_history") {
        Some(Icon::HistoryFile)
    } else if eq_str(e, "deb") {
        Some(Icon::DebianFile)
    } else if eq_str(e, "gz") || eq_str(e, "tgz") || eq_str(e, "zip") || eq_str(e, "rar") || eq_str(e, "xz") || eq_str(e, "tar") || eq_str(e, "7z") || eq_str(e, "bz2") || eq_str(e, "z") || eq_str(e, "Z") || eq_str(e, "arj") || eq_str(e, "lzh") || eq_str(e, "cab") {
        Some(Icon::ZipFile)
    } else if eq_str(e, "iso") || eq_str(e, "bin") || eq_str(e, "dmg") || eq_str(e, "img") || eq_str(e, "qcow") || eq_str(e, "vdi") || eq_str(e, "vmdk") {
        Some(Icon::CompactDiscFile)
    } else if eq_str(e, "lock") {
        Some(Icon::LockFile)
    } else if eq_str(e, "ttf") || eq_str(e, "otf") || eq_str(e, "woff") || eq_str(e, "woff2") || eq_str(e, "eot") || eq_str(e, "pfb") || eq_str(e, "pfm") || eq_str(e, "fon") || eq_str(e, "dfont") || eq_str(e, "pfa") || eq_str(e, "pcf") || eq_str(e, "bdf") || eq_str(e, "snf") {
        Some(Icon::FontFile)
    } else {
        None
    }
}
/// The icon of a known folder name.
pub fn folder_icons(name: &str) -> (r: Option<Icon>)
    ensures
        r == folder_icon_of(name@),
{
    folder_icon_chars(&chars_of(name))
}

/// The icon of a known exact file name.
pub fn file_name_icons(name: &str) -> (r: Option<Icon>)
    ensures
        r == file_name_icon_of(name@),
{
    file_name_icon_chars(&chars_of(name))
}

/// The icon of a known extension, given without its dot.
pub fn file_type_icons(ext: &str) -> (r: Option<Icon>)
    ensures
        r == ext_icon(ext@),
{
    ext_icon_chars(&chars_of(ext))
}

/// The icon for a directory: its own where the name is known, else the
/// generic folder.
pub open spec fn folder_icon_or_default(name: Seq<char>) -> Icon {
    match folder_icon_of(name) {
        Some(i) => i,
        None => Icon::Folder,
    }
}

/// The icon for a directory named `folder_name`.
pub fn get_folder_icon(folder_name: &str) -> (r: Icon)
    ensures
        r == folder_icon_or_default(folder_name@),
{
    match folder_icons(folder_name) {
        Some(i) => i,
        None => Icon::Folder,
    }
}

/// Whether `name` carries the extension `ext`: the name ends in `.` followed
/// by `ext`, and once its leading dots are set aside something is left before
/// that dot (so `.gitignore` has no extension `gitignore`).
pub open spec fn has_ext(name: Seq<char>, ext: Seq<char>) -> bool {
    &&& ext.len() > 0
    &&& name != seq!['.']
    &&& name != seq!['.', '.']
    &&& has_suffix(name, ext)
    &&& name.len() > ext.len()
    &&& name[name.len() - ext.len() - 1] == '.'
    &&& trim_dots(name).len() > ext.len() + 1
}

/// Whether `file_name` carries the extension `ext`: see [`has_ext`].
pub fn has_extension(file_name: &str, ext: &str) -> (r: bool)
    ensures
        r == has_ext(file_name@, ext@),
{
    let name = chars_of(file_name);
    let e = chars_of(ext);
    if e.len() == 0 {
        return false;
    }
    if name.len() <= e.len() {
        return false;
    }
    if !crate::utils::text::ends_with(&name, &e) {
        return false;
    }
    if name[name.len() - e.len() - 1] != '.' {
        return false;
    }
    let t = trimmed_len(&name);
    let r = t > e.len() + 1;
    proof {
        if r {
            if name@ == seq!['.'] || name@ == seq!['.', '.'] {
                crate::utils::text::lemma_trim_dots(name@);
                assert(trim_dots(name@).len() == 0) by {
                    if trim_dots(name@).len() > 0 {
                        assert(name@[name@.len() - trim_dots(name@).len()] == '.');
                    }
                }
            }
        }
    }
    r
}

/// Whether `e` is one of the known extensions.
pub open spec fn is_known_ext(e: Seq<char>) -> bool {
    ext_icon(e) is Some
}

/// Whether some known extension is carried by `name`.
pub open spec fn has_known_ext(name: Seq<char>) -> bool {
    exists|e: Seq<char>| is_known_ext(e) && has_ext(name, e)
}

/// `e` is the longest known extension that `name` carries.
pub open spec fn is_longest_known_ext(name: Seq<char>, e: Seq<char>) -> bool {
    &&& is_known_ext(e)
    &&& has_ext(name, e)
    &&& forall|e2: Seq<char>| is_known_ext(e2) && has_ext(name, e2) ==> e2.len() <= e.len()
}

/// The icon for a file by the longest known extension it carries, or the
/// generic file icon.
pub fn get_file_icon(file_name: &str) -> (r: Icon)
    ensures
        has_known_ext(file_name@) ==> exists|e: Seq<char>|
            is_longest_known_ext(file_name@, e) && r == ext_icon(e)->0,
        !has_known_ext(file_name@) ==> r == Icon::GenericFile,
{
    let name = chars_of(file_name);
    let n = name.len();
    let t = trimmed_len(&name);
    let ghost s = name@;
    let mut j: usize = 1;
    while j < n
        invariant
            n == s.len(),
            name@ == s,
            s == file_name@,
            t == trim_dots(s).len(),
            1 <= j,
            forall|j2: int|
                1 <= j2 < j ==> !(is_known_ext(#[trigger] s.subrange(j2, n as int)) && has_ext(
                    s,
                    s.subrange(j2, n as int),
                )),
        decreases n - j,
    {
        let ghost cand = s.subrange(j as int, n as int);
        if name[j - 1] == '.' && t > n - j + 1 {
            let mut e: Vec<char> = Vec::new();
            crate::utils::text::push_range(&mut e, &name, j, n);
            assert(e@ =~= cand);
            let found = ext_icon_chars(&e);
            proof {
                crate::utils::text::lemma_trim_dots(s);
                assert(has_suffix(s, cand)) by {
                    assert(s.subrange(s.len() - cand.len(), s.len() as int) =~= cand);
                }
                assert(s != seq!['.']);
                assert(s != seq!['.', '.']);
                assert(has_ext(s, cand));
            }
            if let Some(icon) = found {
                proof {
                    assert forall|e2: Seq<char>| is_known_ext(e2) && has_ext(s, e2) implies e2.len()
                        <= cand.len() by {
                        let j2 = n - e2.len();
                        assert(e2 =~= s.subrange(j2, n as int));
                        if j2 < j {
                            assert(!(is_known_ext(s.subrange(j2, n as int)) && has_ext(s, s.subrange(j2, n as int))));
                        }
                    }
                    assert(is_longest_known_ext(s, cand));
                    assert(ext_icon(cand)->0 == icon);
                    assert(has_known_ext(s));
                }
                return icon;
            }
        } else {
            proof {
                if has_ext(s, cand) {
                    assert(s[s.len() - cand.len() - 1] == name@[j - 1]);
                }
            }
        }
        j = j + 1;
    }
    proof {
        assert forall|e2: Seq<char>| !(is_known_ext(e2) && has_ext(s, e2)) by {
            if is_known_ext(e2) && has_ext(s, e2) {
                let j2 = n - e2.len();
                assert(e2 =~= s.subrange(j2, n as int));
                assert(!(is_known_ext(s.subrange(j2, n as int)) && has_ext(s, s.subrange(j2, n as int))));
            }
        }
    }
    Icon::GenericFile
}

/// The icon of a known exact file name.
pub fn get_filename_icon(file_name: &str) -> (r: Option<Icon>)
    ensures
        r == file_name_icon_of(file_name@),
{
    file_name_icons(file_name)
}

/// The icon for a regular file: by its exact name, else by its longest
/// known extension, else the generic file icon.
pub open spec fn file_icon_fits(name: Seq<char>, i: Icon) -> bool {
    match file_name_icon_of(name) {
        Some(exact) => i == exact,
        None => if has_known_ext(name) {
            exists|e: Seq<char>| is_longest_known_ext(name, e) && i == ext_icon(e)->0
        } else {
            i == Icon::GenericFile
        },
    }
}

/// The name an entry is classified by: the last component of its path, or
/// nothing.
pub open spec fn leaf_name(path: Seq<char>) -> Seq<char> {
    match path_leaf(path) {
        Some(n) => n,
        None => seq![],
    }
}

/// Whether `i` is the icon for an entry of kind `kind` named `name`:
/// symbolic links get the link icon, directories their folder icon, and
/// everything else the icon of a regular file.
pub open spec fn item_icon_fits(kind: EntryKind, name: Seq<char>, i: Icon) -> bool {
    match kind {
        EntryKind::Symlink => i == Icon::Symlink,
        EntryKind::Directory => i == folder_icon_or_default(name),
        _ => file_icon_fits(name, i),
    }
}

/// The icon for an entry of kind `kind` at `file_path`, classified by the
/// last component of the path.
pub fn get_item_icon(kind: EntryKind, file_path: &str) -> (r: Icon)
    ensures
        item_icon_fits(kind, leaf_name(file_path@), r),
{
    let leaf = file_name_of(file_path);
    let name = match leaf {
        Some(n) => n,
        None => String::new(),
    };
    match kind {
        EntryKind::Symlink => Icon::Symlink,
        EntryKind::Directory => get_folder_icon(name.as_str()),
        _ => match get_filename_icon(name.as_str()) {
            Some(i) => i,
            None => get_file_icon(name.as_str()),
        },
    }
}

/// A dot file's name is not an extension of itself: `.gitignore` does not
/// carry the extension `gitignore`.
pub proof fn lemma_dotfile_not_own_extension(e: Seq<char>)
    ensures
        !has_ext(seq!['.'] + e, e),
{
    let d = seq!['.'] + e;
    assert(d.drop_first() =~= e);
    crate::utils::text::lemma_trim_dots(e);
}

} // verus!
