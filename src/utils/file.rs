//! Per-entry attributes and the construction of displayed names.
use vstd::prelude::*;
use vstd::string::StringExecFns;
use crate::structs::{DirEntry, EntryKind, EntryMeta, FileInfo, LinkTarget, Listing, Params};
use crate::utils::format::{mode_to_rwx, rwx_of};
use crate::utils::icons::{get_item_icon, item_icon_fits, leaf_name};
use crate::utils::order::{keys_view, lemma_sorted_unique, precedes, sort_indices};
use crate::utils::style::{ansi, style_code, Style};
use crate::utils::text::{
    chars_of, dec_digits, decimal, ends_with, file_name_of, has_prefix, has_suffix, lower_of,
    opt_view, path_leaf, push_char, push_range, string_of, to_lowercase, trim_dots, trimmed_len,
};

verus! {

/// The one-letter type tag: "d" for a directory, "-" for a regular file,
/// "l" for a symbolic link, "?" for anything else.
pub open spec fn type_tag(kind: EntryKind) -> Seq<char> {
    match kind {
        EntryKind::Directory => seq!['d'],
        EntryKind::File => seq!['-'],
        EntryKind::Symlink => seq!['l'],
        EntryKind::Other => seq!['?'],
    }
}

/// Whether any of the three execute bits is set.
pub open spec fn is_executable(mode: u32) -> bool {
    mode & 0o111u32 != 0
}

fn type_tag_text(kind: EntryKind) -> (r: String)
    ensures
        r@ == type_tag(kind),
{
    let mut s = String::new();
    let c = match kind {
        EntryKind::Directory => 'd',
        EntryKind::File => '-',
        EntryKind::Symlink => 'l',
        EntryKind::Other => '?',
    };
    push_char(&mut s, c);
    s
}

/// Relies on `nix::unistd::User::from_uid`: the name of the user with this
/// id in the system's user database, None where there is none or the lookup
/// fails.
#[verifier::external_body]
fn lookup_user(uid: u32) -> Option<String> {
    match nix::unistd::User::from_uid(nix::unistd::Uid::from_raw(uid)) {
        Ok(Some(user)) => Some(user.name),
        _ => None,
    }
}

/// Relies on `nix::unistd::Group::from_gid`: the name of the group with this
/// id in the system's group database, None where there is none or the
/// lookup fails.
#[verifier::external_body]
fn lookup_group(gid: u32) -> Option<String> {
    match nix::unistd::Group::from_gid(nix::unistd::Gid::from_raw(gid)) {
        Ok(Some(group)) => Some(group.name),
        _ => None,
    }
}

/// A looked-up name, or the numeric id where the lookup found none.
pub open spec fn name_or_id_spec(found: Option<Seq<char>>, id: u32) -> Seq<char> {
    match found {
        Some(n) => n,
        None => dec_digits(id as nat),
    }
}

/// The owner or group column: the name found, or the id in decimal.
pub fn name_or_id(found: Option<String>, id: u32) -> (r: String)
    ensures
        r@ == name_or_id_spec(opt_view(found), id),
{
    match found {
        Some(n) => n,
        None => decimal(id as u64),
    }
}

/// The name of the user `uid`, or `uid` in decimal where the system knows
/// no such user; never fails.
pub fn get_username(uid: u32) -> (r: String)
    ensures
        exists|found: Option<Seq<char>>| r@ == name_or_id_spec(found, uid),
{
    let found = lookup_user(uid);
    let ghost g = opt_view(found);
    let r = name_or_id(found, uid);
    assert(r@ == name_or_id_spec(g, uid));
    r
}

/// The name of the group `gid`, or `gid` in decimal where the system knows
/// no such group; never fails.
pub fn get_groupname(gid: u32) -> (r: String)
    ensures
        exists|found: Option<Seq<char>>| r@ == name_or_id_spec(found, gid),
{
    let found = lookup_group(gid);
    let ghost g = opt_view(found);
    let r = name_or_id(found, gid);
    assert(r@ == name_or_id_spec(g, gid));
    r
}

/// The attributes of an entry: type tag, permission string, link count,
/// size, modification time, owner, group and whether it is executable.
pub fn get_file_details(meta: &EntryMeta) -> (r: (
    String,
    String,
    u64,
    u64,
    std::time::SystemTime,
    String,
    String,
    bool,
))
    ensures
        r.0@ == type_tag(meta.kind),
        r.1@ == rwx_of(meta.mode),
        r.2 == meta.nlink,
        r.3 == meta.size,
        r.4 == meta.mtime,
        exists|found: Option<Seq<char>>| r.5@ == name_or_id_spec(found, meta.uid),
        exists|found: Option<Seq<char>>| r.6@ == name_or_id_spec(found, meta.gid),
        r.7 == is_executable(meta.mode),
{
    let executable = meta.mode & 0o111u32 != 0;
    (
        type_tag_text(meta.kind),
        mode_to_rwx(meta.mode),
        meta.nlink,
        meta.size,
        meta.mtime,
        get_username(meta.uid),
        get_groupname(meta.gid),
        executable,
    )
}

/// The name an entry is shown by: the last component of its path (the
/// whole path where it has none), without a leading "./".
pub open spec fn entry_name(path: Seq<char>) -> Seq<char> {
    let n = match path_leaf(path) {
        Some(l) => l,
        None => path,
    };
    if has_prefix(n, seq!['.', '/']) {
        n.subrange(2, n.len() as int)
    } else {
        n
    }
}

/// The entry's name with a `/` after it where it is a directory and
/// slashes are asked for.
pub open spec fn shown_name(path: Seq<char>, kind: EntryKind, params: Params) -> Seq<char> {
    if params.append_slash && kind == EntryKind::Directory {
        entry_name(path).push('/')
    } else {
        entry_name(path)
    }
}

/// The displayed name of an entry, styling included. A symbolic link shows
/// where it points, marked where nothing is there or where the link could
/// not be read; a directory is blue; an executable regular file bold green;
/// anything else has the default color.
pub open spec fn display_name_of(path: Seq<char>, meta: EntryMeta, params: Params) -> Seq<char> {
    let name = shown_name(path, meta.kind, params);
    match meta.kind {
        EntryKind::Symlink => match meta.link {
            Some(LinkTarget::Resolved { target, exists }) => if exists {
                ansi(Style::Cyan) + name + " -> "@ + target@
            } else {
                ansi(Style::Cyan) + name + " -> "@ + target@ + seq![' '] + ansi(Style::Red)
                    + "[Broken Link]"@
            },
            _ => ansi(Style::Red) + name + " -> (unreadable)"@,
        },
        EntryKind::Directory => ansi(Style::Blue) + name,
        EntryKind::File => if is_executable(meta.mode) {
            ansi(Style::Bold) + ansi(Style::Green) + name
        } else {
            ansi(Style::Reset) + name
        },
        EntryKind::Other => ansi(Style::Reset) + name,
    }
}

fn entry_name_text(path: &str) -> (r: String)
    ensures
        r@ == entry_name(path@),
{
    let n = match file_name_of(path) {
        Some(l) => l,
        None => String::from_str(path),
    };
    let cs = chars_of(n.as_str());
    if cs.len() >= 2 && cs[0] == '.' && cs[1] == '/' {
        let mut v: Vec<char> = Vec::new();
        push_range(&mut v, &cs, 2, cs.len());
        assert(cs@.subrange(0, 2) =~= seq!['.', '/']);
        string_of(&v)
    } else {
        proof {
            if has_prefix(cs@, seq!['.', '/']) {
                assert(cs@[0] == cs@.subrange(0, 2)[0]);
                assert(cs@[1] == cs@.subrange(0, 2)[1]);
            }
        }
        n
    }
}

fn styled(style: Style, text: &str) -> (r: String)
    ensures
        r@ == ansi(style) + text@,
{
    let mut s = String::from_str(style_code(style));
    s.append(text);
    s
}

/// Builds the displayed name of the entry at `path`: see [`display_name_of`].
pub fn display_name(path: &str, meta: &EntryMeta, params: &Params) -> (r: String)
    ensures
        r@ == display_name_of(path@, *meta, *params),
{
    let mut name = entry_name_text(path);
    if params.append_slash && meta.kind == EntryKind::Directory {
        push_char(&mut name, '/');
    }
    match meta.kind {
        EntryKind::Symlink => match &meta.link {
            Some(LinkTarget::Resolved { target, exists }) => {
                let mut s = styled(Style::Cyan, name.as_str());
                s.append(" -> ");
                s.append(target.as_str());
                if !*exists {
                    push_char(&mut s, ' ');
                    s.append(style_code(Style::Red));
                    s.append("[Broken Link]");
                }
                s
            },
            _ => {
                let mut s = styled(Style::Red, name.as_str());
                s.append(" -> (unreadable)");
                s
            },
        },
        EntryKind::Directory => styled(Style::Blue, name.as_str()),
        EntryKind::File => {
            if meta.mode & 0o111u32 != 0 {
                let mut s = String::from_str(style_code(Style::Bold));
                s.append(style_code(Style::Green));
                s.append(name.as_str());
                s
            } else {
                styled(Style::Reset, name.as_str())
            }
        },
        EntryKind::Other => styled(Style::Reset, name.as_str()),
    }
}

/// Gathers what is shown of the entry at `path` from one metadata snapshot.
pub fn create_file_info(path: &str, meta: &EntryMeta, params: &Params) -> (r: FileInfo)
    ensures
        r.file_type@ == type_tag(meta.kind),
        r.mode@ == rwx_of(meta.mode),
        r.nlink == meta.nlink,
        r.size == meta.size,
        r.mtime == meta.mtime,
        exists|found: Option<Seq<char>>| r.user@ == name_or_id_spec(found, meta.uid),
        exists|found: Option<Seq<char>>| r.group@ == name_or_id_spec(found, meta.gid),
        params.no_icons ==> r.item_icon is None,
        !params.no_icons ==> r.item_icon is Some && item_icon_fits(
            meta.kind,
            leaf_name(path@),
            r.item_icon->0,
        ),
        r.display_name@ == display_name_of(path@, *meta, *params),
        r.full_path@ == path@,
{
    let item_icon = if params.no_icons {
        None
    } else {
        Some(get_item_icon(meta.kind, path))
    };
    let (file_type, mode, nlink, size, mtime, user, group, _executable) = get_file_details(meta);
    FileInfo {
        file_type,
        mode,
        nlink,
        user,
        group,
        size,
        mtime,
        item_icon,
        display_name: display_name(path, meta, params),
        full_path: String::from_str(path),
    }
}

/// The name to show for an entry: the synthetic `.` and `..` entries (paths
/// ending in `/.` or `/..`) are always shown as such in the directory color,
/// whatever their own displayed name says.
pub open spec fn checked_display_name(info: FileInfo) -> Seq<char> {
    if has_suffix(info.full_path@, seq!['/', '.']) {
        ansi(Style::Blue) + seq!['.']
    } else if has_suffix(info.full_path@, seq!['/', '.', '.']) {
        ansi(Style::Blue) + seq!['.', '.']
    } else {
        info.display_name@
    }
}

/// The name to show for `info`: see [`checked_display_name`].
pub fn check_display_name(info: &FileInfo) -> (r: String)
    ensures
        r@ == checked_display_name(*info),
{
    let p = chars_of(info.full_path.as_str());
    let mut dot: Vec<char> = Vec::new();
    dot.push('/');
    dot.push('.');
    assert(dot@ =~= seq!['/', '.']);
    if ends_with(&p, &dot) {
        let mut s = String::from_str(style_code(Style::Blue));
        push_char(&mut s, '.');
        assert(s@ =~= ansi(Style::Blue) + seq!['.']);
        return s;
    }
    dot.push('.');
    assert(dot@ =~= seq!['/', '.', '.']);
    if ends_with(&p, &dot) {
        let mut s = String::from_str(style_code(Style::Blue));
        push_char(&mut s, '.');
        push_char(&mut s, '.');
        assert(s@ =~= ansi(Style::Blue) + seq!['.', '.']);
        return s;
    }
    info.display_name.clone()
}

/// What names are compared by when sorting: lowercased, leading dots set
/// aside.
pub open spec fn sort_key(name: Seq<char>) -> Seq<char> {
    lower_of(trim_dots(name))
}

/// Whether a name is hidden: it begins with a dot.
pub open spec fn is_hidden(name: Seq<char>) -> bool {
    name.len() > 0 && name[0] == '.'
}

/// Whether an entry is listed: hidden ones only with "all" or "almost all".
pub open spec fn is_listed(name: Seq<char>, params: Params) -> bool {
    params.show_all || params.almost_all || !is_hidden(name)
}

/// The sort keys of a directory's entries.
pub open spec fn entry_keys(entries: Seq<DirEntry>) -> Seq<Seq<char>> {
    entries.map_values(|e: DirEntry| sort_key(e.name@))
}

/// `ord` holds the indices of the listed entries, each once, sorted by
/// name (see [`sort_key`]) and, among equal keys, in the directory's order.
pub open spec fn is_sorted_listing(entries: Seq<DirEntry>, params: Params, ord: Seq<usize>) -> bool {
    &&& forall|k: usize|
        ord.contains(k) <==> (k < entries.len() && is_listed(entries[k as int].name@, params))
    &&& forall|a: int, b: int|
        0 <= a < b < ord.len() ==> precedes(entry_keys(entries), ord[a] as int, ord[b] as int)
}

/// The directories among the entries `ord`, in its order.
pub open spec fn dirs_in(entries: Seq<DirEntry>, ord: Seq<usize>) -> Seq<usize> {
    ord.filter(|k: usize| entries[k as int].is_dir)
}

/// The entries of `ord` that are no directories, in its order.
pub open spec fn non_dirs_in(entries: Seq<DirEntry>, ord: Seq<usize>) -> Seq<usize> {
    ord.filter(|k: usize| !entries[k as int].is_dir)
}

/// With directories first, the directories of `ord` and then the rest, each
/// group in the order `ord` gave it; otherwise `ord` itself.
pub open spec fn grouped(entries: Seq<DirEntry>, ord: Seq<usize>, dirs_first: bool) -> Seq<usize> {
    if dirs_first {
        dirs_in(entries, ord) + non_dirs_in(entries, ord)
    } else {
        ord
    }
}

proof fn lemma_group_step(entries: Seq<DirEntry>, ord: Seq<usize>)
    requires
        ord.len() > 0,
    ensures
        dirs_in(entries, ord) == (if entries[ord.last() as int].is_dir {
            dirs_in(entries, ord.drop_last()).push(ord.last())
        } else {
            dirs_in(entries, ord.drop_last())
        }),
        non_dirs_in(entries, ord) == (if !entries[ord.last() as int].is_dir {
            non_dirs_in(entries, ord.drop_last()).push(ord.last())
        } else {
            non_dirs_in(entries, ord.drop_last())
        }),
{
    reveal(Seq::filter);
}

/// The synthetic `.` and `..` entries, listed with "all" but not with
/// "almost all".
pub open spec fn dot_entries(params: Params) -> Seq<Seq<char>> {
    if params.show_all && !params.almost_all {
        seq![seq!['.'], seq!['.', '.']]
    } else {
        seq![]
    }
}

/// The names listed for a directory, given the sorted order of its entries.
pub open spec fn listed_names(entries: Seq<DirEntry>, params: Params, ord: Seq<usize>) -> Seq<Seq<char>> {
    dot_entries(params) + grouped(entries, ord, params.dirs_first).map_values(
        |k: usize| entries[k as int].name@,
    )
}

/// The characters of each string.
pub open spec fn views(v: Seq<String>) -> Seq<Seq<char>> {
    v.map_values(|s: String| s@)
}

fn key_of(name: &String) -> (r: Vec<char>)
    ensures
        r@ == sort_key(name@),
{
    let cs = chars_of(name.as_str());
    let t = trimmed_len(&cs);
    proof {
        crate::utils::text::lemma_trim_dots(cs@);
    }
    let mut rest: Vec<char> = Vec::new();
    push_range(&mut rest, &cs, cs.len() - t, cs.len());
    let lowered = to_lowercase(string_of(&rest).as_str());
    chars_of(lowered.as_str())
}

/// Stable partition of `ord`: the directories, then the rest.
pub fn group_dirs_first(entries: &Vec<DirEntry>, ord: &Vec<usize>) -> (r: Vec<usize>)
    requires
        forall|a: int| 0 <= a < ord@.len() ==> ord@[a] < entries@.len(),
    ensures
        r@ == grouped(entries@, ord@, true),
        forall|a: int| 0 <= a < r@.len() ==> r@[a] < entries@.len(),
{
    let mut dirs: Vec<usize> = Vec::new();
    let mut files: Vec<usize> = Vec::new();
    let mut i: usize = 0;
    while i < ord.len()
        invariant
            i <= ord@.len(),
            forall|a: int| 0 <= a < ord@.len() ==> ord@[a] < entries@.len(),
            dirs@ == dirs_in(entries@, ord@.subrange(0, i as int)),
            files@ == non_dirs_in(entries@, ord@.subrange(0, i as int)),
            forall|a: int| 0 <= a < dirs@.len() ==> dirs@[a] < entries@.len(),
            forall|a: int| 0 <= a < files@.len() ==> files@[a] < entries@.len(),
        decreases ord@.len() - i,
    {
        let k = ord[i];
        proof {
            let next = ord@.subrange(0, i + 1);
            assert(next.drop_last() =~= ord@.subrange(0, i as int));
            lemma_group_step(entries@, next);
        }
        if entries[k].is_dir {
            dirs.push(k);
        } else {
            files.push(k);
        }
        i = i + 1;
    }
    assert(ord@.subrange(0, ord@.len() as int) =~= ord@);
    let mut r = dirs;
    let mut j: usize = 0;
    let ghost d = r@;
    while j < files.len()
        invariant
            j <= files@.len(),
            r@ == d + files@.subrange(0, j as int),
            forall|a: int| 0 <= a < r@.len() ==> r@[a] < entries@.len(),
            forall|a: int| 0 <= a < files@.len() ==> files@[a] < entries@.len(),
        decreases files@.len() - j,
    {
        r.push(files[j]);
        assert(r@ =~= d + files@.subrange(0, j + 1));
        j = j + 1;
    }
    assert(files@.subrange(0, files@.len() as int) =~= files@);
    r
}

/// The names to list for a path: a non-directory is listed by its own name;
/// a directory by its entries' names, hidden ones only with "all" or
/// "almost all", sorted case-insensitively with leading dots set aside (ties
/// in the directory's order), directories first where asked, and preceded
/// by `.` and `..` with "all" but not "almost all".
pub fn collect_file_names(listing: &Listing, params: &Params) -> (r: Vec<String>)
    ensures
        match listing {
            Listing::NotADirectory { path } => views(r@) == seq![leaf_name(path@)],
            Listing::Directory { entries } => exists|ord: Seq<usize>|
                is_sorted_listing(entries@, *params, ord) && views(r@) == listed_names(
                    entries@,
                    *params,
                    ord,
                ),
        },
{
    match listing {
        Listing::NotADirectory { path } => {
            let name = match file_name_of(path.as_str()) {
                Some(n) => n,
                None => String::new(),
            };
            let mut r: Vec<String> = Vec::new();
            r.push(name);
            assert(views(r@) =~= seq![leaf_name(path@)]);
            r
        },
        Listing::Directory { entries } => {
            let n = entries.len();
            let mut keys: Vec<Vec<char>> = Vec::new();
            let mut shown: Vec<usize> = Vec::new();
            let mut i: usize = 0;
            while i < n
                invariant
                    n == entries@.len(),
                    i <= n,
                    keys@.len() == i,
                    forall|k: int| 0 <= k < i ==> keys@[k]@ == sort_key(entries@[k].name@),
                    shown@.no_duplicates(),
                    forall|a: int| 0 <= a < shown@.len() ==> shown@[a] < i,
                    forall|k: usize|
                        shown@.contains(k) <==> (k < i && is_listed(entries@[k as int].name@, *params)),
                decreases n - i,
            {
                keys.push(key_of(&entries[i].name));
                let listed = params.show_all || params.almost_all || {
                    let cs = chars_of(entries[i].name.as_str());
                    !(cs.len() > 0 && cs[0] == '.')
                };
                assert(listed == is_listed(entries@[i as int].name@, *params));
                let ghost shown_old = shown@;
                if listed {
                    shown.push(i);
                }
                proof {
                    assert forall|a: int| 0 <= a < shown@.len() implies shown@[a] < i + 1 by {
                        if a < shown_old.len() {
                            assert(shown@[a] == shown_old[a]);
                        }
                    }
                    assert forall|k: usize|
                        shown@.contains(k) <==> (k < i + 1 && is_listed(
                            entries@[k as int].name@,
                            *params,
                        )) by {
                        if shown@.contains(k) {
                            let w = choose|w: int| 0 <= w < shown@.len() && shown@[w] == k;
                            if w < shown_old.len() {
                                assert(shown_old[w] == k);
                                assert(shown_old.contains(k));
                                assert(k < i);
                            } else {
                                assert(listed && k == i);
                            }
                        }
                        if k < i && is_listed(entries@[k as int].name@, *params) {
                            assert(shown_old.contains(k));
                            let w = choose|w: int| 0 <= w < shown_old.len() && shown_old[w] == k;
                            assert(shown@[w] == k);
                        }
                        if k == i && listed {
                            assert(shown@[shown@.len() - 1] == k);
                        }
                    }
                    assert(shown@.no_duplicates()) by {
                        if listed {
                            assert forall|a: int, b: int| 0 <= a < b < shown@.len() implies shown@[a]
                                != shown@[b] by {
                                if b == shown@.len() - 1 {
                                    assert(shown@[a] == shown_old[a]);
                                }
                            }
                        }
                    }
                }
                i = i + 1;
            }
            let ord = sort_indices(&keys, shown);
            proof {
                assert(keys_view(keys@) =~= entry_keys(entries@));
                assert forall|a: int| 0 <= a < ord@.len() implies ord@[a] < entries@.len() by {
                    assert(ord@.contains(ord@[a]));
                }
            }
            let ghost ord_v = ord@;
            let grouped_ord = if params.dirs_first {
                group_dirs_first(entries, &ord)
            } else {
                ord
            };
            let mut r: Vec<String> = Vec::new();
            if params.show_all && !params.almost_all {
                let mut dot = String::new();
                push_char(&mut dot, '.');
                r.push(dot);
                let mut dotdot = String::new();
                push_char(&mut dotdot, '.');
                push_char(&mut dotdot, '.');
                assert(dot@ =~= seq!['.']);
                assert(dotdot@ =~= seq!['.', '.']);
                r.push(dotdot);
            }
            let ghost pre = views(r@);
            if params.show_all && !params.almost_all {
                assert(pre =~= dot_entries(*params));
            } else {
                assert(pre =~= dot_entries(*params));
            }
            let mut j: usize = 0;
            while j < grouped_ord.len()
                invariant
                    j <= grouped_ord@.len(),
                    forall|a: int| 0 <= a < grouped_ord@.len() ==> grouped_ord@[a] < entries@.len(),
                    views(r@) == pre + grouped_ord@.subrange(0, j as int).map_values(
                        |k: usize| entries@[k as int].name@,
                    ),
                decreases grouped_ord@.len() - j,
            {
                let nm = entries[grouped_ord[j]].name.clone();
                assert(nm@ == entries@[grouped_ord@[j as int] as int].name@);
                let ghost old_r = r@;
                r.push(nm);
                assert(views(r@) =~= views(old_r).push(nm@));
                assert(views(r@) =~= pre + grouped_ord@.subrange(0, j + 1).map_values(
                    |k: usize| entries@[k as int].name@,
                ));
                j = j + 1;
            }
            assert(grouped_ord@.subrange(0, grouped_ord@.len() as int) =~= grouped_ord@);
            assert(views(r@) == listed_names(entries@, *params, ord_v));
            r
        },
    }
}

/// A leading dot does not change where a name sorts: `.bashrc` sorts as
/// `bashrc` does.
pub proof fn lemma_leading_dot_ignored(name: Seq<char>)
    ensures
        sort_key(seq!['.'] + name) == sort_key(name),
{
    let d = seq!['.'] + name;
    assert(d.drop_first() =~= name);
}

proof fn lemma_all_dirs(entries: Seq<DirEntry>, ord: Seq<usize>)
    requires
        forall|a: int| 0 <= a < ord.len() ==> entries[ord[a] as int].is_dir,
    ensures
        dirs_in(entries, ord) == ord,
        non_dirs_in(entries, ord) == Seq::<usize>::empty(),
    decreases ord.len(),
{
    reveal(Seq::filter);
    if ord.len() > 0 {
        lemma_all_dirs(entries, ord.drop_last());
        lemma_group_step(entries, ord);
        assert(ord.drop_last().push(ord.last()) =~= ord);
    } else {
        assert(ord =~= Seq::<usize>::empty());
    }
}

proof fn lemma_no_dirs(entries: Seq<DirEntry>, ord: Seq<usize>)
    requires
        forall|a: int| 0 <= a < ord.len() ==> !entries[ord[a] as int].is_dir,
    ensures
        dirs_in(entries, ord) == Seq::<usize>::empty(),
        non_dirs_in(entries, ord) == ord,
    decreases ord.len(),
{
    reveal(Seq::filter);
    if ord.len() > 0 {
        lemma_no_dirs(entries, ord.drop_last());
        lemma_group_step(entries, ord);
        assert(ord.drop_last().push(ord.last()) =~= ord);
    } else {
        assert(ord =~= Seq::<usize>::empty());
    }
}

/// Grouping directories first is a stable partition: an order whose first
/// `p` entries are its directories comes out of it unchanged.
pub proof fn lemma_grouping_keeps_grouped_order(entries: Seq<DirEntry>, ord: Seq<usize>, p: int)
    requires
        0 <= p <= ord.len(),
        forall|a: int| 0 <= a < p ==> entries[ord[a] as int].is_dir,
        forall|a: int| p <= a < ord.len() ==> !entries[ord[a] as int].is_dir,
    ensures
        grouped(entries, ord, true) == ord,
{
    let front = ord.subrange(0, p);
    let back = ord.subrange(p, ord.len() as int);
    assert(front + back =~= ord);
    assert forall|a: int| 0 <= a < front.len() implies entries[front[a] as int].is_dir by {
        assert(front[a] == ord[a]);
    }
    assert forall|a: int| 0 <= a < back.len() implies !entries[back[a] as int].is_dir by {
        assert(back[a] == ord[p + a]);
    }
    lemma_all_dirs(entries, front);
    lemma_no_dirs(entries, back);
    Seq::filter_distributes_over_add(front, back, |k: usize| entries[k as int].is_dir);
    Seq::filter_distributes_over_add(front, back, |k: usize| !entries[k as int].is_dir);
    assert(dirs_in(entries, ord) == front);
    assert(non_dirs_in(entries, ord) == back);
}

/// A symbolic link whose target exists is shown with a plain arrow to it;
/// one whose target does not exist carries the broken-link marker.
pub proof fn lemma_link_marking(path: Seq<char>, meta: EntryMeta, params: Params, target: String, exists: bool)
    requires
        meta.kind == EntryKind::Symlink,
        meta.link == Some(LinkTarget::Resolved { target, exists }),
    ensures
        exists ==> display_name_of(path, meta, params) == ansi(Style::Cyan) + shown_name(
            path,
            meta.kind,
            params,
        ) + " -> "@ + target@,
        !exists ==> has_suffix(display_name_of(path, meta, params), "[Broken Link]"@),
{
    if !exists {
        let d = display_name_of(path, meta, params);
        let m = "[Broken Link]"@;
        assert(d.subrange(d.len() - m.len(), d.len() as int) =~= m);
    }
}

/// The listing order of a directory is determined: two orders that both
/// sort its listed entries are the same, so the names listed are too.
pub proof fn lemma_listing_order_unique(
    entries: Seq<DirEntry>,
    params: Params,
    ord1: Seq<usize>,
    ord2: Seq<usize>,
)
    requires
        is_sorted_listing(entries, params, ord1),
        is_sorted_listing(entries, params, ord2),
    ensures
        ord1 == ord2,
        listed_names(entries, params, ord1) == listed_names(entries, params, ord2),
{
    lemma_sorted_unique(entry_keys(entries), ord1, ord2);
}

} // verus!
