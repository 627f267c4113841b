//! Ignore rules in the style of `.gitignore` files: which lines are rules,
//! how each glob becomes a regular expression, and which rule decides.
use vstd::prelude::*;
use vstd::string::StringExecFns;
use crate::utils::text::{chars_of, has_prefix, push_range, string_of};

verus! {

#[verifier::external_type_specification]
#[verifier::external_body]
pub struct ExRegex(regex::Regex);

#[verifier::external_type_specification]
#[verifier::external_body]
pub struct ExRegexError(regex::Error);

#[verifier::external_type_specification]
#[verifier::external_body]
pub struct ExIoError(std::io::Error);

/// Why ignore rules could not be loaded or applied.
#[derive(Debug)]
pub enum GitIgnoreError {
    IoError(std::io::Error),
    RegexError(regex::Error),
    InvalidFilePath(String),
}

/// What `str::trim` leaves of a text.
pub uninterp spec fn trimmed(s: Seq<char>) -> Seq<char>;

/// Whether a character has a meaning in a regular expression: one of
/// `\ . + * ? ( ) | [ ] { } ^ $ # & - ~`.
pub open spec fn is_meta(c: char) -> bool {
    c == '\\' || c == '.' || c == '+' || c == '*' || c == '?' || c == '(' || c == ')' || c == '|'
        || c == '[' || c == ']' || c == '{' || c == '}' || c == '^' || c == '$' || c == '#' || c
        == '&' || c == '-' || c == '~'
}

/// A text with a backslash put before each of its meta characters.
pub open spec fn escaped(s: Seq<char>) -> Seq<char>
    decreases s.len(),
{
    if s.len() == 0 {
        seq![]
    } else if is_meta(s.last()) {
        escaped(s.drop_last()) + seq!['\\', s.last()]
    } else {
        escaped(s.drop_last()).push(s.last())
    }
}

/// Whether `regex::Regex::new` accepts a regular expression.
pub uninterp spec fn regex_compiles(source: Seq<char>) -> bool;

/// What `str::replace` gives for a text, a pattern and its replacement.
pub uninterp spec fn replaced(s: Seq<char>, from: Seq<char>, to: Seq<char>) -> Seq<char>;

/// Relies on `str::trim`: the text without leading and trailing white
/// space, a function of the text alone.
#[verifier::external_body]
fn trim(s: &str) -> (r: String)
    ensures
        r@ == trimmed(s@),
{
    s.trim().to_string()
}

/// Relies on `regex::escape` (`regex_syntax::escape_into`): each character
/// in order, a backslash before each meta character (see [`is_meta`]).
#[verifier::external_body]
fn regex_escape(s: &str) -> (r: String)
    ensures
        r@ == escaped(s@),
{
    regex::escape(s)
}

/// Relies on `str::replace`: every match of `from` replaced by `to`, a
/// function of the three texts alone.
#[verifier::external_body]
fn replace_all(s: &str, from: &str, to: &str) -> (r: String)
    ensures
        r@ == replaced(s@, from@, to@),
{
    s.replace(from, to)
}

/// Relies on `regex::Regex::new`: compiles a regular expression with the
/// default builder; whether it succeeds depends on the expression alone.
#[verifier::external_body]
fn compile_regex(source: &str) -> (r: Result<regex::Regex, regex::Error>)
    ensures
        r is Ok <==> regex_compiles(source@),
{
    regex::Regex::new(source)
}

/// Relies on `regex::Regex::is_match`: whether the expression matches
/// somewhere in `text`.
#[verifier::external_body]
fn regex_is_match(re: &regex::Regex, text: &str) -> bool {
    re.is_match(text)
}

/// Whether a trimmed line is a rule: not empty and no `#` comment.
pub open spec fn is_rule_line(t: Seq<char>) -> bool {
    t.len() > 0 && t[0] != '#'
}

/// The rules among the lines of an ignore file, each trimmed, in order.
pub open spec fn rules_of(lines: Seq<Seq<char>>) -> Seq<Seq<char>>
    decreases lines.len(),
{
    if lines.len() == 0 {
        seq![]
    } else {
        let rest = rules_of(lines.drop_last());
        let t = trimmed(lines.last());
        if is_rule_line(t) {
            rest.push(t)
        } else {
            rest
        }
    }
}

/// The characters of each string.
pub open spec fn texts(v: Seq<String>) -> Seq<Seq<char>> {
    v.map_values(|s: String| s@)
}

/// The rules among the lines of an ignore file.
pub fn read_gitignore_patterns(lines: &Vec<String>) -> (r: Vec<String>)
    ensures
        texts(r@) == rules_of(texts(lines@)),
{
    let mut patterns: Vec<String> = Vec::new();
    let mut i: usize = 0;
    while i < lines.len()
        invariant
            i <= lines@.len(),
            texts(patterns@) == rules_of(texts(lines@.subrange(0, i as int))),
        decreases lines@.len() - i,
    {
        let t = trim(lines[i].as_str());
        let tc = chars_of(t.as_str());
        let keep = tc.len() > 0 && tc[0] != '#';
        proof {
            let next = texts(lines@.subrange(0, i + 1));
            assert(next.drop_last() =~= texts(lines@.subrange(0, i as int)));
            assert(next.last() == lines@[i as int]@);
        }
        let ghost before = patterns@;
        if keep {
            patterns.push(t);
            assert(texts(patterns@) =~= texts(before).push(tc@));
        }
        i = i + 1;
    }
    assert(lines@.subrange(0, lines@.len() as int) =~= lines@);
    patterns
}

/// A glob made a regular expression: its text escaped, then `**` matching
/// anything, `*` anything but `/`, and `?` any one character.
pub open spec fn glob_body(p: Seq<char>) -> Seq<char> {
    replaced(
        replaced(replaced(escaped(p), "\\*\\*"@, ".*"@), "\\*"@, "[^/]*"@),
        "\\?"@,
        "."@,
    )
}

/// Whether a rule is negated: it begins with `!`.
pub open spec fn is_negated(rule: Seq<char>) -> bool {
    has_prefix(rule, seq!['!'])
}

/// A rule without its leading `!`.
pub open spec fn rule_glob(rule: Seq<char>) -> Seq<char> {
    if is_negated(rule) {
        rule.subrange(1, rule.len() as int)
    } else {
        rule
    }
}

/// The regular expression of a rule's glob: anchored at the root where it
/// begins with `/`; as it stands where it holds a `/`; else matching the
/// last components of a path.
pub open spec fn rule_regex(g: Seq<char>) -> Seq<char> {
    if has_prefix(g, seq!['/']) {
        "^/"@ + glob_body(g.subrange(1, g.len() as int))
    } else if g.contains('/') {
        glob_body(g)
    } else {
        "(^|.*/)"@ + glob_body(g) + "$"@
    }
}

fn glob_to_regex_body(p: &str) -> (r: String)
    ensures
        r@ == glob_body(p@),
{
    let e = regex_escape(p);
    let a = replace_all(e.as_str(), "\\*\\*", ".*");
    let b = replace_all(a.as_str(), "\\*", "[^/]*");
    replace_all(b.as_str(), "\\?", ".")
}

/// The regular expression for a rule's glob: see [`rule_regex`].
pub fn regex_source(glob: &str) -> (r: String)
    ensures
        r@ == rule_regex(glob@),
{
    let g = chars_of(glob);
    if g.len() > 0 && g[0] == '/' {
        assert(g@.subrange(0, 1) =~= seq!['/']);
        let mut rest: Vec<char> = Vec::new();
        push_range(&mut rest, &g, 1, g.len());
        let body = glob_to_regex_body(string_of(&rest).as_str());
        let mut s = String::from_str("^/");
        s.append(body.as_str());
        return s;
    }
    proof {
        if has_prefix(g@, seq!['/']) {
            assert(g@[0] == g@.subrange(0, 1)[0]);
        }
    }
    let mut has_slash = false;
    let mut i: usize = 0;
    while i < g.len()
        invariant
            i <= g@.len(),
            has_slash == g@.subrange(0, i as int).contains('/'),
        decreases g@.len() - i,
    {
        proof {
            let next = g@.subrange(0, i + 1);
            assert(next =~= g@.subrange(0, i as int).push(g@[i as int]));
            if g@.subrange(0, i as int).contains('/') {
                let w = choose|w: int| 0 <= w < i && g@.subrange(0, i as int)[w] == '/';
                assert(next[w] == '/');
            }
            if next.contains('/') && g@[i as int] != '/' {
                let w = choose|w: int| 0 <= w < i + 1 && next[w] == '/';
                assert(g@.subrange(0, i as int)[w] == '/');
            }
            if g@[i as int] == '/' {
                assert(next[i as int] == '/');
            }
        }
        if g[i] == '/' {
            has_slash = true;
        }
        i = i + 1;
    }
    assert(g@.subrange(0, g@.len() as int) =~= g@);
    let body = glob_to_regex_body(glob);
    if has_slash {
        body
    } else {
        let mut s = String::from_str("(^|.*/)");
        s.append(body.as_str());
        s.append("$");
        s
    }
}

/// Whether a path is ignored, given for each rule whether it is negated and
/// whether it matches the path: the last matching rule decides (a negated
/// one re-includes the path); with no matching rule the path is kept.
pub open spec fn decided(negated: Seq<bool>, matches: Seq<bool>) -> bool
    decreases matches.len(),
{
    if matches.len() == 0 {
        false
    } else if matches.last() {
        !negated[matches.len() - 1]
    } else {
        decided(negated, matches.drop_last())
    }
}

/// Whether a path is ignored: see [`decided`].
pub fn last_match_decides(negated: &Vec<bool>, matches: &Vec<bool>) -> (r: bool)
    requires
        negated@.len() == matches@.len(),
    ensures
        r == decided(negated@, matches@),
{
    let mut ignored = false;
    let mut i: usize = 0;
    while i < matches.len()
        invariant
            i <= matches@.len() == negated@.len(),
            ignored == decided(negated@, matches@.subrange(0, i as int)),
        decreases matches@.len() - i,
    {
        assert(matches@.subrange(0, i + 1).drop_last() =~= matches@.subrange(0, i as int));
        if matches[i] {
            ignored = !negated[i];
        }
        i = i + 1;
    }
    assert(matches@.subrange(0, matches@.len() as int) =~= matches@);
    ignored
}

/// Ignore rules: for each, whether it is negated, its compiled expression
/// and its glob. None where no ignore file was found.
pub struct GitIgnore {
    pub patterns: Option<Vec<(bool, regex::Regex, String)>>,
}

/// The negation flags of compiled rules.
pub open spec fn negations(rules: Seq<(bool, regex::Regex, String)>) -> Seq<bool> {
    rules.map_values(|r: (bool, regex::Regex, String)| r.0)
}

/// The globs of compiled rules.
pub open spec fn globs(rules: Seq<(bool, regex::Regex, String)>) -> Seq<Seq<char>> {
    rules.map_values(|r: (bool, regex::Regex, String)| r.2@)
}

impl GitIgnore {
    /// Compiles the rules of an ignore file (None where there is no file):
    /// each rule's `!` marks a negation, and its glob becomes the regular
    /// expression [`rule_regex`] gives. Fails where an expression does not
    /// compile.
    pub fn new(rules: Option<Vec<String>>) -> (r: Result<GitIgnore, GitIgnoreError>)
        ensures
            r matches Ok(g) ==> match rules {
                None => g.patterns is None,
                Some(rs) => g.patterns is Some && negations(g.patterns->0@) == rs@.map_values(
                    |s: String| is_negated(s@),
                ) && globs(g.patterns->0@) == rs@.map_values(|s: String| rule_glob(s@)),
            },
            r matches Err(e) ==> e is RegexError,
            match rules {
                None => r is Ok,
                Some(rs) => r is Ok <==> forall|i: int|
                    0 <= i < rs@.len() ==> #[trigger] regex_compiles(
                        rule_regex(rule_glob(rs@[i]@)),
                    ),
            },
    {
        match &rules {
            None => Ok(GitIgnore { patterns: None }),
            Some(rs) => {
                let mut compiled: Vec<(bool, regex::Regex, String)> = Vec::new();
                let mut i: usize = 0;
                while i < rs.len()
                    invariant
                        i <= rs@.len(),
                        rules is Some,
                        rules->0@ == rs@,
                        compiled@.len() == i,
                        negations(compiled@) == rs@.subrange(0, i as int).map_values(
                            |s: String| is_negated(s@),
                        ),
                        globs(compiled@) == rs@.subrange(0, i as int).map_values(
                            |s: String| rule_glob(s@),
                        ),
                        forall|k: int|
                            0 <= k < i ==> #[trigger] regex_compiles(
                                rule_regex(rule_glob(rs@[k]@)),
                            ),
                    decreases rs@.len() - i,
                {
                    let cs = chars_of(rs[i].as_str());
                    let negated = cs.len() > 0 && cs[0] == '!';
                    proof {
                        if has_prefix(cs@, seq!['!']) {
                            assert(cs@[0] == cs@.subrange(0, 1)[0]);
                        }
                        if negated {
                            assert(cs@.subrange(0, 1) =~= seq!['!']);
                        }
                    }
                    let glob = if negated {
                        let mut rest: Vec<char> = Vec::new();
                        push_range(&mut rest, &cs, 1, cs.len());
                        string_of(&rest)
                    } else {
                        string_of(&cs)
                    };
                    let source = regex_source(glob.as_str());
                    assert(glob@ == rule_glob(rs@[i as int]@));
                    let re = match compile_regex(source.as_str()) {
                        Ok(re) => re,
                        Err(e) => {
                            assert(!regex_compiles(rule_regex(rule_glob(rs@[i as int]@))));
                            return Err(GitIgnoreError::RegexError(e));
                        },
                    };
                    let ghost before = compiled@;
                    compiled.push((negated, re, glob));
                    proof {
                        let next = rs@.subrange(0, i + 1);
                        assert(next =~= rs@.subrange(0, i as int).push(rs@[i as int]));
                        assert(negations(compiled@) =~= negations(before).push(negated));
                        assert(globs(compiled@) =~= globs(before).push(compiled@[i as int].2@));
                        assert(next.map_values(|s: String| is_negated(s@)) =~= rs@.subrange(
                            0,
                            i as int,
                        ).map_values(|s: String| is_negated(s@)).push(is_negated(rs@[i as int]@)));
                        assert(next.map_values(|s: String| rule_glob(s@)) =~= rs@.subrange(
                            0,
                            i as int,
                        ).map_values(|s: String| rule_glob(s@)).push(rule_glob(rs@[i as int]@)));
                    }
                    i = i + 1;
                }
                assert(rs@.subrange(0, rs@.len() as int) =~= rs@);
                Ok(GitIgnore { patterns: Some(compiled) })
            },
        }
    }

    /// Whether `file_path` (with `\` read as `/`) is ignored: the last rule
    /// whose expression matches it decides; without rules nothing is.
    pub fn is_file_ignored(&self, file_path: &str) -> (r: Result<bool, GitIgnoreError>)
        ensures
            self.patterns is None ==> r == Ok::<bool, GitIgnoreError>(false),
            self.patterns is Some ==> exists|matches: Seq<bool>|
                matches.len() == self.patterns->0@.len() && r == Ok::<bool, GitIgnoreError>(
                    decided(negations(self.patterns->0@), matches),
                ),
    {
        match &self.patterns {
            None => Ok(false),
            Some(rules) => {
                let normalized = replace_all(file_path, "\\", "/");
                let mut negated: Vec<bool> = Vec::new();
                let mut matches: Vec<bool> = Vec::new();
                let mut i: usize = 0;
                while i < rules.len()
                    invariant
                        i <= rules@.len(),
                        matches@.len() == i,
                        negated@ == negations(rules@.subrange(0, i as int)),
                    decreases rules@.len() - i,
                {
                    let rule = &rules[i];
                    matches.push(regex_is_match(&rule.1, normalized.as_str()));
                    let ghost before = negated@;
                    negated.push(rule.0);
                    assert(negations(rules@.subrange(0, i + 1)) =~= before.push(rules@[i as int].0));
                    i = i + 1;
                }
                assert(rules@.subrange(0, rules@.len() as int) =~= rules@);
                Ok(last_match_decides(&negated, &matches))
            },
        }
    }
}

} // verus!
