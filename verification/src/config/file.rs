//! The raw config file, and how its fields are read from and written to text.

use indexmap::IndexMap;
use vstd::prelude::*;

use crate::config::{GitReference, Shell};
use crate::text::{concat3, str_chars, str_eq, string_from_chars, to_lowercase};
use crate::url::Url;
use crate::util::path::PathBuf;

verus! {

/// A value of a key that the config file does not know.
#[derive(Debug, PartialEq, Eq)]
pub enum RestValue {
    /// A string value.
    String(String),
    /// Any other TOML value.
    Other,
}

/// The contents of the configuration file.
#[derive(Debug)]
pub struct RawConfig {
    /// What type of shell is being used.
    pub shell: Option<Shell>,
    /// Which files to match and use in a plugin's directory.
    pub matches: Option<Vec<String>>,
    /// The default list of template names to apply to each matched file.
    pub apply: Option<Vec<String>>,
    /// A map of name to template string.
    pub templates: IndexMap<String, String>,
    /// The plugins, by name, in the order of the file.
    pub plugins: Vec<(String, RawPlugin)>,
    /// Any extra keys, in the order of the file.
    pub rest: Vec<(String, RestValue)>,
}

/// The actual plugin configuration.
#[derive(Debug, PartialEq, Eq)]
pub struct RawPlugin {
    /// A clonable Git repository.
    pub git: Option<Url>,
    /// A clonable Gist repository.
    pub gist: Option<GistRepository>,
    /// A clonable GitHub repository.
    pub github: Option<GitHubRepository>,
    /// A downloadable file.
    pub remote: Option<Url>,
    /// A local directory.
    pub local: Option<PathBuf>,
    /// An inline script.
    pub inline: Option<String>,
    /// What protocol to use when cloning a repository.
    pub proto: Option<GitProtocol>,
    /// The Git reference to checkout.
    pub reference: Option<GitReference>,
    /// Which directory to use in this plugin.
    pub dir: Option<String>,
    /// Which files to use in this plugin's directory.
    pub uses: Option<Vec<String>>,
    /// What templates to apply to each matched file.
    pub apply: Option<Vec<String>>,
    /// Only install this plugin if one of the given profiles is set.
    pub profiles: Option<Vec<String>>,
    /// Hooks executed during template evaluation, by name.
    pub hooks: Option<Vec<(String, String)>>,
    /// Any extra keys, in the order of the file.
    pub rest: Vec<(String, RestValue)>,
}

/// A Gist repository identifier.
#[derive(Debug, PartialEq, Eq)]
pub struct GistRepository {
    /// The GitHub username / organization.
    pub owner: Option<String>,
    /// The Gist identifier.
    pub identifier: String,
}

/// A GitHub repository identifier.
#[derive(Debug, PartialEq, Eq)]
pub struct GitHubRepository {
    /// The GitHub username / organization.
    pub owner: String,
    /// The GitHub repository name.
    pub name: String,
}

/// The Git protocol.
#[derive(Debug, Clone, Copy, PartialEq, Eq, Structural)]
pub enum GitProtocol {
    Git,
    Https,
    Ssh,
}

/// Produced when we fail to parse the shell type; holds the rejected text.
#[derive(Debug)]
pub struct ParseShellError(pub String);

/// Produced when we fail to parse a Git protocol; holds the rejected text.
#[derive(Debug)]
pub struct ParseGitProtocolError(pub String);

/// Produced when we fail to parse a Gist repository; holds the rejected text.
#[derive(Debug)]
pub struct ParseGistRepositoryError(pub String);

/// Produced when we fail to parse a GitHub repository; holds the rejected
/// text.
#[derive(Debug)]
pub struct ParseGitHubRepositoryError(pub String);

/// The characters allowed in a GitHub user or organization:
/// `[a-zA-Z0-9_-]`.
pub open spec fn is_owner_char(c: char) -> bool {
    ('a' <= c <= 'z') || ('A' <= c <= 'Z') || ('0' <= c <= '9') || c == '_' || c == '-'
}

/// The characters allowed in a GitHub repository name: `[a-zA-Z0-9._-]`.
pub open spec fn is_name_char(c: char) -> bool {
    is_owner_char(c) || c == '.'
}

/// The characters allowed in a Gist identifier: `[a-fA-F0-9]`.
pub open spec fn is_hex_char(c: char) -> bool {
    ('a' <= c <= 'f') || ('A' <= c <= 'F') || ('0' <= c <= '9')
}

/// A set of characters.
#[derive(Clone, Copy)]
pub enum CharClass {
    Owner,
    Name,
    Hex,
}

/// Whether `c` belongs to the class `k`.
pub open spec fn in_class(k: CharClass, c: char) -> bool {
    match k {
        CharClass::Owner => is_owner_char(c),
        CharClass::Name => is_name_char(c),
        CharClass::Hex => is_hex_char(c),
    }
}

/// Whether `s` is non-empty and all of its characters belong to `k`.
pub open spec fn one_or_more(k: CharClass, s: Seq<char>) -> bool {
    s.len() > 0 && forall|i: int| 0 <= i < s.len() ==> in_class(k, #[trigger] s[i])
}

/// The position of the first `c` in `s`, or `-1`.
pub open spec fn index_of(s: Seq<char>, c: char) -> int
    decreases s.len(),
{
    if s.len() == 0 {
        -1
    } else {
        let i = index_of(s.drop_last(), c);
        if i >= 0 {
            i
        } else if s.last() == c {
            s.len() - 1
        } else {
            -1
        }
    }
}

/// How `s` reads as a Gist repository, matching
/// `^((?P<owner>[a-zA-Z0-9_-]+)/)?(?P<identifier>[a-fA-F0-9]+)$`.
pub open spec fn spec_parse_gist(s: Seq<char>) -> Option<(Option<Seq<char>>, Seq<char>)> {
    let k = index_of(s, '/');
    if k < 0 {
        if one_or_more(CharClass::Hex, s) {
            Some((None, s))
        } else {
            None
        }
    } else if one_or_more(CharClass::Owner, s.take(k)) && one_or_more(CharClass::Hex, s.skip(k + 1)) {
        Some((Some(s.take(k)), s.skip(k + 1)))
    } else {
        None
    }
}

/// How `s` reads as a GitHub repository, matching
/// `^(?P<owner>[a-zA-Z0-9_-]+)/(?P<name>[a-zA-Z0-9\._-]+)$`.
pub open spec fn spec_parse_github(s: Seq<char>) -> Option<(Seq<char>, Seq<char>)> {
    let k = index_of(s, '/');
    if k >= 0 && one_or_more(CharClass::Owner, s.take(k)) && one_or_more(
        CharClass::Name,
        s.skip(k + 1),
    ) {
        Some((s.take(k), s.skip(k + 1)))
    } else {
        None
    }
}

/// The text of a Gist repository: `[{owner}/]{identifier}`.
pub open spec fn spec_gist_text(owner: Option<Seq<char>>, identifier: Seq<char>) -> Seq<char> {
    match owner {
        Some(o) => o + seq!['/'] + identifier,
        None => identifier,
    }
}

/// The name of a Git protocol.
pub open spec fn spec_protocol_name(p: GitProtocol) -> Seq<char> {
    match p {
        GitProtocol::Git => seq!['g', 'i', 't'],
        GitProtocol::Https => seq!['h', 't', 't', 'p', 's'],
        GitProtocol::Ssh => seq!['s', 's', 'h'],
    }
}

/// The URL prefix of a Git protocol.
pub open spec fn spec_protocol_prefix(p: GitProtocol) -> Seq<char> {
    match p {
        GitProtocol::Git => seq!['g', 'i', 't', ':', '/', '/'],
        GitProtocol::Https => seq!['h', 't', 't', 'p', 's', ':', '/', '/'],
        GitProtocol::Ssh => seq!['s', 's', 'h', ':', '/', '/', 'g', 'i', 't', '@'],
    }
}

/// Whether `c` belongs to `k`.
pub fn char_in_class(k: CharClass, c: char) -> (b: bool)
    ensures
        b == in_class(k, c),
{
    let owner = ('a' <= c && c <= 'z') || ('A' <= c && c <= 'Z') || ('0' <= c && c <= '9') || c
        == '_' || c == '-';
    match k {
        CharClass::Owner => owner,
        CharClass::Name => owner || c == '.',
        CharClass::Hex => ('a' <= c && c <= 'f') || ('A' <= c && c <= 'F') || ('0' <= c && c
            <= '9'),
    }
}

/// Whether `s[from..to]` is non-empty and all of its characters belong to
/// `k`.
fn range_one_or_more(k: CharClass, s: &Vec<char>, from: usize, to: usize) -> (b: bool)
    requires
        from <= to <= s.len(),
    ensures
        b == one_or_more(k, s@.subrange(from as int, to as int)),
{
    if from == to {
        return false;
    }
    let mut i = from;
    while i < to
        invariant
            from <= i <= to <= s.len(),
            forall|j: int| from <= j < i ==> in_class(k, #[trigger] s@[j]),
        decreases to - i,
    {
        if !char_in_class(k, s[i]) {
            assert(!in_class(k, s@.subrange(from as int, to as int)[i - from]));
            return false;
        }
        i = i + 1;
    }
    assert forall|j: int| 0 <= j < to - from implies in_class(
        k,
        #[trigger] s@.subrange(from as int, to as int)[j],
    ) by {
        assert(s@.subrange(from as int, to as int)[j] == s@[from + j]);
    }
    true
}

/// `index_of` finds the first occurrence.
pub proof fn lemma_index_of(s: Seq<char>, c: char)
    ensures
        -1 <= index_of(s, c) < s.len(),
        index_of(s, c) >= 0 ==> s[index_of(s, c)] == c,
        forall|j: int| 0 <= j < s.len() && (index_of(s, c) < 0 || j < index_of(s, c)) ==> s[j]
            != c,
    decreases s.len(),
{
    if s.len() > 0 {
        let d = s.drop_last();
        lemma_index_of(d, c);
        assert forall|j: int| 0 <= j < d.len() implies #[trigger] s[j] == d[j] by {}
    }
}

/// The position of the first `c` in `s`.
pub fn find_char(s: &Vec<char>, c: char) -> (r: Option<usize>)
    ensures
        match r {
            Some(i) => i < s.len() && i as int == index_of(s@, c),
            None => index_of(s@, c) < 0,
        },
{
    proof {
        lemma_index_of(s@, c);
    }
    let mut i: usize = 0;
    while i < s.len()
        invariant
            i <= s.len(),
            forall|j: int| 0 <= j < i ==> s@[j] != c,
            -1 <= index_of(s@, c) < s@.len(),
            index_of(s@, c) >= 0 ==> s@[index_of(s@, c)] == c,
            forall|j: int|
                0 <= j < s@.len() && (index_of(s@, c) < 0 || j < index_of(s@, c)) ==> s@[j]
                    != c,
        decreases s.len() - i,
    {
        if s[i] == c {
            return Some(i);
        }
        i = i + 1;
    }
    None
}

/// The characters of `s[from..to]` as a `String`.
fn substring(s: &Vec<char>, from: usize, to: usize) -> (r: String)
    requires
        from <= to <= s.len(),
    ensures
        r@ == s@.subrange(from as int, to as int),
{
    let mut v: Vec<char> = Vec::new();
    let mut i = from;
    while i < to
        invariant
            from <= i <= to <= s.len(),
            v@ == s@.subrange(from as int, i as int),
        decreases to - i,
    {
        v.push(s[i]);
        assert(s@.subrange(from as int, i + 1) =~= s@.subrange(from as int, i as int).push(
            s@[i as int],
        ));
        i = i + 1;
    }
    string_from_chars(v.as_slice())
}

impl Shell {
    /// Reads a shell name that is already lowercase: `bash` or `zsh`.
    pub fn from_lowercase(s: &str) -> (r: Result<Shell, ParseShellError>)
        ensures
            match r {
                Ok(sh) => s@ == crate::config::spec_shell_name(sh),
                Err(e) => e.0@ == s@ && s@ != crate::config::spec_shell_name(Shell::Bash) && s@
                    != crate::config::spec_shell_name(Shell::Zsh),
            },
    {
        proof {
            reveal_strlit("bash");
            reveal_strlit("zsh");
            assert("bash"@ =~= crate::config::spec_shell_name(Shell::Bash));
            assert("zsh"@ =~= crate::config::spec_shell_name(Shell::Zsh));
        }
        if str_eq(s, "bash") {
            Ok(Shell::Bash)
        } else if str_eq(s, "zsh") {
            Ok(Shell::Zsh)
        } else {
            Err(ParseShellError(crate::text::to_owned_string(s)))
        }
    }

    /// Reads a shell name, ignoring case; the name of each shell reads back
    /// as that shell.
    pub fn from_str(s: &str) -> (r: Result<Shell, ParseShellError>)
        ensures
            s@ == crate::config::spec_shell_name(Shell::Bash) ==> r matches Ok(Shell::Bash),
            s@ == crate::config::spec_shell_name(Shell::Zsh) ==> r matches Ok(Shell::Zsh),
            match r {
                Ok(sh) => crate::text::lowercase(s@) == crate::config::spec_shell_name(sh),
                Err(e) => e.0@ == crate::text::lowercase(s@) && crate::text::lowercase(s@)
                    != crate::config::spec_shell_name(Shell::Bash) && crate::text::lowercase(s@)
                    != crate::config::spec_shell_name(Shell::Zsh),
            },
    {
        let lower = to_lowercase(s);
        proof {
            let bash = crate::config::spec_shell_name(Shell::Bash);
            let zsh = crate::config::spec_shell_name(Shell::Zsh);
            if s@ == bash {
                assert forall|i: int| 0 <= i < s@.len() implies 'a' <= #[trigger] s@[i] <= 'z' by {
                    assert(bash[0] == 'b' && bash[1] == 'a' && bash[2] == 's' && bash[3] == 'h');
                }
            }
            if s@ == zsh {
                assert forall|i: int| 0 <= i < s@.len() implies 'a' <= #[trigger] s@[i] <= 'z' by {
                    assert(zsh[0] == 'z' && zsh[1] == 's' && zsh[2] == 'h');
                }
            }
            assert(bash != zsh) by {
                assert(bash.len() != zsh.len());
            }
        }
        Shell::from_lowercase(lower.as_str())
    }
}

impl ParseShellError {
    /// The message of this error.
    pub fn to_string(&self) -> (s: String)
        ensures
            s@ == "expected one of `bash` or `zsh`, got `"@ + self.0@ + "`"@,
    {
        concat3("expected one of `bash` or `zsh`, got `", self.0.as_str(), "`")
    }
}

impl GitProtocol {
    /// The name of the protocol: `git`, `https` or `ssh`.
    pub fn to_string(&self) -> (s: String)
        ensures
            s@ == spec_protocol_name(*self),
    {
        proof {
            reveal_strlit("git");
            reveal_strlit("https");
            reveal_strlit("ssh");
        }
        match self {
            GitProtocol::Git => crate::text::to_owned_string("git"),
            GitProtocol::Https => crate::text::to_owned_string("https"),
            GitProtocol::Ssh => crate::text::to_owned_string("ssh"),
        }
    }

    /// Reads a protocol name: exactly `git`, `https` or `ssh`.
    pub fn from_str(s: &str) -> (r: Result<GitProtocol, ParseGitProtocolError>)
        ensures
            match r {
                Ok(p) => s@ == spec_protocol_name(p),
                Err(e) => e.0@ == s@ && s@ != spec_protocol_name(GitProtocol::Git) && s@
                    != spec_protocol_name(GitProtocol::Https) && s@ != spec_protocol_name(
                    GitProtocol::Ssh,
                ),
            },
    {
        proof {
            reveal_strlit("git");
            reveal_strlit("https");
            reveal_strlit("ssh");
            assert("git"@ =~= spec_protocol_name(GitProtocol::Git));
            assert("https"@ =~= spec_protocol_name(GitProtocol::Https));
            assert("ssh"@ =~= spec_protocol_name(GitProtocol::Ssh));
        }
        if str_eq(s, "git") {
            Ok(GitProtocol::Git)
        } else if str_eq(s, "https") {
            Ok(GitProtocol::Https)
        } else if str_eq(s, "ssh") {
            Ok(GitProtocol::Ssh)
        } else {
            Err(ParseGitProtocolError(crate::text::to_owned_string(s)))
        }
    }

    /// The URL prefix used to clone with this protocol: `git://`, `https://`
    /// or `ssh://git@`.
    pub fn prefix(&self) -> (s: &'static str)
        ensures
            s@ == spec_protocol_prefix(*self),
    {
        proof {
            reveal_strlit("git://");
            reveal_strlit("https://");
            reveal_strlit("ssh://git@");
        }
        match self {
            GitProtocol::Git => "git://",
            GitProtocol::Https => "https://",
            GitProtocol::Ssh => "ssh://git@",
        }
    }
}

impl ParseGitProtocolError {
    /// The message of this error.
    pub fn to_string(&self) -> (s: String)
        ensures
            s@ == "expected one of `git`, `https`, or `ssh`, got `"@ + self.0@ + "`"@,
    {
        concat3("expected one of `git`, `https`, or `ssh`, got `", self.0.as_str(), "`")
    }
}

impl GistRepository {
    /// The text of the repository: `[{owner}/]{identifier}`.
    pub fn to_string(&self) -> (s: String)
        ensures
            s@ == spec_gist_text(crate::url::opt_view(self.owner), self.identifier@),
    {
        proof {
            reveal_strlit("/");
        }
        match &self.owner {
            Some(owner) => concat3(owner.as_str(), "/", self.identifier.as_str()),
            None => self.identifier.clone(),
        }
    }

    /// Reads a Gist repository: the hash, or the username and hash separated
    /// by `/`.
    pub fn from_str(s: &str) -> (r: Result<GistRepository, ParseGistRepositoryError>)
        ensures
            match r {
                Ok(g) => spec_parse_gist(s@) == Some((crate::url::opt_view(g.owner), g.identifier@)),
                Err(e) => spec_parse_gist(s@) is None && e.0@ == s@,
            },
    {
        let chars = str_chars(s);
        let n = chars.len();
        match find_char(&chars, '/') {
            None => {
                if range_one_or_more(CharClass::Hex, &chars, 0, n) {
                    assert(chars@.subrange(0, n as int) =~= chars@);
                    let identifier = substring(&chars, 0, n);
                    assert(chars@.subrange(0, n as int) =~= s@);
                    Ok(GistRepository { owner: None, identifier })
                } else {
                    assert(chars@.subrange(0, n as int) =~= chars@);
                    Err(ParseGistRepositoryError(crate::text::to_owned_string(s)))
                }
            },
            Some(k) => {
                if range_one_or_more(CharClass::Owner, &chars, 0, k) && range_one_or_more(
                    CharClass::Hex,
                    &chars,
                    k + 1,
                    n,
                ) {
                    let owner = substring(&chars, 0, k);
                    let identifier = substring(&chars, k + 1, n);
                    assert(chars@.subrange(0, k as int) =~= s@.take(k as int));
                    assert(chars@.subrange(k + 1, n as int) =~= s@.skip(k + 1));
                    Ok(GistRepository { owner: Some(owner), identifier })
                } else {
                    assert(chars@.subrange(0, k as int) =~= s@.take(k as int));
                    assert(chars@.subrange(k + 1, n as int) =~= s@.skip(k + 1));
                    Err(ParseGistRepositoryError(crate::text::to_owned_string(s)))
                }
            },
        }
    }
}

impl ParseGistRepositoryError {
    /// The message of this error.
    pub fn to_string(&self) -> (s: String)
        ensures
            s@ == "`"@ + self.0@
                + "` is not a valid Gist identifier, the hash or username/hash should be provided"@,
    {
        concat3(
            "`",
            self.0.as_str(),
            "` is not a valid Gist identifier, the hash or username/hash should be provided",
        )
    }
}

impl GitHubRepository {
    /// The text of the repository: `{owner}/{name}`.
    pub fn to_string(&self) -> (s: String)
        ensures
            s@ == self.owner@ + seq!['/'] + self.name@,
    {
        proof {
            reveal_strlit("/");
        }
        concat3(self.owner.as_str(), "/", self.name.as_str())
    }

    /// Reads a GitHub repository: the username and repository separated by
    /// `/`.
    pub fn from_str(s: &str) -> (r: Result<GitHubRepository, ParseGitHubRepositoryError>)
        ensures
            match r {
                Ok(g) => spec_parse_github(s@) == Some((g.owner@, g.name@)),
                Err(e) => spec_parse_github(s@) is None && e.0@ == s@,
            },
    {
        let chars = str_chars(s);
        let n = chars.len();
        match find_char(&chars, '/') {
            None => Err(ParseGitHubRepositoryError(crate::text::to_owned_string(s))),
            Some(k) => {
                assert(chars@.subrange(0, k as int) =~= s@.take(k as int));
                assert(chars@.subrange(k + 1, n as int) =~= s@.skip(k + 1));
                if range_one_or_more(CharClass::Owner, &chars, 0, k) && range_one_or_more(
                    CharClass::Name,
                    &chars,
                    k + 1,
                    n,
                ) {
                    let owner = substring(&chars, 0, k);
                    let name = substring(&chars, k + 1, n);
                    Ok(GitHubRepository { owner, name })
                } else {
                    Err(ParseGitHubRepositoryError(crate::text::to_owned_string(s)))
                }
            },
        }
    }
}

impl ParseGitHubRepositoryError {
    /// The message of this error.
    pub fn to_string(&self) -> (s: String)
        ensures
            s@ == "`"@ + self.0@
                + "` is not a valid GitHub repository, the username/repository should be provided"@,
    {
        concat3(
            "`",
            self.0.as_str(),
            "` is not a valid GitHub repository, the username/repository should be provided",
        )
    }
}

} // verus!

verus! {

/// Reading the text of a GitHub repository gives the repository back.
pub proof fn lemma_github_roundtrip(owner: Seq<char>, name: Seq<char>)
    requires
        one_or_more(CharClass::Owner, owner),
        one_or_more(CharClass::Name, name),
    ensures
        spec_parse_github(owner + seq!['/'] + name) == Some((owner, name)),
{
    let s = owner + seq!['/'] + name;
    lemma_index_of(s, '/');
    let k = owner.len() as int;
    assert(s[k] == '/');
    assert forall|j: int| 0 <= j < k implies s[j] != '/' by {
        assert(s[j] == owner[j]);
        assert(in_class(CharClass::Owner, owner[j]));
    }
    assert(index_of(s, '/') == k);
    assert(s.take(k) =~= owner);
    assert(s.skip(k + 1) =~= name);
}

/// Reading the text of a Gist repository gives the repository back.
pub proof fn lemma_gist_roundtrip(owner: Option<Seq<char>>, identifier: Seq<char>)
    requires
        owner matches Some(o) ==> one_or_more(CharClass::Owner, o),
        one_or_more(CharClass::Hex, identifier),
    ensures
        spec_parse_gist(spec_gist_text(owner, identifier)) == Some((owner, identifier)),
{
    let s = spec_gist_text(owner, identifier);
    lemma_index_of(s, '/');
    match owner {
        Some(o) => {
            let k = o.len() as int;
            assert(s[k] == '/');
            assert forall|j: int| 0 <= j < k implies s[j] != '/' by {
                assert(s[j] == o[j]);
                assert(in_class(CharClass::Owner, o[j]));
            }
            assert(index_of(s, '/') == k);
            assert(s.take(k) =~= o);
            assert(s.skip(k + 1) =~= identifier);
        },
        None => {
            assert forall|j: int| 0 <= j < s.len() implies s[j] != '/' by {
                assert(in_class(CharClass::Hex, identifier[j]));
            }
            assert(index_of(s, '/') < 0);
        },
    }
}

/// Reading the name of a protocol gives the protocol back, and the names
/// of the protocols differ.
pub proof fn lemma_protocol_roundtrip(p: GitProtocol, q: GitProtocol)
    ensures
        p != q ==> spec_protocol_name(p) != spec_protocol_name(q),
{
    assert(spec_protocol_name(GitProtocol::Git)[0] == 'g');
    assert(spec_protocol_name(GitProtocol::Ssh)[0] == 's');
    assert(spec_protocol_name(GitProtocol::Https).len() == 5);
}

/// The names of the shells differ, so reading the name of a shell gives
/// the shell back.
pub proof fn lemma_shell_names_distinct()
    ensures
        crate::config::spec_shell_name(Shell::Bash) != crate::config::spec_shell_name(Shell::Zsh),
{
    assert(crate::config::spec_shell_name(Shell::Bash).len() == 4);
}

} // verus!
