//! The user configuration.
//!
//! The raw configuration file ([`RawConfig`]) is normalized into a
//! [`Config`]: each plugin gets exactly one [`Source`], Gist and GitHub
//! repositories become Git URLs, and template names are checked.

pub mod file;
pub mod normalize;
pub mod profile;
pub mod clean;
pub mod edit;
pub mod global;

use indexmap::IndexMap;
use vstd::prelude::*;

use crate::text::to_owned_string;
use crate::url::Url;
use crate::util::path::PathBuf;

pub use crate::config::edit::{EditConfig, EditPlugin};
pub use crate::config::file::{
    GistRepository, GitHubRepository, GitProtocol, ParseGistRepositoryError,
    ParseGitHubRepositoryError, ParseGitProtocolError, ParseShellError, RawConfig, RawPlugin,
    RestValue,
};

verus! {

/// The type of shell that we are using.
#[derive(Debug, Clone, Copy, PartialEq, Eq, Structural)]
pub enum Shell {
    Bash,
    Zsh,
}

/// A Git reference.
#[derive(Debug, PartialEq, Eq)]
pub enum GitReference {
    /// From the tip of a branch.
    Branch(String),
    /// From a specific revision.
    Rev(String),
    /// From a tag.
    Tag(String),
}

/// The source of an external plugin.
#[derive(Debug, PartialEq, Eq)]
pub enum Source {
    /// A clonable Git repository.
    Git { url: Url, reference: Option<GitReference> },
    /// A remote file.
    Remote { url: Url },
    /// A local directory.
    Local { dir: PathBuf },
}

/// An external configured plugin.
#[derive(Debug, PartialEq, Eq)]
pub struct ExternalPlugin {
    /// The name of this plugin.
    pub name: String,
    /// Specifies how to retrieve this plugin.
    pub source: Source,
    /// Which directory to use in this plugin.
    pub dir: Option<String>,
    /// What files to use in the plugin's directory.
    pub uses: Option<Vec<String>>,
    /// What templates to apply to each matched file.
    pub apply: Option<Vec<String>>,
    /// Only use this plugin under one of the given profiles.
    pub profiles: Option<Vec<String>>,
    /// Hooks executed during template evaluation, by name.
    pub hooks: Option<Vec<(String, String)>>,
}

/// An inline configured plugin.
#[derive(Debug, PartialEq, Eq)]
pub struct InlinePlugin {
    /// The name of this plugin.
    pub name: String,
    /// The actual source.
    pub raw: String,
    /// Only use this plugin under one of the given profiles.
    pub profiles: Option<Vec<String>>,
    /// Hooks executed during template evaluation, by name.
    pub hooks: Option<Vec<(String, String)>>,
}

/// A configured plugin.
#[derive(Debug, PartialEq, Eq)]
pub enum Plugin {
    External(ExternalPlugin),
    Inline(InlinePlugin),
}

/// The user configuration.
#[derive(Debug)]
pub struct Config {
    /// What type of shell is being used.
    pub shell: Shell,
    /// Which files to match and use in a plugin's directory.
    pub matches: Option<Vec<String>>,
    /// The default list of template names to apply to each matched file.
    pub apply: Option<Vec<String>>,
    /// A map of name to template string.
    pub templates: IndexMap<String, String>,
    /// Each configured plugin.
    pub plugins: Vec<Plugin>,
}

/// The text of a shell's name.
pub open spec fn spec_shell_name(s: Shell) -> Seq<char> {
    match s {
        Shell::Bash => seq!['b', 'a', 's', 'h'],
        Shell::Zsh => seq!['z', 's', 'h'],
    }
}

impl Shell {
    /// The name of the shell: `bash` or `zsh`.
    pub fn to_string(&self) -> (s: String)
        ensures
            s@ == spec_shell_name(*self),
    {
        proof {
            reveal_strlit("bash");
            reveal_strlit("zsh");
        }
        match self {
            Shell::Bash => to_owned_string("bash"),
            Shell::Zsh => to_owned_string("zsh"),
        }
    }

    /// The default shell, Zsh.
    pub fn default() -> (s: Shell)
        ensures
            s == Shell::Zsh,
    {
        Shell::Zsh
    }
}

impl GitReference {
    /// A copy of this reference.
    pub fn duplicate(&self) -> (r: GitReference)
        ensures
            r == *self,
    {
        match self {
            GitReference::Branch(s) => GitReference::Branch(s.clone()),
            GitReference::Rev(s) => GitReference::Rev(s.clone()),
            GitReference::Tag(s) => GitReference::Tag(s.clone()),
        }
    }
}

impl Source {
    /// Whether this is a Git source.
    pub fn is_git(&self) -> (b: bool)
        ensures
            b == (*self is Git),
    {
        match self {
            Source::Git { .. } => true,
            _ => false,
        }
    }

    /// Whether this is a remote source.
    pub fn is_remote(&self) -> (b: bool)
        ensures
            b == (*self is Remote),
    {
        match self {
            Source::Remote { .. } => true,
            _ => false,
        }
    }
}

} // verus!
