//! The command line interface: the parsed options, and how they resolve
//! into the context and command to run.
//!
//! Parsing the arguments and reading the environment are done by the
//! caller, which hands the results over as [`RawOpt`] and [`Environment`].

use vstd::prelude::*;

use crate::config::edit::EditPlugin;
use crate::config::file::{GistRepository, GitHubRepository, GitProtocol, RawPlugin};
use crate::config::{GitReference, Shell};
use crate::context::{Context, Output, Verbosity};
use crate::error::Error;
use crate::lock::LockMode;
use crate::text::{concat2, concat3, str_eq, to_owned_string};
use crate::url::Url;
use crate::util::path::{spec_join, spec_parse_path, PathBuf, PathView};

verus! {

/// Whether messages should use color output.
#[derive(Debug, Clone, Copy, PartialEq, Eq, Structural)]
pub enum ColorChoice {
    /// Force color output.
    Always,
    /// Intelligently guess whether to use color output.
    Auto,
    /// Force disable color output.
    Never,
}

/// Produced when we fail to parse a color choice; holds the rejected text.
#[derive(Debug)]
pub struct ParseColorChoiceError(pub String);

/// The name of a color choice.
pub open spec fn spec_color_name(c: ColorChoice) -> Seq<char> {
    match c {
        ColorChoice::Always => seq!['a', 'l', 'w', 'a', 'y', 's'],
        ColorChoice::Auto => seq!['a', 'u', 't', 'o'],
        ColorChoice::Never => seq!['n', 'e', 'v', 'e', 'r'],
    }
}

/// Whether standard error is a terminal.
///
/// Calls `atty::is(atty::Stream::Stderr)`; the answer depends on how the
/// process was started, so nothing is stated of it.
#[verifier::external_body]
fn stderr_is_terminal() -> bool {
    atty::is(atty::Stream::Stderr)
}

impl ColorChoice {
    /// The default color choice, `Auto`.
    pub fn default() -> (c: ColorChoice)
        ensures
            c == ColorChoice::Auto,
    {
        ColorChoice::Auto
    }

    /// The name of the color choice: `always`, `auto` or `never`.
    pub fn to_string(&self) -> (s: String)
        ensures
            s@ == spec_color_name(*self),
    {
        proof {
            reveal_strlit("always");
            reveal_strlit("auto");
            reveal_strlit("never");
        }
        match self {
            ColorChoice::Always => to_owned_string("always"),
            ColorChoice::Auto => to_owned_string("auto"),
            ColorChoice::Never => to_owned_string("never"),
        }
    }

    /// Reads a color choice: exactly `always`, `auto` or `never`.
    pub fn from_str(s: &str) -> (r: Result<ColorChoice, ParseColorChoiceError>)
        ensures
            match r {
                Ok(c) => s@ == spec_color_name(c),
                Err(e) => e.0@ == s@ && s@ != spec_color_name(ColorChoice::Always) && s@
                    != spec_color_name(ColorChoice::Auto) && s@ != spec_color_name(
                    ColorChoice::Never,
                ),
            },
    {
        proof {
            reveal_strlit("always");
            reveal_strlit("auto");
            reveal_strlit("never");
            assert("always"@ =~= spec_color_name(ColorChoice::Always));
            assert("auto"@ =~= spec_color_name(ColorChoice::Auto));
            assert("never"@ =~= spec_color_name(ColorChoice::Never));
        }
        if str_eq(s, "always") {
            Ok(ColorChoice::Always)
        } else if str_eq(s, "auto") {
            Ok(ColorChoice::Auto)
        } else if str_eq(s, "never") {
            Ok(ColorChoice::Never)
        } else {
            Err(ParseColorChoiceError(to_owned_string(s)))
        }
    }

    /// Whether to not use color, given whether standard error is a
    /// terminal: never for `Always`, always for `Never`, and for `Auto`
    /// when standard error is not a terminal.
    pub fn no_color_given(self, stderr_is_tty: bool) -> (b: bool)
        ensures
            b == match self {
                ColorChoice::Always => false,
                ColorChoice::Auto => !stderr_is_tty,
                ColorChoice::Never => true,
            },
    {
        match self {
            ColorChoice::Always => false,
            ColorChoice::Auto => !stderr_is_tty,
            ColorChoice::Never => true,
        }
    }

    /// Whether to not use color: never for `Always`, always for `Never`,
    /// and for `Auto` when standard error is not a terminal.
    pub fn is_no_color(self) -> (b: bool)
        ensures
            self == ColorChoice::Always ==> !b,
            self == ColorChoice::Never ==> b,
    {
        match self {
            ColorChoice::Auto => self.no_color_given(stderr_is_terminal()),
            _ => self.no_color_given(false),
        }
    }
}

impl ParseColorChoiceError {
    /// The message of this error.
    pub fn to_string(&self) -> (s: String)
        ensures
            s@ == "expected `always` or `never`, got `"@ + self.0@ + "`"@,
    {
        concat3("expected `always` or `never`, got `", self.0.as_str(), "`")
    }
}

impl LockMode {
    /// The lock mode that the `lock` command asks for: `Update` with
    /// `--update`, `Reinstall` with `--reinstall`, otherwise `Normal`.
    pub fn from_lock_flags(update: bool, reinstall: bool) -> (m: Option<LockMode>)
        requires
            !(update && reinstall),
        ensures
            m == Some(
                if update {
                    LockMode::Update
                } else if reinstall {
                    LockMode::Reinstall
                } else {
                    LockMode::Normal
                },
            ),
    {
        if update {
            Some(LockMode::Update)
        } else if reinstall {
            Some(LockMode::Reinstall)
        } else {
            Some(LockMode::Normal)
        }
    }

    /// The lock mode that the `source` command asks for: `Update` with
    /// `--update`, `Reinstall` with `--reinstall`, `Normal` with `--relock`
    /// alone, and none otherwise.
    pub fn from_source_flags(relock: bool, update: bool, reinstall: bool) -> (m: Option<LockMode>)
        requires
            !(update && reinstall),
        ensures
            m == if update {
                Some(LockMode::Update)
            } else if reinstall {
                Some(LockMode::Reinstall)
            } else if relock {
                Some(LockMode::Normal)
            } else {
                None
            },
    {
        if update {
            Some(LockMode::Update)
        } else if reinstall {
            Some(LockMode::Reinstall)
        } else if relock {
            Some(LockMode::Normal)
        } else {
            None
        }
    }
}

/// Reads a hook given as `key=value`, split at the first `=`.
pub fn key_value_parser(s: &str) -> (r: Result<(String, String), String>)
    ensures
        match r {
            Ok((k, v)) => {
                let i = crate::config::file::index_of(s@, '=');
                i >= 0 && k@ == s@.take(i) && v@ == s@.skip(i + 1)
            },
            Err(m) => crate::config::file::index_of(s@, '=') < 0 && m@ == s@
                + " isn't a valid key-value pair separated with ="@,
        },
{
    let chars = crate::text::str_chars(s);
    match crate::config::file::find_char(&chars, '=') {
        Some(i) => {
            let k = crate::text::string_from_chars(chars.split_at(i).0);
            let v = crate::text::string_from_chars(chars.split_at(i + 1).1);
            Ok((k, v))
        },
        None => Err(concat2(s, " isn't a valid key-value pair separated with =")),
    }
}

} // verus!

verus! {

/// The options of the `add` command.
#[derive(Debug)]
pub struct Add {
    /// A unique name for this plugin.
    pub name: String,
    /// A clonable Git repository.
    pub git: Option<Url>,
    /// A clonable Gist snippet.
    pub gist: Option<GistRepository>,
    /// A clonable GitHub repository.
    pub github: Option<GitHubRepository>,
    /// A downloadable file.
    pub remote: Option<Url>,
    /// A local directory.
    pub local: Option<PathBuf>,
    /// The Git protocol for a Gist or GitHub plugin.
    pub proto: Option<GitProtocol>,
    /// The tip of a branch to check out.
    pub branch: Option<String>,
    /// A specific commit to check out.
    pub rev: Option<String>,
    /// A specific tag to check out.
    pub tag: Option<String>,
    /// Which sub directory to use in this plugin.
    pub dir: Option<String>,
    /// Which files to use in this plugin.
    pub uses: Option<Vec<String>>,
    /// Templates to apply to this plugin.
    pub apply: Option<Vec<String>>,
    /// Only use this plugin under one of the given profiles.
    pub profiles: Option<Vec<String>>,
    /// Hooks executed during template evaluation.
    pub hooks: Option<Vec<(String, String)>>,
}

/// The subcommand, as parsed.
#[derive(Debug)]
#[allow(inconsistent_fields)]
pub enum RawCommand {
    /// Initialize a new config file.
    Init { shell: Option<Shell> },
    /// Add a new plugin to the config file.
    Add(Box<Add>),
    /// Open up the config file in the default editor.
    Edit,
    /// Remove a plugin from the config file.
    Remove { name: String },
    /// Install the plugins sources and generate the lock file.
    Lock { update: bool, reinstall: bool },
    /// Generate and print out the script.
    Source { relock: bool, update: bool, reinstall: bool },
    /// Generate completions for the given shell.
    Completions { shell: Shell },
    /// Print detailed version information.
    Version,
}

/// The command line options, as parsed.
#[derive(Debug)]
pub struct RawOpt {
    /// Suppress any informational output.
    pub quiet: bool,
    /// Suppress any interactive prompts and assume "yes" as the answer.
    pub non_interactive: bool,
    /// Use verbose output.
    pub verbose: bool,
    /// Output coloring.
    pub color: ColorChoice,
    /// The home directory.
    pub home: Option<PathBuf>,
    /// The configuration directory.
    pub config_dir: Option<PathBuf>,
    /// The data directory.
    pub data_dir: Option<PathBuf>,
    /// The config file.
    pub config_file: Option<PathBuf>,
    /// The lock file.
    pub lock_file: Option<PathBuf>,
    /// The directory where Git sources are cloned to.
    pub clone_dir: Option<PathBuf>,
    /// The directory where remote sources are downloaded to.
    pub download_dir: Option<PathBuf>,
    /// The profile used for conditional plugins.
    pub profile: Option<String>,
    /// The subcommand to run.
    pub command: RawCommand,
}

/// What the program reads of its environment.
#[derive(Debug)]
pub struct Environment {
    /// The version of the program.
    pub version: String,
    /// The home directory of the current user, if it can be found.
    pub home: Option<PathBuf>,
    /// `XDG_CONFIG_HOME`, if set.
    pub xdg_config_home: Option<PathBuf>,
    /// `XDG_DATA_HOME`, if set.
    pub xdg_data_home: Option<PathBuf>,
    /// Whether `XDG_CACHE_HOME` is set.
    pub xdg_cache_home: bool,
    /// Whether `XDG_DATA_DIRS` is set.
    pub xdg_data_dirs: bool,
    /// Whether `XDG_CONFIG_DIRS` is set.
    pub xdg_config_dirs: bool,
}

/// The resolved command.
#[derive(Debug)]
pub enum Command {
    /// Initialize a new config file.
    Init { shell: Option<Shell> },
    /// Add a new plugin to the config file.
    Add { name: String, plugin: Box<EditPlugin> },
    /// Open up the config file in the default editor.
    Edit,
    /// Remove a plugin from the config file.
    Remove { name: String },
    /// Install the plugins sources and generate the lock file.
    Lock,
    /// Generate and print out the script.
    Source,
}

/// Resolved command line options with defaults set.
#[derive(Debug)]
pub struct Opt {
    /// Global context for use across the entire program.
    pub ctx: Context,
    /// Whether to assume "yes" as the answer to any prompt.
    pub non_interactive: bool,
    /// The subcommand.
    pub command: Command,
}

/// The reference that at most one of `--branch`, `--rev` and `--tag` asks
/// for.
pub open spec fn spec_reference(
    branch: Option<String>,
    rev: Option<String>,
    tag: Option<String>,
) -> Option<GitReference> {
    match (branch, rev, tag) {
        (Some(s), _, _) => Some(GitReference::Branch(s)),
        (None, Some(s), _) => Some(GitReference::Rev(s)),
        (None, None, Some(s)) => Some(GitReference::Tag(s)),
        (None, None, None) => None,
    }
}

impl EditPlugin {
    /// The name and the plugin that the `add` command describes.
    pub fn from_add(add: Add) -> (r: (String, EditPlugin))
        requires
            (add.branch is Some) as int + (add.rev is Some) as int + (add.tag is Some) as int <= 1,
        ensures
            r.0 == add.name,
            r.1.inner == (RawPlugin {
                git: add.git,
                gist: add.gist,
                github: add.github,
                remote: add.remote,
                local: add.local,
                inline: None,
                proto: add.proto,
                reference: spec_reference(add.branch, add.rev, add.tag),
                dir: add.dir,
                uses: add.uses,
                apply: add.apply,
                profiles: add.profiles,
                hooks: add.hooks,
                rest: r.1.inner.rest,
            }),
            r.1.inner.rest@.len() == 0,
            add.branch matches Some(s) ==> r.1.inner.reference == Some(GitReference::Branch(s)),
            add.rev matches Some(s) ==> r.1.inner.reference == Some(GitReference::Rev(s)),
            add.tag matches Some(s) ==> r.1.inner.reference == Some(GitReference::Tag(s)),
            add.branch is None && add.rev is None && add.tag is None ==> r.1.inner.reference
                is None,
    {
        let Add {
            name,
            git,
            gist,
            github,
            remote,
            local,
            proto,
            branch,
            rev,
            tag,
            dir,
            uses,
            apply,
            profiles,
            hooks,
        } = add;
        let reference = match (branch, rev, tag) {
            (Some(s), _, _) => Some(GitReference::Branch(s)),
            (None, Some(s), _) => Some(GitReference::Rev(s)),
            (None, None, Some(s)) => Some(GitReference::Tag(s)),
            (None, None, None) => None,
        };
        (
            name,
            EditPlugin::from(
                RawPlugin {
                    git,
                    gist,
                    github,
                    remote,
                    local,
                    inline: None,
                    proto,
                    reference,
                    dir,
                    uses,
                    apply,
                    profiles,
                    hooks,
                    rest: Vec::new(),
                },
            ),
        )
    }
}

/// A path given on the command line, or else the default.
pub open spec fn path_or(o: Option<PathBuf>, default: PathView) -> PathView {
    match o {
        Some(p) => p@,
        None => default,
    }
}

/// Whether the user asked for the XDG directory layout: any of
/// `XDG_DATA_HOME`, `XDG_CONFIG_HOME`, `XDG_CACHE_HOME`, `XDG_DATA_DIRS`
/// and `XDG_CONFIG_DIRS` is set.
pub open spec fn using_xdg(env: Environment) -> bool {
    env.xdg_data_home is Some || env.xdg_config_home is Some || env.xdg_cache_home
        || env.xdg_data_dirs || env.xdg_config_dirs
}

/// The default configuration directory: `$XDG_CONFIG_HOME/sheldon` (or
/// `~/.config/sheldon`) in the XDG layout, otherwise `~/.sheldon`.
pub open spec fn default_config_dir(env: Environment, home: PathView) -> PathView {
    if using_xdg(env) {
        spec_join(
            path_or(env.xdg_config_home, spec_join(home, spec_parse_path(".config"@))),
            spec_parse_path("sheldon"@),
        )
    } else {
        spec_join(home, spec_parse_path(".sheldon"@))
    }
}

/// The default data directory: `$XDG_DATA_HOME/sheldon` (or
/// `~/.local/share/sheldon`) in the XDG layout, otherwise `~/.sheldon`.
pub open spec fn default_data_dir(env: Environment, home: PathView) -> PathView {
    if using_xdg(env) {
        spec_join(
            path_or(env.xdg_data_home, spec_join(home, spec_parse_path(".local/share"@))),
            spec_parse_path("sheldon"@),
        )
    } else {
        spec_join(home, spec_parse_path(".sheldon"@))
    }
}

/// The verbosity asked for: quiet wins over verbose.
pub open spec fn spec_verbosity(quiet: bool, verbose: bool) -> Verbosity {
    if quiet {
        Verbosity::Quiet
    } else if verbose {
        Verbosity::Verbose
    } else {
        Verbosity::Normal
    }
}

/// The given path, or else `base` joined with `child`.
fn path_or_join(o: Option<PathBuf>, base: &PathBuf, child: &str) -> (p: PathBuf)
    ensures
        p@ == path_or(o, spec_join(base@, spec_parse_path(child@))),
{
    match o {
        Some(p) => p,
        None => base.join_str(child),
    }
}

impl Opt {
    /// Resolves the parsed options into the context and command to run,
    /// with the defaults that the environment gives.
    ///
    /// The home directory is the one given, or else the user's; the error
    /// when there is neither asks for `--home`. The directories default to
    /// the XDG layout when the user asked for it, otherwise to `~/.sheldon`;
    /// the config file is `plugins.toml` in the configuration directory, and
    /// the lock file, clone and download directories are `plugins.lock`,
    /// `repos` and `downloads` in the data directory.
    pub fn from_raw_opt(raw_opt: RawOpt, env: Environment) -> (r: Result<Opt, Error>)
        requires
            !(raw_opt.command is Completions),
            !(raw_opt.command is Version),
            raw_opt.command matches RawCommand::Lock { update, reinstall } ==> !(update
                && reinstall),
            raw_opt.command matches RawCommand::Source { update, reinstall, .. } ==> !(update
                && reinstall),
            raw_opt.command matches RawCommand::Add(a) ==> (a.branch is Some) as int + (
            a.rev is Some) as int + (a.tag is Some) as int <= 1,
        ensures
            raw_opt.home is None && env.home is None ==> (r matches Err(e) && e@ == (
                None::<Seq<char>>,
                seq![
                    "failed to determine the current user's home directory, try using the `--home` option"@,
                ],
            )),
            raw_opt.home is Some || env.home is Some ==> (r matches Ok(opt) && {
                let home = path_or(raw_opt.home, env.home.unwrap()@);
                let config_dir = path_or(raw_opt.config_dir, default_config_dir(env, home));
                let data_dir = path_or(raw_opt.data_dir, default_data_dir(env, home));
                &&& opt.ctx.version == env.version
                &&& opt.ctx.home@ == home
                &&& opt.ctx.config_dir@ == config_dir
                &&& opt.ctx.data_dir@ == data_dir
                &&& opt.ctx.config_file@ == path_or(
                    raw_opt.config_file,
                    spec_join(config_dir, spec_parse_path("plugins.toml"@)),
                )
                &&& opt.ctx.lock_file@ == path_or(
                    raw_opt.lock_file,
                    spec_join(data_dir, spec_parse_path("plugins.lock"@)),
                )
                &&& opt.ctx.clone_dir@ == path_or(
                    raw_opt.clone_dir,
                    spec_join(data_dir, spec_parse_path("repos"@)),
                )
                &&& opt.ctx.download_dir@ == path_or(
                    raw_opt.download_dir,
                    spec_join(data_dir, spec_parse_path("downloads"@)),
                )
                &&& opt.ctx.profile == raw_opt.profile
                &&& opt.ctx.output.verbosity == spec_verbosity(raw_opt.quiet, raw_opt.verbose)
                &&& raw_opt.color == ColorChoice::Always ==> !opt.ctx.output.no_color
                &&& raw_opt.color == ColorChoice::Never ==> opt.ctx.output.no_color
                &&& opt.non_interactive == raw_opt.non_interactive
                &&& match raw_opt.command {
                    RawCommand::Init { shell } => opt.command == Command::Init { shell }
                        && opt.ctx.lock_mode is None,
                    RawCommand::Add(a) => opt.command matches Command::Add { name, plugin }
                        && name == a.name && plugin.inner == (RawPlugin {
                        git: a.git,
                        gist: a.gist,
                        github: a.github,
                        remote: a.remote,
                        local: a.local,
                        inline: None,
                        proto: a.proto,
                        reference: spec_reference(a.branch, a.rev, a.tag),
                        dir: a.dir,
                        uses: a.uses,
                        apply: a.apply,
                        profiles: a.profiles,
                        hooks: a.hooks,
                        rest: plugin.inner.rest,
                    }) && plugin.inner.rest@.len() == 0 && opt.ctx.lock_mode is None,
                    RawCommand::Edit => opt.command is Edit && opt.ctx.lock_mode is None,
                    RawCommand::Remove { name } => opt.command == Command::Remove { name }
                        && opt.ctx.lock_mode is None,
                    RawCommand::Lock { update, reinstall } => opt.command is Lock
                        && opt.ctx.lock_mode == Some(
                        if update {
                            LockMode::Update
                        } else if reinstall {
                            LockMode::Reinstall
                        } else {
                            LockMode::Normal
                        },
                    ),
                    RawCommand::Source { relock, update, reinstall } => opt.command is Source
                        && opt.ctx.lock_mode == if update {
                        Some(LockMode::Update)
                    } else if reinstall {
                        Some(LockMode::Reinstall)
                    } else if relock {
                        Some(LockMode::Normal)
                    } else {
                        None
                    },
                    _ => false,
                }
            }),
    {
        let RawOpt {
            quiet,
            non_interactive,
            verbose,
            color,
            home,
            config_dir,
            data_dir,
            config_file,
            lock_file,
            clone_dir,
            download_dir,
            profile,
            command,
        } = raw_opt;
        let mut lock_mode: Option<LockMode> = None;
        let command = match command {
            RawCommand::Init { shell } => Command::Init { shell },
            RawCommand::Add(add) => {
                let (name, plugin) = EditPlugin::from_add(*add);
                Command::Add { name, plugin: Box::new(plugin) }
            },
            RawCommand::Edit => Command::Edit,
            RawCommand::Remove { name } => Command::Remove { name },
            RawCommand::Lock { update, reinstall } => {
                lock_mode = LockMode::from_lock_flags(update, reinstall);
                Command::Lock
            },
            RawCommand::Source { relock, update, reinstall } => {
                lock_mode = LockMode::from_source_flags(relock, update, reinstall);
                Command::Source
            },
            RawCommand::Completions { .. } | RawCommand::Version => {
                // Both are answered before the options are resolved.
                proof {
                    assert(false);
                }
                Command::Edit
            },
        };
        let verbosity = if quiet {
            Verbosity::Quiet
        } else if verbose {
            Verbosity::Verbose
        } else {
            Verbosity::Normal
        };
        let output = Output { verbosity, no_color: color.is_no_color() };
        let Environment {
            version,
            home: env_home,
            xdg_config_home,
            xdg_data_home,
            xdg_cache_home,
            xdg_data_dirs,
            xdg_config_dirs,
        } = env;
        let home = match home {
            Some(h) => h,
            None => match env_home {
                Some(h) => h,
                None => {
                    return Err(
                        Error::custom(
                            to_owned_string(
                                "failed to determine the current user's home directory, try using the `--home` option",
                            ),
                        ),
                    );
                },
            },
        };
        let xdg = xdg_data_home.is_some() || xdg_config_home.is_some() || xdg_cache_home
            || xdg_data_dirs || xdg_config_dirs;
        let (config_pre, data_pre) = if xdg {
            let config_base = path_or_join(xdg_config_home, &home, ".config");
            let data_base = path_or_join(xdg_data_home, &home, ".local/share");
            (config_base.join_str("sheldon"), data_base.join_str("sheldon"))
        } else {
            (home.join_str(".sheldon"), home.join_str(".sheldon"))
        };
        let config_dir = match config_dir {
            Some(d) => d,
            None => config_pre,
        };
        let data_dir = match data_dir {
            Some(d) => d,
            None => data_pre,
        };
        let config_file = path_or_join(config_file, &config_dir, "plugins.toml");
        let lock_file = path_or_join(lock_file, &data_dir, "plugins.lock");
        let clone_dir = path_or_join(clone_dir, &data_dir, "repos");
        let download_dir = path_or_join(download_dir, &data_dir, "downloads");
        let ctx = Context {
            version,
            home,
            config_dir,
            data_dir,
            config_file,
            profile,
            lock_file,
            clone_dir,
            download_dir,
            output,
            lock_mode,
        };
        Ok(Opt { ctx, non_interactive, command })
    }
}

} // verus!

verus! {

/// The names of the color choices differ, so reading the name of a color
/// choice gives it back.
pub proof fn lemma_color_names_distinct(a: ColorChoice, b: ColorChoice)
    ensures
        a != b ==> spec_color_name(a) != spec_color_name(b),
{
    assert(spec_color_name(ColorChoice::Always).len() == 6);
    assert(spec_color_name(ColorChoice::Auto).len() == 4);
    assert(spec_color_name(ColorChoice::Never).len() == 5);
}

} // verus!
