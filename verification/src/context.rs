//! Contextual information: the directories in use, the profile, the output
//! style and the lock mode, and how messages are laid out for the terminal.

use vstd::prelude::*;

use crate::error::{prettyify_error, spec_chain, due_to, Error};
use crate::lock::LockMode;
use crate::text::{concat2, concat3, join_seq, to_owned_string, to_uppercase, uppercase};
use crate::util::path::{
    expand_tilde_path, replace_home_path, spec_expand_tilde, spec_path_text, spec_replace_home,
    PathBuf,
};

verus! {

/// The requested verbosity of output.
#[derive(Debug, Clone, Copy, PartialEq, Eq, Structural)]
pub enum Verbosity {
    Quiet,
    Normal,
    Verbose,
}

/// The rank of a verbosity: `Quiet < Normal < Verbose`.
pub open spec fn verbosity_rank(v: Verbosity) -> int {
    match v {
        Verbosity::Quiet => 0,
        Verbosity::Normal => 1,
        Verbosity::Verbose => 2,
    }
}

impl Verbosity {
    /// The default verbosity, `Normal`.
    pub fn default() -> (v: Verbosity)
        ensures
            v == Verbosity::Normal,
    {
        Verbosity::Normal
    }

    /// Whether this verbosity is at least `other`.
    pub fn at_least(&self, other: Verbosity) -> (b: bool)
        ensures
            b == (verbosity_rank(*self) >= verbosity_rank(other)),
    {
        let a: u8 = match self {
            Verbosity::Quiet => 0,
            Verbosity::Normal => 1,
            Verbosity::Verbose => 2,
        };
        let b: u8 = match other {
            Verbosity::Quiet => 0,
            Verbosity::Normal => 1,
            Verbosity::Verbose => 2,
        };
        a >= b
    }
}

/// The output style.
#[derive(Debug, Clone, Copy, PartialEq, Eq, Structural)]
pub struct Output {
    /// The requested verbosity of output.
    pub verbosity: Verbosity,
    /// Whether to not use ANSI color codes.
    pub no_color: bool,
}

impl Output {
    /// The default output: normal verbosity, in color.
    pub fn default() -> (o: Output)
        ensures
            o == (Output { verbosity: Verbosity::Normal, no_color: false }),
    {
        Output { verbosity: Verbosity::Normal, no_color: false }
    }
}

/// Gives access to the output style of a value that holds one.
pub trait OutputExt {
    /// The output style.
    fn output(&self) -> Output;

    /// The requested verbosity of output.
    fn verbosity(&self) -> Verbosity;

    /// Whether to not use ANSI color codes.
    fn no_color(&self) -> bool;
}

impl OutputExt for Output {
    fn output(&self) -> (o: Output)
        ensures
            o == *self,
    {
        *self
    }

    fn verbosity(&self) -> (v: Verbosity)
        ensures
            v == self.verbosity,
    {
        self.verbosity
    }

    fn no_color(&self) -> (b: bool)
        ensures
            b == self.no_color,
    {
        self.no_color
    }
}

/// The colors that messages are painted with.
#[derive(Debug, Clone, Copy, PartialEq, Eq, Structural)]
pub enum Color {
    Red,
    Green,
    Yellow,
    Cyan,
    Magenta,
}

/// A line for the error stream: plain text, or a label painted bold in a
/// color followed by a space and the rest.
#[derive(Debug, PartialEq, Eq)]
pub enum LogLine {
    /// Text written as it is.
    Plain(String),
    /// `{leading}{label painted} {rest}`.
    Painted { leading: String, label: String, color: Color, rest: String },
}

/// Global context for use across the entire program.
#[derive(Debug)]
pub struct Context {
    /// The version of the program that wrote this context.
    pub version: String,
    /// The home directory of the user.
    pub home: PathBuf,
    /// The configuration directory.
    pub config_dir: PathBuf,
    /// The data directory.
    pub data_dir: PathBuf,
    /// The config file.
    pub config_file: PathBuf,
    /// The profile used for conditional plugins.
    pub profile: Option<String>,
    /// The lock file.
    pub lock_file: PathBuf,
    /// The directory that Git sources are cloned to.
    pub clone_dir: PathBuf,
    /// The directory that remote sources are downloaded to.
    pub download_dir: PathBuf,
    /// The output style.
    pub output: Output,
    /// How sources are installed when locking, if requested.
    pub lock_mode: Option<LockMode>,
}

/// The text of a message: a path is shown with the home directory replaced
/// by `~`.
pub open spec fn spec_path_message(p: crate::util::path::PathView, home: crate::util::path::PathView) -> Seq<char> {
    spec_path_text(spec_replace_home(p, home))
}

/// Whether two contexts hold the same values.
pub open spec fn same_context(a: Context, b: Context) -> bool {
    &&& a.version == b.version
    &&& a.home@ == b.home@
    &&& a.config_dir@ == b.config_dir@
    &&& a.data_dir@ == b.data_dir@
    &&& a.config_file@ == b.config_file@
    &&& a.profile == b.profile
    &&& a.lock_file@ == b.lock_file@
    &&& a.clone_dir@ == b.clone_dir@
    &&& a.download_dir@ == b.download_dir@
    &&& a.output == b.output
    &&& a.lock_mode == b.lock_mode
}

impl Context {
    /// A copy of this context.
    pub fn duplicate(&self) -> (c: Context)
        ensures
            c.version == self.version,
            c.home@ == self.home@,
            c.config_dir@ == self.config_dir@,
            c.data_dir@ == self.data_dir@,
            c.config_file@ == self.config_file@,
            c.profile == self.profile,
            c.lock_file@ == self.lock_file@,
            c.clone_dir@ == self.clone_dir@,
            c.download_dir@ == self.download_dir@,
            c.output == self.output,
            c.lock_mode == self.lock_mode,
    {
        Context {
            version: self.version.clone(),
            home: self.home.duplicate(),
            config_dir: self.config_dir.duplicate(),
            data_dir: self.data_dir.duplicate(),
            config_file: self.config_file.duplicate(),
            profile: match &self.profile {
                Some(p) => Some(p.clone()),
                None => None,
            },
            lock_file: self.lock_file.duplicate(),
            clone_dir: self.clone_dir.duplicate(),
            download_dir: self.download_dir.duplicate(),
            output: self.output,
            lock_mode: self.lock_mode,
        }
    }

    /// The location of the home directory.
    pub fn home(&self) -> (p: &PathBuf)
        ensures
            p@ == self.home@,
    {
        &self.home
    }

    /// The location of the configuration directory.
    pub fn config_dir(&self) -> (p: &PathBuf)
        ensures
            p@ == self.config_dir@,
    {
        &self.config_dir
    }

    /// The location of the data directory.
    pub fn data_dir(&self) -> (p: &PathBuf)
        ensures
            p@ == self.data_dir@,
    {
        &self.data_dir
    }

    /// The location of the config file.
    pub fn config_file(&self) -> (p: &PathBuf)
        ensures
            p@ == self.config_file@,
    {
        &self.config_file
    }

    /// The location of the lock file.
    pub fn lock_file(&self) -> (p: &PathBuf)
        ensures
            p@ == self.lock_file@,
    {
        &self.lock_file
    }

    /// The directory to clone Git sources to.
    pub fn clone_dir(&self) -> (p: &PathBuf)
        ensures
            p@ == self.clone_dir@,
    {
        &self.clone_dir
    }

    /// The directory to download remote sources to.
    pub fn download_dir(&self) -> (p: &PathBuf)
        ensures
            p@ == self.download_dir@,
    {
        &self.download_dir
    }

    /// The profile used for conditional plugins.
    pub fn profile(&self) -> (r: Option<&str>)
        ensures
            match (r, self.profile) {
                (Some(a), Some(b)) => a@ == b@,
                (None, None) => true,
                _ => false,
            },
    {
        match &self.profile {
            Some(p) => Some(p.as_str()),
            None => None,
        }
    }

    /// Expands a leading `~` in `path` to the home directory.
    pub fn expand_tilde(&self, path: PathBuf) -> (p: PathBuf)
        ensures
            p@ == spec_expand_tilde(path@, self.home@),
    {
        expand_tilde_path(&path, &self.home)
    }

    /// Replaces the home directory at the start of `path` with `~`.
    pub fn replace_home(&self, path: &PathBuf) -> (p: PathBuf)
        ensures
            p@ == spec_replace_home(path@, self.home@),
    {
        replace_home_path(path, &self.home)
    }

    /// The requested lock mode, `Normal` when none was requested.
    pub fn lock_mode(&self) -> (m: LockMode)
        ensures
            m == (match self.lock_mode {
                Some(m) => m,
                None => LockMode::Normal,
            }),
    {
        match self.lock_mode {
            Some(m) => m,
            None => LockMode::Normal,
        }
    }

    /// The requested verbosity of output.
    pub fn verbosity(&self) -> (v: Verbosity)
        ensures
            v == self.output.verbosity,
    {
        self.output.verbosity
    }

    /// The line that logs `msg` as a header: `[{PREFIX}] {msg}` without
    /// color, otherwise the prefix painted magenta.
    pub fn log_header(&self, prefix: &str, msg: &Message) -> (l: LogLine)
        ensures
            self.output.no_color ==> (l matches LogLine::Plain(s) && s@ == "["@ + uppercase(
                prefix@,
            ) + "] "@ + msg.text()),
            !self.output.no_color ==> (l matches LogLine::Painted { leading, label, color, rest }
                && leading@.len() == 0 && label@ == prefix@ && color == Color::Magenta && rest@
                == msg.text()),
    {
        let text = msg.to_text();
        if self.output.no_color {
            let upper = to_uppercase(prefix);
            let head = concat3("[", upper.as_str(), "] ");
            LogLine::Plain(concat2(head.as_str(), text.as_str()))
        } else {
            proof {
                reveal_strlit("");
            }
            LogLine::Painted {
                leading: to_owned_string(""),
                label: to_owned_string(prefix),
                color: Color::Magenta,
                rest: text,
            }
        }
    }

    /// The line that logs `msg` with a status: `[{PREFIX}]` right-aligned in
    /// twelve columns without color, otherwise the prefix right-aligned in
    /// ten columns and painted.
    pub fn log_status(&self, color: Color, prefix: &str, msg: &Message) -> (l: LogLine)
        ensures
            self.output.no_color ==> (l matches LogLine::Plain(s) && s@ == pad_left(
                "["@ + uppercase(prefix@) + "]"@,
                12,
            ) + " "@ + msg.text()),
            !self.output.no_color ==> (l matches LogLine::Painted { leading, label, color: c, rest }
                && leading@.len() == 0 && label@ == pad_left(prefix@, 10) && c == color && rest@
                == msg.text()),
    {
        let text = msg.to_text();
        if self.output.no_color {
            let upper = to_uppercase(prefix);
            let head = concat3("[", upper.as_str(), "]");
            let padded = pad_left_string(head.as_str(), 12);
            LogLine::Plain(concat3(padded.as_str(), " ", text.as_str()))
        } else {
            proof {
                reveal_strlit("");
            }
            LogLine::Painted {
                leading: to_owned_string(""),
                label: pad_left_string(prefix, 10),
                color,
                rest: text,
            }
        }
    }

    /// The line that logs `err` as an error.
    pub fn log_error(&self, err: &Error) -> (l: LogLine)
        ensures
            self.output.no_color ==> (l matches LogLine::Plain(s) && s@ == "\nERROR: "@
                + pretty_text(*err)),
            !self.output.no_color ==> (l matches LogLine::Painted { leading, label, color, rest }
                && leading@ == "\n"@ && label@ == "error:"@ && color == Color::Red && rest@
                == pretty_text(*err)),
    {
        log_error(self.output.no_color, err)
    }

    /// The line that logs `err` as a warning.
    pub fn log_error_as_warning(&self, err: &Error) -> (l: LogLine)
        ensures
            self.output.no_color ==> (l matches LogLine::Plain(s) && s@ == "\nWARNING: "@
                + pretty_text(*err)),
            !self.output.no_color ==> (l matches LogLine::Painted { leading, label, color, rest }
                && leading@ == "\n"@ && label@ == "warning:"@ && color == Color::Yellow && rest@
                == pretty_text(*err)),
    {
        log_error_as_warning(self.output.no_color, err)
    }
}

/// `s` preceded by spaces to fill `width` characters.
pub open spec fn pad_left(s: Seq<char>, width: nat) -> Seq<char> {
    if s.len() >= width {
        s
    } else {
        Seq::new((width - s.len()) as nat, |i: int| ' ') + s
    }
}

/// `s` preceded by spaces to fill `width` characters.
pub fn pad_left_string(s: &str, width: usize) -> (r: String)
    ensures
        r@ == pad_left(s@, width as nat),
{
    let n = s.unicode_len();
    let mut r = String::new();
    if n < width {
        let mut i: usize = 0;
        while i < width - n
            invariant
                n < width,
                i <= width - n,
                r@ == Seq::new(i as nat, |j: int| ' '),
            decreases width - n - i,
        {
            crate::text::push_char(&mut r, ' ');
            assert(r@ =~= Seq::new((i + 1) as nat, |j: int| ' '));
            i = i + 1;
        }
    }
    let ghost lead = r@;
    r.append(s);
    assert(r@ =~= pad_left(s@, width as nat));
    r
}

/// The pretty text of an error: its chain joined by `\n  due to: `.
pub open spec fn pretty_text(err: Error) -> Seq<char> {
    join_seq(spec_chain(err@), due_to())
}

/// The line that logs `err` as an error: `\nERROR: {pretty}` without color,
/// otherwise `error:` painted red.
pub fn log_error(no_color: bool, err: &Error) -> (l: LogLine)
    ensures
        no_color ==> (l matches LogLine::Plain(s) && s@ == "\nERROR: "@ + pretty_text(*err)),
        !no_color ==> (l matches LogLine::Painted { leading, label, color, rest } && leading@
            == "\n"@ && label@ == "error:"@ && color == Color::Red && rest@ == pretty_text(*err)),
{
    let pretty = prettyify_error(err);
    if no_color {
        LogLine::Plain(concat2("\nERROR: ", pretty.as_str()))
    } else {
        LogLine::Painted {
            leading: to_owned_string("\n"),
            label: to_owned_string("error:"),
            color: Color::Red,
            rest: pretty,
        }
    }
}

/// The line that logs `err` as a warning: `\nWARNING: {pretty}` without
/// color, otherwise `warning:` painted yellow.
pub fn log_error_as_warning(no_color: bool, err: &Error) -> (l: LogLine)
    ensures
        no_color ==> (l matches LogLine::Plain(s) && s@ == "\nWARNING: "@ + pretty_text(*err)),
        !no_color ==> (l matches LogLine::Painted { leading, label, color, rest } && leading@
            == "\n"@ && label@ == "warning:"@ && color == Color::Yellow && rest@ == pretty_text(
            *err,
        )),
{
    let pretty = prettyify_error(err);
    if no_color {
        LogLine::Plain(concat2("\nWARNING: ", pretty.as_str()))
    } else {
        LogLine::Painted {
            leading: to_owned_string("\n"),
            label: to_owned_string("warning:"),
            color: Color::Yellow,
            rest: pretty,
        }
    }
}

/// A message that can be logged: the text to show.
#[derive(Debug, PartialEq, Eq)]
pub enum Message {
    /// Text shown as it is given.
    Borrowed(String),
    /// Text made for the message, such as a path with `~` for the home
    /// directory.
    Owned(String),
}

impl Message {
    /// The text of the message.
    pub open spec fn text(&self) -> Seq<char> {
        match self {
            Message::Borrowed(s) => s@,
            Message::Owned(s) => s@,
        }
    }

    /// The text of the message.
    pub fn to_text(&self) -> (s: String)
        ensures
            s@ == self.text(),
    {
        match self {
            Message::Borrowed(s) => s.clone(),
            Message::Owned(s) => s.clone(),
        }
    }
}

/// Turns a value into a [`Message`].
pub trait IntoMessage {
    /// The message that shows this value.
    fn to_message(&self, ctx: &Context) -> Message;
}

impl IntoMessage for String {
    fn to_message(&self, ctx: &Context) -> (m: Message)
        ensures
            m == Message::Borrowed(*self),
    {
        Message::Borrowed(self.clone())
    }
}

impl IntoMessage for PathBuf {
    fn to_message(&self, ctx: &Context) -> (m: Message)
        ensures
            m matches Message::Owned(s) && s@ == spec_path_message(self@, ctx.home@),
    {
        Message::Owned(ctx.replace_home(self).to_string())
    }
}

} // verus!
