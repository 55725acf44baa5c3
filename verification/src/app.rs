//! The decisions that the commands make between their file system and
//! network work: when to lock again, whether the lock file can be used,
//! what becomes of errors, and what is reported at the end.

use vstd::prelude::*;

use crate::cli::Command;
use crate::context::{log_error, log_error_as_warning, Color, Context, LogLine, Message};
use crate::error::{Error, IoErrorKind, underlying_io_error_kind};
use crate::text::concat3;
use crate::util::path::{spec_path_text, spec_replace_home, PathBuf};

verus! {

/// Whether failing to take the lock on the config directory stops the
/// command: the lock is always tried, but only locking and sourcing need it.
pub fn needs_mutex(command: &Command) -> (b: bool)
    ensures
        b == (*command is Lock || *command is Source),
{
    match command {
        Command::Lock | Command::Source => true,
        _ => false,
    }
}

/// Whether the `source` command locks the configuration again: when asked
/// to, or when the config file is newer than the lock file.
pub fn must_lock(relock: bool, config_newer: bool) -> (b: bool)
    ensures
        b == (relock || config_newer),
{
    relock || config_newer
}

/// Whether the lock file can be used as it is: it was read, and it
/// verifies against the context.
pub fn lock_file_usable(read_ok: bool, verified: bool) -> (b: bool)
    ensures
        b == (read_ok && verified),
{
    read_ok && verified
}

/// Whether the `source` command writes the lock file: when it locked the
/// configuration and locking gave no error.
pub fn writes_lock_file(locked_again: bool, errors_empty: bool) -> (b: bool)
    ensures
        b == (locked_again && errors_empty),
{
    locked_again && errors_empty
}

/// What the `lock` command makes of the errors of locking: none lets it
/// write the lock file; otherwise all but the last are logged and the last
/// is returned.
pub fn split_lock_errors(errors: Vec<Error>) -> (r: Option<(Vec<Error>, Error)>)
    ensures
        errors@.len() == 0 ==> r is None,
        errors@.len() > 0 ==> (r matches Some((rest, last)) && rest@ == errors@.drop_last()
            && last == errors@.last()),
{
    let mut errors = errors;
    let ghost all = errors@;
    match errors.pop() {
        Some(last) => {
            assert(errors@ =~= all.drop_last());
            Some((errors, last))
        },
        None => None,
    }
}

/// Whether a failure to read the config file means it does not exist yet,
/// so that a new one may be initialized.
pub fn is_missing_config(err: &Error) -> (b: bool)
    ensures
        b == (match err.kind {
            crate::error::ErrorKind::Io(k, _) => k == IoErrorKind::NotFound,
            _ => false,
        }),
{
    match underlying_io_error_kind(err) {
        Some(IoErrorKind::NotFound) => true,
        _ => false,
    }
}

/// The question asked before initializing a new config file at `path`.
pub fn init_prompt(ctx: &Context, path: &PathBuf) -> (s: String)
    ensures
        s@ == "Initialize new config file `"@ + spec_path_text(spec_replace_home(path@, ctx.home@))
            + "`?"@,
{
    let shown = ctx.replace_home(path).to_string();
    concat3("Initialize new config file `", shown.as_str(), "`?")
}

/// The lines that end a run: each warning logged as a warning, then the
/// error, if the run failed.
pub fn report(no_color: bool, warnings: &Vec<Error>, result: &Result<(), Error>) -> (lines: Vec<
    LogLine,
>)
    ensures
        lines@.len() == warnings@.len() + (if result is Err {
            1int
        } else {
            0int
        }),
        forall|i: int|
            0 <= i < warnings@.len() ==> (no_color ==> (#[trigger] lines@[i] matches LogLine::Plain(
                s,
            ) && s@ == "\nWARNING: "@ + crate::context::pretty_text(warnings@[i]))),
        result matches Err(e) ==> (no_color ==> (lines@.last() matches LogLine::Plain(s) && s@
            == "\nERROR: "@ + crate::context::pretty_text(*e))),
        result matches Err(e) ==> (!no_color ==> (lines@.last() matches LogLine::Painted {
            label,
            color,
            rest,
            ..
        } && label@ == "error:"@ && color == Color::Red && rest@ == crate::context::pretty_text(
            *e,
        ))),
{
    let mut lines: Vec<LogLine> = Vec::new();
    let mut i: usize = 0;
    while i < warnings.len()
        invariant
            i <= warnings.len(),
            lines@.len() == i,
            forall|j: int|
                0 <= j < i ==> (no_color ==> (#[trigger] lines@[j] matches LogLine::Plain(s) && s@
                    == "\nWARNING: "@ + crate::context::pretty_text(warnings@[j]))),
        decreases warnings.len() - i,
    {
        lines.push(log_error_as_warning(no_color, &warnings[i]));
        i = i + 1;
    }
    if let Err(e) = result {
        lines.push(log_error(no_color, e));
    }
    lines
}

/// The line shown for a header, such as `Loaded` with the config file.
pub fn header_line(ctx: &Context, prefix: &str, path: &PathBuf) -> (l: LogLine)
    ensures
        ctx.output.no_color ==> (l matches LogLine::Plain(s) && s@ == "["@ + crate::text::uppercase(
            prefix@,
        ) + "] "@ + spec_path_text(spec_replace_home(path@, ctx.home@))),
{
    let msg = Message::Owned(ctx.replace_home(path).to_string());
    ctx.log_header(prefix, &msg)
}

} // verus!
