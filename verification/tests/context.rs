use sheldon::context::{Color, Context, LogLine, Message, Output, Verbosity};
use sheldon::error::{Error, ErrorKind};
use sheldon::lock::LockMode;
use sheldon::util::path::PathBuf;

fn ctx_with_home(home: &str) -> Context {
    Context {
        version: String::new(),
        home: PathBuf::from(home),
        config_dir: PathBuf::empty(),
        data_dir: PathBuf::empty(),
        config_file: PathBuf::empty(),
        profile: None,
        lock_file: PathBuf::empty(),
        clone_dir: PathBuf::empty(),
        download_dir: PathBuf::empty(),
        output: Output::default(),
        lock_mode: None,
    }
}

#[test]
fn context_expand_tilde() {
    let ctx = ctx_with_home("/test");

    for (p, exp) in [
        ("/", "/"),
        ("/fol/der", "/fol/der"),
        ("~/", "/test"),
        ("~/fol/der", "/test/fol/der"),
    ] {
        assert_eq!(ctx.expand_tilde(PathBuf::from(p)), PathBuf::from(exp));
    }
}

#[test]
fn context_replace_home() {
    let ctx = ctx_with_home("/test");

    for (p, exp) in [
        ("/not/home", "/not/home"),
        ("/test/home", "~/home"),
        ("/test/fol/der", "~/fol/der"),
    ] {
        assert_eq!(ctx.replace_home(&PathBuf::from(p)), PathBuf::from(exp));
    }
}

#[test]
fn context_lock_mode_defaults_to_normal() {
    let mut ctx = ctx_with_home("/test");
    assert_eq!(ctx.lock_mode(), LockMode::Normal);
    ctx.lock_mode = Some(LockMode::Update);
    assert_eq!(ctx.lock_mode(), LockMode::Update);
}

#[test]
fn context_profile_and_verbosity() {
    let mut ctx = ctx_with_home("/test");
    assert_eq!(ctx.profile(), None);
    ctx.profile = Some("work".to_string());
    assert_eq!(ctx.profile(), Some("work"));
    assert_eq!(ctx.verbosity(), Verbosity::Normal);
    assert!(Verbosity::Verbose.at_least(Verbosity::Normal));
    assert!(!Verbosity::Quiet.at_least(Verbosity::Normal));
}

#[test]
fn context_log_error_lines() {
    let mut ctx = ctx_with_home("/test");
    let err = Error::custom("inner".to_string()).context("outer".to_string());
    ctx.output.no_color = true;
    assert_eq!(
        ctx.log_error(&err),
        LogLine::Plain("\nERROR: outer\n  due to: inner".to_string())
    );
    assert_eq!(
        ctx.log_error_as_warning(&err),
        LogLine::Plain("\nWARNING: outer\n  due to: inner".to_string())
    );
    ctx.output.no_color = false;
    assert_eq!(
        ctx.log_error(&err),
        LogLine::Painted {
            leading: "\n".to_string(),
            label: "error:".to_string(),
            color: Color::Red,
            rest: "outer\n  due to: inner".to_string(),
        }
    );
}

#[test]
fn context_log_status_pads_prefix() {
    let mut ctx = ctx_with_home("/test");
    ctx.output.no_color = true;
    let line = ctx.log_status(Color::Cyan, "Checked", &Message::Borrowed("x".to_string()));
    assert_eq!(line, LogLine::Plain("   [CHECKED] x".to_string()));
    let header = ctx.log_header("Loaded", &Message::Owned("~/plugins.toml".to_string()));
    assert_eq!(header, LogLine::Plain("[LOADED] ~/plugins.toml".to_string()));
    ctx.output.no_color = false;
    let line = ctx.log_status(Color::Cyan, "Checked", &Message::Borrowed("x".to_string()));
    assert_eq!(
        line,
        LogLine::Painted {
            leading: String::new(),
            label: "   Checked".to_string(),
            color: Color::Cyan,
            rest: "x".to_string(),
        }
    );
}

#[test]
fn context_keeps_the_error_kind() {
    let err = Error::from_kind(ErrorKind::Git("boom".to_string())).context("outer".to_string());
    assert!(matches!(err.kind, ErrorKind::Git(ref m) if m == "boom"));
    assert_eq!(err.to_string(), "outer\nboom");
}
