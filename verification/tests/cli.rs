use sheldon::cli::{
    key_value_parser, Add, ColorChoice, Command, Environment, Opt, RawCommand, RawOpt,
};
use sheldon::config::GitReference;
use sheldon::context::Verbosity;
use sheldon::lock::LockMode;
use sheldon::util::path::PathBuf;

fn raw_opt(command: RawCommand) -> RawOpt {
    RawOpt {
        quiet: false,
        non_interactive: false,
        verbose: false,
        color: ColorChoice::Never,
        home: None,
        config_dir: None,
        data_dir: None,
        config_file: None,
        lock_file: None,
        clone_dir: None,
        download_dir: None,
        profile: None,
        command,
    }
}

fn env(home: Option<&str>) -> Environment {
    Environment {
        version: "1.2.3".to_string(),
        home: home.map(PathBuf::from),
        xdg_config_home: None,
        xdg_data_home: None,
        xdg_cache_home: false,
        xdg_data_dirs: false,
        xdg_config_dirs: false,
    }
}

#[test]
fn color_choice_round_trip() {
    for c in [ColorChoice::Always, ColorChoice::Auto, ColorChoice::Never] {
        assert_eq!(ColorChoice::from_str(&c.to_string()).unwrap(), c);
    }
    assert_eq!(ColorChoice::default(), ColorChoice::Auto);
    assert_eq!(
        ColorChoice::from_str("sometimes").unwrap_err().to_string(),
        "expected `always` or `never`, got `sometimes`"
    );
    assert!(ColorChoice::Never.is_no_color());
    assert!(!ColorChoice::Always.is_no_color());
    assert!(ColorChoice::Auto.no_color_given(false));
    assert!(!ColorChoice::Auto.no_color_given(true));
}

#[test]
fn lock_mode_from_flags() {
    assert_eq!(LockMode::from_lock_flags(false, false), Some(LockMode::Normal));
    assert_eq!(LockMode::from_lock_flags(true, false), Some(LockMode::Update));
    assert_eq!(LockMode::from_lock_flags(false, true), Some(LockMode::Reinstall));
    assert_eq!(LockMode::from_source_flags(false, false, false), None);
    assert_eq!(LockMode::from_source_flags(true, false, false), Some(LockMode::Normal));
    assert_eq!(LockMode::from_source_flags(false, true, false), Some(LockMode::Update));
    assert_eq!(LockMode::from_source_flags(true, false, true), Some(LockMode::Reinstall));
}

#[test]
fn key_value_parser_splits_at_first_equals() {
    assert_eq!(
        key_value_parser("pre=echo a=b").unwrap(),
        ("pre".to_string(), "echo a=b".to_string())
    );
    assert_eq!(
        key_value_parser("nope").unwrap_err(),
        "nope isn't a valid key-value pair separated with ="
    );
}

#[test]
fn opt_defaults_to_dot_sheldon() {
    let opt = Opt::from_raw_opt(
        raw_opt(RawCommand::Lock {
            update: false,
            reinstall: true,
        }),
        env(Some("/home/u")),
    )
    .unwrap();
    assert_eq!(opt.ctx.version, "1.2.3");
    assert_eq!(opt.ctx.config_dir.to_string(), "/home/u/.sheldon");
    assert_eq!(opt.ctx.data_dir.to_string(), "/home/u/.sheldon");
    assert_eq!(opt.ctx.config_file.to_string(), "/home/u/.sheldon/plugins.toml");
    assert_eq!(opt.ctx.lock_file.to_string(), "/home/u/.sheldon/plugins.lock");
    assert_eq!(opt.ctx.clone_dir.to_string(), "/home/u/.sheldon/repos");
    assert_eq!(opt.ctx.download_dir.to_string(), "/home/u/.sheldon/downloads");
    assert_eq!(opt.ctx.lock_mode, Some(LockMode::Reinstall));
    assert!(opt.ctx.output.no_color);
    assert!(matches!(opt.command, Command::Lock));
}

#[test]
fn opt_uses_xdg_layout_when_asked() {
    let mut e = env(Some("/home/u"));
    e.xdg_config_home = Some(PathBuf::from("/xdg/config"));
    e.xdg_cache_home = true;
    let mut raw = raw_opt(RawCommand::Source {
        relock: false,
        update: false,
        reinstall: false,
    });
    raw.quiet = true;
    raw.lock_file = Some(PathBuf::from("/test/plugins.lock"));
    let opt = Opt::from_raw_opt(raw, e).unwrap();
    assert_eq!(opt.ctx.config_dir.to_string(), "/xdg/config/sheldon");
    assert_eq!(opt.ctx.data_dir.to_string(), "/home/u/.local/share/sheldon");
    assert_eq!(opt.ctx.lock_file.to_string(), "/test/plugins.lock");
    assert_eq!(opt.ctx.output.verbosity, Verbosity::Quiet);
    assert_eq!(opt.ctx.lock_mode, None);
}

#[test]
fn opt_without_home_fails() {
    let err = Opt::from_raw_opt(raw_opt(RawCommand::Edit), env(None)).unwrap_err();
    assert_eq!(
        err.to_string(),
        "failed to determine the current user's home directory, try using the `--home` option"
    );
}

#[test]
fn opt_add_builds_plugin() {
    let add = Add {
        name: "test".to_string(),
        git: None,
        gist: None,
        github: None,
        remote: None,
        local: Some(PathBuf::from("/p")),
        proto: None,
        branch: None,
        rev: None,
        tag: Some("v1".to_string()),
        dir: None,
        uses: None,
        apply: None,
        profiles: None,
        hooks: None,
    };
    let opt = Opt::from_raw_opt(raw_opt(RawCommand::Add(Box::new(add))), env(Some("/h"))).unwrap();
    match opt.command {
        Command::Add { name, plugin } => {
            assert_eq!(name, "test");
            assert_eq!(plugin.inner.reference, Some(GitReference::Tag("v1".to_string())));
            assert_eq!(plugin.inner.local, Some(PathBuf::from("/p")));
            assert!(plugin.inner.inline.is_none());
        }
        _ => panic!("expected add"),
    }
}
