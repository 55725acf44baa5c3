use sheldon::config::{Config, ExternalPlugin, GitReference, InlinePlugin, Plugin, Shell, Source};
use sheldon::context::{Context, Output};
use sheldon::error::Error;
use sheldon::lock::plugin::{lock, resume, PluginLockState};
use sheldon::lock::source::{
    git_first_step, git_next_step, lock_local, plan_lock, remote_is_current, updated_message,
    GitCheckout, GitNext, GitStep, LockedSource, SourcePlan,
};
use sheldon::lock::{LockMode, LockedConfig, LockedExternalPlugin, LockedPlugin};
use sheldon::template_map::{map_insert, map_new};
use sheldon::url::Url;
use sheldon::util::path::PathBuf;

fn test_ctx(root: &str) -> Context {
    let root = PathBuf::from(root);
    Context {
        version: "0.0.0".to_string(),
        home: PathBuf::from("/home"),
        config_dir: root.join_str("config"),
        data_dir: root.duplicate(),
        config_file: root.join_str("config/plugins.toml"),
        profile: None,
        lock_file: root.join_str("plugins.lock"),
        clone_dir: root.join_str("repos"),
        download_dir: root.join_str("downloads"),
        output: Output::default(),
        lock_mode: None,
    }
}

fn url(s: &str) -> Url {
    Url::parse(s).unwrap()
}

fn external(name: &str, source: Source) -> ExternalPlugin {
    ExternalPlugin {
        name: name.to_string(),
        source,
        dir: None,
        uses: None,
        apply: None,
        profiles: None,
        hooks: None,
    }
}

#[test]
fn git_git_checkout_to_string() {
    assert_eq!(
        GitCheckout::Branch("feature".to_string()).to_string(),
        "@feature"
    );
    assert_eq!(
        GitCheckout::Rev("ad149784a".to_string()).to_string(),
        "@ad149784a"
    );
    assert_eq!(GitCheckout::Tag("0.2.3".to_string()).to_string(), "@0.2.3");
}

#[test]
fn lock_git_checkout_to_string() {
    assert_eq!(
        GitCheckout::Branch("feature".to_string()).to_string(),
        "@feature"
    );
    assert_eq!(
        GitCheckout::Rev("ad149784a".to_string()).to_string(),
        "@ad149784a"
    );
    assert_eq!(GitCheckout::Tag("0.2.3".to_string()).to_string(), "@0.2.3");
}

#[test]
fn lock_source_to_string() {
    assert_eq!(
        Source::Git {
            url: url("https://github.com/rossmacarthur/sheldon-test"),
            reference: Some(GitReference::Tag("v0.3.0".to_string())),
        }
        .to_string(),
        "https://github.com/rossmacarthur/sheldon-test@v0.3.0"
    );
    assert_eq!(
        Source::Git {
            url: url("https://github.com/rossmacarthur/sheldon-test"),
            reference: None,
        }
        .to_string(),
        "https://github.com/rossmacarthur/sheldon-test"
    );
    assert_eq!(
        Source::Remote {
            url: url("https://github.com/rossmacarthur/sheldon/raw/0.3.0/LICENSE-MIT"),
        }
        .to_string(),
        "https://github.com/rossmacarthur/sheldon/raw/0.3.0/LICENSE-MIT"
    );
    assert_eq!(
        Source::Local {
            dir: PathBuf::from("~/plugins")
        }
        .to_string(),
        "~/plugins"
    );
}

#[test]
fn mod_source_to_string() {
    assert_eq!(
        Source::Git {
            url: url("https://github.com/rossmacarthur/sheldon-test"),
            reference: Some(GitReference::Tag("v0.3.0".to_string())),
        }
        .to_string(),
        "https://github.com/rossmacarthur/sheldon-test@v0.3.0"
    );
    assert_eq!(
        Source::Git {
            url: url("https://github.com/rossmacarthur/sheldon-test"),
            reference: None,
        }
        .to_string(),
        "https://github.com/rossmacarthur/sheldon-test"
    );
    assert_eq!(
        Source::Remote {
            url: url("https://github.com/rossmacarthur/sheldon/raw/0.3.0/LICENSE-MIT"),
        }
        .to_string(),
        "https://github.com/rossmacarthur/sheldon/raw/0.3.0/LICENSE-MIT"
    );
    assert_eq!(
        Source::Local {
            dir: PathBuf::from("~/plugins")
        }
        .to_string(),
        "~/plugins"
    );
}

#[test]
fn lock_with_git_plans_clone_dir() {
    let ctx = test_ctx("/tmp/x");
    let source = Source::Git {
        url: url("https://github.com/rossmacarthur/sheldon-test"),
        reference: None,
    };
    match plan_lock(&ctx, source).unwrap() {
        SourcePlan::Git { dir, checkout, .. } => {
            assert_eq!(dir.to_string(), "/tmp/x/repos/github.com/rossmacarthur/sheldon-test");
            assert_eq!(checkout, GitCheckout::DefaultBranch);
        }
        other => panic!("unexpected plan {:?}", other),
    }
}

#[test]
fn lock_with_remote_plans_download() {
    let ctx = test_ctx("/tmp/x");
    let source = Source::Remote {
        url: url("https://github.com/rossmacarthur/sheldon/raw/0.3.0/LICENSE-MIT"),
    };
    match plan_lock(&ctx, source).unwrap() {
        SourcePlan::Remote { dir, file, .. } => {
            assert_eq!(
                dir.to_string(),
                "/tmp/x/downloads/github.com/rossmacarthur/sheldon/raw/0.3.0"
            );
            assert_eq!(
                file.to_string(),
                "/tmp/x/downloads/github.com/rossmacarthur/sheldon/raw/0.3.0/LICENSE-MIT"
            );
        }
        other => panic!("unexpected plan {:?}", other),
    }
    let source = Source::Remote {
        url: url("https://example.com/"),
    };
    match plan_lock(&ctx, source).unwrap() {
        SourcePlan::Remote { file, .. } => {
            assert_eq!(file.to_string(), "/tmp/x/downloads/example.com/index");
        }
        other => panic!("unexpected plan {:?}", other),
    }
}

#[test]
fn lock_plan_errors_without_host() {
    let ctx = test_ctx("/tmp/x");
    let source = Source::Remote {
        url: url("mailto:someone@example.com"),
    };
    assert_eq!(
        plan_lock(&ctx, source).unwrap_err().to_string(),
        "URL `mailto:someone@example.com` has no host"
    );
}

#[test]
fn lock_local_picks_single_match() {
    let dir = PathBuf::from("/plugins/*");
    let locked = lock_local(dir.duplicate(), false, Some(vec![PathBuf::from("/plugins/a")])).unwrap();
    assert_eq!(locked.dir, PathBuf::from("/plugins/a"));
    let err = lock_local(
        dir.duplicate(),
        false,
        Some(vec![PathBuf::from("/plugins/a"), PathBuf::from("/plugins/b")]),
    )
    .unwrap_err();
    assert_eq!(err.to_string(), "`/plugins/*` matches 2 directories");
    let err = lock_local(dir.duplicate(), false, None).unwrap_err();
    assert_eq!(err.to_string(), "`/plugins/*` is not a dir");
    let locked = lock_local(dir, true, None).unwrap();
    assert_eq!(locked.dir, PathBuf::from("/plugins/*"));
}

#[test]
fn git_steps_follow_mode() {
    assert_eq!(git_first_step(LockMode::Reinstall), GitStep::Install);
    assert_eq!(git_first_step(LockMode::Normal), GitStep::Open);
    assert_eq!(
        git_next_step(LockMode::Normal, GitStep::Open, true),
        GitNext::Step(GitStep::Checkout)
    );
    assert_eq!(
        git_next_step(LockMode::Update, GitStep::Open, true),
        GitNext::Step(GitStep::Fetch)
    );
    assert_eq!(
        git_next_step(LockMode::Normal, GitStep::Open, false),
        GitNext::Step(GitStep::Install)
    );
    assert_eq!(
        git_next_step(LockMode::Normal, GitStep::Checkout, false),
        GitNext::Step(GitStep::Fetch)
    );
    assert_eq!(
        git_next_step(LockMode::Normal, GitStep::CheckoutAfterFetch, false),
        GitNext::Fail
    );
    assert!(remote_is_current(LockMode::Normal, true));
    assert!(!remote_is_current(LockMode::Update, true));
}

#[test]
fn git_updated_message_cuts_ids() {
    let m = updated_message(
        &url("https://github.com/a/b"),
        &GitCheckout::Tag("v1".to_string()),
        "0123456789abcdef",
        "fedcba9876543210",
    );
    assert_eq!(m, "https://github.com/a/b@v1 (0123456 to fedcba9)");
}

#[test]
fn external_plugin_lock_remote_takes_the_download() {
    let ctx = test_ctx("/tmp/x");
    let plugin = external(
        "test",
        Source::Remote {
            url: url("https://github.com/rossmacarthur/sheldon-test/raw/master/test.plugin.zsh"),
        },
    );
    let locked_source = LockedSource {
        dir: PathBuf::from("/tmp/x/downloads/github.com/rossmacarthur/sheldon-test/raw/master"),
        file: Some(PathBuf::from(
            "/tmp/x/downloads/github.com/rossmacarthur/sheldon-test/raw/master/test.plugin.zsh",
        )),
    };
    match lock(&ctx, locked_source, &vec![], &vec!["hello".to_string()], plugin) {
        PluginLockState::Done(Ok(locked)) => {
            assert_eq!(locked.name, "test");
            assert_eq!(locked.dir().to_string(), "/tmp/x/downloads/github.com/rossmacarthur/sheldon-test/raw/master");
            assert_eq!(locked.files.len(), 1);
            assert_eq!(locked.apply, vec!["hello".to_string()]);
        }
        _ => panic!("expected a locked plugin"),
    }
}

#[test]
fn external_plugin_lock_tries_global_patterns_in_order() {
    let ctx = test_ctx("/tmp/x");
    let plugin = external(
        "test",
        Source::Git {
            url: url("https://github.com/rossmacarthur/sheldon-test"),
            reference: None,
        },
    );
    let source_dir = PathBuf::from("/tmp/x/repos/github.com/rossmacarthur/sheldon-test");
    let locked_source = LockedSource {
        dir: source_dir.duplicate(),
        file: None,
    };
    let matches = vec!["{{ name }}.plugin.zsh".to_string(), "*.zsh".to_string()];
    let state = lock(&ctx, locked_source, &matches, &vec!["PATH".to_string()], plugin);
    let state = match state {
        PluginLockState::Glob { locker, patterns } => {
            assert_eq!(patterns, vec!["test.plugin.zsh".to_string()]);
            assert_eq!(locker.dir, source_dir);
            resume(locker, Ok(vec![]))
        }
        _ => panic!("expected a glob request"),
    };
    let state = match state {
        PluginLockState::Glob { locker, patterns } => {
            assert_eq!(patterns, vec!["*.zsh".to_string()]);
            resume(locker, Ok(vec![source_dir.join_str("a.zsh")]))
        }
        _ => panic!("expected a second glob request"),
    };
    match state {
        PluginLockState::Done(Ok(locked)) => {
            assert_eq!(locked.files, vec![source_dir.join_str("a.zsh")]);
            assert_eq!(locked.apply, vec!["PATH".to_string()]);
        }
        _ => panic!("expected a locked plugin"),
    }
}

#[test]
fn external_plugin_lock_uses_without_files_fails() {
    let ctx = test_ctx("/tmp/x");
    let mut plugin = external(
        "test",
        Source::Local {
            dir: PathBuf::from("/p"),
        },
    );
    plugin.uses = Some(vec!["*.md".to_string(), "{{ name }}.zsh".to_string()]);
    plugin.dir = Some("sub".to_string());
    let locked_source = LockedSource {
        dir: PathBuf::from("/p"),
        file: None,
    };
    match lock(&ctx, locked_source, &vec![], &vec![], plugin) {
        PluginLockState::Glob { locker, patterns } => {
            assert_eq!(patterns, vec!["*.md".to_string(), "test.zsh".to_string()]);
            assert_eq!(locker.dir.to_string(), "/p/sub");
            match resume(locker, Ok(vec![])) {
                PluginLockState::Done(Err(e)) => assert_eq!(
                    e.to_string(),
                    "failed to find any files matching any of `[\"*.md\", \"test.zsh\"]`"
                ),
                _ => panic!("expected an error"),
            }
        }
        _ => panic!("expected a glob request"),
    }
}

#[test]
fn config_lock_groups_sources_and_keeps_order() {
    let ctx = test_ctx("/tmp/x");
    let shared = "https://github.com/rossmacarthur/sheldon-test";
    let config = Config {
        shell: Shell::Zsh,
        matches: None,
        apply: None,
        templates: map_new(),
        plugins: vec![
            Plugin::External(external(
                "a",
                Source::Git {
                    url: url(shared),
                    reference: None,
                },
            )),
            Plugin::Inline(InlinePlugin {
                name: "b".to_string(),
                raw: "echo b".to_string(),
                profiles: None,
                hooks: None,
            }),
            Plugin::External(external(
                "c",
                Source::Git {
                    url: url(shared),
                    reference: None,
                },
            )),
        ],
    };
    let plan = config.lock(&ctx);
    assert_eq!(plan.groups.len(), 1);
    assert_eq!(plan.groups[0].1.len(), 2);
    assert_eq!(plan.inlines.len(), 1);
    assert_eq!(plan.apply, vec!["source".to_string()]);
    assert_eq!(plan.matches.len(), 8);

    let locked_c = LockedExternalPlugin {
        name: "c".to_string(),
        source_dir: PathBuf::from("/tmp/x/repos/x"),
        plugin_dir: None,
        files: vec![],
        apply: vec![],
        hooks: vec![],
    };
    let outcomes = vec![
        Ok(vec![
            (2usize, Ok(locked_c)),
            (0usize, Err(Error::custom("boom".to_string()))),
        ]),
        Err(Error::custom("source failed".to_string())),
    ];
    let locked = LockedConfig::assemble(&ctx, plan.templates, plan.inlines, outcomes);
    let names: Vec<String> = locked
        .plugins
        .iter()
        .map(|p| match p {
            LockedPlugin::External(e) => e.name.clone(),
            LockedPlugin::Inline(i) => i.name.clone(),
        })
        .collect();
    assert_eq!(names, vec!["b".to_string(), "c".to_string()]);
    let errors: Vec<String> = locked.errors.iter().map(|e| e.to_string()).collect();
    assert_eq!(errors, vec!["source failed".to_string(), "boom".to_string()]);
}

#[test]
fn config_lock_skips_other_profiles() {
    let mut ctx = test_ctx("/tmp/x");
    ctx.profile = Some("work".to_string());
    let mut work = external("w", Source::Local { dir: PathBuf::from("/w") });
    work.profiles = Some(vec!["work".to_string()]);
    let mut home = external("h", Source::Local { dir: PathBuf::from("/h") });
    home.profiles = Some(vec!["home".to_string()]);
    let config = Config {
        shell: Shell::Bash,
        matches: None,
        apply: None,
        templates: map_new(),
        plugins: vec![Plugin::External(work), Plugin::External(home)],
    };
    let plan = config.lock(&ctx);
    assert_eq!(plan.groups.len(), 1);
    assert_eq!(plan.groups[0].1[0].1.name, "w");
}

fn locked_config(ctx: &Context, plugins: Vec<LockedPlugin>) -> LockedConfig {
    LockedConfig {
        ctx: ctx.duplicate(),
        plugins,
        templates: Shell::Zsh.default_templates(),
        errors: vec![],
    }
}

#[test]
fn lock_and_source_empty() {
    let ctx = test_ctx("/tmp/x");
    let config = Config {
        shell: Shell::Zsh,
        matches: None,
        apply: None,
        templates: map_new(),
        plugins: vec![],
    };
    let plan = config.lock(&ctx);
    assert!(plan.groups.is_empty());
    let locked = LockedConfig::assemble(&ctx, plan.templates, plan.inlines, vec![]);
    assert!(locked.errors.is_empty());
    let script = locked.script(&ctx, &mut Vec::new()).unwrap();
    assert_eq!(script, "");
}

#[test]
fn lock_and_source_inline() {
    let ctx = test_ctx("/tmp/x");
    let config = Config {
        shell: Shell::Zsh,
        matches: None,
        apply: None,
        templates: map_new(),
        plugins: vec![Plugin::Inline(InlinePlugin {
            name: "test-inline".to_string(),
            raw: "echo 'testing...'".to_string(),
            profiles: None,
            hooks: None,
        })],
    };
    let plan = config.lock(&ctx);
    let locked = LockedConfig::assemble(&ctx, plan.templates, plan.inlines, vec![]);
    let script = locked.script(&ctx, &mut Vec::new()).unwrap();
    assert_eq!(script, "echo 'testing...'\n");
}

#[test]
fn script_renders_source_template_with_hooks() {
    let ctx = test_ctx("/tmp/x");
    let plugin = LockedExternalPlugin {
        name: "test".to_string(),
        source_dir: PathBuf::from("/p"),
        plugin_dir: None,
        files: vec![PathBuf::from("/p/a.zsh"), PathBuf::from("/p/b.zsh")],
        apply: vec!["source".to_string(), "PATH".to_string()],
        hooks: vec![("pre".to_string(), "echo pre".to_string())],
    };
    let locked = locked_config(&ctx, vec![LockedPlugin::External(plugin)]);
    assert!(locked.applied_templates_exist());
    let script = locked.script(&ctx, &mut Vec::new()).unwrap();
    assert_eq!(
        script,
        "echo pre\nsource \"/p/a.zsh\"\nsource \"/p/b.zsh\"\nexport PATH=\"/p:$PATH\"\n"
    );
}

#[test]
fn script_reports_bad_inline_plugin() {
    let ctx = test_ctx("/tmp/x");
    let inline = InlinePlugin {
        name: "broken".to_string(),
        raw: "{{ oops ".to_string(),
        profiles: None,
        hooks: None,
    };
    let locked = locked_config(&ctx, vec![LockedPlugin::Inline(inline)]);
    let err = locked.script(&ctx, &mut Vec::new()).unwrap_err();
    assert_eq!(err.message(), "failed to compile inline plugin `broken`");
}

#[test]
fn script_reports_bad_template() {
    let ctx = test_ctx("/tmp/x");
    let mut templates = map_new();
    map_insert(&mut templates, "bad".to_string(), "{% if %}".to_string());
    let locked = LockedConfig {
        ctx: ctx.duplicate(),
        plugins: vec![],
        templates,
        errors: vec![],
    };
    let err = locked.script(&ctx, &mut Vec::new()).unwrap_err();
    assert_eq!(err.message(), "failed to compile template `bad`");
}

#[test]
fn locked_config_clean_keeps_plugin_paths() {
    let ctx = test_ctx("/d");
    let plugin = LockedExternalPlugin {
        name: "r".to_string(),
        source_dir: PathBuf::from("/d/downloads/host/a"),
        plugin_dir: None,
        files: vec![PathBuf::from("/d/downloads/host/a/f.zsh")],
        apply: vec![],
        hooks: vec![],
    };
    let git = LockedExternalPlugin {
        name: "g".to_string(),
        source_dir: PathBuf::from("/d/repos/host/o/r"),
        plugin_dir: None,
        files: vec![],
        apply: vec![],
        hooks: vec![],
    };
    let locked = locked_config(
        &ctx,
        vec![LockedPlugin::External(plugin), LockedPlugin::External(git)],
    );
    let plan = locked.clean();
    assert!(!plan.enters_clone_entry(&PathBuf::from("/d/repos/host/o/r")));
    assert!(plan.enters_clone_entry(&PathBuf::from("/d/repos/host/o/other")));
    assert!(!plan.removes_clone_entry(&PathBuf::from("/d/repos/host/o")));
    assert!(!plan.removes_clone_entry(&PathBuf::from("/d/repos")));
    assert!(plan.removes_clone_entry(&PathBuf::from("/d/repos/host/o/other")));
    assert!(!plan.removes_download_entry(&PathBuf::from("/d/downloads/host/a/f.zsh")));
    assert!(plan.removes_download_entry(&PathBuf::from("/d/downloads/host/a/old.zsh")));
}

#[test]
fn locked_config_verify_checks_settings_and_paths() {
    let ctx = test_ctx("/d");
    let plugin = LockedExternalPlugin {
        name: "p".to_string(),
        source_dir: PathBuf::from("/d/repos/p"),
        plugin_dir: None,
        files: vec![PathBuf::from("/d/repos/p/p.zsh")],
        apply: vec![],
        hooks: vec![],
    };
    let locked = locked_config(&ctx, vec![LockedPlugin::External(plugin)]);
    let paths = locked.paths_to_check();
    assert_eq!(paths.len(), 2);
    assert!(locked.verify(&ctx, &vec![true, true]));
    assert!(!locked.verify(&ctx, &vec![true, false]));
    let other = test_ctx("/e");
    assert!(!locked.verify(&other, &vec![true, true]));
}

#[test]
fn lock_external_plugin_lock_git_with_uses() {
    let ctx = test_ctx("/tmp/x");
    let mut plugin = external(
        "test",
        Source::Git {
            url: url("https://github.com/rossmacarthur/sheldon-test"),
            reference: Some(GitReference::Tag("v0.1.0".to_string())),
        },
    );
    plugin.uses = Some(vec!["*.md".to_string(), "{{ name }}.plugin.zsh".to_string()]);
    let clone_dir = PathBuf::from("/tmp/x/repos/github.com/rossmacarthur/sheldon-test");
    let locked_source = LockedSource { dir: clone_dir.duplicate(), file: None };
    let state = lock(&ctx, locked_source, &vec![], &vec!["hello".to_string()], plugin);
    let state = match state {
        PluginLockState::Glob { locker, patterns } => {
            assert_eq!(patterns, vec!["*.md".to_string(), "test.plugin.zsh".to_string()]);
            assert_eq!(locker.dir, clone_dir);
            let found = vec![clone_dir.join_str("README.md"), clone_dir.join_str("test.plugin.zsh")];
            resume(locker, Ok(found))
        }
        _ => panic!("expected a glob request"),
    };
    match state {
        PluginLockState::Done(Ok(locked)) => {
            assert_eq!(locked.name, "test");
            assert_eq!(locked.dir(), &clone_dir);
            assert_eq!(
                locked.files,
                vec![clone_dir.join_str("README.md"), clone_dir.join_str("test.plugin.zsh")]
            );
            assert_eq!(locked.apply, vec!["hello".to_string()]);
        }
        _ => panic!("expected a locked plugin"),
    }
}

#[test]
fn lock_external_plugin_lock_git_with_matches() {
    let ctx = test_ctx("/tmp/x");
    let plugin = external(
        "test",
        Source::Git {
            url: url("https://github.com/rossmacarthur/sheldon-test"),
            reference: Some(GitReference::Tag("v0.1.0".to_string())),
        },
    );
    let clone_dir = PathBuf::from("/tmp/x/repos/github.com/rossmacarthur/sheldon-test");
    let locked_source = LockedSource { dir: clone_dir.duplicate(), file: None };
    let matches = vec!["*.plugin.zsh".to_string()];
    let state = lock(&ctx, locked_source, &matches, &vec!["hello".to_string()], plugin);
    let state = match state {
        PluginLockState::Glob { locker, patterns } => {
            assert_eq!(patterns, vec!["*.plugin.zsh".to_string()]);
            resume(locker, Ok(vec![clone_dir.join_str("test.plugin.zsh")]))
        }
        _ => panic!("expected a glob request"),
    };
    match state {
        PluginLockState::Done(Ok(locked)) => {
            assert_eq!(locked.name, "test");
            assert_eq!(locked.dir(), &clone_dir);
            assert_eq!(locked.files, vec![clone_dir.join_str("test.plugin.zsh")]);
            assert_eq!(locked.apply, vec!["hello".to_string()]);
        }
        _ => panic!("expected a locked plugin"),
    }
}

#[test]
fn lock_external_plugin_lock_git_with_matches_not_each() {
    let ctx = test_ctx("/tmp/x");
    let plugin = external(
        "test",
        Source::Git {
            url: url("https://github.com/rossmacarthur/sheldon-test"),
            reference: Some(GitReference::Tag("v0.1.0".to_string())),
        },
    );
    let clone_dir = PathBuf::from("/tmp/x/repos/github.com/rossmacarthur/sheldon-test");
    let locked_source = LockedSource { dir: clone_dir.duplicate(), file: None };
    let matches = vec!["*doesnotexist*".to_string()];
    let state = lock(&ctx, locked_source, &matches, &vec!["PATH".to_string()], plugin);
    let state = match state {
        PluginLockState::Glob { locker, patterns } => {
            assert_eq!(patterns, vec!["*doesnotexist*".to_string()]);
            resume(locker, Ok(vec![]))
        }
        _ => panic!("expected a glob request"),
    };
    match state {
        PluginLockState::Done(Ok(locked)) => {
            assert_eq!(locked.name, "test");
            assert_eq!(locked.dir(), &clone_dir);
            assert!(locked.files.is_empty());
            assert_eq!(locked.apply, vec!["PATH".to_string()]);
        }
        _ => panic!("expected a locked plugin"),
    }
}

#[test]
fn lock_external_plugin_lock_remote() {
    let ctx = test_ctx("/tmp/x");
    let plugin = external(
        "test",
        Source::Remote {
            url: url("https://github.com/rossmacarthur/sheldon-test/raw/master/test.plugin.zsh"),
        },
    );
    let download_dir =
        PathBuf::from("/tmp/x/downloads/github.com/rossmacarthur/sheldon-test/raw/master");
    let locked_source = LockedSource {
        dir: download_dir.duplicate(),
        file: Some(download_dir.join_str("test.plugin.zsh")),
    };
    match lock(&ctx, locked_source, &vec![], &vec!["hello".to_string()], plugin) {
        PluginLockState::Done(Ok(locked)) => {
            assert_eq!(locked.name, "test");
            assert_eq!(locked.dir(), &download_dir);
            assert_eq!(locked.files, vec![download_dir.join_str("test.plugin.zsh")]);
            assert_eq!(locked.apply, vec!["hello".to_string()]);
        }
        _ => panic!("expected a locked plugin"),
    }
}

#[test]
fn plugin_external_plugin_lock_git_with_uses() {
    let ctx = test_ctx("/tmp/x");
    let mut plugin = external(
        "test",
        Source::Git {
            url: url("https://github.com/rossmacarthur/sheldon-test"),
            reference: Some(GitReference::Tag("v0.1.0".to_string())),
        },
    );
    plugin.uses = Some(vec!["*.md".to_string(), "{{ name }}.plugin.zsh".to_string()]);
    let clone_dir = PathBuf::from("/tmp/x/repos/github.com/rossmacarthur/sheldon-test");
    let locked_source = LockedSource { dir: clone_dir.duplicate(), file: None };
    let state = lock(&ctx, locked_source, &vec![], &vec!["hello".to_string()], plugin);
    let state = match state {
        PluginLockState::Glob { locker, patterns } => {
            assert_eq!(patterns, vec!["*.md".to_string(), "test.plugin.zsh".to_string()]);
            assert_eq!(locker.dir, clone_dir);
            let found = vec![clone_dir.join_str("README.md"), clone_dir.join_str("test.plugin.zsh")];
            resume(locker, Ok(found))
        }
        _ => panic!("expected a glob request"),
    };
    match state {
        PluginLockState::Done(Ok(locked)) => {
            assert_eq!(locked.name, "test");
            assert_eq!(locked.dir(), &clone_dir);
            assert_eq!(
                locked.files,
                vec![clone_dir.join_str("README.md"), clone_dir.join_str("test.plugin.zsh")]
            );
            assert_eq!(locked.apply, vec!["hello".to_string()]);
        }
        _ => panic!("expected a locked plugin"),
    }
}

#[test]
fn plugin_external_plugin_lock_git_with_matches() {
    let ctx = test_ctx("/tmp/x");
    let plugin = external(
        "test",
        Source::Git {
            url: url("https://github.com/rossmacarthur/sheldon-test"),
            reference: Some(GitReference::Tag("v0.1.0".to_string())),
        },
    );
    let clone_dir = PathBuf::from("/tmp/x/repos/github.com/rossmacarthur/sheldon-test");
    let locked_source = LockedSource { dir: clone_dir.duplicate(), file: None };
    let matches = vec!["*.plugin.zsh".to_string()];
    let state = lock(&ctx, locked_source, &matches, &vec!["hello".to_string()], plugin);
    let state = match state {
        PluginLockState::Glob { locker, patterns } => {
            assert_eq!(patterns, vec!["*.plugin.zsh".to_string()]);
            resume(locker, Ok(vec![clone_dir.join_str("test.plugin.zsh")]))
        }
        _ => panic!("expected a glob request"),
    };
    match state {
        PluginLockState::Done(Ok(locked)) => {
            assert_eq!(locked.name, "test");
            assert_eq!(locked.dir(), &clone_dir);
            assert_eq!(locked.files, vec![clone_dir.join_str("test.plugin.zsh")]);
            assert_eq!(locked.apply, vec!["hello".to_string()]);
        }
        _ => panic!("expected a locked plugin"),
    }
}

#[test]
fn plugin_external_plugin_lock_git_with_matches_not_each() {
    let ctx = test_ctx("/tmp/x");
    let plugin = external(
        "test",
        Source::Git {
            url: url("https://github.com/rossmacarthur/sheldon-test"),
            reference: Some(GitReference::Tag("v0.1.0".to_string())),
        },
    );
    let clone_dir = PathBuf::from("/tmp/x/repos/github.com/rossmacarthur/sheldon-test");
    let locked_source = LockedSource { dir: clone_dir.duplicate(), file: None };
    let matches = vec!["*doesnotexist*".to_string()];
    let state = lock(&ctx, locked_source, &matches, &vec!["PATH".to_string()], plugin);
    let state = match state {
        PluginLockState::Glob { locker, patterns } => {
            assert_eq!(patterns, vec!["*doesnotexist*".to_string()]);
            resume(locker, Ok(vec![]))
        }
        _ => panic!("expected a glob request"),
    };
    match state {
        PluginLockState::Done(Ok(locked)) => {
            assert_eq!(locked.name, "test");
            assert_eq!(locked.dir(), &clone_dir);
            assert!(locked.files.is_empty());
            assert_eq!(locked.apply, vec!["PATH".to_string()]);
        }
        _ => panic!("expected a locked plugin"),
    }
}

#[test]
fn plugin_external_plugin_lock_remote() {
    let ctx = test_ctx("/tmp/x");
    let plugin = external(
        "test",
        Source::Remote {
            url: url("https://github.com/rossmacarthur/sheldon-test/raw/master/test.plugin.zsh"),
        },
    );
    let download_dir =
        PathBuf::from("/tmp/x/downloads/github.com/rossmacarthur/sheldon-test/raw/master");
    let locked_source = LockedSource {
        dir: download_dir.duplicate(),
        file: Some(download_dir.join_str("test.plugin.zsh")),
    };
    match lock(&ctx, locked_source, &vec![], &vec!["hello".to_string()], plugin) {
        PluginLockState::Done(Ok(locked)) => {
            assert_eq!(locked.name, "test");
            assert_eq!(locked.dir(), &download_dir);
            assert_eq!(locked.files, vec![download_dir.join_str("test.plugin.zsh")]);
            assert_eq!(locked.apply, vec!["hello".to_string()]);
        }
        _ => panic!("expected a locked plugin"),
    }
}

#[test]
fn config_lock_empty() {
    let ctx = test_ctx("/tmp/x");
    let config = Config {
        shell: Shell::Zsh,
        matches: None,
        apply: None,
        templates: map_new(),
        plugins: Vec::new(),
    };
    let plan = config.lock(&ctx);
    assert!(plan.groups.is_empty());
    let locked = LockedConfig::assemble(&ctx, plan.templates, plan.inlines, vec![]);
    assert_eq!(locked.ctx.lock_file, ctx.lock_file);
    assert_eq!(locked.ctx.clone_dir, ctx.clone_dir);
    assert_eq!(locked.ctx.download_dir, ctx.download_dir);
    assert!(locked.plugins.is_empty());
    assert_eq!(locked.templates, Shell::default().default_templates());
    assert_eq!(locked.errors.len(), 0);
}

#[test]
fn assembled_config_verifies_under_its_context() {
    let ctx = test_ctx("/tmp/x");
    let config = Config {
        shell: Shell::Bash,
        matches: None,
        apply: None,
        templates: map_new(),
        plugins: vec![Plugin::External(external(
            "w",
            Source::Local {
                dir: PathBuf::from("/w"),
            },
        ))],
    };
    let plan = config.lock(&ctx);
    let locked_w = LockedExternalPlugin {
        name: "w".to_string(),
        source_dir: PathBuf::from("/w"),
        plugin_dir: None,
        files: vec![PathBuf::from("/w/w.plugin.zsh")],
        apply: vec!["source".to_string()],
        hooks: vec![],
    };
    let outcomes = vec![Ok(vec![(0usize, Ok(locked_w))])];
    let locked = LockedConfig::assemble(&ctx, plan.templates, plan.inlines, outcomes);
    assert_eq!(locked.paths_to_check().len(), 2);
    assert!(locked.verify(&ctx, &vec![true, true]));
}

#[test]
fn script_gives_inline_plugins_without_hooks_no_hooks() {
    let ctx = test_ctx("/tmp/x");
    let bare = InlinePlugin {
        name: "bare".to_string(),
        raw: "a{{ hooks }}b".to_string(),
        profiles: None,
        hooks: None,
    };
    let hooked = InlinePlugin {
        name: "hooked".to_string(),
        raw: "{{ hooks.pre }}".to_string(),
        profiles: None,
        hooks: Some(vec![("pre".to_string(), "echo pre".to_string())]),
    };
    let locked = locked_config(
        &ctx,
        vec![LockedPlugin::Inline(bare), LockedPlugin::Inline(hooked)],
    );
    let script = locked.script(&ctx, &mut Vec::new()).unwrap();
    assert_eq!(script, "ab\necho pre\n");
}
