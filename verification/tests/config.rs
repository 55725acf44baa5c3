use sheldon::config::normalize::{normalize, normalize_plugin, validate_template_names};
use sheldon::config::{
    EditConfig,
    ExternalPlugin, GistRepository, GitHubRepository, GitProtocol, GitReference, InlinePlugin,
    Plugin, RawConfig, RawPlugin, RestValue, Shell, Source,
};
use sheldon::template_map::{map_insert, map_new};
use sheldon::url::Url;
use sheldon::util::path::PathBuf;

fn raw() -> RawPlugin {
    RawPlugin {
        git: None,
        gist: None,
        github: None,
        remote: None,
        local: None,
        inline: None,
        proto: None,
        reference: None,
        dir: None,
        uses: None,
        apply: None,
        profiles: None,
        hooks: None,
        rest: Vec::new(),
    }
}

fn url(s: &str) -> Url {
    Url::parse(s).unwrap()
}

fn normalize_one(raw_plugin: RawPlugin) -> Result<Plugin, String> {
    normalize_plugin(
        raw_plugin,
        "test".to_string(),
        Shell::default(),
        &map_new(),
        &mut Vec::new(),
    )
    .map_err(|e| e.to_string())
}

fn git_source(plugin: Plugin) -> (String, Option<GitReference>) {
    match plugin {
        Plugin::External(ExternalPlugin {
            source: Source::Git { url, reference },
            ..
        }) => (url.as_str().to_string(), reference),
        other => panic!("not a git plugin: {:?}", other),
    }
}

#[test]
fn normalize_plugin_conflicts() {
    let sources: Vec<fn(&mut RawPlugin)> = vec![
        |p| p.git = Some(url("https://github.com/rossmacarthur/sheldon-test")),
        |p| p.gist = Some(GistRepository::from_str("579d02802b1cc17baed07753d09f5009").unwrap()),
        |p| p.github = Some(GitHubRepository::from_str("rossmacarthur/sheldon-test").unwrap()),
        |p| p.remote = Some(url("https://ross.macarthur.io")),
        |p| p.local = Some(PathBuf::from("~/.dotfiles/zsh/pure")),
        |p| p.inline = Some("derp".to_string()),
    ];
    for (i, a) in sources.iter().enumerate() {
        for (j, b) in sources.iter().enumerate() {
            if i == j {
                continue;
            }
            let mut p = raw();
            a(&mut p);
            b(&mut p);
            assert_eq!(
                normalize_one(p).unwrap_err(),
                "plugin `test` has multiple source fields"
            );
        }
    }
}

#[test]
fn normalize_plugin_no_source() {
    assert_eq!(
        normalize_one(raw()).unwrap_err(),
        "plugin `test` has no source fields"
    );
}

#[test]
fn normalize_plugin_git() {
    let mut p = raw();
    p.git = Some(url("https://github.com/rossmacarthur/sheldon-test"));
    let plugin = normalize_one(p).unwrap();
    assert_eq!(
        plugin,
        Plugin::External(ExternalPlugin {
            name: "test".to_string(),
            source: Source::Git {
                url: url("https://github.com/rossmacarthur/sheldon-test"),
                reference: None,
            },
            dir: None,
            uses: None,
            apply: None,
            profiles: None,
            hooks: None,
        })
    );
}

#[test]
fn normalize_plugin_gist_with_git() {
    let mut p = raw();
    p.gist = Some(
        GistRepository::from_str("rossmacarthur/579d02802b1cc17baed07753d09f5009").unwrap(),
    );
    p.proto = Some(GitProtocol::Git);
    assert_eq!(
        git_source(normalize_one(p).unwrap()),
        (
            "git://gist.github.com/rossmacarthur/579d02802b1cc17baed07753d09f5009".to_string(),
            None
        )
    );
}

#[test]
fn normalize_plugin_gist_with_https() {
    let mut p = raw();
    p.gist = Some(GistRepository::from_str("579d02802b1cc17baed07753d09f5009").unwrap());
    assert_eq!(
        git_source(normalize_one(p).unwrap()),
        (
            "https://gist.github.com/579d02802b1cc17baed07753d09f5009".to_string(),
            None
        )
    );
}

#[test]
fn normalize_plugin_gist_with_ssh() {
    let mut p = raw();
    p.gist = Some(
        GistRepository::from_str("rossmacarthur/579d02802b1cc17baed07753d09f5009").unwrap(),
    );
    p.proto = Some(GitProtocol::Ssh);
    assert_eq!(
        git_source(normalize_one(p).unwrap()),
        (
            "ssh://git@gist.github.com/rossmacarthur/579d02802b1cc17baed07753d09f5009"
                .to_string(),
            None
        )
    );
}

#[test]
fn normalize_plugin_github_with_git() {
    let mut p = raw();
    p.github = Some(GitHubRepository {
        owner: "rossmacarthur".to_string(),
        name: "sheldon-test".to_string(),
    });
    p.proto = Some(GitProtocol::Git);
    assert_eq!(
        git_source(normalize_one(p).unwrap()),
        ("git://github.com/rossmacarthur/sheldon-test".to_string(), None)
    );
}

#[test]
fn normalize_plugin_github_with_https() {
    let mut p = raw();
    p.github = Some(GitHubRepository {
        owner: "rossmacarthur".to_string(),
        name: "sheldon-test".to_string(),
    });
    assert_eq!(
        git_source(normalize_one(p).unwrap()),
        ("https://github.com/rossmacarthur/sheldon-test".to_string(), None)
    );
}

#[test]
fn normalize_plugin_github_with_ssh() {
    let mut p = raw();
    p.github = Some(GitHubRepository {
        owner: "rossmacarthur".to_string(),
        name: "sheldon-test".to_string(),
    });
    p.proto = Some(GitProtocol::Ssh);
    p.reference = Some(GitReference::Tag("v0.1.0".to_string()));
    assert_eq!(
        git_source(normalize_one(p).unwrap()),
        (
            "ssh://git@github.com/rossmacarthur/sheldon-test".to_string(),
            Some(GitReference::Tag("v0.1.0".to_string()))
        )
    );
}

#[test]
fn normalize_plugin_remote() {
    let u = "https://github.com/rossmacarthur/sheldon-test/blob/master/test.plugin.zsh";
    let mut p = raw();
    p.remote = Some(url(u));
    assert_eq!(
        normalize_one(p).unwrap(),
        Plugin::External(ExternalPlugin {
            name: "test".to_string(),
            source: Source::Remote { url: url(u) },
            dir: None,
            uses: None,
            apply: None,
            profiles: None,
            hooks: None,
        })
    );
}

#[test]
fn normalize_plugin_remote_with_reference() {
    let mut p = raw();
    p.remote = Some(url(
        "https://github.com/rossmacarthur/sheldon-test/blob/master/test.plugin.zsh",
    ));
    p.reference = Some(GitReference::Tag("v0.1.0".to_string()));
    assert_eq!(
        normalize_one(p).unwrap_err(),
        "the `branch`, `tag`, and `rev` fields are not supported by this plugin type"
    );
}

#[test]
fn normalize_plugin_remote_with_ssh() {
    let mut p = raw();
    p.remote = Some(url(
        "https://github.com/rossmacarthur/sheldon-test/blob/master/test.plugin.zsh",
    ));
    p.proto = Some(GitProtocol::Https);
    assert_eq!(
        normalize_one(p).unwrap_err(),
        "the `proto` field is not supported by this plugin type"
    );
}

#[test]
fn normalize_plugin_local() {
    let mut p = raw();
    p.local = Some(PathBuf::from("/home/temp"));
    assert_eq!(
        normalize_one(p).unwrap(),
        Plugin::External(ExternalPlugin {
            name: "test".to_string(),
            source: Source::Local {
                dir: PathBuf::from("/home/temp"),
            },
            dir: None,
            uses: None,
            apply: None,
            profiles: None,
            hooks: None,
        })
    );
}

#[test]
fn normalize_plugin_inline() {
    let mut p = raw();
    p.inline = Some("echo 'this is a test'\n".to_string());
    assert_eq!(
        normalize_one(p).unwrap(),
        Plugin::Inline(InlinePlugin {
            name: "test".to_string(),
            raw: "echo 'this is a test'\n".to_string(),
            profiles: None,
            hooks: None,
        })
    );
}

#[test]
fn normalize_plugin_inline_apply() {
    let mut p = raw();
    p.inline = Some("echo 'this is a test'\n".to_string());
    p.apply = Some(vec!["test".to_string()]);
    assert_eq!(
        normalize_one(p).unwrap_err(),
        "the `apply` field is not supported by inline plugins"
    );
}

#[test]
fn normalize_plugin_external_invalid_template() {
    let mut p = raw();
    p.github = Some(GitHubRepository {
        owner: "rossmacarthur".to_string(),
        name: "sheldon-test".to_string(),
    });
    p.apply = Some(vec!["test".to_string()]);
    assert_eq!(normalize_one(p).unwrap_err(), "unknown template `test`");
}

#[test]
fn normalize_plugin_deprecated_protocol_and_unused_keys() {
    let mut p = raw();
    p.github = Some(GitHubRepository {
        owner: "rossmacarthur".to_string(),
        name: "sheldon-test".to_string(),
    });
    p.rest = vec![
        ("extra".to_string(), RestValue::Other),
        ("protocol".to_string(), RestValue::String("ssh".to_string())),
    ];
    let mut warnings = Vec::new();
    let plugin = normalize_plugin(
        p,
        "test".to_string(),
        Shell::Zsh,
        &map_new(),
        &mut warnings,
    )
    .unwrap();
    assert_eq!(
        git_source(plugin).0,
        "ssh://git@github.com/rossmacarthur/sheldon-test"
    );
    let texts: Vec<String> = warnings.iter().map(|w| w.to_string()).collect();
    assert_eq!(
        texts,
        vec![
            "use of deprecated config key: `plugins.test.protocol`, please use `plugins.test.proto` instead",
            "unused config key: `plugins.test.extra`",
        ]
    );
}

#[test]
fn validate_template_names_uses_shell_and_configured() {
    let mut templates = map_new();
    map_insert(&mut templates, "mine".to_string(), "{{ name }}".to_string());
    let ok = Some(vec!["PATH".to_string(), "mine".to_string(), "fpath".to_string()]);
    assert!(validate_template_names(Shell::Zsh, &ok, &templates).is_ok());
    let err = validate_template_names(Shell::Bash, &ok, &templates).unwrap_err();
    assert_eq!(err.to_string(), "unknown template `fpath`");
}

#[test]
fn normalize_config_reports_plugin_and_template_errors() {
    let mut templates = map_new();
    map_insert(&mut templates, "bad".to_string(), "{{ name ".to_string());
    let config = RawConfig {
        shell: None,
        matches: None,
        apply: None,
        templates,
        plugins: Vec::new(),
        rest: vec![("oops".to_string(), RestValue::Other)],
    };
    let mut warnings = Vec::new();
    let err = normalize(config, &mut warnings).unwrap_err();
    assert_eq!(err.message(), "failed to compile template `bad`");
    assert_eq!(warnings.len(), 1);
    assert_eq!(warnings[0].to_string(), "unused config key: `oops`");

    let mut p = raw();
    p.local = Some(PathBuf::from("/a"));
    p.reference = Some(GitReference::Branch("x".to_string()));
    let config = RawConfig {
        shell: Some(Shell::Bash),
        matches: None,
        apply: None,
        templates: map_new(),
        plugins: vec![("first".to_string(), p)],
        rest: Vec::new(),
    };
    let err = normalize(config, &mut Vec::new()).unwrap_err();
    assert_eq!(
        err.to_string(),
        "failed to normalize plugin `first`\nthe `branch`, `tag`, and `rev` fields are not supported by this plugin type"
    );
}

#[test]
fn normalize_config_keeps_plugin_order() {
    let mut a = raw();
    a.inline = Some("echo a".to_string());
    let mut b = raw();
    b.local = Some(PathBuf::from("/b"));
    let config = RawConfig {
        shell: None,
        matches: Some(vec!["*.zsh".to_string()]),
        apply: None,
        templates: map_new(),
        plugins: vec![("a".to_string(), a), ("b".to_string(), b)],
        rest: Vec::new(),
    };
    let config = normalize(config, &mut Vec::new()).unwrap();
    assert_eq!(config.shell, Shell::Zsh);
    assert_eq!(config.matches, Some(vec!["*.zsh".to_string()]));
    assert_eq!(config.plugins.len(), 2);
    assert!(matches!(&config.plugins[0], Plugin::Inline(p) if p.name == "a"));
    assert!(matches!(&config.plugins[1], Plugin::External(p) if p.name == "b"));
}

#[test]
fn gist_repository_to_string() {
    let test = GistRepository {
        owner: None,
        identifier: "579d02802b1cc17baed07753d09f5009".to_string(),
    };
    assert_eq!(test.to_string(), "579d02802b1cc17baed07753d09f5009");
}

#[test]
fn gist_repository_to_string_with_owner() {
    let test = GistRepository {
        owner: Some("rossmacarthur".to_string()),
        identifier: "579d02802b1cc17baed07753d09f5009".to_string(),
    };
    assert_eq!(
        test.to_string(),
        "rossmacarthur/579d02802b1cc17baed07753d09f5009"
    );
}

#[test]
fn github_repository_to_string() {
    let test = GitHubRepository {
        owner: "rossmacarthur".to_string(),
        name: "sheldon-test".to_string(),
    };
    assert_eq!(test.to_string(), "rossmacarthur/sheldon-test");
}

#[test]
fn gist_repository_parse_errors() {
    let e = GistRepository::from_str("rossmacarthur/579d02802b1cc17baed07753d09f5009/test")
        .unwrap_err();
    assert_eq!(
        e.to_string(),
        "`rossmacarthur/579d02802b1cc17baed07753d09f5009/test` is not a valid Gist identifier, the hash or username/hash should be provided"
    );
    let e = GistRepository::from_str("nothex").unwrap_err();
    assert_eq!(
        e.to_string(),
        "`nothex` is not a valid Gist identifier, the hash or username/hash should be provided"
    );
}

#[test]
fn github_repository_parse() {
    let g = GitHubRepository::from_str("rossmacarthur/sheldon-test").unwrap();
    assert_eq!(g.owner, "rossmacarthur");
    assert_eq!(g.name, "sheldon-test");
    let e = GitHubRepository::from_str("rossmacarthur/sheldon-test/test").unwrap_err();
    assert_eq!(
        e.to_string(),
        "`rossmacarthur/sheldon-test/test` is not a valid GitHub repository, the username/repository should be provided"
    );
    assert!(GitHubRepository::from_str("noslash").is_err());
}

#[test]
fn shell_names() {
    assert_eq!(Shell::Bash.to_string(), "bash");
    assert_eq!(Shell::Zsh.to_string(), "zsh");
    assert_eq!(Shell::from_str("BASH").unwrap(), Shell::Bash);
    assert_eq!(
        Shell::from_str("ksh").unwrap_err().to_string(),
        "expected one of `bash` or `zsh`, got `ksh`"
    );
}

#[test]
fn git_protocol_names() {
    assert_eq!(GitProtocol::from_str("ssh").unwrap(), GitProtocol::Ssh);
    assert_eq!(GitProtocol::Https.to_string(), "https");
    assert_eq!(GitProtocol::Ssh.prefix(), "ssh://git@");
    assert_eq!(
        GitProtocol::from_str("ftp").unwrap_err().to_string(),
        "expected one of `git`, `https`, or `ssh`, got `ftp`"
    );
}

#[test]
fn shell_to_string() {
    assert_eq!(Shell::Bash.to_string(), "bash");
    assert_eq!(Shell::Zsh.to_string(), "zsh");
}

#[test]
fn config_from_str_invalid() {
    EditConfig::from_str("x = \n").unwrap_err();
}

#[test]
fn config_empty_add_git() {
    let mut config = EditConfig::from_str("").unwrap();
    let plugin = EditConfig::from_str(
        "git = 'https://github.com/rossmacarthur/sheldon-test'\nbranch = 'feature'\n",
    )
    .unwrap();
    config.add("sheldon-test", &plugin).unwrap();
    assert_eq!(
        config.to_string(),
        r#"
[plugins.sheldon-test]
git = 'https://github.com/rossmacarthur/sheldon-test'
branch = 'feature'
"#
    )
}

#[test]
fn config_empty_add_github() {
    let mut config = EditConfig::from_str("").unwrap();
    let plugin =
        EditConfig::from_str("github = 'rossmacarthur/sheldon-test'\ntag = '0.1.0'\n").unwrap();
    config.add("sheldon-test", &plugin).unwrap();
    assert_eq!(
        config.to_string(),
        r#"
[plugins.sheldon-test]
github = 'rossmacarthur/sheldon-test'
tag = '0.1.0'
"#
    )
}

#[test]
fn config_others_add_git() {
    let mut config = EditConfig::from_str(
        r#"
# test configuration file
apply = ["PATH", "source"]

[templates]
prompt = { value = 'ln -sf "{{ file }}" "{{ root }}/functions/prompt_{{ name }}_setup"', each = true }

# yes this is the pure plugin
[plugins.pure]
github = "sindresorhus/pure"
apply = ["prompt"]
use = ["{{ name }}.zsh"]
    "#,
    )
    .unwrap();
    let plugin =
        EditConfig::from_str("github = 'rossmacarthur/sheldon-test'\ntag = '0.1.0'\n").unwrap();
    config.add("sheldon-test", &plugin).unwrap();
    assert_eq!(
        config.to_string(),
        r#"
# test configuration file
apply = ["PATH", "source"]

[templates]
prompt = { value = 'ln -sf "{{ file }}" "{{ root }}/functions/prompt_{{ name }}_setup"', each = true }

# yes this is the pure plugin
[plugins.pure]
github = "sindresorhus/pure"
apply = ["prompt"]
use = ["{{ name }}.zsh"]

[plugins.sheldon-test]
github = 'rossmacarthur/sheldon-test'
tag = '0.1.0'
    "#
    )
}

#[test]
fn edit_config_add_refuses_taken_name_and_scalar_plugins() {
    let mut config = EditConfig::from_str("[plugins.a]\nlocal = '/a'\n").unwrap();
    let plugin = EditConfig::from_str("local = '/b'\n").unwrap();
    let err = config.add("a", &plugin).unwrap_err();
    assert_eq!(err.to_string(), "plugin with name `a` already exists");
    let mut scalar = EditConfig::from_str("plugins = 1\n").unwrap();
    let err = scalar.add("a", &plugin).unwrap_err();
    assert_eq!(err.to_string(), "current `plugins` entry is not a table");
}

#[test]
fn edit_config_remove_drops_the_plugin() {
    let mut config =
        EditConfig::from_str("[plugins.a]\nlocal = '/a'\n[plugins.b]\nlocal = '/b'\n").unwrap();
    config.remove("a");
    assert_eq!(config.to_string(), "[plugins.b]\nlocal = '/b'\n");
}

#[test]
fn edit_config_default_text_names_the_shell() {
    let text = EditConfig::default_text(Some(Shell::Bash));
    assert!(text.starts_with("# `sheldon` configuration file\n"));
    assert!(text.ends_with("\nshell = \"bash\"\n\n[plugins]\n"));
    let config = EditConfig::from_str(&text).unwrap();
    assert_eq!(config.to_string(), text);
    let plain = EditConfig::default_text(None);
    assert!(plain.ends_with("#readme\n\n[plugins]\n"));
}

#[test]
fn edit_config_remove_undoes_add() {
    let text = "[plugins.a]\nlocal = '/a'\n";
    let mut config = EditConfig::from_str(text).unwrap();
    let plugin = EditConfig::from_str("local = '/b'\n").unwrap();
    config.add("b", &plugin).unwrap();
    assert_eq!(config.to_string(), "[plugins.a]\nlocal = '/a'\n\n[plugins.b]\nlocal = '/b'\n");
    config.remove("b");
    assert_eq!(config.to_string(), text);
}

#[test]
fn gist_repository_from_str_two_slashes() {
    let error = GistRepository::from_str("rossmacarthur/579d02802b1cc17baed07753d09f5009/test")
        .unwrap_err();
    assert_eq!(
        error.to_string(),
        "`rossmacarthur/579d02802b1cc17baed07753d09f5009/test` is not a valid Gist \
         identifier, the hash or username/hash should be provided"
    );
}

#[test]
fn gist_repository_from_str_not_hex() {
    let error = GistRepository::from_str("nothex").unwrap_err();
    assert_eq!(
        error.to_string(),
        "`nothex` is not a valid Gist identifier, the hash or username/hash should be \
         provided"
    );
}

#[test]
fn github_repository_from_str_two_slashes() {
    let error = GitHubRepository::from_str("rossmacarthur/sheldon/test").unwrap_err();
    assert_eq!(
        error.to_string(),
        "`rossmacarthur/sheldon/test` is not a valid GitHub repository, the \
         username/repository should be provided"
    );
}

#[test]
fn github_repository_from_str_no_slashes() {
    let error = GitHubRepository::from_str("noslash").unwrap_err();
    assert_eq!(
        error.to_string(),
        "`noslash` is not a valid GitHub repository, the username/repository should be \
         provided"
    );
}

#[test]
fn shell_from_str_invalid() {
    let error = Shell::from_str("ksh").unwrap_err();
    assert_eq!(error.to_string(), "expected one of `bash` or `zsh`, got `ksh`");
    let error = Shell::from_str("KSH").unwrap_err();
    assert_eq!(error.to_string(), "expected one of `bash` or `zsh`, got `ksh`");
}

#[test]
fn shell_names_read_back() {
    for shell in [Shell::Bash, Shell::Zsh] {
        assert_eq!(Shell::from_str(&shell.to_string()).unwrap(), shell);
    }
    assert_eq!(Shell::from_str("Zsh").unwrap(), Shell::Zsh);
}

#[test]
fn edit_config_remove_without_plugins_writes_an_inline_table() {
    let mut config = EditConfig::from_str("x = 1\n").unwrap();
    assert_eq!(config.plugins_entry_kind(), 0);
    config.remove("a");
    assert_eq!(config.plugins_entry_kind(), 2);
    assert_eq!(config.to_string(), "x = 1\nplugins = {}\n");
}

#[test]
fn edit_config_from_str_reads_the_plugins_entry() {
    assert_eq!(EditConfig::from_str("").unwrap().plugins_entry_kind(), 0);
    assert_eq!(EditConfig::from_str("[plugins.a]\nlocal = '/a'\n").unwrap().plugins_entry_kind(), 1);
    assert_eq!(EditConfig::from_str("plugins = {}\n").unwrap().plugins_entry_kind(), 2);
    assert_eq!(EditConfig::from_str("plugins = 1\n").unwrap().plugins_entry_kind(), 3);
}
