use sheldon::app::{must_lock, needs_mutex, report, split_lock_errors, writes_lock_file};
use sheldon::cli::Command;
use sheldon::config::edit::{check_add, PluginsEntry};
use sheldon::config::global::Global;
use sheldon::context::LogLine;
use sheldon::editor::{after_edit, edit_overwrites, to_bin_and_args, Choice};
use sheldon::error::{prettyify_error, Error, ErrorKind, IoErrorKind};
use sheldon::template_map::{map_contains_key, map_get, map_insert, map_len, map_new};
use sheldon::text::{usize_to_string, with_trailing_newline};
use sheldon::util::path::PathBuf;
use sheldon::util::temp::TempPath;

#[test]
fn error_display_and_chain() {
    let e = Error::from_kind(ErrorKind::Io(IoErrorKind::NotFound, "no such file".to_string()))
        .context("failed to read".to_string())
        .context("failed to load config file".to_string());
    assert_eq!(e.message(), "failed to load config file");
    assert_eq!(
        e.chain(),
        vec![
            "failed to load config file".to_string(),
            "failed to read".to_string(),
            "no such file".to_string()
        ]
    );
    assert_eq!(
        prettyify_error(&e),
        "failed to load config file\n  due to: failed to read\n  due to: no such file"
    );
    assert_eq!(e.io_kind(), Some(IoErrorKind::NotFound));
    assert_eq!(sheldon::error::underlying_io_error_kind(&e), Some(IoErrorKind::NotFound));
    assert!(sheldon::app::is_missing_config(&e));
}

#[test]
fn template_map_insert_keeps_place() {
    let mut m = map_new();
    map_insert(&mut m, "a".to_string(), "1".to_string());
    map_insert(&mut m, "b".to_string(), "2".to_string());
    map_insert(&mut m, "a".to_string(), "3".to_string());
    assert_eq!(map_len(&m), 2);
    assert_eq!(map_get(&m, "a"), Some("3".to_string()));
    assert!(map_contains_key(&m, "b"));
    assert!(!map_contains_key(&m, "c"));
    let keys: Vec<&String> = m.keys().collect();
    assert_eq!(keys, vec!["a", "b"]);
}

#[test]
fn choice_from_str() {
    assert_eq!(Choice::from_str("a").unwrap(), Choice::Abort);
    assert_eq!(Choice::from_str("R").unwrap(), Choice::Reopen);
    assert_eq!(Choice::from_str("o").unwrap(), Choice::Overwrite);
    assert_eq!(
        Choice::from_str("x").unwrap_err().to_string(),
        "`x` is not a valid choice"
    );
}

#[test]
fn to_bin_and_args_splits_whitespace() {
    let (bin, args) = to_bin_and_args("  code \t --wait  ").unwrap();
    assert_eq!(bin, PathBuf::from("code"));
    assert_eq!(args, vec!["--wait".to_string()]);
    assert!(to_bin_and_args("   ").is_none());
}

#[test]
fn edit_decisions() {
    assert_eq!(edit_overwrites(false, false, None).unwrap(), true);
    assert_eq!(edit_overwrites(true, true, None).unwrap(), false);
    assert_eq!(edit_overwrites(true, false, Some(Choice::Reopen)).unwrap(), false);
    assert_eq!(
        edit_overwrites(true, false, Some(Choice::Abort)).unwrap_err().to_string(),
        "aborted!"
    );
    assert_eq!(
        after_edit(true, true, "").unwrap_err().to_string(),
        "aborted, no changes!"
    );
    assert_eq!(
        after_edit(false, false, "exit status: 1").unwrap_err().to_string(),
        "editor terminated with exit status: 1"
    );
    assert!(after_edit(true, false, "").is_ok());
}

#[test]
fn check_add_rules() {
    assert_eq!(check_add(PluginsEntry::Missing, false, "p").unwrap(), true);
    assert_eq!(check_add(PluginsEntry::Table, false, "p").unwrap(), false);
    assert_eq!(
        check_add(PluginsEntry::Table, true, "p").unwrap_err().to_string(),
        "plugin with name `p` already exists"
    );
    assert_eq!(
        check_add(PluginsEntry::Other, false, "p").unwrap_err().to_string(),
        "current `plugins` entry is not a table"
    );
}

#[test]
fn global_builder() {
    let g = Global::new()
        .root(PathBuf::from("/r"))
        .apply(vec!["PATH".to_string()])
        .template("a".to_string(), "x".to_string())
        .template("a".to_string(), "y".to_string());
    assert_eq!(g.root, Some(PathBuf::from("/r")));
    assert_eq!(g.apply, vec!["PATH".to_string()]);
    assert_eq!(g.templates, vec![("a".to_string(), "y".to_string())]);
    assert_eq!(g.matches[0], "{{ name }}.plugin.zsh");
    let g = g.matches(vec!["*.sh".to_string()]);
    assert_eq!(g.matches, vec!["*.sh".to_string()]);
}

#[test]
fn temp_path_next_to_target() {
    let t = TempPath::new_force(&PathBuf::from("/data/repos/x"));
    assert_eq!(t.path().to_string(), "/data/repos/~x");
    let u = TempPath::new_unchecked(PathBuf::from("/a"));
    assert_eq!(u.path(), &PathBuf::from("/a"));
}

#[test]
fn app_decisions() {
    assert!(must_lock(true, false));
    assert!(must_lock(false, true));
    assert!(!must_lock(false, false));
    assert!(writes_lock_file(true, true));
    assert!(!writes_lock_file(true, false));
    let errors = vec![Error::custom("a".to_string()), Error::custom("b".to_string())];
    let (rest, last) = split_lock_errors(errors).unwrap();
    assert_eq!(rest.len(), 1);
    assert_eq!(last.to_string(), "b");
    assert!(split_lock_errors(vec![]).is_none());
    let lines = report(
        true,
        &vec![Error::custom("w".to_string())],
        &Err(Error::custom("e".to_string())),
    );
    assert_eq!(
        lines,
        vec![
            LogLine::Plain("\nWARNING: w".to_string()),
            LogLine::Plain("\nERROR: e".to_string())
        ]
    );
}

#[test]
fn text_helpers() {
    assert_eq!(usize_to_string(0), "0");
    assert_eq!(usize_to_string(1207), "1207");
    assert_eq!(with_trailing_newline("a".to_string()), "a\n");
    assert_eq!(with_trailing_newline("a\n".to_string()), "a\n");
}

#[test]
fn only_lock_and_source_need_the_mutex() {
    assert!(needs_mutex(&Command::Lock));
    assert!(needs_mutex(&Command::Source));
    assert!(!needs_mutex(&Command::Edit));
    assert!(!needs_mutex(&Command::Remove { name: "a".to_string() }));
    assert!(!needs_mutex(&Command::Init { shell: None }));
}
