use sheldon::util::path::{newer_than, PathBuf, PathBufExt, PathExt};

#[test]
fn expand_tilde_with_root() {
    assert_eq!(
        PathBuf::from("/").expand_tilde(&PathBuf::from("/test")),
        PathBuf::from("/")
    )
}

#[test]
fn expand_tilde_with_folder_in_root() {
    assert_eq!(
        PathBuf::from("/fol/der").expand_tilde(&PathBuf::from("/test")),
        PathBuf::from("/fol/der")
    )
}

#[test]
fn expand_tilde_with_home() {
    assert_eq!(
        PathBuf::from("~/").expand_tilde(&PathBuf::from("/test")),
        PathBuf::from("/test")
    )
}

#[test]
fn expand_tilde_with_folder_in_home() {
    assert_eq!(
        PathBuf::from("~/fol/der").expand_tilde(&PathBuf::from("/test")),
        PathBuf::from("/test/fol/der")
    )
}

#[test]
fn replace_home_with_root() {
    assert_eq!(
        PathBuf::from("/not/home").replace_home(&PathBuf::from("/test/home")),
        PathBuf::from("/not/home")
    )
}

#[test]
fn replace_home_with_home() {
    assert_eq!(
        PathBuf::from("/test/home").replace_home(&PathBuf::from("/test/home")),
        PathBuf::from("~")
    )
}

#[test]
fn path_round_trips_through_home() {
    let home = PathBuf::from("/home/user");
    let p = PathBuf::from("~/plugins/zsh");
    let expanded = p.duplicate().expand_tilde(&home);
    assert_eq!(expanded.to_string(), "/home/user/plugins/zsh");
    assert_eq!(expanded.replace_home(&home), p);
}

#[test]
fn path_text_drops_empty_and_dot_components() {
    assert_eq!(PathBuf::from("/a//b/./c/").to_string(), "/a/b/c");
    assert_eq!(PathBuf::from("a/b").to_string(), "a/b");
    assert_eq!(PathBuf::from("").to_string(), "");
}

#[test]
fn path_join_and_parent() {
    let base = PathBuf::from("/data");
    assert_eq!(base.join_str("repos/github.com").to_string(), "/data/repos/github.com");
    assert_eq!(base.join_str("/abs").to_string(), "/abs");
    assert_eq!(PathBuf::from("/a/b").parent().unwrap().to_string(), "/a");
    assert_eq!(PathBuf::from("/a/b").file_name().unwrap(), "b");
    let anc: Vec<String> = PathBuf::from("/a/b")
        .ancestors()
        .iter()
        .map(|p| p.to_string())
        .collect();
    assert_eq!(anc, vec!["/a/b", "/a", "/"]);
}

#[test]
fn newer_than_needs_both_times() {
    assert!(newer_than(Some(2), Some(1)));
    assert!(!newer_than(Some(1), Some(2)));
    assert!(!newer_than(None, Some(1)));
    assert!(!newer_than(Some(1), None));
}

#[test]
fn util_path_buf_expand_tilde_with_root() {
    assert_eq!(
        PathBufExt::expand_tilde(PathBuf::from("/"), &PathBuf::from("/test")),
        PathBuf::from("/")
    )
}

#[test]
fn util_path_buf_expand_tilde_with_folder_in_root() {
    assert_eq!(
        PathBufExt::expand_tilde(PathBuf::from("/fol/der"), &PathBuf::from("/test")),
        PathBuf::from("/fol/der")
    )
}

#[test]
fn util_path_buf_expand_tilde_with_home() {
    assert_eq!(
        PathBufExt::expand_tilde(PathBuf::from("~/"), &PathBuf::from("/test")),
        PathBuf::from("/test")
    )
}

#[test]
fn util_path_buf_expand_tilde_with_folder_in_home() {
    assert_eq!(
        PathBufExt::expand_tilde(PathBuf::from("~/fol/der"), &PathBuf::from("/test")),
        PathBuf::from("/test/fol/der")
    )
}

#[test]
fn util_path_buf_replace_home_with_root() {
    assert_eq!(
        PathBufExt::replace_home(PathBuf::from("/not/home"), &PathBuf::from("/test/home")),
        PathBuf::from("/not/home")
    )
}

#[test]
fn util_path_buf_replace_home_with_home() {
    assert_eq!(
        PathBufExt::replace_home(PathBuf::from("/test/home"), &PathBuf::from("/test/home")),
        PathBuf::from("~")
    )
}

#[test]
fn path_ext_path_buf_expand_tilde_with_root() {
    assert_eq!(
        PathExt::expand_tilde(&PathBuf::from("/"), &PathBuf::from("/test")),
        PathBuf::from("/")
    )
}

#[test]
fn path_ext_path_buf_expand_tilde_with_folder_in_root() {
    assert_eq!(
        PathExt::expand_tilde(&PathBuf::from("/fol/der"), &PathBuf::from("/test")),
        PathBuf::from("/fol/der")
    )
}

#[test]
fn path_ext_path_buf_expand_tilde_with_home() {
    assert_eq!(
        PathExt::expand_tilde(&PathBuf::from("~/"), &PathBuf::from("/test")),
        PathBuf::from("/test")
    )
}

#[test]
fn path_ext_path_buf_expand_tilde_with_folder_in_home() {
    assert_eq!(
        PathExt::expand_tilde(&PathBuf::from("~/fol/der"), &PathBuf::from("/test")),
        PathBuf::from("/test/fol/der")
    )
}

#[test]
fn path_ext_path_buf_replace_home_with_root() {
    assert_eq!(
        PathExt::replace_home(&PathBuf::from("/not/home"), &PathBuf::from("/test/home")),
        PathBuf::from("/not/home")
    )
}

#[test]
fn path_ext_path_buf_replace_home_with_home() {
    assert_eq!(
        PathExt::replace_home(&PathBuf::from("/test/home"), &PathBuf::from("/test/home")),
        PathBuf::from("~")
    )
}
