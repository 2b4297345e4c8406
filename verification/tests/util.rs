use rbuild::build::LibraryType;
use rbuild::text::{find, from_chars, split_lines, to_chars};
use rbuild::util::{
    build_library_type, conclude_build_command, env_var_names, install_prefix, join,
    parse_build_library_type, resolve_env_var, temporary_path_location, verbose_commands_enabled,
    BuildEnvironment, BuildLibraryTypeError, ProcessOutcome, TemporaryPath,
};

#[test]
fn linkage_words_are_read_whatever_their_case() {
    assert_eq!(parse_build_library_type("static"), Some(LibraryType::Static));
    assert_eq!(parse_build_library_type("STATIC"), Some(LibraryType::Static));
    assert_eq!(parse_build_library_type("Shared"), Some(LibraryType::Shared));
    assert_eq!(parse_build_library_type("sHaReD"), Some(LibraryType::Shared));
    assert_eq!(parse_build_library_type("dylib"), None);
    assert_eq!(parse_build_library_type(""), None);
    assert_eq!(parse_build_library_type(" static"), None);
    assert_eq!(parse_build_library_type("stat\u{130}c"), None);
}

#[test]
fn environment_names_follow_the_build() {
    assert_eq!(
        env_var_names("libnice", "library_type"),
        ("rbuild_libnice_library_type".to_owned(), "rbuild_library_type".to_owned())
    );
    assert_eq!(
        env_var_names("meson-test-srtp", "install_prefix"),
        ("rbuild_meson-test-srtp_install_prefix".to_owned(), "rbuild_install_prefix".to_owned())
    );
}

#[test]
fn own_variable_comes_before_the_general_one() {
    assert_eq!(resolve_env_var(Some("a".to_owned()), Some("b".to_owned())), Some("a".to_owned()));
    assert_eq!(resolve_env_var(None, Some("b".to_owned())), Some("b".to_owned()));
    assert_eq!(resolve_env_var(Some("a".to_owned()), None), Some("a".to_owned()));
    assert_eq!(resolve_env_var(None, None), None);
}

#[test]
fn linkage_from_the_environment() {
    let mut environment = BuildEnvironment::empty();
    assert!(matches!(build_library_type(&environment), Err(BuildLibraryTypeError::NotPresent)));
    environment.library_type = Some("static".to_owned());
    assert!(matches!(build_library_type(&environment), Ok(LibraryType::Static)));
    environment.library_type = Some("SHARED".to_owned());
    assert!(matches!(build_library_type(&environment), Ok(LibraryType::Shared)));
    environment.library_type = Some("both".to_owned());
    match build_library_type(&environment) {
        Err(BuildLibraryTypeError::InvalidValue(word)) => assert_eq!(word, "both"),
        _ => panic!("expected an invalid value"),
    }
}

#[test]
fn install_prefix_from_the_environment() {
    let mut environment = BuildEnvironment::empty();
    assert_eq!(install_prefix(&environment), None);
    environment.out_dir = Some("/out".to_owned());
    assert_eq!(install_prefix(&environment), Some("/out".to_owned()));
    environment.install_prefix = Some("/prefix".to_owned());
    assert_eq!(install_prefix(&environment), Some("/prefix".to_owned()));
}

#[test]
fn paths_are_joined_with_one_separator() {
    assert_eq!(join("/tmp", "x"), "/tmp/x");
    assert_eq!(join("/tmp/", "x"), "/tmp/x");
    assert_eq!(join("", "x"), "x");
    assert_eq!(join("/", "x"), "/x");
}

#[test]
fn working_directories_go_under_base_then_out_dir_then_temp_dir() {
    let mut environment = BuildEnvironment::empty();
    environment.temp_dir = "/tmp".to_owned();
    let base = "/base".to_owned();
    assert_eq!(temporary_path_location("f", Some(&base), &environment), "/base/f");
    assert_eq!(temporary_path_location("f", None, &environment), "/tmp/f");
    environment.out_dir = Some("/out".to_owned());
    assert_eq!(temporary_path_location("f", None, &environment), "/out/f");
    assert_eq!(temporary_path_location("f", Some(&base), &environment), "/base/f");
}

#[test]
fn unreleased_handle_dooms_its_directory_with_its_last_owner() {
    let mut handle = TemporaryPath::temporary("/tmp/x".to_owned());
    assert_eq!(handle.path(), "/tmp/x");
    assert!(!handle.is_released());
    assert!(handle.share());
    assert!(handle.share());
    assert_eq!(handle.drop_owner(), None);
    assert_eq!(handle.drop_owner(), None);
    assert_eq!(handle.drop_owner(), Some("/tmp/x".to_owned()));
    assert_eq!(handle.drop_owner(), None);
}

#[test]
fn released_handle_leaves_its_directory() {
    let mut handle = TemporaryPath::temporary("/tmp/x".to_owned());
    assert!(handle.share());
    handle.release();
    handle.release();
    assert!(handle.is_released());
    assert_eq!(handle.drop_owner(), None);
    assert_eq!(handle.drop_owner(), None);
    assert!(handle.is_released());

    let mut persistent = TemporaryPath::from_persistent("/keep".to_owned());
    assert!(persistent.is_released());
    assert_eq!(persistent.path(), "/keep");
    assert_eq!(persistent.drop_owner(), None);
}

#[test]
fn finished_commands_are_judged() {
    let ran = conclude_build_command(
        "detail",
        ProcessOutcome::Exited { success: true, stdout: "o".to_owned(), stderr: "e".to_owned() },
    );
    assert_eq!(ran.unwrap(), ("o".to_owned(), "e".to_owned()));
    let failed = conclude_build_command(
        "detail",
        ProcessOutcome::Exited { success: false, stdout: "o".to_owned(), stderr: "e".to_owned() },
    )
    .unwrap_err();
    assert_eq!((failed.detail(), failed.stdout(), failed.stderr()), ("detail", "o", "e"));
    let missing =
        conclude_build_command("detail", ProcessOutcome::SpawnFailed("not found".to_owned()))
            .unwrap_err();
    assert_eq!((missing.detail(), missing.stdout(), missing.stderr()), ("detail", "", "IOError: not found"));
    assert!(verbose_commands_enabled());
}

#[test]
fn text_is_split_into_lines() {
    let lines = |text: &str| -> Vec<String> {
        split_lines(&to_chars(text)).iter().map(|l| from_chars(l, 0, l.len())).collect()
    };
    assert_eq!(lines(""), Vec::<String>::new());
    assert_eq!(lines("a"), vec!["a"]);
    assert_eq!(lines("a\n"), vec!["a"]);
    assert_eq!(lines("a\nb"), vec!["a", "b"]);
    assert_eq!(lines("a\r\nb\r\n"), vec!["a", "b"]);
    assert_eq!(lines("\n\nx"), vec!["", "", "x"]);
    assert_eq!(lines("a\rb\r"), vec!["a\rb\r"]);
    assert_eq!(lines("\r\n"), vec![""]);
    assert_eq!(lines("h\u{e9}llo\nw\u{f6}rld"), vec!["h\u{e9}llo", "w\u{f6}rld"]);
}

#[test]
fn first_occurrence_is_found() {
    let text = to_chars("a to b to c");
    let pattern = to_chars(" to ");
    assert_eq!(find(&text, &pattern, 0), Some(1));
    assert_eq!(find(&text, &pattern, 2), Some(6));
    assert_eq!(find(&text, &pattern, 7), None);
    assert_eq!(find(&text, &pattern, 100), None);
    assert_eq!(find(&text, &to_chars(""), 11), Some(11));
    assert_eq!(find(&to_chars(""), &pattern, 0), None);
}
