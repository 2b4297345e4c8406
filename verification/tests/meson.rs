use rbuild::build::manifest::{library_candidates, parse_install_manifest, record_libraries};
use rbuild::build::meson::find_promotion_argument;
use rbuild::build::{
    Build, BuildContext, BuildResult, BuildStep, BuildStepError, LibraryType, LinkSearchKind,
    MesonAction, MesonBuild, MesonEvent, MesonPhase, MesonSite,
};
use rbuild::source::{BuildSourceDirectory, DirectoryProbe};
use rbuild::util::BuildCommand;
use std::collections::hash_map::DefaultHasher;
use std::hash::Hasher;

fn site() -> MesonSite {
    MesonSite {
        install_prefix: "/tmp/out".to_owned(),
        library_type: LibraryType::Static,
        build_path: "/work/build_x".to_owned(),
        source_path: "/src/project".to_owned(),
    }
}

fn ok(stdout: &str) -> MesonEvent {
    MesonEvent::Command(Ok((stdout.to_owned(), String::new())))
}

fn failed(detail: &str, stdout: &str) -> MesonEvent {
    MesonEvent::Command(Err(BuildStepError::new(
        detail.to_owned(),
        stdout.to_owned(),
        "boom".to_owned(),
    )))
}

fn command(action: &MesonAction) -> &BuildCommand {
    match action {
        MesonAction::Run(command) => command,
        other => panic!("expected a command, got {:?}", other),
    }
}

fn arguments(action: &MesonAction) -> Vec<&str> {
    command(action).arguments.iter().map(|a| a.as_str()).collect()
}

#[test]
fn manifest_line_yields_static_library_and_search_path() {
    let files = parse_install_manifest("Installing /x/libfoo.a to /out/lib").unwrap();
    assert_eq!(files.len(), 1);
    assert_eq!(files[0].source, "/x/libfoo.a");
    assert_eq!(files[0].target, "/out/lib");
    let candidates = library_candidates(&files);
    assert_eq!(candidates.len(), 1);
    assert_eq!(candidates[0].name, "libfoo.a");
    assert_eq!(candidates[0].kind, LibraryType::Static);
    assert_eq!(candidates[0].target, "/out/lib");
    let mut result = BuildResult::new();
    record_libraries(&mut result, &candidates, &vec![true]);
    assert_eq!(result.libraries().len(), 1);
    assert_eq!(result.libraries()[0].name(), "libfoo.a");
    assert_eq!(result.libraries()[0].kind(), Some(LibraryType::Static));
    assert_eq!(result.library_paths().len(), 1);
    assert_eq!(result.library_paths()[0].path(), "/out/lib");
    assert_eq!(result.library_paths()[0].kind(), LinkSearchKind::Native);
    assert_eq!(result.library_paths()[0].to_string(), "native=/out/lib");
}

#[test]
fn manifest_line_with_two_separators_fails_and_names_the_line() {
    let error = parse_install_manifest("ok\nInstalling a to b to c\nInstalling d to e").unwrap_err();
    assert_eq!(
        error,
        "Meson line \"Installing a to b to c\" contains more than one \" to \" parts."
    );
}

#[test]
fn manifest_line_without_separator_fails_and_names_the_line() {
    let error = parse_install_manifest("Installing /x/libfoo.a\n").unwrap_err();
    assert_eq!(error, "Meson line \"Installing /x/libfoo.a\" misses the key or value.");
}

#[test]
fn manifest_first_malformed_line_wins() {
    let error = parse_install_manifest("Installing a\nInstalling a to b to c").unwrap_err();
    assert_eq!(error, "Meson line \"Installing a\" misses the key or value.");
}

#[test]
fn manifest_ignores_other_lines_and_handles_carriage_returns() {
    let files = parse_install_manifest(
        "Running custom install script\r\nInstalling a.so to /l\r\n installing b to c\nInstalling  to /m\n",
    )
    .unwrap();
    assert_eq!(files.len(), 2);
    assert_eq!(files[0].source, "a.so");
    assert_eq!(files[0].target, "/l");
    assert_eq!(files[1].source, "");
    assert_eq!(files[1].target, "/m");
}

#[test]
fn manifest_last_writer_wins_and_keeps_first_place() {
    let files = parse_install_manifest(
        "Installing a.a to /one\nInstalling b.a to /two\nInstalling a.a to /three",
    )
    .unwrap();
    assert_eq!(files.len(), 2);
    assert_eq!(files[0].source, "a.a");
    assert_eq!(files[0].target, "/three");
    assert_eq!(files[1].source, "b.a");
    assert_eq!(files[1].target, "/two");
}

#[test]
fn manifest_of_empty_output_is_empty() {
    assert_eq!(parse_install_manifest("").unwrap().len(), 0);
}

#[test]
fn candidates_follow_the_extension() {
    let files = parse_install_manifest(
        "Installing d/x.a to /1\nInstalling d/x.lib to /2\nInstalling d/x.so to /3\nInstalling d/x.dll to /4\nInstalling d/x.h to /5\nInstalling d/noext to /6\nInstalling d/.a to /7\nInstalling d.so/readme to /8\nInstalling x.so.1 to /9\nInstalling y.A to /10",
    )
    .unwrap();
    let candidates = library_candidates(&files);
    let seen: Vec<(&str, LibraryType, &str)> =
        candidates.iter().map(|c| (c.name.as_str(), c.kind, c.target.as_str())).collect();
    assert_eq!(
        seen,
        vec![
            ("x.a", LibraryType::Static, "/1"),
            ("x.lib", LibraryType::Static, "/2"),
            ("x.so", LibraryType::Shared, "/3"),
            ("x.dll", LibraryType::Shared, "/4"),
        ]
    );
}

#[test]
fn unconfirmed_targets_are_skipped() {
    let files =
        parse_install_manifest("Installing a.a to /1\nInstalling b.so to /2\nInstalling c.a to /3")
            .unwrap();
    let candidates = library_candidates(&files);
    let mut result = BuildResult::new();
    record_libraries(&mut result, &candidates, &vec![false, true]);
    assert_eq!(result.libraries().len(), 1);
    assert_eq!(result.libraries()[0].to_string(), "dylib=b.so");
    assert_eq!(result.library_paths().len(), 1);
    assert_eq!(result.library_paths()[0].path(), "/2");
}

#[test]
fn promotion_argument_is_what_follows_the_marker() {
    assert_eq!(
        find_promotion_argument("x\nrun meson wrap promote subprojects/a.wrap\nmore"),
        Some("subprojects/a.wrap".to_owned())
    );
    assert_eq!(
        find_promotion_argument("meson wrap promote a meson wrap promote b"),
        Some("a ".to_owned())
    );
    assert_eq!(find_promotion_argument("meson wrap promote"), None);
    assert_eq!(find_promotion_argument(""), None);
}

#[test]
fn setup_command_lists_prefix_linkage_options_and_paths() {
    let step = MesonBuild::builder().meson_option("opt", "false").meson_option("abc", "1").build();
    let (progress, action) = step.begin(&site());
    assert_eq!(progress.phase(), MesonPhase::Setup);
    assert_eq!(progress.rounds(), 0);
    assert_eq!(command(&action).program, "meson");
    assert_eq!(command(&action).current_dir, None);
    assert_eq!(command(&action).error_detail, "failed to setup build");
    assert_eq!(
        arguments(&action),
        vec![
            "setup",
            "--prefix",
            "/tmp/out",
            "-Ddefault_library=static",
            "-Dabc=1",
            "-Dopt=false",
            "/work/build_x",
            "/src/project"
        ]
    );
}

#[test]
fn shared_linkage_is_handed_to_the_tool() {
    let step = MesonBuild::builder().build();
    let mut place = site();
    place.library_type = LibraryType::Shared;
    let (_, action) = step.begin(&place);
    assert_eq!(
        arguments(&action),
        vec!["setup", "--prefix", "/tmp/out", "-Ddefault_library=shared", "/work/build_x", "/src/project"]
    );
}

#[test]
fn options_are_kept_in_order_and_later_values_win() {
    let step = MesonBuild::builder()
        .meson_option("tests", "enabled")
        .meson_option("gstreamer", "disabled")
        .meson_option("tests", "disabled")
        .build();
    let options: Vec<(&str, &str)> =
        step.options().iter().map(|(k, v)| (k.as_str(), v.as_str())).collect();
    assert_eq!(options, vec![("gstreamer", "disabled"), ("tests", "disabled")]);
}

#[test]
fn option_order_leaves_no_trace_in_the_hash() {
    let first = MesonBuild::builder().meson_option("a", "1").meson_option("b", "2").build();
    let second = MesonBuild::builder().meson_option("b", "2").meson_option("a", "1").build();
    let mut h1 = DefaultHasher::new();
    let mut h2 = DefaultHasher::new();
    first.hash(&mut h1);
    second.hash(&mut h2);
    assert_eq!(h1.finish(), h2.finish());
    let changed = MesonBuild::builder().meson_option("a", "1").meson_option("b", "3").build();
    let mut h3 = DefaultHasher::new();
    changed.hash(&mut h3);
    assert_ne!(h1.finish(), h3.finish());
}

#[test]
fn step_walks_setup_compile_install_probe() {
    let step = MesonBuild::builder().build();
    let place = site();
    let mut result = BuildResult::new();
    let (progress, _) = step.begin(&place);
    let (progress, action) = step.advance(&place, progress, ok(""), &mut result);
    assert_eq!(progress.phase(), MesonPhase::Compile);
    assert_eq!(arguments(&action), vec!["compile", "-C", "/work/build_x"]);
    assert_eq!(command(&action).error_detail, "failed to execute build");
    let (progress, action) = step.advance(&place, progress, ok(""), &mut result);
    assert_eq!(progress.phase(), MesonPhase::Install);
    assert_eq!(arguments(&action), vec!["install", "-C", "/work/build_x"]);
    assert_eq!(command(&action).error_detail, "failed to install build");
    let (progress, action) = step.advance(
        &place,
        progress,
        ok("Installing libfoo.a to /tmp/out/lib\nInstalling foo.h to /tmp/out/include\n"),
        &mut result,
    );
    assert_eq!(progress.phase(), MesonPhase::Probe);
    match &action {
        MesonAction::ProbeDirectories(paths) => assert_eq!(paths, &vec!["/tmp/out/lib".to_owned()]),
        other => panic!("expected a probe, got {:?}", other),
    }
    assert_eq!(result.libraries().len(), 0);
    let (progress, action) =
        step.advance(&place, progress, MesonEvent::Directories(vec![true]), &mut result);
    assert_eq!(progress.phase(), MesonPhase::Done);
    assert!(matches!(action, MesonAction::Finish(Ok(()))));
    assert_eq!(result.libraries()[0].to_string(), "static=libfoo.a");
    assert_eq!(result.library_paths()[0].to_string(), "native=/tmp/out/lib");
}

#[test]
fn failures_of_compile_and_install_are_fatal() {
    let step = MesonBuild::builder().build();
    let place = site();
    let mut result = BuildResult::new();
    let (progress, _) = step.begin(&place);
    let (progress, _) = step.advance(&place, progress, ok(""), &mut result);
    let (progress, action) =
        step.advance(&place, progress, failed("failed to execute build", "out"), &mut result);
    assert_eq!(progress.phase(), MesonPhase::Done);
    match action {
        MesonAction::Finish(Err(error)) => {
            assert_eq!(error.detail(), "failed to execute build");
            assert_eq!(error.stdout(), "out");
            assert_eq!(error.stderr(), "boom");
        }
        other => panic!("expected a failure, got {:?}", other),
    }
    let (progress, _) = step.begin(&place);
    let (progress, _) = step.advance(&place, progress, ok(""), &mut result);
    let (progress, _) = step.advance(&place, progress, ok(""), &mut result);
    let (_, action) = step.advance(&place, progress, failed("failed to install build", ""), &mut result);
    assert!(matches!(action, MesonAction::Finish(Err(_))));
}

#[test]
fn malformed_manifest_carries_the_captured_output() {
    let step = MesonBuild::builder().build();
    let place = site();
    let mut result = BuildResult::new();
    let (progress, _) = step.begin(&place);
    let (progress, _) = step.advance(&place, progress, ok(""), &mut result);
    let (progress, _) = step.advance(&place, progress, ok(""), &mut result);
    let (_, action) = step.advance(
        &place,
        progress,
        MesonEvent::Command(Ok(("Installing a to b to c".to_owned(), "warn".to_owned()))),
        &mut result,
    );
    match action {
        MesonAction::Finish(Err(error)) => {
            assert_eq!(
                error.detail(),
                "Meson line \"Installing a to b to c\" contains more than one \" to \" parts."
            );
            assert_eq!(error.stdout(), "Installing a to b to c");
            assert_eq!(error.stderr(), "warn");
        }
        other => panic!("expected a failure, got {:?}", other),
    }
}

#[test]
fn promotion_runs_each_file_and_then_sets_up_again() {
    let step = MesonBuild::builder()
        .promote_callback(|argument: &str| {
            assert_eq!(argument, "subprojects/glib/subprojects/zlib.wrap");
            vec!["one.wrap".to_owned(), "two.wrap".to_owned()]
        })
        .meson_option("tests", "disabled")
        .build();
    let place = site();
    let mut result = BuildResult::new();
    let (progress, first_setup) = step.begin(&place);
    let stdout = "ERROR\nplease run meson wrap promote subprojects/glib/subprojects/zlib.wrap\n";
    let (progress, action) =
        step.advance(&place, progress, failed("failed to setup build", stdout), &mut result);
    assert_eq!(progress.phase(), MesonPhase::Promote);
    assert_eq!(progress.rounds(), 1);
    assert_eq!(arguments(&action), vec!["wrap", "promote", "one.wrap"]);
    assert_eq!(command(&action).current_dir, Some("/src/project".to_owned()));
    assert_eq!(command(&action).error_detail, "failed to execute promote command for one.wrap");
    let (progress, action) = step.advance(&place, progress, ok(""), &mut result);
    assert_eq!(progress.phase(), MesonPhase::Promote);
    assert_eq!(arguments(&action), vec!["wrap", "promote", "two.wrap"]);
    let (progress, action) = step.advance(&place, progress, ok(""), &mut result);
    assert_eq!(progress.phase(), MesonPhase::Setup);
    assert_eq!(arguments(&action), arguments(&first_setup));
    let (progress, _) = step.advance(&place, progress, ok(""), &mut result);
    assert_eq!(progress.phase(), MesonPhase::Compile);
}

#[test]
fn empty_answer_leaves_the_setup_failure_fatal() {
    let step = MesonBuild::builder().promote_callback(|_: &str| Vec::new()).build();
    let place = site();
    let mut result = BuildResult::new();
    let (progress, _) = step.begin(&place);
    let (progress, action) = step.advance(
        &place,
        progress,
        failed("failed to setup build", "meson wrap promote x.wrap"),
        &mut result,
    );
    assert_eq!(progress.phase(), MesonPhase::Done);
    match action {
        MesonAction::Finish(Err(error)) => {
            assert_eq!(error.detail(), "failed to setup build");
            assert_eq!(error.stdout(), "meson wrap promote x.wrap");
        }
        other => panic!("expected a failure, got {:?}", other),
    }
}

#[test]
fn setup_failure_without_callback_or_marker_is_fatal() {
    let place = site();
    let mut result = BuildResult::new();
    let plain = MesonBuild::builder().build();
    let (progress, _) = plain.begin(&place);
    let (_, action) = plain.advance(
        &place,
        progress,
        failed("failed to setup build", "meson wrap promote x.wrap"),
        &mut result,
    );
    assert!(matches!(action, MesonAction::Finish(Err(_))));
    let eager = MesonBuild::builder().promote_callback(|_: &str| vec!["x".to_owned()]).build();
    let (progress, _) = eager.begin(&place);
    let (_, action) =
        eager.advance(&place, progress, failed("failed to setup build", "no hint"), &mut result);
    assert!(matches!(action, MesonAction::Finish(Err(_))));
}

#[test]
fn failed_promotion_is_fatal() {
    let step = MesonBuild::builder().promote_callback(|_: &str| vec!["x".to_owned()]).build();
    let place = site();
    let mut result = BuildResult::new();
    let (progress, _) = step.begin(&place);
    let (progress, _) =
        step.advance(&place, progress, failed("setup", "meson wrap promote x"), &mut result);
    let (progress, action) =
        step.advance(&place, progress, failed("failed to execute promote command for x", ""), &mut result);
    assert_eq!(progress.phase(), MesonPhase::Done);
    match action {
        MesonAction::Finish(Err(error)) => {
            assert_eq!(error.detail(), "failed to execute promote command for x")
        }
        other => panic!("expected a failure, got {:?}", other),
    }
}

#[test]
fn promotion_rounds_are_bounded() {
    let step = MesonBuild::builder().promote_callback(|_: &str| vec!["x".to_owned()]).build();
    let place = site();
    let mut result = BuildResult::new();
    let (mut progress, mut action) = step.begin(&place);
    let mut setups = 0;
    let mut steps = 0;
    loop {
        steps += 1;
        assert!(steps < 1000);
        let event = match &action {
            MesonAction::Run(command) if command.arguments[0] == "setup" => {
                setups += 1;
                failed("failed to setup build", "meson wrap promote x")
            }
            MesonAction::Run(_) => ok(""),
            MesonAction::ProbeDirectories(_) => MesonEvent::Directories(Vec::new()),
            MesonAction::Finish(outcome) => {
                assert!(outcome.is_err());
                break;
            }
        };
        let next = step.advance(&place, progress, event, &mut result);
        progress = next.0;
        action = next.1;
    }
    assert_eq!(setups, rbuild::build::meson::MAX_PROMOTE_ROUNDS + 1);
    assert_eq!(progress.rounds(), rbuild::build::meson::MAX_PROMOTE_ROUNDS);
}

#[test]
fn unexpected_outcome_ends_the_step() {
    let step = MesonBuild::builder().build();
    let place = site();
    let mut result = BuildResult::new();
    let (progress, _) = step.begin(&place);
    let (progress, action) =
        step.advance(&place, progress, MesonEvent::Directories(vec![true]), &mut result);
    assert_eq!(progress.phase(), MesonPhase::Done);
    assert!(matches!(action, MesonAction::Finish(Err(_))));
    let (_, action) = step.advance(&place, progress, ok(""), &mut result);
    assert!(matches!(action, MesonAction::Finish(Err(_))));
}

#[test]
fn site_needs_an_install_prefix() {
    let source = BuildSourceDirectory::new(
        "/src/project".to_owned(),
        DirectoryProbe { exists: true, is_directory: true, readable: true },
    )
    .unwrap();
    let build = Build::builder().name("n").source(Box::new(source)).build().unwrap();
    assert!(MesonSite::of(build.context()).is_none());
    let source = BuildSourceDirectory::new(
        "/src/project".to_owned(),
        DirectoryProbe { exists: true, is_directory: true, readable: true },
    )
    .unwrap();
    let build = Build::builder()
        .name("n")
        .source(Box::new(source))
        .install_prefix("/p".to_owned())
        .build_path("/w".to_owned())
        .build()
        .unwrap();
    let place = MesonSite::of(build.context()).unwrap();
    assert_eq!(place.install_prefix, "/p");
    assert_eq!(place.source_path, "/src/project");
    assert_eq!(&place.build_path, build.build_path());
    assert_eq!(place.library_type, LibraryType::Shared);
}

/// Drives the step against canned outcomes of the tool.
struct ScriptedMeson {
    inner: MesonBuild,
    install_output: String,
    commands: Vec<Vec<String>>,
}

impl BuildStep for ScriptedMeson {
    fn name(&self) -> &str {
        self.inner.name()
    }

    fn hash(&self, hasher: &mut DefaultHasher) {
        self.inner.hash(hasher)
    }

    fn execute(&mut self, build: &BuildContext, result: &mut BuildResult) -> Result<(), BuildStepError> {
        let place = MesonSite::of(build).expect("invalid install prefix");
        let (mut progress, mut action) = self.inner.begin(&place);
        loop {
            let event = match action {
                MesonAction::Run(command) => {
                    let stdout = if command.arguments[0] == "install" {
                        self.install_output.clone()
                    } else {
                        String::new()
                    };
                    self.commands.push(command.arguments);
                    MesonEvent::Command(Ok((stdout, String::new())))
                }
                MesonAction::ProbeDirectories(paths) => {
                    MesonEvent::Directories(paths.iter().map(|_| true).collect())
                }
                MesonAction::Finish(outcome) => return outcome,
            };
            let next = self.inner.advance(&place, progress, event, result);
            progress = next.0;
            action = next.1;
        }
    }
}

#[test]
fn static_build_reports_library_and_search_path() {
    let source = BuildSourceDirectory::new(
        "/src/project".to_owned(),
        DirectoryProbe { exists: true, is_directory: true, readable: true },
    )
    .unwrap();
    let step = ScriptedMeson {
        inner: MesonBuild::builder().meson_option("opt", "false").build(),
        install_output: "Installing src/libproject.a to /tmp/out/lib\n".to_owned(),
        commands: Vec::new(),
    };
    let mut build = Build::builder()
        .name("project")
        .source(Box::new(source))
        .library_type(LibraryType::Static)
        .install_prefix("/tmp/out".to_owned())
        .build_path("/work".to_owned())
        .add_step(Box::new(step))
        .build()
        .expect("failed to create build");
    let result = build.execute().expect("build should have succeeded");
    let libraries: Vec<String> = result.libraries().iter().map(|l| l.to_string()).collect();
    assert!(libraries.contains(&"static=libproject.a".to_owned()));
    let paths: Vec<&str> = result.library_paths().iter().map(|p| p.path()).collect();
    assert!(paths.contains(&"/tmp/out/lib"));
    assert_eq!(
        result.cargo_lines(),
        vec![
            "cargo:rustc-link-search=native=/tmp/out/lib".to_owned(),
            "cargo:rustc-link-lib=static=libproject.a".to_owned()
        ]
    );
}
