use rbuild::build::{
    build_directory_name, identity_digest, tag_outcome, Build, BuildContext, BuildCreateError,
    BuildError, BuildResult, BuildStep, BuildStepError, LibraryType, LinkSearchKind, MesonBuild,
    StepIdentity,
};
use rbuild::encoding::{hash_token, replace_separator, to_be_bytes};
use rbuild::source::{
    BuildSource, BuildSourceDirectory, BuildSourceDirectoryError, DirectoryProbe,
};
use rbuild::util::BuildEnvironment;
use std::collections::hash_map::DefaultHasher;
use std::hash::Hasher;

fn directory(path: &str) -> Box<BuildSourceDirectory> {
    Box::new(
        BuildSourceDirectory::new(
            path.to_owned(),
            DirectoryProbe { exists: true, is_directory: true, readable: true },
        )
        .unwrap(),
    )
}

/// A step with the name and the options of the tool's step, whose work is
/// to say what it was asked.
struct Recording {
    inner: MesonBuild,
    name: String,
    outcome: Option<String>,
}

fn step(name: &str, options: &[(&str, &str)], outcome: Option<&str>) -> Box<Recording> {
    let mut builder = MesonBuild::builder();
    for (key, value) in options {
        builder = builder.meson_option(key, value);
    }
    Box::new(Recording {
        inner: builder.build(),
        name: name.to_owned(),
        outcome: outcome.map(|o| o.to_owned()),
    })
}

impl BuildStep for Recording {
    fn name(&self) -> &str {
        &self.name
    }

    fn hash(&self, hasher: &mut DefaultHasher) {
        self.inner.hash(hasher)
    }

    fn execute(&mut self, build: &BuildContext, result: &mut BuildResult) -> Result<(), BuildStepError> {
        result.add_emit(format!("{} ran for {}", self.name, build.name()));
        match &self.outcome {
            Some(detail) => Err(BuildStepError::new_simple(detail)),
            None => Ok(()),
        }
    }
}

struct FailingSource {}

impl BuildSource for FailingSource {
    fn name(&self) -> &str {
        "failing"
    }

    fn hash(&self, _target: &mut DefaultHasher) {}

    fn setup(&mut self) -> Result<(), BuildStepError> {
        Err(BuildStepError::new("no source".to_owned(), "out".to_owned(), "err".to_owned()))
    }

    fn local_directory(&self) -> &String {
        unreachable!()
    }

    fn cleanup(&mut self) {}
}

fn sample(options: &[(&str, &str)]) -> Box<Build> {
    Build::builder()
        .name("libnice")
        .source(directory("/src/libnice"))
        .install_prefix("/tmp/out".to_owned())
        .library_type(LibraryType::Static)
        .add_step(step("meson build", options, None))
        .build()
        .unwrap()
}

#[test]
fn builder_needs_name_and_source() {
    assert!(matches!(Build::builder().build(), Err(BuildCreateError::MissingName)));
    assert!(matches!(
        Build::builder().source(directory("/s")).build(),
        Err(BuildCreateError::MissingName)
    ));
    assert!(matches!(Build::builder().name("n").build(), Err(BuildCreateError::MissingSource)));
}

#[test]
fn linkage_comes_from_builder_then_environment_then_default() {
    let mut environment = BuildEnvironment::empty();
    environment.library_type = Some("StAtIc".to_owned());
    let build = Build::builder().name("n").source(directory("/s")).environment(environment).build().unwrap();
    assert_eq!(build.library_type(), LibraryType::Static);

    let mut environment = BuildEnvironment::empty();
    environment.library_type = Some("static".to_owned());
    let build = Build::builder()
        .name("n")
        .source(directory("/s"))
        .library_type(LibraryType::Shared)
        .environment(environment)
        .build()
        .unwrap();
    assert_eq!(build.library_type(), LibraryType::Shared);

    let build = Build::builder().name("n").source(directory("/s")).build().unwrap();
    assert_eq!(build.library_type(), LibraryType::Shared);
}

#[test]
fn invalid_linkage_in_the_environment_is_an_error() {
    let mut environment = BuildEnvironment::empty();
    environment.library_type = Some("dynamic".to_owned());
    let outcome = Build::builder().name("n").source(directory("/s")).environment(environment).build();
    match outcome {
        Err(BuildCreateError::InvalidEnvLibraryType(word)) => assert_eq!(word, "dynamic"),
        _ => panic!("expected an invalid linkage"),
    }
    let mut environment = BuildEnvironment::empty();
    environment.library_type = Some("dynamic".to_owned());
    let build = Build::builder()
        .name("n")
        .source(directory("/s"))
        .library_type(LibraryType::Static)
        .environment(environment)
        .build()
        .unwrap();
    assert_eq!(build.library_type(), LibraryType::Static);
}

#[test]
fn install_prefix_comes_from_builder_then_environment_then_out_dir() {
    let mut environment = BuildEnvironment::empty();
    environment.install_prefix = Some("/env".to_owned());
    environment.out_dir = Some("/out".to_owned());
    let build = Build::builder()
        .name("n")
        .source(directory("/s"))
        .install_prefix("/explicit".to_owned())
        .environment(environment)
        .build()
        .unwrap();
    assert_eq!(build.install_prefix(), &Some("/explicit".to_owned()));

    let mut environment = BuildEnvironment::empty();
    environment.install_prefix = Some("/env".to_owned());
    environment.out_dir = Some("/out".to_owned());
    let build = Build::builder().name("n").source(directory("/s")).environment(environment).build().unwrap();
    assert_eq!(build.install_prefix(), &Some("/env".to_owned()));

    let mut environment = BuildEnvironment::empty();
    environment.out_dir = Some("/out".to_owned());
    let build = Build::builder().name("n").source(directory("/s")).environment(environment).build().unwrap();
    assert_eq!(build.install_prefix(), &Some("/out".to_owned()));

    let build = Build::builder().name("n").source(directory("/s")).build().unwrap();
    assert_eq!(build.install_prefix(), &None);
}

#[test]
fn working_directory_is_named_after_name_and_hash() {
    let build = sample(&[("opt", "false")]);
    let token = base64::encode(build.build_hash().to_be_bytes()).replace("/", "_");
    assert_eq!(build.build_path(), &format!("build_libnice_{}", token));
    assert_eq!(build.name(), "libnice");
    assert_eq!(build.context().build_hash(), build.build_hash());
    assert_eq!(build_directory_name("libnice", build.build_hash()), format!("build_libnice_{}", token));
}

#[test]
fn working_directory_base_is_builder_then_out_dir_then_temp_dir() {
    let mut environment = BuildEnvironment::empty();
    environment.out_dir = Some("/out".to_owned());
    environment.temp_dir = "/tmp".to_owned();
    let build = Build::builder()
        .name("n")
        .source(directory("/s"))
        .build_path("/base".to_owned())
        .environment(environment)
        .build()
        .unwrap();
    assert!(build.build_path().starts_with("/base/build_n_"));

    let mut environment = BuildEnvironment::empty();
    environment.out_dir = Some("/out/".to_owned());
    environment.temp_dir = "/tmp".to_owned();
    let build = Build::builder().name("n").source(directory("/s")).environment(environment).build().unwrap();
    assert!(build.build_path().starts_with("/out/build_n_"));

    let mut environment = BuildEnvironment::empty();
    environment.temp_dir = "/tmp".to_owned();
    let build = Build::builder().name("n").source(directory("/s")).environment(environment).build().unwrap();
    assert!(build.build_path().starts_with("/tmp/build_n_"));
}

#[test]
fn equal_configurations_have_equal_hashes() {
    let first = sample(&[("opt", "false"), ("tests", "disabled")]);
    let second = sample(&[("tests", "disabled"), ("opt", "false")]);
    assert_eq!(first.build_hash(), second.build_hash());
    assert_eq!(first.build_path(), second.build_path());
}

#[test]
fn one_option_value_changes_hash_and_directory() {
    let first = sample(&[("opt", "false")]);
    let second = sample(&[("opt", "true")]);
    assert_ne!(first.build_hash(), second.build_hash());
    assert_ne!(first.build_path(), second.build_path());
}

#[test]
fn every_part_of_the_identity_reaches_the_hash() {
    let base = sample(&[("opt", "false")]);
    let other_name = Build::builder()
        .name("libsrtp")
        .source(directory("/src/libnice"))
        .install_prefix("/tmp/out".to_owned())
        .library_type(LibraryType::Static)
        .add_step(step("meson build", &[("opt", "false")], None))
        .build()
        .unwrap();
    let other_source = Build::builder()
        .name("libnice")
        .source(directory("/src/other"))
        .install_prefix("/tmp/out".to_owned())
        .library_type(LibraryType::Static)
        .add_step(step("meson build", &[("opt", "false")], None))
        .build()
        .unwrap();
    let other_prefix = Build::builder()
        .name("libnice")
        .source(directory("/src/libnice"))
        .library_type(LibraryType::Static)
        .add_step(step("meson build", &[("opt", "false")], None))
        .build()
        .unwrap();
    let other_linkage = Build::builder()
        .name("libnice")
        .source(directory("/src/libnice"))
        .install_prefix("/tmp/out".to_owned())
        .library_type(LibraryType::Shared)
        .add_step(step("meson build", &[("opt", "false")], None))
        .build()
        .unwrap();
    let other_step_name = Build::builder()
        .name("libnice")
        .source(directory("/src/libnice"))
        .install_prefix("/tmp/out".to_owned())
        .library_type(LibraryType::Static)
        .add_step(step("other", &[("opt", "false")], None))
        .build()
        .unwrap();
    let more_steps = Build::builder()
        .name("libnice")
        .source(directory("/src/libnice"))
        .install_prefix("/tmp/out".to_owned())
        .library_type(LibraryType::Static)
        .add_step(step("meson build", &[("opt", "false")], None))
        .add_step(step("meson build", &[("opt", "false")], None))
        .build()
        .unwrap();
    for other in [&other_name, &other_source, &other_prefix, &other_linkage, &other_step_name, &more_steps] {
        assert_ne!(base.build_hash(), other.build_hash());
    }
}

#[test]
fn hash_is_the_digest_of_the_identity() {
    let build = sample(&[("opt", "false")]);
    let mut source_hasher = DefaultHasher::new();
    source_hasher.write(b"/src/libnice");
    assert_eq!(build.source_hash(), source_hasher.finish());
    let mut step_hasher = DefaultHasher::new();
    step_hasher.write(b"opt");
    step_hasher.write(b"false");
    let steps = build.step_identities();
    assert_eq!(steps.len(), 1);
    assert_eq!(steps[0].name, "meson build");
    assert_eq!(steps[0].hash, step_hasher.finish());

    let mut expected = DefaultHasher::new();
    expected.write(b"libnice");
    expected.write(&build.source_hash().to_be_bytes());
    expected.write(&[1u8]);
    expected.write(b"/tmp/out");
    expected.write(&[0u8]);
    expected.write(&0u64.to_be_bytes());
    expected.write(b"meson build");
    expected.write(&steps[0].hash.to_be_bytes());
    assert_eq!(build.build_hash(), expected.finish());
    assert_eq!(
        identity_digest(
            "libnice",
            build.source_hash(),
            &Some("/tmp/out".to_owned()),
            LibraryType::Static,
            &vec![StepIdentity { name: "meson build".to_owned(), hash: steps[0].hash }]
        ),
        build.build_hash()
    );
}

#[test]
fn hash_token_is_base64_without_separator() {
    assert_eq!(hash_token(0), "AAAAAAAAAAA=");
    assert_eq!(hash_token(u64::MAX), "__________8=");
    assert_eq!(hash_token(0x0102030405060708), "AQIDBAUGBwg=");
    assert_eq!(to_be_bytes(0x0102030405060708), vec![1u8, 2, 3, 4, 5, 6, 7, 8]);
    assert_eq!(replace_separator("a/b+c/="), "a_b+c_=");
    for hash in [1u64, 62, 63, 255, 0xfbff_ffff_ffff_ffff, 0xdead_beef_0bad_f00d] {
        assert_eq!(hash_token(hash), base64::encode(hash.to_be_bytes()).replace("/", "_"));
    }
}

#[test]
fn steps_run_in_order_until_the_first_failure() {
    let mut build = Build::builder()
        .name("n")
        .source(directory("/s"))
        .add_step(step("first", &[], None))
        .add_step(step("second", &[], Some("second broke")))
        .add_step(step("third", &[], None))
        .build()
        .unwrap();
    let error = build.execute().unwrap_err();
    assert_eq!(error.step(), "second");
    assert_eq!(error.error().detail(), "second broke");
    assert_eq!(error.pretty_format(), "Build step \"second\" errored: second broke\n");
}

#[test]
fn all_steps_succeeding_returns_what_they_produced() {
    let mut build = Build::builder()
        .name("n")
        .source(directory("/s"))
        .add_step(step("first", &[], None))
        .add_step(step("second", &[], None))
        .build()
        .unwrap();
    let hash = build.build_hash();
    let result = build.execute().unwrap();
    assert_eq!(result.emits(), &vec!["first ran for n".to_owned(), "second ran for n".to_owned()]);
    assert_eq!(build.build_hash(), hash);
}

#[test]
fn failing_source_is_reported_as_source_setup() {
    let mut build = Build::builder()
        .name("n")
        .source(Box::new(FailingSource {}))
        .add_step(step("first", &[], None))
        .build()
        .unwrap();
    let error = build.execute().unwrap_err();
    assert_eq!(error.step(), "source setup");
    assert_eq!(
        error.pretty_format(),
        "Build step \"source setup\" errored: no source\n----------------- Stdout -----------------\nout----------------- Stderr -----------------\nerr"
    );
}

#[test]
fn outcome_is_tagged_with_the_phase() {
    assert!(tag_outcome("x", Ok(())).is_ok());
    let error: BuildError = tag_outcome(
        "x",
        Err(BuildStepError::new("d".to_owned(), String::new(), "e".to_owned())),
    )
    .unwrap_err();
    assert_eq!(error.step(), "x");
    assert_eq!(
        error.pretty_format(),
        "Build step \"x\" errored: d\n----------------- Stderr -----------------\ne"
    );
}

#[test]
fn working_directory_is_removed_unless_kept() {
    let build = Build::builder().name("n").source(directory("/s")).build().unwrap();
    let path = build.build_path().clone();
    assert!(!build.context().build_directory().is_released());
    assert_eq!(build.finish(), Some(path));

    let kept = Build::builder().name("n").source(directory("/s")).remove_build_dir(false).build().unwrap();
    assert!(kept.context().build_directory().is_released());
    assert_eq!(kept.finish(), None);
}

#[test]
fn directory_source_is_checked_against_the_probe() {
    let probe = |exists, is_directory, readable| DirectoryProbe { exists, is_directory, readable };
    assert_eq!(
        BuildSourceDirectory::new("/s".to_owned(), probe(false, false, false)).unwrap_err(),
        BuildSourceDirectoryError::TargetDoesNotExists
    );
    assert_eq!(
        BuildSourceDirectory::new("/s".to_owned(), probe(true, false, true)).unwrap_err(),
        BuildSourceDirectoryError::TargetIsNotADirectory
    );
    assert_eq!(
        BuildSourceDirectory::new("/s".to_owned(), probe(true, true, false)).unwrap_err(),
        BuildSourceDirectoryError::DirectoryNotAccessable
    );
    let mut source = BuildSourceDirectory::new("/s".to_owned(), probe(true, true, true)).unwrap();
    assert_eq!(source.name(), "directory");
    assert!(source.setup().is_ok());
    assert!(source.setup().is_ok());
    assert_eq!(source.local_directory(), "/s");
    source.cleanup();
    assert_eq!(source.local_directory(), "/s");
}

#[test]
fn result_is_handed_to_the_host_line_by_line() {
    let mut result = BuildResult::new();
    result.add_library("nice".to_owned(), Some(LibraryType::Shared));
    result.add_library("plain".to_owned(), None);
    result.add_library_path("/a".to_owned(), None);
    result.add_library_path("/b".to_owned(), Some(LinkSearchKind::Framework));
    result.add_emit("rerun-if-changed=build.rs".to_owned());
    assert_eq!(result.libraries()[0].to_string(), "dylib=nice");
    assert_eq!(result.libraries()[1].to_string(), "plain");
    assert_eq!(result.library_paths()[0].to_string(), "/a");
    assert_eq!(result.library_paths()[0].kind(), LinkSearchKind::All);
    assert_eq!(result.library_paths()[1].to_string(), "framework=/b");
    assert_eq!(
        result.cargo_lines(),
        vec![
            "cargo:rustc-link-search=/a".to_owned(),
            "cargo:rustc-link-search=framework=/b".to_owned(),
            "cargo:rustc-link-lib=dylib=nice".to_owned(),
            "cargo:rustc-link-lib=plain".to_owned(),
            "cargo:rerun-if-changed=build.rs".to_owned(),
        ]
    );
    assert_eq!(LibraryType::Static.to_string(), "static");
    assert_eq!(LibraryType::Shared.to_string(), "dylib");
    let kinds = [
        (LinkSearchKind::Dependency, "dependency"),
        (LinkSearchKind::Crate, "crate"),
        (LinkSearchKind::Native, "native"),
        (LinkSearchKind::Framework, "framework"),
        (LinkSearchKind::All, "all"),
    ];
    for (kind, word) in kinds {
        assert_eq!(kind.to_string(), word);
    }
}

#[test]
fn step_errors_keep_what_they_are_given() {
    let simple = BuildStepError::new_simple("detail");
    assert_eq!((simple.detail(), simple.stdout(), simple.stderr()), ("detail", "", ""));
    let io = BuildStepError::new_io("detail", "No such file or directory");
    assert_eq!(
        (io.detail(), io.stdout(), io.stderr()),
        ("detail", "", "IOError: No such file or directory")
    );
    let full = BuildStepError::new("d".to_owned(), "o".to_owned(), "e".to_owned());
    assert_eq!((full.detail(), full.stdout(), full.stderr()), ("d", "o", "e"));
}
