use rbuild::build::{
    Build, BuildContext, BuildResult, BuildStep, BuildStepError, LibraryType, MesonAction,
    MesonBuild, MesonEvent, MesonSite,
};
use rbuild::source::{
    check_git, BuildSource, BuildSourceGit, GitAction, GitEvent, GitProbe,
};
use rbuild::util::{env_var_names, resolve_env_var, BuildEnvironment};
use std::cell::RefCell;
use std::collections::hash_map::DefaultHasher;
use std::collections::HashMap;
use std::rc::Rc;

/// The variables that are set, in place of the environment of the process.
fn environment(build_name: &str, variables: &HashMap<String, String>) -> BuildEnvironment {
    let lookup = |key: &str| {
        let (specific, general) = env_var_names(build_name, key);
        resolve_env_var(variables.get(&specific).cloned(), variables.get(&general).cloned())
    };
    BuildEnvironment {
        library_type: lookup("library_type"),
        install_prefix: lookup("install_prefix"),
        out_dir: variables.get("OUT_DIR").cloned(),
        temp_dir: "/tmp".to_owned(),
    }
}

/// A git source whose repository is cloned without fail.
struct ScriptedGit {
    inner: BuildSourceGit,
    log: Rc<RefCell<Vec<String>>>,
}

impl BuildSource for ScriptedGit {
    fn name(&self) -> &str {
        self.inner.name()
    }

    fn hash(&self, target: &mut DefaultHasher) {
        self.inner.hash(target)
    }

    fn setup(&mut self) -> Result<(), BuildStepError> {
        let git = check_git(GitProbe::Ran { stdout: "git version 2.30.0\n".to_owned() });
        let (mut progress, mut action) =
            self.inner.begin_setup(&git, &environment("", &HashMap::new()));
        loop {
            let event = match action {
                GitAction::CreateDirectory(_) | GitAction::RemoveDirectory(_) => {
                    GitEvent::Directory(Ok(()))
                }
                GitAction::ProbeExists(_) => GitEvent::Exists(false),
                GitAction::Run(command) => {
                    self.log.borrow_mut().push(format!("git {}", command.arguments.join(" ")));
                    GitEvent::Command(Ok((String::new(), String::new())))
                }
                GitAction::Finish(outcome) => return outcome,
            };
            let next = self.inner.advance_setup(progress, event);
            progress = next.0;
            action = next.1;
        }
    }

    fn local_directory(&self) -> &String {
        self.inner.local_directory()
    }

    fn cleanup(&mut self) {
        self.inner.cleanup()
    }
}

/// A step of the tool whose first `failing_setups` setups ask for a
/// promotion and whose install reports `install_output`.
struct ScriptedMeson {
    inner: MesonBuild,
    failing_setups: usize,
    install_output: String,
    log: Rc<RefCell<Vec<String>>>,
}

impl BuildStep for ScriptedMeson {
    fn name(&self) -> &str {
        self.inner.name()
    }

    fn hash(&self, hasher: &mut DefaultHasher) {
        self.inner.hash(hasher)
    }

    fn execute(&mut self, build: &BuildContext, result: &mut BuildResult) -> Result<(), BuildStepError> {
        let place = MesonSite::of(build).expect("invalid install prefix");
        let (mut progress, mut action) = self.inner.begin(&place);
        let mut setups = 0;
        loop {
            let event = match action {
                MesonAction::Run(command) => {
                    self.log.borrow_mut().push(format!("meson {}", command.arguments.join(" ")));
                    match command.arguments[0].as_str() {
                        "setup" => {
                            setups += 1;
                            if setups <= self.failing_setups {
                                MesonEvent::Command(Err(BuildStepError::new(
                                    command.error_detail,
                                    "ERROR: run meson wrap promote subprojects/glib-2.64.2/subprojects/zlib.wrap\n".to_owned(),
                                    String::new(),
                                )))
                            } else {
                                MesonEvent::Command(Ok((String::new(), String::new())))
                            }
                        }
                        "install" => {
                            MesonEvent::Command(Ok((self.install_output.clone(), String::new())))
                        }
                        _ => MesonEvent::Command(Ok((String::new(), String::new()))),
                    }
                }
                MesonAction::ProbeDirectories(paths) => {
                    MesonEvent::Directories(paths.iter().map(|_| true).collect())
                }
                MesonAction::Finish(outcome) => return outcome,
            };
            let next = self.inner.advance(&place, progress, event, result);
            progress = next.0;
            action = next.1;
        }
    }
}

#[test]
fn test_build_srtp() {
    let base_url = "/current/__test_meson".to_owned();
    let log = Rc::new(RefCell::new(Vec::new()));

    let mut variables = HashMap::new();
    variables.insert("rbuild_eson-test-srtp_library_type".to_owned(), "static".to_owned());

    let source = BuildSourceGit::builder("https://github.com/cisco/libsrtp.git".to_owned())
        .checkout_folder(Some(base_url.clone()))
        .skip_revision_checkout(true)
        .build();

    let meson_step = MesonBuild::builder().meson_option("sctp_build_programs", "false").build();

    let build = Build::builder()
        .name("meson-test-srtp")
        .source(Box::new(ScriptedGit { inner: source, log: log.clone() }))
        .install_prefix(format!("{}/install_root", base_url))
        .build_path(base_url.clone())
        .add_step(Box::new(ScriptedMeson {
            inner: meson_step,
            failing_setups: 0,
            install_output: "Installing libsrtp2.so to /current/__test_meson/install_root/lib\n"
                .to_owned(),
            log: log.clone(),
        }))
        .remove_build_dir(false)
        .environment(environment("meson-test-srtp", &variables))
        .build();

    let mut build = build.expect("failed to create build");
    assert_eq!(build.library_type(), LibraryType::Shared);
    assert!(build.context().build_directory().is_released());
    match build.execute() {
        Err(error) => {
            println!("{}", error.pretty_format());
            panic!();
        }
        Ok(result) => {
            assert_eq!(
                result.cargo_lines(),
                vec![
                    "cargo:rustc-link-search=native=/current/__test_meson/install_root/lib"
                        .to_owned(),
                    "cargo:rustc-link-lib=dylib=libsrtp2.so".to_owned(),
                ]
            );
        }
    }
    let log = log.borrow();
    assert_eq!(log.len(), 4);
    assert!(log[0].starts_with("git clone https://github.com/cisco/libsrtp.git /current/__test_meson/git_libsrtp.git_"));
    assert!(log[1].starts_with(
        "meson setup --prefix /current/__test_meson/install_root -Ddefault_library=shared -Dsctp_build_programs=false /current/__test_meson/build_meson-test-srtp_"
    ));
    assert!(log[1].contains(" /current/__test_meson/git_libsrtp.git_"));
    assert!(log[2].starts_with("meson compile -C /current/__test_meson/build_meson-test-srtp_"));
    assert!(log[3].starts_with("meson install -C /current/__test_meson/build_meson-test-srtp_"));
}

#[test]
fn test_build_libnice() {
    let base_url = "/current/__test_meson".to_owned();
    let log = Rc::new(RefCell::new(Vec::new()));

    let source = BuildSourceGit::builder("https://github.com/WolverinDEV/libnice.git".to_owned())
        .checkout_folder(Some(base_url.clone()))
        .build();

    let meson = MesonBuild::builder()
        .promote_callback(|source: &str| {
            println!("Callback promote for {:?}", source);
            vec![
                "subprojects/glib-2.64.2/subprojects/zlib.wrap".to_owned(),
                "subprojects/glib-2.64.2/subprojects/libffi.wrap".to_owned(),
                "subprojects/glib-2.64.2/subprojects/proxy-libintl.wrap".to_owned(),
            ]
        })
        .meson_option("gstreamer", "disabled")
        .meson_option("tests", "disabled")
        .build();

    let build_builder = Build::builder()
        .name("libnice")
        .source(Box::new(ScriptedGit { inner: source, log: log.clone() }))
        .add_step(Box::new(ScriptedMeson {
            inner: meson,
            failing_setups: 1,
            install_output: "Installing nice/libnice.a to /current/__test_meson/install_root_nice/lib\n"
                .to_owned(),
            log: log.clone(),
        }))
        .build_path(base_url.clone())
        .install_prefix(format!("{}/install_root_nice", base_url))
        .remove_build_dir(false);

    let mut build = build_builder.build().expect("failed to create build");
    match build.execute() {
        Err(error) => {
            println!("{}", error.pretty_format());
            panic!();
        }
        Ok(result) => {
            assert_eq!(result.libraries().len(), 1);
            assert_eq!(result.libraries()[0].to_string(), "static=libnice.a");
        }
    }
    let log = log.borrow();
    let commands: Vec<&str> =
        log.iter().map(|line| line.split(' ').take(3).collect::<Vec<_>>().join(" ")).map(|s| {
            if s.starts_with("meson setup") { "setup" } else if s.starts_with("meson wrap promote") { "promote" } else if s.starts_with("meson compile") { "compile" } else if s.starts_with("meson install") { "install" } else if s.starts_with("git clone") { "clone" } else if s.starts_with("git reset") { "reset" } else { "other" }
        }).collect();
    assert_eq!(
        commands,
        vec!["clone", "reset", "setup", "promote", "promote", "promote", "setup", "compile", "install"]
    );
    assert_eq!(log[3], "meson wrap promote subprojects/glib-2.64.2/subprojects/zlib.wrap");
    assert_eq!(log[4], "meson wrap promote subprojects/glib-2.64.2/subprojects/libffi.wrap");
    assert_eq!(log[5], "meson wrap promote subprojects/glib-2.64.2/subprojects/proxy-libintl.wrap");
}
