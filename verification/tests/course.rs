use cpp_build::course::{Action, Event, Plan, Stage, PACKAGE_VERSION};
use cpp_build::declarations::{Closure, ClosureSig, Declarations};
use cpp_build::generate::{gen_cpp_lib, FlagBits, Origin, Part, Protocol};
use cpp_build::{build, Config};
use std::path::PathBuf;

fn plan(version: &str) -> Plan {
    Plan {
        crate_root: PathBuf::from("src/main.rs"),
        lib_name: "libgen.a".to_string(),
        exit_on_compile_error: true,
        protocol: Protocol {
            file_hash: 5,
            magic: vec![1, 2],
            version: version.to_string(),
            flags: FlagBits {
                is_copy_constructible: 0,
                is_default_constructible: 1,
                is_trivially_destructible: 2,
                is_trivially_copyable: 3,
                is_trivially_default_constructible: 4,
            },
        },
        origin: Origin {
            file: "gen.rs".to_string(),
            callback_table: 1,
            void_closure: 2,
            value_closure: 3,
            metadata: 4,
        },
    }
}

fn void_closure(name_hash: u64, body: &str) -> Closure {
    Closure {
        sig: ClosureSig {
            captures: vec![],
            cpp: "void".to_string(),
            std_body: body.to_string(),
        },
        body_str: body.to_string(),
        callback_offset: 0,
        name_hash,
        extern_name: format!("__cpp_closure_{}", name_hash),
    }
}

/// The second closure collides with the first.
fn declarations() -> Declarations {
    Declarations {
        closures: vec![void_closure(1, "a();"), void_closure(1, "b();")],
        classes: vec![],
        snippets: "int x;".to_string(),
        callbacks_count: 0,
    }
}

fn dir() -> PathBuf {
    PathBuf::from("/out/rust_cpp")
}

fn source_file() -> PathBuf {
    PathBuf::from("/out/rust_cpp/cpp_closures.cpp")
}

fn files_of(config: &Config) -> Vec<PathBuf> {
    config.cc().get_files().map(|f| f.to_path_buf()).collect()
}

fn config() -> Config {
    Config::new(PathBuf::from("/crate"))
}

fn abort_of(stage: Stage, event: Event) -> String {
    match config().build(&plan(PACKAGE_VERSION), stage, event) {
        (Stage::Over, Action::Abort(message)) => message,
        _ => panic!("the build goes on"),
    }
}

fn failed<T>() -> Result<T, String> {
    Err("Os { code: 13 }".to_string())
}

fn good_build(existed: bool) {
    let plan = plan(PACKAGE_VERSION);
    let (mut config, stage, action) = build(PathBuf::from("/crate"), &plan);
    match action {
        Action::Locate(name) => assert_eq!(name, "rust_cpp"),
        _ => panic!("not located"),
    }
    let (stage, action) = config.build(&plan, stage, Event::Located(dir()));
    match action {
        Action::Probe(probed) => assert_eq!(probed, dir()),
        _ => panic!("not probed"),
    }
    let (mut stage, mut action) = config.build(&plan, stage, Event::Probed(existed));
    if existed {
        match action {
            Action::RemoveDir(removed) => assert_eq!(removed, dir()),
            _ => panic!("not removed"),
        }
        (stage, action) = config.build(&plan, stage, Event::Removed(Ok(())));
    }
    match action {
        Action::CreateDir(created) => assert_eq!(created, dir()),
        _ => panic!("not created"),
    }
    let (stage, action) = config.build(&plan, stage, Event::Created(Ok(())));
    match action {
        Action::Parse(root) => assert_eq!(root, PathBuf::from("src/main.rs")),
        _ => panic!("not parsed"),
    }
    let (stage, action) = config.build(&plan, stage, Event::Parsed(Ok(declarations())));
    match action {
        Action::CreateFile { dir: parent, name } => {
            assert_eq!(parent, dir());
            assert_eq!(name, "cpp_closures.cpp");
        }
        _ => panic!("no file created"),
    }
    let parts = gen_cpp_lib(&declarations(), &plan.protocol, &plan.origin);
    assert_eq!(parts.len(), 4);
    let (mut stage, mut action) = config.build(&plan, stage, Event::Opened(Ok(source_file())));
    for expected in &parts {
        match action {
            Action::Write(part) => {
                assert_eq!(part.text, expected.text);
                assert_eq!(part.warnings, expected.warnings);
            }
            _ => panic!("not written"),
        }
        assert_eq!(files_of(&config).len(), 0);
        (stage, action) = config.build(&plan, stage, Event::Written(Ok(())));
    }
    match action {
        Action::Compile(name) => assert_eq!(name, "libgen.a"),
        _ => panic!("not compiled"),
    }
    assert_eq!(files_of(&config), vec![source_file()]);
    assert!(format!("{:?}", config.cc()).contains("IfSupported(\"-std=c++11\")"));
    let (stage, action) = config.build(&plan, stage, Event::Compiled(Ok(())));
    assert!(matches!(stage, Stage::Over));
    assert!(matches!(action, Action::Finish));
}

#[test]
fn a_first_build() {
    good_build(false);
}

#[test]
fn a_later_build() {
    good_build(true);
}

#[test]
fn versions_that_differ() {
    match build(PathBuf::from("/crate"), &plan("0.5.8")) {
        (_, Stage::Over, Action::Abort(message)) => assert_eq!(
            message,
            "assertion `left == right` failed: Internal Error: mismatched cpp_common and cpp_build versions\n  left: \"0.5.9\"\n right: \"0.5.8\""
        ),
        _ => panic!("the build goes on"),
    }
}

#[test]
fn failures_with_files() {
    assert_eq!(
        abort_of(Stage::Removing(dir()), Event::Removed(failed())),
        "\n-- rust-cpp fatal error --\n\nFailed to remove existing build artifacts from output directory.: Os { code: 13 }"
    );
    assert_eq!(
        abort_of(Stage::Creating(dir()), Event::Created(failed())),
        "\n-- rust-cpp fatal error --\n\nFailed to create output object directory.: Os { code: 13 }"
    );
    assert_eq!(
        abort_of(Stage::Opening(declarations()), Event::Opened(failed())),
        "Unable to generate temporary C++ file: Os { code: 13 }"
    );
    assert_eq!(
        abort_of(
            Stage::Writing { file: source_file(), rest: vec![] },
            Event::Written(failed())
        ),
        "called `Result::unwrap()` on an `Err` value: Os { code: 13 }"
    );
}

#[test]
fn a_crate_that_cannot_be_parsed() {
    let mut config = config();
    let before = format!("{:?}", config.cc());
    let error = "line 1\nline 2".to_string();
    match config.build(&plan(PACKAGE_VERSION), Stage::Parsing(dir()), Event::Parsed(Err(error))) {
        (Stage::Over, Action::Warn(lines)) => assert_eq!(
            lines,
            vec![
                "cargo:warning=-- rust-cpp parse error --",
                "cargo:warning=There was an error parsing the crate for the rust-cpp build script:",
                "cargo:warning=line 1",
                "cargo:warning=line 2",
                "cargo:warning=In order to provide a better error message, the build script will exit successfully, such that rustc can provide an error message.",
            ]
        ),
        _ => panic!("the build goes on"),
    }
    assert_eq!(format!("{:?}", config.cc()), before);
}

#[test]
fn a_source_that_cannot_be_compiled() {
    match config().build(
        &plan(PACKAGE_VERSION),
        Stage::Compiling,
        Event::Compiled(Err("no compiler".to_string())),
    ) {
        (Stage::Over, Action::Exit { message, code }) => {
            assert_eq!(message, "\n\nerror occurred: no compiler\n\n\n");
            assert_eq!(code, 1);
        }
        _ => panic!("the build goes on"),
    }
}

#[test]
fn a_documentation_build_goes_on_without_a_library() {
    let mut plan = plan(PACKAGE_VERSION);
    plan.exit_on_compile_error = false;
    let failure = Event::Compiled(Err("no compiler".to_string()));
    match config().build(&plan, Stage::Compiling, failure) {
        (Stage::Over, Action::Report(message)) => {
            assert_eq!(message, "\n\nerror occurred: no compiler\n\n\n");
        }
        _ => panic!("the process ends"),
    }
}

#[test]
fn leftovers_are_removed_before_the_crate_is_parsed() {
    let plan = plan(PACKAGE_VERSION);
    let mut config = config();
    let (stage, _) = config.build(&plan, Stage::Ready, Event::Begun);
    let (stage, _) = config.build(&plan, stage, Event::Located(dir()));
    let (stage, _) = config.build(&plan, stage, Event::Probed(true));
    assert!(matches!(stage, Stage::Removing(_)));
    let (stage, _) = config.build(&plan, stage, Event::Removed(Ok(())));
    assert!(matches!(stage, Stage::Creating(_)));
    let (stage, _) = config.build(&plan, stage, Event::Created(Ok(())));
    match stage {
        Stage::Parsing(kept) => assert_eq!(kept, dir()),
        _ => panic!("not parsed"),
    }
}

#[test]
fn a_failed_write_leaves_later_warnings_unprinted() {
    let plan = plan(PACKAGE_VERSION);
    let mut config = config();
    let opened = Event::Opened(Ok(source_file()));
    let (stage, action) = config.build(&plan, Stage::Opening(declarations()), opened);
    match action {
        Action::Write(part) => assert!(part.warnings.is_empty()),
        _ => panic!("not written"),
    }
    // The collision is met two parts later.
    match config.build(&plan, stage, Event::Written(failed())) {
        (Stage::Over, Action::Abort(message)) => assert_eq!(
            message,
            "called `Result::unwrap()` on an `Err` value: Os { code: 13 }"
        ),
        _ => panic!("the build goes on"),
    }
    assert_eq!(files_of(&config).len(), 0);
}

#[test]
fn parts_are_written_in_their_order() {
    let plan = plan(PACKAGE_VERSION);
    let mut config = config();
    let part = |text: &str| Part { warnings: vec![], text: text.to_string() };
    let stage = Stage::Writing { file: source_file(), rest: vec![part("b"), part("c")] };
    let (stage, action) = config.build(&plan, stage, Event::Written(Ok(())));
    match action {
        Action::Write(part) => assert_eq!(part.text, "b"),
        _ => panic!("not written"),
    }
    let (stage, action) = config.build(&plan, stage, Event::Written(Ok(())));
    match action {
        Action::Write(part) => assert_eq!(part.text, "c"),
        _ => panic!("not written"),
    }
    assert_eq!(files_of(&config).len(), 0);
    let (stage, _) = config.build(&plan, stage, Event::Written(Ok(())));
    assert!(matches!(stage, Stage::Compiling));
    assert_eq!(files_of(&config), vec![source_file()]);
}
