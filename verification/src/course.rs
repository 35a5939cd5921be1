//! The course of a build: what is done next, given what came of the last thing done.
//!
//! A build alternates work on files and processes with decisions. The decisions are here: each call
//! of [`Config::build`] takes the stage that the build is in and what happened, and gives the next
//! stage and the work to do. [`next`] says what they are.

use crate::cc_build::no_settings;
use crate::config::{config_on, Config, ConfigView};
use crate::declarations::{Declarations, DeclarationsView};
use crate::generate::{
    gen_cpp_lib, library_parts, part_views, Origin, OriginView, Part, PartView, Protocol,
    ProtocolView,
};
use crate::text::views;
use crate::warning::{warning_lines, warnln_impl};
use std::path::PathBuf;
use vstd::prelude::*;

verus! {

/// Name of the directory, in the output directory of the build script, that holds the generated
/// files.
pub const ARTIFACTS_DIR: &'static str = "rust_cpp";

/// Name of the generated source, in the directory of the generated files.
pub const SOURCE_FILE: &'static str = "cpp_closures.cpp";

/// Version of this package. The metadata that it generates is read by companions of the same
/// version.
pub const PACKAGE_VERSION: &'static str = "0.5.9";

/// What does not change in the course of a build.
pub struct Plan {
    /// Root source file of the crate.
    pub crate_root: PathBuf,
    /// Name of the static library.
    pub lib_name: String,
    /// Whether a library that cannot be compiled ends the process. Builds that are only for
    /// documentation go on without it.
    pub exit_on_compile_error: bool,
    pub protocol: Protocol,
    pub origin: Origin,
}

/// The model of a [`Plan`].
#[verifier::ext_equal]
pub struct PlanView {
    pub crate_root: PathBuf,
    pub lib_name: Seq<char>,
    pub exit_on_compile_error: bool,
    pub protocol: ProtocolView,
    pub origin: OriginView,
}

impl View for Plan {
    type V = PlanView;

    open spec fn view(&self) -> PlanView {
        PlanView {
            crate_root: self.crate_root,
            lib_name: self.lib_name@,
            exit_on_compile_error: self.exit_on_compile_error,
            protocol: self.protocol@,
            origin: self.origin@,
        }
    }
}

/// How far a build has come: what it waits for. Where it still matters, the directory of the
/// generated files comes with it.
pub enum Stage {
    /// To be begun.
    Ready,
    /// To learn where the directory of the generated files is.
    Locating,
    /// To learn whether that directory exists.
    Probing(PathBuf),
    /// To have that directory removed.
    Removing(PathBuf),
    /// To have that directory created.
    Creating(PathBuf),
    /// To have the crate parsed.
    Parsing(PathBuf),
    /// To have the file for the source created. The source will be made from these declarations.
    Opening(Declarations),
    /// To have a part of the source written to the file.
    Writing {
        file: PathBuf,
        /// The parts that come after it.
        rest: Vec<Part>,
    },
    /// To have the library compiled.
    Compiling,
    /// Nothing: the build is over.
    Over,
}

/// The model of a [`Stage`].
#[verifier::ext_equal]
pub enum StageView {
    Ready,
    Locating,
    Probing(PathBuf),
    Removing(PathBuf),
    Creating(PathBuf),
    Parsing(PathBuf),
    Opening(DeclarationsView),
    Writing { file: PathBuf, rest: Seq<PartView> },
    Compiling,
    Over,
}

impl View for Stage {
    type V = StageView;

    open spec fn view(&self) -> StageView {
        match *self {
            Stage::Ready => StageView::Ready,
            Stage::Locating => StageView::Locating,
            Stage::Probing(dir) => StageView::Probing(dir),
            Stage::Removing(dir) => StageView::Removing(dir),
            Stage::Creating(dir) => StageView::Creating(dir),
            Stage::Parsing(dir) => StageView::Parsing(dir),
            Stage::Opening(declarations) => StageView::Opening(declarations@),
            Stage::Writing { file, rest } => StageView::Writing { file, rest: part_views(rest@) },
            Stage::Compiling => StageView::Compiling,
            Stage::Over => StageView::Over,
        }
    }
}

/// What happened. Failures come with the text of their error.
pub enum Event {
    /// The build was begun.
    Begun,
    /// The directory of the generated files was found to be here.
    Located(PathBuf),
    /// The directory was found to exist or not.
    Probed(bool),
    /// The directory was removed.
    Removed(Result<(), String>),
    /// The directory was created.
    Created(Result<(), String>),
    /// The crate was parsed.
    Parsed(Result<Declarations, String>),
    /// The file for the source was created, with this path. How it is put together from the
    /// directory and the name is up to the platform.
    Opened(Result<PathBuf, String>),
    /// The part of the source was written.
    Written(Result<(), String>),
    /// The library was compiled.
    Compiled(Result<(), String>),
}

/// The model of an [`Event`].
pub enum EventView {
    Begun,
    Located(PathBuf),
    Probed(bool),
    Removed(Result<(), Seq<char>>),
    Created(Result<(), Seq<char>>),
    Parsed(Result<DeclarationsView, Seq<char>>),
    Opened(Result<PathBuf, Seq<char>>),
    Written(Result<(), Seq<char>>),
    Compiled(Result<(), Seq<char>>),
}

/// The outcome of work, with the text of the error.
pub open spec fn outcome(result: Result<(), String>) -> Result<(), Seq<char>> {
    match result {
        Ok(()) => Ok(()),
        Err(error) => Err(error@),
    }
}

impl View for Event {
    type V = EventView;

    open spec fn view(&self) -> EventView {
        match *self {
            Event::Begun => EventView::Begun,
            Event::Located(dir) => EventView::Located(dir),
            Event::Probed(exists) => EventView::Probed(exists),
            Event::Removed(result) => EventView::Removed(outcome(result)),
            Event::Created(result) => EventView::Created(outcome(result)),
            Event::Parsed(Ok(declarations)) => EventView::Parsed(Ok(declarations@)),
            Event::Parsed(Err(error)) => EventView::Parsed(Err(error@)),
            Event::Opened(Ok(file)) => EventView::Opened(Ok(file)),
            Event::Opened(Err(error)) => EventView::Opened(Err(error@)),
            Event::Written(result) => EventView::Written(outcome(result)),
            Event::Compiled(result) => EventView::Compiled(outcome(result)),
        }
    }
}

/// What to do next.
pub enum Action {
    /// Find out where the directory of this name is, in the output directory of the build script.
    Locate(String),
    /// Find out whether the directory exists.
    Probe(PathBuf),
    /// Remove the directory with all that is in it.
    RemoveDir(PathBuf),
    /// Create the directory.
    CreateDir(PathBuf),
    /// Parse the crate with this root source file.
    Parse(PathBuf),
    /// Create the file of this name in the directory.
    CreateFile { dir: PathBuf, name: String },
    /// Print the warnings of the part, then write its text to the file that was created, after what
    /// was written before.
    Write(Part),
    /// Compile the static library of this name with the configured compiler driver.
    Compile(String),
    /// Print the warnings. The build is over and counts as a success.
    Warn(Vec<String>),
    /// Panic with this message. The build is over.
    Abort(String),
    /// Print the message to the standard error output and exit with the code. The build is over.
    Exit { message: String, code: i32 },
    /// Print the message to the standard error output. The build is over and counts as a success.
    Report(String),
    /// Nothing. The build is over and has succeeded.
    Finish,
}

/// The model of an [`Action`].
#[verifier::ext_equal]
pub enum ActionView {
    Locate(Seq<char>),
    Probe(PathBuf),
    RemoveDir(PathBuf),
    CreateDir(PathBuf),
    Parse(PathBuf),
    CreateFile { dir: PathBuf, name: Seq<char> },
    Write(PartView),
    Compile(Seq<char>),
    Warn(Seq<Seq<char>>),
    Abort(Seq<char>),
    Exit { message: Seq<char>, code: i32 },
    Report(Seq<char>),
    Finish,
}

impl View for Action {
    type V = ActionView;

    open spec fn view(&self) -> ActionView {
        match *self {
            Action::Locate(name) => ActionView::Locate(name@),
            Action::Probe(dir) => ActionView::Probe(dir),
            Action::RemoveDir(dir) => ActionView::RemoveDir(dir),
            Action::CreateDir(dir) => ActionView::CreateDir(dir),
            Action::Parse(root) => ActionView::Parse(root),
            Action::CreateFile { dir, name } => ActionView::CreateFile { dir, name: name@ },
            Action::Write(part) => ActionView::Write(part@),
            Action::Compile(lib_name) => ActionView::Compile(lib_name@),
            Action::Warn(warnings) => ActionView::Warn(views(warnings@)),
            Action::Abort(message) => ActionView::Abort(message@),
            Action::Exit { message, code } => ActionView::Exit { message: message@, code },
            Action::Report(message) => ActionView::Report(message@),
            Action::Finish => ActionView::Finish,
        }
    }
}

/// Whether a build in `stage` waits for `event`.
pub open spec fn awaits(stage: StageView, event: EventView) -> bool {
    match stage {
        StageView::Ready => event is Begun,
        StageView::Locating => event is Located,
        StageView::Probing(_) => event is Probed,
        StageView::Removing(_) => event is Removed,
        StageView::Creating(_) => event is Created,
        StageView::Parsing(_) => event is Parsed,
        StageView::Opening(_) => event is Opened,
        StageView::Writing { .. } => event is Written,
        StageView::Compiling => event is Compiled,
        StageView::Over => false,
    }
}

/// A failure that ends the build with a panic: the message, then the error.
pub open spec fn fatal(message: Seq<char>, error: Seq<char>) -> ActionView {
    ActionView::Abort(message + ": "@ + error)
}

/// The message about a metadata format of another version than this package, in the form of a
/// failed equality assertion.
pub open spec fn version_mismatch_text(version: Seq<char>) -> Seq<char> {
    "assertion `left == right` failed: Internal Error: mismatched cpp_common and cpp_build versions\n  left: \""@
        + PACKAGE_VERSION@ + "\"\n right: \""@ + version + "\""@
}

/// The warning about a crate that cannot be parsed.
pub open spec fn parse_error_text(error: Seq<char>) -> Seq<char> {
    "-- rust-cpp parse error --\nThere was an error parsing the crate for the rust-cpp build script:\n"@
        + error
        + "\nIn order to provide a better error message, the build script will exit successfully, such that rustc can provide an error message."@
}

/// The message about a library that cannot be compiled.
pub open spec fn compile_error_text(error: Seq<char>) -> Seq<char> {
    "\n\nerror occurred: "@ + error + "\n\n\n"@
}

/// The source for what was parsed, in parts.
#[verifier::opaque]
pub open spec fn source_parts(plan: PlanView, declarations: DeclarationsView) -> Seq<PartView> {
    library_parts(declarations, plan.protocol, plan.origin)
}

/// The stage after `event`, and the work to do.
pub open spec fn next(plan: PlanView, stage: StageView, event: EventView) -> (
    StageView,
    ActionView,
) {
    match (stage, event) {
        (StageView::Ready, EventView::Begun) => if plan.protocol.version == PACKAGE_VERSION@ {
            (StageView::Locating, ActionView::Locate(ARTIFACTS_DIR@))
        } else {
            (
                StageView::Over,
                ActionView::Abort(version_mismatch_text(plan.protocol.version)),
            )
        },
        (StageView::Locating, EventView::Located(dir)) => (
            StageView::Probing(dir),
            ActionView::Probe(dir),
        ),
        (StageView::Probing(dir), EventView::Probed(exists)) => if exists {
            (StageView::Removing(dir), ActionView::RemoveDir(dir))
        } else {
            (StageView::Creating(dir), ActionView::CreateDir(dir))
        },
        (StageView::Removing(dir), EventView::Removed(Ok(_))) => (
            StageView::Creating(dir),
            ActionView::CreateDir(dir),
        ),
        (StageView::Removing(_), EventView::Removed(Err(error))) => (
            StageView::Over,
            fatal(
                "\n-- rust-cpp fatal error --\n\nFailed to remove existing build artifacts from output directory."@,
                error,
            ),
        ),
        (StageView::Creating(dir), EventView::Created(Ok(_))) => (
            StageView::Parsing(dir),
            ActionView::Parse(plan.crate_root),
        ),
        (StageView::Creating(_), EventView::Created(Err(error))) => (
            StageView::Over,
            fatal(
                "\n-- rust-cpp fatal error --\n\nFailed to create output object directory."@,
                error,
            ),
        ),
        (StageView::Parsing(dir), EventView::Parsed(Ok(declarations))) => (
            StageView::Opening(declarations),
            ActionView::CreateFile { dir, name: SOURCE_FILE@ },
        ),
        (StageView::Parsing(_), EventView::Parsed(Err(error))) => (
            StageView::Over,
            ActionView::Warn(warning_lines(parse_error_text(error))),
        ),
        (StageView::Opening(declarations), EventView::Opened(Ok(file))) => (
            StageView::Writing { file, rest: source_parts(plan, declarations).drop_first() },
            ActionView::Write(source_parts(plan, declarations)[0]),
        ),
        (StageView::Opening(_), EventView::Opened(Err(error))) => (
            StageView::Over,
            fatal("Unable to generate temporary C++ file"@, error),
        ),
        (StageView::Writing { file, rest }, EventView::Written(Ok(_))) => if rest.len() > 0 {
            (StageView::Writing { file, rest: rest.drop_first() }, ActionView::Write(rest[0]))
        } else {
            (StageView::Compiling, ActionView::Compile(plan.lib_name))
        },
        (StageView::Writing { .. }, EventView::Written(Err(error))) => (
            StageView::Over,
            fatal("called `Result::unwrap()` on an `Err` value"@, error),
        ),
        (StageView::Compiling, EventView::Compiled(Err(error))) => (
            StageView::Over,
            if plan.exit_on_compile_error {
                ActionView::Exit { message: compile_error_text(error), code: 1 }
            } else {
                ActionView::Report(compile_error_text(error))
            },
        ),
        _ => (StageView::Over, ActionView::Finish),
    }
}

/// The configuration after `event`: the generated source is added once all of it is written.
pub open spec fn next_config(config: ConfigView, stage: StageView, event: EventView) -> ConfigView {
    match (stage, event) {
        (StageView::Writing { file, rest }, EventView::Written(Ok(_))) => if rest.len() == 0 {
            config.with_generated_source(file)
        } else {
            config
        },
        _ => config,
    }
}

fn fatal_message(message: &str, error: &String) -> (text: String)
    ensures
        ActionView::Abort(text@) == fatal(message@, error@),
{
    let mut text = message.to_owned();
    text.append(": ");
    text.append(error.as_str());
    text
}

fn version_mismatch(version: &String) -> (text: String)
    ensures
        text@ == version_mismatch_text(version@),
{
    let mut text =
        "assertion `left == right` failed: Internal Error: mismatched cpp_common and cpp_build versions\n  left: \"".to_owned();
    text.append(PACKAGE_VERSION);
    text.append("\"\n right: \"");
    text.append(version.as_str());
    text.append("\"");
    text
}

fn parse_error(error: &String) -> (text: String)
    ensures
        text@ == parse_error_text(error@),
{
    let mut text =
        "-- rust-cpp parse error --\nThere was an error parsing the crate for the rust-cpp build script:\n".to_owned();
    text.append(error.as_str());
    text.append(
        "\nIn order to provide a better error message, the build script will exit successfully, such that rustc can provide an error message.",
    );
    text
}

fn compile_failure(error: &String) -> (text: String)
    ensures
        text@ == compile_error_text(error@),
{
    let mut text = "\n\nerror occurred: ".to_owned();
    text.append(error.as_str());
    text.append("\n\n\n");
    text
}

/// `PathBuf::clone` returns the same path.
pub assume_specification[ <PathBuf as Clone>::clone ](path: &PathBuf) -> (copy: PathBuf)
    ensures
        copy == *path,
;

impl Config {
    /// Takes a build from one stage to the next, by what happened, and says what to do.
    ///
    /// A build extracts the `cpp` declarations of a crate, generates a C++ source for them and has
    /// it compiled to a static library. It begins with [`Stage::Ready`] and [`Event::Begun`]. A
    /// configuration may be used for more than one build, but each adds its source to those that
    /// are compiled, so a configuration of its own for each crate is the better choice.
    pub fn build(&mut self, plan: &Plan, stage: Stage, event: Event) -> (result: (Stage, Action))
        requires
            awaits(stage@, event@),
        ensures
            (result.0@, result.1@) == next(plan@, stage@, event@),
            final(self)@ == next_config(old(self)@, stage@, event@),
    {
        match (stage, event) {
            (Stage::Ready, Event::Begun) => if plan.protocol.version
                == PACKAGE_VERSION.to_owned() {
                (Stage::Locating, Action::Locate(ARTIFACTS_DIR.to_owned()))
            } else {
                (Stage::Over, Action::Abort(version_mismatch(&plan.protocol.version)))
            },
            (Stage::Locating, Event::Located(dir)) => (
                Stage::Probing(dir.clone()),
                Action::Probe(dir),
            ),
            (Stage::Probing(dir), Event::Probed(exists)) => if exists {
                (Stage::Removing(dir.clone()), Action::RemoveDir(dir))
            } else {
                (Stage::Creating(dir.clone()), Action::CreateDir(dir))
            },
            (Stage::Removing(dir), Event::Removed(Ok(_))) => (
                Stage::Creating(dir.clone()),
                Action::CreateDir(dir),
            ),
            (Stage::Removing(_), Event::Removed(Err(error))) => (
                Stage::Over,
                Action::Abort(
                    fatal_message(
                        "\n-- rust-cpp fatal error --\n\nFailed to remove existing build artifacts from output directory.",
                        &error,
                    ),
                ),
            ),
            (Stage::Creating(dir), Event::Created(Ok(_))) => (
                Stage::Parsing(dir),
                Action::Parse(plan.crate_root.clone()),
            ),
            (Stage::Creating(_), Event::Created(Err(error))) => (
                Stage::Over,
                Action::Abort(
                    fatal_message(
                        "\n-- rust-cpp fatal error --\n\nFailed to create output object directory.",
                        &error,
                    ),
                ),
            ),
            (Stage::Parsing(dir), Event::Parsed(Ok(declarations))) => (
                Stage::Opening(declarations),
                Action::CreateFile { dir, name: SOURCE_FILE.to_owned() },
            ),
            (Stage::Parsing(_), Event::Parsed(Err(error))) => (
                Stage::Over,
                Action::Warn(warnln_impl(parse_error(&error).as_str())),
            ),
            (Stage::Opening(declarations), Event::Opened(Ok(file))) => {
                let mut rest = gen_cpp_lib(&declarations, &plan.protocol, &plan.origin);
                proof {
                    reveal(source_parts);
                    assert(part_views(rest@).len() > 0);
                }
                let part = take_first(&mut rest);
                (Stage::Writing { file, rest }, Action::Write(part))
            },
            (Stage::Opening(_), Event::Opened(Err(error))) => (
                Stage::Over,
                Action::Abort(fatal_message("Unable to generate temporary C++ file", &error)),
            ),
            (Stage::Writing { file, rest }, Event::Written(Ok(_))) => {
                let mut rest = rest;
                if rest.len() > 0 {
                    let part = take_first(&mut rest);
                    (Stage::Writing { file, rest }, Action::Write(part))
                } else {
                    self.add_generated_source(file);
                    (Stage::Compiling, Action::Compile(plan.lib_name.clone()))
                }
            },
            (Stage::Writing { .. }, Event::Written(Err(error))) => (
                Stage::Over,
                Action::Abort(
                    fatal_message("called `Result::unwrap()` on an `Err` value", &error),
                ),
            ),
            (Stage::Compiling, Event::Compiled(Err(error))) => (
                Stage::Over,
                if plan.exit_on_compile_error {
                    Action::Exit { message: compile_failure(&error), code: 1 }
                } else {
                    Action::Report(compile_failure(&error))
                },
            ),
            _ => (Stage::Over, Action::Finish),
        }
    }
}

fn take_first(parts: &mut Vec<Part>) -> (first: Part)
    requires
        old(parts)@.len() > 0,
    ensures
        first@ == part_views(old(parts)@)[0],
        part_views(final(parts)@) == part_views(old(parts)@).drop_first(),
{
    let ghost before = part_views(parts@);
    let first = parts.remove(0);
    assert(part_views(parts@) =~= before.drop_first());
    first
}

/// Begins a build with the default configuration. `manifest_dir` is the directory of the crate.
pub fn build(manifest_dir: PathBuf, plan: &Plan) -> (begun: (Config, Stage, Action))
    ensures
        begun.0@ == config_on(no_settings(begun.0@.settings.other.cargo_debug), manifest_dir),
        (begun.1@, begun.2@) == next(plan@, StageView::Ready, EventView::Begun),
{
    let mut config = Config::new(manifest_dir);
    let (stage, action) = config.build(plan, Stage::Ready, Event::Begun);
    (config, stage, action)
}

} // verus!
