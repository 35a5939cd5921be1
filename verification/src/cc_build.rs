//! The compiler driver `cc::Build`, and what is taken for granted about it.
//!
//! A `cc::Build` only collects settings until it is asked to compile. [`build_settings`] names the
//! settings that it holds. The functions below make one call each, and their contracts say what
//! the call does to the settings: it changes the one it is for and leaves the others alone.

use crate::text::decimal;
use std::path::PathBuf;
use vstd::prelude::*;

verus! {

/// The compiler driver.
#[verifier::external_type_specification]
#[verifier::external_body]
pub struct ExBuild(cc::Build);

/// An owned path.
#[verifier::external_type_specification]
#[verifier::external_body]
pub struct ExPathBuf(std::path::PathBuf);

/// Text as the platform keeps it, which need not be Unicode.
pub enum PlatformText {
    /// The characters of Unicode text.
    Unicode(Seq<char>),
    /// The bytes of other text, in the encoding of the platform.
    Other(Seq<u8>),
}

/// A compiler flag.
pub struct CompilerFlag {
    pub text: PlatformText,
    /// Whether the flag is left out where the compiler does not know it.
    pub if_supported: bool,
}

/// The settings of a compiler driver.
#[verifier::ext_equal]
pub struct BuildSettings {
    /// Directories that are searched for headers, in order.
    pub include_dirs: Seq<PathBuf>,
    /// Macro definitions: name and, if there is one, value, in order.
    pub defines: Seq<(Seq<char>, Option<Seq<char>>)>,
    /// Object files that are linked in, in order.
    pub objects: Seq<PathBuf>,
    /// Flags for the compiler, in order.
    pub flags: Seq<CompilerFlag>,
    /// Files that are compiled, in order.
    pub files: Seq<PathBuf>,
    /// Whether the files are C++.
    pub cpp: bool,
    /// The C++ standard library that is linked: `None` if it depends on the target, `Some(None)`
    /// if none is.
    pub cpp_link_stdlib: Option<Option<Seq<char>>>,
    /// The C++ standard library that is compiled against, if it is forced.
    pub cpp_set_stdlib: Option<Seq<char>>,
    /// The host, if it is set. The settings from here to the archiver have a default that comes
    /// from the environment.
    pub host: Option<Seq<char>>,
    pub opt_level: Option<Seq<char>>,
    pub debug: Option<Seq<char>>,
    pub compiler: Option<PathBuf>,
    pub archiver: Option<PathBuf>,
    /// Whether link directives are printed for cargo.
    pub cargo_metadata: bool,
    /// Whether the code is position independent; `None` if it depends on the target.
    pub pic: Option<bool>,
    /// What no method of a configuration sets.
    pub other: OtherSettings,
}

/// The settings of a compiler driver that only reach a configuration with a preconfigured driver.
#[verifier::ext_equal]
pub struct OtherSettings {
    /// Flags for the archiver, in order.
    pub ar_flags: Seq<PlatformText>,
    /// Flags for assembler files, in order.
    pub asm_flags: Seq<PlatformText>,
    /// Whether the compiler gets none of the flags that the driver chooses by itself.
    pub no_default_flags: bool,
    /// Directory to which the names of the object files are relative.
    pub source_root: Option<PathBuf>,
    /// Source paths, each with the path that stands for it in the output, in order.
    pub source_path_remaps: Seq<(PathBuf, PathBuf)>,
    /// Whether the C++ standard library is linked statically.
    pub cpp_link_stdlib_static: bool,
    /// Whether the files are CUDA, and the CUDA runtime and host compiler to go with it.
    pub cuda: bool,
    pub cudart: Option<Seq<char>>,
    pub ccbin: bool,
    /// The language standard, set as such and not by a flag.
    pub std: Option<Seq<char>>,
    /// The target, and the directory for the output. Their defaults come from the environment.
    pub target: Option<Seq<char>>,
    pub out_dir: Option<PathBuf>,
    pub force_frame_pointer: Option<bool>,
    /// Environment variables for the tools that are run: name and value, in order.
    pub env: Seq<(PlatformText, PlatformText)>,
    pub ranlib: Option<PathBuf>,
    /// Whether warnings are printed for cargo.
    pub cargo_warnings: bool,
    /// Whether debug messages are printed for cargo. The default comes from the environment.
    pub cargo_debug: bool,
    /// Whether the output of the compiler is passed on.
    pub cargo_output: bool,
    /// Whether messages go to a logger.
    pub message_logger: bool,
    pub link_lib_modifiers: Seq<PlatformText>,
    pub use_plt: Option<bool>,
    pub static_crt: Option<bool>,
    pub shared_flag: Option<bool>,
    pub static_flag: Option<bool>,
    pub warnings_into_errors: bool,
    pub warnings: Option<bool>,
    pub extra_warnings: Option<bool>,
    pub emit_rerun_if_env_changed: bool,
    pub shell_escaped_flags: Option<bool>,
    pub inherit_rustflags: bool,
    pub inherit_trim_paths: bool,
    pub reproducible_codeview: bool,
    pub prefer_clang_cl_over_msvc: bool,
}

/// The other settings of a driver on which nothing was set. `cargo_debug` is what the environment
/// says on debug messages.
pub open spec fn no_other_settings(cargo_debug: bool) -> OtherSettings {
    OtherSettings {
        ar_flags: Seq::empty(),
        asm_flags: Seq::empty(),
        no_default_flags: false,
        source_root: None,
        source_path_remaps: Seq::empty(),
        cpp_link_stdlib_static: false,
        cuda: false,
        cudart: None,
        ccbin: true,
        std: None,
        target: None,
        out_dir: None,
        force_frame_pointer: None,
        env: Seq::empty(),
        ranlib: None,
        cargo_warnings: true,
        cargo_debug,
        cargo_output: true,
        message_logger: false,
        link_lib_modifiers: Seq::empty(),
        use_plt: None,
        static_crt: None,
        shared_flag: None,
        static_flag: None,
        warnings_into_errors: false,
        warnings: None,
        extra_warnings: None,
        emit_rerun_if_env_changed: true,
        shell_escaped_flags: None,
        inherit_rustflags: true,
        inherit_trim_paths: true,
        reproducible_codeview: false,
        prefer_clang_cl_over_msvc: false,
    }
}

/// The settings of a driver on which nothing was set. `cargo_debug` is what the environment says on
/// debug messages.
pub open spec fn no_settings(cargo_debug: bool) -> BuildSettings {
    BuildSettings {
        include_dirs: Seq::empty(),
        defines: Seq::empty(),
        objects: Seq::empty(),
        flags: Seq::empty(),
        files: Seq::empty(),
        cpp: false,
        cpp_link_stdlib: None,
        cpp_set_stdlib: None,
        host: None,
        opt_level: None,
        debug: None,
        compiler: None,
        archiver: None,
        cargo_metadata: true,
        pic: None,
        other: no_other_settings(cargo_debug),
    }
}

/// The text of an optional string.
pub open spec fn text_of(value: Option<&str>) -> Option<Seq<char>> {
    match value {
        Some(text) => Some(text@),
        None => None,
    }
}

impl BuildSettings {
    pub open spec fn with_include_dir(self, dir: PathBuf) -> BuildSettings {
        BuildSettings { include_dirs: self.include_dirs.push(dir), ..self }
    }

    pub open spec fn with_define(self, var: Seq<char>, val: Option<Seq<char>>) -> BuildSettings {
        BuildSettings { defines: self.defines.push((var, val)), ..self }
    }

    pub open spec fn with_object(self, obj: PathBuf) -> BuildSettings {
        BuildSettings { objects: self.objects.push(obj), ..self }
    }

    pub open spec fn with_flag(self, text: Seq<char>, if_supported: bool) -> BuildSettings {
        BuildSettings {
            flags: self.flags.push(
                CompilerFlag { text: PlatformText::Unicode(text), if_supported },
            ),
            ..self
        }
    }

    pub open spec fn with_file(self, file: PathBuf) -> BuildSettings {
        BuildSettings { files: self.files.push(file), ..self }
    }

    pub open spec fn with_cpp(self, cpp: bool) -> BuildSettings {
        BuildSettings { cpp, ..self }
    }

    pub open spec fn with_cpp_link_stdlib(self, name: Option<Seq<char>>) -> BuildSettings {
        BuildSettings { cpp_link_stdlib: Some(name), ..self }
    }

    pub open spec fn with_cpp_set_stdlib(self, name: Option<Seq<char>>) -> BuildSettings {
        BuildSettings { cpp_link_stdlib: Some(name), cpp_set_stdlib: name, ..self }
    }

    pub open spec fn with_host(self, host: Seq<char>) -> BuildSettings {
        BuildSettings { host: Some(host), ..self }
    }

    pub open spec fn with_opt_level(self, opt_level: Seq<char>) -> BuildSettings {
        BuildSettings { opt_level: Some(opt_level), ..self }
    }

    pub open spec fn with_debug(self, debug: bool) -> BuildSettings {
        BuildSettings { debug: Some(if debug { "true"@ } else { "false"@ }), ..self }
    }

    pub open spec fn with_compiler(self, compiler: PathBuf) -> BuildSettings {
        BuildSettings { compiler: Some(compiler), ..self }
    }

    pub open spec fn with_archiver(self, archiver: PathBuf) -> BuildSettings {
        BuildSettings { archiver: Some(archiver), ..self }
    }

    pub open spec fn with_cargo_metadata(self, cargo_metadata: bool) -> BuildSettings {
        BuildSettings { cargo_metadata, ..self }
    }

    pub open spec fn with_pic(self, pic: bool) -> BuildSettings {
        BuildSettings { pic: Some(pic), ..self }
    }
}

/// The settings that a driver holds. Left out are its caches, which logger it has, and the snapshot
/// of the process environment, which it takes when it first needs it.
pub uninterp spec fn build_settings(build: cc::Build) -> BuildSettings;

/// `cc::Build::new` returns a driver on which nothing was set. Whether it prints debug messages
/// depends on the environment and is left open.
#[verifier::external_body]
pub(crate) fn build_new() -> (build: cc::Build)
    ensures
        build_settings(build) == no_settings(build_settings(build).other.cargo_debug),
{
    cc::Build::new()
}

/// `cc::Build::includes` appends each directory it is given to the search path for headers. Here it
/// is given one.
#[verifier::external_body]
pub(crate) fn build_include_dir(build: &mut cc::Build, dir: PathBuf)
    ensures
        build_settings(*final(build)) == build_settings(*old(build)).with_include_dir(dir),
{
    build.includes([dir]);
}

/// `cc::Build::define` appends a macro definition, with or without a value.
#[verifier::external_body]
pub(crate) fn build_define(build: &mut cc::Build, var: &str, val: Option<&str>)
    ensures
        build_settings(*final(build)) == build_settings(*old(build)).with_define(var@, text_of(val)),
{
    build.define(var, val);
}

/// `cc::Build::object` appends an object file to those that are linked in.
#[verifier::external_body]
pub(crate) fn build_object(build: &mut cc::Build, obj: PathBuf)
    ensures
        build_settings(*final(build)) == build_settings(*old(build)).with_object(obj),
{
    build.object(obj);
}

/// `cc::Build::flag` appends a flag that the compiler always gets.
#[verifier::external_body]
pub(crate) fn build_flag(build: &mut cc::Build, flag: &str)
    ensures
        build_settings(*final(build)) == build_settings(*old(build)).with_flag(flag@, false),
{
    build.flag(flag);
}

/// `cc::Build::flag_if_supported` appends a flag that the compiler gets only if it knows it. It
/// goes into the same list as the flags that are always passed.
#[verifier::external_body]
pub(crate) fn build_flag_if_supported(build: &mut cc::Build, flag: &str)
    ensures
        build_settings(*final(build)) == build_settings(*old(build)).with_flag(flag@, true),
{
    build.flag_if_supported(flag);
}

/// `cc::Build::file` appends a file to those that are compiled.
#[verifier::external_body]
pub(crate) fn build_file(build: &mut cc::Build, p: PathBuf)
    ensures
        build_settings(*final(build)) == build_settings(*old(build)).with_file(p),
{
    build.file(p);
}

/// `cc::Build::cpp` says whether the files are C++.
#[verifier::external_body]
pub(crate) fn build_cpp(build: &mut cc::Build, cpp: bool)
    ensures
        build_settings(*final(build)) == build_settings(*old(build)).with_cpp(cpp),
{
    build.cpp(cpp);
}

/// `cc::Build::cpp_link_stdlib` sets the C++ standard library that is linked, or that none is.
#[verifier::external_body]
pub(crate) fn build_cpp_link_stdlib(build: &mut cc::Build, name: Option<&str>)
    ensures
        build_settings(*final(build)) == build_settings(*old(build)).with_cpp_link_stdlib(text_of(name)),
{
    build.cpp_link_stdlib(name);
}

/// `cc::Build::cpp_set_stdlib` sets the C++ standard library that is compiled against, and the one
/// that is linked to the same value.
#[verifier::external_body]
pub(crate) fn build_cpp_set_stdlib(build: &mut cc::Build, name: Option<&str>)
    ensures
        build_settings(*final(build)) == build_settings(*old(build)).with_cpp_set_stdlib(text_of(name)),
{
    build.cpp_set_stdlib(name);
}

/// `cc::Build::host` sets the host.
#[verifier::external_body]
pub(crate) fn build_host(build: &mut cc::Build, host: &str)
    ensures
        build_settings(*final(build)) == build_settings(*old(build)).with_host(host@),
{
    build.host(host);
}

/// `cc::Build::opt_level` sets the optimization level to the decimal numeral of its argument.
#[verifier::external_body]
pub(crate) fn build_opt_level(build: &mut cc::Build, opt_level: u32)
    ensures
        build_settings(*final(build)) == build_settings(*old(build)).with_opt_level(decimal(opt_level as nat)),
{
    build.opt_level(opt_level);
}

/// `cc::Build::opt_level_str` sets the optimization level to its argument.
#[verifier::external_body]
pub(crate) fn build_opt_level_str(build: &mut cc::Build, opt_level: &str)
    ensures
        build_settings(*final(build)) == build_settings(*old(build)).with_opt_level(opt_level@),
{
    build.opt_level_str(opt_level);
}

/// `cc::Build::debug` sets the level of debug information to `true` or `false`.
#[verifier::external_body]
pub(crate) fn build_debug(build: &mut cc::Build, debug: bool)
    ensures
        build_settings(*final(build)) == build_settings(*old(build)).with_debug(debug),
{
    build.debug(debug);
}

/// `cc::Build::compiler` sets the compiler.
#[verifier::external_body]
pub(crate) fn build_compiler(build: &mut cc::Build, compiler: PathBuf)
    ensures
        build_settings(*final(build)) == build_settings(*old(build)).with_compiler(compiler),
{
    build.compiler(compiler);
}

/// `cc::Build::archiver` sets the tool that assembles archives.
#[verifier::external_body]
pub(crate) fn build_archiver(build: &mut cc::Build, archiver: PathBuf)
    ensures
        build_settings(*final(build)) == build_settings(*old(build)).with_archiver(archiver),
{
    build.archiver(archiver);
}

/// `cc::Build::cargo_metadata` says whether link directives are printed for cargo.
#[verifier::external_body]
pub(crate) fn build_cargo_metadata(build: &mut cc::Build, cargo_metadata: bool)
    ensures
        build_settings(*final(build)) == build_settings(*old(build)).with_cargo_metadata(cargo_metadata),
{
    build.cargo_metadata(cargo_metadata);
}

/// `cc::Build::pic` says whether the code is position independent.
#[verifier::external_body]
pub(crate) fn build_pic(build: &mut cc::Build, pic: bool)
    ensures
        build_settings(*final(build)) == build_settings(*old(build)).with_pic(pic),
{
    build.pic(pic);
}

} // verus!
