//! The configuration of a build.

use crate::cc_build::{
    build_archiver, build_cargo_metadata, build_compiler, build_cpp, build_cpp_link_stdlib,
    build_cpp_set_stdlib, build_debug, build_define, build_file, build_flag,
    build_flag_if_supported, build_host, build_include_dir, build_new, build_object,
    build_opt_level, build_opt_level_str, build_pic, build_settings, no_settings, text_of,
    BuildSettings,
};
use crate::text::decimal;
use std::path::PathBuf;
use vstd::prelude::*;

verus! {

/// Configuration options for the generated library and for the compiler that builds it.
///
/// The options are kept in a `cc::Build`, and most methods only pass theirs on to it.
pub struct Config {
    cc: cc::Build,
    std_flag_set: bool,
}

/// The model of a [`Config`].
#[verifier::ext_equal]
pub struct ConfigView {
    /// What the compiler driver is set to.
    pub settings: BuildSettings,
    /// Whether a flag that chooses the language standard was given.
    pub std_flag_set: bool,
}

impl View for Config {
    type V = ConfigView;

    closed spec fn view(&self) -> ConfigView {
        ConfigView { settings: build_settings(self.cc), std_flag_set: self.std_flag_set }
    }
}

/// Whether a compiler flag chooses the language standard.
pub open spec fn is_std_flag(flag: Seq<char>) -> bool {
    "-std="@.is_prefix_of(flag)
}

impl ConfigView {
    /// The configuration with other settings for the compiler driver.
    pub open spec fn with_settings(self, settings: BuildSettings) -> ConfigView {
        ConfigView { settings, ..self }
    }

    /// The configuration with one more compiler flag.
    pub open spec fn with_flag(self, flag: Seq<char>, if_supported: bool) -> ConfigView {
        ConfigView {
            settings: self.settings.with_flag(flag, if_supported),
            std_flag_set: self.std_flag_set || is_std_flag(flag),
        }
    }

    /// The configuration with which the generated source `file` is compiled. C++11 is asked for
    /// where no flag chose a standard.
    pub open spec fn with_generated_source(self, file: PathBuf) -> ConfigView {
        let settings = if self.std_flag_set {
            self.settings
        } else {
            self.settings.with_flag("-std=c++11"@, true)
        };
        self.with_settings(settings.with_file(file))
    }
}

/// The configuration that builds on a driver with the given settings: C++, with the directory of
/// the crate among those searched for headers.
pub open spec fn config_on(settings: BuildSettings, manifest_dir: PathBuf) -> ConfigView {
    ConfigView {
        settings: settings.with_cpp(true).with_include_dir(manifest_dir),
        std_flag_set: false,
    }
}

fn starts_with(text: &str, prefix: &str) -> (found: bool)
    ensures
        found == prefix@.is_prefix_of(text@),
{
    let length: usize = prefix.unicode_len();
    if text.unicode_len() < length {
        return false;
    }
    let mut i: usize = 0;
    while i < length
        invariant
            i <= length,
            length == prefix@.len() <= text@.len(),
            forall|j: int| 0 <= j < i ==> prefix@[j] == text@[j],
        decreases length - i,
    {
        if prefix.get_char(i) != text.get_char(i) {
            assert(prefix@[i as int] != text@.subrange(0, length as int)[i as int]);
            return false;
        }
        i += 1;
    }
    assert(prefix@ =~= text@.subrange(0, length as int));
    true
}

impl Config {
    /// A configuration with nothing set but what every build needs. `manifest_dir` is the
    /// directory of the crate that is built. Whether debug messages are printed for cargo depends on
    /// the environment.
    pub fn new(manifest_dir: PathBuf) -> (config: Config)
        ensures
            config@ == config_on(
                no_settings(config@.settings.other.cargo_debug),
                manifest_dir,
            ),
    {
        Config::from(build_new(), manifest_dir)
    }

    /// A configuration on top of a preconfigured `cc::Build`. C++ is enabled, and the directory of
    /// the crate is added to those searched for headers. All else that was set on the driver is
    /// kept. Its logger and its snapshot of the environment are kept too, of which the settings do
    /// not tell.
    pub fn from(cc: cc::Build, manifest_dir: PathBuf) -> (config: Config)
        ensures
            config@ == config_on(build_settings(cc), manifest_dir),
    {
        let mut cc = cc;
        build_cpp(&mut cc, true);
        build_include_dir(&mut cc, manifest_dir);
        Config { cc, std_flag_set: false }
    }

    /// The compiler driver, with all that was set.
    pub fn cc(&self) -> (cc: &cc::Build)
        ensures
            build_settings(*cc) == self@.settings,
    {
        &self.cc
    }

    /// Adds an arbitrary flag to the invocation of the compiler.
    pub fn flag(&mut self, flag: &str) -> (config: &mut Config)
        ensures
            config@ == old(self)@.with_flag(flag@, false),
            *final(self) == *final(config),
    {
        if starts_with(flag, "-std=") {
            self.std_flag_set = true;
        }
        build_flag(&mut self.cc, flag);
        self
    }

    /// Adds an arbitrary flag to the invocation of the compiler if it supports it.
    pub fn flag_if_supported(&mut self, flag: &str) -> (config: &mut Config)
        ensures
            config@ == old(self)@.with_flag(flag@, true),
            *final(self) == *final(config),
    {
        if starts_with(flag, "-std=") {
            self.std_flag_set = true;
        }
        build_flag_if_supported(&mut self.cc, flag);
        self
    }

    /// Adds the generated source to the files that are compiled, and makes sure that C++11 is
    /// enabled: the helpers in it rely on C++11, and some compilers default to an older standard.
    /// A standard that was chosen by a flag is left as it is.
    pub fn add_generated_source(&mut self, file: PathBuf) -> (config: &mut Config)
        ensures
            config@ == old(self)@.with_generated_source(file),
            *final(self) == *final(config),
    {
        if !self.std_flag_set {
            build_flag_if_supported(&mut self.cc, "-std=c++11");
        }
        build_file(&mut self.cc, file);
        self
    }

    /// Adds a directory to the `-I` or include path for headers.
    pub fn include_dir(&mut self, dir: PathBuf) -> (config: &mut Config)
        ensures
            config@ == old(self)@.with_settings(
                old(self)@.settings.with_include_dir(dir),
            ),
            *final(self) == *final(config),
    {
        build_include_dir(&mut self.cc, dir);
        self
    }

    /// Specifies a `-D` variable with an optional value.
    pub fn define(&mut self, var: &str, val: Option<&str>) -> (config: &mut Config)
        ensures
            config@ == old(self)@.with_settings(
                old(self)@.settings.with_define(var@, text_of(val)),
            ),
            *final(self) == *final(config),
    {
        build_define(&mut self.cc, var, val);
        self
    }

    /// Adds an arbitrary object file to link in.
    pub fn object(&mut self, obj: PathBuf) -> (config: &mut Config)
        ensures
            config@ == old(self)@.with_settings(
                old(self)@.settings.with_object(obj),
            ),
            *final(self) == *final(config),
    {
        build_object(&mut self.cc, obj);
        self
    }

    /// Adds a file which will be compiled.
    pub fn file(&mut self, p: PathBuf) -> (config: &mut Config)
        ensures
            config@ == old(self)@.with_settings(
                old(self)@.settings.with_file(p),
            ),
            *final(self) == *final(config),
    {
        build_file(&mut self.cc, p);
        self
    }

    /// Sets the standard library to link against when compiling with C++ support.
    ///
    /// The default depends on the target: on OS X `Some("c++")`, on a Visual Studio based target
    /// `None`, on other targets `Some("stdc++")`. With `None` no library is linked automatically.
    ///
    /// The given library name must not contain the `lib` prefix.
    pub fn cpp_link_stdlib(&mut self, cpp_link_stdlib: Option<&str>) -> (config: &mut Config)
        ensures
            config@ == old(self)@.with_settings(
                old(self)@.settings.with_cpp_link_stdlib(text_of(cpp_link_stdlib)),
            ),
            *final(self) == *final(config),
    {
        build_cpp_link_stdlib(&mut self.cc, cpp_link_stdlib);
        self
    }

    /// Forces the C++ compiler to use the specified standard library.
    ///
    /// Setting this option sets `cpp_link_stdlib` to the same value.
    ///
    /// The option sets the `-stdlib` flag, which only some compilers support (clang and icc do, gcc
    /// does not). It is up to the caller to use it with a compiler that does. It has no effect on a
    /// Visual Studio based target. With `None` no specific library is used.
    ///
    /// The given library name must not contain the `lib` prefix.
    pub fn cpp_set_stdlib(&mut self, cpp_set_stdlib: Option<&str>) -> (config: &mut Config)
        ensures
            config@ == old(self)@.with_settings(
                old(self)@.settings.with_cpp_set_stdlib(text_of(cpp_set_stdlib)),
            ),
            *final(self) == *final(config),
    {
        build_cpp_set_stdlib(&mut self.cc, cpp_set_stdlib);
        self
    }

    /// Configures the host assumed by this configuration. A build script need not call this: the
    /// default is the `HOST` environment variable.
    pub fn host(&mut self, host: &str) -> (config: &mut Config)
        ensures
            config@ == old(self)@.with_settings(
                old(self)@.settings.with_host(host@),
            ),
            *final(self) == *final(config),
    {
        build_host(&mut self.cc, host);
        self
    }

    /// Configures the optimization level of the generated object files. A build script need not
    /// call this: the default is the `OPT_LEVEL` environment variable.
    pub fn opt_level(&mut self, opt_level: u32) -> (config: &mut Config)
        ensures
            config@ == old(self)@.with_settings(
                old(self)@.settings.with_opt_level(decimal(opt_level as nat)),
            ),
            *final(self) == *final(config),
    {
        build_opt_level(&mut self.cc, opt_level);
        self
    }

    /// Configures the optimization level of the generated object files, by its name.
    pub fn opt_level_str(&mut self, opt_level: &str) -> (config: &mut Config)
        ensures
            config@ == old(self)@.with_settings(
                old(self)@.settings.with_opt_level(opt_level@),
            ),
            *final(self) == *final(config),
    {
        build_opt_level_str(&mut self.cc, opt_level);
        self
    }

    /// Configures whether debug information is emitted. A build script need not call this: the
    /// default depends on the profile.
    pub fn debug(&mut self, debug: bool) -> (config: &mut Config)
        ensures
            config@ == old(self)@.with_settings(
                old(self)@.settings.with_debug(debug),
            ),
            *final(self) == *final(config),
    {
        build_debug(&mut self.cc, debug);
        self
    }

    /// Configures the compiler to be used to produce output.
    pub fn compiler(&mut self, compiler: PathBuf) -> (config: &mut Config)
        ensures
            config@ == old(self)@.with_settings(
                old(self)@.settings.with_compiler(compiler),
            ),
            *final(self) == *final(config),
    {
        build_compiler(&mut self.cc, compiler);
        self
    }

    /// Configures the tool used to assemble archives.
    pub fn archiver(&mut self, archiver: PathBuf) -> (config: &mut Config)
        ensures
            config@ == old(self)@.with_settings(
                old(self)@.settings.with_archiver(archiver),
            ),
            *final(self) == *final(config),
    {
        build_archiver(&mut self.cc, archiver);
        self
    }

    /// Defines whether metadata is emitted for cargo, so that it links the library by itself.
    /// Defaults to `true`.
    pub fn cargo_metadata(&mut self, cargo_metadata: bool) -> (config: &mut Config)
        ensures
            config@ == old(self)@.with_settings(
                old(self)@.settings.with_cargo_metadata(cargo_metadata),
            ),
            *final(self) == *final(config),
    {
        build_cargo_metadata(&mut self.cc, cargo_metadata);
        self
    }

    /// Configures whether the compiler emits position independent code. The default is `false` for
    /// `i686` and `windows-gnu` targets and `true` for all others.
    pub fn pic(&mut self, pic: bool) -> (config: &mut Config)
        ensures
            config@ == old(self)@.with_settings(
                old(self)@.settings.with_pic(pic),
            ),
            *final(self) == *final(config),
    {
        build_pic(&mut self.cc, pic);
        self
    }
}

} // verus!
