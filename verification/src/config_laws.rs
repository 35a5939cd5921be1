//! What holds of every configuration.

use crate::cc_build::{BuildSettings, CompilerFlag, PlatformText};
use crate::config::{config_on, is_std_flag, ConfigView};
use crate::text::decimal;
use crate::text_laws::{a_numeral_reads_back, is_numeral};
use std::path::PathBuf;
use vstd::prelude::*;

verus! {

/// Something that can be set on a configuration.
pub enum Setting {
    IncludeDir(PathBuf),
    Define(Seq<char>, Option<Seq<char>>),
    Object(PathBuf),
    Flag(Seq<char>),
    FlagIfSupported(Seq<char>),
    File(PathBuf),
    CppLinkStdlib(Option<Seq<char>>),
    CppSetStdlib(Option<Seq<char>>),
    Host(Seq<char>),
    OptLevel(u32),
    OptLevelStr(Seq<char>),
    Debug(bool),
    Compiler(PathBuf),
    Archiver(PathBuf),
    CargoMetadata(bool),
    Pic(bool),
}

/// The configuration after one more setting.
pub open spec fn set(config: ConfigView, setting: Setting) -> ConfigView {
    let s = config.settings;
    match setting {
        Setting::IncludeDir(dir) => config.with_settings(s.with_include_dir(dir)),
        Setting::Define(var, val) => config.with_settings(s.with_define(var, val)),
        Setting::Object(object) => config.with_settings(s.with_object(object)),
        Setting::Flag(flag) => config.with_flag(flag, false),
        Setting::FlagIfSupported(flag) => config.with_flag(flag, true),
        Setting::File(file) => config.with_settings(s.with_file(file)),
        Setting::CppLinkStdlib(name) => config.with_settings(s.with_cpp_link_stdlib(name)),
        Setting::CppSetStdlib(name) => config.with_settings(s.with_cpp_set_stdlib(name)),
        Setting::Host(host) => config.with_settings(s.with_host(host)),
        Setting::OptLevel(level) => config.with_settings(s.with_opt_level(decimal(level as nat))),
        Setting::OptLevelStr(level) => config.with_settings(s.with_opt_level(level)),
        Setting::Debug(debug) => config.with_settings(s.with_debug(debug)),
        Setting::Compiler(compiler) => config.with_settings(s.with_compiler(compiler)),
        Setting::Archiver(archiver) => config.with_settings(s.with_archiver(archiver)),
        Setting::CargoMetadata(on) => config.with_settings(s.with_cargo_metadata(on)),
        Setting::Pic(pic) => config.with_settings(s.with_pic(pic)),
    }
}

/// The configuration after a list of settings.
pub open spec fn set_all(config: ConfigView, settings: Seq<Setting>) -> ConfigView
    decreases settings.len(),
{
    if settings.len() == 0 {
        config
    } else {
        set(set_all(config, settings.drop_last()), settings.last())
    }
}

/// Whether some flag chooses the language standard.
pub open spec fn chooses_standard(settings: BuildSettings) -> bool {
    exists|i: int| 0 <= i < settings.flags.len() && is_std_text((#[trigger] settings.flags[i]).text)
}

/// Whether the text of a flag chooses the language standard. Flags that are not Unicode are set
/// aside.
pub open spec fn is_std_text(text: PlatformText) -> bool {
    text matches PlatformText::Unicode(flag) && is_std_flag(flag)
}

proof fn one_setting(config: ConfigView, setting: Setting)
    ensures
        ({
            let after = set(config, setting);
            &&& chooses_standard(after.settings) <==> chooses_standard(config.settings)
                || is_std_flag_setting(setting)
            &&& after.std_flag_set == (config.std_flag_set || is_std_flag_setting(setting))
            &&& after.settings.cpp == config.settings.cpp
        }),
{
    let before = config.settings.flags;
    let after = set(config, setting).settings.flags;
    if setting is Flag || setting is FlagIfSupported {
        assert(after[before.len() as int].text == PlatformText::Unicode(setting_flag(setting)));
        assert(forall|i: int| 0 <= i < before.len() ==> after[i] == #[trigger] before[i]);
        assert(forall|i: int| 0 <= i < before.len() ==> before[i] == #[trigger] after[i]);
        if chooses_standard(config.settings) {
            let i = choose|i: int|
                0 <= i < before.len() && is_std_text((#[trigger] before[i]).text);
            assert(is_std_text(after[i].text));
        }
    } else {
        assert(after == before);
    }
}

spec fn setting_flag(setting: Setting) -> Seq<char> {
    match setting {
        Setting::Flag(flag) => flag,
        Setting::FlagIfSupported(flag) => flag,
        _ => Seq::empty(),
    }
}

/// Whether a setting is a flag that chooses the language standard.
pub open spec fn is_std_flag_setting(setting: Setting) -> bool {
    match setting {
        Setting::Flag(flag) => is_std_flag(flag),
        Setting::FlagIfSupported(flag) => is_std_flag(flag),
        _ => false,
    }
}

/// Whether some setting of a list is a flag that chooses the language standard.
pub open spec fn standard_was_set(settings: Seq<Setting>) -> bool {
    exists|i: int| 0 <= i < settings.len() && is_std_flag_setting(#[trigger] settings[i])
}

/// However a configuration was set up, on whatever compiler driver: it remembers that a standard
/// was chosen if and only if a flag that was set on it chooses one, and its flags choose a standard
/// if and only if it remembers one or the driver came with one. C++ stays enabled.
pub proof fn a_chosen_standard_is_remembered(
    driver: BuildSettings,
    manifest_dir: PathBuf,
    settings: Seq<Setting>,
)
    ensures
        ({
            let config = set_all(config_on(driver, manifest_dir), settings);
            &&& config.std_flag_set <==> standard_was_set(settings)
            &&& chooses_standard(config.settings) <==> config.std_flag_set || chooses_standard(
                driver,
            )
            &&& config.settings.cpp
        }),
    decreases settings.len(),
{
    let start = config_on(driver, manifest_dir);
    if settings.len() > 0 {
        let before = settings.drop_last();
        a_chosen_standard_is_remembered(driver, manifest_dir, before);
        one_setting(set_all(start, before), settings.last());
        if standard_was_set(before) {
            let i = choose|i: int|
                0 <= i < before.len() && is_std_flag_setting(#[trigger] before[i]);
            assert(is_std_flag_setting(settings[i]));
        } else if is_std_flag_setting(settings.last()) {
            assert(is_std_flag_setting(settings[settings.len() - 1]));
        } else if standard_was_set(settings) {
            let i = choose|i: int|
                0 <= i < settings.len() && is_std_flag_setting(#[trigger] settings[i]);
            assert(is_std_flag_setting(before[i]));
        }
    } else {
        assert(start.settings.flags == driver.flags);
    }
}

/// However a configuration is set up and used, what was set on its driver beforehand and has no
/// method here is kept.
pub proof fn other_settings_are_kept(
    driver: BuildSettings,
    manifest_dir: PathBuf,
    settings: Seq<Setting>,
    file: PathBuf,
)
    ensures
        ({
            let config = set_all(config_on(driver, manifest_dir), settings);
            &&& config.settings.other == driver.other
            &&& config.with_generated_source(file).settings.other == driver.other
        }),
    decreases settings.len(),
{
    if settings.len() > 0 {
        other_settings_are_kept(driver, manifest_dir, settings.drop_last(), file);
    }
}

/// The generated source is never compiled without a chosen standard. Where a standard was set on
/// the configuration, the flags are left as they are. Where not, C++11 is asked for, after all
/// other flags; those of the driver that the configuration builds on are not looked at.
pub proof fn a_standard_is_always_chosen(
    driver: BuildSettings,
    manifest_dir: PathBuf,
    settings: Seq<Setting>,
    file: PathBuf,
)
    ensures
        ({
            let config = set_all(config_on(driver, manifest_dir), settings);
            let ready = config.with_generated_source(file);
            &&& chooses_standard(ready.settings)
            &&& standard_was_set(settings) ==> ready.settings.flags == config.settings.flags
            &&& !standard_was_set(settings) ==> ready.settings.flags == config.settings.with_flag(
                "-std=c++11"@,
                true,
            ).flags
        }),
{
    let config = set_all(config_on(driver, manifest_dir), settings);
    let ready = config.with_generated_source(file);
    a_chosen_standard_is_remembered(driver, manifest_dir, settings);
    if !config.std_flag_set {
        reveal_strlit("-std=");
        reveal_strlit("-std=c++11");
        let last = ready.settings.flags[config.settings.flags.len() as int].text;
        assert(last == PlatformText::Unicode("-std=c++11"@));
        assert("-std="@ =~= "-std=c++11"@.subrange(0, 5));
        assert(is_std_text(last));
        assert(chooses_standard(ready.settings));
    } else {
        assert(ready.settings.flags == config.settings.flags);
        assert(chooses_standard(ready.settings));
    }
}

/// Forcing a C++ standard library links the same one: setting it last decides both.
pub proof fn a_forced_stdlib_is_linked(config: ConfigView, name: Option<Seq<char>>)
    ensures
        set(config, Setting::CppSetStdlib(name)).settings.cpp_link_stdlib == Some(name),
        set(config, Setting::CppSetStdlib(name)) == set(
            set(config, Setting::CppLinkStdlib(name)),
            Setting::CppSetStdlib(name),
        ),
{
}

/// An optimization level may be given as a number or by its numeral.
pub proof fn opt_levels_agree(config: ConfigView, level: u32)
    ensures
        set(config, Setting::OptLevel(level)) == set(
            config,
            Setting::OptLevelStr(decimal(level as nat)),
        ),
{
}

/// Whether the first characters of a flag are those of one that chooses the language standard.
pub open spec fn starts_as_standard(flag: Seq<char>) -> bool {
    &&& flag.len() >= 5
    &&& flag[0] == '-'
    &&& flag[1] == 's'
    &&& flag[2] == 't'
    &&& flag[3] == 'd'
    &&& flag[4] == '='
}

proof fn standards_start(flag: Seq<char>)
    ensures
        is_std_flag(flag) == starts_as_standard(flag),
{
    reveal_strlit("-std=");
    if is_std_flag(flag) {
        let start = flag.subrange(0, 5);
        assert(start == "-std="@);
        assert(start[0] == flag[0] && start[1] == flag[1] && start[2] == flag[2] && start[3]
            == flag[3] && start[4] == flag[4]);
    } else if starts_as_standard(flag) {
        assert("-std="@ =~= flag.subrange(0, 5));
    }
}

/// Each setting changes what it is for and nothing else: a list gets one more item at its end,
/// another value is replaced. A flag counts as choosing the standard by its first five characters,
/// whatever follows them.
pub proof fn a_setting_changes_what_it_is_for(config: ConfigView, setting: Setting)
    ensures
        ({
            let s = config.settings;
            let unicode = |text: Seq<char>, if_supported: bool|
                CompilerFlag { text: PlatformText::Unicode(text), if_supported };
            set(config, setting) == (ConfigView {
                settings: match setting {
                    Setting::IncludeDir(dir) => BuildSettings {
                        include_dirs: s.include_dirs.push(dir),
                        ..s
                    },
                    Setting::Define(var, val) => BuildSettings {
                        defines: s.defines.push((var, val)),
                        ..s
                    },
                    Setting::Object(object) => BuildSettings {
                        objects: s.objects.push(object),
                        ..s
                    },
                    Setting::Flag(flag) => BuildSettings {
                        flags: s.flags.push(unicode(flag, false)),
                        ..s
                    },
                    Setting::FlagIfSupported(flag) => BuildSettings {
                        flags: s.flags.push(unicode(flag, true)),
                        ..s
                    },
                    Setting::File(file) => BuildSettings { files: s.files.push(file), ..s },
                    Setting::CppLinkStdlib(name) => BuildSettings {
                        cpp_link_stdlib: Some(name),
                        ..s
                    },
                    Setting::CppSetStdlib(name) => BuildSettings {
                        cpp_link_stdlib: Some(name),
                        cpp_set_stdlib: name,
                        ..s
                    },
                    Setting::Host(host) => BuildSettings { host: Some(host), ..s },
                    Setting::OptLevel(_) => BuildSettings {
                        opt_level: set(config, setting).settings.opt_level,
                        ..s
                    },
                    Setting::OptLevelStr(level) => BuildSettings { opt_level: Some(level), ..s },
                    Setting::Debug(debug) => BuildSettings {
                        debug: Some(
                            if debug {
                                "true"@
                            } else {
                                "false"@
                            },
                        ),
                        ..s
                    },
                    Setting::Compiler(compiler) => BuildSettings { compiler: Some(compiler), ..s },
                    Setting::Archiver(archiver) => BuildSettings { archiver: Some(archiver), ..s },
                    Setting::CargoMetadata(on) => BuildSettings { cargo_metadata: on, ..s },
                    Setting::Pic(pic) => BuildSettings { pic: Some(pic), ..s },
                },
                std_flag_set: config.std_flag_set || starts_standard_setting(setting),
            })
        }),
        setting matches Setting::OptLevel(level) ==> {
            let chosen = set(config, setting).settings.opt_level;
            chosen is Some && is_numeral(chosen->0, level as nat)
        },
{
    match setting {
        Setting::Flag(flag) => standards_start(flag),
        Setting::FlagIfSupported(flag) => standards_start(flag),
        Setting::OptLevel(level) => a_numeral_reads_back(level as nat),
        _ => {},
    }
}

/// Whether a setting is a flag whose first characters are those of one that chooses the standard.
pub open spec fn starts_standard_setting(setting: Setting) -> bool {
    match setting {
        Setting::Flag(flag) => starts_as_standard(flag),
        Setting::FlagIfSupported(flag) => starts_as_standard(flag),
        _ => false,
    }
}

/// A configuration on a driver has C++ enabled and one more directory to be searched for headers,
/// the last one, and keeps all else. No standard is taken for chosen, whatever flags the driver
/// has.
pub proof fn a_configuration_keeps_its_driver(driver: BuildSettings, manifest_dir: PathBuf)
    ensures
        config_on(driver, manifest_dir) == (ConfigView {
            settings: BuildSettings {
                cpp: true,
                include_dirs: driver.include_dirs.push(manifest_dir),
                ..driver
            },
            std_flag_set: false,
        }),
{
}

/// The generated source becomes the last of the files that are compiled, whatever was set before.
/// All other settings stay as they are, but that C++11 is asked for, by the last flag, if and only
/// if no standard was chosen.
pub proof fn the_generated_source_is_compiled(config: ConfigView, file: PathBuf)
    ensures
        ({
            let s = config.settings;
            let ready = config.with_generated_source(file);
            &&& ready.settings.files == s.files.push(file)
            &&& config.std_flag_set ==> ready.settings.flags == s.flags
            &&& !config.std_flag_set ==> ready.settings.flags == s.flags.push(
                CompilerFlag {
                    text: PlatformText::Unicode("-std=c++11"@),
                    if_supported: true,
                },
            )
            &&& ready == (ConfigView {
                settings: BuildSettings {
                    files: ready.settings.files,
                    flags: ready.settings.flags,
                    ..s
                },
                ..config
            })
        }),
{
}

/// A standard that was chosen is kept: once a flag whose first five characters are those of one
/// that chooses the standard was set, in whatever place and whichever way, the generated source
/// adds no flag. Where no such flag was set, it adds one.
pub proof fn a_chosen_standard_is_kept(
    driver: BuildSettings,
    manifest_dir: PathBuf,
    settings: Seq<Setting>,
    file: PathBuf,
)
    ensures
        ({
            let config = set_all(config_on(driver, manifest_dir), settings);
            let flags = config.with_generated_source(file).settings.flags;
            if exists|i: int|
                0 <= i < settings.len() && starts_standard_setting(#[trigger] settings[i]) {
                flags == config.settings.flags
            } else {
                flags == config.settings.flags.push(
                    CompilerFlag {
                        text: PlatformText::Unicode("-std=c++11"@),
                        if_supported: true,
                    },
                )
            }
        }),
{
    a_chosen_standard_is_remembered(driver, manifest_dir, settings);
    assert forall|i: int| 0 <= i < settings.len() implies is_std_flag_setting(
        #[trigger] settings[i],
    ) == starts_standard_setting(settings[i]) by {
        match settings[i] {
            Setting::Flag(flag) => standards_start(flag),
            Setting::FlagIfSupported(flag) => standards_start(flag),
            _ => {},
        }
    }
    if exists|i: int| 0 <= i < settings.len() && starts_standard_setting(#[trigger] settings[i]) {
        let i = choose|i: int|
            0 <= i < settings.len() && starts_standard_setting(#[trigger] settings[i]);
        assert(is_std_flag_setting(settings[i]));
    }
}

} // verus!
