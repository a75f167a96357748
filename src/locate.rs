use vstd::prelude::*;
use crate::config::ComposerPluginConfig;
use crate::host::HostOs;
use crate::texts;
use crate::text_of;

verus! {

/// One executable that the tool exposes.
pub struct ExecutableEntry {
    /// The logical name the executable is known by.
    pub name: String,
    /// Whether it is the tool's primary executable.
    pub primary: bool,
    /// Its path, relative to the install directory.
    pub exe_path: String,
}

/// Where the tool's executables, and those installed globally with it, are found.
pub struct LocateExecutablesOutput {
    pub exes: Vec<ExecutableEntry>,
    pub exes_dirs: Vec<String>,
    pub globals_lookup_dirs: Vec<String>,
}

/// What a shell profile needs so that the tool and its globals are found.
pub struct SyncShellProfileOutput {
    /// Set once the profile holds the tool's lines, so that they are not added twice.
    pub check_var: String,
    /// Variables to export, as name and value.
    pub export_vars: Option<Vec<(String, String)>>,
    /// Directories to add to `PATH`.
    pub extend_path: Vec<String>,
    pub skip_sync: bool,
}

/// The primary executable's file name.
pub open spec fn primary_exe_name(os: HostOs) -> Seq<char> {
    if os == HostOs::Windows {
        "composer.bat"@
    } else {
        "composer"@
    }
}

/// The directories searched for global binaries, most preferred first.
pub open spec fn globals_lookup(home: Option<Seq<char>>) -> Seq<Seq<char>> {
    match home {
        Some(h) => seq![
            h + "/vendor/bin"@,
            "$HOME/.composer/vendor/bin"@,
            "$COMPOSER_HOME/vendor/bin"@,
        ],
        None => seq!["$HOME/.composer/vendor/bin"@, "$COMPOSER_HOME/vendor/bin"@],
    }
}

/// The variables a profile exports: `COMPOSER_HOME`, when a home is configured.
pub open spec fn profile_exports(home: Option<Seq<char>>) -> Option<Seq<(Seq<char>, Seq<char>)>> {
    match home {
        Some(h) => Some(seq![("COMPOSER_HOME"@, h)]),
        None => None,
    }
}

pub open spec fn pair_texts(v: Seq<(String, String)>) -> Seq<(Seq<char>, Seq<char>)> {
    v.map_values(|p: (String, String)| (p.0@, p.1@))
}

/// The tool's executables on `os`: one primary entry named `composer`
/// (`composer.bat` on Windows), searched for in the install directory, and the
/// global binary directories, a configured home's first.
pub fn locate_executables(os: HostOs, config: &ComposerPluginConfig) -> (r: LocateExecutablesOutput)
    ensures
        r.exes.len() == 1,
        r.exes[0].name@ == "composer"@,
        r.exes[0].primary,
        r.exes[0].exe_path@ == primary_exe_name(os),
        os == HostOs::Windows ==> r.exes[0].exe_path@ == "composer.bat"@,
        os != HostOs::Windows ==> r.exes[0].exe_path@ == "composer"@,
        texts(r.exes_dirs@) == seq!["."@],
        texts(r.globals_lookup_dirs@) == globals_lookup(text_of(config.composer_home)),
{
    let exe_path = if os.is_windows() {
        String::from_str("composer.bat")
    } else {
        String::from_str("composer")
    };
    let mut exes: Vec<ExecutableEntry> = Vec::new();
    exes.push(ExecutableEntry { name: String::from_str("composer"), primary: true, exe_path });
    let mut exes_dirs: Vec<String> = Vec::new();
    exes_dirs.push(String::from_str("."));
    let mut globals: Vec<String> = Vec::new();
    match &config.composer_home {
        Some(home) => {
            let mut dir = String::from_str(home.as_str());
            dir.append("/vendor/bin");
            globals.push(dir);
        },
        None => {},
    }
    globals.push(String::from_str("$HOME/.composer/vendor/bin"));
    globals.push(String::from_str("$COMPOSER_HOME/vendor/bin"));
    assert(texts(exes_dirs@) =~= seq!["."@]);
    assert(texts(globals@) =~= globals_lookup(text_of(config.composer_home)));
    LocateExecutablesOutput { exes, exes_dirs, globals_lookup_dirs: globals }
}

/// The profile lines for the tool: the guard `PROTO_COMPOSER_VERSION`, an export
/// of `COMPOSER_HOME` only when a home is configured, and the default global
/// binary directory on `PATH`.
pub fn sync_shell_profile(config: &ComposerPluginConfig) -> (r: SyncShellProfileOutput)
    ensures
        r.check_var@ == "PROTO_COMPOSER_VERSION"@,
        match r.export_vars {
            Some(v) => Some(pair_texts(v@)),
            None => None::<Seq<(Seq<char>, Seq<char>)>>,
        } == profile_exports(text_of(config.composer_home)),
        config.composer_home is None ==> r.export_vars is None,
        texts(r.extend_path@) == seq!["$HOME/.composer/vendor/bin"@],
        !r.skip_sync,
{
    let export_vars = match &config.composer_home {
        Some(home) => {
            let mut vars: Vec<(String, String)> = Vec::new();
            vars.push((String::from_str("COMPOSER_HOME"), home.clone()));
            assert(pair_texts(vars@) =~= seq![("COMPOSER_HOME"@, home@)]);
            Some(vars)
        },
        None => None,
    };
    let mut extend_path: Vec<String> = Vec::new();
    extend_path.push(String::from_str("$HOME/.composer/vendor/bin"));
    assert(texts(extend_path@) =~= seq!["$HOME/.composer/vendor/bin"@]);
    SyncShellProfileOutput {
        check_var: String::from_str("PROTO_COMPOSER_VERSION"),
        export_vars,
        extend_path,
        skip_sync: false,
    }
}

} // verus!
