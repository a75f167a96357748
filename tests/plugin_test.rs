use composer_plugin::locate::{locate_executables, sync_shell_profile};
use composer_plugin::tool::{detect_version_files, parse_version_file, register_tool, PluginType};
use composer_plugin::versions::{load_versions, resolve_version, UnresolvedVersion};
use composer_plugin::{ComposerPluginConfig, HostOs};

fn strings(items: &[&str]) -> Vec<String> {
    items.iter().map(|s| s.to_string()).collect()
}

#[test]
fn registers_tool_metadata() {
    let output = register_tool();
    assert_eq!(output.name, "Composer");
    assert_eq!(output.type_of, PluginType::DependencyManager);
    assert_eq!(output.minimum_proto_version.major, 0);
    assert_eq!(output.minimum_proto_version.minor, 46);
    assert_eq!(output.minimum_proto_version.patch, 0);
    assert_eq!(output.required_tools, vec!["php"]);
}

#[test]
fn loads_versions_from_git() {
    let tags = strings(&["2.8.6", "2.8.5", "2.7.0", "2.0.0-RC1", "1.10.27", "1.0.0"]);
    let versions = load_versions(&tags, false);

    assert!(!versions.is_empty());
    assert!(versions.iter().any(|v| v.starts_with("2.")));
    assert!(!versions.iter().any(|v| v.starts_with("1.")));
}

#[test]
fn detects_version_files() {
    let output = detect_version_files();
    assert_eq!(output.files, vec!["composer.json"]);
    assert_eq!(output.ignore, vec!["vendor"]);
}

#[test]
fn locates_executables_unix() {
    let output = locate_executables(HostOs::Linux, &ComposerPluginConfig::default());
    let composer = output
        .exes
        .iter()
        .find(|e| e.name == "composer")
        .expect("composer executable missing");
    assert!(composer.primary);
    assert_eq!(composer.exe_path, "composer");
    assert_eq!(output.exes_dirs, vec![".".to_string()]);
}

#[test]
fn locates_executables_windows() {
    let output = locate_executables(HostOs::Windows, &ComposerPluginConfig::default());
    let composer = output
        .exes
        .iter()
        .find(|e| e.name == "composer")
        .expect("composer executable missing");
    assert!(composer.primary);
    assert_eq!(composer.exe_path, "composer.bat");
}

#[test]
fn legacy_major_is_excluded() {
    let tags = strings(&["2.8.6", "1.10.27", "2.7.0"]);
    assert_eq!(load_versions(&tags, false), vec!["2.8.6", "2.7.0"]);
    assert_eq!(load_versions(&tags, true), vec!["2.8.6", "2.7.0"]);
}

#[test]
fn pre_releases_excluded_by_default() {
    let tags = strings(&["2.9.0", "2.9.0-RC1", "2.9.0-beta2"]);
    assert_eq!(load_versions(&tags, false), vec!["2.9.0"]);
}

#[test]
fn pre_releases_pass_when_allowed() {
    let tags = strings(&["2.9.0", "2.9.0-RC1", "2.9.0-beta2"]);
    assert_eq!(load_versions(&tags, true), vec!["2.9.0", "2.9.0-RC1", "2.9.0-beta2"]);
}

#[test]
fn pre_release_markers_match_in_any_case() {
    let tags = strings(&["2.0.0-ALPHA1", "2.0.0-Beta", "2.0.0-rc.2", "2.0.0", "2.1.0"]);
    assert_eq!(load_versions(&tags, false), vec!["2.0.0", "2.1.0"]);
}

#[test]
fn empty_tag_list_gives_no_versions() {
    let tags: Vec<String> = Vec::new();
    assert!(load_versions(&tags, false).is_empty());
    assert!(load_versions(&tags, true).is_empty());
}

#[test]
fn tags_are_kept_verbatim_with_duplicates() {
    let tags = strings(&["2.5.0", "", "2.5.0", "v2.5.0", "20.0"]);
    assert_eq!(load_versions(&tags, false), vec!["2.5.0", "2.5.0", "20.0"]);
}

#[test]
fn explicit_version_gets_no_candidate() {
    let initial = UnresolvedVersion::Other("2.8.6".to_string());
    assert_eq!(resolve_version(&initial), None);
}

#[test]
fn other_alias_gets_no_candidate() {
    let initial = UnresolvedVersion::Alias("latest".to_string());
    assert_eq!(resolve_version(&initial), None);
    let initial = UnresolvedVersion::Alias("LTS".to_string());
    assert_eq!(resolve_version(&initial), None);
}

#[test]
fn lts_and_stable_resolve_to_latest() {
    let lts = UnresolvedVersion::Alias("lts".to_string());
    let stable = UnresolvedVersion::Alias("stable".to_string());
    assert_eq!(resolve_version(&lts), Some("latest".to_string()));
    assert_eq!(resolve_version(&stable), Some("latest".to_string()));
}

#[test]
fn version_file_gives_no_version() {
    assert_eq!(parse_version_file("composer.json", "{\"require\": {}}"), None);
}

#[test]
fn non_windows_systems_use_plain_name() {
    let config = ComposerPluginConfig::default();
    for os in [HostOs::Linux, HostOs::MacOS, HostOs::FreeBSD, HostOs::Android] {
        let output = locate_executables(os, &config);
        assert_eq!(output.exes.len(), 1);
        assert_eq!(output.exes[0].exe_path, "composer");
    }
}

#[test]
fn custom_home_comes_first_in_globals_lookup() {
    let config = ComposerPluginConfig {
        composer_home: Some("/custom".to_string()),
        allow_pre_releases: false,
    };
    let output = locate_executables(HostOs::Linux, &config);
    assert_eq!(
        output.globals_lookup_dirs,
        vec!["/custom/vendor/bin", "$HOME/.composer/vendor/bin", "$COMPOSER_HOME/vendor/bin"]
    );
}

#[test]
fn globals_lookup_without_home() {
    let output = locate_executables(HostOs::Windows, &ComposerPluginConfig::default());
    assert_eq!(
        output.globals_lookup_dirs,
        vec!["$HOME/.composer/vendor/bin", "$COMPOSER_HOME/vendor/bin"]
    );
}

#[test]
fn profile_without_home_has_no_exports() {
    let output = sync_shell_profile(&ComposerPluginConfig::default());
    assert_eq!(output.check_var, "PROTO_COMPOSER_VERSION");
    assert!(output.export_vars.is_none());
    assert_eq!(output.extend_path, vec!["$HOME/.composer/vendor/bin"]);
    assert!(!output.skip_sync);
}

#[test]
fn profile_with_home_exports_it() {
    let config = ComposerPluginConfig {
        composer_home: Some("/opt/composer".to_string()),
        allow_pre_releases: true,
    };
    let output = sync_shell_profile(&config);
    assert_eq!(
        output.export_vars,
        Some(vec![("COMPOSER_HOME".to_string(), "/opt/composer".to_string())])
    );
    assert_eq!(output.extend_path, vec!["$HOME/.composer/vendor/bin"]);
}

#[test]
fn default_config_has_no_home_and_no_pre_releases() {
    let config = ComposerPluginConfig::default();
    assert!(config.composer_home.is_none());
    assert!(!config.allow_pre_releases);
}
