use vstd::prelude::*;
use crate::texts;

verus! {

/// The kind of tool a plugin manages.
#[derive(Clone, Copy, Debug, PartialEq, Eq, Structural)]
pub enum PluginType {
    CommandLine,
    Language,
    DependencyManager,
    VersionManager,
}

/// A release of the host, as major, minor and patch numbers.
#[derive(Clone, Copy, Debug, PartialEq, Eq, Structural)]
pub struct HostVersion {
    pub major: u64,
    pub minor: u64,
    pub patch: u64,
}

/// How the tool introduces itself to the host.
pub struct ToolRegistration {
    pub name: String,
    pub type_of: PluginType,
    /// The oldest host release the plugin works with.
    pub minimum_proto_version: HostVersion,
    /// Other tools that must be present.
    pub required_tools: Vec<String>,
}

/// Which files mark a project that uses the tool, and which directories to skip.
pub struct VersionFileDetection {
    pub files: Vec<String>,
    pub ignore: Vec<String>,
}

/// Composer, a dependency manager that needs PHP and host release 0.46.0 or later.
pub fn register_tool() -> (r: ToolRegistration)
    ensures
        r.name@ == "Composer"@,
        r.type_of == PluginType::DependencyManager,
        r.minimum_proto_version == (HostVersion { major: 0, minor: 46, patch: 0 }),
        texts(r.required_tools@) == seq!["php"@],
{
    let mut required: Vec<String> = Vec::new();
    required.push(String::from_str("php"));
    assert(texts(required@) =~= seq!["php"@]);
    ToolRegistration {
        name: String::from_str("Composer"),
        type_of: PluginType::DependencyManager,
        minimum_proto_version: HostVersion { major: 0, minor: 46, patch: 0 },
        required_tools: required,
    }
}

/// Projects are marked by `composer.json`; `vendor` is not searched.
pub fn detect_version_files() -> (r: VersionFileDetection)
    ensures
        texts(r.files@) == seq!["composer.json"@],
        texts(r.ignore@) == seq!["vendor"@],
{
    let mut files: Vec<String> = Vec::new();
    files.push(String::from_str("composer.json"));
    let mut ignore: Vec<String> = Vec::new();
    ignore.push(String::from_str("vendor"));
    assert(texts(files@) =~= seq!["composer.json"@]);
    assert(texts(ignore@) =~= seq!["vendor"@]);
    VersionFileDetection { files, ignore }
}

/// `composer.json` does not pin the tool's own version, so no version is ever
/// read from a version file.
pub fn parse_version_file(file: &str, content: &str) -> (r: Option<String>)
    ensures
        r is None,
{
    None
}

} // verus!
