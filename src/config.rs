use vstd::prelude::*;

verus! {

/// Options a user may set for the Composer tool.
pub struct ComposerPluginConfig {
    /// Custom `COMPOSER_HOME` directory.
    pub composer_home: Option<String>,
    /// Whether release candidates, alphas and betas are offered as versions.
    pub allow_pre_releases: bool,
}

impl Default for ComposerPluginConfig {
    fn default() -> (r: Self)
        ensures
            r.composer_home is None,
            !r.allow_pre_releases,
    {
        ComposerPluginConfig { composer_home: None, allow_pre_releases: false }
    }
}

} // verus!
