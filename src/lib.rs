//! Version selection, installation planning and executable discovery for the
//! Composer tool, written as verified functions over plain values.

use vstd::prelude::*;

pub mod config;
pub mod host;
pub mod install;
pub mod locate;
pub mod tool;
pub mod versions;

pub use config::ComposerPluginConfig;
pub use host::HostOs;

verus! {

/// The text held by an optional string.
pub open spec fn text_of(o: Option<String>) -> Option<Seq<char>> {
    match o {
        Some(s) => Some(s@),
        None => None,
    }
}

/// The texts held by a list of strings.
pub open spec fn texts(v: Seq<String>) -> Seq<Seq<char>> {
    v.map_values(|s: String| s@)
}

} // verus!
