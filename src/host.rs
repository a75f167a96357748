use vstd::prelude::*;

verus! {

/// The operating system of the machine the tool is installed on.
#[derive(Clone, Copy, Debug, PartialEq, Eq, Structural)]
pub enum HostOs {
    Android,
    Dragonfly,
    FreeBSD,
    IOS,
    Linux,
    MacOS,
    NetBSD,
    OpenBSD,
    Solaris,
    Windows,
}

impl HostOs {
    /// Whether this is Windows, the one system that gets a batch launcher.
    pub fn is_windows(&self) -> (r: bool)
        ensures
            r == (*self == HostOs::Windows),
    {
        match self {
            HostOs::Windows => true,
            _ => false,
        }
    }
}

} // verus!
