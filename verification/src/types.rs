//! Platforms and the directory each one owns in the page tree.

use vstd::prelude::*;

verus! {

/// The platform whose pages take precedence over the common ones.
#[derive(Clone, Copy, Debug, PartialEq, Eq, Structural)]
pub enum OsType {
    Linux,
    OsX,
    SunOs,
    Windows,
    Other,
}

impl OsType {
    /// The directory of the page tree that holds this platform's pages. A
    /// platform without one has no pages of its own.
    pub open spec fn dir_name(self) -> Option<Seq<char>> {
        match self {
            OsType::Linux => Some("linux"@),
            OsType::OsX => Some("osx"@),
            OsType::Windows => Some("windows"@),
            OsType::SunOs => None,
            OsType::Other => None,
        }
    }
}

} // verus!
