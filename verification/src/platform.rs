//! What the application runs on.
use vstd::prelude::*;

verus! {

/// Where the application runs: as a program of its own, or in a web page that was
/// loaded from `origin`.
#[derive(Clone, Copy, Debug, PartialEq)]
pub enum Platform<'a> {
    Native,
    Web { origin: &'a str },
}

/// The resource limits to ask a graphics device for.
#[derive(Clone, Copy, Debug, PartialEq, Eq, Structural)]
pub enum LimitsPreset {
    /// What current devices have.
    Default,
    /// What WebGL2 is guaranteed to have.
    DownlevelWebGl2,
}

impl<'a> Platform<'a> {
    /// The resource limits to ask for on this platform.
    pub fn limits(self) -> (limits: LimitsPreset)
        ensures
            self is Web ==> limits == LimitsPreset::DownlevelWebGl2,
            self is Native ==> limits == LimitsPreset::Default,
    {
        match self {
            Platform::Native => LimitsPreset::Default,
            Platform::Web { .. } => LimitsPreset::DownlevelWebGl2,
        }
    }
}

} // verus!
