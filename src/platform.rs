use vstd::prelude::*;

verus! {

/// The operating system that a plugin binary is built for. The few rules that differ between
/// platforms take it as an argument, so that they can be checked for every platform at once.
#[derive(Debug, Clone, Copy, PartialEq, Eq, Structural)]
pub enum Platform {
    Windows,
    MacOs,
    /// Linux and every other platform.
    Other,
}

impl Platform {
    /// Whether VST3 hosts on this platform store the leading fields of a class identifier in
    /// little-endian byte order.
    pub open spec fn swaps_vst3_uid(self) -> bool {
        self is Windows
    }
}

} // verus!
