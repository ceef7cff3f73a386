use vstd::prelude::*;

use crate::platform::Platform;

verus! {

/// The modifier keys held down during a keyboard or mouse event.
#[derive(Debug, Clone, Copy, PartialEq, Eq, Structural)]
pub struct KeyModifiers {
    pub shift: bool,
    pub ctrl: bool,
    pub alt: bool,
    /// The Command key on macOS, the Windows key elsewhere.
    pub logo: bool,
}

/// Platform-independent getters for the modifier keys of an event.
pub trait ModifiersExt {
    spec fn command_held(&self, platform: Platform) -> bool;

    spec fn alt_held(&self) -> bool;

    spec fn shift_held(&self) -> bool;

    /// Returns true if the Command (on macOS) or Ctrl (on any other platform) key is pressed.
    fn command(&self, platform: Platform) -> (r: bool)
        ensures
            r == self.command_held(platform),
    ;

    /// Returns true if the Alt (or Option on macOS) key is pressed.
    fn alt(&self) -> (r: bool)
        ensures
            r == self.alt_held(),
    ;

    /// Returns true if the Shift key is pressed.
    fn shift(&self) -> (r: bool)
        ensures
            r == self.shift_held(),
    ;
}

impl ModifiersExt for KeyModifiers {
    open spec fn command_held(&self, platform: Platform) -> bool {
        if platform is MacOs {
            self.logo
        } else {
            self.ctrl
        }
    }

    open spec fn alt_held(&self) -> bool {
        self.alt
    }

    open spec fn shift_held(&self) -> bool {
        self.shift
    }

    fn command(&self, platform: Platform) -> (r: bool) {
        match platform {
            Platform::MacOs => self.logo,
            _ => self.ctrl,
        }
    }

    fn alt(&self) -> (r: bool) {
        self.alt
    }

    fn shift(&self) -> (r: bool) {
        self.shift
    }
}

} // verus!
