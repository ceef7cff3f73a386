use vstd::prelude::*;

use raw_window_handle::RawWindowHandle;

verus! {

/// The native window handle type of raw-window-handle, carried through unopened: the library
/// only hands it from the host to an editor.
#[verifier::external_type_specification]
#[verifier::external_body]
pub struct ExRawWindowHandle(RawWindowHandle);

/// A raw window handle for platform and GUI framework agnostic editors. The handle is borrowed
/// from the host for one editor spawn; this type does not own the native window.
pub struct ParentWindowHandle {
    pub handle: RawWindowHandle,
}

impl ParentWindowHandle {
    /// The native handle of the host's parent window.
    pub fn raw_window_handle(&self) -> (r: RawWindowHandle)
        ensures
            r == self.handle,
    {
        self.handle
    }
}

} // verus!
