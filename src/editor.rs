use vstd::prelude::*;

use std::sync::Arc;

use crate::context::GuiContext;
use crate::window::ParentWindowHandle;

verus! {

/// Anything that keeps a spawned editor alive. Dropping it closes the editor.
pub trait EditorHandle {}

impl<T> EditorHandle for T {}

/// The handle to a spawned editor instance. The editor's view is torn down when this is
/// dropped; give the handle a `Drop` impl to handle the closing explicitly.
pub struct SpawnedEditor {
    #[allow(dead_code)]
    handle: Box<dyn EditorHandle>,
}

impl SpawnedEditor {
    /// Take ownership of whatever keeps the editor's view alive.
    pub fn new<H: EditorHandle + 'static>(handle: H) -> Self {
        SpawnedEditor { handle: Box::new(handle) }
    }
}

/// An editor for a plugin.
pub trait Editor: Send + Sync {
    /// Create an instance of the plugin's editor and embed it in the parent window. The editor
    /// may read parameter values from the plugin's shared state and push edits back to the host
    /// through the `GuiContext`, which it may keep.
    ///
    /// The returned handle is dropped when the editor gets closed. The wrapper guarantees that
    /// a previous handle has been dropped before this function is called again.
    fn spawn(&self, parent: ParentWindowHandle, context: Arc<dyn GuiContext>) -> SpawnedEditor;

    /// Return the (current) size of the editor in pixels as a `(width, height)` pair.
    fn size(&self) -> (u32, u32);
}

} // verus!
