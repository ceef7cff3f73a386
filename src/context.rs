use vstd::prelude::*;

verus! {

/// Host services that the wrapper lends to a plugin for the length of one `initialize` or
/// `process` call. The plugin must not keep it beyond that call.
pub trait ProcessContext {
    /// Report the latency that the plugin introduces, in samples, so that the host can
    /// compensate for it.
    fn set_latency_samples(&self, samples: u32);
}

/// The capability through which a spawned editor reaches the host from the GUI thread. An
/// editor may keep it, reference counted, for its whole lifetime; the audio thread never
/// touches it.
pub trait GuiContext: Send + Sync {}

} // verus!
