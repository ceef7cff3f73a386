use vstd::prelude::*;

use crate::config::{accepts_stereo_bus_config, BufferConfig, BusConfig};
use crate::context::ProcessContext;
use crate::editor::Editor;
use crate::status::ProcessStatus;

verus! {

/// Basic functionality that needs to be implemented by a plugin. The wrappers use this to
/// expose the plugin in a particular plugin format.
///
/// `B` is the audio buffer type that the wrapper hands to `process`: all of its channels hold
/// the same number of samples, the input has already been copied to the output, and denormals
/// have already been flushed.
#[allow(unused_variables)]
pub trait Plugin<B>: Default + Send + Sync + 'static {
    const NAME: &'static str;
    const VENDOR: &'static str;
    const URL: &'static str;
    const EMAIL: &'static str;
    /// Semver compatible version string (e.g. `0.0.1`). This should only contain decimal
    /// digits and dots.
    const VERSION: &'static str;
    /// The default number of inputs. Some hosts use the defaults instead of setting up the
    /// busses properly.
    const DEFAULT_NUM_INPUTS: u32 = 2;
    /// The default number of outputs. Some hosts use the defaults instead of setting up the
    /// busses properly.
    const DEFAULT_NUM_OUTPUTS: u32 = 2;
    /// Whether the plugin accepts note events. If this is `false`, then the plugin won't
    /// receive any note events.
    const ACCEPTS_MIDI: bool = false;

    /// The plugin's editor, if it has one. The actual editor instance is created in
    /// `Editor::spawn`.
    fn editor(&self) -> Option<Box<dyn Editor>> {
        None
    }

    /// Whether the plugin supports a bus config. This only acts as a check, and the plugin
    /// shouldn't do anything beyond returning true or false. Unless a plugin says otherwise,
    /// it takes exactly two input and two output channels.
    fn accepts_bus_config(&self, config: &BusConfig) -> bool {
        accepts_stereo_bus_config(config)
    }

    /// Initialize the plugin for the given bus and buffer configurations. Any latency the
    /// plugin introduces is reported here through the process context. This may be called
    /// twice in rapid succession, so it must leave the same state each time it is given the
    /// same configuration. Returns `false` if the plugin cannot run with this configuration.
    fn initialize<C: ProcessContext>(
        &mut self,
        bus_config: &BusConfig,
        buffer_config: &BufferConfig,
        context: &mut C,
    ) -> bool {
        true
    }

    /// Process audio. This runs on the audio thread: it must not allocate, block, or panic.
    fn process<C: ProcessContext>(&mut self, buffer: &mut B, context: &mut C) -> ProcessStatus;
}

} // verus!
