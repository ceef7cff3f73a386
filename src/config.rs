use vstd::prelude::*;

verus! {

/// We only support a single main input and output bus at the moment.
#[derive(Debug, Clone, Copy, PartialEq, Eq, Structural)]
pub struct BusConfig {
    /// The number of input channels for the plugin.
    pub num_input_channels: u32,
    /// The number of output channels for the plugin.
    pub num_output_channels: u32,
}

impl BusConfig {
    /// Whether this is the layout with two input and two output channels.
    pub open spec fn is_stereo(&self) -> bool {
        self.num_input_channels == 2 && self.num_output_channels == 2
    }
}

/// The bus acceptance policy that a plugin has when it does not choose its own: exactly two
/// input channels and two output channels.
pub fn accepts_stereo_bus_config(config: &BusConfig) -> (r: bool)
    ensures
        r == config.is_stereo(),
{
    config.num_input_channels == 2 && config.num_output_channels == 2
}

/// Configuration for (the host's) audio buffers.
#[derive(Debug, Clone, Copy, PartialEq, Eq, Structural)]
pub struct BufferConfig {
    /// The current sample rate in Hz, held as the bit pattern of an IEEE 754 single-precision
    /// number (`f32::to_bits`), so that the value is kept exactly.
    pub sample_rate_bits: u32,
    /// The maximum buffer size the host will use. The plugin should be able to accept variable
    /// sized buffers up to this size.
    pub max_buffer_size: u32,
}

impl BufferConfig {
    /// Whether a buffer of `num_samples` samples lies in the range that the host may hand to a
    /// process call: at least one sample and at most `max_buffer_size`.
    pub fn admits_buffer_size(&self, num_samples: u32) -> (r: bool)
        ensures
            r == (1 <= num_samples <= self.max_buffer_size),
    {
        1 <= num_samples && num_samples <= self.max_buffer_size
    }
}

} // verus!
