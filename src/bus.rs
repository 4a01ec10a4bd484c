use vstd::prelude::*;

verus! {

/// Channel counts of the main input and output buses that a host offers.
#[derive(Clone, Copy, Debug, PartialEq, Eq, Structural)]
pub struct BusConfig {
    pub num_input_channels: u32,
    pub num_output_channels: u32,
}

/// A layout is usable when input and output carry the same, non-zero number of channels.
pub open spec fn bus_accepted(c: BusConfig) -> bool {
    c.num_input_channels == c.num_output_channels && c.num_input_channels > 0
}

/// Whether the effect can run on the given bus layout.
pub fn accepts_bus_config(config: &BusConfig) -> (r: bool)
    ensures
        r == bus_accepted(*config),
{
    config.num_input_channels == config.num_output_channels && config.num_input_channels > 0
}

} // verus!
