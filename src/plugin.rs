use vstd::prelude::*;

use crate::bus::{accepts_bus_config, bus_accepted, BusConfig};
use crate::gain_stage::{apply_gain, block_shaped, scaled_at, total_scale};
use crate::lifecycle::{is_initialized, Lifecycle};
use crate::params::AudioPluginParams;

verus! {

/// What a processing call reports back to the host.
#[derive(Clone, Copy, Debug, PartialEq, Eq, Structural)]
pub enum ProcessStatus {
    /// The block was processed.
    Normal,
}

/// The gain effect: its parameter set and where it stands in the host's lifecycle.
pub struct AudioPlugin {
    params: AudioPluginParams,
    lifecycle: Lifecycle,
}

impl AudioPlugin {
    pub closed spec fn spec_params(&self) -> AudioPluginParams {
        self.params
    }

    pub closed spec fn spec_lifecycle(&self) -> Lifecycle {
        self.lifecycle
    }

    pub open spec fn wf(&self) -> bool {
        self.spec_params().wf()
    }

    /// The parameter set shared with the host and the editor.
    pub fn params(&self) -> (r: AudioPluginParams)
        ensures
            r == self.spec_params(),
    {
        self.params
    }

    pub fn lifecycle(&self) -> (r: Lifecycle)
        ensures
            r == self.spec_lifecycle(),
    {
        self.lifecycle
    }

    /// Accepts a layout with as many input as output channels, and at least one.
    pub fn accepts_bus_config(&self, config: &BusConfig) -> (r: bool)
        ensures
            r == bus_accepted(*config),
    {
        accepts_bus_config(config)
    }

    /// Prepares the device for processing and brings it to `Ready`. Every layout the
    /// host hands over has already passed `accepts_bus_config`, so this always succeeds.
    pub fn initialize(&mut self, _bus_config: &BusConfig) -> (r: bool)
        ensures
            r,
            final(self).spec_params() == old(self).spec_params(),
            final(self).spec_lifecycle() == Lifecycle::Ready,
    {
        self.lifecycle.initialize();
        true
    }

    /// Discards any transition in flight and returns to `Ready`; before initialization
    /// it returns `false` and changes nothing.
    pub fn reset(&mut self) -> (r: bool)
        ensures
            r == is_initialized(old(self).spec_lifecycle()),
            final(self).spec_params() == old(self).spec_params(),
            final(self).spec_lifecycle() == if r {
                Lifecycle::Ready
            } else {
                old(self).spec_lifecycle()
            },
    {
        self.lifecycle.reset()
    }

    /// Marks the start of a block; `false`, with no change, before initialization.
    pub fn begin_block(&mut self) -> (r: bool)
        ensures
            r == is_initialized(old(self).spec_lifecycle()),
            final(self).spec_params() == old(self).spec_params(),
            final(self).spec_lifecycle() == if r {
                Lifecycle::Processing
            } else {
                old(self).spec_lifecycle()
            },
    {
        self.lifecycle.begin_block()
    }

    /// Processes one block: every sample at index `i` of every channel is multiplied
    /// by `gains[i]`, the smoothed gain of that index, so each index is given exactly
    /// one gain and all channels share it. Processing cannot fail.
    pub fn process<S: Copy, G: Copy, M: Fn(S, G) -> S>(
        &mut self,
        channels: &mut Vec<Vec<S>>,
        gains: &[G],
        scale: &M,
    ) -> (r: ProcessStatus)
        requires
            is_initialized(old(self).spec_lifecycle()),
            block_shaped(old(channels)@, gains@),
            total_scale(*scale),
        ensures
            r == ProcessStatus::Normal,
            final(self).spec_params() == old(self).spec_params(),
            final(self).spec_lifecycle() == Lifecycle::Processing,
            final(channels)@.len() == old(channels)@.len(),
            block_shaped(final(channels)@, gains@),
            forall|c: int, i: int|
                0 <= c < final(channels)@.len() && 0 <= i < gains@.len() ==> #[trigger] scaled_at(
                    *scale,
                    old(channels)@[c]@,
                    gains@,
                    final(channels)@[c]@,
                    i,
                ),
    {
        self.begin_block();
        apply_gain(channels, gains, scale);
        ProcessStatus::Normal
    }
}

impl Default for AudioPlugin {
    /// The default parameter set, not yet initialized.
    fn default() -> (r: AudioPlugin)
        ensures
            r.wf(),
            r.spec_params().gain_range.spec_min_db() == -30,
            r.spec_params().gain_range.spec_max_db() == 30,
            r.spec_params().default_gain_db == 0,
            r.spec_params().smoothing_time_ms == 50,
            r.spec_lifecycle() == Lifecycle::Uninitialized,
    {
        AudioPlugin { params: AudioPluginParams::default(), lifecycle: Lifecycle::Uninitialized }
    }
}

} // verus!
