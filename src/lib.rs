pub mod bus;
pub mod gain_stage;
pub mod lifecycle;
pub mod params;
pub mod plugin;

pub use bus::{accepts_bus_config, BusConfig};
pub use gain_stage::{apply_gain, apply_gain_to_channel};
pub use lifecycle::Lifecycle;
pub use params::{AudioPluginParams, GainRange, RangeError, SmoothingLaw};
pub use plugin::{AudioPlugin, ProcessStatus};
