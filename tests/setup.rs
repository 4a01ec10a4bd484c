use audio_plugin::{
    accepts_bus_config, AudioPlugin, AudioPluginParams, BusConfig, GainRange, Lifecycle,
    RangeError, SmoothingLaw,
};

fn bus(i: u32, o: u32) -> BusConfig {
    BusConfig { num_input_channels: i, num_output_channels: o }
}

#[test]
fn bus_layouts() {
    assert!(accepts_bus_config(&bus(2, 2)));
    assert!(accepts_bus_config(&bus(1, 1)));
    assert!(!accepts_bus_config(&bus(0, 0)));
    assert!(!accepts_bus_config(&bus(2, 1)));
    assert!(!accepts_bus_config(&bus(1, 2)));
}

#[test]
fn default_plugin_is_uninitialized() {
    let plugin = AudioPlugin::default();
    assert_eq!(plugin.lifecycle(), Lifecycle::Uninitialized);
    assert!(plugin.accepts_bus_config(&bus(2, 2)));
    assert!(!plugin.accepts_bus_config(&bus(2, 0)));
}

#[test]
fn lifecycle_transitions() {
    let mut plugin = AudioPlugin::default();
    assert!(!plugin.reset());
    assert!(!plugin.begin_block());
    assert_eq!(plugin.lifecycle(), Lifecycle::Uninitialized);
    assert!(plugin.initialize(&bus(2, 2)));
    assert_eq!(plugin.lifecycle(), Lifecycle::Ready);
    assert!(plugin.begin_block());
    assert_eq!(plugin.lifecycle(), Lifecycle::Processing);
    assert!(plugin.reset());
    assert_eq!(plugin.lifecycle(), Lifecycle::Ready);
    assert!(plugin.initialize(&bus(2, 1)));
    assert_eq!(plugin.lifecycle(), Lifecycle::Ready);
}

#[test]
fn default_params() {
    let p = AudioPluginParams::default();
    assert_eq!(p.gain_range.min_db(), -30);
    assert_eq!(p.gain_range.max_db(), 30);
    assert_eq!(p.default_gain_db, 0);
    assert_eq!(p.smoothing_time_ms, 50);
    assert_eq!(p.smoothing_law, SmoothingLaw::Logarithmic);
    assert_eq!(p.gain_id, "gain");
    assert_eq!(p.gain_name, "Gain");
    assert_eq!(p.gain_unit, " dB");
    assert_eq!(p.display_decimals, 2);
    assert_eq!(AudioPlugin::default().params(), p);
}

#[test]
fn gain_range_construction() {
    let r = GainRange::new(-12, 6).unwrap();
    assert_eq!((r.min_db(), r.max_db()), (-12, 6));
    assert!(r.contains_db(-12) && r.contains_db(0) && r.contains_db(6));
    assert!(!r.contains_db(7) && !r.contains_db(-13));
    assert_eq!(GainRange::new(3, 3), Err(RangeError::InvalidRange));
    assert_eq!(GainRange::new(5, -5), Err(RangeError::InvalidRange));
    assert_eq!(GainRange::new(0, 0), Err(RangeError::InvalidRange));
}
