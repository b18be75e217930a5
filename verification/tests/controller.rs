use led_controller::{
    Controller, ControllerConfig, LedController, PoliceConfig, Rgba, GRID_SIZE, LEDS_PER_STRIP,
    STRIPS,
};

#[test]
fn grid_constants_are_consistent() {
    assert_eq!(GRID_SIZE, LEDS_PER_STRIP * STRIPS);
    assert_eq!(LEDS_PER_STRIP, 480);
    assert_eq!(STRIPS, 8);
}

#[test]
fn new_controller_is_dark_and_zeroed() {
    let mut c = Controller::new();
    assert_eq!(c.get_config(), ControllerConfig { brightness: 255, as_srgb: false });
    assert_eq!(c.buffer().len(), 3 * GRID_SIZE);
    assert!(c.buffer().iter().all(|&b| b == 0));
    assert_eq!(c.empty_buffer().len(), 3 * GRID_SIZE);
    assert!(c.empty_buffer().iter().all(|&b| b == 0));
    let grid = c.state_mut();
    for strip in 0..STRIPS {
        assert_eq!(grid.get(strip, 0), Rgba::default());
        assert_eq!(grid.get(strip, LEDS_PER_STRIP - 1), Rgba::default());
    }
}

#[test]
fn config_roundtrips() {
    let mut c = Controller::new();
    let cfg = ControllerConfig { brightness: 17, as_srgb: true };
    c.set_config(cfg);
    assert_eq!(c.get_config(), cfg);
}

#[test]
fn empty_buffer_stays_zero_after_encoding() {
    let mut c = Controller::new();
    let grid = c.state_mut();
    for i in 0..GRID_SIZE {
        grid.set_flat(i, Rgba::opaque(255, 255, 255));
    }
    c.encode_state();
    assert!(c.buffer().iter().all(|&b| b == 255));
    assert!(c.empty_buffer().iter().all(|&b| b == 0));
}

#[test]
fn grid_two_dimensional_and_flat_accessors_agree() {
    let mut c = Controller::new();
    let grid = c.state_mut();
    let p = Rgba::new(9, 8, 7, 6);
    grid.set(3, 17, p);
    assert_eq!(grid.get_flat(3 * LEDS_PER_STRIP + 17), p);
    grid.set_flat(5 * LEDS_PER_STRIP + 2, p);
    assert_eq!(grid.get(5, 2), p);
    assert_eq!(grid.len(), GRID_SIZE);
}

#[test]
fn police_config_defaults_to_transparent_black() {
    let cfg = PoliceConfig::default();
    assert_eq!(cfg.color, Rgba::default());
}
