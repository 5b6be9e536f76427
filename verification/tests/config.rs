use timer_overlay::config::{
    Config, Rect, READOUT_BACKGROUND, READOUT_BOTTOM, READOUT_TEXT_COLOR, READOUT_TOP,
    TOPBAR_HEIGHT,
};

#[test]
fn the_settings_the_overlay_ships_with() {
    let config = Config::default();
    assert_eq!(config.pos_x, 20);
    assert_eq!(config.pos_y, 20);
    assert_eq!(config.width, 320);
    assert_eq!(config.height, 100);
    assert_eq!(config.font_size, 48);
    assert_eq!(config.topbar_color, 0x202020);
    assert!(config.click_through);
    assert_eq!(config.tick_interval_ms, 200);
}

#[test]
fn the_fixed_measures_of_the_window() {
    assert_eq!(TOPBAR_HEIGHT, 25);
    assert_eq!(READOUT_TOP, 28);
    assert_eq!(READOUT_BOTTOM, 60);
    assert_eq!(READOUT_BACKGROUND, 0x202020);
    assert_eq!(READOUT_TEXT_COLOR, 0);
}

#[test]
fn the_regions_span_the_width_of_the_window() {
    let config = Config::default();
    assert_eq!(config.topbar_rect(), Rect { left: 0, top: 0, right: 320, bottom: 25 });
    assert_eq!(config.readout_rect(), Rect { left: 0, top: 28, right: 320, bottom: 60 });
    let wide = Config { width: 1_000, ..config };
    assert_eq!(wide.topbar_rect(), Rect { left: 0, top: 0, right: 1_000, bottom: 25 });
    assert_eq!(wide.readout_rect(), Rect { left: 0, top: 28, right: 1_000, bottom: 60 });
}
