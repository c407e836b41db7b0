use glyphic::counter_glyph::{Config, ExitData, Glyph};

#[test]
fn default_config_starts_at_zero() {
    let config = Config::default();
    assert_eq!(config.initial_value, 0);
    assert_eq!(Glyph::load(config).counter, 0);
}

#[test]
fn load_starts_at_initial_value() {
    let glyph = Glyph::load(Config { initial_value: 41 });
    assert_eq!(glyph.counter, 41);
}

#[test]
fn ticks_show_consecutive_values() {
    let mut glyph = Glyph::load(Config { initial_value: 7 });
    let shown: Vec<usize> = (0..4).map(|_| glyph.tick()).collect();
    assert_eq!(shown, vec![7, 8, 9, 10]);
    assert_eq!(glyph.counter, 11);
}

#[test]
fn last_tick_before_the_limit() {
    let mut glyph = Glyph::load(Config { initial_value: usize::MAX - 1 });
    assert_eq!(glyph.tick(), usize::MAX - 1);
    assert_eq!(glyph.counter, usize::MAX);
}

#[test]
fn exit_data_holds_final_value() {
    let exit = ExitData { final_value: 3 };
    assert_eq!(exit.final_value, 3);
}
