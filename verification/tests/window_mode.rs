use ram_lavalampe::WindowSizeMode;

#[test]
fn sizes_double_per_mode() {
    assert_eq!(WindowSizeMode::Small.get_size(), 128);
    assert_eq!(WindowSizeMode::Medium.get_size(), 256);
    assert_eq!(WindowSizeMode::Large.get_size(), 512);
    assert_eq!(WindowSizeMode::XLarge.get_size(), 1024);
}

#[test]
fn scale_up_steps_and_saturates_at_the_top() {
    assert_eq!(WindowSizeMode::Small.scale_up(), WindowSizeMode::Medium);
    assert_eq!(WindowSizeMode::Medium.scale_up(), WindowSizeMode::Large);
    assert_eq!(WindowSizeMode::Large.scale_up(), WindowSizeMode::XLarge);
    assert_eq!(WindowSizeMode::XLarge.scale_up(), WindowSizeMode::XLarge);
}

#[test]
fn scale_down_steps_and_saturates_at_the_bottom() {
    assert_eq!(WindowSizeMode::XLarge.scale_down(), WindowSizeMode::Large);
    assert_eq!(WindowSizeMode::Large.scale_down(), WindowSizeMode::Medium);
    assert_eq!(WindowSizeMode::Medium.scale_down(), WindowSizeMode::Small);
    assert_eq!(WindowSizeMode::Small.scale_down(), WindowSizeMode::Small);
}

#[test]
fn descriptions_name_the_surface_size() {
    assert_eq!(WindowSizeMode::Small.description(), "128x128");
    assert_eq!(WindowSizeMode::Medium.description(), "256x256");
    assert_eq!(WindowSizeMode::Large.description(), "512x512");
    assert_eq!(WindowSizeMode::XLarge.description(), "1024x1024");
}
