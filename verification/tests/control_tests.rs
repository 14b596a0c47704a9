use filament_dryer::button_cluster::handle_button;
use filament_dryer::button_cluster::ButtonEvent;
use filament_dryer::display::DisplayState;
use filament_dryer::dry_table::Material;
use filament_dryer::dryer::display_refresh_due;
use filament_dryer::dryer::heater_decision;
use filament_dryer::dryer::render_frame;
use filament_dryer::dryer::render_idle_line1;
use filament_dryer::dryer::render_menu_line1;
use filament_dryer::dryer::render_menu_line2;
use filament_dryer::dryer::render_reading_line;
use filament_dryer::dryer::should_sample;
use filament_dryer::dryer::tick;
use filament_dryer::dryer::HeaterState;
use filament_dryer::shared_data::SharedData;

fn padded(prefix: &[u8]) -> Vec<u8> {
    let mut v = prefix.to_vec();
    while v.len() < 39 {
        v.push(b' ');
    }
    v
}

#[test]
fn hysteresis_is_sticky_around_target() {
    // Target 45.0 C, dead band 43.5..46.5.
    let mut on = false;
    on = heater_decision(on, 4300, 45);
    assert!(on); // 43.0: below the band, turns on.
    on = heater_decision(on, 4400, 45);
    assert!(on); // 44.0: inside the band, stays on.
    on = heater_decision(on, 4700, 45);
    assert!(!on); // 47.0: above the band, turns off.
    on = heater_decision(on, 4500, 45);
    assert!(!on); // 45.0: inside the band, stays off.
}

#[test]
fn hysteresis_band_edges_hold_state() {
    assert!(heater_decision(true, 4350, 45));
    assert!(!heater_decision(false, 4350, 45));
    assert!(heater_decision(true, 4650, 45));
    assert!(!heater_decision(false, 4650, 45));
    assert!(heater_decision(false, 4349, 45));
    assert!(!heater_decision(true, 4651, 45));
}

#[test]
fn confirm_commits_hovered_material_from_menu() {
    let mut data = SharedData::new();
    handle_button(&mut data, ButtonEvent::Back, 10);
    assert_eq!(data.display_state, DisplayState::Menu);
    for _ in 0..4 {
        handle_button(&mut data, ButtonEvent::Right, 20);
    }
    assert_eq!(data.hovered_material, Material::Petg);

    handle_button(&mut data, ButtonEvent::Confirm, 12345);
    assert_eq!(data.material, Material::Petg);
    assert_eq!(data.heater_state, HeaterState::Running);
    assert_eq!(data.display_state, DisplayState::Idle);
    assert_eq!(data.heater_started, 12345);
}

#[test]
fn confirm_on_status_screen_does_nothing() {
    let mut data = SharedData::new();
    data.hovered_material = Material::Petg;
    let before = data;
    handle_button(&mut data, ButtonEvent::Confirm, 999);
    assert_eq!(data, before);
}

#[test]
fn back_opens_menu_once() {
    let mut data = SharedData::new();
    handle_button(&mut data, ButtonEvent::Back, 1);
    assert_eq!(data.display_state, DisplayState::Menu);
    let before = data;
    handle_button(&mut data, ButtonEvent::Back, 2);
    assert_eq!(data, before);
}

#[test]
fn left_and_right_step_regardless_of_screen() {
    let mut data = SharedData::new();
    assert_eq!(data.display_state, DisplayState::Idle);
    handle_button(&mut data, ButtonEvent::Right, 1);
    assert_eq!(data.hovered_material, Material::Demo);
    handle_button(&mut data, ButtonEvent::Left, 2);
    assert_eq!(data.hovered_material, Material::Idle);
    handle_button(&mut data, ButtonEvent::Left, 3);
    assert_eq!(data.hovered_material, Material::Tpu);
}

#[test]
fn auto_shutoff_at_demo_duration() {
    // Demo runs for five minutes. One second before the deadline nothing
    // resets; at the deadline both materials reset and the mode stays
    // Running.
    let mut data = SharedData::new();
    data.heater_state = HeaterState::Running;
    data.material = Material::Demo;
    data.hovered_material = Material::Demo;
    data.heater_started = 0;

    let out = tick(&mut data, false, 4400, 299_000);
    assert_eq!(data.material, Material::Demo);
    assert_eq!(data.hovered_material, Material::Demo);
    assert!(out.fan_on);

    let out = tick(&mut data, false, 4400, 300_000);
    assert_eq!(data.material, Material::Idle);
    assert_eq!(data.hovered_material, Material::Idle);
    assert_eq!(data.heater_state, HeaterState::Running);
    assert!(out.fan_on);
}

#[test]
fn tick_idle_forces_outputs_off() {
    let mut data = SharedData::new();
    let before = data;
    let out = tick(&mut data, true, 4400, 5000);
    assert!(!out.heater_on);
    assert!(!out.fan_on);
    assert_eq!(data, before);
}

#[test]
fn tick_running_without_material_forces_outputs_off() {
    let mut data = SharedData::new();
    data.heater_state = HeaterState::Running;
    let before = data;
    let out = tick(&mut data, true, 4400, 5000);
    assert!(!out.heater_on);
    assert!(!out.fan_on);
    assert_eq!(data, before);
}

#[test]
fn tick_active_cycle_drives_fan_and_heater() {
    let mut data = SharedData::new();
    data.heater_state = HeaterState::Running;
    data.material = Material::Asa; // target 80 C
    data.heater_started = 0;
    let out = tick(&mut data, false, 7000, 1000);
    assert!(out.fan_on);
    assert!(out.heater_on); // 70.0 C is far below 78.5.
    let out = tick(&mut data, true, 8200, 2000);
    assert!(!out.heater_on); // 82.0 C is above 81.5.
}

#[test]
fn idle_sampling_is_throttled_to_thirty_seconds() {
    let data = SharedData::new();
    assert!(!should_sample(&data, 0, 30_000));
    assert!(should_sample(&data, 0, 30_001));

    let mut running = SharedData::new();
    running.heater_state = HeaterState::Running;
    running.material = Material::Pla;
    assert!(should_sample(&running, 0, 1));

    running.material = Material::Idle;
    assert!(!should_sample(&running, 0, 1_000_000));
}

#[test]
fn display_refresh_throttled_to_one_second() {
    assert!(!display_refresh_due(0, 1000));
    assert!(display_refresh_due(0, 1001));
}

#[test]
fn status_line_counts_down() {
    assert_eq!(render_idle_line1(Material::Idle, 0), b"Idle".to_vec());
    assert_eq!(render_idle_line1(Material::Pla, 21599), b"PLA: 05:59:59".to_vec());
    assert_eq!(render_idle_line1(Material::Demo, 299), b"DEMO: 00:04:59".to_vec());
}

#[test]
fn reading_line_formats_hundredths() {
    assert_eq!(render_reading_line(2350, 4500), b"23.50C 45.00%rh".to_vec());
    assert_eq!(render_reading_line(-450, 800), b"-4.50C 8.00%rh".to_vec());
    assert_eq!(render_reading_line(0, 0), b"0.00C 0.00%rh".to_vec());
}

#[test]
fn menu_lines_show_hovered_material() {
    assert_eq!(render_menu_line1(Material::Petg), b"<   PETG     >".to_vec());
    assert_eq!(render_menu_line2(Material::Petg), b"55C 6hrs  ".to_vec());
    assert_eq!(render_menu_line2(Material::Demo), b"45C 0hrs  ".to_vec());
}

#[test]
fn frame_follows_display_state() {
    let mut data = SharedData::new();
    data.heater_state = HeaterState::Running;
    data.material = Material::Demo;
    data.heater_started = 0;
    let (l1, l2) = render_frame(&data, 4411, 5025, 1000);
    assert_eq!(l1, padded(b"DEMO: 00:04:59"));
    assert_eq!(l2, padded(b"44.11C 50.25%rh"));

    data.display_state = DisplayState::Menu;
    data.hovered_material = Material::Tpu;
    let (m1, m2) = render_frame(&data, 4411, 5025, 1000);
    assert_eq!(m1, padded(b"<   TPU     >"));
    assert_eq!(m2, padded(b"60C 4hrs  "));
}
