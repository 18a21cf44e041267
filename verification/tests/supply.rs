use spacecraft_power::camera::EventCamera;
use spacecraft_power::communication::Communication;
use spacecraft_power::component::Component;
use spacecraft_power::computer::FlightComputer;
use spacecraft_power::heaters::Heaters;
use spacecraft_power::navigation::Navigation;
use spacecraft_power::supply::{PowerSupply, BUS_OVERHEAD_UW};

#[test]
fn supply_total_at_start() {
    let mut supply = PowerSupply::new();
    // 0.636 + 1.59 + 1.855 + 0 + 0.382 + 1.3587
    assert_eq!(supply.power_draw_at(0, 0), 5_821_700);
    assert_eq!(BUS_OVERHEAD_UW, 636_000);
}

#[test]
fn supply_total_is_overhead_and_components() {
    let mut supply = PowerSupply::new();
    supply.set_heater_2(true);
    supply.set_uhf_transmit(true);
    supply.set_maneuvering(true);

    let camera = EventCamera::new();
    let computer = FlightComputer::new();
    let mut heaters = Heaters::new();
    heaters.on_heater_2(true);
    let mut radios = Communication::new();
    radios.enable_uhf_band(true);
    let mut navigation = Navigation::new();
    navigation.enable_maneuvering(true);

    for (elapsed_us, jitter_s) in [(0, 0), (3_000_000, -2), (5_000_001, 1), (77_777_777, 0)] {
        let expected = 636_000
            + camera.power_draw_at(elapsed_us, jitter_s)
            + computer.power_draw_at(elapsed_us)
            + heaters.get_power_draw()
            + radios.get_power_draw()
            + navigation.get_maneuvering_power();
        assert_eq!(supply.power_draw_at(elapsed_us, jitter_s), expected);
    }
}

#[test]
fn supply_meters_the_maneuvering_unit_only() {
    let mut supply = PowerSupply::new();
    let with_gps = supply.power_draw_at(10_000_000, 0);
    supply.set_gps(false);
    let without_gps = supply.power_draw_at(10_000_000, 0);
    // the receiver's 1.98 W do not show in the total
    assert_eq!(with_gps, without_gps);
    supply.set_maneuvering(true);
    let maneuvering = supply.power_draw_at(10_000_000, 0);
    assert_eq!(maneuvering, with_gps + 3_981_400 - 1_358_700);
}

#[test]
fn supply_heater_switches() {
    let mut supply = PowerSupply::new();
    let base = supply.power_draw_at(20_000_000, 0);
    supply.set_heater_1(true);
    assert_eq!(supply.power_draw_at(20_000_000, 0), base + 2_675_000);
    supply.set_heater_2(true);
    assert_eq!(supply.power_draw_at(20_000_000, 0), base + 5_350_000);
    supply.set_heater_1(false);
    assert_eq!(supply.power_draw_at(20_000_000, 0), base + 2_675_000);
    supply.set_heater_2(false);
    assert_eq!(supply.power_draw_at(20_000_000, 0), base);
}

#[test]
fn supply_band_switches() {
    let mut supply = PowerSupply::new();
    let base = supply.power_draw_at(20_000_000, 0);
    supply.set_s_band_transmit(true);
    assert_eq!(supply.power_draw_at(20_000_000, 0), base + 12_840_000 - 107_000);
    supply.set_uhf_transmit(true);
    assert_eq!(supply.power_draw_at(20_000_000, 0), base + 21_665_000 - 382_000);
    supply.set_s_band_transmit(false);
    assert_eq!(supply.power_draw_at(20_000_000, 0), base + 8_825_000 - 275_000);
    supply.set_uhf_transmit(false);
    assert_eq!(supply.power_draw_at(20_000_000, 0), base);
}

#[test]
fn supply_peripheral_switch() {
    let mut supply = PowerSupply::new();
    let base = supply.power_draw_at(1_000_000, 0);
    supply.set_peripherals(false);
    assert_eq!(supply.power_draw_at(1_000_000, 0), base - 1_750_000);
    assert_eq!(supply.power_draw_at(8_000_000, -1), supply.power_draw_at(6_000_000, 1));
    supply.set_peripherals(true);
    assert_eq!(supply.power_draw_at(1_000_000, 0), base);
}

#[test]
fn supply_everything_on() {
    let mut supply = PowerSupply::new();
    supply.set_peripherals(true);
    supply.set_heater_1(true);
    supply.set_heater_2(true);
    supply.set_s_band_transmit(true);
    supply.set_uhf_transmit(true);
    supply.set_maneuvering(true);
    // 0.636 + 1.59 + 1.855 + 5.35 + 21.665 + 3.9814
    assert_eq!(supply.power_draw_at(0, 0), 35_077_400);
    // the camera at its trough
    assert_eq!(supply.power_draw_at(15_707_963, 0), 33_877_400);
}

#[test]
fn supply_live_total_stays_in_range() {
    let mut supply = PowerSupply::new();
    // everything but the camera is fixed: 0.636 + 1.855 + 0.382 + 1.3587
    let fixed = 4_231_700;
    for _ in 0..500 {
        let total = supply.get_power_draw();
        assert!(fixed + 390_000 <= total && total <= fixed + 1_590_000);
    }
    supply.set_heater_1(true);
    supply.set_gps(false);
    for _ in 0..500 {
        let total = supply.get_power_draw();
        assert!(fixed + 2_675_000 + 390_000 <= total);
        assert!(total <= fixed + 2_675_000 + 1_590_000);
    }
}

#[test]
fn supply_repeated_reads_agree_at_one_time() {
    let mut supply = PowerSupply::new();
    supply.set_uhf_transmit(true);
    let first = supply.power_draw_at(12_345_678, -1);
    let second = supply.power_draw_at(12_345_678, -1);
    assert_eq!(first, second);
}

#[test]
fn supply_component_names() {
    let camera = EventCamera::new();
    let computer = FlightComputer::new();
    let heaters = Heaters::new();
    let radios = Communication::new();
    let navigation = Navigation::new();
    let names = [
        camera.get_name().as_str(),
        computer.get_name().as_str(),
        heaters.get_name().as_str(),
        radios.get_name().as_str(),
        navigation.get_name().as_str(),
    ];
    assert_eq!(
        names,
        ["Event Camera", "Command and Data Handling", "Heaters", "Communication", "Navigation"]
    );
}
