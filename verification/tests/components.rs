use spacecraft_power::clock::saturate_micros;
use spacecraft_power::communication::Communication;
use spacecraft_power::component::Component;
use spacecraft_power::computer::{FlightComputer, PERIPHERAL_POWER_UW};
use spacecraft_power::heaters::Heaters;
use spacecraft_power::navigation::Navigation;
use spacecraft_power::units::current_from;

#[test]
fn heaters_both_off_draw_nothing() {
    let mut heaters = Heaters::new();
    assert_eq!(heaters.get_power_draw(), 0);
    assert_eq!(heaters.get_current(), 0);
}

#[test]
fn heaters_exactly_one_on() {
    let mut first = Heaters::new();
    first.on_heater_1(true);
    assert_eq!(first.get_power_draw(), 2_675_000);
    let mut second = Heaters::new();
    second.on_heater_2(true);
    assert_eq!(second.get_power_draw(), 2_675_000);
}

#[test]
fn heaters_both_on() {
    let mut heaters = Heaters::new();
    heaters.on_heater_1(true);
    heaters.on_heater_2(true);
    assert_eq!(heaters.get_power_draw(), 5_350_000);
}

#[test]
fn heaters_switch_off_again() {
    let mut heaters = Heaters::new();
    heaters.on_heater_1(true);
    heaters.on_heater_2(true);
    heaters.on_heater_1(false);
    assert_eq!(heaters.get_power_draw(), 2_675_000);
    heaters.on_heater_2(false);
    assert_eq!(heaters.get_power_draw(), 0);
}

#[test]
fn heaters_current_is_power_over_voltage() {
    let mut heaters = Heaters::new();
    assert_eq!(heaters.get_voltage(), 12_000);
    heaters.on_heater_1(true);
    // 2.675 W / 12 V = 0.222916.. A
    assert_eq!(heaters.get_current(), 222_916);
    heaters.on_heater_2(true);
    // 5.35 W / 12 V = 0.445833.. A
    assert_eq!(heaters.get_current(), 445_833);
    let power = heaters.get_power_draw();
    let voltage = heaters.get_voltage();
    assert_eq!(heaters.get_current(), power * 1000 / voltage as u64);
}

#[test]
fn heaters_name() {
    let heaters = Heaters::new();
    assert_eq!(heaters.get_name(), "Heaters");
}

#[test]
fn heaters_repeated_reads_agree() {
    let mut heaters = Heaters::new();
    heaters.on_heater_2(true);
    let first = heaters.get_power_draw();
    let second = heaters.get_power_draw();
    let third = heaters.get_power_draw();
    assert_eq!(first, second);
    assert_eq!(second, third);
    assert_eq!(heaters.get_current(), heaters.get_current());
}

#[test]
fn flight_computer_draw_while_booting() {
    let computer = FlightComputer::new();
    assert_eq!(computer.power_draw_at(0), 1_855_000);
    assert_eq!(computer.power_draw_at(4_999_999), 1_855_000);
    // the boot phase includes the threshold itself
    assert_eq!(computer.power_draw_at(5_000_000), 1_855_000);
}

#[test]
fn flight_computer_draw_after_boot() {
    let computer = FlightComputer::new();
    assert_eq!(computer.power_draw_at(5_000_001), 1_855_000);
    assert_eq!(computer.power_draw_at(3_600_000_000), 1_855_000);
    assert_eq!(computer.power_draw_at(u64::MAX), 1_855_000);
}

#[test]
fn flight_computer_peripherals_off_subtracts_their_share() {
    let mut computer = FlightComputer::new();
    let booting_on = computer.power_draw_at(1_000_000);
    let nominal_on = computer.power_draw_at(9_000_000);
    computer.enable_components(false);
    assert_eq!(computer.power_draw_at(1_000_000), booting_on - 1_750_000);
    assert_eq!(computer.power_draw_at(9_000_000), nominal_on - 1_750_000);
    assert_eq!(computer.power_draw_at(9_000_000), 105_000);
    assert_eq!(PERIPHERAL_POWER_UW, 1_750_000);
    computer.enable_components(true);
    assert_eq!(computer.power_draw_at(9_000_000), 1_855_000);
}

#[test]
fn flight_computer_current_is_power_over_voltage() {
    let mut computer = FlightComputer::new();
    assert_eq!(computer.get_voltage(), 5_000);
    // 1.855 W / 5 V = 0.371 A
    assert_eq!(computer.current_at(0), 371_000);
    assert_eq!(computer.current_at(60_000_000), 371_000);
    computer.enable_components(false);
    // 0.105 W / 5 V = 0.021 A
    assert_eq!(computer.current_at(0), 21_000);
}

#[test]
fn flight_computer_reads_the_clock() {
    let mut computer = FlightComputer::new();
    assert_eq!(computer.get_power_draw(), 1_855_000);
    assert_eq!(computer.get_current(), 371_000);
    computer.enable_components(false);
    assert_eq!(computer.get_power_draw(), 105_000);
    assert_eq!(computer.get_current(), 21_000);
}

#[test]
fn flight_computer_steady_after_boot() {
    let mut computer = FlightComputer::new();
    computer.enable_components(false);
    let first = computer.power_draw_at(6_000_000);
    let second = computer.power_draw_at(100_000_000);
    assert_eq!(first, second);
}

#[test]
fn flight_computer_name() {
    let computer = FlightComputer::new();
    assert_eq!(computer.get_name(), "Command and Data Handling");
}

#[test]
fn communication_both_on_standby() {
    let mut radios = Communication::new();
    assert_eq!(radios.get_uhf_power(), 275_000);
    assert_eq!(radios.get_s_power(), 107_000);
    assert_eq!(radios.get_power_draw(), 382_000);
}

#[test]
fn communication_both_transmitting() {
    let mut radios = Communication::new();
    radios.enable_uhf_band(true);
    radios.enable_s_band(true);
    assert_eq!(radios.get_uhf_power(), 8_825_000);
    assert_eq!(radios.get_s_power(), 12_840_000);
    assert_eq!(radios.get_power_draw(), 21_665_000);
}

#[test]
fn communication_bands_are_independent() {
    let mut radios = Communication::new();
    radios.enable_uhf_band(true);
    assert_eq!(radios.get_power_draw(), 8_825_000 + 107_000);
    radios.enable_uhf_band(false);
    radios.enable_s_band(true);
    assert_eq!(radios.get_power_draw(), 275_000 + 12_840_000);
    radios.enable_s_band(false);
    assert_eq!(radios.get_power_draw(), 382_000);
}

#[test]
fn communication_rails() {
    let mut radios = Communication::new();
    assert_eq!(radios.get_uhf_voltage(), 3_300);
    assert_eq!(radios.get_s_voltage(), 12_000);
    // the radios span two rails
    assert_eq!(radios.get_voltage(), 0);
}

#[test]
fn communication_currents() {
    let mut radios = Communication::new();
    // 0.275 W / 3.3 V and 0.107 W / 12 V
    assert_eq!(radios.get_uhf_current(), 83_333);
    assert_eq!(radios.get_s_current(), 8_916);
    assert_eq!(radios.get_current(), 83_333 + 8_916);
    radios.enable_uhf_band(true);
    radios.enable_s_band(true);
    // 8.825 W / 3.3 V and 12.84 W / 12 V
    assert_eq!(radios.get_uhf_current(), 2_674_242);
    assert_eq!(radios.get_s_current(), 1_070_000);
    assert_eq!(radios.get_current(), 2_674_242 + 1_070_000);
}

#[test]
fn communication_repeated_reads_agree() {
    let mut radios = Communication::new();
    radios.enable_s_band(true);
    assert_eq!(radios.get_power_draw(), radios.get_power_draw());
    assert_eq!(radios.get_current(), radios.get_current());
}

#[test]
fn communication_name() {
    let radios = Communication::new();
    assert_eq!(radios.get_name(), "Communication");
}

#[test]
fn navigation_gps_on_maneuvering_passive() {
    let mut navigation = Navigation::new();
    assert_eq!(navigation.get_gps_power(), 1_980_000);
    assert_eq!(navigation.get_maneuvering_power(), 1_358_700);
    assert_eq!(navigation.get_power_draw(), 3_338_700);
}

#[test]
fn navigation_gps_off_maneuvering_active() {
    let mut navigation = Navigation::new();
    navigation.enable_gps(false);
    navigation.enable_maneuvering(true);
    assert_eq!(navigation.get_gps_power(), 0);
    assert_eq!(navigation.get_maneuvering_power(), 3_981_400);
    assert_eq!(navigation.get_power_draw(), 3_981_400);
}

#[test]
fn navigation_other_states() {
    let mut navigation = Navigation::new();
    navigation.enable_maneuvering(true);
    assert_eq!(navigation.get_power_draw(), 1_980_000 + 3_981_400);
    navigation.enable_gps(false);
    navigation.enable_maneuvering(false);
    // the maneuvering unit is never fully off
    assert_eq!(navigation.get_power_draw(), 1_358_700);
}

#[test]
fn navigation_rails() {
    let mut navigation = Navigation::new();
    assert_eq!(navigation.get_gps_voltage(), 5_000);
    assert_eq!(navigation.get_maneuvering_voltage(), 5_000);
    assert_eq!(navigation.get_voltage(), 0);
}

#[test]
fn navigation_currents() {
    let mut navigation = Navigation::new();
    // 1.98 W / 5 V and 1.3587 W / 5 V
    assert_eq!(navigation.get_gps_current(), 396_000);
    assert_eq!(navigation.get_maneuvering_current(), 271_740);
    assert_eq!(navigation.get_current(), 396_000 + 271_740);
    navigation.enable_gps(false);
    navigation.enable_maneuvering(true);
    // 3.9814 W / 5 V
    assert_eq!(navigation.get_gps_current(), 0);
    assert_eq!(navigation.get_maneuvering_current(), 796_280);
    assert_eq!(navigation.get_current(), 796_280);
}

#[test]
fn navigation_repeated_reads_agree() {
    let mut navigation = Navigation::new();
    assert_eq!(navigation.get_power_draw(), navigation.get_power_draw());
    assert_eq!(navigation.get_current(), navigation.get_current());
}

#[test]
fn navigation_name() {
    let navigation = Navigation::new();
    assert_eq!(navigation.get_name(), "Navigation");
}

#[test]
fn current_rounds_down_to_a_microampere() {
    assert_eq!(current_from(0, 5_000), 0);
    assert_eq!(current_from(1_000_000, 5_000), 200_000);
    assert_eq!(current_from(1, 3), 333);
    assert_eq!(current_from(2, 3), 666);
    assert_eq!(current_from(275_000, 3_300), 83_333);
    assert_eq!(current_from(u64::MAX / 1000, 1), u64::MAX / 1000 * 1000);
}

fn draw_of<C: Component>(component: &mut C) -> u64 {
    component.get_power_draw()
}

#[test]
fn components_sum_uniformly() {
    let mut heaters = Heaters::new();
    heaters.on_heater_1(true);
    let mut radios = Communication::new();
    let mut navigation = Navigation::new();
    let mut computer = FlightComputer::new();
    let total = draw_of(&mut heaters)
        + draw_of(&mut radios)
        + draw_of(&mut navigation)
        + draw_of(&mut computer);
    assert_eq!(total, 2_675_000 + 382_000 + 3_338_700 + 1_855_000);
}

#[test]
fn elapsed_time_saturates_at_64_bits() {
    assert_eq!(saturate_micros(0), 0);
    assert_eq!(saturate_micros(5_000_001), 5_000_001);
    assert_eq!(saturate_micros(u64::MAX as u128 - 1), u64::MAX - 1);
    assert_eq!(saturate_micros(u64::MAX as u128), u64::MAX);
    assert_eq!(saturate_micros(u64::MAX as u128 + 1), u64::MAX);
    assert_eq!(saturate_micros(u128::MAX), u64::MAX);
}
