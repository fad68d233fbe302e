use junk_pedals::pedals::REPORT_LEN;
use junk_pedals::{PedalReport, Pedals};

#[test]
fn released_pedals() {
    // accelerator at its threshold reads full scale, brake at its threshold reads zero
    let report = Pedals::new([650, 650, 650], [750, 750, 750]).report();
    assert_eq!(report, PedalReport { x: 255, y: 0 });
}

#[test]
fn fully_pressed_pedals_are_clamped() {
    // accelerator: floor(3445 / 10.39) = 331, clamped to 255, so the axis is 0
    // brake: floor(3345 / 10.9) = 306, clamped to 255
    let report = Pedals::new([4095, 4095, 4095], [4095, 4095, 4095]).report();
    assert_eq!(report, PedalReport { x: 0, y: 255 });
}

#[test]
fn report_scales_the_average_of_each_window() {
    // accelerator average 2000: 255 - floor(1350 / 10.39) = 255 - 129 = 126
    // brake average 1000: floor(250 / 10.9) = 22
    let report = Pedals::new([1900, 2000, 2100], [999, 1000, 1002]).report();
    assert_eq!(report.x, 126);
    assert_eq!(report.y, 22);
}

#[test]
fn x_is_the_accelerator_and_y_the_brake() {
    let report = Pedals::new([0, 0, 0], [0, 0, 0]).report();
    assert_eq!(report, PedalReport { x: 255, y: 0 });
    let report = Pedals::new([4095, 4095, 4095], [0, 0, 0]).report();
    assert_eq!(report, PedalReport { x: 0, y: 0 });
    let report = Pedals::new([0, 0, 0], [4095, 4095, 4095]).report();
    assert_eq!(report, PedalReport { x: 255, y: 255 });
}

#[test]
fn report_is_idempotent() {
    let pedals = Pedals::new([1200, 1210, 1190], [2000, 2050, 1950]);
    let first = pedals.report();
    let second = pedals.report();
    assert_eq!(first, second);
    let again = Pedals::new([1200, 1210, 1190], [2000, 2050, 1950]).report();
    assert_eq!(first, again);
}

#[test]
fn report_is_two_bytes_x_then_y() {
    assert_eq!(REPORT_LEN, 2);
    assert_eq!(PedalReport { x: 0x12, y: 0xfe }.to_bytes(), [0x12, 0xfe]);
    assert_eq!(PedalReport { x: 255, y: 0 }.to_bytes(), [255, 0]);
}
