use atm0130::atm0130::Atm0130;
use atm0130::atm0130::DriverError;
use atm0130::atm0130::text_size;
use atm0130::bus::BusAction;
use atm0130::color::Color;

fn window_set(x: u8, y: u8, width: u8, height: u8) -> Vec<BusAction> {
    vec![
        BusAction::Command(0x2A),
        BusAction::Data(0x00),
        BusAction::Data(x),
        BusAction::Data(0x00),
        BusAction::Data(x + width - 1),
        BusAction::Command(0x2B),
        BusAction::Data(0x00),
        BusAction::Data(y),
        BusAction::Data(0x00),
        BusAction::Data(y + height - 1),
        BusAction::Command(0x2C),
    ]
}

#[test]
fn fresh_session_records_nothing() {
    let mut d = Atm0130::init();
    assert_eq!(d.take_actions(), vec![]);
}

#[test]
fn take_actions_drains_the_record() {
    let mut d = Atm0130::init();
    d.draw_rect(0, 0, 1, 1, Color(0, 0, 0)).unwrap();
    assert!(!d.take_actions().is_empty());
    assert_eq!(d.take_actions(), vec![]);
}

#[test]
fn rect_emits_one_window_set_then_area_pixels() {
    // a 4x4 window at the origin: end coordinates x = 3, y = 3, then
    // exactly 16 identical converted pixels
    let color = Color(0x37, 0xD8, 0xDB);
    let mut d = Atm0130::init();
    d.draw_rect(0, 0, 4, 4, color).unwrap();
    let acts = d.take_actions();

    let mut expected = vec![BusAction::SelectLow];
    expected.extend(window_set(0, 0, 4, 4));
    for _ in 0..16 {
        expected.push(BusAction::Pixel(0x36DB));
    }
    expected.push(BusAction::SelectHigh);
    assert_eq!(acts, expected);

    let window_sets = acts
        .iter()
        .filter(|a| matches!(a, BusAction::Command(0x2A)))
        .count();
    assert_eq!(window_sets, 1);
    let pixels = acts
        .iter()
        .filter(|a| matches!(a, BusAction::Pixel(_)))
        .count();
    assert_eq!(pixels, 16);
}

#[test]
fn full_panel_rect_is_accepted() {
    let mut d = Atm0130::init();
    d.draw_rect(0, 0, 240, 240, Color(0, 0, 0)).unwrap();
    let acts = d.take_actions();
    assert_eq!(acts.len(), 1 + 11 + 240 * 240 + 1);
}

#[test]
fn rect_windows_off_the_panel_are_rejected() {
    let mut d = Atm0130::init();
    // x + width - 1 > 239
    assert_eq!(
        d.draw_rect(240, 0, 1, 1, Color(0, 0, 0)),
        Err(DriverError::WindowOutOfRange)
    );
    // y + height - 1 > 239
    assert_eq!(
        d.draw_rect(0, 200, 4, 41, Color(0, 0, 0)),
        Err(DriverError::WindowOutOfRange)
    );
    // empty windows are rejected too
    assert_eq!(
        d.draw_rect(0, 0, 0, 4, Color(0, 0, 0)),
        Err(DriverError::WindowOutOfRange)
    );
    assert_eq!(
        d.draw_rect(0, 0, 4, 0, Color(0, 0, 0)),
        Err(DriverError::WindowOutOfRange)
    );
    // a rejected operation records nothing
    assert_eq!(d.take_actions(), vec![]);
    // the corner pixel is still addressable
    let mut d = Atm0130::init();
    assert_eq!(d.draw_rect(239, 239, 1, 1, Color(0, 0, 0)), Ok(()));
}

#[test]
fn begin_runs_the_vendor_sequence() {
    let mut d = Atm0130::init();
    d.begin();
    let acts = d.take_actions();
    assert_eq!(acts.len(), 93);
    // reset pulse first, bracketed by chip-select
    assert_eq!(
        &acts[..8],
        &[
            BusAction::SelectHigh,
            BusAction::ResetHigh,
            BusAction::DelayMs(20),
            BusAction::ResetLow,
            BusAction::DelayMs(20),
            BusAction::ResetHigh,
            BusAction::DelayMs(20),
            BusAction::SelectLow,
        ]
    );
    // sleep-out with its settling delay
    assert_eq!(acts[8], BusAction::Command(0x11));
    assert_eq!(acts[9], BusAction::DelayMs(100));
    // 16-bit pixel format
    assert_eq!(acts[12], BusAction::Command(0x3A));
    assert_eq!(acts[13], BusAction::Data(0x55));
    // ends with display-on, memory-write, release
    assert_eq!(
        &acts[89..],
        &[
            BusAction::Command(0x29),
            BusAction::DelayMs(2),
            BusAction::Command(0x2C),
            BusAction::SelectHigh,
        ]
    );
    // both gamma tables carry 14 parameters
    let gamma_pos = acts
        .iter()
        .position(|a| matches!(a, BusAction::Command(0xE0)))
        .unwrap();
    for k in 1..=14 {
        assert!(matches!(acts[gamma_pos + k], BusAction::Data(_)));
    }
    assert_eq!(acts[gamma_pos + 15], BusAction::DelayMs(2));
    assert_eq!(acts[gamma_pos + 16], BusAction::Command(0xE1));
}

#[test]
fn text_size_of_hi_at_scale_one() {
    assert_eq!(text_size("HI", 1), (12, 8));
}

#[test]
fn text_size_scales_linearly() {
    assert_eq!(text_size("HI", 2), (24, 16));
    assert_eq!(text_size("", 7), (0, 56));
    assert_eq!(text_size("abcde", 1), (30, 8));
}
