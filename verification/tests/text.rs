use atm0130::atm0130::Atm0130;
use atm0130::atm0130::DriverError;
use atm0130::bus::BusAction;
use atm0130::color::Color;
use atm0130::font::decode_glyph;
use atm0130::font::glyph_bytes;

const FG: Color = Color(0xFF, 0xFF, 0xFF);
const BG: Color = Color(0x00, 0x00, 0x00);

fn actions_of<F: FnOnce(&mut Atm0130)>(f: F) -> Vec<BusAction> {
    let mut d = Atm0130::init();
    f(&mut d);
    d.take_actions()
}

#[test]
fn char_fast_streams_the_decoded_glyph() {
    let acts = actions_of(|d| d.draw_char_fast('!' as i8, 10, 20, FG, BG).unwrap());
    // chip-select, 11 window actions, 40 pixels, spacer window, 8 pixels,
    // release
    assert_eq!(acts.len(), 1 + 11 + 40 + 11 + 8 + 1);
    assert_eq!(acts[0], BusAction::SelectLow);
    assert_eq!(acts[2], BusAction::Data(0x00));
    assert_eq!(acts[3], BusAction::Data(10));
    assert_eq!(acts[5], BusAction::Data(14)); // x + 5 - 1
    let fg = FG.to_u16();
    let bg = BG.to_u16();
    let mask = decode_glyph(&glyph_bytes('!' as i8));
    for k in 0..40 {
        let want = if mask[k] { fg } else { bg };
        assert_eq!(acts[12 + k], BusAction::Pixel(want), "cell {}", k);
    }
    // the spacer is one column at x + 5, full height, background
    assert_eq!(acts[52 + 2], BusAction::Data(15));
    for k in 0..8 {
        assert_eq!(acts[52 + 11 + k], BusAction::Pixel(bg));
    }
    assert_eq!(*acts.last().unwrap(), BusAction::SelectHigh);
}

#[test]
fn char_fast_at_the_right_edge_draws_no_spacer() {
    // x + 5 reaches 240: the glyph fits, the spacer would not
    let acts = actions_of(|d| d.draw_char_fast('A' as i8, 235, 0, FG, BG).unwrap());
    assert_eq!(acts.len(), 1 + 11 + 40 + 1);
    assert_eq!(*acts.last().unwrap(), BusAction::SelectHigh);
}

#[test]
fn char_fast_matches_scaled_char_at_scale_one() {
    let fast = actions_of(|d| d.draw_char_fast('Q' as i8, 30, 40, FG, BG).unwrap());
    let scaled = actions_of(|d| d.draw_char('Q' as i8, 30, 40, 1, FG, BG).unwrap());
    assert_eq!(fast, scaled);
}

#[test]
fn scaled_char_replicates_every_cell() {
    let acts = actions_of(|d| d.draw_char('!' as i8, 0, 0, 3, FG, BG).unwrap());
    // window 15x24, 360 pixels, spacer window 3x24 filled completely
    assert_eq!(acts.len(), 1 + 11 + 360 + 11 + 72 + 1);
    assert_eq!(acts[5], BusAction::Data(14)); // column end: 15 - 1
    assert_eq!(acts[10], BusAction::Data(23)); // row end: 24 - 1
    let fg = FG.to_u16();
    let bg = BG.to_u16();
    let mask = decode_glyph(&glyph_bytes('!' as i8));
    for k in 0..360 {
        let row = k / 45; // 5 * 3 * 3 pixels per cell row
        let col = (k % 15) / 3;
        let want = if mask[row * 5 + col] { fg } else { bg };
        assert_eq!(acts[12 + k], BusAction::Pixel(want), "pixel {}", k);
    }
}

#[test]
fn scaled_char_at_the_right_edge_draws_no_spacer() {
    // x + 5 * 10 = 240 fits; the next glyph at x + 60 would not
    let acts = actions_of(|d| d.draw_char('A' as i8, 190, 0, 10, FG, BG).unwrap());
    assert_eq!(acts.len(), 1 + 11 + 40 * 100 + 1);
    assert_eq!(*acts.last().unwrap(), BusAction::SelectHigh);
}

#[test]
fn out_of_range_character_renders_blank() {
    let acts = actions_of(|d| d.draw_char_fast(0x7F, 50, 50, FG, BG).unwrap());
    let bg = BG.to_u16();
    for k in 0..40 {
        assert_eq!(acts[12 + k], BusAction::Pixel(bg));
    }
}

#[test]
fn char_windows_off_the_panel_are_rejected() {
    let mut d = Atm0130::init();
    assert_eq!(
        d.draw_char('A' as i8, 236, 0, 1, FG, BG),
        Err(DriverError::WindowOutOfRange)
    );
    assert_eq!(
        d.draw_char('A' as i8, 0, 233, 1, FG, BG),
        Err(DriverError::WindowOutOfRange)
    );
    assert_eq!(
        d.draw_char('A' as i8, 0, 0, 0, FG, BG),
        Err(DriverError::WindowOutOfRange)
    );
    assert_eq!(
        d.draw_char_fast('A' as i8, 236, 0, FG, BG),
        Err(DriverError::WindowOutOfRange)
    );
    assert_eq!(d.take_actions(), vec![]);
}

#[test]
fn text_fast_renders_the_last_character_first() {
    // "AB": 'B' leftmost at the caller's x, 'A' one advance to its right
    let text = actions_of(|d| d.draw_text_fast("AB", 12, 30, FG, BG).unwrap());
    let b_first = actions_of(|d| d.draw_char_fast('B' as i8, 12, 30, FG, BG).unwrap());
    let a_second = actions_of(|d| d.draw_char_fast('A' as i8, 18, 30, FG, BG).unwrap());
    let mut expected = b_first;
    expected.extend(a_second);
    assert_eq!(text, expected);
}

#[test]
fn scaled_text_advances_by_scaled_glyph_width() {
    let text = actions_of(|d| d.draw_text("OK", 10, 10, 2, FG, BG).unwrap());
    let k_first = actions_of(|d| d.draw_char('K' as i8, 10, 10, 2, FG, BG).unwrap());
    let o_second = actions_of(|d| d.draw_char('O' as i8, 22, 10, 2, FG, BG).unwrap());
    let mut expected = k_first;
    expected.extend(o_second);
    assert_eq!(text, expected);
}

#[test]
fn empty_text_draws_nothing() {
    let mut d = Atm0130::init();
    assert_eq!(d.draw_text("", 0, 0, 1, FG, BG), Ok(()));
    assert_eq!(d.draw_text_fast("", 0, 0, FG, BG), Ok(()));
    assert_eq!(d.take_actions(), vec![]);
}

#[test]
fn text_that_runs_off_the_panel_is_rejected() {
    let mut d = Atm0130::init();
    // 40 glyphs of width 6 fit starting at 0; starting at 2 they do not
    let forty = "x".repeat(40);
    assert_eq!(d.draw_text_fast(&forty, 0, 0, FG, BG), Ok(()));
    d.take_actions();
    assert_eq!(
        d.draw_text_fast(&forty, 2, 0, FG, BG),
        Err(DriverError::WindowOutOfRange)
    );
    assert_eq!(
        d.draw_text("zz", 230, 0, 1, FG, BG),
        Err(DriverError::WindowOutOfRange)
    );
    assert_eq!(
        d.draw_text("zz", 0, 0, 31, FG, BG),
        Err(DriverError::WindowOutOfRange)
    );
    assert_eq!(d.take_actions(), vec![]);
}

#[test]
fn info_text_is_centered_in_the_badge_color() {
    let text = "Reading SD card."; // 16 characters: x = 120 - 48, y = 116
    let info = actions_of(|d| d.draw_info(text).unwrap());
    let direct = actions_of(|d| {
        d.draw_text(text, 72, 116, 1, Color(0x37, 0xD8, 0xDB), Color(0, 0, 0))
            .unwrap()
    });
    assert_eq!(info, direct);
}

#[test]
fn info_text_longer_than_the_panel_is_rejected() {
    let mut d = Atm0130::init();
    let long = "y".repeat(41);
    assert_eq!(d.draw_info(&long), Err(DriverError::WindowOutOfRange));
    assert_eq!(d.take_actions(), vec![]);
}
