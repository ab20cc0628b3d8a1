use atm0130::artemis;
use atm0130::atm0130::Atm0130;
use atm0130::atm0130::DriverError;
use atm0130::bus::BusAction;
use atm0130::color::Color;

#[test]
fn logo_dimensions_match_its_raster() {
    assert_eq!(artemis::IMG_WIDTH, 180);
    assert_eq!(artemis::IMG_HEIGHT, 26);
    assert_eq!(artemis::img_data().len(), 180 * 26);
}

#[test]
fn logo_streams_its_raster_in_stored_order() {
    let mut d = Atm0130::init();
    d.draw_logo(30, 107).unwrap();
    let acts = d.take_actions();
    assert_eq!(acts.len(), 1 + 11 + 4680 + 1);
    assert_eq!(acts[0], BusAction::SelectLow);
    assert_eq!(acts[3], BusAction::Data(30));
    assert_eq!(acts[5], BusAction::Data(30 + 180 - 1));
    assert_eq!(acts[8], BusAction::Data(107));
    assert_eq!(acts[10], BusAction::Data(107 + 26 - 1));
    let data = artemis::img_data();
    for (k, p) in data.iter().enumerate() {
        assert_eq!(acts[12 + k], BusAction::Pixel(*p), "pixel {}", k);
    }
    assert_eq!(*acts.last().unwrap(), BusAction::SelectHigh);
}

#[test]
fn logo_off_the_panel_is_rejected() {
    let mut d = Atm0130::init();
    assert_eq!(d.draw_logo(61, 0), Err(DriverError::WindowOutOfRange));
    assert_eq!(d.draw_logo(0, 215), Err(DriverError::WindowOutOfRange));
    assert_eq!(d.take_actions(), vec![]);
    assert_eq!(d.draw_logo(60, 214), Ok(()));
}

#[test]
fn square_image_streams_rows_and_columns_reversed() {
    // a 2x2 source, one quantized color per cell, laid out row-major:
    //   c0 c1
    //   c2 c3
    let cells = [
        Color(0x08, 0x04, 0x08),
        Color(0x10, 0x08, 0x10),
        Color(0x18, 0x0C, 0x18),
        Color(0x20, 0x10, 0x20),
    ];
    let mut data = Vec::new();
    for c in cells {
        data.extend([c.0, c.1, c.2]);
    }
    let mut d = Atm0130::init();
    d.draw_img(0, 0, 2, 2, &data).unwrap();
    let acts = d.take_actions();
    assert_eq!(acts.len(), 1 + 11 + 4 + 1);
    // reverse row, reverse column: c3, c2, c1, c0
    assert_eq!(acts[12], BusAction::Pixel(cells[3].to_u16()));
    assert_eq!(acts[13], BusAction::Pixel(cells[2].to_u16()));
    assert_eq!(acts[14], BusAction::Pixel(cells[1].to_u16()));
    assert_eq!(acts[15], BusAction::Pixel(cells[0].to_u16()));
}

#[test]
fn non_square_image_keeps_the_height_stride() {
    // the source index is (height-1-i)*height*3 + (width-1-j)*3: for a
    // 3x2 image the stride between output rows is 6 bytes, not 9, so
    // output cells (0,2) and (1,0) read the same source bytes
    let mut data = Vec::new();
    for b in 0..15u8 {
        data.extend([b * 8, b * 4, b * 8]);
    }
    let mut d = Atm0130::init();
    d.draw_img(0, 0, 3, 2, &data).unwrap();
    let acts = d.take_actions();
    assert_eq!(acts.len(), 1 + 11 + 6 + 1);
    let px = |idx: usize| {
        BusAction::Pixel(Color(data[3 * idx], data[3 * idx + 1], data[3 * idx + 2]).to_u16())
    };
    // row 0 reads source cells 4, 3, 2; row 1 reads 2, 1, 0
    assert_eq!(acts[12], px(4));
    assert_eq!(acts[13], px(3));
    assert_eq!(acts[14], px(2));
    assert_eq!(acts[15], px(2));
    assert_eq!(acts[16], px(1));
    assert_eq!(acts[17], px(0));
}

#[test]
fn image_windows_off_the_panel_are_rejected() {
    let data = [0u8; 12];
    let mut d = Atm0130::init();
    assert_eq!(
        d.draw_img(239, 0, 2, 2, &data),
        Err(DriverError::WindowOutOfRange)
    );
    assert_eq!(
        d.draw_img(0, 0, 0, 2, &data),
        Err(DriverError::WindowOutOfRange)
    );
    assert_eq!(d.take_actions(), vec![]);
}
