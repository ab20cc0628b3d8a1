//! The panel driver: the register-write protocol, the addressing-window
//! protocol, and the rectangle, text and image blit operations built on
//! them.
//!
//! A driver session owns the bus for its whole lifetime.  Every operation
//! records the exact actions it performs as [`BusAction`] values, bracketed
//! by chip-select assert and release; the host takes the recorded actions
//! and carries them out on the hardware in order.  Operations whose window
//! would leave the 240x240 panel are rejected with a [`DriverError`] and
//! record nothing.

use vstd::arithmetic::div_mod::lemma_fundamental_div_mod_converse;
use vstd::prelude::*;
use vstd::string::StrSliceExecFns;

use crate::artemis::IMG_HEIGHT;
use crate::artemis::IMG_WIDTH;
use crate::artemis::img_data;
use crate::artemis::img_seq;
use crate::bus::BusAction;
use crate::bus::repeated_pixels;
use crate::bus::valid_window;
use crate::bus::window_actions;
use crate::color::Color;
use crate::color::rgb565;
use crate::font::FONT_HEIGHT;
use crate::font::FONT_WIDTH;
use crate::font::glyph_bit;
use crate::font::glyph_bytes;
use crate::font::glyph_of;

verus! {

/// Why an operation was rejected before anything was sent.
#[derive(Clone, Copy, Debug, PartialEq, Eq, Structural)]
pub enum DriverError {
    /// The requested window does not fit on the 240x240 panel: a dimension
    /// is zero, or the window's last column or last row exceeds 239.
    WindowOutOfRange,
}

/// A driver session: the actions recorded so far, oldest first.
pub struct Atm0130 {
    queue: Vec<BusAction>,
}

impl View for Atm0130 {
    type V = Seq<BusAction>;

    closed spec fn view(&self) -> Seq<BusAction> {
        self.queue@
    }
}

impl Atm0130 {
    /// Opens a fresh session with nothing recorded yet.
    pub fn init() -> (d: Atm0130)
        ensures
            d@ == Seq::<BusAction>::empty(),
    {
        Atm0130 { queue: Vec::new() }
    }

    /// Hands the recorded actions to the host, oldest first, and empties
    /// the record.
    pub fn take_actions(&mut self) -> (acts: Vec<BusAction>)
        ensures
            acts@ == old(self)@,
            final(self)@ == Seq::<BusAction>::empty(),
    {
        let acts = self.queue.split_off(0);
        assert(acts@ =~= old(self)@);
        assert(self.queue@ =~= Seq::<BusAction>::empty());
        acts
    }

    /// One register-write step: a command byte with data/command low.
    fn write_reg(&mut self, data: u8)
        ensures
            final(self)@ == old(self)@.push(BusAction::Command(data)),
    {
        self.queue.push(BusAction::Command(data));
    }

    /// One parameter byte with data/command high.
    fn write_data(&mut self, data: u8)
        ensures
            final(self)@ == old(self)@.push(BusAction::Data(data)),
    {
        self.queue.push(BusAction::Data(data));
    }

    /// One settling delay, as the controller's timing requires.
    fn delay_ms(&mut self, ms: u32)
        ensures
            final(self)@ == old(self)@.push(BusAction::DelayMs(ms)),
    {
        self.queue.push(BusAction::DelayMs(ms));
    }

    /// Streams one pixel in the wire format.
    fn put_pixel(&mut self, color: Color)
        ensures
            final(self)@ == old(self)@.push(BusAction::Pixel(rgb565(color))),
    {
        let p = color.to_u16();
        self.queue.push(BusAction::Pixel(p));
    }

    /// Arms a `width x height` window at `(x, y)`: after these actions the
    /// controller expects exactly `width * height` pixels.
    fn set_window(&mut self, x: u8, y: u8, width: u8, height: u8)
        requires
            valid_window(x as int, y as int, width as int, height as int),
        ensures
            final(self)@ == old(self)@ + window_actions(x, y, width, height),
    {
        self.write_reg(0x2A);
        self.write_data(0x00);
        self.write_data(x);
        self.write_data(0x00);
        self.write_data(x + width - 1);

        self.write_reg(0x2B);
        self.write_data(0x00);
        self.write_data(y);
        self.write_data(0x00);
        self.write_data(y + height - 1);

        self.write_reg(0x2C);
        assert(self@ =~= old(self)@ + window_actions(x, y, width, height));
    }

    /// Fills a `width x height` window at `(x, y)` with one color: one
    /// window-set, then the same wire pixel `width * height` times.
    pub fn draw_rect(&mut self, x: u8, y: u8, width: u8, height: u8, color: Color) -> (r: Result<
        (),
        DriverError,
    >)
        ensures
            valid_window(x as int, y as int, width as int, height as int) ==> r == Ok::<
                (),
                DriverError,
            >(()) && final(self)@ == old(self)@ + rect_actions(x, y, width, height, color),
            !valid_window(x as int, y as int, width as int, height as int) ==> r == Err::<
                (),
                DriverError,
            >(DriverError::WindowOutOfRange) && final(self)@ == old(self)@,
    {
        if !window_fits(x, y, width, height) {
            return Err(DriverError::WindowOutOfRange);
        }
        self.select_low();
        self.set_window(x, y, width, height);

        assert(width as int * height as int <= 57600) by (nonlinear_arith)
            requires
                width <= 240 && height <= 240,
        ;
        let count: u32 = width as u32 * height as u32;
        let ghost base = self@;
        let mut i: u32 = 0;
        while i < count
            invariant
                i <= count,
                self@ == base + repeated_pixels(rgb565(color), i as nat),
            decreases count - i,
        {
            self.put_pixel(color);
            i += 1;
            assert(self@ =~= base + repeated_pixels(rgb565(color), i as nat));
        }
        self.select_high();
        assert(self@ =~= old(self)@ + rect_actions(x, y, width, height, color));
        Ok(())
    }

    /// The mandatory power-up reset pulse: reset high, low, high again,
    /// with at least 20 ms of settling after each edge.  It must precede
    /// initialization and may not be skipped or shortened.
    fn reset_lcd(&mut self)
        ensures
            final(self)@ == old(self)@ + reset_actions(),
    {
        self.queue.push(BusAction::ResetHigh);
        self.queue.push(BusAction::DelayMs(20));
        self.queue.push(BusAction::ResetLow);
        self.queue.push(BusAction::DelayMs(20));
        self.queue.push(BusAction::ResetHigh);
        self.queue.push(BusAction::DelayMs(20));
        assert(self@ =~= old(self)@ + reset_actions());
    }

    /// Runs the vendor register-initialization sequence: reset pulse, then
    /// the fixed, ordered register writes that configure sleep-out, memory
    /// access direction, 16-bit pixel format, frame rate, the power and
    /// gamma registers, the full-panel address window, display-on, and the
    /// arming memory-write, with the controller's settling delays between
    /// steps.
    #[verifier::rlimit(80)]
    pub fn begin(&mut self)
        ensures
            final(self)@ == old(self)@ + init_actions(),
    {
        let ghost base = self@;
        self.select_high();
        self.reset_lcd();
        self.select_low();

        self.write_reg(0x11);  // sleep out
        self.delay_ms(100);

        self.write_reg(0x36);  // memory access direction: no mirroring
        self.write_data(0x00);

        self.write_reg(0x3A);  // 65K color, 16 bit per pixel
        self.write_data(0x55);
        assert(self@ =~= base + init_actions().take(14));

        self.write_reg(0xB2);  // frame rate control
        self.write_data(0x0C);
        self.write_data(0x0C);
        self.write_data(0x00);
        self.write_data(0x33);
        self.write_data(0x33);
        self.delay_ms(2);

        self.write_reg(0xB7);
        self.write_data(0x75);
        self.delay_ms(2);
        assert(self@ =~= base + init_actions().take(24));

        self.write_reg(0xC2);  // power control
        self.write_data(0x01);
        self.delay_ms(2);

        self.write_reg(0xC3);
        self.write_data(0x10);
        self.delay_ms(2);

        self.write_reg(0xC4);
        self.write_data(0x20);
        self.delay_ms(2);

        self.write_reg(0xC6);
        self.write_data(0x0F);
        assert(self@ =~= base + init_actions().take(35));

        self.write_reg(0xB0);
        self.write_data(0x00);
        self.write_data(0xF0);
        self.delay_ms(2);

        self.write_reg(0xD0);
        self.write_data(0xA4);
        self.write_data(0xA1);
        self.delay_ms(2);

        self.write_reg(0x21);
        self.delay_ms(2);

        self.write_reg(0xBB);
        self.write_data(0x3B);
        self.delay_ms(2);
        assert(self@ =~= base + init_actions().take(48));

        self.write_reg(0xE0);  // gamma table
        self.write_data(0xF0);
        self.write_data(0x0B);
        self.write_data(0x11);
        self.write_data(0x0E);
        self.write_data(0x0D);
        self.write_data(0x19);
        self.write_data(0x36);
        self.write_data(0x33);
        self.write_data(0x4B);
        self.write_data(0x07);
        self.write_data(0x14);
        self.write_data(0x14);
        self.write_data(0x2C);
        self.write_data(0x2E);
        self.delay_ms(2);
        assert(self@ =~= base + init_actions().take(64));

        self.write_reg(0xE1);  // gamma table
        self.write_data(0xF0);
        self.write_data(0x0D);
        self.write_data(0x12);
        self.write_data(0x0B);
        self.write_data(0x09);
        self.write_data(0x03);
        self.write_data(0x32);
        self.write_data(0x44);
        self.write_data(0x48);
        self.write_data(0x39);
        self.write_data(0x16);
        self.write_data(0x16);
        self.write_data(0x2D);
        self.write_data(0x30);
        assert(self@ =~= base + init_actions().take(79));

        self.write_reg(0x2A);  // full-panel column window: 0..239
        self.write_data(0x00);
        self.write_data(0x00);
        self.write_data(0x00);
        self.write_data(0xEF);

        self.write_reg(0x2B);  // full-panel row window: 0..239
        self.write_data(0x00);
        self.write_data(0x00);
        self.write_data(0x00);
        self.write_data(0xEF);
        assert(self@ =~= base + init_actions().take(89));

        self.write_reg(0x29);  // display on
        self.delay_ms(2);
        self.write_reg(0x2C);  // memory write: armed for pixel streaming
        self.select_high();
        assert(self@ =~= base + init_actions());
    }

    /// Renders one character scaled by `size_scalar`, window checks already
    /// done: the scaled glyph cell streamed pixel by pixel, then the
    /// edge-aware trailing spacer.
    #[verifier::rlimit(60)]
    fn push_char(&mut self, c: i8, x: u8, y: u8, size_scalar: u32, text_color: Color,
        background_color: Color)
        requires
            char_fits(x as int, y as int, size_scalar as int),
        ensures
            final(self)@ == old(self)@ + char_actions(
                c,
                x as int,
                y as int,
                size_scalar as int,
                text_color,
                background_color,
            ),
    {
        let s = size_scalar;
        let ghost s_i = s as int;
        let glyph = glyph_bytes(c);
        let ghost gs = glyph_of(c as int);
        proof {
            crate::font::lemma_glyph_of_len(c as int);
        }
        let ghost fgp = rgb565(text_color);
        let ghost bgp = rgb565(background_color);
        let ghost cp = char_pixels(gs, fgp, bgp, s_i);

        self.select_low();
        let w: u8 = (5 * s) as u8;
        let h: u8 = (8 * s) as u8;
        self.set_window(x, y, w, h);
        let ghost base = self@;
        assert(base =~= old(self)@ + seq![BusAction::SelectLow] + window_actions(
            x,
            y,
            (5 * s_i) as u8,
            (8 * s_i) as u8,
        ));

        let mut i: u8 = 0;
        while i < 8
            invariant
                i <= 8,
                1 <= s_i,
                s_i == s as int,
                glyph@ == gs,
                gs.len() == 5,
                cp == char_pixels(gs, fgp, bgp, s_i),
                fgp == rgb565(text_color),
                bgp == rgb565(background_color),
                cp.len() == 40 * s_i * s_i,
                self@ == base + cp.take(i as int * (5 * s_i * s_i)),
            decreases 8 - i,
        {
            let mut v: u32 = 0;
            while v < s
                invariant
                    i < 8,
                    v <= s,
                    1 <= s_i,
                    s_i == s as int,
                    glyph@ == gs,
                    gs.len() == 5,
                    cp == char_pixels(gs, fgp, bgp, s_i),
                    fgp == rgb565(text_color),
                    bgp == rgb565(background_color),
                    cp.len() == 40 * s_i * s_i,
                    self@ == base + cp.take(i as int * (5 * s_i * s_i) + v as int * (5 * s_i)),
                decreases s - v,
            {
                let mut j: u8 = 0;
                while j < 5
                    invariant
                        i < 8,
                        v < s,
                        j <= 5,
                        1 <= s_i,
                        s_i == s as int,
                        glyph@ == gs,
                        gs.len() == 5,
                        cp == char_pixels(gs, fgp, bgp, s_i),
                        fgp == rgb565(text_color),
                        bgp == rgb565(background_color),
                        cp.len() == 40 * s_i * s_i,
                        self@ == base + cp.take(
                            i as int * (5 * s_i * s_i) + v as int * (5 * s_i) + j as int * s_i,
                        ),
                    decreases 5 - j,
                {
                    let now_bit: usize = (i as usize) * 5 + 4 - (j as usize);
                    let byte = glyph[now_bit / 8];
                    let lit = byte & (0x80u8 >> ((now_bit % 8) as u8)) != 0;
                    assert(lit == glyph_bit(gs, i as int, j as int));
                    let mut hrep: u32 = 0;
                    while hrep < s
                        invariant
                            i < 8,
                            v < s,
                            j < 5,
                            hrep <= s,
                            1 <= s_i,
                            s_i == s as int,
                            cp == char_pixels(gs, fgp, bgp, s_i),
                            fgp == rgb565(text_color),
                            bgp == rgb565(background_color),
                            cp.len() == 40 * s_i * s_i,
                            lit == glyph_bit(gs, i as int, j as int),
                            self@ == base + cp.take(
                                i as int * (5 * s_i * s_i) + v as int * (5 * s_i) + j as int * s_i
                                    + hrep as int,
                            ),
                        decreases s - hrep,
                    {
                        proof {
                            lemma_scaled_index(i as int, v as int, j as int, hrep as int, s_i);
                        }
                        if lit {
                            self.put_pixel(text_color);
                        } else {
                            self.put_pixel(background_color);
                        }
                        hrep += 1;
                        assert(self@ =~= base + cp.take(
                            i as int * (5 * s_i * s_i) + v as int * (5 * s_i) + j as int * s_i
                                + hrep as int,
                        ));
                    }
                    j += 1;
                    assert(j as int * s_i == (j as int - 1) * s_i + s_i) by (nonlinear_arith);
                }
                v += 1;
                assert(v as int * (5 * s_i) == (v as int - 1) * (5 * s_i) + 5 * s_i)
                    by (nonlinear_arith);
            }
            i += 1;
            assert(i as int * (5 * s_i * s_i) == (i as int - 1) * (5 * s_i * s_i) + (s_i) * (5
                * s_i)) by (nonlinear_arith);
        }
        assert(8 * (5 * s_i * s_i) == 40 * s_i * s_i) by (nonlinear_arith);
        assert(self@ == base + cp);
        assert(self@ =~= old(self)@ + seq![BusAction::SelectLow] + window_actions(
            x,
            y,
            (5 * s_i) as u8,
            (8 * s_i) as u8,
        ) + cp);

        // trailing spacer when the next glyph still fits on the panel
        if (x as u64) + 6 * (s as u64) <= 240 {
            let ghost base2 = self@;
            let sx: u8 = ((x as u32) + 5 * s) as u8;
            self.set_window(sx, y, s as u8, h);
            let ghost base3 = self@;
            assert(s_i * (8 * s_i) <= 8 * 40 * 40 && 8 * s_i * s_i == s_i * (8 * s_i))
                by (nonlinear_arith)
                requires
                    1 <= s_i <= 40,
            ;
            let spacer_count: u32 = s * (8 * s);
            let mut p: u32 = 0;
            while p < spacer_count
                invariant
                    p <= spacer_count,
                    bgp == rgb565(background_color),
                    self@ == base3 + repeated_pixels(bgp, p as nat),
                decreases spacer_count - p,
            {
                self.put_pixel(background_color);
                p += 1;
                assert(self@ =~= base3 + repeated_pixels(bgp, p as nat));
            }
            assert(self@ =~= base2 + spacer_actions(x as int, y as int, s_i, background_color));
        } else {
            assert(spacer_actions(x as int, y as int, s_i, background_color) =~= Seq::<
                BusAction,
            >::empty());
        }
        self.select_high();
        assert(self@ =~= old(self)@ + char_actions(
            c,
            x as int,
            y as int,
            s_i,
            text_color,
            background_color,
        ));
    }

    /// Streams one pixel already in the wire format.
    fn put_pixel_raw(&mut self, p: u16)
        ensures
            final(self)@ == old(self)@.push(BusAction::Pixel(p)),
    {
        self.queue.push(BusAction::Pixel(p));
    }

    /// Renders one unscaled character, window checks already done: the
    /// glyph is rendered into an in-memory buffer of `5 * 8` wire pixels
    /// first, then streamed in a single transfer, followed by the
    /// edge-aware trailing spacer.  The output is identical to the scaled
    /// path at scale one.
    fn push_char_fast(&mut self, c: i8, x: u8, y: u8, text_color: Color, background_color: Color)
        requires
            char_fits(x as int, y as int, 1),
        ensures
            final(self)@ == old(self)@ + char_actions(
                c,
                x as int,
                y as int,
                1,
                text_color,
                background_color,
            ),
    {
        let glyph = glyph_bytes(c);
        let ghost gs = glyph_of(c as int);
        proof {
            crate::font::lemma_glyph_of_len(c as int);
        }
        let ghost fgp = rgb565(text_color);
        let ghost bgp = rgb565(background_color);
        let ghost cp = char_pixels(gs, fgp, bgp, 1);

        let mut buff: Vec<u16> = Vec::new();
        let mut i: u8 = 0;
        while i < 8
            invariant
                i <= 8,
                glyph@ == gs,
                gs.len() == 5,
                buff@.len() == i * 5,
                forall|m: int|
                    0 <= m < buff@.len() ==> buff@[m] == (if glyph_bit(gs, m / 5, m % 5) {
                        fgp
                    } else {
                        bgp
                    }),
                fgp == rgb565(text_color),
                bgp == rgb565(background_color),
            decreases 8 - i,
        {
            let mut j: u8 = 0;
            while j < 5
                invariant
                    i < 8,
                    j <= 5,
                    glyph@ == gs,
                    gs.len() == 5,
                    buff@.len() == i * 5 + j,
                    forall|m: int|
                        0 <= m < buff@.len() ==> buff@[m] == (if glyph_bit(gs, m / 5, m % 5) {
                            fgp
                        } else {
                            bgp
                        }),
                    fgp == rgb565(text_color),
                    bgp == rgb565(background_color),
                decreases 5 - j,
            {
                let now_bit: usize = (i as usize) * 5 + 4 - (j as usize);
                let byte = glyph[now_bit / 8];
                let lit = byte & (0x80u8 >> ((now_bit % 8) as u8)) != 0;
                assert(lit == glyph_bit(gs, i as int, j as int));
                if lit {
                    buff.push(text_color.to_u16());
                } else {
                    buff.push(background_color.to_u16());
                }
                j += 1;
            }
            i += 1;
        }

        self.select_low();
        self.set_window(x, y, 5, 8);
        let ghost base = self@;

        // the single transfer of the buffered cell
        let mut k: usize = 0;
        while k < 40
            invariant
                k <= 40,
                buff@.len() == 40,
                forall|m: int|
                    0 <= m < 40 ==> buff@[m] == (if glyph_bit(gs, m / 5, m % 5) {
                        fgp
                    } else {
                        bgp
                    }),
                cp == char_pixels(gs, fgp, bgp, 1),
                self@ == base + cp.take(k as int),
            decreases 40 - k,
        {
            self.put_pixel_raw(buff[k]);
            k += 1;
            assert(self@ =~= base + cp.take(k as int));
        }
        assert(self@ == base + cp);
        assert(self@ =~= old(self)@ + seq![BusAction::SelectLow] + window_actions(x, y, 5, 8)
            + cp);

        // trailing spacer when the next glyph still fits on the panel
        if (x as u16) + 6 <= 240 {
            let ghost base2 = self@;
            self.set_window(x + 5, y, 1, 8);
            let ghost base3 = self@;
            let mut p: u8 = 0;
            while p < 8
                invariant
                    p <= 8,
                    bgp == rgb565(background_color),
                    self@ == base3 + repeated_pixels(bgp, p as nat),
                decreases 8 - p,
            {
                self.put_pixel(background_color);
                p += 1;
                assert(self@ =~= base3 + repeated_pixels(bgp, p as nat));
            }
            assert(self@ =~= base2 + spacer_actions(x as int, y as int, 1, background_color));
        } else {
            assert(spacer_actions(x as int, y as int, 1, background_color) =~= Seq::<
                BusAction,
            >::empty());
        }
        self.select_high();
        assert(self@ =~= old(self)@ + char_actions(
            c,
            x as int,
            y as int,
            1,
            text_color,
            background_color,
        ));
    }

    /// Draws one unscaled character at `(x, y)`: same output as
    /// [`Atm0130::draw_char`] at scale one, buffered to minimize per-pixel
    /// transfer overhead.
    pub fn draw_char_fast(&mut self, c: i8, x: u8, y: u8, text_color: Color,
        background_color: Color) -> (r: Result<(), DriverError>)
        ensures
            char_fits(x as int, y as int, 1) ==> r == Ok::<(), DriverError>(()) && final(self)@
                == old(self)@ + char_actions(c, x as int, y as int, 1, text_color,
                background_color),
            !char_fits(x as int, y as int, 1) ==> r == Err::<(), DriverError>(
                DriverError::WindowOutOfRange,
            ) && final(self)@ == old(self)@,
    {
        if !window_fits(x, y, 5, 8) {
            return Err(DriverError::WindowOutOfRange);
        }
        self.push_char_fast(c, x, y, text_color, background_color);
        Ok(())
    }

    /// Draws one character at `(x, y)`, each logical pixel replicated
    /// `size_scalar` times in both directions, `text_color` on
    /// `background_color`, with the edge-aware trailing spacer column.
    pub fn draw_char(&mut self, c: i8, x: u8, y: u8, size_scalar: u32, text_color: Color,
        background_color: Color) -> (r: Result<(), DriverError>)
        ensures
            char_fits(x as int, y as int, size_scalar as int) ==> r == Ok::<(), DriverError>(())
                && final(self)@ == old(self)@ + char_actions(
                c,
                x as int,
                y as int,
                size_scalar as int,
                text_color,
                background_color,
            ),
            !char_fits(x as int, y as int, size_scalar as int) ==> r == Err::<(), DriverError>(
                DriverError::WindowOutOfRange,
            ) && final(self)@ == old(self)@,
    {
        if size_scalar == 0 || size_scalar > 48 {
            return Err(DriverError::WindowOutOfRange);
        }
        let w32: u32 = 5 * size_scalar;
        let h32: u32 = 8 * size_scalar;
        if w32 > 240 || h32 > 240 || !window_fits(x, y, w32 as u8, h32 as u8) {
            return Err(DriverError::WindowOutOfRange);
        }
        self.push_char(c, x, y, size_scalar, text_color, background_color);
        Ok(())
    }

    /// Draws a text run at `(x, y)` scaled by `size_scalar`: the string's
    /// characters are taken in reverse, the last one at `x`, each earlier
    /// one a glyph advance further right, so the text reads left to right
    /// in string order.
    pub fn draw_text(&mut self, text: &str, x: u8, y: u8, size_scalar: u32, text_color: Color,
        background_color: Color) -> (r: Result<(), DriverError>)
        ensures
            text_fits(text@.len() as int, x as int, y as int, size_scalar as int) ==> r == Ok::<
                (),
                DriverError,
            >(()) && final(self)@ == old(self)@ + text_actions(
                text@,
                x as int,
                y as int,
                size_scalar as int,
                text_color,
                background_color,
            ),
            !text_fits(text@.len() as int, x as int, y as int, size_scalar as int) ==> r == Err::<
                (),
                DriverError,
            >(DriverError::WindowOutOfRange) && final(self)@ == old(self)@,
    {
        let n = text.unicode_len();
        if !text_fits_check(n, x, y, size_scalar) {
            return Err(DriverError::WindowOutOfRange);
        }
        if n == 0 {
            assert(old(self)@ + text_actions(
                text@,
                x as int,
                y as int,
                size_scalar as int,
                text_color,
                background_color,
            ) =~= old(self)@);
            return Ok(());
        }
        let s = size_scalar;
        let ghost s_i = s as int;
        let adv: u32 = 6 * s;
        let mut cur_x: u32 = x as u32;
        let mut k: usize = 0;
        let ghost base0 = self@;
        proof {
            assert(text@.skip(n as int) =~= Seq::<char>::empty());
        }
        while k < n
            invariant
                k <= n,
                n == text@.len(),
                1 <= s_i,
                s_i == s as int,
                s <= 30,
                adv == 6 * s,
                x as int + (n as int - 1) * (6 * s_i) + 5 * s_i <= 240,
                y as int + 8 * s_i <= 240,
                cur_x as int == x as int + k as int * (6 * s_i),
                self@ == base0 + text_actions(
                    text@.skip(n as int - k as int),
                    x as int,
                    y as int,
                    s_i,
                    text_color,
                    background_color,
                ),
            decreases n - k,
        {
            proof {
                assert(k as int * (6 * s_i) <= (n as int - 1) * (6 * s_i)) by (nonlinear_arith)
                    requires
                        0 <= k as int <= n as int - 1 && 1 <= s_i,
                ;
            }
            let c = text.get_char(n - 1 - k);
            let code: i8 = ((c as u32) as u8) as i8;
            self.push_char(code, cur_x as u8, y, s, text_color, background_color);
            proof {
                let chars = text@.skip(n as int - k as int - 1);
                assert(chars.drop_first() =~= text@.skip(n as int - k as int));
                assert(chars.first() == text@[n as int - 1 - k as int]);
                lemma_text_actions_unsnoc(
                    chars,
                    x as int,
                    y as int,
                    s_i,
                    text_color,
                    background_color,
                );
                assert(self@ =~= base0 + text_actions(
                    chars,
                    x as int,
                    y as int,
                    s_i,
                    text_color,
                    background_color,
                ));
            }
            cur_x = cur_x + adv;
            k += 1;
            proof {
                assert((k as int) * (6 * s_i) == (k as int - 1) * (6 * s_i) + 6 * s_i)
                    by (nonlinear_arith);
            }
        }
        proof {
            assert(text@.skip(0) =~= text@);
        }
        Ok(())
    }

    /// Draws an unscaled text run at `(x, y)`: same output as
    /// [`Atm0130::draw_text`] at scale one, each character buffered and
    /// streamed in a single transfer.
    pub fn draw_text_fast(&mut self, text: &str, x: u8, y: u8, text_color: Color,
        background_color: Color) -> (r: Result<(), DriverError>)
        ensures
            text_fits(text@.len() as int, x as int, y as int, 1) ==> r == Ok::<(), DriverError>(
                (),
            ) && final(self)@ == old(self)@ + text_actions(
                text@,
                x as int,
                y as int,
                1,
                text_color,
                background_color,
            ),
            !text_fits(text@.len() as int, x as int, y as int, 1) ==> r == Err::<(), DriverError>(
                DriverError::WindowOutOfRange,
            ) && final(self)@ == old(self)@,
    {
        let n = text.unicode_len();
        if !text_fits_check(n, x, y, 1) {
            return Err(DriverError::WindowOutOfRange);
        }
        if n == 0 {
            assert(old(self)@ + text_actions(
                text@,
                x as int,
                y as int,
                1,
                text_color,
                background_color,
            ) =~= old(self)@);
            return Ok(());
        }
        let mut cur_x: u16 = x as u16;
        let mut k: usize = 0;
        let ghost base0 = self@;
        proof {
            assert(text@.skip(n as int) =~= Seq::<char>::empty());
        }
        while k < n
            invariant
                k <= n,
                n == text@.len(),
                x as int + (n as int - 1) * 6 + 5 <= 240,
                y as int + 8 <= 240,
                cur_x as int == x as int + k as int * 6,
                self@ == base0 + text_actions(
                    text@.skip(n as int - k as int),
                    x as int,
                    y as int,
                    1,
                    text_color,
                    background_color,
                ),
            decreases n - k,
        {
            let c = text.get_char(n - 1 - k);
            let code: i8 = ((c as u32) as u8) as i8;
            self.push_char_fast(code, cur_x as u8, y, text_color, background_color);
            proof {
                let chars = text@.skip(n as int - k as int - 1);
                assert(chars.drop_first() =~= text@.skip(n as int - k as int));
                assert(chars.first() == text@[n as int - 1 - k as int]);
                lemma_text_actions_unsnoc(chars, x as int, y as int, 1, text_color,
                    background_color);
                assert(self@ =~= base0 + text_actions(
                    chars,
                    x as int,
                    y as int,
                    1,
                    text_color,
                    background_color,
                ));
            }
            cur_x = cur_x + 6;
            k += 1;
        }
        proof {
            assert(text@.skip(0) =~= text@);
        }
        Ok(())
    }

    /// Draws a status line centered on the panel, unscaled, in the badge
    /// color on black.  Text of more than 40 characters cannot be centered
    /// on the 240-column panel and is rejected.
    pub fn draw_info(&mut self, text: &str) -> (r: Result<(), DriverError>)
        ensures
            text@.len() <= 40 ==> r == Ok::<(), DriverError>(()) && final(self)@ == old(self)@
                + text_actions(
                text@,
                120 - 3 * text@.len(),
                116,
                1,
                artemis_color(),
                Color(0, 0, 0),
            ),
            text@.len() > 40 ==> r == Err::<(), DriverError>(DriverError::WindowOutOfRange)
                && final(self)@ == old(self)@,
    {
        let n = text.unicode_len();
        if n > 40 {
            return Err(DriverError::WindowOutOfRange);
        }
        let size = text_size(text, 1);
        let x = 120 - size.0 / 2;
        let y = 120 - size.1 / 2;
        assert(x as int == 120 - 3 * text@.len());
        assert(y == 116);
        assert((text@.len() as int - 1) * (6 * 1) == (text@.len() as int - 1) * 6)
            by (nonlinear_arith);
        assert(text@.len() >= 1 ==> x as int + (text@.len() as int - 1) * 6 + 5 * 1 <= 240);
        assert(text_fits(text@.len() as int, x as int, y as int, 1));
        self.draw_text(text, x, y, 1, Color(0x37, 0xD8, 0xDB), Color(0, 0, 0))
    }

    /// Blits the embedded logo at `(x, y)`: one window-set of the logo's
    /// extent, then its raster streamed in stored linear order.  The
    /// raster is already in the wire format, so no per-pixel conversion
    /// happens.
    pub fn draw_logo(&mut self, x: u8, y: u8) -> (r: Result<(), DriverError>)
        ensures
            valid_window(x as int, y as int, IMG_WIDTH as int, IMG_HEIGHT as int) ==> r == Ok::<
                (),
                DriverError,
            >(()) && final(self)@ == old(self)@ + logo_actions(x, y),
            !valid_window(x as int, y as int, IMG_WIDTH as int, IMG_HEIGHT as int) ==> r == Err::<
                (),
                DriverError,
            >(DriverError::WindowOutOfRange) && final(self)@ == old(self)@,
    {
        if !window_fits(x, y, IMG_WIDTH, IMG_HEIGHT) {
            return Err(DriverError::WindowOutOfRange);
        }
        self.select_low();
        self.set_window(x, y, IMG_WIDTH, IMG_HEIGHT);
        let ghost base = self@;
        let ghost lp = Seq::new(4680, |i: int| BusAction::Pixel(img_seq()[i]));
        let data = img_data();
        let mut k: usize = 0;
        while k < 4680
            invariant
                k <= 4680,
                data@ == img_seq(),
                data@.len() == 4680,
                lp == Seq::new(4680, |i: int| BusAction::Pixel(img_seq()[i])),
                self@ == base + lp.take(k as int),
            decreases 4680 - k,
        {
            self.put_pixel_raw(data[k]);
            k += 1;
            assert(self@ =~= base + lp.take(k as int));
        }
        self.select_high();
        assert(self@ =~= old(self)@ + logo_actions(x, y));
        Ok(())
    }

    /// Blits a caller-supplied raster of RGB triplets into a
    /// `width x height` window at `(x, y)`.  The source is addressed
    /// row-major by the caller but streamed in reverse row and reverse
    /// column order, and the row stride multiplies by `height`: both kept
    /// exactly as the one embedded asset authored against this layout
    /// expects them.
    pub fn draw_img(&mut self, x: u8, y: u8, width: u8, height: u8, data: &[u8]) -> (r: Result<
        (),
        DriverError,
    >)
        requires
            valid_window(x as int, y as int, width as int, height as int) ==> data@.len() >= (
            height as int - 1) * (height as int) * 3 + (width as int - 1) * 3 + 3,
        ensures
            valid_window(x as int, y as int, width as int, height as int) ==> r == Ok::<
                (),
                DriverError,
            >(()) && final(self)@ == old(self)@ + img_actions(data@, x, y, width, height),
            !valid_window(x as int, y as int, width as int, height as int) ==> r == Err::<
                (),
                DriverError,
            >(DriverError::WindowOutOfRange) && final(self)@ == old(self)@,
    {
        if !window_fits(x, y, width, height) {
            return Err(DriverError::WindowOutOfRange);
        }
        self.select_low();
        self.set_window(x, y, width, height);
        let ghost base = self@;
        let ghost ip = Seq::new(
            (width * height) as nat,
            |k: int| img_blit_pixel(data@, width as int, height as int, k),
        );
        let mut i: u8 = 0;
        while i < height
            invariant
                i <= height,
                1 <= width <= 240,
                1 <= height <= 240,
                data@.len() >= (height as int - 1) * (height as int) * 3 + (width as int - 1) * 3
                    + 3,
                ip == Seq::new(
                    (width * height) as nat,
                    |k: int| img_blit_pixel(data@, width as int, height as int, k),
                ),
                ip.len() == width * height,
                self@ == base + ip.take(i as int * width as int),
            decreases height - i,
        {
            let mut j: u8 = 0;
            while j < width
                invariant
                    i < height,
                    j <= width,
                    1 <= width <= 240,
                    1 <= height <= 240,
                    data@.len() >= (height as int - 1) * (height as int) * 3 + (width as int - 1)
                        * 3 + 3,
                    ip == Seq::new(
                        (width * height) as nat,
                        |k: int| img_blit_pixel(data@, width as int, height as int, k),
                    ),
                    ip.len() == width * height,
                    self@ == base + ip.take(i as int * width as int + j as int),
                decreases width - j,
            {
                proof {
                    let wi = width as int;
                    let hi = height as int;
                    let ii = i as int;
                    let ji = j as int;
                    assert(((hi - 1 - ii) * hi * 3 <= (hi - 1) * hi * 3) && (0 <= (hi - 1 - ii)
                        * hi * 3) && ((hi - 1 - ii) * hi <= 57600) && ((hi - 1 - ii) * hi * 3
                        <= 172800)) by (nonlinear_arith)
                        requires
                            0 <= ii && ii < hi && 1 <= hi && hi <= 240,
                    ;
                    assert((ii * wi + ji < wi * hi) && (0 <= ii * wi)) by (nonlinear_arith)
                        requires
                            0 <= ii && ii < hi && 0 <= ji && ji < wi,
                    ;
                    lemma_fundamental_div_mod_converse(ii * wi + ji, wi, ii, ji);
                }
                let idx: usize = ((height - 1 - i) as usize) * (height as usize) * 3 + ((width - 1
                    - j) as usize) * 3;
                let color = Color(data[idx], data[idx + 1], data[idx + 2]);
                self.put_pixel(color);
                j += 1;
                assert(self@ =~= base + ip.take(i as int * width as int + j as int));
            }
            i += 1;
            assert(i as int * width as int == (i as int - 1) * width as int + width as int)
                by (nonlinear_arith);
        }
        proof {
            assert(height as int * width as int == width as int * height as int)
                by (nonlinear_arith);
        }
        self.select_high();
        assert(self@ =~= old(self)@ + img_actions(data@, x, y, width, height));
        Ok(())
    }

    /// Asserts chip-select: the controller listens.
    fn select_low(&mut self)
        ensures
            final(self)@ == old(self)@.push(BusAction::SelectLow),
    {
        self.queue.push(BusAction::SelectLow);
    }

    /// Releases chip-select.
    fn select_high(&mut self)
        ensures
            final(self)@ == old(self)@.push(BusAction::SelectHigh),
    {
        self.queue.push(BusAction::SelectHigh);
    }
}

/// Whether the window stays on the panel, checked exactly as
/// [`valid_window`] states it.
fn window_fits(x: u8, y: u8, width: u8, height: u8) -> (ok: bool)
    ensures
        ok == valid_window(x as int, y as int, width as int, height as int),
{
    1 <= width && 1 <= height && x as u16 + width as u16 <= 240 && y as u16 + height as u16 <= 240
}

/// The power-up reset pulse.
pub open spec fn reset_actions() -> Seq<BusAction> {
    seq![
        BusAction::ResetHigh,
        BusAction::DelayMs(20),
        BusAction::ResetLow,
        BusAction::DelayMs(20),
        BusAction::ResetHigh,
        BusAction::DelayMs(20),
    ]
}

/// The whole initialization sequence, action by action: the reset pulse,
/// then every register write, parameter byte and settling delay of the
/// vendor sequence, in order.
pub open spec fn init_actions() -> Seq<BusAction> {
    seq![BusAction::SelectHigh] + reset_actions() + seq![
        BusAction::SelectLow,
        BusAction::Command(0x11),
        BusAction::DelayMs(100),
        BusAction::Command(0x36),
        BusAction::Data(0x00),
        BusAction::Command(0x3A),
        BusAction::Data(0x55),
        BusAction::Command(0xB2),
        BusAction::Data(0x0C),
        BusAction::Data(0x0C),
        BusAction::Data(0x00),
        BusAction::Data(0x33),
        BusAction::Data(0x33),
        BusAction::DelayMs(2),
        BusAction::Command(0xB7),
        BusAction::Data(0x75),
        BusAction::DelayMs(2),
        BusAction::Command(0xC2),
        BusAction::Data(0x01),
        BusAction::DelayMs(2),
        BusAction::Command(0xC3),
        BusAction::Data(0x10),
        BusAction::DelayMs(2),
        BusAction::Command(0xC4),
        BusAction::Data(0x20),
        BusAction::DelayMs(2),
        BusAction::Command(0xC6),
        BusAction::Data(0x0F),
        BusAction::Command(0xB0),
        BusAction::Data(0x00),
        BusAction::Data(0xF0),
        BusAction::DelayMs(2),
        BusAction::Command(0xD0),
        BusAction::Data(0xA4),
        BusAction::Data(0xA1),
        BusAction::DelayMs(2),
        BusAction::Command(0x21),
        BusAction::DelayMs(2),
        BusAction::Command(0xBB),
        BusAction::Data(0x3B),
        BusAction::DelayMs(2),
        BusAction::Command(0xE0),
        BusAction::Data(0xF0),
        BusAction::Data(0x0B),
        BusAction::Data(0x11),
        BusAction::Data(0x0E),
        BusAction::Data(0x0D),
        BusAction::Data(0x19),
        BusAction::Data(0x36),
        BusAction::Data(0x33),
        BusAction::Data(0x4B),
        BusAction::Data(0x07),
        BusAction::Data(0x14),
        BusAction::Data(0x14),
        BusAction::Data(0x2C),
        BusAction::Data(0x2E),
        BusAction::DelayMs(2),
        BusAction::Command(0xE1),
        BusAction::Data(0xF0),
        BusAction::Data(0x0D),
        BusAction::Data(0x12),
        BusAction::Data(0x0B),
        BusAction::Data(0x09),
        BusAction::Data(0x03),
        BusAction::Data(0x32),
        BusAction::Data(0x44),
        BusAction::Data(0x48),
        BusAction::Data(0x39),
        BusAction::Data(0x16),
        BusAction::Data(0x16),
        BusAction::Data(0x2D),
        BusAction::Data(0x30),
        BusAction::Command(0x2A),
        BusAction::Data(0x00),
        BusAction::Data(0x00),
        BusAction::Data(0x00),
        BusAction::Data(0xEF),
        BusAction::Command(0x2B),
        BusAction::Data(0x00),
        BusAction::Data(0x00),
        BusAction::Data(0x00),
        BusAction::Data(0xEF),
        BusAction::Command(0x29),
        BusAction::DelayMs(2),
        BusAction::Command(0x2C),
        BusAction::SelectHigh,
    ]
}

/// Whether a text run stays on the panel, checked exactly as
/// [`text_fits`] states it.
fn text_fits_check(len: usize, x: u8, y: u8, s: u32) -> (ok: bool)
    ensures
        ok == text_fits(len as int, x as int, y as int, s as int),
{
    if len == 0 {
        return true;
    }
    if s == 0 {
        return false;
    }
    if s > 30 {
        return false;
    }
    if len > 40 {
        proof {
            assert((len as int - 1) * (6 * s as int) >= 240) by (nonlinear_arith)
                requires
                    len as int >= 41 && s as int >= 1,
            ;
        }
        return false;
    }
    proof {
        assert((len as int - 1) * (6 * s as int) <= 39 * 180) by (nonlinear_arith)
            requires
                1 <= len as int <= 40 && 1 <= s as int <= 30,
        ;
    }
    let span: u32 = ((len as u32) - 1) * (6 * s) + 5 * s;
    (x as u32) + span <= 240 && (y as u32) + 8 * s <= 240
}

/// The action sequence of one logo blit: the logo's window armed, then
/// its raster streamed in stored linear order, already wire-format.
pub open spec fn logo_actions(x: u8, y: u8) -> Seq<BusAction> {
    seq![BusAction::SelectLow] + window_actions(x, y, IMG_WIDTH, IMG_HEIGHT) + Seq::new(
        4680,
        |i: int| BusAction::Pixel(img_seq()[i]),
    ) + seq![BusAction::SelectHigh]
}

/// Where output cell `(i, j)` of an image blit reads in the source: rows
/// and columns both reversed, and the row stride multiplied by the image
/// height — the layout the embedded asset was authored against.
pub open spec fn img_blit_index(w: int, h: int, i: int, j: int) -> int {
    (h - 1 - i) * h * 3 + (w - 1 - j) * 3
}

/// Output pixel `k` of an image blit: the three source bytes at its blit
/// index read as R, G, B and packed into the wire format.
pub open spec fn img_blit_pixel(data: Seq<u8>, w: int, h: int, k: int) -> BusAction {
    let idx = img_blit_index(w, h, k / w, k % w);
    BusAction::Pixel(rgb565(Color(data[idx], data[idx + 1], data[idx + 2])))
}

/// The action sequence of one image blit.
pub open spec fn img_actions(data: Seq<u8>, x: u8, y: u8, width: u8, height: u8) -> Seq<
    BusAction,
> {
    seq![BusAction::SelectLow] + window_actions(x, y, width, height) + Seq::new(
        (width * height) as nat,
        |k: int| img_blit_pixel(data, width as int, height as int, k),
    ) + seq![BusAction::SelectHigh]
}

/// The badge color of the embedded logo, used for status text.
pub open spec fn artemis_color() -> Color {
    Color(0x37, 0xD8, 0xDB)
}

/// The action sequence of one rectangle fill.
pub open spec fn rect_actions(x: u8, y: u8, width: u8, height: u8, c: Color) -> Seq<BusAction> {
    seq![BusAction::SelectLow] + window_actions(x, y, width, height) + repeated_pixels(
        rgb565(c),
        (width * height) as nat,
    ) + seq![BusAction::SelectHigh]
}

/// The glyph code a character selects: its scalar value truncated to one
/// byte and read as a signed byte, exactly as the driver's byte-oriented
/// text path sees it.
pub open spec fn char_code(c: char) -> i8 {
    ((c as u32) as u8) as i8
}

/// Whether a glyph drawn at `(x, y)` with this scale stays on the panel:
/// its cell is `5 * scale` wide and `8 * scale` tall.
pub open spec fn char_fits(x: int, y: int, s: int) -> bool {
    valid_window(x, y, 5 * s, 8 * s)
}

/// One cell pixel of a glyph: foreground where the mask bit is lit, else
/// background.
pub open spec fn cell_pixel(g: Seq<u8>, row: int, col: int, fg: u16, bg: u16) -> BusAction {
    BusAction::Pixel(
        if glyph_bit(g, row, col) {
            fg
        } else {
            bg
        },
    )
}

/// The pixel stream of one glyph scaled by `s`: the scaled cell row-major,
/// each logical pixel replicated `s` times across and `s` rows down.  Pixel
/// `k` of the stream shows cell row `k / (5 * s * s)` and cell column
/// `(k % (5 * s)) / s`.
pub open spec fn char_pixels(g: Seq<u8>, fg: u16, bg: u16, s: int) -> Seq<BusAction> {
    Seq::new((40 * s * s) as nat, |k: int| cell_pixel(g, k / (5 * s * s), (k % (5 * s)) / s, fg, bg))
}

/// The trailing spacer: one scaled-width column of background drawn to the
/// glyph's right, filled completely, except when the next glyph would
/// extend past column 240 — then nothing.
pub open spec fn spacer_actions(x: int, y: int, s: int, bg: Color) -> Seq<BusAction> {
    if x + 6 * s <= 240 {
        window_actions((x + 5 * s) as u8, y as u8, s as u8, (8 * s) as u8) + repeated_pixels(
            rgb565(bg),
            (8 * s * s) as nat,
        )
    } else {
        Seq::empty()
    }
}

/// The action sequence of one drawn character: chip-select asserted, the
/// scaled glyph cell armed and streamed, the edge-aware trailing spacer,
/// chip-select released.
pub open spec fn char_actions(c: i8, x: int, y: int, s: int, fg: Color, bg: Color) -> Seq<
    BusAction,
> {
    seq![BusAction::SelectLow] + window_actions(x as u8, y as u8, (5 * s) as u8, (8 * s) as u8)
        + char_pixels(glyph_of(c as int), rgb565(fg), rgb565(bg), s) + spacer_actions(x, y, s, bg)
        + seq![BusAction::SelectHigh]
}

/// Where pixel `i * (5 s s) + v * (5 s) + j * s + h` of the scaled stream
/// falls: cell row `i`, cell column `j`.
proof fn lemma_scaled_index(i: int, v: int, j: int, h: int, s: int)
    requires
        1 <= s,
        0 <= i < 8,
        0 <= v < s,
        0 <= j < 5,
        0 <= h < s,
    ensures
        ({
            let k = i * (5 * s * s) + v * (5 * s) + j * s + h;
            &&& 0 <= k < 40 * s * s
            &&& k / (5 * s * s) == i
            &&& (k % (5 * s)) / s == j
        }),
{
    let k = i * (5 * s * s) + v * (5 * s) + j * s + h;
    assert(0 <= v * (5 * s) + j * s + h < 5 * s * s && k == i * (5 * s * s) + (v * (5 * s) + j * s
        + h) && 0 <= j * s + h < 5 * s && k == (i * s + v) * (5 * s) + (j * s + h) && 0 <= k < 40
        * s * s) by (nonlinear_arith)
        requires
            1 <= s && 0 <= i < 8 && 0 <= v < s && 0 <= j < 5 && 0 <= h < s && k == i * (5 * s * s)
                + v * (5 * s) + j * s + h,
    ;
    lemma_fundamental_div_mod_converse(k, 5 * s * s, i, v * (5 * s) + j * s + h);
    lemma_fundamental_div_mod_converse(k, 5 * s, i * s + v, j * s + h);
    lemma_fundamental_div_mod_converse(j * s + h, s, j, h);
}

/// The action sequence of a text run.  The characters are taken in
/// reverse: the string's last character is drawn first, at the caller's
/// `x`, and each earlier character lands one glyph advance (`6 * s`
/// columns) further right.  Drawn left to right on the panel, the text
/// therefore reads in string order.
pub open spec fn text_actions(chars: Seq<char>, x: int, y: int, s: int, fg: Color, bg: Color)
    -> Seq<BusAction>
    decreases chars.len(),
{
    if chars.len() == 0 {
        Seq::empty()
    } else {
        char_actions(char_code(chars.last()), x, y, s, fg, bg) + text_actions(
            chars.drop_last(),
            x + 6 * s,
            y,
            s,
            fg,
            bg,
        )
    }
}

/// Whether a whole text run fits: every glyph cell stays on the panel.
/// The rightmost glyph is the string's first character, `len - 1`
/// advances right of `x`.  The spacer columns need no extra room: a
/// glyph's spacer is drawn only when the next cell fits anyway.
pub open spec fn text_fits(len: int, x: int, y: int, s: int) -> bool {
    len == 0 || (1 <= s && x + (len - 1) * (6 * s) + 5 * s <= 240 && y + 8 * s <= 240)
}

/// The string's last character opens the stream, at the caller's `x`; the
/// rest of the string follows one glyph advance further right.  This is
/// the reversed-iteration contract of the text operations.
pub proof fn lemma_text_draws_last_first(
    chars: Seq<char>,
    x: int,
    y: int,
    s: int,
    fg: Color,
    bg: Color,
)
    requires
        chars.len() >= 1,
    ensures
        text_actions(chars, x, y, s, fg, bg) == char_actions(
            char_code(chars.last()),
            x,
            y,
            s,
            fg,
            bg,
        ) + text_actions(chars.drop_last(), x + 6 * s, y, s, fg, bg),
{
}

/// Peeling a text run from the other end: the run over `chars` equals the
/// run over `chars` without its first character, followed by that first
/// character's actions at the rightmost position.
proof fn lemma_text_actions_unsnoc(
    chars: Seq<char>,
    x: int,
    y: int,
    s: int,
    fg: Color,
    bg: Color,
)
    requires
        chars.len() >= 1,
    ensures
        text_actions(chars, x, y, s, fg, bg) == text_actions(chars.drop_first(), x, y, s, fg, bg)
            + char_actions(
            char_code(chars.first()),
            x + (chars.len() - 1) * (6 * s),
            y,
            s,
            fg,
            bg,
        ),
    decreases chars.len(),
{
    if chars.len() == 1 {
        let n = chars.len() as int;
        let a = char_actions(char_code(chars.last()), x, y, s, fg, bg);
        let b = char_actions(char_code(chars.first()), x + (n - 1) * (6 * s), y, s, fg, bg);
        assert(chars.drop_first() =~= Seq::<char>::empty());
        assert(chars.drop_last() =~= Seq::<char>::empty());
        assert(chars.last() == chars.first());
        assert((n - 1) * (6 * s) == 0) by (nonlinear_arith)
            requires
                n == 1,
        ;
        assert(b == a);
        assert(text_actions(chars, x, y, s, fg, bg) == a + text_actions(
            chars.drop_last(),
            x + 6 * s,
            y,
            s,
            fg,
            bg,
        ));
        assert(text_actions(chars.drop_last(), x + 6 * s, y, s, fg, bg) == Seq::<
            BusAction,
        >::empty());
        assert(text_actions(chars.drop_first(), x, y, s, fg, bg) == Seq::<BusAction>::empty());
        assert(a + Seq::<BusAction>::empty() =~= Seq::<BusAction>::empty() + a);
    } else {
        let rest = chars.drop_last();
        let n = chars.len() as int;
        lemma_text_actions_unsnoc(rest, x + 6 * s, y, s, fg, bg);
        assert(rest.first() == chars.first());
        assert(rest.drop_first() =~= chars.drop_first().drop_last());
        assert(chars.drop_first().last() == chars.last());
        assert(x + 6 * s + (n - 2) * (6 * s) == x + (n - 1) * (6 * s)) by (nonlinear_arith);
        let a = char_actions(char_code(chars.last()), x, y, s, fg, bg);
        let t2 = text_actions(chars.drop_first().drop_last(), x + 6 * s, y, s, fg, bg);
        let b = char_actions(char_code(chars.first()), x + (n - 1) * (6 * s), y, s, fg, bg);
        assert(text_actions(rest, x + 6 * s, y, s, fg, bg) == t2 + b);
        assert(text_actions(chars, x, y, s, fg, bg) == a + (t2 + b));
        assert(text_actions(chars.drop_first(), x, y, s, fg, bg) == a + t2);
        assert(a + (t2 + b) =~= (a + t2) + b);
    }
}

/// The on-screen footprint of a text run: each glyph advances the cursor by
/// `(FONT_WIDTH + 1) * size_scalar` columns, and the run is one scaled font
/// cell tall.
pub fn text_size(str: &str, size_scalar: u32) -> (size: (u8, u8))
    requires
        str@.len() * (FONT_WIDTH + 1) * size_scalar <= 255,
        FONT_HEIGHT * size_scalar <= 255,
    ensures
        size.0 == str@.len() * (FONT_WIDTH + 1) * size_scalar,
        size.1 == FONT_HEIGHT * size_scalar,
{
    let len = str.unicode_len();
    proof {
        let n = str@.len() as int;
        let s = size_scalar as int;
        assert(n * 6 * s == n * (6 * s) && (n * 6 * s <= 255 ==> n * (6 * s) <= 255))
            by (nonlinear_arith);
    }
    let advance: u64 = ((FONT_WIDTH + 1) as u64) * (size_scalar as u64);
    (((len as u64) * advance) as u8, ((FONT_HEIGHT as u64) * (size_scalar as u64)) as u8)
}

} // verus!
