use mos6502::display::{Display, DisplayInputPins};

fn pins(data: Option<u8>, rs: Option<bool>, rwb: Option<bool>, e: Option<bool>) -> DisplayInputPins {
    DisplayInputPins { data, rs, rwb, e }
}

#[test]
fn display_latch_detects_rising_edge() {
    let mut d = Display::new();
    assert!(!d.latch(pins(Some(0x0E), Some(false), Some(false), None)), "no edge yet");
    assert!(d.latch(pins(None, None, None, Some(true))), "enable rose");
    assert!(!d.latch(pins(None, None, None, Some(true))), "already high");
    assert!(!d.latch(pins(None, None, None, Some(false))), "falling edge");
    assert_eq!(d.data, 0x0E, "data latched");
    assert!(!d.rs, "register select latched");
}

#[test]
fn display_on_off_control() {
    let mut d = Display::new();
    d.latch(pins(Some(0b0000_1110), Some(false), Some(false), None));
    assert!(d.command().is_none());
    assert!(d.display, "display on");
    assert!(d.cursor, "cursor on");
    assert!(!d.blink, "blink off");
}

#[test]
fn display_clear_blanks_data_ram() {
    let mut d = Display::new();
    // write a character first
    d.latch(pins(Some(0x80), Some(false), Some(false), None));
    d.command();
    d.latch(pins(Some(0x41), Some(true), None, None));
    d.command();
    assert_eq!(d.drram[0], 0x41, "character stored");
    assert_eq!(d.address_counter, 1, "counter advanced");
    // clear display
    d.latch(pins(Some(0x01), Some(false), None, None));
    d.command();
    assert_eq!(d.drram[0], 0x20, "blanked");
    assert_eq!(d.address_counter, 0, "counter home");
}

#[test]
fn display_set_addresses() {
    let mut d = Display::new();
    d.latch(pins(Some(0b0100_0111), Some(false), Some(false), None));
    d.command();
    assert_eq!(d.address_counter, 7, "cgram address");
    assert!(d.cg_dd, "cgram selected");
    d.latch(pins(Some(0b1100_0000), Some(false), None, None));
    d.command();
    assert_eq!(d.address_counter, 0x40, "second-line address");
    assert!(!d.cg_dd, "ddram selected");
}

#[test]
fn display_busy_read_returns_address() {
    let mut d = Display::new();
    d.latch(pins(Some(0x80 | 0x12), Some(false), Some(false), None));
    d.command();
    d.latch(pins(None, None, Some(true), None));
    let out = d.command().expect("a read drives the data lines");
    assert_eq!(out.data, 0x12, "address counter read back");
}

#[test]
fn display_pixels_follow_glyph_rows() {
    let mut d = Display::new();
    let mut cgrom: [u8; 2048] = [0; 2048];
    // character code 0x41, dot row 0: the middle column lit
    cgrom[0x41 * 8] = 0b0000_0100;
    // switch the display on, write 0x41 at the first cell
    d.latch(pins(Some(0b0000_1100), Some(false), Some(false), None));
    d.command();
    d.latch(pins(Some(0x80), Some(false), None, None));
    d.command();
    d.latch(pins(Some(0x41), Some(true), None, None));
    d.command();
    assert!(d.pixel_on(&cgrom, 0, 0, 0, 2), "middle dot lit");
    assert!(!d.pixel_on(&cgrom, 0, 0, 0, 0), "left dot dark");
    assert!(!d.pixel_on(&cgrom, 0, 0, 1, 2), "next row dark");
    assert!(!d.pixel_on(&cgrom, 1, 0, 0, 2), "second line dark");
}

#[test]
fn display_cursor_underlines_addressed_cell() {
    let mut d = Display::new();
    let cgrom: [u8; 2048] = [0; 2048];
    // display and cursor on; the address counter rests on cell 0
    d.latch(pins(Some(0b0000_1110), Some(false), Some(false), None));
    d.command();
    for c_x in 0..5 {
        assert!(d.pixel_on(&cgrom, 0, 0, 7, c_x), "cursor row lit");
    }
    assert!(!d.pixel_on(&cgrom, 0, 1, 7, 0), "other cells dark");
    assert!(!d.pixel_on(&cgrom, 0, 0, 6, 0), "rows above dark");
}

#[test]
fn display_off_shows_nothing() {
    let d = Display::new();
    let cgrom: [u8; 2048] = [0xFF; 2048];
    assert!(!d.pixel_on(&cgrom, 0, 0, 0, 0), "dark while off");
}
