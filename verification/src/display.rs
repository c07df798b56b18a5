//! Register-level logic of a two-line, sixteen-column character display
//! controller: the latched pins, the instruction decoder that drives the
//! address counter and the two on-chip RAMs, and the dot-matrix readout
//! that decides each pixel. Drawing those pixels, and the channel plumbing
//! that feeds the pins, are the surrounding program's concern.

use vstd::prelude::*;

verus! {

/// One update of the display's input pins. A `None` field leaves the
/// corresponding latched level unchanged.
pub struct DisplayInputPins {
    pub data: Option<u8>,
    /// Register select: instruction register when low, data register when
    /// high.
    pub rs: Option<bool>,
    /// Read when high, write when low.
    pub rwb: Option<bool>,
    /// Enable line; a command executes on its rising edge.
    pub e: Option<bool>,
}

/// The display's output pins: the data lines it drives on a read.
pub struct DisplayOutputPins {
    pub data: u8,
}

/// The controller state: the latched pins, the address counter, the
/// character-generator RAM, the display-data RAM, and the mode bits.
pub struct Display {
    pub data: u8,
    pub rs: bool,
    pub rwb: bool,
    pub e: bool,
    pub address_counter: u8,
    pub cgram: [u8; 64],
    pub drram: [u8; 128],
    /// Cursor move direction: increment when set.
    pub i_d: bool,
    /// Shift the display on data writes.
    pub shift: bool,
    /// Display on/off.
    pub display: bool,
    /// Cursor on/off.
    pub cursor: bool,
    /// Blink the cursor position.
    pub blink: bool,
    /// Shift the display rather than move the cursor.
    pub s_c: bool,
    /// Shift to the right rather than the left.
    pub r_l: bool,
    /// Address counter selects character-generator RAM when set, display
    /// data RAM when clear.
    pub cg_dd: bool,
}

/// The controller state as mathematics: the RAM contents as sequences.
pub struct DisplayState {
    pub data: u8,
    pub rs: bool,
    pub rwb: bool,
    pub e: bool,
    pub address_counter: u8,
    pub cgram: Seq<u8>,
    pub drram: Seq<u8>,
    pub i_d: bool,
    pub shift: bool,
    pub display: bool,
    pub cursor: bool,
    pub blink: bool,
    pub s_c: bool,
    pub r_l: bool,
    pub cg_dd: bool,
}

impl View for Display {
    type V = DisplayState;

    open spec fn view(&self) -> DisplayState {
        DisplayState {
            data: self.data,
            rs: self.rs,
            rwb: self.rwb,
            e: self.e,
            address_counter: self.address_counter,
            cgram: self.cgram@,
            drram: self.drram@,
            i_d: self.i_d,
            shift: self.shift,
            display: self.display,
            cursor: self.cursor,
            blink: self.blink,
            s_c: self.s_c,
            r_l: self.r_l,
            cg_dd: self.cg_dd,
        }
    }
}

/// The pins after one update: each given level replaces the latched one.
pub open spec fn latch_spec(d: DisplayState, inp: DisplayInputPins) -> DisplayState {
    DisplayState {
        data: match inp.data {
            Option::Some(v) => v,
            Option::None => d.data,
        },
        rs: match inp.rs {
            Option::Some(v) => v,
            Option::None => d.rs,
        },
        rwb: match inp.rwb {
            Option::Some(v) => v,
            Option::None => d.rwb,
        },
        e: match inp.e {
            Option::Some(v) => v,
            Option::None => d.e,
        },
        ..d
    }
}

/// Whether a status-byte bit of weight `w` is set in `p`.
pub open spec fn dbit(p: u8, w: int) -> bool
    recommends
        w == 1 || w == 2 || w == 4 || w == 8,
{
    (p as int / w) % 2 == 1
}

/// What a rising enable edge does, given the latched pins: the next state
/// and the byte driven onto the data lines, if the command was a read.
///
/// With register-select low the data byte is an instruction: clear,
/// return home, entry mode, display control, shift, function set, or an
/// address load; with it high the byte is written into whichever RAM the
/// address counter selects, wrapping inside that RAM. The function-set
/// instruction is accepted and ignored: only the eight-bit, two-line
/// configuration is modeled. Reading RAM back is not modeled; reading the
/// busy flag returns the address counter.
pub open spec fn command_spec(d: DisplayState) -> (DisplayState, Option<u8>) {
    if !d.rs {
        if !d.rwb && d.data == 1 {
            // clear display
            (
                DisplayState {
                    drram: Seq::new(128, |i: int| 0x20u8),
                    address_counter: 0,
                    cg_dd: false,
                    ..d
                },
                Option::None,
            )
        } else if !d.rwb && d.data / 2 == 1 {
            // return home
            (DisplayState { address_counter: 0, ..d }, Option::None)
        } else if !d.rwb && d.data / 4 == 1 {
            // entry mode set
            (DisplayState { i_d: dbit(d.data, 2), shift: dbit(d.data, 1), ..d }, Option::None)
        } else if !d.rwb && d.data / 8 == 1 {
            // display on/off control
            (
                DisplayState {
                    display: dbit(d.data, 4),
                    cursor: dbit(d.data, 2),
                    blink: dbit(d.data, 1),
                    ..d
                },
                Option::None,
            )
        } else if !d.rwb && d.data / 16 == 1 {
            // cursor or display shift
            (DisplayState { s_c: dbit(d.data, 8), r_l: dbit(d.data, 4), ..d }, Option::None)
        } else if !d.rwb && d.data / 32 == 1 {
            // function set: accepted, nothing stored
            (d, Option::None)
        } else if !d.rwb && d.data / 64 == 1 {
            // set character-generator RAM address
            (DisplayState { address_counter: d.data % 64, cg_dd: true, ..d }, Option::None)
        } else if !d.rwb && d.data / 128 == 1 {
            // set display-data RAM address
            (DisplayState { address_counter: d.data % 128, cg_dd: false, ..d }, Option::None)
        } else if d.rwb {
            // read busy flag and address counter
            (d, Option::Some((d.address_counter % 128) as u8))
        } else {
            (d, Option::None)
        }
    } else {
        if !d.rwb {
            // write into the selected RAM; the index wraps inside it
            if d.cg_dd {
                (
                    DisplayState {
                        cgram: d.cgram.update(d.address_counter as int % 64, d.data),
                        address_counter: if d.address_counter == 255 {
                            0
                        } else {
                            (d.address_counter + 1) as u8
                        },
                        ..d
                    },
                    Option::None,
                )
            } else {
                (
                    DisplayState {
                        drram: d.drram.update(d.address_counter as int % 128, d.data),
                        address_counter: if d.address_counter == 255 {
                            0
                        } else {
                            (d.address_counter + 1) as u8
                        },
                        ..d
                    },
                    Option::None,
                )
            }
        } else {
            // reading RAM back is not modeled
            (d, Option::None)
        }
    }
}

/// The dot-row byte of the glyph shown at a character cell's dot row: rows
/// of the first sixteen character codes come from the character-generator
/// RAM (its sixty-four bytes hold eight glyphs, so the code wraps at
/// eight), all others from the character-generator ROM.
pub open spec fn glyph_row(d: DisplayState, cgrom: Seq<u8>, cg_addr: u8, c_y: u8) -> u8 {
    if cg_addr <= 0x0F {
        d.cgram[(cg_addr % 8) * 8 + c_y]
    } else {
        cgrom[cg_addr * 8 + c_y]
    }
}

/// Whether one dot of the 5-by-8 matrix at a character cell is lit: the
/// display must be on, and either the cursor underlines the addressed
/// cell's bottom row, or the glyph row's dot at that column is set.
pub open spec fn pixel_spec(
    d: DisplayState,
    cgrom: Seq<u8>,
    row: u8,
    col: u8,
    c_y: u8,
    c_x: u8,
) -> bool
    recommends
        row < 2 && col < 16 && c_y < 8 && c_x < 5,
{
    let base: u8 = if row == 1 {
        64
    } else {
        0
    };
    let cell = (base + col) as u8;
    let cg_addr = d.drram[cell as int];
    let dots = glyph_row(d, cgrom, cg_addr, c_y);
    let cursor_here = d.cursor && c_y == 7 && d.address_counter == cell && !d.cg_dd;
    let dot_here = (dots as int / dot_weight(c_x)) % 2 == 1;
    d.display && (cursor_here || dot_here)
}

/// The place value of a dot column inside its five-dot glyph row: the
/// leftmost column is the row byte's bit four, the rightmost its bit zero.
pub open spec fn dot_weight(c_x: u8) -> int {
    if c_x == 0 {
        16
    } else if c_x == 1 {
        8
    } else if c_x == 2 {
        4
    } else if c_x == 3 {
        2
    } else {
        1
    }
}

impl Display {
    /// A controller at its power-up defaults: data RAM filled with blank
    /// characters, address counter at zero, display off.
    pub fn new() -> (d: Display)
        ensures
            d@.address_counter == 0,
            d@.data == 0,
            !d@.rs && !d@.rwb && !d@.e,
            !d@.cg_dd,
            !d@.display && !d@.cursor && !d@.blink,
            d@.i_d && !d@.shift && !d@.s_c && !d@.r_l,
            d@.cgram == Seq::new(64, |i: int| 0u8),
            d@.drram == Seq::new(128, |i: int| 0x20u8),
    {
        let d = Display {
            data: 0,
            rs: false,
            rwb: false,
            e: false,
            address_counter: 0,
            cgram: [0; 64],
            drram: [0x20; 128],
            i_d: true,
            shift: false,
            display: false,
            cursor: false,
            blink: false,
            s_c: false,
            r_l: false,
            cg_dd: false,
        };
        proof {
            assert(d.cgram@ =~= Seq::new(64, |i: int| 0u8));
            assert(d.drram@ =~= Seq::new(128, |i: int| 0x20u8));
        }
        d
    }

    /// Latch one pin update and report whether the enable line rose; a
    /// command executes on that edge.
    #[verifier::rlimit(50)]
    pub fn latch(&mut self, inp: DisplayInputPins) -> (edge: bool)
        ensures
            final(self)@ == latch_spec(old(self)@, inp),
            edge == (!old(self).e && final(self).e),
    {
        let e_before = self.e;
        if let Option::Some(v) = inp.data {
            self.data = v;
        }
        if let Option::Some(v) = inp.rs {
            self.rs = v;
        }
        if let Option::Some(v) = inp.rwb {
            self.rwb = v;
        }
        if let Option::Some(v) = inp.e {
            self.e = v;
        }
        !e_before && self.e
    }

    /// Execute the command the latched pins select, as on a rising enable
    /// edge, and return the output pins when the command drives them.
    #[verifier::rlimit(100)]
    pub fn command(&mut self) -> (out: Option<DisplayOutputPins>)
        ensures
            final(self)@ == command_spec(old(self)@).0,
            match out {
                Option::Some(o) => command_spec(old(self)@).1 == Option::Some(o.data),
                Option::None => command_spec(old(self)@).1 is None,
            },
    {
        if !self.rs {
            if !self.rwb && self.data == 1 {
                self.drram = [0x20; 128];
                self.address_counter = 0;
                self.cg_dd = false;
                proof {
                    assert(self.drram@ =~= Seq::new(128, |i: int| 0x20u8));
                }
                Option::None
            } else if !self.rwb && self.data / 2 == 1 {
                self.address_counter = 0;
                Option::None
            } else if !self.rwb && self.data / 4 == 1 {
                self.i_d = (self.data / 2) % 2 == 1;
                self.shift = self.data % 2 == 1;
                Option::None
            } else if !self.rwb && self.data / 8 == 1 {
                self.display = (self.data / 4) % 2 == 1;
                self.cursor = (self.data / 2) % 2 == 1;
                self.blink = self.data % 2 == 1;
                Option::None
            } else if !self.rwb && self.data / 16 == 1 {
                self.s_c = (self.data / 8) % 2 == 1;
                self.r_l = (self.data / 4) % 2 == 1;
                Option::None
            } else if !self.rwb && self.data / 32 == 1 {
                Option::None
            } else if !self.rwb && self.data / 64 == 1 {
                self.address_counter = self.data % 64;
                self.cg_dd = true;
                Option::None
            } else if !self.rwb && self.data / 128 == 1 {
                self.address_counter = self.data % 128;
                self.cg_dd = false;
                Option::None
            } else if self.rwb {
                Option::Some(DisplayOutputPins { data: self.address_counter % 128 })
            } else {
                Option::None
            }
        } else {
            if !self.rwb {
                if self.cg_dd {
                    self.cgram[(self.address_counter % 64) as usize] = self.data;
                } else {
                    self.drram[(self.address_counter % 128) as usize] = self.data;
                }
                self.address_counter = self.address_counter.wrapping_add(1);
                Option::None
            } else {
                Option::None
            }
        }
    }

    /// Whether one dot of a character cell's 5-by-8 matrix is lit, given
    /// the character-generator ROM: row and column select the cell, the
    /// remaining two coordinates the dot inside it.
    pub fn pixel_on(&self, cgrom: &[u8; 2048], row: u8, col: u8, c_y: u8, c_x: u8) -> (on: bool)
        requires
            row < 2,
            col < 16,
            c_y < 8,
            c_x < 5,
        ensures
            on == pixel_spec(self@, cgrom@, row, col, c_y, c_x),
    {
        if !self.display {
            return false;
        }
        let base: u8 = if row == 1 {
            64
        } else {
            0
        };
        let cell = base + col;
        let cg_addr = self.drram[cell as usize];
        let dots = if cg_addr <= 0x0F {
            self.cgram[((cg_addr % 8) * 8 + c_y) as usize]
        } else {
            cgrom[(cg_addr as usize) * 8 + (c_y as usize)]
        };
        if self.cursor && c_y == 7 && self.address_counter == cell && !self.cg_dd {
            return true;
        }
        let weight: u8 = match c_x {
            0 => 16,
            1 => 8,
            2 => 4,
            3 => 2,
            _ => 1,
        };
        (dots / weight) % 2 == 1
    }
}

} // verus!
