//! The character-display wire protocol: every operation is computed as a
//! sequence of bus steps — bytes to write at the display's address and the
//! settle pauses its controller needs — which the caller plays back over the
//! bus in order.
//!
//! Each 8-bit command or data byte travels as two nibbles; each nibble is
//! latched by toggling the enable bit high then low with the data held
//! stable, the backlight bit set throughout, and the register-select bit
//! choosing between command and data.

use vstd::prelude::*;

verus! {

/// Bus address of the display module.
pub const LCD_ADDR: u16 = 0x27;

/// Command byte that clears the display and resets the data address.
pub const CLEAR: u8 = 0x01;

/// Command byte that returns the cursor to the origin.
pub const HOME: u8 = 0x02;

/// One step of the wire protocol: a byte to write on the bus, or a pause in
/// microseconds.
#[derive(Clone, Copy, Debug, PartialEq, Eq, Structural)]
pub enum BusOp {
    Byte(u8),
    WaitUs(u64),
}

/// The byte placed on the bus for one nibble transfer: the nibble in the high
/// four bits, register select in bit 0, read/write in bit 1, enable in bit 2,
/// and the backlight (bit 3) always on.
pub open spec fn build_byte_spec(nibble: u8, rs: bool, rw: bool, en: bool) -> u8 {
    ((nibble & 0x0F) << 4) | (if rs {
        1u8
    } else {
        0u8
    }) | (if rw {
        2u8
    } else {
        0u8
    }) | (if en {
        4u8
    } else {
        0u8
    }) | 8u8
}

/// Assembles one nibble-transfer byte.
pub fn build_byte(nibble: u8, rs: bool, rw: bool, en: bool) -> (r: u8)
    ensures
        r == build_byte_spec(nibble, rs, rw, en),
{
    let rs_bit: u8 = if rs {
        1
    } else {
        0
    };
    let rw_bit: u8 = if rw {
        2
    } else {
        0
    };
    let en_bit: u8 = if en {
        4
    } else {
        0
    };
    ((nibble & 0x0F) << 4) | rs_bit | rw_bit | en_bit | 8
}

/// The two writes that latch one nibble — enable high, then enable low with
/// the data held — with the pauses between them.
pub open spec fn pulse_spec(nibble: u8, rs: bool) -> Seq<BusOp> {
    seq![
        BusOp::Byte(build_byte_spec(nibble, rs, false, true)),
        BusOp::WaitUs(1),
        BusOp::Byte(build_byte_spec(nibble, rs, false, false)),
        BusOp::WaitUs(50),
    ]
}

/// Appends the steps that latch one nibble.
pub fn pulse_enable(ops: &mut Vec<BusOp>, nibble: u8, rs: bool)
    ensures
        final(ops)@ == old(ops)@ + pulse_spec(nibble, rs),
{
    ops.push(BusOp::Byte(build_byte(nibble, rs, false, true)));
    ops.push(BusOp::WaitUs(1));
    ops.push(BusOp::Byte(build_byte(nibble, rs, false, false)));
    ops.push(BusOp::WaitUs(50));
    proof {
        assert(ops@ =~= old(ops)@ + pulse_spec(nibble, rs));
    }
}

/// The steps that send one full byte: high nibble first, then low nibble.
pub open spec fn byte_spec(b: u8, rs: bool) -> Seq<BusOp> {
    pulse_spec(b >> 4, rs) + pulse_spec(b & 0x0F, rs)
}

/// The steps that send one command byte (register select low).
pub open spec fn command_spec(b: u8) -> Seq<BusOp> {
    byte_spec(b, false)
}

/// The steps that send one data byte (register select high).
pub open spec fn data_spec(b: u8) -> Seq<BusOp> {
    byte_spec(b, true)
}

/// Appends the steps that send one full byte as two nibbles.
pub fn write_byte(ops: &mut Vec<BusOp>, b: u8, rs: bool)
    ensures
        final(ops)@ == old(ops)@ + byte_spec(b, rs),
{
    pulse_enable(ops, b >> 4, rs);
    pulse_enable(ops, b & 0x0F, rs);
    proof {
        assert(ops@ =~= old(ops)@ + byte_spec(b, rs));
    }
}

/// The steps that clear the display: the clear command, then the settle time
/// the controller needs.
pub fn clear() -> (r: Vec<BusOp>)
    ensures
        r@ == command_spec(CLEAR) + seq![BusOp::WaitUs(2000)],
{
    let mut ops: Vec<BusOp> = Vec::new();
    write_byte(&mut ops, CLEAR, false);
    ops.push(BusOp::WaitUs(2000));
    proof {
        assert(ops@ =~= command_spec(CLEAR) + seq![BusOp::WaitUs(2000)]);
    }
    ops
}

/// The steps that return the cursor to the origin, with the settle time.
pub fn home() -> (r: Vec<BusOp>)
    ensures
        r@ == command_spec(HOME) + seq![BusOp::WaitUs(2000)],
{
    let mut ops: Vec<BusOp> = Vec::new();
    write_byte(&mut ops, HOME, false);
    ops.push(BusOp::WaitUs(2000));
    proof {
        assert(ops@ =~= command_spec(HOME) + seq![BusOp::WaitUs(2000)]);
    }
    ops
}

/// The set-data-address command for one cursor position: 0x80 plus the
/// column, with 0x40 added on the second row.
pub open spec fn cursor_command_spec(col: u8, row: u8) -> u8 {
    0x80u8 | ((col + (if row == 1 {
        0x40u8
    } else {
        0x00u8
    })) as u8)
}

/// The steps that move the cursor to a column of one of the two rows.
pub fn set_cursor(col: u8, row: u8) -> (r: Vec<BusOp>)
    requires
        col < 40,
        row < 2,
    ensures
        r@ == command_spec(cursor_command_spec(col, row)),
{
    let offset: u8 = if row == 1 {
        0x40
    } else {
        0x00
    };
    let mut ops: Vec<BusOp> = Vec::new();
    write_byte(&mut ops, 0x80 | (col + offset), false);
    ops
}

/// A printable byte goes out as itself; anything outside the ASCII range is
/// replaced by the 0xFF placeholder glyph.
pub open spec fn glyph_spec(b: u8) -> u8 {
    if b < 0x80 {
        b
    } else {
        0xFF
    }
}

/// The steps that print a text: one data byte per input byte, each mapped
/// through [`glyph_spec`].
pub open spec fn print_spec(text: Seq<u8>) -> Seq<BusOp>
    decreases text.len(),
{
    if text.len() == 0 {
        Seq::empty()
    } else {
        print_spec(text.drop_last()) + data_spec(glyph_spec(text.last()))
    }
}

/// The steps that print `text` at the current cursor position.
pub fn print(text: &[u8]) -> (r: Vec<BusOp>)
    ensures
        r@ == print_spec(text@),
{
    let mut ops: Vec<BusOp> = Vec::new();
    let mut i: usize = 0;
    while i < text.len()
        invariant
            i <= text@.len(),
            ops@ == print_spec(text@.take(i as int)),
        decreases text@.len() - i,
    {
        let b = text[i];
        let glyph = if b < 0x80 {
            b
        } else {
            0xFF
        };
        write_byte(&mut ops, glyph, true);
        proof {
            assert(text@.take(i + 1).drop_last() =~= text@.take(i as int));
            assert(text@.take(i + 1).last() == text@[i as int]);
            assert(ops@ == print_spec(text@.take(i + 1)));
        }
        i += 1;
    }
    proof {
        assert(text@.take(text@.len() as int) =~= text@);
    }
    ops
}

/// The datasheet bring-up sequence: wait out the power-up time, pulse the
/// reset nibble three times, switch to 4-bit transfers, then configure
/// two-line 5x8 mode, display off, clear, entry mode increment-no-shift, and
/// display on with cursor and blink off.
pub open spec fn init_spec() -> Seq<BusOp> {
    seq![BusOp::WaitUs(20000)] + pulse_spec(0x03, false) + seq![BusOp::WaitUs(5000)] + pulse_spec(
        0x03,
        false,
    ) + seq![BusOp::WaitUs(5000)] + pulse_spec(0x03, false) + seq![BusOp::WaitUs(5000)]
        + pulse_spec(0x02, false) + seq![BusOp::WaitUs(5000)] + command_spec(0x28) + command_spec(
        0x08,
    ) + command_spec(0x01) + seq![BusOp::WaitUs(2000)] + command_spec(0x06) + command_spec(0x0C)
}

/// The steps of the full bring-up sequence.
pub fn init() -> (r: Vec<BusOp>)
    ensures
        r@ == init_spec(),
{
    let mut ops: Vec<BusOp> = Vec::new();
    ops.push(BusOp::WaitUs(20000));
    pulse_enable(&mut ops, 0x03, false);
    ops.push(BusOp::WaitUs(5000));
    pulse_enable(&mut ops, 0x03, false);
    ops.push(BusOp::WaitUs(5000));
    pulse_enable(&mut ops, 0x03, false);
    ops.push(BusOp::WaitUs(5000));
    pulse_enable(&mut ops, 0x02, false);
    ops.push(BusOp::WaitUs(5000));
    write_byte(&mut ops, 0x28, false);
    write_byte(&mut ops, 0x08, false);
    write_byte(&mut ops, 0x01, false);
    ops.push(BusOp::WaitUs(2000));
    write_byte(&mut ops, 0x06, false);
    write_byte(&mut ops, 0x0C, false);
    proof {
        assert(ops@ =~= init_spec());
    }
    ops
}

} // verus!
