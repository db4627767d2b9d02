use vstd::prelude::*;
use crate::field::{field_of, merged, lemma_merge_then_extract, lemma_merge_keeps_other_bits};

verus! {

/// Location of a bit group in the ten-byte read frame.
#[derive(Clone, Copy, Debug, PartialEq, Eq, Structural)]
pub struct ReadMask {
    pub byte_num: usize,
    pub byte_mask: u8,
    pub byte_shift: u8,
}

/// Location of a bit group in the four-byte write frame.
#[derive(Clone, Copy, Debug, PartialEq, Eq, Structural)]
pub struct WriteMask {
    pub byte_num: usize,
    pub byte_mask: u8,
    pub byte_shift: u8,
}

/// Length of the frame that one bus read returns.
pub const READ_LEN: usize = 10;

/// Length of the frame that one bus write sends.
pub const WRITE_LEN: usize = 4;

impl ReadMask {
    /// The group lies inside the read frame and its shift stays within a byte.
    pub open spec fn wf(self) -> bool {
        self.byte_num < READ_LEN && self.byte_shift < 8
    }

    /// Builds a mask from `(byte, mask, shift)`.
    pub fn from(vals: (i32, i32, i32)) -> (r: Self)
        requires
            0 <= vals.0 < READ_LEN,
            0 <= vals.1 < 256,
            0 <= vals.2 < 8,
        ensures
            r.byte_num == vals.0,
            r.byte_mask == vals.1,
            r.byte_shift == vals.2,
            r.wf(),
    {
        ReadMask { byte_num: vals.0 as usize, byte_mask: vals.1 as u8, byte_shift: vals.2 as u8 }
    }
}

impl WriteMask {
    /// The group lies inside the write frame and its shift stays within a byte.
    pub open spec fn wf(self) -> bool {
        self.byte_num < WRITE_LEN && self.byte_shift < 8
    }

    /// Builds a mask from `(byte, mask, shift)`.
    pub fn from(vals: (i32, i32, i32)) -> (r: Self)
        requires
            0 <= vals.0 < WRITE_LEN,
            0 <= vals.1 < 256,
            0 <= vals.2 < 8,
        ensures
            r.byte_num == vals.0,
            r.byte_mask == vals.1,
            r.byte_shift == vals.2,
            r.wf(),
    {
        WriteMask { byte_num: vals.0 as usize, byte_mask: vals.1 as u8, byte_shift: vals.2 as u8 }
    }
}

/// The named fields of the read frame.
#[derive(Clone, Copy, Debug, PartialEq, Eq, Structural)]
pub enum ReadField {
    /// High byte of the X axis.
    Bx0,
    /// Low nibble of the X axis.
    Bx1,
    /// High byte of the Y axis.
    By0,
    /// Low nibble of the Y axis.
    By1,
    /// High byte of the Z axis.
    Bz0,
    /// Low nibble of the Z axis.
    Bz1,
    /// High nibble of the temperature.
    Temp,
    /// Low byte of the temperature.
    Temp2,
    /// Frame counter.
    Frm,
    /// Channel.
    Ch,
    /// Power-down flag.
    PowerDownFlag,
    /// First factory field.
    ReadRes1,
    /// Second factory field.
    ReadRes2,
    /// Third factory field.
    ReadRes3,
}

impl ReadField {
    /// Where the field lies in the frame.
    pub open spec fn layout(self) -> ReadMask {
        match self {
            ReadField::Bx0 => ReadMask { byte_num: 0, byte_mask: 0xFF, byte_shift: 0 },
            ReadField::Bx1 => ReadMask { byte_num: 4, byte_mask: 0xF0, byte_shift: 4 },
            ReadField::By0 => ReadMask { byte_num: 1, byte_mask: 0xFF, byte_shift: 0 },
            ReadField::By1 => ReadMask { byte_num: 4, byte_mask: 0x0F, byte_shift: 0 },
            ReadField::Bz0 => ReadMask { byte_num: 2, byte_mask: 0xFF, byte_shift: 0 },
            ReadField::Bz1 => ReadMask { byte_num: 5, byte_mask: 0x0F, byte_shift: 0 },
            ReadField::Temp => ReadMask { byte_num: 3, byte_mask: 0xF0, byte_shift: 4 },
            ReadField::Temp2 => ReadMask { byte_num: 6, byte_mask: 0xFF, byte_shift: 0 },
            ReadField::Frm => ReadMask { byte_num: 3, byte_mask: 0x0C, byte_shift: 2 },
            ReadField::Ch => ReadMask { byte_num: 3, byte_mask: 0x03, byte_shift: 0 },
            ReadField::PowerDownFlag => ReadMask { byte_num: 5, byte_mask: 0x10, byte_shift: 4 },
            ReadField::ReadRes1 => ReadMask { byte_num: 7, byte_mask: 0x18, byte_shift: 3 },
            ReadField::ReadRes2 => ReadMask { byte_num: 8, byte_mask: 0xFF, byte_shift: 0 },
            ReadField::ReadRes3 => ReadMask { byte_num: 9, byte_mask: 0x1F, byte_shift: 0 },
        }
    }

    /// Where the field lies in the frame.
    pub fn mask(self) -> (r: ReadMask)
        ensures
            r == self.layout(),
    {
        match self {
            ReadField::Bx0 => ReadMask { byte_num: 0, byte_mask: 0xFF, byte_shift: 0 },
            ReadField::Bx1 => ReadMask { byte_num: 4, byte_mask: 0xF0, byte_shift: 4 },
            ReadField::By0 => ReadMask { byte_num: 1, byte_mask: 0xFF, byte_shift: 0 },
            ReadField::By1 => ReadMask { byte_num: 4, byte_mask: 0x0F, byte_shift: 0 },
            ReadField::Bz0 => ReadMask { byte_num: 2, byte_mask: 0xFF, byte_shift: 0 },
            ReadField::Bz1 => ReadMask { byte_num: 5, byte_mask: 0x0F, byte_shift: 0 },
            ReadField::Temp => ReadMask { byte_num: 3, byte_mask: 0xF0, byte_shift: 4 },
            ReadField::Temp2 => ReadMask { byte_num: 6, byte_mask: 0xFF, byte_shift: 0 },
            ReadField::Frm => ReadMask { byte_num: 3, byte_mask: 0x0C, byte_shift: 2 },
            ReadField::Ch => ReadMask { byte_num: 3, byte_mask: 0x03, byte_shift: 0 },
            ReadField::PowerDownFlag => ReadMask { byte_num: 5, byte_mask: 0x10, byte_shift: 4 },
            ReadField::ReadRes1 => ReadMask { byte_num: 7, byte_mask: 0x18, byte_shift: 3 },
            ReadField::ReadRes2 => ReadMask { byte_num: 8, byte_mask: 0xFF, byte_shift: 0 },
            ReadField::ReadRes3 => ReadMask { byte_num: 9, byte_mask: 0x1F, byte_shift: 0 },
        }
    }
}

/// The named fields of the write frame.
#[derive(Clone, Copy, Debug, PartialEq, Eq, Structural)]
pub enum WriteField {
    /// Parity bit.
    Parity,
    /// Bus address bits.
    Addr,
    /// Interrupt enable.
    Int,
    /// Fast mode.
    Fast,
    /// Low-power mode.
    LowPower,
    /// Temperature measurement disable.
    TempDisable,
    /// Low-power period.
    LpPeriod,
    /// Power-down bit.
    PowerDown,
    /// First factory field.
    WriteRes1,
    /// Second factory field.
    WriteRes2,
    /// Third factory field.
    WriteRes3,
}

impl WriteField {
    /// Where the field lies in the frame.
    pub open spec fn layout(self) -> WriteMask {
        match self {
            WriteField::Parity => WriteMask { byte_num: 1, byte_mask: 0x80, byte_shift: 7 },
            WriteField::Addr => WriteMask { byte_num: 1, byte_mask: 0x60, byte_shift: 5 },
            WriteField::Int => WriteMask { byte_num: 1, byte_mask: 0x04, byte_shift: 2 },
            WriteField::Fast => WriteMask { byte_num: 1, byte_mask: 0x02, byte_shift: 1 },
            WriteField::LowPower => WriteMask { byte_num: 1, byte_mask: 0x01, byte_shift: 0 },
            WriteField::TempDisable => WriteMask { byte_num: 3, byte_mask: 0x80, byte_shift: 7 },
            WriteField::LpPeriod => WriteMask { byte_num: 3, byte_mask: 0x40, byte_shift: 6 },
            WriteField::PowerDown => WriteMask { byte_num: 3, byte_mask: 0x20, byte_shift: 5 },
            WriteField::WriteRes1 => WriteMask { byte_num: 1, byte_mask: 0x18, byte_shift: 3 },
            WriteField::WriteRes2 => WriteMask { byte_num: 2, byte_mask: 0xFF, byte_shift: 0 },
            WriteField::WriteRes3 => WriteMask { byte_num: 3, byte_mask: 0x1F, byte_shift: 0 },
        }
    }

    /// Where the field lies in the frame.
    pub fn mask(self) -> (r: WriteMask)
        ensures
            r == self.layout(),
    {
        match self {
            WriteField::Parity => WriteMask { byte_num: 1, byte_mask: 0x80, byte_shift: 7 },
            WriteField::Addr => WriteMask { byte_num: 1, byte_mask: 0x60, byte_shift: 5 },
            WriteField::Int => WriteMask { byte_num: 1, byte_mask: 0x04, byte_shift: 2 },
            WriteField::Fast => WriteMask { byte_num: 1, byte_mask: 0x02, byte_shift: 1 },
            WriteField::LowPower => WriteMask { byte_num: 1, byte_mask: 0x01, byte_shift: 0 },
            WriteField::TempDisable => WriteMask { byte_num: 3, byte_mask: 0x80, byte_shift: 7 },
            WriteField::LpPeriod => WriteMask { byte_num: 3, byte_mask: 0x40, byte_shift: 6 },
            WriteField::PowerDown => WriteMask { byte_num: 3, byte_mask: 0x20, byte_shift: 5 },
            WriteField::WriteRes1 => WriteMask { byte_num: 1, byte_mask: 0x18, byte_shift: 3 },
            WriteField::WriteRes2 => WriteMask { byte_num: 2, byte_mask: 0xFF, byte_shift: 0 },
            WriteField::WriteRes3 => WriteMask { byte_num: 3, byte_mask: 0x1F, byte_shift: 0 },
        }
    }
}

/// Every read field of the catalog lies in the frame.
pub proof fn lemma_read_catalog_wf(f: ReadField)
    ensures
        f.layout().wf(),
{
}

/// Every write field of the catalog lies in the frame.
pub proof fn lemma_write_catalog_wf(f: WriteField)
    ensures
        f.layout().wf(),
{
}

/// Value of the field `m` in the read frame `frame`.
pub open spec fn read_field(frame: Seq<u8>, m: ReadMask) -> u8 {
    field_of(frame[m.byte_num as int], m.byte_mask, m.byte_shift)
}

/// Value of the field `m` in the write frame `frame`.
pub open spec fn write_field(frame: Seq<u8>, m: WriteMask) -> u8 {
    field_of(frame[m.byte_num as int], m.byte_mask, m.byte_shift)
}

/// The read frame `frame` with `v` merged into the field `m`.
pub open spec fn with_read_field(frame: Seq<u8>, m: ReadMask, v: u8) -> Seq<u8> {
    frame.update(m.byte_num as int, merged(frame[m.byte_num as int], m.byte_mask, m.byte_shift, v))
}

/// The write frame `frame` with `v` merged into the field `m`.
pub open spec fn with_write_field(frame: Seq<u8>, m: WriteMask, v: u8) -> Seq<u8> {
    frame.update(m.byte_num as int, merged(frame[m.byte_num as int], m.byte_mask, m.byte_shift, v))
}

/// Two distinct read fields never share a bit.
pub proof fn lemma_read_fields_disjoint(f: ReadField, g: ReadField)
    requires
        f != g,
        f.layout().byte_num == g.layout().byte_num,
    ensures
        f.layout().byte_mask & g.layout().byte_mask == 0,
{
    assert(0xF0u8 & 0x0Cu8 == 0 && 0xF0u8 & 0x03u8 == 0 && 0x0Cu8 & 0x03u8 == 0
        && 0x0Cu8 & 0xF0u8 == 0 && 0x03u8 & 0xF0u8 == 0 && 0x03u8 & 0x0Cu8 == 0
        && 0xF0u8 & 0x0Fu8 == 0 && 0x0Fu8 & 0xF0u8 == 0
        && 0x0Fu8 & 0x10u8 == 0 && 0x10u8 & 0x0Fu8 == 0) by (bit_vector);
}

/// Two distinct write fields never share a bit.
pub proof fn lemma_write_fields_disjoint(f: WriteField, g: WriteField)
    requires
        f != g,
        f.layout().byte_num == g.layout().byte_num,
    ensures
        f.layout().byte_mask & g.layout().byte_mask == 0,
{
    assert(0x80u8 & 0x60u8 == 0 && 0x80u8 & 0x04u8 == 0 && 0x80u8 & 0x02u8 == 0
        && 0x80u8 & 0x01u8 == 0 && 0x80u8 & 0x18u8 == 0 && 0x60u8 & 0x04u8 == 0
        && 0x60u8 & 0x02u8 == 0 && 0x60u8 & 0x01u8 == 0 && 0x60u8 & 0x18u8 == 0
        && 0x04u8 & 0x02u8 == 0 && 0x04u8 & 0x01u8 == 0 && 0x04u8 & 0x18u8 == 0
        && 0x02u8 & 0x01u8 == 0 && 0x02u8 & 0x18u8 == 0 && 0x01u8 & 0x18u8 == 0
        && 0x60u8 & 0x80u8 == 0 && 0x04u8 & 0x80u8 == 0 && 0x02u8 & 0x80u8 == 0
        && 0x01u8 & 0x80u8 == 0 && 0x18u8 & 0x80u8 == 0 && 0x04u8 & 0x60u8 == 0
        && 0x02u8 & 0x60u8 == 0 && 0x01u8 & 0x60u8 == 0 && 0x18u8 & 0x60u8 == 0
        && 0x02u8 & 0x04u8 == 0 && 0x01u8 & 0x04u8 == 0 && 0x18u8 & 0x04u8 == 0
        && 0x01u8 & 0x02u8 == 0 && 0x18u8 & 0x02u8 == 0 && 0x18u8 & 0x01u8 == 0
        && 0x80u8 & 0x40u8 == 0 && 0x80u8 & 0x20u8 == 0 && 0x80u8 & 0x1Fu8 == 0
        && 0x40u8 & 0x20u8 == 0 && 0x40u8 & 0x1Fu8 == 0 && 0x20u8 & 0x1Fu8 == 0
        && 0x40u8 & 0x80u8 == 0 && 0x20u8 & 0x80u8 == 0 && 0x1Fu8 & 0x80u8 == 0
        && 0x20u8 & 0x40u8 == 0 && 0x1Fu8 & 0x40u8 == 0 && 0x1Fu8 & 0x20u8 == 0)
        by (bit_vector);
}

/// Merging a value into a read field and reading that field back gives the
/// value cut to the field's width.
pub proof fn lemma_read_field_round_trip(frame: Seq<u8>, f: ReadField, v: u8)
    requires
        frame.len() == READ_LEN,
    ensures
        read_field(with_read_field(frame, f.layout(), v), f.layout())
            == v & (f.layout().byte_mask >> f.layout().byte_shift),
{
    let m = f.layout();
    lemma_read_catalog_wf(f);
    lemma_merge_then_extract(frame[m.byte_num as int], m.byte_mask, m.byte_shift, v);
}

/// Merging a value into a write field and reading that field back gives the
/// value cut to the field's width.
pub proof fn lemma_write_field_round_trip(frame: Seq<u8>, f: WriteField, v: u8)
    requires
        frame.len() == WRITE_LEN,
    ensures
        write_field(with_write_field(frame, f.layout(), v), f.layout())
            == v & (f.layout().byte_mask >> f.layout().byte_shift),
{
    let m = f.layout();
    lemma_write_catalog_wf(f);
    lemma_merge_then_extract(frame[m.byte_num as int], m.byte_mask, m.byte_shift, v);
}

/// Merging a value into one read field leaves every bit of every other read
/// field as it was.
pub proof fn lemma_read_field_isolation(frame: Seq<u8>, f: ReadField, g: ReadField, v: u8)
    requires
        frame.len() == READ_LEN,
        f != g,
    ensures
        with_read_field(frame, f.layout(), v)[g.layout().byte_num as int] & g.layout().byte_mask
            == frame[g.layout().byte_num as int] & g.layout().byte_mask,
        read_field(with_read_field(frame, f.layout(), v), g.layout()) == read_field(frame, g.layout()),
{
    let (m, n) = (f.layout(), g.layout());
    lemma_read_catalog_wf(f);
    lemma_read_catalog_wf(g);
    if m.byte_num == n.byte_num {
        lemma_read_fields_disjoint(f, g);
        lemma_merge_keeps_other_bits(frame[m.byte_num as int], m.byte_mask, m.byte_shift, v, n.byte_mask);
        lemma_same_masked_same_field(frame[m.byte_num as int],
            merged(frame[m.byte_num as int], m.byte_mask, m.byte_shift, v), n.byte_mask, n.byte_shift);
    }
}

/// Merging a value into one write field leaves every bit of every other write
/// field as it was.
pub proof fn lemma_write_field_isolation(frame: Seq<u8>, f: WriteField, g: WriteField, v: u8)
    requires
        frame.len() == WRITE_LEN,
        f != g,
    ensures
        with_write_field(frame, f.layout(), v)[g.layout().byte_num as int] & g.layout().byte_mask
            == frame[g.layout().byte_num as int] & g.layout().byte_mask,
        write_field(with_write_field(frame, f.layout(), v), g.layout()) == write_field(frame, g.layout()),
{
    let (m, n) = (f.layout(), g.layout());
    lemma_write_catalog_wf(f);
    lemma_write_catalog_wf(g);
    if m.byte_num == n.byte_num {
        lemma_write_fields_disjoint(f, g);
        lemma_merge_keeps_other_bits(frame[m.byte_num as int], m.byte_mask, m.byte_shift, v, n.byte_mask);
        lemma_same_masked_same_field(frame[m.byte_num as int],
            merged(frame[m.byte_num as int], m.byte_mask, m.byte_shift, v), n.byte_mask, n.byte_shift);
    }
}

proof fn lemma_same_masked_same_field(a: u8, b: u8, mask: u8, shift: u8)
    requires
        a & mask == b & mask,
    ensures
        field_of(a, mask, shift) == field_of(b, mask, shift),
{
}

} // verus!
