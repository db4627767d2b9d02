use vstd::prelude::*;
use crate::field::{extract_bits, merge_bits};
use crate::mask::{ReadField, ReadMask, WriteField, WriteMask, READ_LEN, WRITE_LEN, read_field, write_field, with_write_field,
    lemma_read_catalog_wf, lemma_write_catalog_wf, lemma_write_field_round_trip, lemma_write_field_isolation};

verus! {

/// Field strength of one raw count, in microtesla.
pub const MICROTESLA_PER_COUNT: i32 = 98;

/// A byte read as a two's-complement signed byte.
pub open spec fn signed_byte(b: u8) -> int {
    if b < 128 { b as int } else { b as int - 256 }
}

/// The signed count that a high byte and a low nibble stand for: the high
/// byte, read as a signed byte, above the nibble.
pub open spec fn raw_count(high: u8, low: u8) -> int {
    signed_byte(high) * 16 + low as int
}

/// Joins a high byte and a low nibble into a signed count: the high byte is
/// widened as a signed byte, moved up by four bits, and the nibble fills the
/// bits it vacated.
pub fn reconstruct(high: u8, low: u8) -> (r: i16)
    requires
        low < 16,
    ensures
        r as int == raw_count(high, low),
{
    let top: i16 = high as i8 as i16;
    assert(top == if high < 128u8 { high as i16 } else { (high as i16 - 256i16) as i16 }) by (bit_vector)
        requires
            top == high as i8 as i16,
    ;
    let r: i16 = (top << 4u16) | (low as i16);
    assert(r == top * 16 + low as i16) by (bit_vector)
        requires
            r == (top << 4u16) | (low as i16),
            -128 <= top < 128,
            low < 16,
    ;
    r
}

/// Why the transport aborted a transfer.
#[derive(Clone, Copy, Debug, PartialEq, Eq, Structural)]
pub enum AbortReason {
    /// The addressed device did not acknowledge.
    NoAcknowledge,
    /// Arbitration of the bus was lost.
    ArbitrationLoss,
    /// The transfer ended with this many bytes still queued for sending.
    TxNotEmpty(u16),
    /// Another reason, as the transport's raw abort code.
    Other(u32),
}

/// How a bus transfer failed, as the transport reported it.
#[derive(Clone, Copy, Debug, PartialEq, Eq, Structural)]
pub enum BusError {
    /// The transfer was aborted, for the reason given.
    Abort(AbortReason),
    /// The read buffer had a length the transport cannot serve.
    InvalidReadBufferLength,
    /// The write buffer had a length the transport cannot serve.
    InvalidWriteBufferLength,
    /// The target address does not fit the addressing mode.
    AddressOutOfRange(u16),
    /// The target address is reserved by the bus protocol.
    AddressReserved(u16),
}

/// One reading of the three axes, in microtesla.
#[derive(Clone, Copy, Debug, PartialEq, Eq, Structural)]
pub struct MagnetVals {
    pub x: i32,
    pub y: i32,
    pub z: i32,
}

/// Field strength, in microtesla, of the axis whose high byte is the field
/// `high` and whose low nibble is the field `low` of the read frame.
pub open spec fn axis_value(frame: Seq<u8>, high: ReadField, low: ReadField) -> int {
    raw_count(read_field(frame, high.layout()), read_field(frame, low.layout()))
        * MICROTESLA_PER_COUNT
}

/// The write frame `w` with the three factory fields of the read frame `r`
/// copied into their places.
pub open spec fn resynced(w: Seq<u8>, r: Seq<u8>) -> Seq<u8> {
    let w1 = with_write_field(w, WriteField::WriteRes1.layout(), read_field(r, ReadField::ReadRes1.layout()));
    let w2 = with_write_field(w1, WriteField::WriteRes2.layout(), read_field(r, ReadField::ReadRes2.layout()));
    with_write_field(w2, WriteField::WriteRes3.layout(), read_field(r, ReadField::ReadRes3.layout()))
}

/// The write frame `w` with address bits 0, parity 1, fast mode 1 and
/// low-power mode 1.
pub open spec fn configured(w: Seq<u8>) -> Seq<u8> {
    let w1 = with_write_field(w, WriteField::Addr.layout(), 0);
    let w2 = with_write_field(w1, WriteField::Parity.layout(), 1);
    let w3 = with_write_field(w2, WriteField::Fast.layout(), 1);
    with_write_field(w3, WriteField::LowPower.layout(), 1)
}

/// State of one magnetometer: its bus address, the last frame read from it
/// and the next frame to be written to it. The bus transfers themselves are
/// made by the caller, who hands each outcome in.
pub struct TLV493D {
    i2c_addr: u16,
    read_buffer: [u8; 10],
    write_buffer: [u8; 4],
    last_frm: u8,
}

impl TLV493D {
    /// Bus address of the device.
    pub closed spec fn address(&self) -> u16 {
        self.i2c_addr
    }

    /// The last frame read from the device.
    pub closed spec fn read_frame(&self) -> Seq<u8> {
        self.read_buffer@
    }

    /// The frame counter last observed in a read frame.
    pub closed spec fn last_frame_counter(&self) -> u8 {
        self.last_frm
    }

    /// The frame that the next write sends.
    pub closed spec fn write_frame(&self) -> Seq<u8> {
        self.write_buffer@
    }

    /// Both frames always have the lengths of the device's transfers, so the
    /// laws of the field catalog apply to them.
    pub proof fn lemma_frame_lengths(&self)
        ensures
            self.read_frame().len() == READ_LEN,
            self.write_frame().len() == WRITE_LEN,
    {
    }

    /// A driver for the device at `addr`, with both frames zero.
    pub fn new(addr: u16) -> (r: Self)
        ensures
            r.address() == addr,
            r.last_frame_counter() == 0,
            r.read_frame() == Seq::new(READ_LEN as nat, |i: int| 0u8),
            r.write_frame() == Seq::new(WRITE_LEN as nat, |i: int| 0u8),
    {
        let r = TLV493D { i2c_addr: addr, last_frm: 0, read_buffer: [0u8; 10], write_buffer: [0u8; 4] };
        assert(r.read_buffer@ =~= Seq::new(READ_LEN as nat, |i: int| 0u8));
        assert(r.write_buffer@ =~= Seq::new(WRITE_LEN as nat, |i: int| 0u8));
        r
    }

    /// Bus address of the device.
    pub fn i2c_addr(&self) -> (r: u16)
        ensures
            r == self.address(),
    {
        self.i2c_addr
    }

    /// Merges `value` into the field `msg_type` of the write frame; bits of
    /// `value` beyond the field's width are dropped.
    pub fn set_write_data(&mut self, msg_type: WriteMask, value: u8)
        requires
            msg_type.wf(),
        ensures
            final(self).write_frame() == with_write_field(old(self).write_frame(), msg_type, value),
            final(self).read_frame() == old(self).read_frame(),
            final(self).address() == old(self).address(),
            final(self).last_frame_counter() == old(self).last_frame_counter(),
    {
        let i = msg_type.byte_num;
        let b = merge_bits(self.write_buffer[i], msg_type.byte_mask, msg_type.byte_shift, value);
        self.write_buffer[i] = b;
        assert(self.write_buffer@ =~= with_write_field(old(self).write_buffer@, msg_type, value));
    }

    /// Value of the field `msg_type` in the last frame read.
    pub fn get_read_data(&mut self, msg_type: ReadMask) -> (r: u8)
        requires
            msg_type.wf(),
        ensures
            r == read_field(old(self).read_frame(), msg_type),
            *final(self) == *old(self),
    {
        extract_bits(self.read_buffer[msg_type.byte_num], msg_type.byte_mask, msg_type.byte_shift)
    }

    /// Takes in the outcome of one bus read: a frame replaces the last one
    /// whole; an error is handed back and nothing changes.
    pub fn read_device(&mut self, received: Result<[u8; 10], BusError>) -> (r: Result<(), BusError>)
        ensures
            match received {
                Ok(frame) => r is Ok && final(self).read_frame() == frame@,
                Err(e) => r == Err::<(), BusError>(e) && *final(self) == *old(self),
            },
            final(self).write_frame() == old(self).write_frame(),
            final(self).address() == old(self).address(),
            final(self).last_frame_counter() == old(self).last_frame_counter(),
    {
        match received {
            Ok(frame) => {
                self.read_buffer = frame;
                Ok(())
            },
            Err(e) => Err(e),
        }
    }

    /// The frame that one bus write sends to the device.
    pub fn write_device(&self) -> (r: [u8; 4])
        ensures
            r@ == self.write_frame(),
    {
        self.write_buffer
    }

    /// Takes in the outcome of one bus read and, on a frame, copies its three
    /// factory fields into the write frame, which the device requires before
    /// every write. On an error nothing changes.
    pub fn setup_write_buffer(&mut self, received: Result<[u8; 10], BusError>) -> (r: Result<(), BusError>)
        ensures
            match received {
                Ok(frame) => r is Ok && final(self).read_frame() == frame@
                    && final(self).write_frame() == resynced(old(self).write_frame(), frame@),
                Err(e) => r == Err::<(), BusError>(e) && *final(self) == *old(self),
            },
            final(self).address() == old(self).address(),
            final(self).last_frame_counter() == old(self).last_frame_counter(),
    {
        match self.read_device(received) {
            Ok(()) => {},
            Err(e) => return Err(e),
        }
        proof {
            lemma_read_catalog_wf(ReadField::ReadRes1);
            lemma_read_catalog_wf(ReadField::ReadRes2);
            lemma_read_catalog_wf(ReadField::ReadRes3);
        }
        let res1 = self.get_read_data(ReadField::ReadRes1.mask());
        let res2 = self.get_read_data(ReadField::ReadRes2.mask());
        let res3 = self.get_read_data(ReadField::ReadRes3.mask());
        proof {
            lemma_write_catalog_wf(WriteField::WriteRes1);
            lemma_write_catalog_wf(WriteField::WriteRes2);
            lemma_write_catalog_wf(WriteField::WriteRes3);
        }
        self.set_write_data(WriteField::WriteRes1.mask(), res1);
        self.set_write_data(WriteField::WriteRes2.mask(), res2);
        self.set_write_data(WriteField::WriteRes3.mask(), res3);
        Ok(())
    }

    /// Takes in the outcome of the bus read that starts the device: on a
    /// frame, resynchronises the factory fields and sets address bits 0,
    /// parity, fast mode and low-power mode, after which the caller sends
    /// `write_device()`. On an error nothing changes.
    pub fn init(&mut self, received: Result<[u8; 10], BusError>) -> (r: Result<(), BusError>)
        ensures
            match received {
                Ok(frame) => {
                    &&& r is Ok
                    &&& final(self).read_frame() == frame@
                    &&& final(self).write_frame() == configured(resynced(old(self).write_frame(), frame@))
                    &&& write_field(final(self).write_frame(), WriteField::Parity.layout()) == 1
                    &&& write_field(final(self).write_frame(), WriteField::Fast.layout()) == 1
                    &&& write_field(final(self).write_frame(), WriteField::LowPower.layout()) == 1
                    &&& write_field(final(self).write_frame(), WriteField::Addr.layout()) == 0
                    &&& write_field(final(self).write_frame(), WriteField::WriteRes1.layout())
                        == read_field(frame@, ReadField::ReadRes1.layout())
                    &&& write_field(final(self).write_frame(), WriteField::WriteRes2.layout())
                        == read_field(frame@, ReadField::ReadRes2.layout())
                    &&& write_field(final(self).write_frame(), WriteField::WriteRes3.layout())
                        == read_field(frame@, ReadField::ReadRes3.layout())
                },
                Err(e) => r == Err::<(), BusError>(e) && *final(self) == *old(self),
            },
            final(self).address() == old(self).address(),
            final(self).last_frame_counter() == old(self).last_frame_counter(),
    {
        match self.setup_write_buffer(received) {
            Ok(()) => {},
            Err(e) => return Err(e),
        }
        proof {
            lemma_write_catalog_wf(WriteField::Addr);
            lemma_write_catalog_wf(WriteField::Parity);
            lemma_write_catalog_wf(WriteField::Fast);
            lemma_write_catalog_wf(WriteField::LowPower);
        }
        self.set_write_data(WriteField::Addr.mask(), 0);
        self.set_write_data(WriteField::Parity.mask(), 1);
        self.set_write_data(WriteField::Fast.mask(), 1);
        self.set_write_data(WriteField::LowPower.mask(), 1);
        proof {
            let ghost rf = self.read_frame();
            let ghost w0 = old(self).write_frame();
            lemma_configured_fields(resynced(w0, rf));
            lemma_resynced_fields(w0, rf);
            lemma_configured_keeps_factory_fields(resynced(w0, rf));
        }
        Ok(())
    }

    /// Takes in the outcome of one bus read: on a frame, it replaces the last
    /// one and each axis is decoded from its high byte and low nibble and
    /// scaled to microtesla. On an error nothing changes and the error is
    /// handed back.
    pub fn get_sensor_reading(&mut self, received: Result<[u8; 10], BusError>) -> (r: Result<MagnetVals, BusError>)
        ensures
            match received {
                Ok(frame) => {
                    &&& final(self).read_frame() == frame@
                    &&& r matches Ok(v)
                    &&& v.x == axis_value(frame@, ReadField::Bx0, ReadField::Bx1)
                    &&& v.y == axis_value(frame@, ReadField::By0, ReadField::By1)
                    &&& v.z == axis_value(frame@, ReadField::Bz0, ReadField::Bz1)
                },
                Err(e) => r == Err::<MagnetVals, BusError>(e) && *final(self) == *old(self),
            },
            final(self).write_frame() == old(self).write_frame(),
            final(self).address() == old(self).address(),
            final(self).last_frame_counter() == old(self).last_frame_counter(),
    {
        match self.read_device(received) {
            Ok(()) => {},
            Err(e) => return Err(e),
        }
        let x = self.axis(ReadField::Bx0, ReadField::Bx1);
        let y = self.axis(ReadField::By0, ReadField::By1);
        let z = self.axis(ReadField::Bz0, ReadField::Bz1);
        Ok(MagnetVals { x, y, z })
    }

    /// Field strength, in microtesla, of one axis of the last frame read.
    fn axis(&self, high: ReadField, low: ReadField) -> (r: i32)
        requires
            low.layout() == ReadField::Bx1.layout() || low.layout() == ReadField::By1.layout()
                || low.layout() == ReadField::Bz1.layout(),
        ensures
            r == axis_value(self.read_frame(), high, low),
    {
        proof {
            lemma_read_catalog_wf(high);
            lemma_read_catalog_wf(low);
            lemma_nibble_fields_small(self.read_frame(), low);
        }
        let hm = high.mask();
        let lm = low.mask();
        let hi = extract_bits(self.read_buffer[hm.byte_num], hm.byte_mask, hm.byte_shift);
        let lo = extract_bits(self.read_buffer[lm.byte_num], lm.byte_mask, lm.byte_shift);
        let count = reconstruct(hi, lo);
        count as i32 * MICROTESLA_PER_COUNT
    }
}

/// The low-nibble fields of the axes never exceed fifteen.
proof fn lemma_nibble_fields_small(frame: Seq<u8>, low: ReadField)
    requires
        frame.len() == READ_LEN,
        low.layout() == ReadField::Bx1.layout() || low.layout() == ReadField::By1.layout()
            || low.layout() == ReadField::Bz1.layout(),
    ensures
        read_field(frame, low.layout()) < 16,
{
    let b = frame[low.layout().byte_num as int];
    assert(((b & 0xF0u8) >> 4u8) < 16u8 && ((b & 0x0Fu8) >> 0u8) < 16u8) by (bit_vector);
}

/// The fields that `configured` sets hold the values it gives them.
proof fn lemma_configured_fields(w: Seq<u8>)
    requires
        w.len() == WRITE_LEN,
    ensures
        write_field(configured(w), WriteField::Addr.layout()) == 0,
        write_field(configured(w), WriteField::Parity.layout()) == 1,
        write_field(configured(w), WriteField::Fast.layout()) == 1,
        write_field(configured(w), WriteField::LowPower.layout()) == 1,
{
    let w1 = with_write_field(w, WriteField::Addr.layout(), 0);
    let w2 = with_write_field(w1, WriteField::Parity.layout(), 1);
    let w3 = with_write_field(w2, WriteField::Fast.layout(), 1);
    let w4 = with_write_field(w3, WriteField::LowPower.layout(), 1);
    assert(0u8 & (0x60u8 >> 5u8) == 0u8 && 1u8 & (0x80u8 >> 7u8) == 1u8
        && 1u8 & (0x02u8 >> 1u8) == 1u8 && 1u8 & (0x01u8 >> 0u8) == 1u8) by (bit_vector);
    lemma_write_field_round_trip(w, WriteField::Addr, 0);
    lemma_write_field_isolation(w1, WriteField::Parity, WriteField::Addr, 1);
    lemma_write_field_isolation(w2, WriteField::Fast, WriteField::Addr, 1);
    lemma_write_field_isolation(w3, WriteField::LowPower, WriteField::Addr, 1);
    lemma_write_field_round_trip(w1, WriteField::Parity, 1);
    lemma_write_field_isolation(w2, WriteField::Fast, WriteField::Parity, 1);
    lemma_write_field_isolation(w3, WriteField::LowPower, WriteField::Parity, 1);
    lemma_write_field_round_trip(w2, WriteField::Fast, 1);
    lemma_write_field_isolation(w3, WriteField::LowPower, WriteField::Fast, 1);
    lemma_write_field_round_trip(w3, WriteField::LowPower, 1);
}

/// `configured` leaves the three factory fields as they were.
proof fn lemma_configured_keeps_factory_fields(w: Seq<u8>)
    requires
        w.len() == WRITE_LEN,
    ensures
        write_field(configured(w), WriteField::WriteRes1.layout()) == write_field(w, WriteField::WriteRes1.layout()),
        write_field(configured(w), WriteField::WriteRes2.layout()) == write_field(w, WriteField::WriteRes2.layout()),
        write_field(configured(w), WriteField::WriteRes3.layout()) == write_field(w, WriteField::WriteRes3.layout()),
{
    let w1 = with_write_field(w, WriteField::Addr.layout(), 0);
    let w2 = with_write_field(w1, WriteField::Parity.layout(), 1);
    let w3 = with_write_field(w2, WriteField::Fast.layout(), 1);
    lemma_write_field_isolation(w, WriteField::Addr, WriteField::WriteRes1, 0);
    lemma_write_field_isolation(w1, WriteField::Parity, WriteField::WriteRes1, 1);
    lemma_write_field_isolation(w2, WriteField::Fast, WriteField::WriteRes1, 1);
    lemma_write_field_isolation(w3, WriteField::LowPower, WriteField::WriteRes1, 1);
    lemma_write_field_isolation(w, WriteField::Addr, WriteField::WriteRes2, 0);
    lemma_write_field_isolation(w1, WriteField::Parity, WriteField::WriteRes2, 1);
    lemma_write_field_isolation(w2, WriteField::Fast, WriteField::WriteRes2, 1);
    lemma_write_field_isolation(w3, WriteField::LowPower, WriteField::WriteRes2, 1);
    lemma_write_field_isolation(w, WriteField::Addr, WriteField::WriteRes3, 0);
    lemma_write_field_isolation(w1, WriteField::Parity, WriteField::WriteRes3, 1);
    lemma_write_field_isolation(w2, WriteField::Fast, WriteField::WriteRes3, 1);
    lemma_write_field_isolation(w3, WriteField::LowPower, WriteField::WriteRes3, 1);
}

/// After `resynced` the factory fields of the write frame hold those of the
/// read frame.
proof fn lemma_resynced_fields(w: Seq<u8>, r: Seq<u8>)
    requires
        w.len() == WRITE_LEN,
        r.len() == READ_LEN,
    ensures
        write_field(resynced(w, r), WriteField::WriteRes1.layout()) == read_field(r, ReadField::ReadRes1.layout()),
        write_field(resynced(w, r), WriteField::WriteRes2.layout()) == read_field(r, ReadField::ReadRes2.layout()),
        write_field(resynced(w, r), WriteField::WriteRes3.layout()) == read_field(r, ReadField::ReadRes3.layout()),
{
    let v1 = read_field(r, ReadField::ReadRes1.layout());
    let v2 = read_field(r, ReadField::ReadRes2.layout());
    let v3 = read_field(r, ReadField::ReadRes3.layout());
    let w1 = with_write_field(w, WriteField::WriteRes1.layout(), v1);
    let w2 = with_write_field(w1, WriteField::WriteRes2.layout(), v2);
    let b7 = r[7];
    let b8 = r[8];
    let b9 = r[9];
    assert(((b7 & 0x18u8) >> 3u8) as u8 & (0x18u8 >> 3u8) == ((b7 & 0x18u8) >> 3u8) as u8
        && ((b8 & 0xFFu8) >> 0u8) as u8 & (0xFFu8 >> 0u8) == ((b8 & 0xFFu8) >> 0u8) as u8
        && ((b9 & 0x1Fu8) >> 0u8) as u8 & (0x1Fu8 >> 0u8) == ((b9 & 0x1Fu8) >> 0u8) as u8)
        by (bit_vector);
    lemma_write_field_round_trip(w, WriteField::WriteRes1, v1);
    lemma_write_field_isolation(w1, WriteField::WriteRes2, WriteField::WriteRes1, v2);
    lemma_write_field_isolation(w2, WriteField::WriteRes3, WriteField::WriteRes1, v3);
    lemma_write_field_round_trip(w1, WriteField::WriteRes2, v2);
    lemma_write_field_isolation(w2, WriteField::WriteRes3, WriteField::WriteRes2, v3);
    lemma_write_field_round_trip(w2, WriteField::WriteRes3, v3);
}

} // verus!
