use tlv493d::driver::TLV493D;
use tlv493d::mask::{ReadField, WriteField};

const WRITE_FIELDS: [WriteField; 11] = [
    WriteField::Parity,
    WriteField::Addr,
    WriteField::Int,
    WriteField::Fast,
    WriteField::LowPower,
    WriteField::TempDisable,
    WriteField::LpPeriod,
    WriteField::PowerDown,
    WriteField::WriteRes1,
    WriteField::WriteRes2,
    WriteField::WriteRes3,
];

fn write_field_value(frame: [u8; 4], f: WriteField) -> u8 {
    let m = f.mask();
    (frame[m.byte_num] & m.byte_mask) >> m.byte_shift
}

#[test]
fn write_field_round_trip_on_every_field() {
    for f in WRITE_FIELDS {
        for v in [0u8, 1, 2, 5, 0x1F, 0x80, 0xFF] {
            let mut s = TLV493D::new(0x5E);
            s.set_write_data(WriteField::WriteRes2.mask(), 0xC3);
            s.set_write_data(f.mask(), v);
            let m = f.mask();
            assert_eq!(write_field_value(s.write_device(), f), v & (m.byte_mask >> m.byte_shift));
        }
    }
}

#[test]
fn write_field_isolation_on_every_pair() {
    for f in WRITE_FIELDS {
        for g in WRITE_FIELDS {
            if f == g {
                continue;
            }
            let mut s = TLV493D::new(0x5E);
            s.set_write_data(g.mask(), 0xFF);
            let before = write_field_value(s.write_device(), g);
            s.set_write_data(f.mask(), 0xFF);
            assert_eq!(write_field_value(s.write_device(), g), before);
            s.set_write_data(f.mask(), 0);
            assert_eq!(write_field_value(s.write_device(), g), before);
        }
    }
}

#[test]
fn read_fields_of_one_byte_do_not_overlap() {
    let all = [
        ReadField::Bx0, ReadField::Bx1, ReadField::By0, ReadField::By1, ReadField::Bz0,
        ReadField::Bz1, ReadField::Temp, ReadField::Temp2, ReadField::Frm, ReadField::Ch,
        ReadField::PowerDownFlag, ReadField::ReadRes1, ReadField::ReadRes2, ReadField::ReadRes3,
    ];
    for f in all {
        for g in all {
            let (m, n) = (f.mask(), g.mask());
            assert!(m.byte_num < 10);
            if f != g && m.byte_num == n.byte_num {
                assert_eq!(m.byte_mask & n.byte_mask, 0);
            }
        }
    }
}
