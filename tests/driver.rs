use tlv493d::driver::{reconstruct, AbortReason, BusError, MagnetVals, TLV493D, MICROTESLA_PER_COUNT};
use tlv493d::mask::{ReadField, ReadMask, WriteField, WriteMask};

const ADDRESS: u16 = 0xBD;

fn frame(bytes: [u8; 10]) -> Result<[u8; 10], BusError> {
    Ok(bytes)
}

fn millitesla(microtesla: i32) -> f32 {
    microtesla as f32 / 1000.0
}

#[test]
fn masks_built_from_triples_match_the_catalog() {
    assert_eq!(ReadMask::from((0, 0xFF, 0)), ReadField::Bx0.mask());
    assert_eq!(ReadMask::from((4, 0xF0, 4)), ReadField::Bx1.mask());
    assert_eq!(ReadMask::from((7, 0x18, 3)), ReadField::ReadRes1.mask());
    assert_eq!(WriteMask::from((1, 0x80, 7)), WriteField::Parity.mask());
    assert_eq!(WriteMask::from((3, 0x1F, 0)), WriteField::WriteRes3.mask());
    let m = ReadMask::from((3, 0x0C, 2));
    assert_eq!((m.byte_num, m.byte_mask, m.byte_shift), (3, 0x0C, 2));
}

#[test]
fn new_driver_has_zero_frames() {
    let mut s = TLV493D::new(ADDRESS);
    assert_eq!(s.i2c_addr(), ADDRESS);
    assert_eq!(s.write_device(), [0u8; 4]);
    assert_eq!(s.get_read_data(ReadField::Bx0.mask()), 0);
    assert_eq!(s.get_read_data(ReadField::ReadRes3.mask()), 0);
}

#[test]
fn set_write_data_merges_and_truncates() {
    let mut s = TLV493D::new(ADDRESS);
    s.set_write_data(WriteField::Addr.mask(), 0xFF);
    assert_eq!(s.write_device(), [0, 0x60, 0, 0]);
    s.set_write_data(WriteField::Parity.mask(), 1);
    assert_eq!(s.write_device(), [0, 0xE0, 0, 0]);
    s.set_write_data(WriteField::Addr.mask(), 1);
    assert_eq!(s.write_device(), [0, 0xA0, 0, 0]);
    s.set_write_data(WriteField::WriteRes2.mask(), 0x5A);
    assert_eq!(s.write_device(), [0, 0xA0, 0x5A, 0]);
}

#[test]
fn get_read_data_reads_each_field() {
    let mut s = TLV493D::new(ADDRESS);
    assert_eq!(s.read_device(frame([0x12, 0x34, 0x56, 0x7E, 0x9A, 0xBC, 0x11, 0xFF, 0xAB, 0xFF])), Ok(()));
    assert_eq!(s.get_read_data(ReadField::Bx0.mask()), 0x12);
    assert_eq!(s.get_read_data(ReadField::Bx1.mask()), 0x9);
    assert_eq!(s.get_read_data(ReadField::By1.mask()), 0xA);
    assert_eq!(s.get_read_data(ReadField::Bz1.mask()), 0xC);
    assert_eq!(s.get_read_data(ReadField::Temp.mask()), 0x7);
    assert_eq!(s.get_read_data(ReadField::Temp2.mask()), 0x11);
    assert_eq!(s.get_read_data(ReadField::Frm.mask()), 0x3);
    assert_eq!(s.get_read_data(ReadField::Ch.mask()), 0x2);
    assert_eq!(s.get_read_data(ReadField::PowerDownFlag.mask()), 1);
    assert_eq!(s.get_read_data(ReadField::ReadRes1.mask()), 3);
    assert_eq!(s.get_read_data(ReadField::ReadRes2.mask()), 0xAB);
    assert_eq!(s.get_read_data(ReadField::ReadRes3.mask()), 0x1F);
}

#[test]
fn reconstruct_fixed_encodings() {
    assert_eq!(reconstruct(0x00, 0x0), 0);
    assert_eq!(reconstruct(0x01, 0x0), 16);
    assert_eq!(reconstruct(0xFF, 0xF), -1);
    assert_eq!(reconstruct(0x80, 0x0), -2048);
    assert_eq!(reconstruct(0x7F, 0xF), 2047);
    assert_eq!(reconstruct(0xFE, 0x3), -29);
}

#[test]
fn fixed_encodings_scale_to_millitesla() {
    let mut s = TLV493D::new(ADDRESS);
    let v = s.get_sensor_reading(frame([0x00, 0x01, 0xFF, 0, 0x00, 0x0F, 0, 0, 0, 0])).unwrap();
    assert_eq!(v, MagnetVals { x: 0, y: 16 * MICROTESLA_PER_COUNT, z: -MICROTESLA_PER_COUNT });
    assert!((millitesla(v.x) - 0.0).abs() < 1e-6);
    assert!((millitesla(v.y) - 16.0 * 0.098).abs() < 1e-5);
    assert!((millitesla(v.z) - -0.098).abs() < 1e-6);
}

#[test]
fn init_programs_write_frame() {
    let mut s = TLV493D::new(ADDRESS);
    assert_eq!(s.init(frame([0, 0, 0, 0, 0, 0, 0, 0xFF, 0xAB, 0xFF])), Ok(()));
    assert_eq!(s.write_device(), [0x00, 0x9B, 0xAB, 0x1F]);
}

#[test]
fn init_keeps_untouched_write_fields() {
    let mut s = TLV493D::new(ADDRESS);
    s.set_write_data(WriteField::TempDisable.mask(), 1);
    s.set_write_data(WriteField::Addr.mask(), 3);
    assert_eq!(s.init(frame([0, 0, 0, 0, 0, 0, 0, 0x08, 0x01, 0x02])), Ok(()));
    assert_eq!(s.write_device(), [0x00, 0x8B, 0x01, 0x82]);
}

#[test]
fn init_failed_read_changes_nothing() {
    let mut s = TLV493D::new(ADDRESS);
    s.set_write_data(WriteField::Int.mask(), 1);
    let e = BusError::Abort(AbortReason::NoAcknowledge);
    assert_eq!(s.init(Err(e)), Err(e));
    assert_eq!(s.write_device(), [0, 0x04, 0, 0]);
}

#[test]
fn sensor_reading_golden_frame() {
    let mut s = TLV493D::new(ADDRESS);
    let v = s.get_sensor_reading(frame([0x12, 0x34, 0x56, 0x78, 0x9A, 0xBC, 0, 0, 0, 0])).unwrap();
    assert_eq!(v, MagnetVals { x: 29106, y: 82516, z: 136024 });
    assert!((millitesla(v.x) - 297.0 * 0.098).abs() < 1e-3);
    assert_eq!(s.get_read_data(ReadField::Bx0.mask()), 0x12);
    assert_eq!(s.get_read_data(ReadField::Bx1.mask()), 0x9);
}

#[test]
fn sensor_reading_failed_read_keeps_state() {
    let mut s = TLV493D::new(ADDRESS);
    assert_eq!(s.init(frame([0, 0, 0, 0, 0, 0, 0, 0xFF, 0xAB, 0xFF])), Ok(()));
    let first = s.get_sensor_reading(frame([0x12, 0x34, 0x56, 0x78, 0x9A, 0xBC, 0, 0, 0, 0]));
    let written = s.write_device();
    let failed = s.get_sensor_reading(Err(BusError::AddressReserved(0x01)));
    assert_eq!(failed, Err(BusError::AddressReserved(0x01)));
    assert_eq!(s.write_device(), written);
    assert_eq!(s.get_read_data(ReadField::Bx0.mask()), 0x12);
    assert_eq!(s.get_read_data(ReadField::Bz1.mask()), 0xC);
    let again = s.get_sensor_reading(frame([0x12, 0x34, 0x56, 0x78, 0x9A, 0xBC, 0, 0, 0, 0]));
    assert_eq!(first, again);
}

#[test]
fn read_device_replaces_whole_frame() {
    let mut s = TLV493D::new(ADDRESS);
    assert_eq!(s.read_device(frame([0xFF; 10])), Ok(()));
    assert_eq!(s.read_device(frame([0; 10])), Ok(()));
    assert_eq!(s.get_read_data(ReadField::Bx0.mask()), 0);
    assert_eq!(s.get_read_data(ReadField::ReadRes2.mask()), 0);
    assert_eq!(s.read_device(Err(BusError::InvalidReadBufferLength)), Err(BusError::InvalidReadBufferLength));
    assert_eq!(s.read_device(Err(BusError::InvalidWriteBufferLength)), Err(BusError::InvalidWriteBufferLength));
    for reason in [
        AbortReason::NoAcknowledge,
        AbortReason::ArbitrationLoss,
        AbortReason::TxNotEmpty(3),
        AbortReason::Other(0x1234),
    ] {
        assert_eq!(s.read_device(Err(BusError::Abort(reason))), Err(BusError::Abort(reason)));
    }
    assert_eq!(s.read_device(Err(BusError::AddressOutOfRange(0x400))), Err(BusError::AddressOutOfRange(0x400)));
}
