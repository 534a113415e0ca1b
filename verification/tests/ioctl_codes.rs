use minihype::ioctl::{_IO, _IOC, _IOR, _IOW, _IOWR, _IOC_NONE, _IOC_READ, _IOC_WRITE};

#[test]
fn io_places_type_and_number() {
    assert_eq!(_IO(0xAE, 0x00), 0xAE00);
    assert_eq!(_IO(0xAE, 0x41), 0xAE41);
    assert_eq!(_IO(0xAE, 0x80), 0xAE80);
}

#[test]
fn ior_sets_read_direction_and_size() {
    assert_eq!(_IOR(0xAE, 0x83, 312), 0x8138AE83);
}

#[test]
fn iow_sets_write_direction_and_size() {
    assert_eq!(_IOW(0xAE, 0x82, 144), 0x4090AE82);
    assert_eq!(_IOW(0xAE, 0x46, 32), 0x4020AE46);
}

#[test]
fn iowr_sets_both_directions() {
    assert_eq!(_IOWR(0x41, 0x01, 8), 0xC0084101);
}

#[test]
fn ioc_is_the_placed_sum_of_its_fields() {
    assert_eq!(_IOC(_IOC_NONE, 0, 0, 0), 0);
    assert_eq!(_IOC(_IOC_WRITE, 1, 2, 3), (1 << 30) + (3 << 16) + (1 << 8) + 2);
    assert_eq!(_IOC(_IOC_READ, 0xff, 0xff, 0x3fff), 0xBFFF_FFFF);
    assert_eq!(_IOC(3, 0xff, 0xff, 0x3fff), 0xFFFF_FFFF);
}

#[test]
fn ioc_fields_decode_back() {
    let code = _IOC(2, 0x12, 0x34, 0x567);
    assert_eq!((code >> 30) & 3, 2);
    assert_eq!((code >> 8) & 0xff, 0x12);
    assert_eq!(code & 0xff, 0x34);
    assert_eq!((code >> 16) & 0x3fff, 0x567);
}

#[test]
fn ioc_fields_out_of_range_are_shifted_and_ored() {
    // A direction above two bits is shifted out of the 32-bit word.
    assert_eq!(_IOC(4, 0, 0, 0), 0);
    // A type above eight bits spills into the size field.
    assert_eq!(_IOC(0, 0x1ff, 0, 0), 0x1ff00);
    // A number above eight bits is ored over the type field.
    assert_eq!(_IOC(0, 0x01, 0x1ff, 0), 0x1ff);
}

#[test]
fn distinct_fields_give_distinct_codes() {
    assert_ne!(_IOR(0xAE, 0x83, 312), _IOW(0xAE, 0x83, 312));
    assert_ne!(_IO(0xAE, 0x01), _IO(0xAE, 0x04));
}
