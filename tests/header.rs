use elfhead::error::Error;
use elfhead::file::decode;
use elfhead::header::Header;
use elfhead::ident::{Ident, RawIdent};
use elfhead::layout::{field_span, Field};
use elfhead::names::machine_name;
use elfhead::reader::read_uint;
use elfhead::ident::{Class, Encoding};

fn put(buf: &mut Vec<u8>, v: u64, width: usize, big: bool) {
    for k in 0..width {
        let shift = if big { 8 * (width - 1 - k) } else { 8 * k };
        buf.push((v >> shift) as u8);
    }
}

/// The 64-bit example file: identity, then type=2, machine=0x3E, version=1,
/// entry=0x401000, phoff=0x40, shoff=0x1000, flags=0, ehsize=0x40,
/// phentsize=0x38, phnum=2, shentsize=0x40, shnum=10, shstrndx=9.
fn example64(big: bool) -> Vec<u8> {
    let mut b = vec![0x7F, 0x45, 0x4C, 0x46, 0x02, if big { 2 } else { 1 }, 0x01, 0x00];
    b.extend_from_slice(&[0u8; 8]);
    for (v, w) in [
        (2u64, 2usize),
        (0x3E, 2),
        (1, 4),
        (0x401000, 8),
        (0x40, 8),
        (0x1000, 8),
        (0, 4),
        (0x40, 2),
        (0x38, 2),
        (2, 2),
        (0x40, 2),
        (10, 2),
        (9, 2),
    ] {
        put(&mut b, v, w, big);
    }
    b
}

fn example32(big: bool) -> Vec<u8> {
    let mut b = vec![0x7F, 0x45, 0x4C, 0x46, 0x01, if big { 2 } else { 1 }, 0x01, 0x03];
    b.extend_from_slice(&[0u8; 8]);
    for (v, w) in [
        (3u64, 2usize),
        (0x28, 2),
        (1, 4),
        (0x8048000, 4),
        (0x34, 4),
        (0x2000, 4),
        (0x05000200, 4),
        (0x34, 2),
        (0x20, 2),
        (7, 2),
        (0x28, 2),
        (25, 2),
        (24, 2),
    ] {
        put(&mut b, v, w, big);
    }
    b
}

fn ident_of(file: &[u8]) -> Ident {
    let mut raw = [0u8; 16];
    raw.copy_from_slice(&file[..16]);
    Ident::decode(RawIdent(raw)).unwrap()
}

#[test]
fn decodes_the_64_bit_little_endian_example() {
    let file = example64(false);
    assert_eq!(file.len(), 0x40);
    let (ident, h) = decode(&file).unwrap();
    assert_eq!(ident.header_length(), 0x40);
    assert_eq!(h.object_type(), 2);
    assert_eq!(h.machine(), 0x3E);
    assert_eq!(h.version(), 1);
    assert_eq!(h.entry(), 0x401000);
    assert_eq!(h.phoff(), 0x40);
    assert_eq!(h.shoff(), 0x1000);
    assert_eq!(h.flags(), 0);
    assert_eq!(h.ehsize(), 0x40);
    assert_eq!(h.phentzise(), 0x38);
    assert_eq!(h.phnum(), 2);
    assert_eq!(h.shentsize(), 0x40);
    assert_eq!(h.shnum(), 10);
    assert_eq!(h.shstrndx(), 9);
    assert_eq!(machine_name(h.machine()), "AMD x86-64");
}

#[test]
fn decodes_a_32_bit_header() {
    for big in [false, true] {
        let file = example32(big);
        assert_eq!(file.len(), 0x34);
        let h = Header::decode(&file, ident_of(&file)).unwrap();
        assert_eq!(h.object_type(), 3);
        assert_eq!(h.machine(), 0x28);
        assert_eq!(h.version(), 1);
        assert_eq!(h.entry(), 0x8048000);
        assert_eq!(h.phoff(), 0x34);
        assert_eq!(h.shoff(), 0x2000);
        assert_eq!(h.flags(), 0x05000200);
        assert_eq!(h.ehsize(), 0x34);
        assert_eq!(h.phentzise(), 0x20);
        assert_eq!(h.phnum(), 7);
        assert_eq!(h.shentsize(), 0x28);
        assert_eq!(h.shnum(), 25);
        assert_eq!(h.shstrndx(), 24);
        assert_eq!(h.bytes(), &file[..]);
    }
}

#[test]
fn unknown_machine_decodes_and_falls_back() {
    let mut file = example64(false);
    file[0x12] = 0x99;
    file[0x13] = 0x99;
    let (_, h) = decode(&file).unwrap();
    assert_eq!(h.machine(), 0x9999);
    assert_eq!(machine_name(h.machine()), "reserved/unassigned");
}

#[test]
fn short_window_is_truncated_input() {
    let file = example64(false);
    let ident = ident_of(&file);
    for got in [0usize, 16, 0x34, 0x3F] {
        let err = Header::decode(&file[..got], ident).unwrap_err();
        assert_eq!(err, Error::TruncatedInput { needed: 0x40, got });
    }
    let file = example32(false);
    let err = Header::decode(&file[..0x33], ident_of(&file)).unwrap_err();
    assert_eq!(err, Error::TruncatedInput { needed: 0x34, got: 0x33 });
}

#[test]
fn longer_window_keeps_the_header_bytes_only() {
    let mut file = example32(false);
    file.extend_from_slice(&[0xEE; 40]);
    let h = Header::decode(&file, ident_of(&file)).unwrap();
    assert_eq!(h.bytes().len(), 0x34);
    assert_eq!(h.shstrndx(), 24);
}

#[test]
fn file_decode_errors() {
    let file = example64(false);
    assert_eq!(decode(&file[..10]).unwrap_err(), Error::TruncatedInput { needed: 16, got: 10 });
    assert_eq!(decode(&[]).unwrap_err(), Error::TruncatedInput { needed: 16, got: 0 });
    assert_eq!(decode(&file[..20]).unwrap_err(), Error::TruncatedInput { needed: 0x40, got: 20 });
    let mut bad = file.clone();
    bad[0] = 0;
    assert_eq!(decode(&bad).unwrap_err(), Error::MagicMismatch);
    let mut bad = file.clone();
    bad[7] = 0xFF;
    assert_eq!(decode(&bad).unwrap_err(), Error::UnsupportedAbi(0xFF));
}

#[test]
fn byte_order_swap_gives_the_same_values() {
    let little = example64(false);
    let big = example64(true);
    assert_ne!(little, big);
    assert_eq!(little[5], 1);
    assert_eq!(big[5], 2);
    let (_, a) = decode(&little).unwrap();
    let (_, b) = decode(&big).unwrap();
    for f in [
        Field::Type,
        Field::Machine,
        Field::Version,
        Field::Entry,
        Field::Phoff,
        Field::Shoff,
        Field::Flags,
        Field::Ehsize,
        Field::Phentsize,
        Field::Phnum,
        Field::Shentsize,
        Field::Shnum,
        Field::Shstrndx,
    ] {
        assert_eq!(a.field(f), b.field(f));
    }
    let a32 = decode(&example32(false)).unwrap().1;
    let b32 = decode(&example32(true)).unwrap().1;
    assert_eq!(a32.entry(), b32.entry());
    assert_eq!(a32.flags(), b32.flags());
}

#[test]
fn layout_table() {
    assert_eq!(field_span(Class::ThirtyTwo, Field::Entry), (0x18, 4));
    assert_eq!(field_span(Class::ThirtyTwo, Field::Phoff), (0x1C, 4));
    assert_eq!(field_span(Class::ThirtyTwo, Field::Shoff), (0x20, 4));
    assert_eq!(field_span(Class::ThirtyTwo, Field::Flags), (0x24, 4));
    assert_eq!(field_span(Class::ThirtyTwo, Field::Shstrndx), (0x32, 2));
    assert_eq!(field_span(Class::SixtyFour, Field::Entry), (0x18, 8));
    assert_eq!(field_span(Class::SixtyFour, Field::Phoff), (0x20, 8));
    assert_eq!(field_span(Class::SixtyFour, Field::Shoff), (0x28, 8));
    assert_eq!(field_span(Class::SixtyFour, Field::Flags), (0x30, 4));
    assert_eq!(field_span(Class::SixtyFour, Field::Shstrndx), (0x3E, 2));
    assert_eq!(field_span(Class::SixtyFour, Field::Type), (0x10, 2));
}

#[test]
fn generic_reader() {
    let b = [0x01u8, 0x02, 0x03, 0x04, 0x05, 0x06, 0x07, 0x08, 0x09];
    assert_eq!(read_uint(&b, 0, 2, Encoding::Little), 0x0201);
    assert_eq!(read_uint(&b, 0, 2, Encoding::Big), 0x0102);
    assert_eq!(read_uint(&b, 1, 4, Encoding::Little), 0x05040302);
    assert_eq!(read_uint(&b, 1, 4, Encoding::Big), 0x02030405);
    assert_eq!(read_uint(&b, 1, 8, Encoding::Little), 0x0908070605040302);
    assert_eq!(read_uint(&b, 1, 8, Encoding::Big), 0x0203040506070809);
    assert_eq!(read_uint(&b, 4, 0, Encoding::Big), 0);
    assert_eq!(read_uint(&[0xFF; 8], 0, 8, Encoding::Little), u64::MAX);
}
