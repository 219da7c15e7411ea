use elfhead::error::Error;
use elfhead::file::decode;

fn example64() -> Vec<u8> {
    let mut b = vec![0x7F, 0x45, 0x4C, 0x46, 0x02, 0x01, 0x01, 0x00];
    b.extend_from_slice(&[0u8; 8]);
    b.extend_from_slice(&[0x02, 0x00, 0x3E, 0x00, 0x01, 0x00, 0x00, 0x00]);
    b.extend_from_slice(&[0x00, 0x10, 0x40, 0x00, 0x00, 0x00, 0x00, 0x00]);
    b.extend_from_slice(&[0x40, 0x00, 0x00, 0x00, 0x00, 0x00, 0x00, 0x00]);
    b.extend_from_slice(&[0x00, 0x10, 0x00, 0x00, 0x00, 0x00, 0x00, 0x00]);
    b.extend_from_slice(&[0x00, 0x00, 0x00, 0x00, 0x40, 0x00, 0x38, 0x00]);
    b.extend_from_slice(&[0x02, 0x00, 0x40, 0x00, 0x0A, 0x00, 0x09, 0x00]);
    b
}

#[test]
fn ident_report_text() {
    let (ident, _) = decode(&example64()).unwrap();
    assert_eq!(
        ident.report(),
        "0x00 | 7F454C46 | magic\n\
         0x04 | 02 | class: 64-bit\n\
         0x05 | 01 | data: little-endian\n\
         0x06 | 01 | version\n\
         0x07 | 00 | abi: UNIX System V\n\
         0x08 | 00 | abi version\n"
    );
}

#[test]
fn header_report_text() {
    let (_, h) = decode(&example64()).unwrap();
    assert_eq!(
        h.report(),
        "0x10 | 0002 | type: Executable file\n\
         0x12 | 003E | machine: AMD x86-64\n\
         0x14 | 00000001 | version\n\
         0x18 | 0000000000401000 | entry\n\
         0x20 | 0000000000000040 | program headers offset\n\
         0x28 | 0000000000001000 | section headers offset\n\
         0x30 | 00000000 | flags\n\
         0x34 | 0040 | header size\n\
         0x36 | 0038 | program header size\n\
         0x38 | 0002 | program headers\n\
         0x3A | 0040 | section header size\n\
         0x3C | 000A | section headers\n\
         0x3E | 0009 | section names index\n"
    );
}

#[test]
fn header_report_32_bit_offsets() {
    let mut b = vec![0x7F, 0x45, 0x4C, 0x46, 0x01, 0x02, 0x01, 0x03];
    b.extend_from_slice(&[0u8; 8]);
    b.extend_from_slice(&[0x00, 0x03, 0x99, 0x99, 0x00, 0x00, 0x00, 0x01]);
    b.extend_from_slice(&[0x08, 0x04, 0x80, 0x00]);
    b.extend_from_slice(&[0u8; 0x34 - 0x1C]);
    let (ident, h) = decode(&b).unwrap();
    let report = h.report();
    assert!(report.starts_with(
        "0x10 | 0003 | type: Shared object\n\
         0x12 | 9999 | machine: reserved/unassigned\n\
         0x14 | 00000001 | version\n\
         0x18 | 08048000 | entry\n\
         0x1C | 00000000 | program headers offset\n"
    ));
    assert!(report.ends_with("0x32 | 0000 | section names index\n"));
    assert!(ident.report().contains("0x04 | 01 | class: 32-bit\n0x05 | 02 | data: big-endian\n"));
    assert!(ident.report().contains("0x07 | 03 | abi: GNU/Linux\n"));
}

#[test]
fn error_messages() {
    assert_eq!(Error::MagicMismatch.message(), "malformed ident: invalid magic bytes");
    assert_eq!(Error::UnsupportedClass(3).message(), "malformed ident: unsupported class 0x03");
    assert_eq!(
        Error::UnsupportedEncoding(0xAB).message(),
        "malformed ident: unsupported data encoding 0xAB"
    );
    assert_eq!(Error::UnsupportedVersion(0).message(), "malformed ident: unsupported version 0x00");
    assert_eq!(Error::UnsupportedAbi(0xFF).message(), "malformed ident: unsupported OS/ABI 0xFF");
    assert_eq!(
        Error::TruncatedInput { needed: 64, got: 7 }.message(),
        "truncated input: needed 64 bytes, got 7"
    );
    assert_eq!(
        Error::TruncatedInput { needed: 16, got: 0 }.message(),
        "truncated input: needed 16 bytes, got 0"
    );
    assert_eq!(
        Error::TruncatedInput { needed: 52, got: 1234567 }.message(),
        "truncated input: needed 52 bytes, got 1234567"
    );
}
