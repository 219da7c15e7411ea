use crate::error::Error;
use crate::header::Header;
use crate::ident::{class_of, Encoding, Ident};
use crate::layout::{field_span, lemma_field_in_header, offset, width, Field};
use crate::names::{
    abi_label, class_label, data_label, ei_abi_name, ei_class_name, ei_data_name, machine_label,
    machine_name, object_type_name, type_label,
};
use crate::reader::{read_uint, uint_value};
use crate::text::{dec, hex, push_dec, push_hex};
use vstd::prelude::*;
use vstd::string::StringExecFns;

verus! {

/// One report line: the byte offset, the stored value in `digits`
/// hexadecimal digits, and a label followed by a resolved name.
pub open spec fn line(off: nat, value: nat, digits: nat, label: Seq<char>, name: Seq<char>) -> Seq<
    char,
> {
    "0x"@ + hex(off, 2) + " | "@ + hex(value, digits) + " | "@ + label + name + "\n"@
}

fn push_line(s: &mut String, off: u64, value: u64, digits: usize, label: &str, name: &str)
    ensures
        final(s)@ == old(s)@ + line(off as nat, value as nat, digits as nat, label@, name@),
{
    s.append("0x");
    push_hex(s, off, 2);
    s.append(" | ");
    push_hex(s, value, digits);
    s.append(" | ");
    s.append(label);
    s.append(name);
    s.append("\n");
    assert(final(s)@ =~= old(s)@ + line(off as nat, value as nat, digits as nat, label@, name@));
}

/// The report of the identification block `s`.
pub open spec fn ident_report(s: Seq<u8>) -> Seq<char> {
    line(0, uint_value(s.subrange(0, 4), Encoding::Big), 8, "magic"@, ""@)
        + line(4, s[4] as nat, 2, "class: "@, class_label(s[4]))
        + line(5, s[5] as nat, 2, "data: "@, data_label(s[5]))
        + line(6, s[6] as nat, 2, "version"@, ""@)
        + line(7, s[7] as nat, 2, "abi: "@, abi_label(s[7]))
        + line(8, s[8] as nat, 2, "abi version"@, ""@)
}

impl Ident {
    /// Renders the block, one line per entry, each with its byte offset.
    pub fn report(&self) -> (r: String)
        ensures
            r@ == ident_report(self@),
    {
        let bytes = self.bytes();
        let magic = read_uint(bytes.as_slice(), 0, 4, Encoding::Big);
        let class = self.class_code();
        let data = self.endianness();
        let abi = self.abi();
        let mut s = String::new();
        push_line(&mut s, 0, magic, 8, "magic", "");
        push_line(&mut s, 4, class as u64, 2, "class: ", ei_class_name(class));
        push_line(&mut s, 5, data as u64, 2, "data: ", ei_data_name(data));
        push_line(&mut s, 6, self.version() as u64, 2, "version", "");
        push_line(&mut s, 7, abi as u64, 2, "abi: ", ei_abi_name(abi));
        push_line(&mut s, 8, self.abi_version() as u64, 2, "abi version", "");
        assert(s@ =~= ident_report(self@));
        s
    }
}

/// The report line of field `f` of `h`.
pub open spec fn field_line(h: &Header, f: Field, label: Seq<char>, name: Seq<char>) -> Seq<char> {
    let c = class_of(h.ident_bytes());
    line(offset(c, f), h.value(f), 2 * width(c, f), label, name)
}

/// The report of the file header `h`.
pub open spec fn header_report(h: &Header) -> Seq<char> {
    field_line(h, Field::Type, "type: "@, type_label(h.value(Field::Type) as u16))
        + field_line(h, Field::Machine, "machine: "@, machine_label(h.value(Field::Machine) as u16))
        + field_line(h, Field::Version, "version"@, ""@)
        + field_line(h, Field::Entry, "entry"@, ""@)
        + field_line(h, Field::Phoff, "program headers offset"@, ""@)
        + field_line(h, Field::Shoff, "section headers offset"@, ""@)
        + field_line(h, Field::Flags, "flags"@, ""@)
        + field_line(h, Field::Ehsize, "header size"@, ""@)
        + field_line(h, Field::Phentsize, "program header size"@, ""@)
        + field_line(h, Field::Phnum, "program headers"@, ""@)
        + field_line(h, Field::Shentsize, "section header size"@, ""@)
        + field_line(h, Field::Shnum, "section headers"@, ""@)
        + field_line(h, Field::Shstrndx, "section names index"@, ""@)
}

impl Header {
    fn push_field(&self, s: &mut String, f: Field, label: &str, name: &str)
        ensures
            final(s)@ == old(s)@ + field_line(self, f, label@, name@),
    {
        proof {
            lemma_field_in_header(class_of(self.ident_bytes()), f);
        }
        let (off, w) = field_span(self.ident().class(), f);
        let v = self.field(f);
        push_line(s, off as u64, v, 2 * w, label, name);
    }

    /// Renders the header, one line per field, each with its byte offset;
    /// the type and machine codes come with their names.
    pub fn report(&self) -> (r: String)
        ensures
            r@ == header_report(self),
    {
        let kind = self.object_type();
        let machine = self.machine();
        let mut s = String::new();
        self.push_field(&mut s, Field::Type, "type: ", object_type_name(kind));
        self.push_field(&mut s, Field::Machine, "machine: ", machine_name(machine));
        self.push_field(&mut s, Field::Version, "version", "");
        self.push_field(&mut s, Field::Entry, "entry", "");
        self.push_field(&mut s, Field::Phoff, "program headers offset", "");
        self.push_field(&mut s, Field::Shoff, "section headers offset", "");
        self.push_field(&mut s, Field::Flags, "flags", "");
        self.push_field(&mut s, Field::Ehsize, "header size", "");
        self.push_field(&mut s, Field::Phentsize, "program header size", "");
        self.push_field(&mut s, Field::Phnum, "program headers", "");
        self.push_field(&mut s, Field::Shentsize, "section header size", "");
        self.push_field(&mut s, Field::Shnum, "section headers", "");
        self.push_field(&mut s, Field::Shstrndx, "section names index", "");
        assert(s@ =~= header_report(self));
        s
    }
}

/// The message that describes error `e`.
pub open spec fn error_text(e: Error) -> Seq<char> {
    match e {
        Error::MagicMismatch => "malformed ident: invalid magic bytes"@,
        Error::UnsupportedClass(c) => "malformed ident: unsupported class 0x"@ + hex(c as nat, 2),
        Error::UnsupportedEncoding(d) => "malformed ident: unsupported data encoding 0x"@ + hex(
            d as nat,
            2,
        ),
        Error::UnsupportedVersion(v) => "malformed ident: unsupported version 0x"@ + hex(
            v as nat,
            2,
        ),
        Error::UnsupportedAbi(a) => "malformed ident: unsupported OS/ABI 0x"@ + hex(a as nat, 2),
        Error::TruncatedInput { needed, got } => "truncated input: needed "@ + dec(needed as nat)
            + " bytes, got "@ + dec(got as nat),
    }
}

impl Error {
    /// Human-readable description of the error.
    pub fn message(&self) -> (r: String)
        ensures
            r@ == error_text(*self),
    {
        match *self {
            Error::MagicMismatch => String::from_str("malformed ident: invalid magic bytes"),
            Error::UnsupportedClass(c) => {
                let mut s = String::from_str("malformed ident: unsupported class 0x");
                push_hex(&mut s, c as u64, 2);
                s
            },
            Error::UnsupportedEncoding(d) => {
                let mut s = String::from_str("malformed ident: unsupported data encoding 0x");
                push_hex(&mut s, d as u64, 2);
                s
            },
            Error::UnsupportedVersion(v) => {
                let mut s = String::from_str("malformed ident: unsupported version 0x");
                push_hex(&mut s, v as u64, 2);
                s
            },
            Error::UnsupportedAbi(a) => {
                let mut s = String::from_str("malformed ident: unsupported OS/ABI 0x");
                push_hex(&mut s, a as u64, 2);
                s
            },
            Error::TruncatedInput { needed, got } => {
                let mut s = String::from_str("truncated input: needed ");
                push_dec(&mut s, needed as u64);
                s.append(" bytes, got ");
                push_dec(&mut s, got as u64);
                s
            },
        }
    }
}

} // verus!
