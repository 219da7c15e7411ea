use crate::ident::{class_of, header_len, valid_ident, Class};
use vstd::prelude::*;

verus! {

/// The fields of the file header, in the order in which they are stored.
#[derive(Clone, Copy, Debug, PartialEq, Eq, Structural)]
pub enum Field {
    Type,
    Machine,
    Version,
    Entry,
    Phoff,
    Shoff,
    Flags,
    Ehsize,
    Phentsize,
    Phnum,
    Shentsize,
    Shnum,
    Shstrndx,
}

/// Position of a field in storage order.
pub open spec fn rank(f: Field) -> nat {
    match f {
        Field::Type => 0,
        Field::Machine => 1,
        Field::Version => 2,
        Field::Entry => 3,
        Field::Phoff => 4,
        Field::Shoff => 5,
        Field::Flags => 6,
        Field::Ehsize => 7,
        Field::Phentsize => 8,
        Field::Phnum => 9,
        Field::Shentsize => 10,
        Field::Shnum => 11,
        Field::Shstrndx => 12,
    }
}

/// Width of an address-sized field.
pub open spec fn addr_width(c: Class) -> nat {
    match c {
        Class::ThirtyTwo => 4,
        Class::SixtyFour => 8,
    }
}

/// Width in bytes of field `f` under class `c`.
pub open spec fn width(c: Class, f: Field) -> nat {
    match f {
        Field::Entry | Field::Phoff | Field::Shoff => addr_width(c),
        Field::Version | Field::Flags => 4,
        _ => 2,
    }
}

/// The field stored at position `i`.
pub open spec fn field_at(i: nat) -> Field {
    if i == 0 {
        Field::Type
    } else if i == 1 {
        Field::Machine
    } else if i == 2 {
        Field::Version
    } else if i == 3 {
        Field::Entry
    } else if i == 4 {
        Field::Phoff
    } else if i == 5 {
        Field::Shoff
    } else if i == 6 {
        Field::Flags
    } else if i == 7 {
        Field::Ehsize
    } else if i == 8 {
        Field::Phentsize
    } else if i == 9 {
        Field::Phnum
    } else if i == 10 {
        Field::Shentsize
    } else if i == 11 {
        Field::Shnum
    } else {
        Field::Shstrndx
    }
}

/// Offset of the field at position `i`: the header's fields follow the
/// identification block without gaps.
pub open spec fn offset_at(c: Class, i: nat) -> nat
    decreases i,
{
    if i == 0 {
        0x10
    } else {
        offset_at(c, (i - 1) as nat) + width(c, field_at((i - 1) as nat))
    }
}

/// Offset of field `f` under class `c`.
pub open spec fn offset(c: Class, f: Field) -> nat {
    offset_at(c, rank(f))
}

/// First byte after field `f` under class `c`.
pub open spec fn end(c: Class, f: Field) -> nat {
    offset(c, f) + width(c, f)
}

/// Every field lies inside the header of its class.
pub proof fn lemma_field_in_header(c: Class, f: Field)
    ensures
        end(c, f) <= header_len(c),
        2 <= width(c, f) <= 8,
{
    reveal_with_fuel(offset_at, 14);
}

/// A class byte of 1 announces a header of `0x34` bytes whose entry and
/// table-offset fields are 4 bytes wide; a class byte of 2 announces one of
/// `0x40` bytes whose entry and table-offset fields are 8 bytes wide. Either
/// way the header ends where its last field ends.
pub proof fn lemma_class_layout(s: Seq<u8>)
    requires
        valid_ident(s),
    ensures
        s[4] == 1 ==> {
            &&& header_len(class_of(s)) == 0x34
            &&& width(class_of(s), Field::Entry) == 4
            &&& width(class_of(s), Field::Phoff) == 4
            &&& width(class_of(s), Field::Shoff) == 4
        },
        s[4] == 2 ==> {
            &&& header_len(class_of(s)) == 0x40
            &&& width(class_of(s), Field::Entry) == 8
            &&& width(class_of(s), Field::Phoff) == 8
            &&& width(class_of(s), Field::Shoff) == 8
        },
        header_len(class_of(s)) == end(class_of(s), Field::Shstrndx),
{
    reveal_with_fuel(offset_at, 14);
}

/// Offset and width of field `field` under class `class`.
pub fn field_span(class: Class, field: Field) -> (r: (usize, usize))
    ensures
        r.0 == offset(class, field),
        r.1 == width(class, field),
{
    proof {
        reveal_with_fuel(offset_at, 14);
    }
    match class {
        Class::ThirtyTwo => match field {
            Field::Type => (0x10, 2),
            Field::Machine => (0x12, 2),
            Field::Version => (0x14, 4),
            Field::Entry => (0x18, 4),
            Field::Phoff => (0x1C, 4),
            Field::Shoff => (0x20, 4),
            Field::Flags => (0x24, 4),
            Field::Ehsize => (0x28, 2),
            Field::Phentsize => (0x2A, 2),
            Field::Phnum => (0x2C, 2),
            Field::Shentsize => (0x2E, 2),
            Field::Shnum => (0x30, 2),
            Field::Shstrndx => (0x32, 2),
        },
        Class::SixtyFour => match field {
            Field::Type => (0x10, 2),
            Field::Machine => (0x12, 2),
            Field::Version => (0x14, 4),
            Field::Entry => (0x18, 8),
            Field::Phoff => (0x20, 8),
            Field::Shoff => (0x28, 8),
            Field::Flags => (0x30, 4),
            Field::Ehsize => (0x34, 2),
            Field::Phentsize => (0x36, 2),
            Field::Phnum => (0x38, 2),
            Field::Shentsize => (0x3A, 2),
            Field::Shnum => (0x3C, 2),
            Field::Shstrndx => (0x3E, 2),
        },
    }
}

} // verus!
