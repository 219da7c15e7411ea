use crate::error::Error;
use crate::ident::{class_of, encoding_of, header_len, Class, Encoding, Ident};
use crate::layout::{end, field_span, lemma_field_in_header, offset, width, Field};
use crate::reader::{lemma_pow256_values, pow256, read_uint, uint_value};
use vstd::prelude::*;

verus! {

/// Value of field `f` in the header bytes `w` of an object of class `c`
/// whose multi-byte fields are stored in byte order `e`.
pub open spec fn field_value(w: Seq<u8>, c: Class, e: Encoding, f: Field) -> nat {
    uint_value(w.subrange(offset(c, f) as int, end(c, f) as int), e)
}

/// A decoded file header: its own copy of the header bytes, together with
/// the identification block that says how to read them.
#[derive(Debug)]
pub struct Header {
    header: Vec<u8>,
    ident: Ident,
}

impl Header {
    #[verifier::type_invariant]
    spec fn inv(self) -> bool {
        self.header@.len() == header_len(class_of(self.ident@))
    }

    /// The identification block the header was decoded with.
    pub closed spec fn ident_bytes(&self) -> Seq<u8> {
        self.ident@
    }

    /// The header bytes, starting at the identification block.
    pub closed spec fn window(&self) -> Seq<u8> {
        self.header@
    }

    /// Value of field `f` of this header.
    pub open spec fn value(&self, f: Field) -> nat {
        field_value(self.window(), class_of(self.ident_bytes()), encoding_of(self.ident_bytes()), f)
    }

    /// Decodes the header held in `window`, which starts at the beginning of
    /// the file. A window shorter than the class's header length is
    /// rejected; bytes beyond that length are ignored.
    pub fn decode(window: &[u8], ident: Ident) -> (r: Result<Header, Error>)
        ensures
            match r {
                Ok(h) => {
                    &&& window@.len() >= header_len(class_of(ident@))
                    &&& h.ident_bytes() == ident@
                    &&& h.window() == window@.take(header_len(class_of(ident@)) as int)
                },
                Err(e) => {
                    &&& window@.len() < header_len(class_of(ident@))
                    &&& e == Error::TruncatedInput {
                        needed: header_len(class_of(ident@)) as usize,
                        got: window@.len() as usize,
                    }
                },
            },
    {
        let needed = ident.header_length();
        let got = window.len();
        if got < needed {
            return Err(Error::TruncatedInput { needed, got });
        }
        let mut header: Vec<u8> = Vec::with_capacity(needed);
        let mut i: usize = 0;
        while i < needed
            invariant
                needed <= got,
                got == window@.len(),
                i <= needed,
                header@ == window@.take(i as int),
            decreases needed - i,
        {
            header.push(window[i]);
            i = i + 1;
            assert(header@ =~= window@.take(i as int));
        }
        Ok(Header { header, ident })
    }

    /// The identification block the header was decoded with.
    pub fn ident(&self) -> (r: &Ident)
        ensures
            r@ == self.ident_bytes(),
    {
        &self.ident
    }

    /// The header bytes.
    pub fn bytes(&self) -> (r: &[u8])
        ensures
            r@ == self.window(),
            r@.len() == header_len(class_of(self.ident_bytes())),
    {
        proof {
            use_type_invariant(self);
        }
        self.header.as_slice()
    }

    /// Reads field `f` through the layout table and the generic reader.
    pub fn field(&self, f: Field) -> (r: u64)
        ensures
            r as nat == self.value(f),
            (r as nat) < pow256(width(class_of(self.ident_bytes()), f)),
    {
        proof {
            use_type_invariant(self);
            lemma_field_in_header(class_of(self.ident@), f);
        }
        let (off, w) = field_span(self.ident.class(), f);
        read_uint(self.header.as_slice(), off, w, self.ident.encoding())
    }

    /// Reads a field that is two bytes wide under every class.
    fn read_u16(&self, f: Field) -> (r: u16)
        requires
            f != Field::Entry && f != Field::Phoff && f != Field::Shoff,
            f != Field::Version && f != Field::Flags,
        ensures
            r as nat == self.value(f),
    {
        proof {
            lemma_pow256_values();
        }
        self.field(f) as u16
    }

    /// Reads a field that is four bytes wide under every class.
    fn read_u32(&self, f: Field) -> (r: u32)
        requires
            f == Field::Version || f == Field::Flags,
        ensures
            r as nat == self.value(f),
    {
        proof {
            lemma_pow256_values();
        }
        self.field(f) as u32
    }

    /// Object-file type code.
    pub fn object_type(&self) -> (r: u16)
        ensures
            r as nat == self.value(Field::Type),
    {
        self.read_u16(Field::Type)
    }

    /// Machine (instruction set) code.
    pub fn machine(&self) -> (r: u16)
        ensures
            r as nat == self.value(Field::Machine),
    {
        self.read_u16(Field::Machine)
    }

    /// Header version.
    pub fn version(&self) -> (r: u32)
        ensures
            r as nat == self.value(Field::Version),
    {
        self.read_u32(Field::Version)
    }

    /// Entry-point address.
    pub fn entry(&self) -> (r: u64)
        ensures
            r as nat == self.value(Field::Entry),
    {
        self.field(Field::Entry)
    }

    /// Offset of the program-header table.
    pub fn phoff(&self) -> (r: u64)
        ensures
            r as nat == self.value(Field::Phoff),
    {
        self.field(Field::Phoff)
    }

    /// Offset of the section-header table.
    pub fn shoff(&self) -> (r: u64)
        ensures
            r as nat == self.value(Field::Shoff),
    {
        self.field(Field::Shoff)
    }

    /// Processor-specific flags.
    pub fn flags(&self) -> (r: u32)
        ensures
            r as nat == self.value(Field::Flags),
    {
        self.read_u32(Field::Flags)
    }

    /// Size of this header.
    pub fn ehsize(&self) -> (r: u16)
        ensures
            r as nat == self.value(Field::Ehsize),
    {
        self.read_u16(Field::Ehsize)
    }

    /// Size of one program-header entry.
    pub fn phentzise(&self) -> (r: u16)
        ensures
            r as nat == self.value(Field::Phentsize),
    {
        self.read_u16(Field::Phentsize)
    }

    /// Number of program-header entries.
    pub fn phnum(&self) -> (r: u16)
        ensures
            r as nat == self.value(Field::Phnum),
    {
        self.read_u16(Field::Phnum)
    }

    /// Size of one section-header entry.
    pub fn shentsize(&self) -> (r: u16)
        ensures
            r as nat == self.value(Field::Shentsize),
    {
        self.read_u16(Field::Shentsize)
    }

    /// Number of section-header entries.
    pub fn shnum(&self) -> (r: u16)
        ensures
            r as nat == self.value(Field::Shnum),
    {
        self.read_u16(Field::Shnum)
    }

    /// Index of the section holding the section names.
    pub fn shstrndx(&self) -> (r: u16)
        ensures
            r as nat == self.value(Field::Shstrndx),
    {
        self.read_u16(Field::Shstrndx)
    }
}

} // verus!
