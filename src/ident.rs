use crate::error::Error;
use vstd::prelude::*;

verus! {

/// Length of the identification block.
pub const NIDENT: usize = 0x10;

/// Byte positions inside the identification block.
pub const EI_CLASS: usize = 0x04;

pub const EI_DATA: usize = 0x05;

pub const EI_VERSION: usize = 0x06;

pub const EI_OSABI: usize = 0x07;

pub const EI_ABIVERSION: usize = 0x08;

/// Highest OS/ABI code that is accepted.
pub const ABI_MAX: u8 = 0x12;

/// Length of the file header of a 32-bit object.
pub const HEADER_LEN_32: usize = 0x34;

/// Length of the file header of a 64-bit object.
pub const HEADER_LEN_64: usize = 0x40;

/// Word-size class of an object file.
#[derive(Clone, Copy, Debug, PartialEq, Eq, Structural)]
pub enum Class {
    ThirtyTwo,
    SixtyFour,
}

/// Byte order of every multi-byte field.
#[derive(Clone, Copy, Debug, PartialEq, Eq, Structural)]
pub enum Encoding {
    Little,
    Big,
}

/// The format's signature: `0x7F 'E' 'L' 'F'`.
pub open spec fn magic() -> Seq<u8> {
    seq![0x7Fu8, 0x45u8, 0x4Cu8, 0x46u8]
}

/// The first rule that the identification block `s` breaks, checked in the
/// order magic, class, encoding, version, OS/ABI; `None` if it breaks none.
pub open spec fn ident_error(s: Seq<u8>) -> Option<Error> {
    if s.take(4) != magic() {
        Some(Error::MagicMismatch)
    } else if !(s[4] == 1 || s[4] == 2) {
        Some(Error::UnsupportedClass(s[4]))
    } else if !(s[5] == 1 || s[5] == 2) {
        Some(Error::UnsupportedEncoding(s[5]))
    } else if s[6] != 1 {
        Some(Error::UnsupportedVersion(s[6]))
    } else if s[7] > ABI_MAX {
        Some(Error::UnsupportedAbi(s[7]))
    } else {
        None
    }
}

/// `s` is a well-formed identification block.
pub open spec fn valid_ident(s: Seq<u8>) -> bool {
    s.len() == NIDENT && ident_error(s).is_none()
}

/// Class that the block `s` declares.
pub open spec fn class_of(s: Seq<u8>) -> Class {
    if s[4] == 1 {
        Class::ThirtyTwo
    } else {
        Class::SixtyFour
    }
}

/// Byte order that the block `s` declares.
pub open spec fn encoding_of(s: Seq<u8>) -> Encoding {
    if s[5] == 1 {
        Encoding::Little
    } else {
        Encoding::Big
    }
}

/// Length of the file header of an object of class `c`.
pub open spec fn header_len(c: Class) -> nat {
    match c {
        Class::ThirtyTwo => 0x34,
        Class::SixtyFour => 0x40,
    }
}

impl Class {
    /// The class byte that stands for this class.
    pub fn code(self) -> (r: u8)
        ensures
            r == 1 <==> self == Class::ThirtyTwo,
            r == 2 <==> self == Class::SixtyFour,
    {
        match self {
            Class::ThirtyTwo => 1,
            Class::SixtyFour => 2,
        }
    }

    /// Length in bytes of the file header of this class.
    pub fn header_length(self) -> (r: usize)
        ensures
            r == header_len(self),
    {
        match self {
            Class::ThirtyTwo => HEADER_LEN_32,
            Class::SixtyFour => HEADER_LEN_64,
        }
    }
}

impl Encoding {
    /// The data-encoding byte that stands for this byte order.
    pub fn code(self) -> (r: u8)
        ensures
            r == 1 <==> self == Encoding::Little,
            r == 2 <==> self == Encoding::Big,
    {
        match self {
            Encoding::Little => 1,
            Encoding::Big => 2,
        }
    }
}

/// Sixteen bytes that have not been validated yet.
#[derive(Clone, Copy, Debug)]
pub struct RawIdent(pub [u8; NIDENT]);

/// A validated identification block. The only way to obtain one is
/// [`Ident::decode`], so every value satisfies [`valid_ident`].
#[derive(Clone, Copy, Debug)]
pub struct Ident {
    ident: [u8; NIDENT],
}

impl View for Ident {
    type V = Seq<u8>;

    closed spec fn view(&self) -> Seq<u8> {
        self.ident@
    }
}

impl Ident {
    #[verifier::type_invariant]
    spec fn inv(self) -> bool {
        valid_ident(self.ident@)
    }

    /// Validates `raw`: the first rule it breaks, in the order of
    /// [`ident_error`], is reported; otherwise the block is kept.
    pub fn decode(raw: RawIdent) -> (r: Result<Ident, Error>)
        ensures
            match r {
                Ok(id) => id@ == raw.0@ && valid_ident(raw.0@),
                Err(e) => ident_error(raw.0@) == Some(e),
            },
            raw.0@.take(4) != magic() ==> r == Err::<Ident, Error>(Error::MagicMismatch),
    {
        let b = raw.0;
        if !(b[0] == 0x7F && b[1] == 0x45 && b[2] == 0x4C && b[3] == 0x46) {
            proof {
                assert(b@.take(4) != magic()) by {
                    if b@.take(4) == magic() {
                        assert(b@.take(4)[0] == magic()[0]);
                        assert(b@.take(4)[1] == magic()[1]);
                        assert(b@.take(4)[2] == magic()[2]);
                        assert(b@.take(4)[3] == magic()[3]);
                    }
                }
            }
            return Err(Error::MagicMismatch);
        }
        assert(b@.take(4) =~= magic());
        let class = b[EI_CLASS];
        if !(class == 1 || class == 2) {
            return Err(Error::UnsupportedClass(class));
        }
        let data = b[EI_DATA];
        if !(data == 1 || data == 2) {
            return Err(Error::UnsupportedEncoding(data));
        }
        let version = b[EI_VERSION];
        if version != 1 {
            return Err(Error::UnsupportedVersion(version));
        }
        let abi = b[EI_OSABI];
        if abi > ABI_MAX {
            return Err(Error::UnsupportedAbi(abi));
        }
        Ok(Ident { ident: b })
    }

    /// Class declared by the block.
    pub fn class(&self) -> (r: Class)
        ensures
            r == class_of(self@),
    {
        proof {
            use_type_invariant(self);
        }
        if self.ident[EI_CLASS] == 1 {
            Class::ThirtyTwo
        } else {
            Class::SixtyFour
        }
    }

    /// Byte order declared by the block.
    pub fn encoding(&self) -> (r: Encoding)
        ensures
            r == encoding_of(self@),
    {
        proof {
            use_type_invariant(self);
        }
        if self.ident[EI_DATA] == 1 {
            Encoding::Little
        } else {
            Encoding::Big
        }
    }

    /// Length of the file header that follows from the class: `0x34` for
    /// 32-bit objects, `0x40` for 64-bit ones.
    pub fn header_length(&self) -> (r: usize)
        ensures
            r == header_len(class_of(self@)),
            self@[4] == 1 ==> r == HEADER_LEN_32,
            self@[4] == 2 ==> r == HEADER_LEN_64,
    {
        proof {
            use_type_invariant(self);
        }
        self.class().header_length()
    }

    /// Same as [`Ident::header_length`].
    pub fn arch(&self) -> (r: usize)
        ensures
            r == header_len(class_of(self@)),
    {
        self.header_length()
    }

    /// The raw data-encoding byte (1 little-endian, 2 big-endian).
    pub fn endianness(&self) -> (r: u8)
        ensures
            r == self@[5],
            r == 1 || r == 2,
    {
        proof {
            use_type_invariant(self);
        }
        self.ident[EI_DATA]
    }

    /// The raw class byte (1 for 32-bit, 2 for 64-bit).
    pub fn class_code(&self) -> (r: u8)
        ensures
            r == self@[4],
            r == 1 || r == 2,
    {
        proof {
            use_type_invariant(self);
        }
        self.ident[EI_CLASS]
    }

    /// The format version, always 1.
    pub fn version(&self) -> (r: u8)
        ensures
            r == self@[6],
            r == 1,
    {
        proof {
            use_type_invariant(self);
        }
        self.ident[EI_VERSION]
    }

    /// The OS/ABI code, at most [`ABI_MAX`].
    pub fn abi(&self) -> (r: u8)
        ensures
            r == self@[7],
            r <= ABI_MAX,
    {
        proof {
            use_type_invariant(self);
        }
        self.ident[EI_OSABI]
    }

    /// The ABI version byte, which is not validated.
    pub fn abi_version(&self) -> (r: u8)
        ensures
            r == self@[8],
    {
        proof {
            use_type_invariant(self);
        }
        self.ident[EI_ABIVERSION]
    }

    /// The sixteen bytes of the block.
    pub fn bytes(&self) -> (r: [u8; NIDENT])
        ensures
            r@ == self@,
            valid_ident(r@),
    {
        proof {
            use_type_invariant(self);
        }
        self.ident
    }
}

} // verus!
