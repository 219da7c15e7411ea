use crate::error::Error;
use crate::header::{field_value, Header};
use crate::ident::{class_of, encoding_of, header_len, ident_error, Ident, RawIdent, NIDENT};
use crate::layout::{end, lemma_field_in_header, offset, Field};
use crate::reader::uint_value;
use vstd::prelude::*;

verus! {

/// Why the file `s` cannot be decoded, if it cannot: too short for an
/// identification block, an invalid block, or too short for the header that
/// the block announces.
pub open spec fn file_error(s: Seq<u8>) -> Option<Error> {
    if s.len() < NIDENT {
        Some(Error::TruncatedInput { needed: NIDENT, got: s.len() as usize })
    } else if ident_error(s.take(NIDENT as int)).is_some() {
        ident_error(s.take(NIDENT as int))
    } else if s.len() < header_len(class_of(s.take(NIDENT as int))) {
        Some(
            Error::TruncatedInput {
                needed: header_len(class_of(s.take(NIDENT as int))) as usize,
                got: s.len() as usize,
            },
        )
    } else {
        None
    }
}

/// Decodes the identification block and the file header at the start of
/// `file`.
pub fn decode(file: &[u8]) -> (r: Result<(Ident, Header), Error>)
    ensures
        match r {
            Ok((id, h)) => {
                &&& file_error(file@).is_none()
                &&& id@ == file@.take(NIDENT as int)
                &&& h.ident_bytes() == id@
                &&& h.window() == file@.take(header_len(class_of(id@)) as int)
            },
            Err(e) => file_error(file@) == Some(e),
        },
{
    let got = file.len();
    if got < NIDENT {
        return Err(Error::TruncatedInput { needed: NIDENT, got });
    }
    let raw = RawIdent(
        [
            file[0],
            file[1],
            file[2],
            file[3],
            file[4],
            file[5],
            file[6],
            file[7],
            file[8],
            file[9],
            file[10],
            file[11],
            file[12],
            file[13],
            file[14],
            file[15],
        ],
    );
    assert(raw.0@ =~= file@.take(NIDENT as int));
    let ident = match Ident::decode(raw) {
        Ok(ident) => ident,
        Err(e) => return Err(e),
    };
    let header = match Header::decode(file, ident) {
        Ok(header) => header,
        Err(e) => return Err(e),
    };
    Ok((ident, header))
}

/// Two files that differ only in byte order (the encoding byte of the
/// identification block is swapped and the bytes of every header field are
/// reversed) decode to the same field values.
pub proof fn lemma_encoding_symmetry(a: Seq<u8>, b: Seq<u8>)
    requires
        file_error(a).is_none(),
        b.len() == a.len(),
        b[5] == (if a[5] == 1 {
            2u8
        } else {
            1u8
        }),
        forall|i: int| 0 <= i < NIDENT && i != 5 ==> b[i] == a[i],
        forall|f: Field|
            #![trigger offset(class_of(a.take(NIDENT as int)), f)]
            b.subrange(
                offset(class_of(a.take(NIDENT as int)), f) as int,
                end(class_of(a.take(NIDENT as int)), f) as int,
            ) == a.subrange(
                offset(class_of(a.take(NIDENT as int)), f) as int,
                end(class_of(a.take(NIDENT as int)), f) as int,
            ).reverse(),
    ensures
        file_error(b).is_none(),
        class_of(b.take(NIDENT as int)) == class_of(a.take(NIDENT as int)),
        encoding_of(b.take(NIDENT as int)) != encoding_of(a.take(NIDENT as int)),
        forall|f: Field|
            field_value(
                b.take(header_len(class_of(b.take(NIDENT as int))) as int),
                class_of(b.take(NIDENT as int)),
                encoding_of(b.take(NIDENT as int)),
                f,
            ) == field_value(
                a.take(header_len(class_of(a.take(NIDENT as int))) as int),
                class_of(a.take(NIDENT as int)),
                encoding_of(a.take(NIDENT as int)),
                f,
            ),
{
    let ia = a.take(NIDENT as int);
    let ib = b.take(NIDENT as int);
    assert(ib.take(4) =~= ia.take(4));
    assert(ib[4] == ia[4] && ib[6] == ia[6] && ib[7] == ia[7]);
    let c = class_of(ia);
    let n = header_len(c) as int;
    assert forall|f: Field|
        field_value(b.take(n), c, encoding_of(ib), f) == field_value(
            a.take(n),
            c,
            encoding_of(ia),
            f,
        ) by {
        lemma_field_in_header(c, f);
        let o = offset(c, f) as int;
        let e = end(c, f) as int;
        let x = a.subrange(o, e);
        assert(a.take(n).subrange(o, e) =~= x);
        assert(b.take(n).subrange(o, e) =~= b.subrange(o, e));
        assert(b.subrange(o, e) == x.reverse());
        assert(x.reverse().reverse() =~= x);
        assert(uint_value(x.reverse(), encoding_of(ib)) == uint_value(x, encoding_of(ia)));
    }
}

} // verus!
