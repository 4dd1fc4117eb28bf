use vstd::prelude::*;

use crate::constants::MQENC_INTEGER_REVERSED;
use crate::encoding::{ascii7_ebcdic_byte, ebcdic_ascii7_byte, is_ebcdic, spec_ascii7_ebcdic, spec_ebcdic_ascii7, spec_is_ebcdic};
use crate::strings::StringCcsid;
use crate::types::{Fmt, MessageFormat, StrucId};

verus! {

/// Text, with the character set family it is encoded in.
#[derive(Clone, Copy, Debug)]
pub enum TextEnc<T> {
    Ascii(T),
    Ebcdic(T),
}

/// Translate an eight byte name from EBCDIC to ASCII.
pub fn fmt_ebcdic_ascii7(f: Fmt) -> (r: Fmt)
    ensures
        r@ == f@.map_values(|b: u8| spec_ebcdic_ascii7(b)),
{
    let mut r = f;
    let mut i: usize = 0;
    while i < 8
        invariant
            i <= 8,
            f@.len() == 8,
            r@.len() == 8,
            forall|j: int| 0 <= j < i ==> #[trigger] r@[j] == spec_ebcdic_ascii7(f@[j]),
            forall|j: int| i <= j < 8 ==> #[trigger] r@[j] == f@[j],
        decreases 8 - i,
    {
        let c = ebcdic_ascii7_byte(f[i]);
        r[i] = c;
        i = i + 1;
    }
    assert(r@ =~= f@.map_values(|b: u8| spec_ebcdic_ascii7(b)));
    r
}

/// Translate an eight byte name from ASCII to EBCDIC.
pub fn fmt_ascii7_ebcdic(f: Fmt) -> (r: Fmt)
    ensures
        r@ == f@.map_values(|b: u8| spec_ascii7_ebcdic(b)),
{
    let mut r = f;
    let mut i: usize = 0;
    while i < 8
        invariant
            i <= 8,
            f@.len() == 8,
            r@.len() == 8,
            forall|j: int| 0 <= j < i ==> #[trigger] r@[j] == spec_ascii7_ebcdic(f@[j]),
            forall|j: int| i <= j < 8 ==> #[trigger] r@[j] == f@[j],
        decreases 8 - i,
    {
        let c = ascii7_ebcdic_byte(f[i]);
        r[i] = c;
        i = i + 1;
    }
    assert(r@ =~= f@.map_values(|b: u8| spec_ascii7_ebcdic(b)));
    r
}

/// The ASCII form of a name: EBCDIC names are translated.
pub open spec fn spec_ascii_of(t: TextEnc<Fmt>) -> Seq<u8> {
    match t {
        TextEnc::Ascii(f) => f@,
        TextEnc::Ebcdic(f) => f@.map_values(|b: u8| spec_ebcdic_ascii7(b)),
    }
}

/// Equality of encoded names: names of the same family compare byte for byte; an EBCDIC name
/// compares to an ASCII name once it is translated to ASCII.
pub open spec fn spec_text_eq(a: TextEnc<Fmt>, b: TextEnc<Fmt>) -> bool {
    match (a, b) {
        (TextEnc::Ascii(x), TextEnc::Ascii(y)) => x@ == y@,
        (TextEnc::Ebcdic(x), TextEnc::Ebcdic(y)) => x@ == y@,
        (TextEnc::Ascii(x), TextEnc::Ebcdic(y)) => y@.map_values(|c: u8| spec_ebcdic_ascii7(c)) == x@,
        (TextEnc::Ebcdic(x), TextEnc::Ascii(y)) => x@.map_values(|c: u8| spec_ebcdic_ascii7(c)) == y@,
    }
}

impl TextEnc<Fmt> {
    /// The name in ASCII.
    pub fn into_ascii(self) -> (r: Self)
        ensures
            r matches TextEnc::Ascii(f) && f@ == spec_ascii_of(self),
    {
        match self {
            TextEnc::Ascii(_) => self,
            TextEnc::Ebcdic(f) => TextEnc::Ascii(fmt_ebcdic_ascii7(f)),
        }
    }

    /// The name in EBCDIC.
    pub fn into_ebcdic(self) -> (r: Self)
        ensures
            r matches TextEnc::Ebcdic(f) && f@ == match self {
                TextEnc::Ascii(a) => a@.map_values(|b: u8| spec_ascii7_ebcdic(b)),
                TextEnc::Ebcdic(e) => e@,
            },
    {
        match self {
            TextEnc::Ascii(f) => TextEnc::Ebcdic(fmt_ascii7_ebcdic(f)),
            TextEnc::Ebcdic(_) => self,
        }
    }

    /// The name bytes, whichever family they are in.
    pub fn value(&self) -> (r: Fmt)
        ensures
            r == match *self {
                TextEnc::Ascii(f) => f,
                TextEnc::Ebcdic(f) => f,
            },
    {
        match self {
            TextEnc::Ascii(f) => *f,
            TextEnc::Ebcdic(f) => *f,
        }
    }

    /// The name as text: its ASCII form, with bytes that are not UTF-8 replaced.
    pub fn display_string(&self) -> (r: String)
        ensures
            r@ == crate::strings::utf8_lossy(spec_ascii_of(*self)),
    {
        let a = match self.into_ascii() {
            TextEnc::Ascii(f) => f,
            TextEnc::Ebcdic(f) => f,
        };
        crate::strings::string_from_utf8_lossy(a.as_slice())
    }

    /// Equality of encoded names, translating EBCDIC to ASCII when the families differ.
    pub fn text_eq(&self, other: &Self) -> (b: bool)
        ensures
            b == spec_text_eq(*self, *other),
    {
        match (self, other) {
            (TextEnc::Ascii(x), TextEnc::Ascii(y)) => crate::mqstr::bytes_eq(x.as_slice(), y.as_slice()),
            (TextEnc::Ebcdic(x), TextEnc::Ebcdic(y)) => crate::mqstr::bytes_eq(x.as_slice(), y.as_slice()),
            (TextEnc::Ascii(x), TextEnc::Ebcdic(y)) => {
                let ya = fmt_ebcdic_ascii7(*y);
                crate::mqstr::bytes_eq(ya.as_slice(), x.as_slice())
            },
            (TextEnc::Ebcdic(x), TextEnc::Ascii(y)) => {
                let xa = fmt_ebcdic_ascii7(*x);
                crate::mqstr::bytes_eq(xa.as_slice(), y.as_slice())
            },
        }
    }
}

/// A name written in EBCDIC compares equal to itself written in ASCII, for names made of
/// characters that survive the translation.
pub proof fn law_ebcdic_name_matches_ascii(a: Fmt, e: Fmt)
    requires
        forall|i: int| 0 <= i < a@.len() ==> crate::encoding::ascii7_roundtrips(#[trigger] a@[i]),
        e@ == a@.map_values(|b: u8| spec_ascii7_ebcdic(b)),
    ensures
        spec_text_eq(TextEnc::Ascii(a), TextEnc::Ebcdic(e)),
{
    let back = e@.map_values(|c: u8| spec_ebcdic_ascii7(c));
    assert forall|i: int| 0 <= i < a@.len() implies #[trigger] back[i] == a@[i] by {
        crate::encoding::law_ascii7_ebcdic_roundtrip(a@[i]);
    }
    assert(e@.map_values(|c: u8| spec_ebcdic_ascii7(c)) =~= a@);
}

/// Equality of encoded names is reflexive and symmetric, and names of one family that
/// equal the same name of the other family are equal once both are in ASCII.
pub proof fn law_text_eq(a: TextEnc<Fmt>, b: TextEnc<Fmt>, c: TextEnc<Fmt>)
    ensures
        spec_text_eq(a, a),
        spec_text_eq(a, b) == spec_text_eq(b, a),
        spec_text_eq(a, b) && spec_text_eq(b, c) ==> spec_ascii_of(a) == spec_ascii_of(c),
{
}

/// The errors of message header parsing.
#[derive(Debug, Clone)]
pub enum HeaderError {
    /// The structure identifier or version did not match the expected header.
    UnexpectedStruc(StrucId),
    /// Length of the header exceeds the data remaining.
    DataTruncated(usize, usize),
    /// Length provided by header is malformed.
    MalformedLength(i32),
    /// Length provided by header is not within the data offset.
    StrucLengthOffsetMismatch(usize, usize, usize),
}

/// The kinds of chained message header.
#[derive(Debug, Clone, Copy, PartialEq, Eq, Structural)]
pub enum HeaderKind {
    /// Dead letter header, `MQDLH`.
    Dlh,
    /// Distribution header, `MQDH`.
    Dh,
    /// IMS information header, `MQIIH`.
    Iih,
    /// Rules and formatting header version 2, `MQRFH2`.
    Rfh2,
    /// Rules and formatting header version 1, `MQRFH`.
    Rfh,
    /// CICS information header, `MQCIH`.
    Cih,
}

impl HeaderKind {
    /// The length of the fixed part of the header structure.
    pub open spec fn spec_struc_len(self) -> usize {
        match self {
            HeaderKind::Dlh => 172,
            HeaderKind::Dh => 48,
            HeaderKind::Iih => 84,
            HeaderKind::Rfh2 => 36,
            HeaderKind::Rfh => 32,
            HeaderKind::Cih => 180,
        }
    }

    /// The version of the header structure this library reads.
    pub open spec fn spec_version(self) -> i32 {
        match self {
            HeaderKind::Dlh => 1,
            HeaderKind::Dh => 1,
            HeaderKind::Iih => 1,
            HeaderKind::Rfh2 => 2,
            HeaderKind::Rfh => 1,
            HeaderKind::Cih => 2,
        }
    }

    /// The header structure carries its own total length in a `StrucLength` field.
    pub open spec fn spec_has_length(self) -> bool {
        match self {
            HeaderKind::Dlh | HeaderKind::Iih => false,
            _ => true,
        }
    }

    /// Offset of the `Encoding` field of the next data.
    pub open spec fn spec_encoding_offset(self) -> usize {
        if self == HeaderKind::Dlh {
            108
        } else {
            12
        }
    }

    /// Offset of the `CodedCharSetId` field of the next data.
    pub open spec fn spec_ccsid_offset(self) -> usize {
        if self == HeaderKind::Dlh {
            112
        } else {
            16
        }
    }

    /// Offset of the `Format` field of the next data.
    pub open spec fn spec_format_offset(self) -> usize {
        if self == HeaderKind::Dlh {
            116
        } else {
            20
        }
    }

    /// The ASCII format name (`MQFMT_*`) that announces the header.
    pub open spec fn spec_fmt_ascii(self) -> Seq<u8> {
        match self {
            // "MQDEAD  "
            HeaderKind::Dlh => seq![0x4Du8, 0x51, 0x44, 0x45, 0x41, 0x44, 0x20, 0x20],
            // "MQHDIST "
            HeaderKind::Dh => seq![0x4Du8, 0x51, 0x48, 0x44, 0x49, 0x53, 0x54, 0x20],
            // "MQIMS   "
            HeaderKind::Iih => seq![0x4Du8, 0x51, 0x49, 0x4D, 0x53, 0x20, 0x20, 0x20],
            // "MQHRF2  "
            HeaderKind::Rfh2 => seq![0x4Du8, 0x51, 0x48, 0x52, 0x46, 0x32, 0x20, 0x20],
            // "MQHRF   "
            HeaderKind::Rfh => seq![0x4Du8, 0x51, 0x48, 0x52, 0x46, 0x20, 0x20, 0x20],
            // "MQCICS  "
            HeaderKind::Cih => seq![0x4Du8, 0x51, 0x43, 0x49, 0x43, 0x53, 0x20, 0x20],
        }
    }

    /// The ASCII structure identifier (`StrucId`) of the header.
    pub open spec fn spec_struc_id_ascii(self) -> Seq<u8> {
        match self {
            // "DLH "
            HeaderKind::Dlh => seq![0x44u8, 0x4C, 0x48, 0x20],
            // "DH  "
            HeaderKind::Dh => seq![0x44u8, 0x48, 0x20, 0x20],
            // "IIH "
            HeaderKind::Iih => seq![0x49u8, 0x49, 0x48, 0x20],
            // "RFH "
            HeaderKind::Rfh2 => seq![0x52u8, 0x46, 0x48, 0x20],
            // "RFH "
            HeaderKind::Rfh => seq![0x52u8, 0x46, 0x48, 0x20],
            // "CIH "
            HeaderKind::Cih => seq![0x43u8, 0x49, 0x48, 0x20],
        }
    }

    /// The length in the `StrucLength` field is acceptable for the header.
    pub open spec fn spec_valid_length(self, length: i32) -> bool {
        if self == HeaderKind::Rfh2 {
            // +4 bytes for the length field of the name/value data
            length == 36 || length >= 40
        } else {
            length >= self.spec_struc_len()
        }
    }

    /// The length of the fixed part of the header structure.
    pub fn struc_len(self) -> (r: usize)
        ensures
            r == self.spec_struc_len(),
    {
        match self {
            HeaderKind::Dlh => 172,
            HeaderKind::Dh => 48,
            HeaderKind::Iih => 84,
            HeaderKind::Rfh2 => 36,
            HeaderKind::Rfh => 32,
            HeaderKind::Cih => 180,
        }
    }

    /// The version of the header structure this library reads.
    pub fn version(self) -> (r: i32)
        ensures
            r == self.spec_version(),
    {
        match self {
            HeaderKind::Dlh => 1,
            HeaderKind::Dh => 1,
            HeaderKind::Iih => 1,
            HeaderKind::Rfh2 => 2,
            HeaderKind::Rfh => 1,
            HeaderKind::Cih => 2,
        }
    }

    /// The header structure carries its own total length.
    pub fn has_length(self) -> (r: bool)
        ensures
            r == self.spec_has_length(),
    {
        match self {
            HeaderKind::Dlh | HeaderKind::Iih => false,
            _ => true,
        }
    }

    /// Offsets of the `Encoding`, `CodedCharSetId` and `Format` fields.
    pub fn next_offsets(self) -> (r: (usize, usize, usize))
        ensures
            r == (self.spec_encoding_offset(), self.spec_ccsid_offset(), self.spec_format_offset()),
    {
        if self == HeaderKind::Dlh {
            (108, 112, 116)
        } else {
            (12, 16, 20)
        }
    }

    /// The ASCII format name that announces the header.
    pub fn fmt_ascii(self) -> (r: Fmt)
        ensures
            r@ == self.spec_fmt_ascii(),
    {
        let r: Fmt = match self {
            HeaderKind::Dlh => [0x4Du8, 0x51, 0x44, 0x45, 0x41, 0x44, 0x20, 0x20],
            HeaderKind::Dh => [0x4Du8, 0x51, 0x48, 0x44, 0x49, 0x53, 0x54, 0x20],
            HeaderKind::Iih => [0x4Du8, 0x51, 0x49, 0x4D, 0x53, 0x20, 0x20, 0x20],
            HeaderKind::Rfh2 => [0x4Du8, 0x51, 0x48, 0x52, 0x46, 0x32, 0x20, 0x20],
            HeaderKind::Rfh => [0x4Du8, 0x51, 0x48, 0x52, 0x46, 0x20, 0x20, 0x20],
            HeaderKind::Cih => [0x4Du8, 0x51, 0x43, 0x49, 0x43, 0x53, 0x20, 0x20],
        };
        assert(r@ =~= self.spec_fmt_ascii());
        r
    }

    /// The ASCII structure identifier of the header.
    pub fn struc_id_ascii(self) -> (r: StrucId)
        ensures
            r@ == self.spec_struc_id_ascii(),
    {
        let r: StrucId = match self {
            HeaderKind::Dlh => [0x44u8, 0x4C, 0x48, 0x20],
            HeaderKind::Dh => [0x44u8, 0x48, 0x20, 0x20],
            HeaderKind::Iih => [0x49u8, 0x49, 0x48, 0x20],
            HeaderKind::Rfh2 => [0x52u8, 0x46, 0x48, 0x20],
            HeaderKind::Rfh => [0x52u8, 0x46, 0x48, 0x20],
            HeaderKind::Cih => [0x43u8, 0x49, 0x48, 0x20],
        };
        assert(r@ =~= self.spec_struc_id_ascii());
        r
    }

    /// Check the length in the `StrucLength` field.
    pub fn validate_length(self, length: i32) -> (r: Result<(), HeaderError>)
        ensures
            r is Ok <==> self.spec_valid_length(length),
            r is Err ==> r == Err::<(), HeaderError>(HeaderError::MalformedLength(length)),
    {
        let ok = if self == HeaderKind::Rfh2 {
            length == 36 || length >= 40
        } else {
            length >= self.struc_len() as i32
        };
        if ok {
            Ok(())
        } else {
            Err(HeaderError::MalformedLength(length))
        }
    }

    /// The format name announces this header: an ASCII name equals the ASCII format name, an
    /// EBCDIC name equals its EBCDIC translation.
    pub open spec fn spec_fmt_matches(self, fmt: TextEnc<Fmt>) -> bool {
        match fmt {
            TextEnc::Ascii(f) => f@ == self.spec_fmt_ascii(),
            TextEnc::Ebcdic(f) => f@ == self.spec_fmt_ascii().map_values(|b: u8| spec_ascii7_ebcdic(b)),
        }
    }

    /// The format name announces this header.
    pub fn fmt_matches(self, fmt: TextEnc<Fmt>) -> (r: bool)
        ensures
            r == self.spec_fmt_matches(fmt),
    {
        let ascii = self.fmt_ascii();
        match fmt {
            TextEnc::Ascii(f) => crate::mqstr::bytes_eq(f.as_slice(), ascii.as_slice()),
            TextEnc::Ebcdic(f) => {
                let ebcdic = fmt_ascii7_ebcdic(ascii);
                crate::mqstr::bytes_eq(f.as_slice(), ebcdic.as_slice())
            },
        }
    }
}

/// Decode a 32-bit integer from four bytes, little endian when `reversed`, big endian otherwise.
pub open spec fn spec_decode_long(b: Seq<u8>, off: int, reversed: bool) -> i32 {
    if reversed {
        (b[off] + 256 * b[off + 1] + 65536 * b[off + 2] + 16777216 * b[off + 3]) as i32
    } else {
        (b[off + 3] + 256 * b[off + 2] + 65536 * b[off + 1] + 16777216 * b[off]) as i32
    }
}

/// Integers in data with this encoding are stored with the reversed (little endian) byte order.
pub open spec fn spec_reversed(encoding: i32) -> bool {
    encoding & MQENC_INTEGER_REVERSED != 0
}

/// Decode the 32-bit integer at `off` of `data`.
pub fn decode_long(data: &[u8], off: usize, reversed: bool) -> (r: i32)
    requires
        off + 4 <= data@.len(),
    ensures
        r == spec_decode_long(data@, off as int, reversed),
{
    let b0 = data[off] as u32;
    let b1 = data[off + 1] as u32;
    let b2 = data[off + 2] as u32;
    let b3 = data[off + 3] as u32;
    if reversed {
        let v: u32 = b0 + 256 * b1 + 65536 * b2 + 16777216 * b3;
        v as i32
    } else {
        let v: u32 = b3 + 256 * b2 + 65536 * b1 + 16777216 * b0;
        v as i32
    }
}

/// A message header found in message data, with the character set and encoding of the data
/// it was found in.
#[derive(Debug, Clone, Copy)]
pub struct EncodedHeader<'a> {
    pub kind: HeaderKind,
    pub ccsid: i32,
    pub encoding: i32,
    /// The bytes of the fixed structure.
    pub raw_header: &'a [u8],
    /// The bytes that follow the fixed structure, up to the header's total length.
    pub tail: &'a [u8],
}

/// A message header of one of the chained kinds.
#[derive(Debug, Clone, Copy)]
pub enum Header<'a> {
    Dlh(EncodedHeader<'a>),
    Dh(EncodedHeader<'a>),
    Iih(EncodedHeader<'a>),
    Rfh2(EncodedHeader<'a>),
    Rfh(EncodedHeader<'a>),
    Cih(EncodedHeader<'a>),
}

impl<'a> Header<'a> {
    /// The encoded header this header holds.
    pub open spec fn spec_encoded(self) -> EncodedHeader<'a> {
        match self {
            Header::Dlh(h) => h,
            Header::Dh(h) => h,
            Header::Iih(h) => h,
            Header::Rfh2(h) => h,
            Header::Rfh(h) => h,
            Header::Cih(h) => h,
        }
    }

    /// The kind of header, by variant.
    pub open spec fn spec_kind(self) -> HeaderKind {
        match self {
            Header::Dlh(_) => HeaderKind::Dlh,
            Header::Dh(_) => HeaderKind::Dh,
            Header::Iih(_) => HeaderKind::Iih,
            Header::Rfh2(_) => HeaderKind::Rfh2,
            Header::Rfh(_) => HeaderKind::Rfh,
            Header::Cih(_) => HeaderKind::Cih,
        }
    }

    /// The header of the given kind.
    pub fn from_encoded(encoded: EncodedHeader<'a>) -> (h: Self)
        ensures
            h.spec_encoded() == encoded,
            h.spec_kind() == encoded.kind,
    {
        match encoded.kind {
            HeaderKind::Dlh => Header::Dlh(encoded),
            HeaderKind::Dh => Header::Dh(encoded),
            HeaderKind::Iih => Header::Iih(encoded),
            HeaderKind::Rfh2 => Header::Rfh2(encoded),
            HeaderKind::Rfh => Header::Rfh(encoded),
            HeaderKind::Cih => Header::Cih(encoded),
        }
    }

    /// The encoded header.
    pub fn encoded(&self) -> (e: &EncodedHeader<'a>)
        ensures
            *e == self.spec_encoded(),
    {
        match self {
            Header::Dlh(h) => h,
            Header::Dh(h) => h,
            Header::Iih(h) => h,
            Header::Rfh2(h) => h,
            Header::Rfh(h) => h,
            Header::Cih(h) => h,
        }
    }

    /// The kind of header.
    pub fn kind(&self) -> (k: HeaderKind)
        ensures
            k == self.spec_kind(),
    {
        match self {
            Header::Dlh(_) => HeaderKind::Dlh,
            Header::Dh(_) => HeaderKind::Dh,
            Header::Iih(_) => HeaderKind::Iih,
            Header::Rfh2(_) => HeaderKind::Rfh2,
            Header::Rfh(_) => HeaderKind::Rfh,
            Header::Cih(_) => HeaderKind::Cih,
        }
    }

    /// An iterator over the chain of headers at the start of `data` in format `format`.
    pub fn iter(data: &'a [u8], format: MessageFormat) -> (it: HeaderIter<'a>)
        ensures
            it.format == format,
            it.data == data,
            !it.in_error,
    {
        HeaderIter { format, data, in_error: false }
    }
}

/// The raw integer field at `off` of a header, decoded with the data's encoding.
pub open spec fn spec_field(raw: Seq<u8>, off: int, encoding: i32) -> i32 {
    spec_decode_long(raw, off, spec_reversed(encoding))
}

/// The character set of the data that follows a header; a zero field inherits the header's
/// own character set.
pub open spec fn spec_next_ccsid(kind: HeaderKind, raw: Seq<u8>, ccsid: i32, encoding: i32) -> i32 {
    let c = spec_field(raw, kind.spec_ccsid_offset() as int, encoding);
    if c == 0 {
        ccsid
    } else {
        c
    }
}

/// The encoding of the data that follows a header; a zero field inherits the header's own
/// encoding.
pub open spec fn spec_next_encoding(kind: HeaderKind, raw: Seq<u8>, encoding: i32) -> i32 {
    let e = spec_field(raw, kind.spec_encoding_offset() as int, encoding);
    if e == 0 {
        encoding
    } else {
        e
    }
}

/// The raw format name of the data that follows a header.
pub open spec fn spec_raw_format(kind: HeaderKind, raw: Seq<u8>) -> Seq<u8> {
    raw.subrange(kind.spec_format_offset() as int, kind.spec_format_offset() + 8)
}

/// `f` is the name `name`, marked EBCDIC exactly when `ebcdic`.
pub open spec fn spec_format_is(f: TextEnc<Fmt>, ebcdic: bool, name: Seq<u8>) -> bool {
    match f {
        TextEnc::Ascii(n) => !ebcdic && n@ == name,
        TextEnc::Ebcdic(n) => ebcdic && n@ == name,
    }
}

/// The character set is a known EBCDIC character set.
pub open spec fn spec_ebcdic(ccsid: i32) -> bool {
    spec_is_ebcdic(ccsid) == Some(true)
}

/// The total length of a header: its `StrucLength` field when the kind has one.
pub open spec fn spec_header_len(kind: HeaderKind, raw: Seq<u8>, encoding: i32) -> Result<usize, HeaderError> {
    if kind.spec_has_length() {
        let ln = spec_field(raw, 8, encoding);
        if kind.spec_valid_length(ln) {
            Ok(ln as usize)
        } else {
            Err(HeaderError::MalformedLength(ln))
        }
    } else {
        Ok(kind.spec_struc_len())
    }
}

/// The structure identifier and version of a header match its kind, in the character set
/// family of the data.
pub open spec fn spec_struc_matches(kind: HeaderKind, raw: Seq<u8>, ccsid: i32, encoding: i32) -> bool {
    &&& spec_field(raw, 4, encoding) == kind.spec_version()
    &&& if spec_ebcdic(ccsid) {
        raw.take(4) == kind.spec_struc_id_ascii().map_values(|b: u8| spec_ascii7_ebcdic(b))
    } else {
        raw.take(4) == kind.spec_struc_id_ascii()
    }
}

impl<'a> EncodedHeader<'a> {
    /// The header's raw bytes hold the fixed structure of its kind.
    pub open spec fn wf(self) -> bool {
        self.raw_header@.len() == self.kind.spec_struc_len()
    }

    /// The integers of the header are in reversed byte order.
    pub open spec fn spec_native(self) -> bool {
        spec_reversed(self.encoding)
    }

    /// Decode the integer at `off` of the header with the header's encoding.
    fn native_mqlong(&self, off: usize) -> (r: i32)
        requires
            self.wf(),
            off + 4 <= self.kind.spec_struc_len(),
        ensures
            r == spec_field(self.raw_header@, off as int, self.encoding),
    {
        decode_long(self.raw_header, off, (self.encoding & MQENC_INTEGER_REVERSED) != 0)
    }

    /// The character set of the data that follows the header; a zero field inherits the
    /// header's own character set.
    pub fn next_ccsid(&self) -> (r: i32)
        requires
            self.wf(),
        ensures
            r == spec_next_ccsid(self.kind, self.raw_header@, self.ccsid, self.encoding),
    {
        let (_, ccsid_off, _) = self.kind.next_offsets();
        let c = self.native_mqlong(ccsid_off);
        if c == 0 {
            self.ccsid
        } else {
            c
        }
    }

    /// The encoding of the data that follows the header; a zero field inherits the header's
    /// own encoding.
    pub fn next_encoding(&self) -> (r: i32)
        requires
            self.wf(),
        ensures
            r == spec_next_encoding(self.kind, self.raw_header@, self.encoding),
    {
        let (enc_off, _, _) = self.kind.next_offsets();
        let e = self.native_mqlong(enc_off);
        if e == 0 {
            self.encoding
        } else {
            e
        }
    }

    /// The format name of the data that follows the header, in the character set family of
    /// the header's data.
    pub fn next_format(&self) -> (r: TextEnc<Fmt>)
        requires
            self.wf(),
            self.ccsid >= 0,
        ensures
            spec_format_is(r, spec_ebcdic(self.ccsid), spec_raw_format(self.kind, self.raw_header@)),
    {
        let (_, _, fmt_off) = self.kind.next_offsets();
        let mut f: Fmt = [0u8; 8];
        let mut i: usize = 0;
        while i < 8
            invariant
                i <= 8,
                f@.len() == 8,
                fmt_off == self.kind.spec_format_offset(),
                self.wf(),
                forall|j: int| 0 <= j < i ==> #[trigger] f@[j] == self.raw_header@[fmt_off + j],
            decreases 8 - i,
        {
            f[i] = self.raw_header[fmt_off + i];
            i = i + 1;
        }
        assert(f@ =~= spec_raw_format(self.kind, self.raw_header@));
        match is_ebcdic(self.ccsid) {
            Some(true) => TextEnc::Ebcdic(f),
            _ => TextEnc::Ascii(f),
        }
    }

    /// The total length of the header, checked against the header kind.
    pub fn len(&self) -> (r: Result<usize, HeaderError>)
        requires
            self.wf(),
        ensures
            r == spec_header_len(self.kind, self.raw_header@, self.encoding),
    {
        if self.kind.has_length() {
            let ln = self.native_mqlong(8);
            match self.kind.validate_length(ln) {
                Ok(()) => Ok(ln as usize),
                Err(e) => Err(e),
            }
        } else {
            Ok(self.kind.struc_len())
        }
    }

    /// The structure identifier and version match the header kind, in the family of the
    /// header's character set.
    fn struc_matches(&self) -> (r: bool)
        requires
            self.wf(),
            self.ccsid >= 0,
        ensures
            r == spec_struc_matches(self.kind, self.raw_header@, self.ccsid, self.encoding),
    {
        let version = self.native_mqlong(4);
        if version != self.kind.version() {
            return false;
        }
        let ascii = self.kind.struc_id_ascii();
        let ebcdic = match is_ebcdic(self.ccsid) {
            Some(e) => e,
            None => false,
        };
        let head = vstd::slice::slice_subrange(self.raw_header, 0, 4);
        if ebcdic {
            let expected = crate::encoding::ascii7_ebcdic(ascii.as_slice());
            crate::mqstr::bytes_eq(head, expected.as_slice())
        } else {
            crate::mqstr::bytes_eq(head, ascii.as_slice())
        }
    }

    /// The structure identifier of the header.
    pub fn raw_struc_id(&self) -> (r: StrucId)
        requires
            self.wf(),
        ensures
            r@ == self.raw_header@.take(4),
    {
        struc_id_of(self.raw_header)
    }

    /// The name/value data of a rules and formatting header: for `MQRFH2`, the tail after its
    /// four byte length prefix in the `NameValueCCSID` character set; for `MQRFH`, the whole
    /// tail in the header's character set.
    pub fn name_value_data(&self) -> (r: StringCcsid<&'a [u8]>)
        requires
            self.wf(),
            self.kind == HeaderKind::Rfh2 || self.kind == HeaderKind::Rfh,
            self.kind == HeaderKind::Rfh2 ==> self.tail@.len() >= 4,
        ensures
            r.le == self.spec_native(),
            self.kind == HeaderKind::Rfh2 ==> r.data@ == self.tail@.skip(4) && r.ccsid == (
            if spec_field(self.raw_header@, 32, self.encoding) == 0 {
                None
            } else {
                Some(spec_field(self.raw_header@, 32, self.encoding))
            }),
            self.kind == HeaderKind::Rfh ==> r.data@ == self.tail@ && r.ccsid == (if self.ccsid
                == 0 {
                None
            } else {
                Some(self.ccsid)
            }),
    {
        let le = (self.encoding & MQENC_INTEGER_REVERSED) != 0;
        if self.kind == HeaderKind::Rfh2 {
            let nv = self.native_mqlong(32);
            let data = vstd::slice::slice_subrange(self.tail, 4, self.tail.len());
            StringCcsid::new(data, if nv == 0 { None } else { Some(nv) }, le)
        } else {
            StringCcsid::new(self.tail, if self.ccsid == 0 { None } else { Some(self.ccsid) }, le)
        }
    }

    /// The header, when it is of the given kind.
    pub fn from_header(kind: HeaderKind, header: Header<'a>) -> (r: Option<EncodedHeader<'a>>)
        ensures
            r is Some <==> header.spec_kind() == kind,
            r matches Some(e) ==> e == header.spec_encoded(),
    {
        if header.kind() == kind {
            Some(*header.encoded())
        } else {
            None
        }
    }
}

/// The first four bytes of the data.
fn struc_id_of(data: &[u8]) -> (r: StrucId)
    requires
        data@.len() >= 4,
    ensures
        r@ == data@.take(4),
{
    let mut r: StrucId = [0u8; 4];
    let mut i: usize = 0;
    while i < 4
        invariant
            i <= 4,
            r@.len() == 4,
            data@.len() >= 4,
            forall|j: int| 0 <= j < i ==> #[trigger] r@[j] == data@[j],
        decreases 4 - i,
    {
        r[i] = data[i];
        i = i + 1;
    }
    assert(r@ =~= data@.take(4));
    r
}

/// The result of parsing one header: the header, the data after it, its total length and the
/// format of the data after it.
pub type NextHeader<'a> = (Header<'a>, &'a [u8], usize, MessageFormat);

/// What parsing a header of `kind` at the start of `data` gives: its total length, or the
/// error.
pub open spec fn spec_parse_header(kind: HeaderKind, data: Seq<u8>, ccsid: i32, encoding: i32) -> Result<usize, HeaderError> {
    let struc_len = kind.spec_struc_len();
    if struc_len > data.len() {
        Err(HeaderError::DataTruncated(struc_len, data.len() as usize))
    } else {
        let raw = data.take(struc_len as int);
        if !spec_struc_matches(kind, raw, ccsid, encoding) {
            Err(HeaderError::UnexpectedStruc(spec_struc_id_array(data)))
        } else {
            match spec_header_len(kind, raw, encoding) {
                Err(e) => Err(e),
                Ok(total) => if total > data.len() || total < struc_len {
                    Err(HeaderError::StrucLengthOffsetMismatch(total, struc_len, data.len() as usize))
                } else {
                    Ok(total)
                },
            }
        }
    }
}

/// A four byte array holding the first four bytes of `data`.
pub open spec fn spec_struc_id_array(data: Seq<u8>) -> StrucId {
    [data[0], data[1], data[2], data[3]]
}


/// The character set, encoding, family and name of a message format.
pub struct FormatView {
    pub ccsid: i32,
    pub encoding: i32,
    pub ebcdic: bool,
    pub name: Seq<u8>,
}

impl View for MessageFormat {
    type V = FormatView;

    open spec fn view(&self) -> FormatView {
        match self.fmt {
            TextEnc::Ascii(n) => FormatView {
                ccsid: self.ccsid,
                encoding: self.encoding,
                ebcdic: false,
                name: n@,
            },
            TextEnc::Ebcdic(n) => FormatView {
                ccsid: self.ccsid,
                encoding: self.encoding,
                ebcdic: true,
                name: n@,
            },
        }
    }
}

/// The format announces a header of `kind`.
pub open spec fn spec_announces(kind: HeaderKind, f: FormatView) -> bool {
    if f.ebcdic {
        f.name == kind.spec_fmt_ascii().map_values(|b: u8| spec_ascii7_ebcdic(b))
    } else {
        f.name == kind.spec_fmt_ascii()
    }
}

/// The kind of header the format announces. Header kinds are tried in the order `MQRFH2`,
/// `MQRFH`, `MQIIH`, `MQCIH`, `MQDLH`, `MQDH`.
pub open spec fn spec_kind_for(f: FormatView) -> Option<HeaderKind> {
    if spec_announces(HeaderKind::Rfh2, f) {
        Some(HeaderKind::Rfh2)
    } else if spec_announces(HeaderKind::Rfh, f) {
        Some(HeaderKind::Rfh)
    } else if spec_announces(HeaderKind::Iih, f) {
        Some(HeaderKind::Iih)
    } else if spec_announces(HeaderKind::Cih, f) {
        Some(HeaderKind::Cih)
    } else if spec_announces(HeaderKind::Dlh, f) {
        Some(HeaderKind::Dlh)
    } else if spec_announces(HeaderKind::Dh, f) {
        Some(HeaderKind::Dh)
    } else {
        None
    }
}

/// The format of the data that follows a header of `kind` whose fixed structure is `raw`,
/// found in data of format `f`.
pub open spec fn spec_next_format(kind: HeaderKind, raw: Seq<u8>, f: FormatView) -> FormatView {
    FormatView {
        ccsid: spec_next_ccsid(kind, raw, f.ccsid, f.encoding),
        encoding: spec_next_encoding(kind, raw, f.encoding),
        ebcdic: spec_ebcdic(f.ccsid),
        name: spec_raw_format(kind, raw),
    }
}

/// A successful parse of a header of `kind` at the start of `data` in format `f`: the
/// header's fields, the data after it, its total length and the format after it.
pub open spec fn spec_parsed<'a>(
    kind: HeaderKind,
    data: Seq<u8>,
    f: FormatView,
    h: Header<'a>,
    next: Seq<u8>,
    total: usize,
    next_fmt: MessageFormat,
) -> bool {
    let e = h.spec_encoded();
    &&& spec_parse_header(kind, data, f.ccsid, f.encoding) == Ok::<usize, HeaderError>(total)
    &&& h.spec_kind() == kind
    &&& e.kind == kind
    &&& e.ccsid == f.ccsid
    &&& e.encoding == f.encoding
    &&& e.raw_header@ == data.take(kind.spec_struc_len() as int)
    &&& e.tail@ == data.subrange(kind.spec_struc_len() as int, total as int)
    &&& next == data.skip(total as int)
    &&& next_fmt@ == spec_next_format(kind, data.take(kind.spec_struc_len() as int), f)
}

/// Parse a header of `kind` at the start of `data`, in the character set `ccsid` and encoding
/// `encoding`.
pub fn parse_header<'a>(kind: HeaderKind, data: &'a [u8], f: &MessageFormat) -> (r: Result<NextHeader<'a>, HeaderError>)
    requires
        f.ccsid >= 0,
    ensures
        r is Ok <==> spec_parse_header(kind, data@, f.ccsid, f.encoding) is Ok,
        r matches Err(e) ==> spec_parse_header(kind, data@, f.ccsid, f.encoding) == Err::<usize, HeaderError>(e),
        r matches Ok((h, next, total, next_fmt)) ==> spec_parsed(kind, data@, f@, h, next@, total, next_fmt),
{
    let ccsid = f.ccsid;
    let encoding = f.encoding;
    let struc_len = kind.struc_len();
    if struc_len > data.len() {
        return Err(HeaderError::DataTruncated(struc_len, data.len()));
    }
    let raw = vstd::slice::slice_subrange(data, 0, struc_len);
    let empty = vstd::slice::slice_subrange(data, 0, 0);
    let header = EncodedHeader { kind, ccsid, encoding, raw_header: raw, tail: empty };
    if !header.struc_matches() {
        let id = struc_id_of(data);
        assert(id@ =~= spec_struc_id_array(data@)@);
        assert(id == spec_struc_id_array(data@));
        return Err(HeaderError::UnexpectedStruc(id));
    }
    let total_len = match header.len() {
        Ok(l) => l,
        Err(e) => {
            return Err(e);
        },
    };
    if total_len > data.len() || total_len < struc_len {
        return Err(HeaderError::StrucLengthOffsetMismatch(total_len, struc_len, data.len()));
    }
    let next_data = vstd::slice::slice_subrange(data, total_len, data.len());
    let next_fmt = MessageFormat {
        ccsid: header.next_ccsid(),
        encoding: header.next_encoding(),
        fmt: header.next_format(),
    };
    let tail = vstd::slice::slice_subrange(data, struc_len, total_len);
    let encoded = EncodedHeader { kind, ccsid, encoding, raw_header: raw, tail };
    let h = Header::from_encoded(encoded);
    assert(next_data@ =~= data@.skip(total_len as int));
    Ok((h, next_data, total_len, next_fmt))
}

/// The kind of header the format announces.
pub fn kind_for(f: &MessageFormat) -> (r: Option<HeaderKind>)
    ensures
        r == spec_kind_for(f@),
{
    if HeaderKind::Rfh2.fmt_matches(f.fmt) {
        Some(HeaderKind::Rfh2)
    } else if HeaderKind::Rfh.fmt_matches(f.fmt) {
        Some(HeaderKind::Rfh)
    } else if HeaderKind::Iih.fmt_matches(f.fmt) {
        Some(HeaderKind::Iih)
    } else if HeaderKind::Cih.fmt_matches(f.fmt) {
        Some(HeaderKind::Cih)
    } else if HeaderKind::Dlh.fmt_matches(f.fmt) {
        Some(HeaderKind::Dlh)
    } else if HeaderKind::Dh.fmt_matches(f.fmt) {
        Some(HeaderKind::Dh)
    } else {
        None
    }
}

/// Parse the header announced by the format at the start of `data`: `None` when the format
/// announces no header.
pub fn next_header<'a>(data: &'a [u8], next_format: &MessageFormat) -> (r: Result<Option<NextHeader<'a>>, HeaderError>)
    requires
        spec_kind_for(next_format@) is Some ==> next_format.ccsid >= 0,
    ensures
        spec_kind_for(next_format@) is None ==> r matches Ok(None),
        spec_kind_for(next_format@) matches Some(k) ==> match spec_parse_header(
            k,
            data@,
            next_format.ccsid,
            next_format.encoding,
        ) {
            Err(e) => r == Err::<Option<NextHeader<'a>>, HeaderError>(e),
            Ok(_) => r matches Ok(Some((h, next, total, f))) && spec_parsed(
                k,
                data@,
                next_format@,
                h,
                next@,
                total,
                f,
            ),
        },
{
    match kind_for(next_format) {
        None => Ok(None),
        Some(kind) => match parse_header(kind, data, next_format) {
            Ok(n) => Ok(Some(n)),
            Err(e) => Err(e),
        },
    }
}

/// A header's total length lies between the length of its fixed structure and the length
/// of the data it was found in: each header of a chain consumes data.
pub proof fn law_header_length_within_data(kind: HeaderKind, data: Seq<u8>, ccsid: i32, encoding: i32)
    requires
        spec_parse_header(kind, data, ccsid, encoding) is Ok,
    ensures
        kind.spec_struc_len() <= spec_parse_header(kind, data, ccsid, encoding)->Ok_0 <= data.len(),
        spec_parse_header(kind, data, ccsid, encoding)->Ok_0 > 0,
{
}

/// An item of the header chain: a header, its total length and the format that follows it.
pub type HeaderItem<'a> = Result<(Header<'a>, usize, MessageFormat), HeaderError>;

/// An iterator over the chain of headers at the start of message data. Iteration stops at
/// the first format that announces no header, and after the first error.
pub struct HeaderIter<'a> {
    pub format: MessageFormat,
    pub data: &'a [u8],
    pub in_error: bool,
}

impl<'a> HeaderIter<'a> {
    /// The next step does not read the character set table with a negative character set.
    pub open spec fn spec_step_safe(&self) -> bool {
        !self.in_error && spec_kind_for(self.format@) is Some ==> self.format.ccsid >= 0
    }

    /// The next header of the chain, or `None` at its end or after an error.
    pub fn next(&mut self) -> (r: Option<HeaderItem<'a>>)
        requires
            old(self).spec_step_safe(),
        ensures
            old(self).in_error ==> r is None && *final(self) == *old(self),
            !old(self).in_error && spec_kind_for(old(self).format@) is None ==> r is None
                && *final(self) == *old(self),
            !old(self).in_error ==> (spec_kind_for(old(self).format@) matches Some(k) ==> match spec_parse_header(
                k,
                old(self).data@,
                old(self).format.ccsid,
                old(self).format.encoding,
            ) {
                Err(e) => r == Some(Err::<(Header<'a>, usize, MessageFormat), HeaderError>(e))
                    && final(self).in_error && final(self).data == old(self).data
                    && final(self).format == old(self).format,
                Ok(_) => r matches Some(Ok((h, len, f))) && spec_parsed(
                    k,
                    old(self).data@,
                    old(self).format@,
                    h,
                    final(self).data@,
                    len,
                    f,
                ) && final(self).format == f && !final(self).in_error,
            }),
    {
        if self.in_error {
            return None;
        }
        match next_header(self.data, &self.format) {
            Ok(None) => None,
            Ok(Some((header, data, length, format))) => {
                self.data = data;
                self.format = format;
                Some(Ok((header, length, format)))
            },
            Err(error) => {
                self.in_error = true;
                Some(Err(error))
            },
        }
    }
}


/// The chain of headers at the start of message data: their kinds, total lengths, offsets in
/// the data and the formats they are read in, the sum of the lengths, the format of the data
/// after the last header, the error that ended the chain, and whether each step reads the
/// character set table with a non-negative character set (`safe`).
pub struct ChainView {
    pub kinds: Seq<HeaderKind>,
    pub lengths: Seq<usize>,
    pub starts: Seq<int>,
    pub fmts: Seq<FormatView>,
    pub total: int,
    pub final_fmt: FormatView,
    pub error: Option<HeaderError>,
    pub safe: bool,
}

/// The chain of headers at the start of `data` in format `f`: headers follow each other as
/// long as the format after each announces another one, and the chain ends at the first error.
pub open spec fn spec_chain(data: Seq<u8>, f: FormatView) -> ChainView
    decreases data.len(),
{
    match spec_kind_for(f) {
        None => ChainView {
            kinds: Seq::empty(),
            lengths: Seq::empty(),
            starts: Seq::empty(),
            fmts: Seq::empty(),
            total: 0,
            final_fmt: f,
            error: None,
            safe: true,
        },
        Some(k) => if f.ccsid < 0 {
            ChainView {
                kinds: Seq::empty(),
                lengths: Seq::empty(),
                starts: Seq::empty(),
                fmts: Seq::empty(),
                total: 0,
                final_fmt: f,
                error: None,
                safe: false,
            }
        } else {
            match spec_parse_header(k, data, f.ccsid, f.encoding) {
                Err(e) => ChainView {
                    kinds: Seq::empty(),
                    lengths: Seq::empty(),
                    starts: Seq::empty(),
                    fmts: Seq::empty(),
                    total: 0,
                    final_fmt: f,
                    error: Some(e),
                    safe: true,
                },
                Ok(t) => {
                    let rest = spec_chain(
                        data.skip(t as int),
                        spec_next_format(k, data.take(k.spec_struc_len() as int), f),
                    );
                    ChainView {
                        kinds: seq![k] + rest.kinds,
                        lengths: seq![t] + rest.lengths,
                        starts: seq![0int] + rest.starts.map_values(|o: int| o + t),
                        fmts: seq![f] + rest.fmts,
                        total: t + rest.total,
                        final_fmt: rest.final_fmt,
                        error: rest.error,
                        safe: rest.safe,
                    }
                },
            }
        },
    }
}

/// The encoded header `e` is the one of kind `kind` that starts at `start` in `data`, is
/// `len` bytes long and is read in the format `f`: its fixed structure and tail are those
/// bytes, with the CCSID and encoding of the format.
pub open spec fn spec_encoded_at<'a>(e: EncodedHeader<'a>, data: Seq<u8>, start: int, len: int, kind: HeaderKind, f: FormatView) -> bool {
    &&& e.kind == kind
    &&& e.ccsid == f.ccsid
    &&& e.encoding == f.encoding
    &&& e.raw_header@ == data.subrange(start, start + kind.spec_struc_len())
    &&& e.tail@ == data.subrange(start + kind.spec_struc_len(), start + len)
}

/// The header `h` is the one of kind `kind` that starts at `start` in `data`, is `len` bytes
/// long and is read in the format `f`.
pub open spec fn spec_header_at<'a>(h: Header<'a>, data: Seq<u8>, start: int, len: int, kind: HeaderKind, f: FormatView) -> bool {
    h.spec_kind() == kind && spec_encoded_at(h.spec_encoded(), data, start, len, kind, f)
}

/// The places, in order, of the headers of kind `kind` among `kinds`.
pub open spec fn spec_positions(kinds: Seq<HeaderKind>, kind: HeaderKind) -> Seq<int>
    decreases kinds.len(),
{
    if kinds.len() == 0 {
        Seq::empty()
    } else {
        let p = spec_positions(kinds.drop_last(), kind);
        if kinds.last() == kind {
            p.push(kinds.len() - 1)
        } else {
            p
        }
    }
}

/// The places among `spec_positions(kinds, kind)` are places of `kinds` that hold `kind`,
/// no more of them than `kinds` has.
pub(crate) proof fn lemma_positions_of_kind(kinds: Seq<HeaderKind>, kind: HeaderKind)
    ensures
        spec_positions(kinds, kind).len() <= kinds.len(),
        forall|q: int|
            0 <= q < spec_positions(kinds, kind).len() ==> 0 <= #[trigger] spec_positions(kinds, kind)[q]
                < kinds.len() && kinds[spec_positions(kinds, kind)[q]] == kind,
    decreases kinds.len(),
{
    if kinds.len() > 0 {
        lemma_positions_of_kind(kinds.drop_last(), kind);
    }
}

/// The error of a chain is where the chain stops: the data after the chain's headers, read
/// in the format that follows them, fails to parse with that error.
pub proof fn law_chain_error_at_end(data: Seq<u8>, f: FormatView)
    ensures
        spec_chain(data, f).error matches Some(e) ==> (spec_kind_for(spec_chain(data, f).final_fmt) matches Some(
            k,
        ) && spec_parse_header(
            k,
            data.skip(spec_chain(data, f).total),
            spec_chain(data, f).final_fmt.ccsid,
            spec_chain(data, f).final_fmt.encoding,
        ) == Err::<usize, HeaderError>(e)),
    decreases data.len(),
{
    match spec_kind_for(f) {
        None => {},
        Some(k) => if f.ccsid >= 0 {
            match spec_parse_header(k, data, f.ccsid, f.encoding) {
                Err(e) => {
                    assert(data.skip(0) =~= data);
                },
                Ok(t) => {
                    law_header_length_within_data(k, data, f.ccsid, f.encoding);
                    let rest_data = data.skip(t as int);
                    let nf = spec_next_format(k, data.take(k.spec_struc_len() as int), f);
                    law_chain_error_at_end(rest_data, nf);
                    law_chain_within_data(rest_data, nf);
                    assert(rest_data.skip(spec_chain(rest_data, nf).total) =~= data.skip(
                        t + spec_chain(rest_data, nf).total,
                    ));
                },
            }
        },
    }
}

/// The headers of a chain take no more than the data they were found in.
pub proof fn law_chain_within_data(data: Seq<u8>, f: FormatView)
    ensures
        0 <= spec_chain(data, f).total <= data.len(),
        spec_chain(data, f).kinds.len() == spec_chain(data, f).lengths.len(),
        spec_chain(data, f).kinds.len() == spec_chain(data, f).starts.len(),
        spec_chain(data, f).kinds.len() == spec_chain(data, f).fmts.len(),
    decreases data.len(),
{
    match spec_kind_for(f) {
        None => {},
        Some(k) => if f.ccsid >= 0 {
            match spec_parse_header(k, data, f.ccsid, f.encoding) {
                Err(e) => {},
                Ok(t) => {
                    law_chain_within_data(
                        data.skip(t as int),
                        spec_next_format(k, data.take(k.spec_struc_len() as int), f),
                    );
                },
            }
        },
    }
}

/// The data after a header is read in the encoding that the header's `Encoding` field
/// names (at offset 108 of a dead letter header, 12 of the others), the field decoded in the
/// header's own encoding; only a zero field leaves the header's encoding in force. Likewise
/// the `CodedCharSetId` field (offset 112, or 16) names the character set of what follows.
pub proof fn law_next_format_reads_header_fields(kind: HeaderKind, raw: Seq<u8>, f: FormatView)
    ensures
        ({
            let enc_off: int = if kind == HeaderKind::Dlh { 108 } else { 12 };
            let ccsid_off: int = if kind == HeaderKind::Dlh { 112 } else { 16 };
            let e = spec_decode_long(raw, enc_off, spec_reversed(f.encoding));
            let c = spec_decode_long(raw, ccsid_off, spec_reversed(f.encoding));
            let n = spec_next_format(kind, raw, f);
            &&& e != 0 ==> n.encoding == e
            &&& e == 0 ==> n.encoding == f.encoding
            &&& c != 0 ==> n.ccsid == c
            &&& c == 0 ==> n.ccsid == f.ccsid
        }),
{
}

/// A header whose kind carries its total length in `StrucLength` (offset 8) parses with that
/// length whenever it is at least the size of the fixed structure and within the data, so
/// variable data after the fixed structure belongs to the header; an RFH2 header, whose
/// variable data starts with a four byte length, takes 36 or 40 and up. The dead letter and
/// IMS headers, which carry no length, are their fixed size.
pub proof fn law_header_length_accepted(kind: HeaderKind, data: Seq<u8>, ccsid: i32, encoding: i32)
    requires
        kind.spec_struc_len() <= data.len(),
        spec_struc_matches(kind, data.take(kind.spec_struc_len() as int), ccsid, encoding),
    ensures
        ({
            let l = spec_decode_long(data, 8, spec_reversed(encoding));
            kind.spec_has_length() && kind.spec_struc_len() <= l <= data.len() && (kind == HeaderKind::Rfh2
                ==> l == 36 || l >= 40) ==> spec_parse_header(kind, data, ccsid, encoding) == Ok::<
                usize,
                HeaderError,
            >(l as usize)
        }),
        !kind.spec_has_length() ==> spec_parse_header(kind, data, ccsid, encoding) == Ok::<usize, HeaderError>(
            kind.spec_struc_len(),
        ),
        kind == HeaderKind::Dlh || kind == HeaderKind::Iih <==> !kind.spec_has_length(),
{
    let raw = data.take(kind.spec_struc_len() as int);
    assert(spec_decode_long(raw, 8, spec_reversed(encoding)) == spec_decode_long(data, 8, spec_reversed(encoding)));
}

/// A header that carries its length refuses a `StrucLength` shorter than its fixed
/// structure, and an RFH2 header also refuses 37 to 39, which cut into the length of its
/// name/value data.
pub proof fn law_header_length_refused(kind: HeaderKind, length: i32)
    requires
        kind.spec_has_length(),
        length < kind.spec_struc_len() || (kind == HeaderKind::Rfh2 && 36 < length < 40),
    ensures
        !kind.spec_valid_length(length),
{
}

/// A step of the header iterator that reads a header reads the first header of the chain:
/// its kind, length, place and format are those of the chain, and the rest of the chain is
/// the chain of the data and format that follow it.
pub proof fn law_iter_step_reads_chain_head<'a>(
    data: Seq<u8>,
    f: FormatView,
    h: Header<'a>,
    next: Seq<u8>,
    total: usize,
    next_fmt: MessageFormat,
)
    requires
        spec_kind_for(f) is Some,
        f.ccsid >= 0,
        spec_parsed(spec_kind_for(f)->Some_0, data, f, h, next, total, next_fmt),
    ensures
        ({
            let c = spec_chain(data, f);
            let r = spec_chain(next, next_fmt@);
            &&& c.kinds == seq![spec_kind_for(f)->Some_0] + r.kinds
            &&& c.lengths == seq![total] + r.lengths
            &&& c.fmts == seq![f] + r.fmts
            &&& spec_header_at(h, data, c.starts[0], c.lengths[0] as int, c.kinds[0], c.fmts[0])
            &&& c.error == r.error
            &&& c.final_fmt == r.final_fmt
            &&& c.safe == r.safe
        }),
{
    let k = spec_kind_for(f)->Some_0;
    let c = spec_chain(data, f);
    assert(data.take(k.spec_struc_len() as int) =~= data.subrange(0, k.spec_struc_len() as int));
    assert(c.starts[0] == 0);
}

/// A step of the header iterator that fails gives the error of the chain, which then has no
/// header.
pub proof fn law_iter_error_is_chain_error(data: Seq<u8>, f: FormatView, e: HeaderError)
    requires
        spec_kind_for(f) is Some,
        f.ccsid >= 0,
        spec_parse_header(spec_kind_for(f)->Some_0, data, f.ccsid, f.encoding) == Err::<usize, HeaderError>(e),
    ensures
        spec_chain(data, f).error == Some(e),
        spec_chain(data, f).kinds.len() == 0,
{
}

/// Whether the chain of headers at the start of `data` in format `f` can be read: no header
/// of it is announced with a negative character set.
pub fn chain_is_safe(data: &[u8], f: &MessageFormat) -> (b: bool)
    ensures
        b == spec_chain(data@, f@).safe,
{
    let mut it = Header::iter(data, *f);
    loop
        invariant
            !it.in_error,
            spec_chain(it.data@, it.format@).safe == spec_chain(data@, f@).safe,
        decreases it.data@.len(),
    {
        match kind_for(&it.format) {
            None => {
                return true;
            },
            Some(_) => {
                if it.format.ccsid < 0 {
                    return false;
                }
            },
        }
        let ghost old_it = it;
        match it.next() {
            None => {
                return true;
            },
            Some(Ok(_)) => {
                proof {
                    let k = spec_kind_for(old_it.format@)->Some_0;
                    law_header_length_within_data(k, old_it.data@, old_it.format.ccsid, old_it.format.encoding);
                }
            },
            Some(Err(_)) => {
                return true;
            },
        }
    }
}

} // verus!
