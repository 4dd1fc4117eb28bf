use vstd::prelude::*;
use vstd::string::StringSliceAdditionalSpecFns;
use vstd::utf8::{encode_utf8, valid_utf8};

use crate::constants::{CCSID_UTF8, MQENC_INTEGER_REVERSED, MQENC_NATIVE};
use crate::mqstr::MqStr;

verus! {

/// Whether integers of the native encoding are little endian (reversed).
pub const NATIVE_IS_LE: bool = (MQENC_NATIVE & MQENC_INTEGER_REVERSED) != 0;

/// Text data tagged with its character set identifier (CCSID) and integer byte order.
#[derive(Debug, Clone, Copy)]
pub struct StringCcsid<T> {
    pub ccsid: Option<i32>,
    pub le: bool,
    pub data: T,
}

/// Borrowed text data with its CCSID.
pub type StrCcsid<'a> = StringCcsid<&'a [u8]>;

/// Owned text data with its CCSID.
pub type StrCcsidOwned = StringCcsid<Vec<u8>>;

impl<T> StringCcsid<T> {
    /// Text data with its character set and byte order.
    pub fn new(data: T, ccsid: Option<i32>, le: bool) -> (s: Self)
        ensures
            s.data == data,
            s.ccsid == ccsid,
            s.le == le,
    {
        StringCcsid { ccsid, le, data }
    }
}

/// The text was not tagged with the UTF-8 CCSID.
#[derive(Debug, Clone)]
pub struct CcsidError {
    pub str: StrCcsidOwned,
}

#[verifier::external_type_specification]
#[verifier::external_body]
pub struct ExUtf8Error(std::str::Utf8Error);

/// Why text data could not be read as a Rust string.
#[derive(Debug)]
pub enum FromStringCcsidError {
    /// The CCSID is not UTF-8.
    NonUtf8Ccsid(CcsidError),
    /// The bytes are not valid UTF-8.
    Utf8Convert(std::str::Utf8Error),
}

/// Read bytes as UTF-8 text (`std::str::from_utf8`): it succeeds exactly when the bytes are
/// valid UTF-8, and then the text is made of those very bytes.
#[verifier::external_body]
pub(crate) fn str_from_utf8(bytes: &[u8]) -> (r: Result<&str, std::str::Utf8Error>)
    ensures
        r is Ok <==> valid_utf8(bytes@),
        r matches Ok(s) ==> s.spec_bytes() == bytes@,
{
    std::str::from_utf8(bytes)
}

/// The text `String::from_utf8_lossy` makes of some bytes: invalid sequences become
/// replacement characters.
pub uninterp spec fn utf8_lossy(bytes: Seq<u8>) -> Seq<char>;

/// Bytes as text with invalid sequences replaced (`String::from_utf8_lossy`, owned). The text
/// is what `utf8_lossy` names; as the documentation says, valid UTF-8 is taken as it is.
#[verifier::external_body]
pub(crate) fn string_from_utf8_lossy(bytes: &[u8]) -> (s: String)
    ensures
        s@ == utf8_lossy(bytes@),
        valid_utf8(bytes@) ==> encode_utf8(s@) == bytes@,
{
    String::from_utf8_lossy(bytes).into_owned()
}

/// A copy of bytes, with the same contents.
pub(crate) fn bytes_to_vec(bytes: &[u8]) -> (v: Vec<u8>)
    ensures
        v@ == bytes@,
{
    let mut v: Vec<u8> = Vec::new();
    let mut i: usize = 0;
    while i < bytes.len()
        invariant
            i <= bytes@.len(),
            v@ == bytes@.take(i as int),
        decreases bytes@.len() - i,
    {
        v.push(bytes[i]);
        assert(bytes@.take(i + 1) =~= bytes@.take(i as int).push(bytes@[i as int]));
        i = i + 1;
    }
    assert(bytes@.take(bytes@.len() as int) =~= bytes@);
    v
}

impl StringCcsid<Vec<u8>> {
    /// Owned text data in the native byte order.
    pub fn from_vec(data: Vec<u8>, ccsid: Option<i32>) -> (s: Self)
        ensures
            s.data@ == data@,
            s.ccsid == ccsid,
            s.le == NATIVE_IS_LE,
    {
        StringCcsid { ccsid, le: NATIVE_IS_LE, data }
    }

    /// An owned UTF-8 copy of a string.
    pub fn from_str_owned(value: &str) -> (s: Self)
        ensures
            s.data@ == value.spec_bytes(),
            s.ccsid == Some(CCSID_UTF8),
            s.le == NATIVE_IS_LE,
    {
        StringCcsid { ccsid: Some(CCSID_UTF8), le: NATIVE_IS_LE, data: bytes_to_vec(value.as_bytes()) }
    }

    /// The data as a Rust string: refused when the CCSID is not UTF-8 or the bytes are not
    /// valid UTF-8.
    pub fn try_into_string(self) -> (r: Result<String, FromStringCcsidError>)
        ensures
            self.ccsid != Some(CCSID_UTF8) ==> (r matches Err(FromStringCcsidError::NonUtf8Ccsid(e))
                && e.str.ccsid == self.ccsid && e.str.data@ == self.data@ && e.str.le == NATIVE_IS_LE),
            self.ccsid == Some(CCSID_UTF8) && !valid_utf8(self.data@) ==> r matches Err(
                FromStringCcsidError::Utf8Convert(_),
            ),
            self.ccsid == Some(CCSID_UTF8) && valid_utf8(self.data@) ==> (r matches Ok(s)
                && encode_utf8(s@) == self.data@),
    {
        if self.ccsid != Some(CCSID_UTF8) {
            return Err(
                FromStringCcsidError::NonUtf8Ccsid(
                    CcsidError { str: StringCcsid { ccsid: self.ccsid, data: self.data, le: NATIVE_IS_LE } },
                ),
            );
        }
        match str_from_utf8(self.data.as_slice()) {
            Ok(s) => Ok(s.to_owned()),
            Err(e) => Err(FromStringCcsidError::Utf8Convert(e)),
        }
    }
}

impl<'a> StringCcsid<&'a [u8]> {
    /// A UTF-8 view of a string's bytes.
    pub fn from_str(value: &'a str) -> (s: Self)
        ensures
            s.data@ == value.spec_bytes(),
            s.ccsid == Some(CCSID_UTF8),
            s.le == NATIVE_IS_LE,
    {
        StringCcsid { ccsid: Some(CCSID_UTF8), data: value.as_bytes(), le: NATIVE_IS_LE }
    }

    /// The data as a borrowed Rust string: refused when the CCSID is not UTF-8 or the bytes
    /// are not valid UTF-8.
    pub fn try_into_str(self) -> (r: Result<&'a str, FromStringCcsidError>)
        ensures
            self.ccsid != Some(CCSID_UTF8) ==> (r matches Err(FromStringCcsidError::NonUtf8Ccsid(e))
                && e.str.ccsid == self.ccsid && e.str.data@ == self.data@ && e.str.le == NATIVE_IS_LE),
            self.ccsid == Some(CCSID_UTF8) && !valid_utf8(self.data@) ==> r matches Err(
                FromStringCcsidError::Utf8Convert(_),
            ),
            self.ccsid == Some(CCSID_UTF8) && valid_utf8(self.data@) ==> (r matches Ok(s)
                && s.spec_bytes() == self.data@),
    {
        if self.ccsid != Some(CCSID_UTF8) {
            return Err(
                FromStringCcsidError::NonUtf8Ccsid(
                    CcsidError {
                        str: StringCcsid { ccsid: self.ccsid, data: bytes_to_vec(self.data), le: NATIVE_IS_LE },
                    },
                ),
            );
        }
        match str_from_utf8(self.data) {
            Ok(s) => Ok(s),
            Err(e) => Err(FromStringCcsidError::Utf8Convert(e)),
        }
    }
}

/// Text that can be handed to MQ: its bytes and its CCSID.
pub trait EncodedString {
    /// The CCSID of the text, if known.
    spec fn spec_ccsid(&self) -> Option<i32>;

    /// The bytes of the text.
    spec fn spec_data(&self) -> Seq<u8>;

    /// The CCSID of the text, if known.
    fn ccsid(&self) -> (r: Option<i32>)
        ensures
            r == self.spec_ccsid(),
    ;

    /// The bytes of the text.
    fn data(&self) -> (r: &[u8])
        ensures
            r@ == self.spec_data(),
    ;
}

impl EncodedString for str {
    open spec fn spec_ccsid(&self) -> Option<i32> {
        Some(CCSID_UTF8)
    }

    open spec fn spec_data(&self) -> Seq<u8> {
        self.spec_bytes()
    }

    fn ccsid(&self) -> (r: Option<i32>) {
        Some(CCSID_UTF8)
    }

    fn data(&self) -> (r: &[u8]) {
        self.as_bytes()
    }
}

impl<'a> EncodedString for StringCcsid<&'a [u8]> {
    open spec fn spec_ccsid(&self) -> Option<i32> {
        self.ccsid
    }

    open spec fn spec_data(&self) -> Seq<u8> {
        self.data@
    }

    fn ccsid(&self) -> (r: Option<i32>) {
        self.ccsid
    }

    fn data(&self) -> (r: &[u8]) {
        self.data
    }
}

impl EncodedString for StringCcsid<Vec<u8>> {
    open spec fn spec_ccsid(&self) -> Option<i32> {
        self.ccsid
    }

    open spec fn spec_data(&self) -> Seq<u8> {
        self.data@
    }

    fn ccsid(&self) -> (r: Option<i32>) {
        self.ccsid
    }

    fn data(&self) -> (r: &[u8]) {
        self.data.as_slice()
    }
}

impl<const N: usize> EncodedString for MqStr<N> {
    open spec fn spec_ccsid(&self) -> Option<i32> {
        Some(CCSID_UTF8)
    }

    open spec fn spec_data(&self) -> Seq<u8> {
        self.data@
    }

    fn ccsid(&self) -> (r: Option<i32>) {
        Some(CCSID_UTF8)
    }

    fn data(&self) -> (r: &[u8]) {
        self.data.as_slice()
    }
}

} // verus!
