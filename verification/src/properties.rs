use vstd::prelude::*;

use crate::constants::{
    MQCOPY_DEFAULT, MQENC_INTEGER_REVERSED, MQIMPO_VERSION_1, MQPD_NO_CONTEXT,
    MQPD_SUPPORT_OPTIONAL, MQPD_VERSION_1, MQRC_PROP_NAME_NOT_CONVERTED,
    MQRC_PROP_VALUE_NOT_CONVERTED, MQRC_PROPERTY_NAME_TOO_BIG, MQRC_PROPERTY_NOT_AVAILABLE,
    MQRC_PROPERTY_VALUE_TOO_BIG, MQTYPE_BOOLEAN, MQTYPE_BYTE_STRING, MQTYPE_FLOAT32,
    MQTYPE_FLOAT64, MQTYPE_INT16, MQTYPE_INT32, MQTYPE_INT64, MQTYPE_INT8, MQTYPE_NULL,
    MQTYPE_STRING,
};
use crate::strings::{StrCcsidOwned, StringCcsid};
use crate::structs::MqStruct;

verus! {

/// The fields of the property descriptor (`MQPD`).
#[derive(Debug, Clone, Copy, PartialEq, Eq, Structural)]
pub struct Mqpd {
    pub version: i32,
    pub options: i32,
    pub support: i32,
    pub context: i32,
    pub copy_options: i32,
}

impl Mqpd {
    /// The default property descriptor: version 1, optional support, no context, the default
    /// copy options.
    pub fn default_value() -> (r: Self)
        ensures
            r == (Mqpd {
                version: MQPD_VERSION_1,
                options: 0,
                support: MQPD_SUPPORT_OPTIONAL,
                context: MQPD_NO_CONTEXT,
                copy_options: MQCOPY_DEFAULT,
            }),
    {
        Mqpd {
            version: MQPD_VERSION_1,
            options: 0,
            support: MQPD_SUPPORT_OPTIONAL,
            context: MQPD_NO_CONTEXT,
            copy_options: MQCOPY_DEFAULT,
        }
    }
}

/// The fields of the inquire message property options (`MQIMPO`) that inquiring reads: the
/// options, the encoding and CCSID of the returned value, and the length, CCSID and buffer
/// size of the returned name.
#[derive(Debug, Clone, Copy, PartialEq, Eq, Structural)]
pub struct Mqimpo {
    pub version: i32,
    pub options: i32,
    pub returned_encoding: i32,
    pub returned_ccsid: i32,
    pub returned_name_length: i32,
    pub returned_name_ccsid: i32,
    pub returned_name_buf_size: i32,
}

impl Mqimpo {
    /// Inquire message property options with the given options.
    pub fn with_options(options: i32) -> (r: Self)
        ensures
            r == (Mqimpo {
                version: MQIMPO_VERSION_1,
                options,
                returned_encoding: 0,
                returned_ccsid: 0,
                returned_name_length: 0,
                returned_name_ccsid: 0,
                returned_name_buf_size: 0,
            }),
    {
        Mqimpo {
            version: MQIMPO_VERSION_1,
            options,
            returned_encoding: 0,
            returned_ccsid: 0,
            returned_name_length: 0,
            returned_name_ccsid: 0,
            returned_name_buf_size: 0,
        }
    }
}

/// Whether and how the name of a property is returned.
#[derive(Debug, Clone, Copy, PartialEq, Eq, Structural)]
pub enum NameUsage {
    /// The name is not returned.
    Ignored,
    /// The name is returned in a buffer of at most this many bytes.
    MaxLength(usize),
    /// The name is returned whatever its length.
    AnyLength,
}

impl Default for NameUsage {
    fn default() -> (r: Self)
        ensures
            r == NameUsage::Ignored,
    {
        NameUsage::Ignored
    }
}

impl NameUsage {
    /// The largest name the usage allows, if it limits it.
    pub fn max_length(self) -> (r: Option<usize>)
        ensures
            r == (match self {
                NameUsage::MaxLength(n) => Some(n),
                _ => None,
            }),
    {
        match self {
            NameUsage::MaxLength(length) => Some(length),
            _ => None,
        }
    }
}

/// The length, CCSID, encoding and type of a property value.
#[derive(Debug, Clone, Copy, PartialEq, Eq, Structural)]
pub struct Metadata {
    pub length: usize,
    pub ccsid: i32,
    pub encoding: i32,
    pub value_type: i32,
}

impl Metadata {
    /// The metadata of a value of `length` bytes, with the CCSID and encoding that the
    /// inquiry returned.
    pub fn new(length: usize, impo: &MqStruct<Mqimpo>, value_type: i32) -> (r: Self)
        ensures
            r == (Metadata {
                length,
                ccsid: impo.struc.returned_ccsid,
                encoding: impo.struc.returned_encoding,
                value_type,
            }),
    {
        Metadata { length, ccsid: impo.struc.returned_ccsid, encoding: impo.struc.returned_encoding, value_type }
    }

    /// The metadata of the value an inquiry returned: its length, the CCSID and encoding the
    /// inquiry options returned, and the type the inquiry gave.
    pub fn extract(param: &PropertyParam, state: &PropertyState) -> (r: Self)
        ensures
            r == (Metadata {
                length: state.value@.len() as usize,
                ccsid: param.impo.struc.returned_ccsid,
                encoding: param.impo.struc.returned_encoding,
                value_type: param.value_type,
            }),
    {
        Metadata {
            length: state.value.len(),
            ccsid: param.impo.struc.returned_ccsid,
            encoding: param.impo.struc.returned_encoding,
            value_type: param.value_type,
        }
    }

    /// The length of the value.
    pub fn len(&self) -> (r: usize)
        ensures
            r == self.length,
    {
        self.length
    }

    /// The value is empty.
    pub fn is_empty(&self) -> (b: bool)
        ensures
            b == (self.length == 0),
    {
        self.length == 0
    }

    /// The CCSID of the value.
    pub fn ccsid(&self) -> (r: i32)
        ensures
            r == self.ccsid,
    {
        self.ccsid
    }

    /// The encoding of the value.
    pub fn encoding(&self) -> (r: i32)
        ensures
            r == self.encoding,
    {
        self.encoding
    }

    /// The type of the value (`MQTYPE_*`).
    pub fn value_type(&self) -> (r: i32)
        ensures
            r == self.value_type,
    {
        self.value_type
    }
}

/// The attributes of a property: its property descriptor.
#[derive(Debug, Clone, Copy)]
pub struct Attributes {
    pub mqpd: MqStruct<Mqpd>,
}

impl Attributes {
    /// The attributes of a property descriptor.
    pub fn new(mqpd: MqStruct<Mqpd>) -> (r: Self)
        ensures
            r.mqpd == mqpd,
    {
        Attributes { mqpd }
    }

    /// Set the support of the property.
    pub fn set_support(&mut self, support: i32)
        ensures
            final(self).mqpd.struc == (Mqpd { support, ..old(self).mqpd.struc }),
    {
        self.mqpd.struc.support = support;
    }

    /// The support of the property.
    pub fn support(&self) -> (r: i32)
        ensures
            r == self.mqpd.struc.support,
    {
        self.mqpd.struc.support
    }

    /// Set the message context the property belongs to.
    pub fn set_context(&mut self, context: i32)
        ensures
            final(self).mqpd.struc == (Mqpd { context, ..old(self).mqpd.struc }),
    {
        self.mqpd.struc.context = context;
    }

    /// The message context the property belongs to.
    pub fn context(&self) -> (r: i32)
        ensures
            r == self.mqpd.struc.context,
    {
        self.mqpd.struc.context
    }

    /// Set the copy options of the property.
    pub fn set_copy_options(&mut self, copy_options: i32)
        ensures
            final(self).mqpd.struc == (Mqpd { copy_options, ..old(self).mqpd.struc }),
    {
        self.mqpd.struc.copy_options = copy_options;
    }

    /// The copy options of the property.
    pub fn copy_options(&self) -> (r: i32)
        ensures
            r == self.mqpd.struc.copy_options,
    {
        self.mqpd.struc.copy_options
    }
}

/// The null property value.
#[derive(Debug, Clone, Copy)]
pub struct Null;

/// The name of a property.
#[derive(Debug, Clone, Copy)]
pub struct Name<T>(pub T);

/// A property value as bytes, with its metadata.
#[derive(Debug, Clone)]
pub struct Raw<T> {
    pub data: T,
    pub metadata: Metadata,
}

impl<T> Raw<T> {
    /// A raw value.
    pub fn new(data: T, metadata: Metadata) -> (r: Self)
        ensures
            r.data == data,
            r.metadata == metadata,
    {
        Raw { data, metadata }
    }

    /// The metadata of the value.
    pub fn metadata(&self) -> (r: &Metadata)
        ensures
            *r == self.metadata,
    {
        &self.metadata
    }
}

/// The name and value bytes an inquiry of a property returned.
#[derive(Debug, Clone)]
pub struct PropertyState {
    pub name: Option<Vec<u8>>,
    pub value: Vec<u8>,
}

/// The parameters of an inquiry of a property.
#[derive(Debug, Clone, Copy)]
pub struct PropertyParam {
    pub value_type: i32,
    pub impo: MqStruct<Mqimpo>,
    pub mqpd: MqStruct<Mqpd>,
    pub name_required: NameUsage,
}

impl PropertyParam {
    /// The parameters an inquiry starts from: the options given, any type, the default
    /// property descriptor, no name.
    pub fn new(options: i32) -> (r: Self)
        ensures
            r.impo.struc.options == options,
            r.value_type == 0,
            r.mqpd.struc.version == MQPD_VERSION_1,
            r.name_required == NameUsage::Ignored,
    {
        PropertyParam {
            value_type: 0,
            impo: MqStruct::new(Mqimpo::with_options(options)),
            mqpd: MqStruct::new(Mqpd::default_value()),
            name_required: NameUsage::Ignored,
        }
    }
}

/// The unsigned little endian number of the bytes.
pub open spec fn spec_le(b: Seq<u8>) -> nat
    decreases b.len(),
{
    if b.len() == 0 {
        0
    } else {
        b[0] as nat + 256 * spec_le(b.drop_first())
    }
}

/// A property value.
#[derive(Debug, Clone)]
pub enum Value {
    Boolean(bool),
    Int8(i8),
    Int16(i16),
    Int32(i32),
    Int64(i64),
    /// The bits of a 32 bit floating point number.
    Float32(u32),
    /// The bits of a 64 bit floating point number.
    Float64(u64),
    ByteString(Vec<u8>),
    String(StrCcsidOwned),
    Null,
}

/// The number of bytes a value of a fixed size type holds, for the known types.
pub open spec fn spec_value_size(value_type: i32) -> Option<nat> {
    if value_type == MQTYPE_BOOLEAN || value_type == MQTYPE_INT32 || value_type == MQTYPE_FLOAT32 {
        Some(4)
    } else if value_type == MQTYPE_INT8 {
        Some(1)
    } else if value_type == MQTYPE_INT16 {
        Some(2)
    } else if value_type == MQTYPE_INT64 || value_type == MQTYPE_FLOAT64 {
        Some(8)
    } else if value_type == MQTYPE_STRING || value_type == MQTYPE_BYTE_STRING || value_type == MQTYPE_NULL {
        None
    } else {
        None
    }
}

/// A value of type `value_type` can be read from `len` bytes: the type is known, and a
/// fixed size type has its size.
pub open spec fn spec_decodable(value_type: i32, len: nat) -> bool {
    ||| value_type == MQTYPE_STRING
    ||| value_type == MQTYPE_BYTE_STRING
    ||| value_type == MQTYPE_NULL
    ||| spec_value_size(value_type) == Some(len)
}

/// The value read from the bytes of a property of type `value_type`, in the native
/// (little endian) byte order; text with the CCSID and encoding the inquiry returned.
pub open spec fn spec_value_matches(v: Value, value_type: i32, b: Seq<u8>, ccsid: i32, encoding: i32) -> bool {
    if value_type == MQTYPE_BOOLEAN {
        v == Value::Boolean(spec_le(b) != 0)
    } else if value_type == MQTYPE_STRING {
        v matches Value::String(s) && s.data@ == b && s.ccsid == (if ccsid == 0 {
            None
        } else {
            Some(ccsid)
        }) && s.le == ((encoding & MQENC_INTEGER_REVERSED) != 0)
    } else if value_type == MQTYPE_BYTE_STRING {
        v matches Value::ByteString(d) && d@ == b
    } else if value_type == MQTYPE_INT8 {
        v == Value::Int8(b[0] as i8)
    } else if value_type == MQTYPE_INT16 {
        v == Value::Int16(spec_le(b) as u16 as i16)
    } else if value_type == MQTYPE_INT32 {
        v == Value::Int32(spec_le(b) as u32 as i32)
    } else if value_type == MQTYPE_INT64 {
        v == Value::Int64(spec_le(b) as u64 as i64)
    } else if value_type == MQTYPE_FLOAT32 {
        v == Value::Float32(spec_le(b) as u32)
    } else if value_type == MQTYPE_FLOAT64 {
        v == Value::Float64(spec_le(b) as u64)
    } else {
        v == Value::Null
    }
}

/// The unsigned little endian number of up to eight bytes.
fn le_bytes(b: &[u8]) -> (r: u64)
    requires
        b@.len() <= 8,
    ensures
        r == spec_le(b@),
{
    let mut r: u64 = 0;
    let mut i: usize = b.len();
    proof {
        assert(b@.skip(b@.len() as int) =~= Seq::<u8>::empty());
    }
    while i > 0
        invariant
            i <= b@.len() <= 8,
            r == spec_le(b@.skip(i as int)),
            spec_le(b@.skip(i as int)) < pow256((b@.len() - i) as nat),
        decreases i,
    {
        i = i - 1;
        assert(b@.skip(i as int).drop_first() =~= b@.skip(i + 1));
        proof {
            lemma_pow256_le8((b@.len() - i - 1) as nat);
        }
        assert(spec_le(b@.skip(i as int)) < pow256((b@.len() - i) as nat)) by {
            assert(pow256((b@.len() - i) as nat) == 256 * pow256((b@.len() - i - 1) as nat));
        }
        r = b[i] as u64 + 256 * r;
    }
    assert(b@.skip(0) =~= b@);
    r
}

/// Two hundred fifty six to the power `k`.
pub open spec fn pow256(k: nat) -> nat
    decreases k,
{
    if k == 0 {
        1
    } else {
        256 * pow256((k - 1) as nat)
    }
}

/// Powers of 256 grow with the exponent.
proof fn lemma_pow256_mono(k: nat, m: nat)
    requires
        k <= m,
    ensures
        pow256(k) <= pow256(m),
    decreases m,
{
    if k < m {
        lemma_pow256_mono(k, (m - 1) as nat);
    }
}

/// Powers of 256 up to eight bytes fit 64 bits.
proof fn lemma_pow256_le8(k: nat)
    requires
        k <= 7,
    ensures
        256 * pow256(k) <= 0x1_0000_0000_0000_0000,
        pow256(k) <= 0x0100_0000_0000_0000,
{
    lemma_pow256_mono(k, 7);
    assert(pow256(7) == 0x0100_0000_0000_0000) by {
        reveal_with_fuel(pow256, 8);
    }
}

impl Value {
    /// Read a property value of type `value_type` from its bytes, in the native (little
    /// endian) byte order; text with the CCSID and encoding the inquiry returned.
    pub fn create_from(value_type: i32, bytes: &[u8], ccsid: i32, encoding: i32) -> (r: Value)
        requires
            spec_decodable(value_type, bytes@.len()),
        ensures
            spec_value_matches(r, value_type, bytes@, ccsid, encoding),
    {
        if value_type == MQTYPE_BOOLEAN {
            Value::Boolean(le_bytes(bytes) != 0)
        } else if value_type == MQTYPE_STRING {
            let c = if ccsid == 0 {
                None
            } else {
                Some(ccsid)
            };
            Value::String(
                StringCcsid { ccsid: c, data: crate::strings::bytes_to_vec(bytes), le: (encoding & MQENC_INTEGER_REVERSED) != 0 },
            )
        } else if value_type == MQTYPE_BYTE_STRING {
            Value::ByteString(crate::strings::bytes_to_vec(bytes))
        } else if value_type == MQTYPE_INT8 {
            Value::Int8(bytes[0] as i8)
        } else if value_type == MQTYPE_INT16 {
            Value::Int16(le_bytes(bytes) as u16 as i16)
        } else if value_type == MQTYPE_INT32 {
            Value::Int32(le_bytes(bytes) as u32 as i32)
        } else if value_type == MQTYPE_INT64 {
            Value::Int64(le_bytes(bytes) as i64)
        } else if value_type == MQTYPE_FLOAT32 {
            Value::Float32(le_bytes(bytes) as u32)
        } else if value_type == MQTYPE_FLOAT64 {
            Value::Float64(le_bytes(bytes))
        } else {
            Value::Null
        }
    }
}

/// A buffer an inquiry writes into: a borrowed slice or an owned vector.
#[derive(Debug)]
pub enum InqBuffer<'a, T> {
    Slice(&'a [T]),
    Owned(Vec<T>),
}

impl<'a, T> InqBuffer<'a, T> {
    /// The elements of the buffer.
    pub open spec fn spec_elems(&self) -> Seq<T> {
        match self {
            InqBuffer::Slice(s) => s@,
            InqBuffer::Owned(v) => v@,
        }
    }

    /// The buffer cut to at most `len` elements.
    pub fn truncate(self, len: usize) -> (r: Self)
        ensures
            r.spec_elems() == (if len < self.spec_elems().len() {
                self.spec_elems().take(len as int)
            } else {
                self.spec_elems()
            }),
            (self is Slice) == (r is Slice),
    {
        match self {
            InqBuffer::Slice(s) => {
                let buf_len = s.len();
                let end = if len < buf_len {
                    len
                } else {
                    buf_len
                };
                let t = vstd::slice::slice_subrange(s, 0, end);
                assert(end == buf_len ==> t@ =~= s@);
                InqBuffer::Slice(t)
            },
            InqBuffer::Owned(v) => {
                let mut v = v;
                v.truncate(len);
                InqBuffer::Owned(v)
            },
        }
    }

    /// The number of elements of the buffer.
    pub fn len(&self) -> (r: usize)
        ensures
            r == self.spec_elems().len(),
    {
        match self {
            InqBuffer::Slice(s) => s.len(),
            InqBuffer::Owned(v) => v.len(),
        }
    }
}

/// The size of the default inquiry buffers.
pub const DEFAULT_BUF_SIZE: usize = 1024;

/// The size of the value buffer of an inquiry: the default size, cut to the largest value
/// the requested type can hold.
pub fn value_buffer_size(max_value_size: Option<usize>) -> (r: usize)
    ensures
        r == (match max_value_size {
            Some(m) => if m < DEFAULT_BUF_SIZE {
                m
            } else {
                DEFAULT_BUF_SIZE
            },
            None => DEFAULT_BUF_SIZE,
        }),
{
    match max_value_size {
        Some(m) => if m < DEFAULT_BUF_SIZE {
            m
        } else {
            DEFAULT_BUF_SIZE
        },
        None => DEFAULT_BUF_SIZE,
    }
}

/// The size of the name buffer of an inquiry: none when the name is ignored, the default size
/// cut to the largest name allowed otherwise.
pub fn name_buffer_size(usage: NameUsage) -> (r: Option<usize>)
    ensures
        r == (match usage {
            NameUsage::Ignored => None,
            NameUsage::MaxLength(n) => Some(
                if n < DEFAULT_BUF_SIZE {
                    n
                } else {
                    DEFAULT_BUF_SIZE
                },
            ),
            NameUsage::AnyLength => Some(DEFAULT_BUF_SIZE),
        }),
{
    match usage {
        NameUsage::Ignored => None,
        NameUsage::MaxLength(n) => Some(
            if n < DEFAULT_BUF_SIZE {
                n
            } else {
                DEFAULT_BUF_SIZE
            },
        ),
        NameUsage::AnyLength => Some(DEFAULT_BUF_SIZE),
    }
}

/// An inquiry failed only because the property does not exist, which is an empty result.
pub fn is_property_not_available(cc: i32, rc: i32) -> (b: bool)
    ensures
        b == (cc == crate::constants::MQCC_FAILED && rc == MQRC_PROPERTY_NOT_AVAILABLE),
{
    cc == crate::constants::MQCC_FAILED && rc == MQRC_PROPERTY_NOT_AVAILABLE
}

/// What a call of `MQINQMP` returned: the length of the value; a buffer too small, with the
/// length needed and the reason; or another failure.
#[derive(Debug, Clone, Copy, PartialEq, Eq, Structural)]
pub enum InqOutcome {
    Done(i32),
    Length(i32, i32),
    Failed(i32, i32),
}

/// What a call of `MQINQMP` with completion code `cc`, reason `rc` and data length `length`
/// returned: a failure for a value or name too big to fit is a request for a larger buffer of
/// the length MQ reports; another failure is a failure; a warning or success is done.
pub fn inq_outcome(cc: i32, rc: i32, length: i32) -> (o: InqOutcome)
    ensures
        o == (if cc == crate::constants::MQCC_FAILED {
            if rc == MQRC_PROPERTY_VALUE_TOO_BIG || rc == MQRC_PROPERTY_NAME_TOO_BIG {
                InqOutcome::Length(length, rc)
            } else {
                InqOutcome::Failed(cc, rc)
            }
        } else {
            InqOutcome::Done(length)
        }),
{
    if cc == crate::constants::MQCC_FAILED {
        if rc == MQRC_PROPERTY_VALUE_TOO_BIG || rc == MQRC_PROPERTY_NAME_TOO_BIG {
            InqOutcome::Length(length, rc)
        } else {
            InqOutcome::Failed(cc, rc)
        }
    } else {
        InqOutcome::Done(length)
    }
}

/// What to do after a call of `MQINQMP`.
#[derive(Debug, Clone, Copy, PartialEq, Eq, Structural)]
pub enum InqmpStep {
    /// Call again with a value buffer of this size.
    RetryValue(usize),
    /// Call again with a name buffer of this size.
    RetryName(usize),
    /// The value and name, cut to these lengths, are the result.
    Complete(usize, Option<usize>),
    /// The inquiry failed with this reason.
    Fail(i32),
}

/// A buffer of `len` elements may grow: no limit, or a limit above `len`.
pub open spec fn spec_may_grow(max: Option<usize>, len: usize) -> bool {
    match max {
        Some(m) => m > len,
        None => true,
    }
}

/// The length `n` bounded by `len`.
pub open spec fn spec_min(n: int, len: int) -> int {
    if n < len {
        n
    } else {
        len
    }
}

/// The next step of an inquiry of a property: a value too big for a buffer that may grow is
/// asked again with a buffer of the needed size; then the same for a name; a completed
/// inquiry cuts the value to the length returned and the name to its returned length.
pub fn inqmp_step(
    outcome: InqOutcome,
    value_len: usize,
    max_value_size: Option<usize>,
    name_len: Option<usize>,
    max_name_size: Option<usize>,
    returned_name_length: i32,
) -> (r: InqmpStep)
    requires
        outcome matches InqOutcome::Done(n) ==> n >= 0,
        outcome matches InqOutcome::Length(n, _) ==> n >= 0,
        name_len is Some && outcome is Done ==> returned_name_length >= 0,
    ensures
        r == (match outcome {
            InqOutcome::Length(n, rc) => if rc == MQRC_PROPERTY_VALUE_TOO_BIG && spec_may_grow(
                max_value_size,
                value_len,
            ) {
                InqmpStep::RetryValue(n as usize)
            } else if rc == MQRC_PROPERTY_NAME_TOO_BIG && name_len is Some && spec_may_grow(
                max_name_size,
                name_len.unwrap(),
            ) {
                InqmpStep::RetryName(n as usize)
            } else {
                InqmpStep::Fail(rc)
            },
            InqOutcome::Done(n) => InqmpStep::Complete(
                spec_min(n as int, value_len as int) as usize,
                match name_len {
                    Some(l) => Some(spec_min(returned_name_length as int, l as int) as usize),
                    None => None,
                },
            ),
            InqOutcome::Failed(_, rc) => InqmpStep::Fail(rc),
        }),
{
    match outcome {
        InqOutcome::Length(length, rc) => {
            let value_may_grow = match max_value_size {
                Some(m) => m > value_len,
                None => true,
            };
            if rc == MQRC_PROPERTY_VALUE_TOO_BIG && value_may_grow {
                return InqmpStep::RetryValue(length as usize);
            }
            match name_len {
                Some(nl) => {
                    let name_may_grow = match max_name_size {
                        Some(m) => m > nl,
                        None => true,
                    };
                    if rc == MQRC_PROPERTY_NAME_TOO_BIG && name_may_grow {
                        return InqmpStep::RetryName(length as usize);
                    }
                    InqmpStep::Fail(rc)
                },
                None => InqmpStep::Fail(rc),
            }
        },
        InqOutcome::Done(length) => {
            let l = length as usize;
            let v = if l < value_len {
                l
            } else {
                value_len
            };
            let n = match name_len {
                Some(nl) => {
                    let rl = returned_name_length as usize;
                    Some(
                        if rl < nl {
                            rl
                        } else {
                            nl
                        },
                    )
                },
                None => None,
            };
            InqmpStep::Complete(v, n)
        },
        InqOutcome::Failed(_, rc) => InqmpStep::Fail(rc),
    }
}

/// A property value read as a requested type, or its raw bytes with their encoding and CCSID
/// when MQ could not convert it.
#[derive(Debug, Clone)]
pub enum Conversion<T> {
    Value(T),
    Raw(Vec<u8>, i32, i32),
}

impl Conversion<Value> {
    /// A property value of type `value_type` from its bytes, or the raw bytes with the
    /// returned encoding and CCSID when the inquiry warned that the value was not converted.
    pub fn create_from(value: &[u8], value_type: i32, impo: &MqStruct<Mqimpo>, warning: Option<i32>) -> (r: Self)
        requires
            warning != Some(MQRC_PROP_VALUE_NOT_CONVERTED) ==> spec_decodable(value_type, value@.len()),
        ensures
            warning == Some(MQRC_PROP_VALUE_NOT_CONVERTED) ==> (r matches Conversion::Raw(d, e, c) && d@
                == value@ && e == impo.struc.returned_encoding && c == impo.struc.returned_ccsid),
            warning != Some(MQRC_PROP_VALUE_NOT_CONVERTED) ==> (r matches Conversion::Value(v)
                && spec_value_matches(v, value_type, value@, impo.struc.returned_ccsid, impo.struc.returned_encoding)),
    {
        match warning {
            Some(rc) => {
                if rc == MQRC_PROP_VALUE_NOT_CONVERTED {
                    return Conversion::Raw(
                        crate::strings::bytes_to_vec(value),
                        impo.struc.returned_encoding,
                        impo.struc.returned_ccsid,
                    );
                }
            },
            None => {},
        }
        Conversion::Value(
            Value::create_from(value_type, value, impo.struc.returned_ccsid, impo.struc.returned_encoding),
        )
    }

    /// A property name, or its raw bytes with the name's CCSID when the inquiry warned that
    /// the name was not converted.
    pub fn name_from(name: &[u8], impo: &MqStruct<Mqimpo>, warning: Option<i32>) -> (r: Conversion<Vec<u8>>)
        ensures
            warning == Some(MQRC_PROP_NAME_NOT_CONVERTED) ==> (r matches Conversion::Raw(d, e, c) && d@
                == name@ && e == 0 && c == impo.struc.returned_name_ccsid),
            warning != Some(MQRC_PROP_NAME_NOT_CONVERTED) ==> (r matches Conversion::Value(v) && v@ == name@),
    {
        match warning {
            Some(rc) => {
                if rc == MQRC_PROP_NAME_NOT_CONVERTED {
                    return Conversion::Raw(crate::strings::bytes_to_vec(name), 0, impo.struc.returned_name_ccsid);
                }
            },
            None => {},
        }
        Conversion::Value(crate::strings::bytes_to_vec(name))
    }
}

/// A property value with its descriptor, length, CCSID and encoding.
#[derive(Debug, Clone)]
pub struct PropDetails<T> {
    pub value: T,
    pub mqpd: MqStruct<Mqpd>,
    pub length: usize,
    pub ccsid: i32,
    pub encoding: i32,
}

impl<T> PropDetails<T> {
    /// The details of a value of `length` bytes, with the CCSID and encoding the inquiry
    /// returned.
    pub fn create_from(value: T, length: usize, mqpd: &MqStruct<Mqpd>, impo: &MqStruct<Mqimpo>) -> (r: Self)
        ensures
            r.value == value,
            r.mqpd == *mqpd,
            r.length == length,
            r.ccsid == impo.struc.returned_ccsid,
            r.encoding == impo.struc.returned_encoding,
    {
        PropDetails {
            value,
            mqpd: *mqpd,
            length,
            ccsid: impo.struc.returned_ccsid,
            encoding: impo.struc.returned_encoding,
        }
    }

    /// The length of the value.
    pub fn len(&self) -> (r: usize)
        ensures
            r == self.length,
    {
        self.length
    }

    /// The value is empty.
    pub fn is_empty(&self) -> (b: bool)
        ensures
            b == (self.length == 0),
    {
        self.length == 0
    }

    /// The CCSID of the value.
    pub fn ccsid(&self) -> (r: i32)
        ensures
            r == self.ccsid,
    {
        self.ccsid
    }

    /// The encoding of the value.
    pub fn encoding(&self) -> (r: i32)
        ensures
            r == self.encoding,
    {
        self.encoding
    }

    /// The support of the property.
    pub fn support(&self) -> (r: i32)
        ensures
            r == self.mqpd.struc.support,
    {
        self.mqpd.struc.support
    }

    /// The message context the property belongs to.
    pub fn context(&self) -> (r: i32)
        ensures
            r == self.mqpd.struc.context,
    {
        self.mqpd.struc.context
    }

    /// The copy options of the property.
    pub fn copy_options(&self) -> (r: i32)
        ensures
            r == self.mqpd.struc.copy_options,
    {
        self.mqpd.struc.copy_options
    }
}

/// Ask for the value of a property as type `value_type`, with the inquiry options `options`.
pub fn request_value(param: &mut PropertyParam, value_type: i32, options: i32)
    ensures
        final(param).value_type == value_type,
        final(param).impo.struc == (Mqimpo { options: old(param).impo.struc.options | options, ..old(param).impo.struc }),
        final(param).mqpd == old(param).mqpd,
        final(param).name_required == old(param).name_required,
{
    param.value_type = value_type;
    param.impo.struc.options = param.impo.struc.options | options;
}

/// Ask for the name of a property as `usage` allows, with the inquiry options `options`.
pub fn request_name(param: &mut PropertyParam, usage: NameUsage, options: i32)
    ensures
        final(param).name_required == usage,
        final(param).impo.struc == (Mqimpo { options: old(param).impo.struc.options | options, ..old(param).impo.struc }),
        final(param).mqpd == old(param).mqpd,
        final(param).value_type == old(param).value_type,
{
    param.name_required = usage;
    param.impo.struc.options = param.impo.struc.options | options;
}

} // verus!
