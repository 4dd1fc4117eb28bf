use vstd::prelude::*;

use crate::constants::{
    CCSID_UTF8, MQCOPY_DEFAULT, MQENC_NATIVE, MQPD_NO_CONTEXT, MQPD_SUPPORT_OPTIONAL, MQPD_VERSION_1, MQSMPO_SET_FIRST, MQSMPO_VERSION_1, MQTYPE_BOOLEAN,
    MQTYPE_BYTE_STRING, MQTYPE_FLOAT32, MQTYPE_FLOAT64, MQTYPE_INT16, MQTYPE_INT32,
    MQTYPE_INT64, MQTYPE_INT8, MQTYPE_NULL, MQTYPE_STRING,
};
use crate::properties::{pow256, spec_decodable, spec_le, spec_value_matches, Attributes, Mqpd, Value};
use crate::structs::MqStruct;

verus! {

/// The fields of the set message property options (`MQSMPO`).
#[derive(Debug, Clone, Copy, PartialEq, Eq, Structural)]
pub struct Mqsmpo {
    pub version: i32,
    pub options: i32,
    pub value_encoding: i32,
    pub value_ccsid: i32,
}

impl Mqsmpo {
    /// The default set message property options: version 1, set the first property, the
    /// native encoding, UTF-8.
    pub fn default_value() -> (r: Self)
        ensures
            r == (Mqsmpo {
                version: MQSMPO_VERSION_1,
                options: MQSMPO_SET_FIRST,
                value_encoding: MQENC_NATIVE,
                value_ccsid: CCSID_UTF8,
            }),
    {
        Mqsmpo {
            version: MQSMPO_VERSION_1,
            options: MQSMPO_SET_FIRST,
            value_encoding: MQENC_NATIVE,
            value_ccsid: CCSID_UTF8,
        }
    }
}

/// The `n` little endian bytes of `x`.
fn le_encode(x: u64, n: usize) -> (r: Vec<u8>)
    ensures
        r@ == le_seq(x as nat, n as nat),
{
    let mut r: Vec<u8> = Vec::new();
    let mut y: u64 = x;
    let mut i: usize = 0;
    while i < n
        invariant
            i <= n,
            r@ + le_seq(y as nat, (n - i) as nat) == le_seq(x as nat, n as nat),
        decreases n - i,
    {
        let m: u8 = (y % 256) as u8;
        let q: u64 = y / 256;
        assert(le_seq(y as nat, (n - i) as nat) == seq![m] + le_seq(q as nat, (n - i - 1) as nat));
        assert(r@.push(m) + le_seq(q as nat, (n - i - 1) as nat) =~= r@ + (seq![m] + le_seq(
            q as nat,
            (n - i - 1) as nat,
        )));
        r.push(m);
        y = q;
        i = i + 1;
    }
    assert(r@ + le_seq(y as nat, 0) =~= r@);
    r
}

/// Little endian bytes of a number below 256 to their count read back as that number.
pub proof fn lemma_le_seq(x: nat, n: nat)
    requires
        x < pow256(n),
    ensures
        le_seq(x, n).len() == n,
        spec_le(le_seq(x, n)) == x,
    decreases n,
{
    if n > 0 {
        assert(pow256(n) == 256 * pow256((n - 1) as nat));
        assert(x / 256 < pow256((n - 1) as nat)) by (nonlinear_arith)
            requires
                x < 256 * pow256((n - 1) as nat),
        ;
        lemma_le_seq(x / 256, (n - 1) as nat);
        let s = le_seq(x, n);
        assert(s.drop_first() =~= le_seq(x / 256, (n - 1) as nat));
        assert(x == x % 256 + 256 * (x / 256)) by (nonlinear_arith);
    }
}

/// The bytes and the type under which a property value is set, in the native (little
/// endian) byte order: a boolean as a four byte 1 or 0, numbers in their size, text and byte strings
/// as they are, null as no bytes.
pub open spec fn spec_set_data(v: Value) -> (Seq<u8>, i32) {
    match v {
        Value::Boolean(b) => (le_seq(if b { 1 } else { 0 }, 4), MQTYPE_BOOLEAN),
        Value::Int8(x) => (seq![x as u8], MQTYPE_INT8),
        Value::Int16(x) => (le_seq(x as u16 as nat, 2), MQTYPE_INT16),
        Value::Int32(x) => (le_seq(x as u32 as nat, 4), MQTYPE_INT32),
        Value::Int64(x) => (le_seq(x as u64 as nat, 8), MQTYPE_INT64),
        Value::Float32(x) => (le_seq(x as nat, 4), MQTYPE_FLOAT32),
        Value::Float64(x) => (le_seq(x as nat, 8), MQTYPE_FLOAT64),
        Value::ByteString(d) => (d@, MQTYPE_BYTE_STRING),
        Value::String(s) => (s.data@, MQTYPE_STRING),
        Value::Null => (Seq::empty(), MQTYPE_NULL),
    }
}

/// The `n` little endian bytes of `x`.
pub open spec fn le_seq(x: nat, n: nat) -> Seq<u8>
    decreases n,
{
    if n == 0 {
        Seq::empty()
    } else {
        seq![(x % 256) as u8] + le_seq(x / 256, (n - 1) as nat)
    }
}

/// The options a value is set with: numbers, booleans and null in the native encoding,
/// text in its CCSID (0 where it has none), byte strings leave the options as they are.
pub open spec fn spec_set_options(v: Value, before: Mqsmpo) -> Mqsmpo {
    match v {
        Value::ByteString(_) => before,
        Value::String(s) => Mqsmpo {
            value_ccsid: match s.ccsid {
                Some(c) => c,
                None => 0,
            },
            ..before
        },
        _ => Mqsmpo { value_encoding: MQENC_NATIVE, ..before },
    }
}

impl Value {
    /// Prepare the value for setting as a property: the bytes and the type it is set under,
    /// with the encoding or CCSID of the set options filled in for it. The property
    /// descriptor is left as it is.
    pub fn apply_mqinqmp(&self, pd: &mut MqStruct<Mqpd>, smpo: &mut MqStruct<Mqsmpo>) -> (r: (Vec<u8>, i32))
        ensures
            (r.0@, r.1) == spec_set_data(*self),
            final(smpo).struc == spec_set_options(*self, old(smpo).struc),
            *final(pd) == *old(pd),
    {
        match self {
            Value::Boolean(b) => {
                smpo.struc.value_encoding = MQENC_NATIVE;
                (le_encode(if *b { 1 } else { 0 }, 4), MQTYPE_BOOLEAN)
            },
            Value::Int8(x) => {
                smpo.struc.value_encoding = MQENC_NATIVE;
                let mut d: Vec<u8> = Vec::new();
                d.push(*x as u8);
                assert(d@ =~= seq![*x as u8]);
                (d, MQTYPE_INT8)
            },
            Value::Int16(x) => {
                smpo.struc.value_encoding = MQENC_NATIVE;
                (le_encode(*x as u16 as u64, 2), MQTYPE_INT16)
            },
            Value::Int32(x) => {
                smpo.struc.value_encoding = MQENC_NATIVE;
                (le_encode(*x as u32 as u64, 4), MQTYPE_INT32)
            },
            Value::Int64(x) => {
                smpo.struc.value_encoding = MQENC_NATIVE;
                (le_encode(*x as u64, 8), MQTYPE_INT64)
            },
            Value::Float32(x) => {
                smpo.struc.value_encoding = MQENC_NATIVE;
                (le_encode(*x as u64, 4), MQTYPE_FLOAT32)
            },
            Value::Float64(x) => {
                smpo.struc.value_encoding = MQENC_NATIVE;
                (le_encode(*x, 8), MQTYPE_FLOAT64)
            },
            Value::ByteString(d) => (crate::strings::bytes_to_vec(d.as_slice()), MQTYPE_BYTE_STRING),
            Value::String(t) => {
                smpo.struc.value_ccsid = match t.ccsid {
                    Some(c) => c,
                    None => 0,
                };
                (crate::strings::bytes_to_vec(t.data.as_slice()), MQTYPE_STRING)
            },
            Value::Null => {
                smpo.struc.value_encoding = MQENC_NATIVE;
                (Vec::new(), MQTYPE_NULL)
            },
        }
    }
}

impl Attributes {
    /// Prepare a value with these attributes for setting as a property: the property
    /// descriptor becomes these attributes', then the value is prepared as
    /// [`Value::apply_mqinqmp`] does.
    pub fn apply_mqinqmp(&self, value: &Value, pd: &mut MqStruct<Mqpd>, smpo: &mut MqStruct<Mqsmpo>) -> (r: (
        Vec<u8>,
        i32,
    ))
        ensures
            (r.0@, r.1) == spec_set_data(*value),
            final(smpo).struc == spec_set_options(*value, old(smpo).struc),
            *final(pd) == self.mqpd,
    {
        *pd = self.mqpd;
        value.apply_mqinqmp(pd, smpo)
    }
}

/// A value read back is the value set: the same value, for byte strings the same bytes, and
/// for text the same bytes and CCSID (the byte order flag of text follows the encoding the reader was given).
pub open spec fn spec_reads_back_as(r: Value, v: Value) -> bool {
    match v {
        Value::String(s) => r matches Value::String(t) && t.data@ == s.data@ && t.ccsid == s.ccsid,
        Value::ByteString(d) => r matches Value::ByteString(e) && e@ == d@,
        _ => r == v,
    }
}

/// Reading back what a value was set as gives the value: the bytes and type that
/// [`Value::apply_mqinqmp`] prepares, read by [`Value::create_from`] with the CCSID and
/// encoding of the set options, are decodable and give the value again. Text must carry no
/// CCSID of zero (zero stands for none).
pub proof fn law_set_value_reads_back(v: Value, before: Mqsmpo)
    requires
        v matches Value::String(s) ==> s.ccsid != Some(0i32),
    ensures
        spec_decodable(spec_set_data(v).1, spec_set_data(v).0.len()),
        forall|r: Value|
            spec_value_matches(
                r,
                spec_set_data(v).1,
                spec_set_data(v).0,
                spec_set_options(v, before).value_ccsid,
                spec_set_options(v, before).value_encoding,
            ) ==> spec_reads_back_as(r, v),
{
    reveal_with_fuel(pow256, 9);
    reveal_with_fuel(le_seq, 9);
    match v {
        Value::Boolean(b) => {
            lemma_le_seq(if b { 1 } else { 0 }, 4);
        },
        Value::Int8(x) => {
            assert((x as u8) as i8 == x) by (bit_vector);
        },
        Value::Int16(x) => {
            lemma_le_seq(x as u16 as nat, 2);
            assert(x as u16 as u16 as i16 == x) by (bit_vector);
        },
        Value::Int32(x) => {
            lemma_le_seq(x as u32 as nat, 4);
            assert(x as u32 as u32 as i32 == x) by (bit_vector);
        },
        Value::Int64(x) => {
            lemma_le_seq(x as u64 as nat, 8);
            assert(x as u64 as u64 as i64 == x) by (bit_vector);
        },
        Value::Float32(x) => {
            lemma_le_seq(x as nat, 4);
        },
        Value::Float64(x) => {
            lemma_le_seq(x as nat, 8);
        },
        _ => {},
    }
}

/// What setting a property hands to the queue manager: the property descriptor, the set
/// options, the value's bytes and its type.
#[derive(Debug, Clone)]
pub struct SetPropertyRequest {
    pub mqpd: MqStruct<Mqpd>,
    pub smpo: MqStruct<Mqsmpo>,
    pub data: Vec<u8>,
    pub value_type: i32,
}

/// Prepare the setting of a property value at `location` (`MQSMPO_*`): default property
/// descriptor and set options, the options set to the location, then the value applied.
pub fn set_property_request(value: &Value, location: i32) -> (r: SetPropertyRequest)
    ensures
        r.mqpd.struc == (Mqpd {
            version: MQPD_VERSION_1,
            options: 0,
            support: MQPD_SUPPORT_OPTIONAL,
            context: MQPD_NO_CONTEXT,
            copy_options: MQCOPY_DEFAULT,
        }),
        r.smpo.struc == spec_set_options(
            *value,
            Mqsmpo {
                version: MQSMPO_VERSION_1,
                options: location,
                value_encoding: MQENC_NATIVE,
                value_ccsid: CCSID_UTF8,
            },
        ),
        (r.data@, r.value_type) == spec_set_data(*value),
{
    let mut mqpd = MqStruct::new(Mqpd::default_value());
    let mut smpo = MqStruct::new(Mqsmpo::default_value());
    smpo.struc.options = location;
    let (data, value_type) = value.apply_mqinqmp(&mut mqpd, &mut smpo);
    SetPropertyRequest { mqpd, smpo, data, value_type }
}

} // verus!
