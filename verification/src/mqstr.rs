use vstd::prelude::*;
use vstd::string::StringSliceAdditionalSpecFns;

verus! {

/// A padding byte of an MQ fixed width string: a space or a nul.
pub open spec fn is_pad(c: u8) -> bool {
    c == 0x20u8 || c == 0u8
}

/// The length of `s` once its trailing padding is removed.
pub open spec fn trim_len(s: Seq<u8>) -> nat
    decreases s.len(),
{
    if s.len() == 0 {
        0
    } else if is_pad(s.last()) {
        trim_len(s.drop_last())
    } else {
        s.len()
    }
}

/// `s` without its trailing padding.
pub open spec fn trimmed(s: Seq<u8>) -> Seq<u8> {
    s.take(trim_len(s) as int)
}

/// `v` right padded with spaces up to length `n`.
pub open spec fn space_padded(v: Seq<u8>, n: nat) -> Seq<u8> {
    v + Seq::new((n - v.len()) as nat, |i: int| 0x20u8)
}

/// Every byte of `s` is padding.
pub open spec fn all_pad(s: Seq<u8>) -> bool {
    forall|i: int| 0 <= i < s.len() ==> is_pad(#[trigger] s[i])
}

pub proof fn lemma_trim_len_bounds(s: Seq<u8>)
    ensures
        trim_len(s) <= s.len(),
        trim_len(s) > 0 ==> !is_pad(s[trim_len(s) - 1]),
        all_pad(s.skip(trim_len(s) as int)),
    decreases s.len(),
{
    if s.len() > 0 && is_pad(s.last()) {
        lemma_trim_len_bounds(s.drop_last());
        let t = trim_len(s.drop_last());
        assert forall|i: int| 0 <= i < s.skip(t as int).len() implies is_pad(
            #[trigger] s.skip(t as int)[i],
        ) by {
            if t + i < s.len() - 1 {
                assert(s.skip(t as int)[i] == s.drop_last().skip(t as int)[i]);
            }
        }
    }
}

/// Removing a suffix of padding does not change the trimmed length.
pub proof fn lemma_trim_len_take(s: Seq<u8>, k: int)
    requires
        0 <= k <= s.len(),
        forall|i: int| k <= i < s.len() ==> is_pad(#[trigger] s[i]),
    ensures
        trim_len(s) == trim_len(s.take(k)),
    decreases s.len() - k,
{
    if k < s.len() {
        assert(s.drop_last().take(k) =~= s.take(k));
        lemma_trim_len_take(s.drop_last(), k);
    } else {
        assert(s.take(k) =~= s);
    }
}

/// A string is all padding exactly when its trimmed length is zero.
pub proof fn lemma_trim_len_zero(s: Seq<u8>)
    ensures
        (trim_len(s) == 0) <==> all_pad(s),
    decreases s.len(),
{
    if s.len() > 0 {
        lemma_trim_len_zero(s.drop_last());
        if is_pad(s.last()) {
            if all_pad(s.drop_last()) {
                assert forall|i: int| 0 <= i < s.len() implies is_pad(#[trigger] s[i]) by {
                    if i < s.len() - 1 {
                        assert(s[i] == s.drop_last()[i]);
                    }
                }
            } else {
                let j = choose|j: int| 0 <= j < s.drop_last().len() && !is_pad(s.drop_last()[j]);
                assert(s[j] == s.drop_last()[j]);
            }
        } else {
            assert(!is_pad(s[s.len() - 1]));
        }
    }
}

/// Trimming a value padded with spaces gives back the value without its own trailing padding.
pub proof fn lemma_trim_padded(v: Seq<u8>, n: nat)
    requires
        v.len() <= n,
    ensures
        trim_len(space_padded(v, n)) == trim_len(v),
        trimmed(space_padded(v, n)) == trimmed(v),
{
    let p = space_padded(v, n);
    lemma_trim_len_take(p, v.len() as int);
    assert(p.take(v.len() as int) =~= v);
    lemma_trim_len_bounds(v);
    assert(trimmed(p) =~= trimmed(v));
}

/// Fixed width string with trailing white space/nuls commonly used with IBM MQ API's.
///
/// The view is the `N` bytes of the string, padding included.
#[derive(Debug, Clone, Copy)]
pub struct MqStr<const N: usize> {
    pub data: [u8; N],
}

/// The error of a value that does not fit in a `MqStr`.
#[derive(Debug, Clone, PartialEq, Eq)]
pub enum MqStrError {
    Length { length: usize, max: usize },
}

impl<const N: usize> View for MqStr<N> {
    type V = Seq<u8>;

    open spec fn view(&self) -> Seq<u8> {
        self.data@
    }
}

impl<const N: usize> MqStr<N> {
    /// The bytes are exactly `N` long.
    pub open spec fn wf(&self) -> bool {
        self@.len() == N
    }

    /// Every `MqStr` holds exactly `N` bytes.
    pub proof fn lemma_wf(&self)
        ensures
            self.wf(),
    {
        vstd::array::array_len_matches_n(&self.data);
    }

    /// The value of the string: its bytes without the right padding.
    pub open spec fn spec_value(&self) -> Seq<u8> {
        trimmed(self@)
    }

    /// Create a `MqStr` holding the `N` bytes of a character array.
    pub fn from_mqchar(data: [u8; N]) -> (s: Self)
        ensures
            s@ == data@,
    {
        MqStr { data }
    }

    /// Create an empty `MqStr` filled with spaces
    pub fn empty() -> (s: Self)
        ensures
            s.wf(),
            s@ == Seq::new(N as nat, |i: int| 0x20u8),
    {
        let s = MqStr { data: [0x20u8; N] };
        proof {
            s.lemma_wf();
        }
        assert(s@ =~= Seq::new(N as nat, |i: int| 0x20u8));
        s
    }

    /// Create a `MqStr` from bytes, padding to the right with spaces.
    /// Fails when the bytes are longer than `N`.
    pub fn from_bytes(value: &[u8]) -> (res: Result<Self, MqStrError>)
        ensures
            value@.len() <= N ==> (res matches Ok(s) && s.wf() && s@ == space_padded(
                value@,
                N as nat,
            )),
            value@.len() > N ==> res == Err::<Self, MqStrError>(
                MqStrError::Length { length: value@.len() as usize, max: N },
            ),
    {
        let length = value.len();
        if length <= N {
            let mut data = [0x20u8; N];
            proof {
                vstd::array::array_len_matches_n(&data);
            }
            assert(data@ =~= space_padded(value@.take(0), N as nat));
            let mut i: usize = 0;
            while i < length
                invariant
                    i <= length <= N,
                    length == value@.len(),
                    data@ =~= space_padded(value@.take(i as int), N as nat),
                decreases length - i,
            {
                data[i] = value[i];
                assert(value@.take(i + 1) =~= value@.take(i as int).push(value@[i as int]));
                i = i + 1;
            }
            assert(value@.take(length as int) =~= value@);
            Ok(MqStr { data })
        } else {
            Err(MqStrError::Length { length, max: N })
        }
    }

    /// Create a `MqStr` from a string, padding to the right with spaces.
    /// Fails when the UTF-8 bytes of the string are longer than `N`.
    pub fn from_str(value: &str) -> (res: Result<Self, MqStrError>)
        ensures
            value.spec_bytes().len() <= N ==> (res matches Ok(s) && s.wf() && s@ == space_padded(
                value.spec_bytes(),
                N as nat,
            )),
            value.spec_bytes().len() > N ==> res == Err::<Self, MqStrError>(
                MqStrError::Length { length: value.spec_bytes().len() as usize, max: N },
            ),
    {
        Self::from_bytes(value.as_bytes())
    }

    /// Use when defining `MqStr` from a constant or literal `&str`.
    pub fn def_from_str(value: &str) -> (s: Self)
        requires
            value.spec_bytes().len() <= N,
        ensures
            s.wf(),
            s@ == space_padded(value.spec_bytes(), N as nat),
    {
        match Self::from_str(value) {
            Ok(s) => s,
            Err(_) => {
                assert(false);
                Self::empty()
            },
        }
    }

    /// The raw `N` bytes of the string.
    pub fn as_mqchar(&self) -> (r: &[u8])
        ensures
            r@ == self@,
            self.wf(),
    {
        proof {
            self.lemma_wf();
        }
        self.data.as_slice()
    }

    /// The raw `N` bytes of the string.
    pub fn as_bytes(&self) -> (r: &[u8])
        ensures
            r@ == self@,
            self.wf(),
    {
        proof {
            self.lemma_wf();
        }
        self.data.as_slice()
    }

    /// The value of the `MqStr` without right padding
    pub fn value(&self) -> (r: &[u8])
        ensures
            r@ == self.spec_value(),
            self.wf(),
    {
        proof {
            self.lemma_wf();
        }
        let bytes = self.data.as_slice();
        let n = bytes.len();
        let mut last: usize = n;
        while last > 0 && (bytes[last - 1] == 0x20u8 || bytes[last - 1] == 0u8)
            invariant
                last <= n,
                n == self@.len(),
                bytes@ == self@,
                forall|i: int| last <= i < n ==> is_pad(#[trigger] self@[i]),
            decreases last,
        {
            last = last - 1;
        }
        proof {
            lemma_trim_len_take(self@, last as int);
            if last > 0 {
                assert(self@.take(last as int).last() == self@[last - 1]);
            }
        }
        vstd::slice::slice_subrange(bytes, 0, last)
    }

    /// The string holds nothing but padding.
    pub fn is_empty(&self) -> (b: bool)
        ensures
            b == all_pad(self@),
    {
        let bytes = self.as_bytes();
        let n = bytes.len();
        let mut i: usize = 0;
        while i < n
            invariant
                i <= n,
                n == self@.len(),
                bytes@ == self@,
                all_pad(self@.take(i as int)),
            decreases n - i,
        {
            if bytes[i] != 0x20u8 && bytes[i] != 0u8 {
                assert(!is_pad(self@[i as int]));
                return false;
            }
            assert(self@.take(i + 1) =~= self@.take(i as int).push(self@[i as int]));
            i = i + 1;
        }
        assert(self@.take(n as int) =~= self@);
        true
    }

    /// The string holds at least one byte that is not padding.
    pub fn has_value(&self) -> (b: bool)
        ensures
            b == !all_pad(self@),
    {
        !self.is_empty()
    }

    /// Replace the string with `value`, padded with spaces.
    /// Returns `false` and leaves the string unchanged when `value` is longer than `N`.
    pub fn assign(&mut self, value: &[u8]) -> (assigned: bool)
        ensures
            assigned == (value@.len() <= N),
            assigned ==> final(self)@ == space_padded(value@, N as nat),
            !assigned ==> final(self)@ == old(self)@,
    {
        match Self::from_bytes(value) {
            Ok(s) => {
                *self = s;
                true
            },
            Err(_) => false,
        }
    }

    /// Two `MqStr` are equal when their values (without padding) are equal.
    pub fn value_eq<const Y: usize>(&self, other: &MqStr<Y>) -> (b: bool)
        ensures
            b == (self.spec_value() == other.spec_value()),
    {
        bytes_eq(self.value(), other.value())
    }

    /// The value of the string equals the UTF-8 bytes of `other`.
    pub fn eq_str(&self, other: &str) -> (b: bool)
        ensures
            b == (self.spec_value() == other.spec_bytes()),
    {
        bytes_eq(self.value(), other.as_bytes())
    }
}

/// Byte-wise equality of two slices.
pub fn bytes_eq(a: &[u8], b: &[u8]) -> (r: bool)
    ensures
        r == (a@ == b@),
{
    if a.len() != b.len() {
        return false;
    }
    let mut i: usize = 0;
    while i < a.len()
        invariant
            i <= a@.len(),
            a@.len() == b@.len(),
            forall|j: int| 0 <= j < i ==> a@[j] == b@[j],
        decreases a@.len() - i,
    {
        if a[i] != b[i] {
            return false;
        }
        i = i + 1;
    }
    assert(a@ =~= b@);
    true
}

/// A value written into a `MqStr` reads back as itself without its trailing padding.
pub proof fn law_value_of_padded(v: Seq<u8>, n: nat)
    requires
        v.len() <= n,
    ensures
        trimmed(space_padded(v, n)) == trimmed(v),
{
    lemma_trim_padded(v, n);
}

/// A string holds a value exactly when its value is not empty.
pub proof fn law_has_value_iff_nonempty_value(s: Seq<u8>)
    ensures
        !all_pad(s) <==> trimmed(s).len() > 0,
{
    lemma_trim_len_zero(s);
    lemma_trim_len_bounds(s);
}

} // verus!
