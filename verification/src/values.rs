use vstd::prelude::*;

use libmqm_constants::lookup::ConstLookup;

use crate::constants::{MQCA_FIRST, MQCA_LAST, MQIA_FIRST, MQIA_LAST};

verus! {

/// The upper case hexadecimal digit of `n`.
pub open spec fn upper_hex_digit(n: nat) -> char {
    if n < 10 {
        (('0' as nat) + n) as char
    } else {
        (('A' as nat) + n - 10) as char
    }
}

/// The upper case hexadecimal digits of `n`, without leading zeros.
pub open spec fn upper_hex(n: nat) -> Seq<char>
    decreases n,
{
    if n < 16 {
        seq![upper_hex_digit(n)]
    } else {
        upper_hex(n / 16) + seq![upper_hex_digit(n % 16)]
    }
}

/// `0x` and the upper case hexadecimal digits of the 32 bits of `v` (the `{:#X}` form).
pub open spec fn hex_prefixed(v: i32) -> Seq<char> {
    seq!['0', 'x'] + upper_hex(v as u32 as nat)
}

/// `0x` and at least eight upper case hexadecimal digits of the 32 bits of `v`, padded with
/// zeros (the `{:#010X}` form).
pub open spec fn hex_prefixed_8(v: i32) -> Seq<char> {
    let digits = upper_hex(v as u32 as nat);
    seq!['0', 'x'] + Seq::new((8 - digits.len()) as nat, |i: int| '0') + digits
}

/// The one character string of an upper case hexadecimal digit.
fn upper_hex_digit_str(n: u32) -> (r: &'static str)
    requires
        n < 16,
    ensures
        r@ == seq![upper_hex_digit(n as nat)],
{
    match n {
        0 => {
            proof { reveal_strlit("0"); }
            "0"
        },
        1 => {
            proof { reveal_strlit("1"); }
            "1"
        },
        2 => {
            proof { reveal_strlit("2"); }
            "2"
        },
        3 => {
            proof { reveal_strlit("3"); }
            "3"
        },
        4 => {
            proof { reveal_strlit("4"); }
            "4"
        },
        5 => {
            proof { reveal_strlit("5"); }
            "5"
        },
        6 => {
            proof { reveal_strlit("6"); }
            "6"
        },
        7 => {
            proof { reveal_strlit("7"); }
            "7"
        },
        8 => {
            proof { reveal_strlit("8"); }
            "8"
        },
        9 => {
            proof { reveal_strlit("9"); }
            "9"
        },
        10 => {
            proof { reveal_strlit("A"); }
            "A"
        },
        11 => {
            proof { reveal_strlit("B"); }
            "B"
        },
        12 => {
            proof { reveal_strlit("C"); }
            "C"
        },
        13 => {
            proof { reveal_strlit("D"); }
            "D"
        },
        14 => {
            proof { reveal_strlit("E"); }
            "E"
        },
        _ => {
            proof { reveal_strlit("F"); }
            "F"
        },
    }
}

/// The number of hexadecimal digits of `n`.
proof fn lemma_upper_hex_len(n: nat)
    ensures
        1 <= upper_hex(n).len(),
        n < 0x1_0000_0000 ==> upper_hex(n).len() <= 8,
    decreases n,
{
    if n >= 16 {
        lemma_upper_hex_len(n / 16);
    }
    if n < 0x1_0000_0000 {
        assert(pow16(8) == 0x1_0000_0000) by {
            reveal_with_fuel(pow16, 9);
        }
        lemma_upper_hex_len_bound(n, 8);
    }
}

/// Numbers below `16^k` have at most `k` digits.
proof fn lemma_upper_hex_len_bound(n: nat, k: nat)
    requires
        k >= 1,
        n < pow16(k),
    ensures
        upper_hex(n).len() <= k,
    decreases k,
{
    if n >= 16 {
        assert(k >= 2) by {
            if k == 1 {
                assert(pow16(1) == 16 * pow16(0));
            }
        }
        assert(n / 16 < pow16((k - 1) as nat)) by {
            assert(pow16(k) == 16 * pow16((k - 1) as nat));
        }
        lemma_upper_hex_len_bound(n / 16, (k - 1) as nat);
    }
}

/// Sixteen to the power `k`.
pub open spec fn pow16(k: nat) -> nat
    decreases k,
{
    if k == 0 {
        1
    } else {
        16 * pow16((k - 1) as nat)
    }
}

/// Append the upper case hexadecimal digits of `n` to `s`.
fn push_upper_hex(s: &mut String, n: u32)
    ensures
        final(s)@ == old(s)@ + upper_hex(n as nat),
    decreases n,
{
    if n >= 16 {
        push_upper_hex(s, n / 16);
    }
    s.append(upper_hex_digit_str(n % 16));
    assert(s@ =~= old(s)@ + upper_hex(n as nat));
}

/// The number of upper case hexadecimal digits of `n`.
fn upper_hex_len(n: u32) -> (r: usize)
    ensures
        r == upper_hex(n as nat).len(),
        1 <= r <= 8,
    decreases n,
{
    proof {
        lemma_upper_hex_len(n as nat);
    }
    if n >= 16 {
        1 + upper_hex_len(n / 16)
    } else {
        1
    }
}

/// The `{:#X}` form of `v`: `0x` and its upper case hexadecimal digits.
pub fn hex_string(v: i32) -> (s: String)
    ensures
        s@ == hex_prefixed(v),
{
    let mut s = String::from_str("0x");
    proof {
        reveal_strlit("0x");
    }
    push_upper_hex(&mut s, v as u32);
    s
}

/// The `{:#010X}` form of `v`: `0x` and its upper case hexadecimal digits padded with zeros
/// to eight.
pub fn hex_string_8(v: i32) -> (s: String)
    ensures
        s@ == hex_prefixed_8(v),
{
    let mut digits = String::new();
    push_upper_hex(&mut digits, v as u32);
    proof {
        lemma_upper_hex_len(v as u32 as nat);
    }
    let mut s = String::from_str("0x");
    proof {
        reveal_strlit("0x");
        reveal_strlit("0");
    }
    let n = upper_hex_len(v as u32);
    let mut k: usize = n;
    while k < 8
        invariant
            n == upper_hex(v as u32 as nat).len(),
            n <= k <= 8,
            s@ == seq!['0', 'x'] + Seq::new((k - n) as nat, |i: int| '0'),
        decreases 8 - k,
    {
        s.append("0");
        proof {
            reveal_strlit("0");
        }
        assert(s@ =~= seq!['0', 'x'] + Seq::new((k + 1 - n) as nat, |i: int| '0'));
        k = k + 1;
    }
    s.append(digits.as_str());
    assert(s@ =~= hex_prefixed_8(v));
    s
}

/// The primary name of a bag handle value in the table of `libmqm_constants`: `MQHB_NONE`
/// for -2, `MQHB_UNUSABLE_HBAG` for -1, none for the others.
pub open spec fn spec_mqhb_name(v: i32) -> Option<Seq<char>> {
    if v == -2 {
        Some("MQHB_NONE"@)
    } else if v == -1 {
        Some("MQHB_UNUSABLE_HBAG"@)
    } else {
        None
    }
}

/// The first name of a bag handle value in the `MQHB` table of `libmqm_constants`
/// (`mapping::MQHB_MAPSTR.by_value`). The table holds `MQHB_NONE` for -2 and
/// `MQHB_UNUSABLE_HBAG` for -1 and nothing else.
#[verifier::external_body]
fn mqhb_name(v: i32) -> (r: Option<&'static str>)
    ensures
        match r {
            Some(n) => spec_mqhb_name(v) == Some(n@),
            None => spec_mqhb_name(v) is None,
        },
{
    libmqm_constants::mapping::MQHB_MAPSTR.by_value(v).next()
}

/// The handle of an MQAI data bag.
#[derive(Debug, Clone, Copy, PartialEq, Eq, Structural)]
pub struct BagHandle(pub i32);

/// The bag handle of no bag (`MQHB_NONE`).
pub const MQHB_NONE: i32 = -2;

/// The unusable bag handle (`MQHB_UNUSABLE_HBAG`).
pub const MQHB_UNUSABLE_HBAG: i32 = -1;

/// The display form of a bag handle: `HBAG(` and its name or `{:#010X}` form, and `)`.
pub open spec fn spec_bag_display(v: i32) -> Seq<char> {
    seq!['H', 'B', 'A', 'G', '('] + match spec_mqhb_name(v) {
        Some(n) => n,
        None => hex_prefixed_8(v),
    } + seq![')']
}

impl BagHandle {
    /// A bag handle of a raw value.
    pub fn from(value: i32) -> (r: Self)
        ensures
            r.0 == value,
    {
        BagHandle(value)
    }

    /// The unusable bag handle.
    pub fn default_value() -> (r: Self)
        ensures
            r.0 == MQHB_UNUSABLE_HBAG,
    {
        BagHandle(MQHB_UNUSABLE_HBAG)
    }

    /// The handle refers to a bag that can be deleted: it is neither `MQHB_NONE` nor
    /// `MQHB_UNUSABLE_HBAG`.
    pub open spec fn spec_is_deletable(&self) -> bool {
        self.0 != MQHB_NONE && self.0 != MQHB_UNUSABLE_HBAG
    }

    /// The handle refers to a bag that can be deleted.
    pub fn is_deletable(&self) -> (b: bool)
        ensures
            b == self.spec_is_deletable(),
            b == (self.0 != MQHB_NONE && self.0 != MQHB_UNUSABLE_HBAG),
    {
        self.0 != MQHB_NONE && self.0 != MQHB_UNUSABLE_HBAG
    }

    /// The display form: `HBAG(name)` for a known handle, `HBAG(0x........)` otherwise.
    pub fn display_string(&self) -> (s: String)
        ensures
            s@ == spec_bag_display(self.0),
    {
        let mut s = String::from_str("HBAG(");
        proof {
            reveal_strlit("HBAG(");
            reveal_strlit(")");
        }
        match mqhb_name(self.0) {
            Some(name) => s.append(name),
            None => {
                let h = hex_string_8(self.0);
                s.append(h.as_str());
            },
        }
        s.append(")");
        assert(s@ =~= spec_bag_display(self.0));
        s
    }
}

impl Default for BagHandle {
    fn default() -> (r: Self)
        ensures
            r.0 == MQHB_UNUSABLE_HBAG,
    {
        BagHandle(MQHB_UNUSABLE_HBAG)
    }
}

/// The named close options (`MQCO_*`) of the `libmqm_constants` table with a non-zero value,
/// in table order.
pub open spec fn mqco_flag_table() -> Seq<(i32, Seq<char>)> {
    seq![
        (1i32, "MQCO_DELETE"@),
        (2i32, "MQCO_DELETE_PURGE"@),
        (4i32, "MQCO_KEEP_SUB"@),
        (8i32, "MQCO_REMOVE_SUB"@),
        (32i32, "MQCO_QUIESCE"@),
    ]
}

/// The named close options all of whose bits are set in `v`, in table order.
pub open spec fn spec_mqco_flags(v: i32) -> Seq<(i32, Seq<char>)> {
    mqco_flag_table().filter(|e: (i32, Seq<char>)| v & e.0 == e.0)
}

/// The bits of `v` that no named close option covers.
pub open spec fn spec_mqco_residual(v: i32) -> i32 {
    v & !0x2F
}

/// The primary name of a close options value in the table of `libmqm_constants`.
pub open spec fn spec_mqco_name(v: i32) -> Option<Seq<char>> {
    if v == 0 {
        Some("MQCO_NONE"@)
    } else if v == 1 {
        Some("MQCO_DELETE"@)
    } else if v == 2 {
        Some("MQCO_DELETE_PURGE"@)
    } else if v == 4 {
        Some("MQCO_KEEP_SUB"@)
    } else if v == 8 {
        Some("MQCO_REMOVE_SUB"@)
    } else if v == 32 {
        Some("MQCO_QUIESCE"@)
    } else {
        None
    }
}

/// The named close options set in `v` and the bits left over
/// (`libmqm_constants::types::MQCO::bitflags_list`). The crate's table names the bits 1, 2,
/// 4, 8 and 32 (`MQCO_DELETE`, `MQCO_DELETE_PURGE`, `MQCO_KEEP_SUB`, `MQCO_REMOVE_SUB`,
/// `MQCO_QUIESCE`) besides the zero values, which the list leaves out; each whose bits are set
/// is listed in that order and its bits leave the residual.
#[verifier::external_body]
fn mqco_bitflags_list(v: i32) -> (r: (Vec<(i32, &'static str)>, i32))
    ensures
        r.0@.len() == spec_mqco_flags(v).len(),
        forall|i: int|
            0 <= i < r.0@.len() ==> (#[trigger] r.0@[i]).0 == spec_mqco_flags(v)[i].0 && r.0@[i].1@
                == spec_mqco_flags(v)[i].1,
        r.1 == spec_mqco_residual(v),
{
    let (list, residual) = libmqm_constants::types::MQCO(v).bitflags_list();
    (list.collect(), residual)
}

/// The first name of a close options value in the `MQCO` table of `libmqm_constants`
/// (`mapping::MQCO_MAPSTR.by_value`): `MQCO_NONE` for 0 (listed before `MQCO_IMMEDIATE`), and
/// the names of 1, 2, 4, 8 and 32.
#[verifier::external_body]
fn mqco_name(v: i32) -> (r: Option<&'static str>)
    ensures
        match r {
            Some(n) => spec_mqco_name(v) == Some(n@),
            None => spec_mqco_name(v) is None,
        },
{
    libmqm_constants::mapping::MQCO_MAPSTR.by_value(v).next()
}

/// Names joined with `|`.
pub open spec fn spec_join(parts: Seq<Seq<char>>) -> Seq<char>
    decreases parts.len(),
{
    if parts.len() == 0 {
        Seq::empty()
    } else if parts.len() == 1 {
        parts[0]
    } else {
        spec_join(parts.drop_last()) + seq!['|'] + parts.last()
    }
}

/// The display form of close options: the names of the set options and the residual bits in
/// `{:#X}` form, joined with `|`; for no option at all, the name of zero.
pub open spec fn spec_mqco_display(v: i32) -> Seq<char> {
    let names = spec_mqco_flags(v).map_values(|e: (i32, Seq<char>)| e.1);
    let residual = spec_mqco_residual(v);
    let parts = if residual != 0 {
        names.push(hex_prefixed(residual))
    } else {
        names
    };
    if parts.len() > 0 {
        spec_join(parts)
    } else {
        match spec_mqco_name(residual) {
            Some(n) => n,
            None => hex_prefixed(v),
        }
    }
}

/// The close options (`MQCO_*`) type of a mask.
#[derive(Debug, Clone, Copy, PartialEq, Eq, Structural)]
pub struct MQCO;

/// A mask of option bits of the constant type `T`.
#[derive(Debug, Clone, Copy)]
pub struct MqMask<T> {
    pub value: i32,
    pub kind: T,
}

impl MqMask<MQCO> {
    /// A mask of close options.
    pub fn from(value: i32) -> (r: Self)
        ensures
            r.value == value,
    {
        MqMask { value, kind: MQCO }
    }

    /// The named options set in the mask, and the bits left over.
    pub fn masked_list(&self) -> (r: (Vec<(i32, &'static str)>, i32))
        ensures
            r.0@.len() == spec_mqco_flags(self.value).len(),
            forall|i: int|
                0 <= i < r.0@.len() ==> (#[trigger] r.0@[i]).0 == spec_mqco_flags(self.value)[i].0
                    && r.0@[i].1@ == spec_mqco_flags(self.value)[i].1,
            r.1 == spec_mqco_residual(self.value),
    {
        mqco_bitflags_list(self.value)
    }

    /// The display form: the names of the set options and the residual bits, joined with `|`.
    pub fn display_string(&self) -> (s: String)
        ensures
            s@ == spec_mqco_display(self.value),
    {
        let (list, residual) = mqco_bitflags_list(self.value);
        let ghost names = spec_mqco_flags(self.value).map_values(|e: (i32, Seq<char>)| e.1);
        let mut s = String::new();
        let mut i: usize = 0;
        let n = list.len();
        while i < n
            invariant
                n == list@.len(),
                i <= n,
                names.len() == n,
                forall|j: int| 0 <= j < n ==> (#[trigger] list@[j]).1@ == names[j],
                s@ == spec_join(names.take(i as int)),
            decreases n - i,
        {
            if i > 0 {
                s.append("|");
                proof {
                    reveal_strlit("|");
                }
            }
            s.append(list[i].1);
            assert(names.take(i + 1).drop_last() =~= names.take(i as int));
            assert(s@ =~= spec_join(names.take(i + 1)));
            i = i + 1;
        }
        assert(names.take(n as int) =~= names);
        if residual != 0 {
            if n > 0 {
                s.append("|");
                proof {
                    reveal_strlit("|");
                }
            }
            let h = hex_string(residual);
            s.append(h.as_str());
            assert(names.push(hex_prefixed(residual)).drop_last() =~= names);
            assert(s@ =~= spec_join(names.push(hex_prefixed(residual))));
        }
        if n == 0 && residual == 0 {
            match mqco_name(residual) {
                Some(name) => {
                    s = String::from_str(name);
                },
                None => {
                    s = hex_string(self.value);
                },
            }
        }
        s
    }
}

/// The attribute selector (`MQXA`, the `MQIA_*` and `MQCA_*` constants) type of a value.
#[derive(Debug, Clone, Copy, PartialEq, Eq, Structural)]
pub struct MQXA;

/// A value of the constant type `T`.
#[derive(Debug, Clone, Copy, PartialEq, Eq, Structural)]
pub struct MqValue<T> {
    pub value: i32,
    pub kind: T,
}

impl MqValue<MQXA> {
    /// An attribute selector.
    pub fn from(value: i32) -> (r: Self)
        ensures
            r.value == value,
    {
        MqValue { value, kind: MQXA }
    }

    /// The selector is in the character attribute range `MQCA_FIRST..=MQCA_LAST`.
    pub open spec fn spec_is_text(self) -> bool {
        MQCA_FIRST <= self.value <= MQCA_LAST
    }

    /// The selector is in the integer attribute range `MQIA_FIRST..=MQIA_LAST`.
    pub open spec fn spec_is_int(self) -> bool {
        MQIA_FIRST <= self.value <= MQIA_LAST
    }

    /// The selector is in the character attribute range `MQCA_FIRST..=MQCA_LAST`.
    pub fn is_text(&self) -> (b: bool)
        ensures
            b == self.spec_is_text(),
    {
        let val = self.value;
        val >= MQCA_FIRST && val <= MQCA_LAST
    }

    /// The selector is in the integer attribute range `MQIA_FIRST..=MQIA_LAST`.
    pub fn is_int(&self) -> (b: bool)
        ensures
            b == self.spec_is_int(),
    {
        let val = self.value;
        val >= MQIA_FIRST && val <= MQIA_LAST
    }
}

/// The open options (`MQOO_*`) type of a mask.
#[derive(Debug, Clone, Copy, PartialEq, Eq, Structural)]
pub struct MQOO;

/// The put message options (`MQPMO_*`) type of a mask.
#[derive(Debug, Clone, Copy, PartialEq, Eq, Structural)]
pub struct MQPMO;

/// The get message options (`MQGMO_*`) type of a mask.
#[derive(Debug, Clone, Copy, PartialEq, Eq, Structural)]
pub struct MQGMO;

impl MqMask<MQOO> {
    /// A mask of open options.
    pub fn from(value: i32) -> (r: Self)
        ensures
            r.value == value,
    {
        MqMask { value, kind: MQOO }
    }
}

impl MqMask<MQPMO> {
    /// A mask of put message options.
    pub fn from(value: i32) -> (r: Self)
        ensures
            r.value == value,
    {
        MqMask { value, kind: MQPMO }
    }
}

impl MqMask<MQGMO> {
    /// A mask of get message options.
    pub fn from(value: i32) -> (r: Self)
        ensures
            r.value == value,
    {
        MqMask { value, kind: MQGMO }
    }
}

/// The subscription options (`MQSO_*`) type of a mask.
#[derive(Debug, Clone, Copy, PartialEq, Eq, Structural)]
pub struct MQSO;

/// The subscription request options (`MQSRO_*`) type of a mask.
#[derive(Debug, Clone, Copy, PartialEq, Eq, Structural)]
pub struct MQSRO;

/// The subscription request actions (`MQSR_*`) type of a value.
#[derive(Debug, Clone, Copy, PartialEq, Eq, Structural)]
pub struct MQSR;

impl MqMask<MQSO> {
    /// A mask of subscription options.
    pub fn from(value: i32) -> (r: Self)
        ensures
            r.value == value,
    {
        MqMask { value, kind: MQSO }
    }
}

impl MqMask<MQSRO> {
    /// A mask of subscription request options.
    pub fn from(value: i32) -> (r: Self)
        ensures
            r.value == value,
    {
        MqMask { value, kind: MQSRO }
    }
}

impl MqValue<MQSR> {
    /// A subscription request action.
    pub fn from(value: i32) -> (r: Self)
        ensures
            r.value == value,
    {
        MqValue { value, kind: MQSR }
    }
}

impl<T: Copy> MqMask<T> {
    /// The mask with the bits of `other` added.
    pub fn insert(&mut self, other: i32)
        ensures
            final(self).value == old(self).value | other,
            final(self).kind == old(self).kind,
    {
        self.value = self.value | other;
    }

    /// The mask holds every bit of `other`.
    pub fn contains(&self, other: i32) -> (b: bool)
        ensures
            b == (self.value & other == other),
    {
        self.value & other == other
    }
}

/// A mask holds every bit inserted into it, and every bit it held before.
pub proof fn law_insert_then_contains(before: i32, inserted: i32, other: i32)
    ensures
        (before | inserted) & inserted == inserted,
        before & other == other ==> (before | inserted) & other == other,
{
    assert((before | inserted) & inserted == inserted) by (bit_vector);
    assert(before & other == other ==> (before | inserted) & other == other) by (bit_vector);
}

} // verus!
