use vstd::prelude::*;

use crate::values::{MqValue, MQXA};

verus! {

/// What an inquiry asks for an attribute: text of a length, or an integer.
#[derive(Debug, Clone, Copy, PartialEq, Eq, Structural)]
pub enum InqReqItem {
    Str(usize),
    Long,
}

/// An attribute and what is asked for it.
pub type InqReqType = (MqValue<MQXA>, InqReqItem);

/// The value an inquiry returned for an attribute.
#[derive(Debug, Clone, Copy)]
pub enum InqResItem<'a> {
    Str(&'a [u8]),
    Long(i32),
}

/// The view of a returned value, with its text as bytes.
pub enum InqValueView {
    Str(Seq<u8>),
    Long(i32),
}

/// The values of an inquiry: the text of all text attributes, the integers, and the
/// attributes asked for.
#[derive(Debug, Clone)]
pub struct InqRes {
    pub strings: Vec<u8>,
    pub longs: Vec<i32>,
    pub select: Vec<InqReqType>,
}

/// The sum of the text lengths asked for.
pub open spec fn spec_str_total(select: Seq<InqReqType>) -> nat
    decreases select.len(),
{
    if select.len() == 0 {
        0
    } else {
        spec_str_total(select.drop_last()) + match select.last().1 {
            InqReqItem::Str(len) => len as nat,
            InqReqItem::Long => 0,
        }
    }
}

/// The number of integers asked for.
pub open spec fn spec_long_count(select: Seq<InqReqType>) -> nat
    decreases select.len(),
{
    if select.len() == 0 {
        0
    } else {
        spec_long_count(select.drop_last()) + match select.last().1 {
            InqReqItem::Str(_) => 0nat,
            InqReqItem::Long => 1nat,
        }
    }
}

/// The values read from `select` on: text takes its length of the text from `pos`, an
/// integer the next integer; the values end where the integers run out.
pub open spec fn spec_inq_values(
    select: Seq<InqReqType>,
    longs: Seq<i32>,
    strings: Seq<u8>,
    pos: int,
) -> Seq<(MqValue<MQXA>, InqValueView)>
    decreases select.len(),
{
    if select.len() == 0 {
        Seq::empty()
    } else {
        match select[0].1 {
            InqReqItem::Str(len) => seq![(select[0].0, InqValueView::Str(strings.subrange(pos, pos + len)))]
                + spec_inq_values(select.drop_first(), longs, strings, pos + len),
            InqReqItem::Long => if longs.len() == 0 {
                Seq::empty()
            } else {
                seq![(select[0].0, InqValueView::Long(longs[0]))] + spec_inq_values(
                    select.drop_first(),
                    longs.drop_first(),
                    strings,
                    pos,
                )
            },
        }
    }
}

/// The view of a returned value.
pub open spec fn inq_value_view(v: (MqValue<MQXA>, InqResItem)) -> (MqValue<MQXA>, InqValueView) {
    (
        v.0,
        match v.1 {
            InqResItem::Str(s) => InqValueView::Str(s@),
            InqResItem::Long(l) => InqValueView::Long(l),
        },
    )
}

/// The text total of a prefix of the attributes grows with the prefix.
proof fn lemma_str_total_take(select: Seq<InqReqType>, i: int, j: int)
    requires
        0 <= i <= j <= select.len(),
    ensures
        spec_str_total(select.take(i)) <= spec_str_total(select.take(j)),
    decreases j - i,
{
    if i < j {
        assert(select.take(j).drop_last() =~= select.take(j - 1));
        lemma_str_total_take(select, i, j - 1);
    }
}

impl InqRes {
    /// The returned values, in the order asked for.
    pub fn iter_mqchar(&self) -> (r: Vec<(MqValue<MQXA>, InqResItem<'_>)>)
        requires
            spec_str_total(self.select@) <= self.strings@.len(),
        ensures
            r@.map_values(|v: (MqValue<MQXA>, InqResItem)| inq_value_view(v)) == spec_inq_values(
                self.select@,
                self.longs@,
                self.strings@,
                0,
            ),
    {
        let mut out: Vec<(MqValue<MQXA>, InqResItem<'_>)> = Vec::new();
        let ghost select = self.select@;
        let ghost longs = self.longs@;
        let ghost strings = self.strings@;
        let mut si: usize = 0;
        let mut li: usize = 0;
        let mut pos: usize = 0;
        let total = self.strings.len();
        assert(select.skip(0) =~= select);
        assert(longs.skip(0) =~= longs);
        assert(select.take(0) =~= Seq::<InqReqType>::empty());
        assert(out@.map_values(|v: (MqValue<MQXA>, InqResItem)| inq_value_view(v)) =~= Seq::empty());
        assert(Seq::<(MqValue<MQXA>, InqValueView)>::empty() + spec_inq_values(select, longs, strings, 0)
            =~= spec_inq_values(select, longs, strings, 0));
        loop
            invariant
                select == self.select@,
                longs == self.longs@,
                strings == self.strings@,
                total == strings.len(),
                spec_str_total(select) <= strings.len(),
                si <= select.len(),
                li <= longs.len(),
                pos == spec_str_total(select.take(si as int)),
                out@.map_values(|v: (MqValue<MQXA>, InqResItem)| inq_value_view(v)) + spec_inq_values(
                    select.skip(si as int),
                    longs.skip(li as int),
                    strings,
                    pos as int,
                ) == spec_inq_values(select, longs, strings, 0),
            ensures
                out@.map_values(|v: (MqValue<MQXA>, InqResItem)| inq_value_view(v)) == spec_inq_values(
                    select,
                    longs,
                    strings,
                    0,
                ),
            decreases select.len() - si,
        {
            let ghost rest = spec_inq_values(select.skip(si as int), longs.skip(li as int), strings, pos as int);
            let ghost before = out@.map_values(|v: (MqValue<MQXA>, InqResItem)| inq_value_view(v));
            if si >= self.select.len() {
                assert(rest =~= Seq::<(MqValue<MQXA>, InqValueView)>::empty());
                assert(before + rest =~= before);
                break;
            }
            let (sel, item) = self.select[si];
            assert(select.skip(si as int)[0] == (sel, item));
            assert(select.skip(si as int).drop_first() =~= select.skip(si + 1));
            assert(select.take(si + 1).drop_last() =~= select.take(si as int));
            assert(select.take(si + 1).last() == (sel, item));
            match item {
                InqReqItem::Str(len) => {
                    proof {
                        lemma_str_total_take(select, si + 1, select.len() as int);
                        assert(select.take(select.len() as int) =~= select);
                    }
                    let end = pos + len;
                    let value = vstd::slice::slice_subrange(self.strings.as_slice(), pos, end);
                    let v = (sel, InqResItem::Str(value));
                    out.push(v);
                    assert(out@.map_values(|v: (MqValue<MQXA>, InqResItem)| inq_value_view(v)) =~= before.push(
                        inq_value_view(v),
                    ));
                    si = si + 1;
                    pos = end;
                },
                InqReqItem::Long => {
                    if li >= self.longs.len() {
                        assert(rest =~= Seq::<(MqValue<MQXA>, InqValueView)>::empty());
                        assert(before + rest =~= before);
                        break;
                    }
                    let v = (sel, InqResItem::Long(self.longs[li]));
                    assert(longs.skip(li as int)[0] == longs[li as int]);
                    assert(longs.skip(li as int).drop_first() =~= longs.skip(li + 1));
                    out.push(v);
                    assert(out@.map_values(|v: (MqValue<MQXA>, InqResItem)| inq_value_view(v)) =~= before.push(
                        inq_value_view(v),
                    ));
                    si = si + 1;
                    li = li + 1;
                },
            }
        }
        out
    }
}

/// What an inquiry of the attributes `select` needs before the call to `MQINQ`: the
/// selectors, the total text length and the number of integers.
pub fn inq_lengths(select: &[InqReqType]) -> (r: (Vec<MqValue<MQXA>>, usize, usize))
    requires
        spec_str_total(select@) <= usize::MAX,
    ensures
        r.0@ == select@.map_values(|s: InqReqType| s.0),
        r.1 == spec_str_total(select@),
        r.2 == spec_long_count(select@),
{
    let mut text_len: usize = 0;
    let mut int_len: usize = 0;
    let mut sel: Vec<MqValue<MQXA>> = Vec::new();
    let mut k: usize = 0;
    while k < select.len()
        invariant
            k <= select@.len(),
            spec_str_total(select@) <= usize::MAX,
            sel@ == select@.take(k as int).map_values(|s: InqReqType| s.0),
            text_len == spec_str_total(select@.take(k as int)),
            int_len == spec_long_count(select@.take(k as int)),
            int_len <= k,
        decreases select@.len() - k,
    {
        let (n, val) = select[k];
        assert(select@.take(k + 1).drop_last() =~= select@.take(k as int));
        assert(select@.take(k + 1).last() == (n, val));
        proof {
            lemma_str_total_take(select@, k + 1, select@.len() as int);
            assert(select@.take(select@.len() as int) =~= select@);
        }
        match val {
            InqReqItem::Str(len) => {
                text_len = text_len + len;
            },
            InqReqItem::Long => {
                int_len = int_len + 1;
            },
        }
        sel.push(n);
        assert(sel@ =~= select@.take(k + 1).map_values(|s: InqReqType| s.0));
        k = k + 1;
    }
    assert(select@.take(select@.len() as int) =~= select@);
    (sel, text_len, int_len)
}

} // verus!
