use vstd::prelude::*;

use crate::values::{MqValue, MQXA};

verus! {

/// An attribute to inquire: its selector and, for a character attribute, its length.
#[derive(Debug, Clone, Copy)]
pub struct AttributeType {
    pub attribute: MqValue<MQXA>,
    pub text_len: u32,
}

/// Why an attribute item was refused.
#[derive(Debug, Clone, Copy)]
pub enum AttributeError {
    /// The selector is not an integer attribute.
    NotIntType(MqValue<MQXA>),
    /// The selector is not a character attribute.
    NotTextType(MqValue<MQXA>),
    /// The text does not have the attribute's length: the actual length, then the expected.
    InvalidTextLength(usize, usize),
}

/// An integer attribute and its value.
#[derive(Debug, Clone, Copy)]
pub struct IntItem {
    pub selector: MqValue<MQXA>,
    pub value: i32,
}

/// A character attribute and its value.
#[derive(Debug, Clone, Copy)]
pub struct TextItem<T> {
    pub selector: MqValue<MQXA>,
    pub value: T,
}

/// An attribute returned by an inquiry.
#[derive(Debug, Clone, Copy)]
pub enum InqResItem<T> {
    Text(TextItem<T>),
    Long(IntItem),
}

/// The value of an attribute.
#[derive(Debug, Clone, Copy)]
pub enum AttributeValue<T> {
    Text(T),
    Long(i32),
}

impl AttributeType {
    /// An attribute to inquire; `text_len` is the length of a character attribute.
    pub fn new(attribute: MqValue<MQXA>, text_len: u32) -> (r: Self)
        ensures
            r.attribute == attribute,
            r.text_len == text_len,
    {
        AttributeType { attribute, text_len }
    }

    /// An integer item of this attribute; refused when the attribute is not an integer.
    pub fn int_item(self, value: i32) -> (r: Result<IntItem, AttributeError>)
        ensures
            self.attribute.spec_is_int() ==> r == Ok::<IntItem, AttributeError>(
                IntItem { selector: self.attribute, value },
            ),
            !self.attribute.spec_is_int() ==> r == Err::<IntItem, AttributeError>(
                AttributeError::NotIntType(self.attribute),
            ),
    {
        IntItem::new(self.attribute, value)
    }

    /// A character item of this attribute; refused when the attribute is not a character
    /// attribute, or the text does not have its length.
    pub fn text_item(self, value: &[u8]) -> (r: Result<TextItem<&[u8]>, AttributeError>)
        ensures
            spec_text_item(self, value, r),
    {
        TextItem::new(self, value)
    }
}

/// What making a character item of `attr_type` with `value` gives.
pub open spec fn spec_text_item<'a>(
    attr_type: AttributeType,
    value: &'a [u8],
    r: Result<TextItem<&'a [u8]>, AttributeError>,
) -> bool {
    if !attr_type.attribute.spec_is_text() {
        r == Err::<TextItem<&'a [u8]>, AttributeError>(AttributeError::NotTextType(attr_type.attribute))
    } else if value@.len() != attr_type.text_len {
        r == Err::<TextItem<&'a [u8]>, AttributeError>(
            AttributeError::InvalidTextLength(value@.len() as usize, attr_type.text_len as usize),
        )
    } else {
        r == Ok::<TextItem<&'a [u8]>, AttributeError>(TextItem { selector: attr_type.attribute, value })
    }
}

impl IntItem {
    /// An integer item; refused when the selector is not an integer attribute.
    pub fn new(selector: MqValue<MQXA>, value: i32) -> (r: Result<Self, AttributeError>)
        ensures
            selector.spec_is_int() ==> r == Ok::<IntItem, AttributeError>(IntItem { selector, value }),
            !selector.spec_is_int() ==> r == Err::<IntItem, AttributeError>(
                AttributeError::NotIntType(selector),
            ),
    {
        if selector.is_int() {
            Ok(IntItem { selector, value })
        } else {
            Err(AttributeError::NotIntType(selector))
        }
    }

    /// An integer item of a selector known to be an integer attribute.
    pub fn new_unchecked(selector: MqValue<MQXA>, value: i32) -> (r: Self)
        requires
            selector.spec_is_int(),
        ensures
            r == (IntItem { selector, value }),
    {
        IntItem { selector, value }
    }
}

impl<'a> TextItem<&'a [u8]> {
    /// A character item; refused when the attribute is not a character attribute, or the
    /// text does not have its length.
    pub fn new(attr_type: AttributeType, value: &'a [u8]) -> (r: Result<Self, AttributeError>)
        ensures
            spec_text_item(attr_type, value, r),
    {
        if !attr_type.attribute.is_text() {
            Err(AttributeError::NotTextType(attr_type.attribute))
        } else if value.len() != attr_type.text_len as usize {
            Err(AttributeError::InvalidTextLength(value.len(), attr_type.text_len as usize))
        } else {
            Ok(TextItem { selector: attr_type.attribute, value })
        }
    }

    /// A character item of a selector known to be a character attribute.
    pub fn new_unchecked(selector: MqValue<MQXA>, value: &'a [u8]) -> (r: Self)
        requires
            selector.spec_is_text(),
        ensures
            r == (TextItem { selector, value }),
    {
        TextItem { selector, value }
    }
}

impl<T> InqResItem<T> {
    /// The selector and value of the item.
    pub fn into_tuple(self) -> (r: (MqValue<MQXA>, AttributeValue<T>))
        ensures
            match self {
                InqResItem::Text(t) => r == (t.selector, AttributeValue::<T>::Text(t.value)),
                InqResItem::Long(l) => r == (l.selector, AttributeValue::<T>::Long(l.value)),
            },
    {
        match self {
            InqResItem::Text(TextItem { selector, value }) => (selector, AttributeValue::Text(value)),
            InqResItem::Long(IntItem { selector, value }) => (selector, AttributeValue::Long(value)),
        }
    }
}

/// The attributes of an inquiry: the selectors, and the integer values, the text and the
/// text lengths in selector order.
#[derive(Debug, Clone)]
pub struct MultiItem {
    pub selectors: Vec<MqValue<MQXA>>,
    pub int_attr: Vec<i32>,
    pub text_attr: Vec<u8>,
    pub text_len: Vec<u32>,
}

/// The sum of text lengths.
pub open spec fn spec_sum(lens: Seq<u32>) -> nat
    decreases lens.len(),
{
    if lens.len() == 0 {
        0
    } else {
        spec_sum(lens.drop_last()) + lens.last() as nat
    }
}

/// The sum of a prefix of text lengths grows with the prefix.
proof fn lemma_sum_take(lens: Seq<u32>, i: int, j: int)
    requires
        0 <= i <= j <= lens.len(),
    ensures
        spec_sum(lens.take(i)) <= spec_sum(lens.take(j)),
        j == i + 1 ==> spec_sum(lens.take(j)) == spec_sum(lens.take(i)) + lens[i] as nat,
    decreases j - i,
{
    if i < j {
        assert(lens.take(j).drop_last() =~= lens.take(j - 1));
        lemma_sum_take(lens, i, j - 1);
    }
}

/// The items an inquiry's values make, from the selectors `sel` on: an integer attribute
/// takes the next integer value, a character attribute the next text length and that much
/// text from `pos`; the items end at the end of the selectors, at a value missing, or at a
/// selector that is neither.
pub open spec fn spec_items(
    sel: Seq<MqValue<MQXA>>,
    ints: Seq<i32>,
    text: Seq<u8>,
    lens: Seq<u32>,
    pos: int,
) -> Seq<InqResItem<Seq<u8>>>
    decreases sel.len(),
{
    if sel.len() == 0 {
        Seq::empty()
    } else if sel[0].spec_is_int() {
        if ints.len() == 0 {
            Seq::empty()
        } else {
            seq![InqResItem::Long(IntItem { selector: sel[0], value: ints[0] })] + spec_items(
                sel.drop_first(),
                ints.drop_first(),
                text,
                lens,
                pos,
            )
        }
    } else if sel[0].spec_is_text() {
        if lens.len() == 0 {
            Seq::empty()
        } else {
            seq![
                InqResItem::Text(
                    TextItem { selector: sel[0], value: text.subrange(pos, pos + lens[0] as int) },
                ),
            ] + spec_items(sel.drop_first(), ints, text, lens.drop_first(), pos + lens[0] as int)
        }
    } else {
        Seq::empty()
    }
}

/// The view of an item with its text as bytes.
pub open spec fn item_view(i: InqResItem<&[u8]>) -> InqResItem<Seq<u8>> {
    match i {
        InqResItem::Text(t) => InqResItem::Text(TextItem { selector: t.selector, value: t.value@ }),
        InqResItem::Long(l) => InqResItem::Long(l),
    }
}

impl MultiItem {
    /// The text lengths fit in the text.
    pub open spec fn wf(&self) -> bool {
        spec_sum(self.text_len@) <= self.text_attr@.len()
    }

    /// The items of the inquiry, in selector order.
    pub open spec fn spec_items(&self) -> Seq<InqResItem<Seq<u8>>> {
        spec_items(self.selectors@, self.int_attr@, self.text_attr@, self.text_len@, 0)
    }

    /// Add a character item.
    pub fn push_text_item(&mut self, text_item: &TextItem<&[u8]>)
        requires
            text_item.value@.len() <= u32::MAX,
        ensures
            final(self).selectors@ == old(self).selectors@.push(text_item.selector),
            final(self).text_len@ == old(self).text_len@.push(text_item.value@.len() as u32),
            final(self).text_attr@ == old(self).text_attr@ + text_item.value@,
            final(self).int_attr@ == old(self).int_attr@,
    {
        self.selectors.push(text_item.selector);
        self.text_len.push(text_item.value.len() as u32);
        let mut i: usize = 0;
        let ghost start = self.text_attr@;
        let ghost selectors = self.selectors@;
        let ghost lens = self.text_len@;
        let ghost ints = self.int_attr@;
        while i < text_item.value.len()
            invariant
                i <= text_item.value@.len(),
                self.text_attr@ == start + text_item.value@.take(i as int),
                self.selectors@ == selectors,
                self.text_len@ == lens,
                self.int_attr@ == ints,
            decreases text_item.value@.len() - i,
        {
            self.text_attr.push(text_item.value[i]);
            assert(text_item.value@.take(i + 1) =~= text_item.value@.take(i as int).push(text_item.value@[i as int]));
            i = i + 1;
        }
        assert(text_item.value@.take(text_item.value@.len() as int) =~= text_item.value@);
    }

    /// Add an integer item.
    pub fn push_int_item(&mut self, int_item: &IntItem)
        ensures
            final(self).selectors@ == old(self).selectors@.push(int_item.selector),
            final(self).int_attr@ == old(self).int_attr@.push(int_item.value),
            final(self).text_attr@ == old(self).text_attr@,
            final(self).text_len@ == old(self).text_len@,
    {
        self.selectors.push(int_item.selector);
        self.int_attr.push(int_item.value);
    }

    /// The items of the inquiry, in selector order.
    pub fn iter(&self) -> (r: Vec<InqResItem<&[u8]>>)
        requires
            self.wf(),
        ensures
            r@.map_values(|i: InqResItem<&[u8]>| item_view(i)) == self.spec_items(),
    {
        let mut out: Vec<InqResItem<&[u8]>> = Vec::new();
        let mut si: usize = 0;
        let mut ii: usize = 0;
        let mut li: usize = 0;
        let mut pos: usize = 0;
        let ghost sel = self.selectors@;
        let ghost ints = self.int_attr@;
        let ghost text = self.text_attr@;
        let ghost lens = self.text_len@;
        assert(sel.skip(0) =~= sel);
        assert(ints.skip(0) =~= ints);
        assert(lens.skip(0) =~= lens);
        assert(lens.take(0) =~= Seq::<u32>::empty());
        assert(out@.map_values(|i: InqResItem<&[u8]>| item_view(i)) =~= Seq::<InqResItem<Seq<u8>>>::empty());
        assert(Seq::<InqResItem<Seq<u8>>>::empty() + spec_items(sel, ints, text, lens, 0) =~= spec_items(sel, ints, text, lens, 0));
        loop
            invariant
                sel == self.selectors@,
                ints == self.int_attr@,
                text == self.text_attr@,
                lens == self.text_len@,
                spec_sum(lens) <= text.len(),
                si <= sel.len(),
                ii <= ints.len(),
                li <= lens.len(),
                pos == spec_sum(lens.take(li as int)),
                out@.map_values(|i: InqResItem<&[u8]>| item_view(i)) + spec_items(
                    sel.skip(si as int),
                    ints.skip(ii as int),
                    text,
                    lens.skip(li as int),
                    pos as int,
                ) == spec_items(sel, ints, text, lens, 0),
            ensures
                out@.map_values(|i: InqResItem<&[u8]>| item_view(i)) == spec_items(sel, ints, text, lens, 0),
            decreases sel.len() - si,
        {
            let ghost rest = spec_items(sel.skip(si as int), ints.skip(ii as int), text, lens.skip(li as int), pos as int);
            let ghost before = out@.map_values(|i: InqResItem<&[u8]>| item_view(i));
            if si >= self.selectors.len() {
                assert(rest =~= Seq::<InqResItem<Seq<u8>>>::empty());
                assert(before + rest =~= before);
                break;
            }
            let selector = self.selectors[si];
            assert(sel.skip(si as int)[0] == selector);
            assert(sel.skip(si as int).drop_first() =~= sel.skip(si + 1));
            if selector.is_int() {
                if ii >= self.int_attr.len() {
                    assert(rest =~= Seq::<InqResItem<Seq<u8>>>::empty());
                    assert(before + rest =~= before);
                    break;
                }
                let item = InqResItem::Long(IntItem::new_unchecked(selector, self.int_attr[ii]));
                assert(ints.skip(ii as int)[0] == ints[ii as int]);
                assert(ints.skip(ii as int).drop_first() =~= ints.skip(ii + 1));
                out.push(item);
                assert(out@.map_values(|i: InqResItem<&[u8]>| item_view(i)) =~= before.push(item_view(item)));
                si = si + 1;
                ii = ii + 1;
            } else if selector.is_text() {
                if li >= self.text_len.len() {
                    assert(rest =~= Seq::<InqResItem<Seq<u8>>>::empty());
                    assert(before + rest =~= before);
                    break;
                }
                let len = self.text_len[li];
                let text_total = self.text_attr.len();
                proof {
                    assert(lens.take(lens.len() as int) =~= lens);
                    lemma_sum_take(lens, li as int, li + 1);
                    lemma_sum_take(lens, li + 1, lens.len() as int);
                    assert(pos + len <= text_total);
                }
                let end = pos + len as usize;
                let value = vstd::slice::slice_subrange(self.text_attr.as_slice(), pos, end);
                let item = InqResItem::Text(TextItem::new_unchecked(selector, value));
                assert(lens.skip(li as int)[0] == len);
                assert(lens.skip(li as int).drop_first() =~= lens.skip(li + 1));
                out.push(item);
                assert(out@.map_values(|i: InqResItem<&[u8]>| item_view(i)) =~= before.push(item_view(item)));
                si = si + 1;
                li = li + 1;
                pos = end;
            } else {
                assert(rest =~= Seq::<InqResItem<Seq<u8>>>::empty());
                assert(before + rest =~= before);
                break;
            }
        }
        out
    }
}

impl MultiItem {
    /// An empty set of attributes.
    pub fn new() -> (r: Self)
        ensures
            r.selectors@.len() == 0,
            r.int_attr@.len() == 0,
            r.text_attr@.len() == 0,
            r.text_len@.len() == 0,
    {
        MultiItem { selectors: Vec::new(), int_attr: Vec::new(), text_attr: Vec::new(), text_len: Vec::new() }
    }

    /// The first item of the inquiry, owning its text: the text is cut to the first text
    /// length (it is left whole when shorter).
    pub fn into_first(self) -> (r: Option<InqResItem<Vec<u8>>>)
        ensures
            self.selectors@.len() == 0 ==> r is None,
            self.selectors@.len() > 0 ==> {
                let selector = self.selectors@[0];
                if selector.spec_is_int() {
                    if self.int_attr@.len() == 0 {
                        r is None
                    } else {
                        r matches Some(InqResItem::Long(l)) && l == (IntItem { selector, value: self.int_attr@[0] })
                    }
                } else if selector.spec_is_text() {
                    if self.text_len@.len() == 0 {
                        r is None
                    } else {
                        r matches Some(InqResItem::Text(t)) && t.selector == selector && t.value@
                            == (if self.text_len@[0] < self.text_attr@.len() {
                            self.text_attr@.take(self.text_len@[0] as int)
                        } else {
                            self.text_attr@
                        })
                    }
                } else {
                    r is None
                }
            },
    {
        if self.selectors.len() == 0 {
            return None;
        }
        let selector = self.selectors[0];
        if selector.is_int() {
            if self.int_attr.len() == 0 {
                return None;
            }
            Some(InqResItem::Long(IntItem::new_unchecked(selector, self.int_attr[0])))
        } else if selector.is_text() {
            if self.text_len.len() == 0 {
                return None;
            }
            let len = self.text_len[0] as usize;
            let mut text = self.text_attr;
            text.truncate(len);
            Some(InqResItem::Text(TextItem { selector, value: text }))
        } else {
            None
        }
    }
}

/// The items, with the selectors that `pushed` records.
pub open spec fn spec_pushed(items: Seq<InqResItem<Seq<u8>>>) -> (Seq<MqValue<MQXA>>, Seq<i32>, Seq<u8>, Seq<u32>)
    decreases items.len(),
{
    if items.len() == 0 {
        (Seq::empty(), Seq::empty(), Seq::empty(), Seq::empty())
    } else {
        let (sel, ints, text, lens) = spec_pushed(items.drop_last());
        match items.last() {
            InqResItem::Long(l) => (sel.push(l.selector), ints.push(l.value), text, lens),
            InqResItem::Text(t) => (sel.push(t.selector), ints, text + t.value, lens.push(t.value.len() as u32)),
        }
    }
}

/// Every item's selector has its kind, and every text fits a text length.
pub open spec fn spec_valid_items(items: Seq<InqResItem<Seq<u8>>>) -> bool {
    forall|i: int|
        0 <= i < items.len() ==> match #[trigger] items[i] {
            InqResItem::Long(l) => l.selector.spec_is_int(),
            InqResItem::Text(t) => t.selector.spec_is_text() && !t.selector.spec_is_int()
                && t.value.len() <= u32::MAX,
        }
}

/// The pushed selectors and values of items, given the first item and the pushed selectors
/// and values of the rest.
pub open spec fn spec_cons(
    item: InqResItem<Seq<u8>>,
    rest: (Seq<MqValue<MQXA>>, Seq<i32>, Seq<u8>, Seq<u32>),
) -> (Seq<MqValue<MQXA>>, Seq<i32>, Seq<u8>, Seq<u32>) {
    let (sel, ints, text, lens) = rest;
    match item {
        InqResItem::Long(l) => (seq![l.selector] + sel, seq![l.value] + ints, text, lens),
        InqResItem::Text(t) => (seq![t.selector] + sel, ints, t.value + text, seq![t.value.len() as u32] + lens),
    }
}

/// Pushing items one after the other is pushing the first, then the rest.
proof fn lemma_pushed_front(items: Seq<InqResItem<Seq<u8>>>)
    requires
        items.len() > 0,
    ensures
        spec_pushed(items) == spec_cons(items[0], spec_pushed(items.drop_first())),
    decreases items.len(),
{
    if items.len() == 1 {
        assert(items.drop_last() =~= Seq::<InqResItem<Seq<u8>>>::empty());
        assert(items.drop_first() =~= Seq::<InqResItem<Seq<u8>>>::empty());
        let (s, i, t, l) = spec_pushed(items);
        let (s2, i2, t2, l2) = spec_cons(items[0], spec_pushed(items.drop_first()));
        assert(s =~= s2);
        assert(i =~= i2);
        assert(t =~= t2);
        assert(l =~= l2);
    } else {
        let init = items.drop_last();
        lemma_pushed_front(init);
        assert(init.drop_first() =~= items.drop_first().drop_last());
        assert(items.drop_first().last() == items.last());
        assert(init[0] == items[0]);
        let (s, i, t, l) = spec_pushed(items);
        let (s2, i2, t2, l2) = spec_cons(items[0], spec_pushed(items.drop_first()));
        assert(s =~= s2);
        assert(i =~= i2);
        assert(t =~= t2);
        assert(l =~= l2);
    }
}

/// The items read from the pushed selectors and values, with any text before them, are the
/// items.
proof fn lemma_read_pushed(items: Seq<InqResItem<Seq<u8>>>, pre: Seq<u8>)
    requires
        spec_valid_items(items),
    ensures
        ({
            let (sel, ints, text, lens) = spec_pushed(items);
            spec_items(sel, ints, pre + text, lens, pre.len() as int) == items
        }),
    decreases items.len(),
{
    let (sel, ints, text, lens) = spec_pushed(items);
    if items.len() == 0 {
        assert(spec_items(sel, ints, pre + text, lens, pre.len() as int) =~= items);
    } else {
        lemma_pushed_front(items);
        let rest = items.drop_first();
        assert(spec_valid_items(rest)) by {
            assert forall|i: int| 0 <= i < rest.len() implies match #[trigger] rest[i] {
                InqResItem::Long(l) => l.selector.spec_is_int(),
                InqResItem::Text(t) => t.selector.spec_is_text() && !t.selector.spec_is_int()
                    && t.value.len() <= u32::MAX,
            } by {
                assert(rest[i] == items[i + 1]);
            }
        }
        let (s2, i2, t2, l2) = spec_pushed(rest);
        assert(match items[0] {
            InqResItem::Long(l) => l.selector.spec_is_int(),
            InqResItem::Text(t) => t.selector.spec_is_text() && !t.selector.spec_is_int()
                && t.value.len() <= u32::MAX,
        });
        match items[0] {
            InqResItem::Long(l) => {
                lemma_read_pushed(rest, pre);
                assert(sel.drop_first() =~= s2);
                assert(ints.drop_first() =~= i2);
                assert(spec_items(sel, ints, pre + text, lens, pre.len() as int) =~= seq![items[0]] + rest);
            },
            InqResItem::Text(t) => {
                let pre2 = pre + t.value;
                lemma_read_pushed(rest, pre2);
                assert(pre + text =~= pre2 + t2);
                assert(sel.drop_first() =~= s2);
                assert(lens.drop_first() =~= l2);
                assert((pre + text).subrange(pre.len() as int, (pre.len() + t.value.len()) as int) =~= t.value);
                assert(spec_items(sel, ints, pre + text, lens, pre.len() as int) =~= seq![items[0]] + rest);
            },
        }
        assert(seq![items[0]] + rest =~= items);
    }
}

/// Attributes pushed into an inquiry one after the other read back, in order, as the items
/// pushed; the text lengths add up to the text.
pub proof fn law_pushed_items_read_back(items: Seq<InqResItem<Seq<u8>>>)
    requires
        spec_valid_items(items),
    ensures
        ({
            let (sel, ints, text, lens) = spec_pushed(items);
            spec_items(sel, ints, text, lens, 0) == items
        }),
{
    lemma_read_pushed(items, Seq::empty());
    let (sel, ints, text, lens) = spec_pushed(items);
    assert(Seq::<u8>::empty() + text =~= text);
}

/// A one element slice of a value (`std::slice::from_ref`).
#[verifier::external_body]
fn slice_of_one<T>(value: &T) -> (r: &[T])
    ensures
        r@ == seq![*value],
{
    std::slice::from_ref(value)
}

/// A type whose attributes can be set in one call.
pub trait Sealed {}

/// Attributes to set: the selectors, the integer values and the text, in selector order.
pub trait SetItems: Sealed {
    /// The selectors.
    spec fn spec_selectors(&self) -> Seq<MqValue<MQXA>>;

    /// The integer values.
    spec fn spec_int_attr(&self) -> Seq<i32>;

    /// The text.
    spec fn spec_text_attr(&self) -> Seq<u8>;

    /// The selectors.
    fn selectors(&self) -> (r: &[MqValue<MQXA>])
        ensures
            r@ == self.spec_selectors(),
    ;

    /// The integer values.
    fn int_attr(&self) -> (r: &[i32])
        ensures
            r@ == self.spec_int_attr(),
    ;

    /// The text.
    fn text_attr(&self) -> (r: &[u8])
        ensures
            r@ == self.spec_text_attr(),
    ;
}

impl Sealed for MultiItem {}

impl SetItems for MultiItem {
    open spec fn spec_selectors(&self) -> Seq<MqValue<MQXA>> {
        self.selectors@
    }

    open spec fn spec_int_attr(&self) -> Seq<i32> {
        self.int_attr@
    }

    open spec fn spec_text_attr(&self) -> Seq<u8> {
        self.text_attr@
    }

    fn selectors(&self) -> (r: &[MqValue<MQXA>]) {
        self.selectors.as_slice()
    }

    fn int_attr(&self) -> (r: &[i32]) {
        self.int_attr.as_slice()
    }

    fn text_attr(&self) -> (r: &[u8]) {
        self.text_attr.as_slice()
    }
}

impl Sealed for IntItem {}

impl SetItems for IntItem {
    open spec fn spec_selectors(&self) -> Seq<MqValue<MQXA>> {
        seq![self.selector]
    }

    open spec fn spec_int_attr(&self) -> Seq<i32> {
        seq![self.value]
    }

    open spec fn spec_text_attr(&self) -> Seq<u8> {
        Seq::empty()
    }

    fn selectors(&self) -> (r: &[MqValue<MQXA>]) {
        slice_of_one(&self.selector)
    }

    fn int_attr(&self) -> (r: &[i32]) {
        slice_of_one(&self.value)
    }

    fn text_attr(&self) -> (r: &[u8]) {
        let empty: &[u8] = &[];
        assert(empty@ =~= Seq::<u8>::empty());
        empty
    }
}

impl<'a> Sealed for TextItem<&'a [u8]> {}

impl<'a> SetItems for TextItem<&'a [u8]> {
    open spec fn spec_selectors(&self) -> Seq<MqValue<MQXA>> {
        seq![self.selector]
    }

    open spec fn spec_int_attr(&self) -> Seq<i32> {
        Seq::empty()
    }

    open spec fn spec_text_attr(&self) -> Seq<u8> {
        self.value@
    }

    fn selectors(&self) -> (r: &[MqValue<MQXA>]) {
        slice_of_one(&self.selector)
    }

    fn int_attr(&self) -> (r: &[i32]) {
        let empty: &[i32] = &[];
        assert(empty@ =~= Seq::<i32>::empty());
        empty
    }

    fn text_attr(&self) -> (r: &[u8]) {
        self.value
    }
}

impl<'a> Sealed for InqResItem<&'a [u8]> {}

impl<'a> SetItems for InqResItem<&'a [u8]> {
    open spec fn spec_selectors(&self) -> Seq<MqValue<MQXA>> {
        match self {
            InqResItem::Text(t) => t.spec_selectors(),
            InqResItem::Long(l) => l.spec_selectors(),
        }
    }

    open spec fn spec_int_attr(&self) -> Seq<i32> {
        match self {
            InqResItem::Text(t) => t.spec_int_attr(),
            InqResItem::Long(l) => l.spec_int_attr(),
        }
    }

    open spec fn spec_text_attr(&self) -> Seq<u8> {
        match self {
            InqResItem::Text(t) => t.spec_text_attr(),
            InqResItem::Long(l) => l.spec_text_attr(),
        }
    }

    fn selectors(&self) -> (r: &[MqValue<MQXA>]) {
        match self {
            InqResItem::Text(t) => t.selectors(),
            InqResItem::Long(l) => l.selectors(),
        }
    }

    fn int_attr(&self) -> (r: &[i32]) {
        match self {
            InqResItem::Text(t) => t.int_attr(),
            InqResItem::Long(l) => l.int_attr(),
        }
    }

    fn text_attr(&self) -> (r: &[u8]) {
        match self {
            InqResItem::Text(t) => t.text_attr(),
            InqResItem::Long(l) => l.text_attr(),
        }
    }
}

/// The text lengths of the character attributes among `sel`, in order.
pub open spec fn spec_text_lens(sel: Seq<AttributeType>) -> Seq<u32>
    decreases sel.len(),
{
    if sel.len() == 0 {
        Seq::empty()
    } else if sel.last().attribute.spec_is_text() {
        spec_text_lens(sel.drop_last()).push(sel.last().text_len)
    } else {
        spec_text_lens(sel.drop_last())
    }
}

/// The number of integer attributes among `sel`.
pub open spec fn spec_int_count(sel: Seq<AttributeType>) -> nat
    decreases sel.len(),
{
    if sel.len() == 0 {
        0
    } else if sel.last().attribute.spec_is_int() && !sel.last().attribute.spec_is_text() {
        spec_int_count(sel.drop_last()) + 1
    } else {
        spec_int_count(sel.drop_last())
    }
}

/// What an inquiry asks for before the call to `MQINQ`: the selectors, the number of
/// integer values and the total and each length of the text values.
pub struct InqRequest {
    pub selectors: Vec<MqValue<MQXA>>,
    pub text_len: Vec<u32>,
    pub int_count: usize,
    pub text_total: u32,
}

/// Prepare an inquiry of the attributes `selectors`.
pub fn inq_request(selectors: &[AttributeType]) -> (r: InqRequest)
    requires
        spec_sum(spec_text_lens(selectors@)) <= u32::MAX,
    ensures
        r.selectors@ == selectors@.map_values(|a: AttributeType| a.attribute),
        r.text_len@ == spec_text_lens(selectors@),
        r.int_count == spec_int_count(selectors@),
        r.text_total == spec_sum(spec_text_lens(selectors@)),
{
    let mut text_total: u32 = 0;
    let mut int_count: usize = 0;
    let mut text_len: Vec<u32> = Vec::new();
    let mut sel: Vec<MqValue<MQXA>> = Vec::new();
    let mut k: usize = 0;
    while k < selectors.len()
        invariant
            k <= selectors@.len(),
            spec_sum(spec_text_lens(selectors@)) <= u32::MAX,
            sel@ == selectors@.take(k as int).map_values(|a: AttributeType| a.attribute),
            text_len@ == spec_text_lens(selectors@.take(k as int)),
            int_count == spec_int_count(selectors@.take(k as int)),
            text_total == spec_sum(spec_text_lens(selectors@.take(k as int))),
            int_count <= k,
        decreases selectors@.len() - k,
    {
        let a = selectors[k];
        assert(selectors@.take(k + 1).drop_last() =~= selectors@.take(k as int));
        assert(selectors@.take(k + 1).last() == a);
        proof {
            lemma_text_lens_prefix(selectors@, k + 1);
            lemma_sum_push(spec_text_lens(selectors@.take(k as int)), a.text_len);
        }
        if a.attribute.is_text() {
            text_total = text_total + a.text_len;
            text_len.push(a.text_len);
        } else if a.attribute.is_int() {
            int_count = int_count + 1;
        }
        sel.push(a.attribute);
        assert(sel@ =~= selectors@.take(k + 1).map_values(|a: AttributeType| a.attribute));
        k = k + 1;
    }
    assert(selectors@.take(selectors@.len() as int) =~= selectors@);
    InqRequest { selectors: sel, text_len, int_count, text_total }
}

/// Adding a length to a sequence of lengths adds it to their sum.
proof fn lemma_sum_push(s: Seq<u32>, x: u32)
    ensures
        spec_sum(s.push(x)) == spec_sum(s) + x as nat,
{
    assert(s.push(x).drop_last() =~= s);
}

/// The text lengths of a prefix add up to no more than those of the whole.
proof fn lemma_text_lens_prefix(sel: Seq<AttributeType>, k: int)
    requires
        0 <= k <= sel.len(),
    ensures
        spec_sum(spec_text_lens(sel.take(k))) <= spec_sum(spec_text_lens(sel)),
    decreases sel.len() - k,
{
    if k < sel.len() {
        lemma_text_lens_prefix(sel, k + 1);
        assert(sel.take(k + 1).drop_last() =~= sel.take(k));
        if sel.take(k + 1).last().attribute.spec_is_text() {
            lemma_sum_push(spec_text_lens(sel.take(k)), sel.take(k + 1).last().text_len);
        }
    } else {
        assert(sel.take(k) =~= sel);
    }
}

} // verus!
