use vstd::prelude::*;

use crate::headers::{
    lemma_positions_of_kind, law_chain_within_data, spec_chain, spec_encoded_at, spec_header_at, spec_positions, ChainView, EncodedHeader, FormatView, Header, HeaderError,
    HeaderKind,
};
use crate::types::MessageFormat;

verus! {

/// The state of a message retrieved by get: the buffer, the length of the data in it, the
/// total length of the message and the format of the data.
pub struct GetState<B> {
    pub buffer: B,
    pub data_length: usize,
    pub message_length: usize,
    pub format: MessageFormat,
}

/// The headers at the start of a retrieved message.
#[derive(Clone, Debug)]
pub struct Headers {
    pub message_length: usize,
    pub init_format: MessageFormat,
    pub data: Vec<u8>,
    pub error: Option<HeaderError>,
}

/// The kinds of the headers, in order.
pub open spec fn spec_kinds_of<'a>(hs: Seq<Header<'a>>) -> Seq<HeaderKind> {
    hs.map_values(|h: Header<'a>| h.spec_kind())
}

impl Headers {
    /// The chain of headers the data holds.
    pub open spec fn spec_chain(&self) -> ChainView {
        spec_chain(self.data@, self.init_format@)
    }

    /// Split the headers off the start of the retrieved data. The headers are the chain that
    /// starts with the message format; the state that remains holds the data after them,
    /// in the format that follows the last header.
    pub fn extract_from(state: GetState<Vec<u8>>) -> (r: (Headers, GetState<Vec<u8>>))
        requires
            state.data_length <= state.buffer@.len(),
            state.data_length <= state.message_length,
            spec_chain(state.buffer@.take(state.data_length as int), state.format@).safe,
        ensures
            ({
                let c = spec_chain(state.buffer@.take(state.data_length as int), state.format@);
                &&& r.0.data@ == state.buffer@.take(c.total)
                &&& r.0.init_format == state.format
                &&& r.0.error == c.error
                &&& r.0.message_length == state.message_length
                &&& r.1.buffer@ == state.buffer@.skip(c.total)
                &&& r.1.data_length == state.data_length - c.total
                &&& r.1.message_length == state.message_length - c.total
                &&& r.1.format@ == c.final_fmt
            }),
    {
        let data = vstd::slice::slice_subrange(state.buffer.as_slice(), 0, state.data_length);
        let ghost c0 = spec_chain(data@, state.format@);
        proof {
            crate::headers::law_chain_within_data(data@, state.format@);
        }
        let data_len = data.len();
        let mut it = Header::iter(data, state.format);
        let mut header_length: usize = 0;
        let mut final_format = state.format;
        let mut error: Option<HeaderError> = None;
        assert(data@.skip(0) =~= data@);
        loop
            invariant
                data@ == state.buffer@.take(state.data_length as int),
                c0 == spec_chain(data@, state.format@),
                c0.safe,
                data_len == data@.len(),
                header_length <= data@.len(),
                !it.in_error ==> ({
                    let c = spec_chain(it.data@, it.format@);
                    &&& it.data@ == data@.skip(header_length as int)
                    &&& final_format == it.format
                    &&& c.total + header_length == c0.total
                    &&& c.final_fmt == c0.final_fmt
                    &&& c.error == c0.error
                    &&& c.safe
                    &&& error is None
                }),
                it.in_error ==> (header_length == c0.total && final_format@ == c0.final_fmt
                    && error == c0.error),
            ensures
                header_length == c0.total,
                final_format@ == c0.final_fmt,
                error == c0.error,
            decreases it.data@.len() + if it.in_error {
                0int
            } else {
                1int
            },
        {
            let ghost old_it = it;
            proof {
                if !it.in_error {
                    crate::headers::law_chain_within_data(it.data@, it.format@);
                }
            }
            match it.next() {
                None => {
                    break;
                },
                Some(Ok((_, size, format))) => {
                    proof {
                        let k = crate::headers::spec_kind_for(old_it.format@)->Some_0;
                        crate::headers::law_header_length_within_data(
                            k,
                            old_it.data@,
                            old_it.format.ccsid,
                            old_it.format.encoding,
                        );
                        assert(old_it.data@ == data@.skip(header_length as int));
                        assert(crate::headers::spec_parse_header(
                            k,
                            old_it.data@,
                            old_it.format.ccsid,
                            old_it.format.encoding,
                        ) == Ok::<usize, HeaderError>(size));
                        assert(size <= old_it.data@.len());
                        assert(header_length + size <= data_len);
                        assert(data@.skip(header_length as int).skip(size as int) =~= data@.skip(
                            header_length + size,
                        ));
                    }
                    header_length = header_length + size;
                    final_format = format;
                },
                Some(Err(e)) => {
                    error = Some(e);
                },
            }
        }
        let mut buffer = state.buffer;
        let tail = buffer.split_off(header_length);
        let headers = Headers {
            init_format: state.format,
            data: buffer,
            error,
            message_length: state.message_length,
        };
        let rest = GetState {
            buffer: tail,
            data_length: state.data_length - header_length,
            message_length: state.message_length - header_length,
            format: final_format,
        };
        (headers, rest)
    }

    /// The headers of the chain, in order, each the header the chain parses at its place;
    /// the error that ends the chain, if any, is left out.
    pub fn all_headers(&self) -> (r: Vec<Header<'_>>)
        requires
            self.spec_chain().safe,
        ensures
            spec_kinds_of(r@) == self.spec_chain().kinds,
            forall|m: int|
                0 <= m < r@.len() ==> spec_header_at(
                    #[trigger] r@[m],
                    self.data@,
                    self.spec_chain().starts[m],
                    self.spec_chain().lengths[m] as int,
                    self.spec_chain().kinds[m],
                    self.spec_chain().fmts[m],
                ),
    {
        let ghost c0 = self.spec_chain();
        let ghost d0 = self.data@;
        proof {
            law_chain_within_data(d0, self.init_format@);
        }
        let mut it = Header::iter(self.data.as_slice(), self.init_format);
        let mut result: Vec<Header<'_>> = Vec::new();
        let ghost mut off: int = 0;
        assert(d0.skip(0) =~= d0);
        loop
            invariant
                c0 == spec_chain(d0, self.init_format@),
                d0 == self.data@,
                c0.safe,
                c0.kinds.len() == c0.lengths.len() && c0.kinds.len() == c0.starts.len() && c0.kinds.len()
                    == c0.fmts.len(),
                0 <= off <= d0.len(),
                !it.in_error ==> ({
                    let c = spec_chain(it.data@, it.format@);
                    let n = result@.len() as int;
                    &&& it.data@ == d0.skip(off)
                    &&& spec_kinds_of(result@) + c.kinds == c0.kinds
                    &&& c.safe
                    &&& forall|m: int|
                        0 <= m < c.kinds.len() ==> c0.starts[n + m] == off + #[trigger] c.starts[m]
                            && c0.fmts[n + m] == c.fmts[m] && c0.lengths[n + m] == c.lengths[m]
                }),
                it.in_error ==> spec_kinds_of(result@) == c0.kinds,
                forall|m: int|
                    0 <= m < result@.len() ==> spec_header_at(
                        #[trigger] result@[m],
                        d0,
                        c0.starts[m],
                        c0.lengths[m] as int,
                        c0.kinds[m],
                        c0.fmts[m],
                    ),
            ensures
                spec_kinds_of(result@) == c0.kinds,
                forall|m: int|
                    0 <= m < result@.len() ==> spec_header_at(
                        #[trigger] result@[m],
                        d0,
                        c0.starts[m],
                        c0.lengths[m] as int,
                        c0.kinds[m],
                        c0.fmts[m],
                    ),
            decreases it.data@.len() + if it.in_error {
                0int
            } else {
                1int
            },
        {
            let ghost old_it = it;
            let ghost old_result = result@;
            proof {
                if !it.in_error {
                    law_chain_within_data(it.data@, it.format@);
                }
            }
            match it.next() {
                None => {
                    assert(spec_kinds_of(result@) + Seq::<HeaderKind>::empty() =~= spec_kinds_of(
                        result@,
                    ));
                    break;
                },
                Some(Ok((header, size, _))) => {
                    let ghost k = crate::headers::spec_kind_for(old_it.format@)->Some_0;
                    let ghost n = old_result.len() as int;
                    let ghost c = spec_chain(old_it.data@, old_it.format@);
                    let ghost c2 = spec_chain(it.data@, it.format@);
                    proof {
                        crate::headers::law_header_length_within_data(
                            k,
                            old_it.data@,
                            old_it.format.ccsid,
                            old_it.format.encoding,
                        );
                        law_chain_within_data(it.data@, it.format@);
                        assert(c.starts[0] == 0);
                        assert(c0.starts[n] == off);
                        assert(c0.fmts[n] == old_it.format@);
                        assert(c0.lengths[n] == size);
                        assert(c0.kinds[n] == k) by {
                            assert((spec_kinds_of(old_result) + c.kinds)[n] == c.kinds[0]);
                        }
                        let sl = k.spec_struc_len() as int;
                        assert(old_it.data@.take(sl) =~= d0.subrange(off, off + sl));
                        assert(old_it.data@.subrange(sl, size as int) =~= d0.subrange(off + sl, off + size));
                        assert forall|m: int| 0 <= m < c2.kinds.len() implies c0.starts[n + 1 + m] == (off + size)
                            + #[trigger] c2.starts[m] && c0.fmts[n + 1 + m] == c2.fmts[m] && c0.lengths[n + 1 + m]
                            == c2.lengths[m] by {
                            assert(c.starts[1 + m] == c2.starts[m] + size);
                            assert(c.fmts[1 + m] == c2.fmts[m]);
                            assert(c.lengths[1 + m] == c2.lengths[m]);
                        }
                        assert(d0.skip(off).skip(size as int) =~= d0.skip(off + size));
                    }
                    result.push(header);
                    proof {
                        off = off + size;
                    }
                    assert(spec_kinds_of(result@) =~= spec_kinds_of(old_result).push(header.spec_kind()));
                    assert(spec_kinds_of(result@) + spec_chain(it.data@, it.format@).kinds =~= spec_kinds_of(
                        old_result,
                    ) + spec_chain(old_it.data@, old_it.format@).kinds);
                    assert(result@[n] == header);
                },
                Some(Err(_)) => {
                    assert(spec_kinds_of(result@) + Seq::<HeaderKind>::empty() =~= spec_kinds_of(
                        result@,
                    ));
                },
            }
        }
        result
    }

    /// The headers of the given kind in the chain, in order: those that `all_headers` gives
    /// of that kind, each the header the chain parses at its place.
    pub fn header(&self, kind: HeaderKind) -> (r: Vec<EncodedHeader<'_>>)
        requires
            self.spec_chain().safe,
        ensures
            ({
                let c = self.spec_chain();
                let p = spec_positions(c.kinds, kind);
                &&& r@.len() == p.len()
                &&& forall|q: int|
                    0 <= q < r@.len() ==> spec_encoded_at(
                        #[trigger] r@[q],
                        self.data@,
                        c.starts[p[q]],
                        c.lengths[p[q]] as int,
                        kind,
                        c.fmts[p[q]],
                    )
            }),
    {
        let all = self.all_headers();
        let ghost c = self.spec_chain();
        let ghost kinds = spec_kinds_of(all@);
        let mut result: Vec<EncodedHeader<'_>> = Vec::new();
        let mut i: usize = 0;
        while i < all.len()
            invariant
                i <= all@.len(),
                c == self.spec_chain(),
                kinds == spec_kinds_of(all@),
                kinds == c.kinds,
                forall|m: int|
                    0 <= m < all@.len() ==> spec_header_at(
                        #[trigger] all@[m],
                        self.data@,
                        c.starts[m],
                        c.lengths[m] as int,
                        c.kinds[m],
                        c.fmts[m],
                    ),
                ({
                    let p = spec_positions(kinds.take(i as int), kind);
                    &&& result@.len() == p.len()
                    &&& forall|q: int| 0 <= q < p.len() ==> 0 <= #[trigger] p[q] < i
                    &&& forall|q: int|
                        0 <= q < result@.len() ==> spec_encoded_at(
                            #[trigger] result@[q],
                            self.data@,
                            c.starts[p[q]],
                            c.lengths[p[q]] as int,
                            kind,
                            c.fmts[p[q]],
                        )
                }),
            decreases all@.len() - i,
        {
            let ghost old_result = result@;
            let ghost p0 = spec_positions(kinds.take(i as int), kind);
            assert(kinds.take(i + 1).drop_last() =~= kinds.take(i as int));
            assert(kinds.take(i + 1).last() == all@[i as int].spec_kind());
            match EncodedHeader::from_header(kind, all[i]) {
                Some(e) => {
                    result.push(e);
                    assert(spec_positions(kinds.take(i + 1), kind) == p0.push(i as int));
                    assert(spec_header_at(all@[i as int], self.data@, c.starts[i as int], c.lengths[i as int] as int, c.kinds[i as int], c.fmts[i as int]));
                },
                None => {
                    assert(spec_positions(kinds.take(i + 1), kind) == p0);
                },
            }
            i = i + 1;
        }
        assert(kinds.take(all@.len() as int) =~= kinds);
        result
    }

    /// The headers of one kind are those of the whole chain of that kind, in order: each
    /// header that `header` gives is, field for field, the one `all_headers` gives at the
    /// same place of the chain.
    pub proof fn law_headers_of_kind_from_all<'a>(
        &self,
        all: Seq<Header<'a>>,
        sel: Seq<EncodedHeader<'a>>,
        kind: HeaderKind,
    )
        requires
            self.spec_chain().safe,
            spec_kinds_of(all) == self.spec_chain().kinds,
            forall|m: int|
                0 <= m < all.len() ==> spec_header_at(
                    #[trigger] all[m],
                    self.data@,
                    self.spec_chain().starts[m],
                    self.spec_chain().lengths[m] as int,
                    self.spec_chain().kinds[m],
                    self.spec_chain().fmts[m],
                ),
            sel.len() == spec_positions(self.spec_chain().kinds, kind).len(),
            forall|q: int|
                0 <= q < sel.len() ==> ({
                    let c = self.spec_chain();
                    let p = spec_positions(c.kinds, kind);
                    spec_encoded_at(#[trigger] sel[q], self.data@, c.starts[p[q]], c.lengths[p[q]] as int, kind, c.fmts[p[q]])
                }),
        ensures
            sel.len() <= all.len(),
            forall|q: int|
                0 <= q < sel.len() ==> ({
                    let i = spec_positions(self.spec_chain().kinds, kind)[q];
                    let e = all[i].spec_encoded();
                    &&& 0 <= i < all.len()
                    &&& all[i].spec_kind() == kind
                    &&& (#[trigger] sel[q]).kind == e.kind
                    &&& sel[q].ccsid == e.ccsid
                    &&& sel[q].encoding == e.encoding
                    &&& sel[q].raw_header@ == e.raw_header@
                    &&& sel[q].tail@ == e.tail@
                }),
    {
        let c = self.spec_chain();
        lemma_positions_of_kind(c.kinds, kind);
        assert(spec_kinds_of(all).len() == all.len());
        assert forall|q: int| 0 <= q < sel.len() implies #[trigger] all[spec_positions(c.kinds, kind)[q]].spec_kind()
            == kind by {
            let i = spec_positions(c.kinds, kind)[q];
            assert(spec_kinds_of(all)[i] == all[i].spec_kind());
            assert(spec_header_at(all[i], self.data@, c.starts[i], c.lengths[i] as int, c.kinds[i], c.fmts[i]));
        }
    }

    /// The error that ended the chain of headers, if any.
    pub fn error(&self) -> (r: Option<&HeaderError>)
        ensures
            r matches Some(e) ==> self.error == Some(*e),
            r is None <==> self.error is None,
    {
        match &self.error {
            Some(e) => Some(e),
            None => None,
        }
    }

    /// The total length of the message the headers came from.
    pub fn message_length(&self) -> (r: usize)
        ensures
            r == self.message_length,
    {
        self.message_length
    }
}

} // verus!
