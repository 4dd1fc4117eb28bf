use vstd::prelude::*;
use vstd::string::StringSliceAdditionalSpecFns;
use vstd::utf8::{
    decode_utf8, encode_utf8, encode_utf8_decode_utf8, encode_utf8_valid_utf8, is_char_boundary, is_char_boundary_iff_not_is_continuation_byte,
    is_continuation_byte, valid_utf8,
};

verus! {

/// The number of characters in UTF-8 bytes: the bytes that begin a character, that is, are
/// not continuation bytes.
pub open spec fn spec_char_count(b: Seq<u8>) -> nat
    decreases b.len(),
{
    if b.len() == 0 {
        0
    } else {
        spec_char_count(b.drop_last()) + if is_continuation_byte(b.last()) {
            0nat
        } else {
            1nat
        }
    }
}

/// The bytes of a server definition split at the `/` at `i` and the `/` at `j` into three
/// fields that are not empty, and no byte is a line feed: the shape `(.+)/(.+)/(.+)`.
pub open spec fn spec_slash_split(b: Seq<u8>, i: int, j: int) -> bool {
    &&& 1 <= i && i + 2 <= j && j + 2 <= b.len()
    &&& b[i] == 0x2Fu8 && b[j] == 0x2Fu8
    &&& forall|k: int| 0 <= k < b.len() ==> b[k] != 0x0Au8
}

/// A split whose first field has at most 20 characters and whose last field has at most 264:
/// the shape `(.{1,20})/(.+)/(.{1,264})`.
pub open spec fn spec_bounded_split(b: Seq<u8>, i: int, j: int) -> bool {
    &&& spec_slash_split(b, i, j)
    &&& spec_char_count(b.subrange(0, i)) <= 20
    &&& spec_char_count(b.subrange(j + 1, b.len() as int)) <= 264
}

/// The split that takes the longest first field, then the longest middle field: the one a
/// greedy `^(.+)/(.+)/(.+)$` finds. None when the bytes have no split.
pub open spec fn spec_greedy_split(b: Seq<u8>) -> Option<(int, int)> {
    if exists|i: int, j: int| spec_slash_split(b, i, j) {
        Some(
            choose|i: int, j: int|
                spec_slash_split(b, i, j) && forall|i2: int, j2: int|
                    spec_slash_split(b, i2, j2) ==> i2 < i || (i2 == i && j2 <= j),
        )
    } else {
        None
    }
}

/// The bounded split that takes the shortest first field, then the shortest middle field: the
/// one a lazy `^(.{1,20}?)/(.+?)/(.{1,264}?)$` finds. None when the bytes have no such split.
pub open spec fn spec_lazy_split(b: Seq<u8>) -> Option<(int, int)> {
    if exists|i: int, j: int| spec_bounded_split(b, i, j) {
        Some(
            choose|i: int, j: int|
                spec_bounded_split(b, i, j) && forall|i2: int, j2: int|
                    spec_bounded_split(b, i2, j2) ==> i < i2 || (i2 == i && j <= j2),
        )
    } else {
        None
    }
}

/// The three fields, as text, of the bytes split at `(i, j)`.
pub open spec fn spec_field_text(b: Seq<u8>, ij: Option<(int, int)>) -> Option<(Seq<char>, Seq<char>, Seq<char>)> {
    match ij {
        Some((i, j)) => Some(
            (
                decode_utf8(b.subrange(0, i)),
                decode_utf8(b.subrange(i + 1, j)),
                decode_utf8(b.subrange(j + 1, b.len() as int)),
            ),
        ),
        None => None,
    }
}

/// The fields, as text, of the greedy split of a server definition's bytes.
pub open spec fn spec_greedy_fields(b: Seq<u8>) -> Option<(Seq<char>, Seq<char>, Seq<char>)> {
    spec_field_text(b, spec_greedy_split(b))
}

/// The fields, as text, of the lazy split of a server definition's bytes.
pub open spec fn spec_lazy_fields(b: Seq<u8>) -> Option<(Seq<char>, Seq<char>, Seq<char>)> {
    spec_field_text(b, spec_lazy_split(b))
}

/// The bytes hold no line feed.
fn no_line_feed(b: &[u8]) -> (r: bool)
    ensures
        r == (forall|k: int| 0 <= k < b@.len() ==> b@[k] != 0x0Au8),
{
    let mut k: usize = 0;
    while k < b.len()
        invariant
            k <= b@.len(),
            forall|q: int| 0 <= q < k ==> b@[q] != 0x0Au8,
        decreases b@.len() - k,
    {
        if b[k] == 0x0A {
            return false;
        }
        k = k + 1;
    }
    true
}

/// The number of characters in `b[lo..hi]`.
fn char_count(b: &[u8], lo: usize, hi: usize) -> (r: usize)
    requires
        lo <= hi <= b@.len(),
    ensures
        r == spec_char_count(b@.subrange(lo as int, hi as int)),
{
    let mut r: usize = 0;
    let mut k: usize = lo;
    assert(b@.subrange(lo as int, lo as int).len() == 0);
    while k < hi
        invariant
            lo <= k <= hi <= b@.len(),
            r == spec_char_count(b@.subrange(lo as int, k as int)),
            r <= k - lo,
        decreases hi - k,
    {
        assert(b@.subrange(lo as int, k + 1).drop_last() =~= b@.subrange(lo as int, k as int));
        if !(b[k] >= 0x80 && b[k] <= 0xbf) {
            r = r + 1;
        }
        k = k + 1;
    }
    r
}

/// The greedy split of a server definition's bytes.
fn greedy_indices(b: &[u8]) -> (r: Option<(usize, usize)>)
    ensures
        match r {
            Some((i, j)) => spec_greedy_split(b@) == Some((i as int, j as int)) && spec_slash_split(
                b@,
                i as int,
                j as int,
            ),
            None => spec_greedy_split(b@) is None,
        },
{
    let n = b.len();
    if !no_line_feed(b) || n < 5 {
        return None;
    }
    let mut j: usize = n - 2;
    while j >= 3 && b[j] != 0x2F
        invariant
            2 <= j <= n - 2,
            n == b@.len(),
            forall|q: int| j < q <= n - 2 ==> b@[q] != 0x2Fu8,
        decreases j,
    {
        j = j - 1;
    }
    if j < 3 {
        return None;
    }
    let mut i: usize = j - 2;
    while i >= 1 && b[i] != 0x2F
        invariant
            0 <= i <= j - 2,
            3 <= j <= n - 2,
            n == b@.len(),
            b@[j as int] == 0x2Fu8,
            forall|q: int| i < q <= j - 2 ==> b@[q] != 0x2Fu8,
        decreases i,
    {
        i = i - 1;
    }
    if i < 1 {
        return None;
    }
    let ghost pick = (i as int, j as int);
    assert(spec_slash_split(b@, i as int, j as int));
    assert forall|i2: int, j2: int| spec_slash_split(b@, i2, j2) implies i2 < i || (i2 == i && j2 <= j) by {
        assert(j2 <= j);
    }
    let ghost c = choose|i1: int, j1: int|
        spec_slash_split(b@, i1, j1) && forall|i2: int, j2: int|
            spec_slash_split(b@, i2, j2) ==> i2 < i1 || (i2 == i1 && j2 <= j1);
    assert(spec_slash_split(b@, c.0, c.1));
    Some((i, j))
}

/// A bounded split that no other bounded split precedes is the lazy split.
proof fn lemma_lazy_pick(b: Seq<u8>, i: int, j: int)
    requires
        spec_bounded_split(b, i, j),
        forall|i2: int, j2: int| spec_bounded_split(b, i2, j2) ==> i < i2 || (i2 == i && j <= j2),
    ensures
        spec_lazy_split(b) == Some((i, j)),
{
    let c = choose|i1: int, j1: int|
        spec_bounded_split(b, i1, j1) && forall|i2: int, j2: int|
            spec_bounded_split(b, i2, j2) ==> i1 < i2 || (i2 == i1 && j1 <= j2);
    assert(spec_bounded_split(b, c.0, c.1));
}

/// Bounded splits start with a first field of at least `i` bytes, where the last field
/// would be empty: there is none.
proof fn lemma_no_bounded(b: Seq<u8>, i: int)
    requires
        i >= b.len() - 3,
        forall|i2: int, j2: int| spec_bounded_split(b, i2, j2) ==> i2 >= i,
    ensures
        spec_lazy_split(b) is None,
{
}

/// The lazy bounded split of a server definition's bytes.
#[verifier::rlimit(40)]
fn lazy_indices(b: &[u8]) -> (r: Option<(usize, usize)>)
    ensures
        match r {
            Some((i, j)) => spec_lazy_split(b@) == Some((i as int, j as int)) && spec_slash_split(
                b@,
                i as int,
                j as int,
            ),
            None => spec_lazy_split(b@) is None,
        },
{
    let n = b.len();
    if !no_line_feed(b) || n < 5 {
        return None;
    }
    let mut i: usize = 1;
    while i < n - 3
        invariant
            1 <= i <= n - 3,
            n == b@.len(),
            n >= 5,
            forall|k: int| 0 <= k < n ==> b@[k] != 0x0Au8,
            forall|i2: int, j2: int| spec_bounded_split(b@, i2, j2) ==> i2 >= i,
        decreases n - i,
    {
        if b[i] == 0x2F && char_count(b, 0, i) <= 20 {
            let mut j: usize = i + 2;
            while j < n - 1
                invariant
                    1 <= i < n - 3,
                    i + 2 <= j <= n - 1,
                    n == b@.len(),
                    b@[i as int] == 0x2Fu8,
                    spec_char_count(b@.subrange(0, i as int)) <= 20,
                    forall|k: int| 0 <= k < n ==> b@[k] != 0x0Au8,
                    forall|i2: int, j2: int| spec_bounded_split(b@, i2, j2) ==> i2 >= i,
                    forall|j2: int| spec_bounded_split(b@, i as int, j2) ==> j2 >= j,
                decreases n - j,
            {
                if b[j] == 0x2F && char_count(b, j + 1, n) <= 264 {
                    proof {
                        lemma_lazy_pick(b@, i as int, j as int);
                    }
                    return Some((i, j));
                }
                j = j + 1;
            }
        }
        i = i + 1;
    }
    proof {
        lemma_no_bounded(b@, i as int);
    }
    None
}

/// Split a server definition `channel/transport/connection` as a greedy `^(.+)/(.+)/(.+)$`
/// does: the longest channel that leaves a transport and a connection, then the longest
/// transport. The fields are given as the text between the two `/` chosen.
pub fn mqserver_split(server: &str) -> (r: Option<(&str, &str, &str)>)
    ensures
        match spec_greedy_split(server.spec_bytes()) {
            None => r is None,
            Some((i, j)) => r matches Some((c, t, n)) && spec_fields(server.spec_bytes(), i, j, c, t, n),
        },
        r matches Some((c, t, n)) ==> spec_greedy_fields(server.spec_bytes()) == Some((c@, t@, n@)),
{
    match greedy_indices(server.as_bytes()) {
        None => None,
        Some((i, j)) => Some(split_fields(server, i, j)),
    }
}

/// Split a server definition `channel/transport/connection` as a lazy
/// `^(.{1,20}?)/(.+?)/(.{1,264}?)$` does: the shortest channel of at most 20 characters
/// that leaves a transport and a connection of at most 264 characters, then the shortest
/// transport.
pub fn mqserver_split_lazy(server: &str) -> (r: Option<(&str, &str, &str)>)
    ensures
        match spec_lazy_split(server.spec_bytes()) {
            None => r is None,
            Some((i, j)) => r matches Some((c, t, n)) && spec_fields(server.spec_bytes(), i, j, c, t, n),
        },
        r matches Some((c, t, n)) ==> spec_lazy_fields(server.spec_bytes()) == Some((c@, t@, n@)),
{
    match lazy_indices(server.as_bytes()) {
        None => None,
        Some((i, j)) => Some(split_fields(server, i, j)),
    }
}

/// The three fields of the bytes `b` split at `i` and `j`.
pub open spec fn spec_fields(b: Seq<u8>, i: int, j: int, c: &str, t: &str, n: &str) -> bool {
    &&& c.spec_bytes() == b.subrange(0, i)
    &&& t.spec_bytes() == b.subrange(i + 1, j)
    &&& n.spec_bytes() == b.subrange(j + 1, b.len() as int)
}

/// In valid UTF-8 that begins with `/`, the next byte begins a character.
proof fn lemma_after_slash(b: Seq<u8>)
    requires
        valid_utf8(b),
        b.len() >= 1,
        b[0] == 0x2Fu8,
    ensures
        is_char_boundary(b, 1),
{
    reveal_with_fuel(is_char_boundary, 2);
    reveal_with_fuel(valid_utf8, 2);
    assert(vstd::utf8::pop_first_scalar(b) =~= b.subrange(1, b.len() as int));
}

/// The text of `server` split at the `/` at `i` and the `/` at `j`.
fn split_fields<'m>(server: &'m str, i: usize, j: usize) -> (r: (&'m str, &'m str, &'m str))
    requires
        spec_slash_split(server.spec_bytes(), i as int, j as int),
    ensures
        spec_fields(server.spec_bytes(), i as int, j as int, r.0, r.1, r.2),
        decode_utf8(server.spec_bytes().subrange(0, i as int)) == r.0@,
        decode_utf8(server.spec_bytes().subrange(i + 1, j as int)) == r.1@,
        decode_utf8(server.spec_bytes().subrange(j + 1, server.spec_bytes().len() as int)) == r.2@,
{
    let ghost b = server.spec_bytes();
    proof {
        encode_utf8_valid_utf8(server@);
        is_char_boundary_iff_not_is_continuation_byte(b, i as int);
    }
    let (c, rest) = server.split_at(i);
    proof {
        encode_utf8_valid_utf8(rest@);
        lemma_after_slash(rest.spec_bytes());
    }
    let (_, rest2) = rest.split_at(1);
    let ghost b2 = rest2.spec_bytes();
    assert(b2 =~= b.subrange(i + 1, b.len() as int));
    proof {
        encode_utf8_valid_utf8(rest2@);
        is_char_boundary_iff_not_is_continuation_byte(b2, j - i - 1);
    }
    let (t, rest3) = rest2.split_at(j - i - 1);
    proof {
        encode_utf8_valid_utf8(rest3@);
        lemma_after_slash(rest3.spec_bytes());
    }
    let (_, n) = rest3.split_at(1);
    assert(t.spec_bytes() =~= b.subrange(i + 1, j as int));
    assert(n.spec_bytes() =~= b.subrange(j + 1, b.len() as int));
    proof {
        encode_utf8_decode_utf8(c@);
        encode_utf8_decode_utf8(t@);
        encode_utf8_decode_utf8(n@);
    }
    (c, t, n)
}

} // verus!
