//! Splitting an amount typed by the user into dollars and cents.

use vstd::prelude::*;
use vstd::utf8::*;
use vstd::string::*;

verus! {

broadcast use vstd::seq::group_seq_axioms;

/// The byte of the decimal point, `.`.
pub open spec fn decimal_point() -> u8 {
    46u8
}

/// `i` is the first position of `needle` in `haystack`.
pub open spec fn is_first_index(haystack: Seq<u8>, needle: u8, i: int) -> bool {
    &&& 0 <= i < haystack.len()
    &&& haystack[i] == needle
    &&& forall|j: int| 0 <= j < i ==> haystack[j] != needle
}

/// Where the kept cents end (exclusive), as a byte position, when the first
/// decimal point of `bytes` stands at `dot`: at most `max_decimal_places`
/// digits after the point are kept.
pub open spec fn cents_end(bytes: Seq<u8>, dot: int, max_decimal_places: int) -> int {
    let current = bytes.len() - 1 - dot;
    let kept = if current <= max_decimal_places { current } else { max_decimal_places };
    dot + kept + 1
}

/// The cut that ends the cents falls between two characters, so that the
/// split can be made without breaking a character apart.
pub open spec fn cents_cut_is_clean(bytes: Seq<u8>, max_decimal_places: int) -> bool {
    forall|dot: int|
        is_first_index(bytes, decimal_point(), dot) ==> is_char_boundary(
            bytes,
            cents_end(bytes, dot, max_decimal_places),
        )
}

/// `d` and `c` are the dollars and the cents that splitting `bytes` with at
/// most `max_decimal_places` decimals gives.
pub open spec fn splits_into(bytes: Seq<u8>, max_decimal_places: int, d: Seq<u8>, c: Seq<u8>) -> bool {
    &&& !bytes.contains(decimal_point()) ==> d == bytes && c.len() == 0
    &&& forall|dot: int|
        is_first_index(bytes, decimal_point(), dot) ==> d == bytes.subrange(0, dot) && c
            == bytes.subrange(dot, cents_end(bytes, dot, max_decimal_places))
}

proof fn lemma_first_index_exists(bytes: Seq<u8>, x: u8)
    requires
        bytes.contains(x),
    ensures
        exists|i: int| is_first_index(bytes, x, i),
    decreases bytes.len(),
{
    if bytes[0] == x {
        assert(is_first_index(bytes, x, 0));
    } else {
        let k = choose|k: int| 0 <= k < bytes.len() && bytes[k] == x;
        let rest = bytes.drop_first();
        assert(rest[k - 1] == x);
        lemma_first_index_exists(rest, x);
        let i = choose|i: int| is_first_index(rest, x, i);
        assert forall|j: int| 0 <= j < i + 1 implies bytes[j] != x by {
            if j > 0 {
                assert(bytes[j] == rest[j - 1]);
            }
        }
        assert(is_first_index(bytes, x, i + 1));
    }
}

/// Splitting an amount a second time, once its dollars and cents are put
/// back together, gives the same dollars and cents: the split is already
/// within the limit, and the second split may be made.
pub proof fn lemma_split_twice_gives_same_pair(
    amount: Seq<u8>,
    max_decimal_places: int,
    d: Seq<u8>,
    c: Seq<u8>,
)
    requires
        0 <= max_decimal_places,
        splits_into(amount, max_decimal_places, d, c),
        valid_utf8(d + c),
    ensures
        splits_into(d + c, max_decimal_places, d, c),
        cents_cut_is_clean(d + c, max_decimal_places),
{
    let s = d + c;
    if amount.contains(decimal_point()) {
        lemma_first_index_exists(amount, decimal_point());
        let dot = choose|i: int| is_first_index(amount, decimal_point(), i);
        let e = cents_end(amount, dot, max_decimal_places);
        assert(d == amount.subrange(0, dot));
        assert(c == amount.subrange(dot, e));
        assert(s =~= amount.subrange(0, e));
        assert(is_first_index(s, decimal_point(), dot));
        assert forall|i: int| is_first_index(s, decimal_point(), i) implies i == dot by {
            if i < dot {
                assert(s[i] == amount[i]);
            } else if i > dot {
                assert(s[dot] == decimal_point());
            }
        }
        assert(cents_end(s, dot, max_decimal_places) == e);
        assert(s.subrange(0, dot) =~= d);
        assert(s.subrange(dot, e) =~= c);
        assert(!s.contains(decimal_point()) ==> false) by {
            assert(s[dot] == decimal_point());
        }
        is_char_boundary_start_end_of_seq(s);
        assert(s.len() == e);
    } else {
        assert(s =~= amount);
        assert forall|i: int| !is_first_index(s, decimal_point(), i) by {
            if 0 <= i < s.len() && s[i] == decimal_point() {
                assert(amount.contains(decimal_point()));
            }
        }
    }
}

/// Search of the first occurrence of a byte, done by `memchr::memchr`.
///
/// Trusted: the contract states what memchr's documentation promises, the
/// first index of `needle` in `haystack`, or `None` when it does not occur.
#[verifier::external_body]
fn find_first_byte(needle: u8, haystack: &[u8]) -> (r: Option<usize>)
    ensures
        match r {
            Some(i) => is_first_index(haystack@, needle, i as int),
            None => !haystack@.contains(needle),
        },
{
    memchr::memchr(needle, haystack)
}

proof fn lemma_boundary_in_suffix(bytes: Seq<u8>, start: int, k: int)
    requires
        valid_utf8(bytes),
        0 <= start <= k <= bytes.len(),
        is_char_boundary(bytes, start),
        is_char_boundary(bytes, k),
    ensures
        valid_utf8(bytes.subrange(start, bytes.len() as int)),
        is_char_boundary(bytes.subrange(start, bytes.len() as int), k - start),
{
    let rest = bytes.subrange(start, bytes.len() as int);
    valid_utf8_split(bytes, start);
    if k == bytes.len() {
        is_char_boundary_start_end_of_seq(rest);
    } else {
        is_char_boundary_iff_not_is_continuation_byte(bytes, k);
        is_char_boundary_iff_not_is_continuation_byte(rest, k - start);
        assert(rest[k - start] == bytes[k]);
    }
}

/// Returns the dollars and the cents (with the decimal point) of `amount`.
///
/// The dollars are what stands before the first `.`; the cents are that `.`
/// followed by at most `max_decimal_places` of the bytes after it. Without a
/// `.`, the whole amount is the dollars and the cents are empty.
pub fn seperate_and_limit_dollars_and_cents(amount: &str, max_decimal_places: usize) -> (r: (
    &str,
    &str,
))
    requires
        cents_cut_is_clean(amount.spec_bytes(), max_decimal_places as int),
    ensures
        splits_into(amount.spec_bytes(), max_decimal_places as int, r.0.spec_bytes(), r.1.spec_bytes()),
        !amount.spec_bytes().contains(decimal_point()) ==> r.0@ == amount@ && r.1@.len() == 0,
        forall|dot: int|
            is_first_index(amount.spec_bytes(), decimal_point(), dot) ==> {
                &&& r.0.spec_bytes() == amount.spec_bytes().subrange(0, dot)
                &&& r.1.spec_bytes() == amount.spec_bytes().subrange(
                    dot,
                    cents_end(amount.spec_bytes(), dot, max_decimal_places as int),
                )
            },
{
    let bytes = amount.as_bytes();
    let ghost b = amount.spec_bytes();
    // get how many decimals there are after the decimal point
    let last_index = if bytes.len() == 0 {
        0
    } else {
        bytes.len() - 1
    };

    let decimal_index = match find_first_byte(46u8, bytes) {
        Some(decimal_index) => decimal_index,
        None => {
            let empty = "";
            proof {
                reveal_strlit("");
            }
            return (amount, empty);
        },
    };

    let current_decimal_places = last_index - decimal_index;

    // get the number of decimals after the decimal point
    let decimal_places = if current_decimal_places <= max_decimal_places {
        current_decimal_places
    } else {
        max_decimal_places
    };

    proof {
        encode_utf8_valid_utf8(amount@);
        is_char_boundary_iff_not_is_continuation_byte(b, decimal_index as int);
        assert(is_first_index(b, decimal_point(), decimal_index as int));
        assert(is_char_boundary(b, cents_end(b, decimal_index as int, max_decimal_places as int)));
        lemma_boundary_in_suffix(
            b,
            decimal_index as int,
            decimal_index + decimal_places + 1,
        );
        assert forall|dot: int| is_first_index(b, decimal_point(), dot) implies dot
            == decimal_index by {
            if dot < decimal_index {
                assert(b[dot] != 46u8);
            } else if dot > decimal_index {
                assert(b[decimal_index as int] != 46u8);
            }
        }
    }
    let (dollars, rest) = amount.split_at(decimal_index);
    let (cents_with_decimal_point, _) = rest.split_at(decimal_places + 1);
    proof {
        assert(cents_with_decimal_point.spec_bytes() =~= b.subrange(
            decimal_index as int,
            decimal_index + decimal_places + 1,
        ));
    }
    (dollars, cents_with_decimal_point)
}

} // verus!
