//! The session-token gate of `/api/*`: reading the token from the header or
//! the `?token=` query, percent-decoding it, and comparing it in constant time.
use vstd::prelude::*;
use vstd::string::*;
use vstd::utf8::*;

use crate::text::{opt_str_view, opt_string_view, string_from_utf8_lossy, utf8_lossy};

verus! {

broadcast use vstd::string::group_string_axioms;

/// Body-size cap for `/api/invoke` (settings payloads are small).
pub const MAX_BODY: usize = 16777216;

/// The value of an ASCII hex digit (either case).
pub open spec fn hex_value(b: u8) -> Option<u8> {
    if 48 <= b <= 57 {
        Some((b - 48) as u8)
    } else if 97 <= b <= 102 {
        Some((b - 87) as u8)
    } else if 65 <= b <= 70 {
        Some((b - 55) as u8)
    } else {
        None
    }
}

/// Percent-decoding of a byte string: `%XX` with two hex digits becomes the
/// byte `0xXX`; every other byte, a stray `%` included, passes through.
pub open spec fn pct_decode(b: Seq<u8>) -> Seq<u8>
    decreases b.len(),
{
    if b.len() == 0 {
        Seq::empty()
    } else if b[0] == 37 && b.len() > 2 && hex_value(b[1]) is Some && hex_value(b[2]) is Some {
        seq![(hex_value(b[1])->0 * 16 + hex_value(b[2])->0) as u8] + pct_decode(b.skip(3))
    } else {
        seq![b[0]] + pct_decode(b.skip(1))
    }
}

/// The text that `percent_decode` makes of `s`: the decoded bytes read as
/// UTF-8, with invalid sequences replaced as `String::from_utf8_lossy` does.
pub open spec fn percent_decoded(s: Seq<char>) -> Seq<char> {
    let d = pct_decode(encode_utf8(s));
    if valid_utf8(d) {
        decode_utf8(d)
    } else {
        utf8_lossy(d)
    }
}

pub fn hex_val(b: u8) -> (r: Option<u8>)
    ensures
        r == hex_value(b),
{
    if b >= 48 && b <= 57 {
        Some(b - 48)
    } else if b >= 97 && b <= 102 {
        Some(b - 97 + 10)
    } else if b >= 65 && b <= 70 {
        Some(b - 65 + 10)
    } else {
        None
    }
}

/// Percent-decode a byte string.
pub fn percent_decode_bytes(bytes: &[u8]) -> (out: Vec<u8>)
    ensures
        out@ == pct_decode(bytes@),
{
    let mut out: Vec<u8> = Vec::new();
    let mut i: usize = 0;
    assert(bytes@.skip(0) =~= bytes@);
    while i < bytes.len()
        invariant
            0 <= i <= bytes@.len(),
            pct_decode(bytes@) == out@ + pct_decode(bytes@.skip(i as int)),
        decreases bytes@.len() - i,
    {
        let ghost rest = bytes@.skip(i as int);
        if bytes[i] == 37 && bytes.len() - i > 2 {
            let hi = hex_val(bytes[i + 1]);
            let lo = hex_val(bytes[i + 2]);
            if hi.is_some() && lo.is_some() {
                let v = hi.unwrap() * 16 + lo.unwrap();
                assert(rest.skip(3) =~= bytes@.skip(i + 3));
                assert(rest[1] == bytes@[i + 1] && rest[2] == bytes@[i + 2]);
                out.push(v);
                proof {
                    assert(pct_decode(rest) == seq![v] + pct_decode(rest.skip(3)));
                    assert(out@ =~= out@.drop_last() + seq![v]);
                    assert(out@.drop_last() + pct_decode(rest) =~= out@ + pct_decode(rest.skip(3)));
                }
                i = i + 3;
                continue;
            }
        }
        let c = bytes[i];
        assert(rest.skip(1) =~= bytes@.skip(i + 1));
        out.push(c);
        proof {
            assert(pct_decode(rest) == seq![c] + pct_decode(rest.skip(1)));
            assert(out@.drop_last() + pct_decode(rest) =~= out@ + pct_decode(rest.skip(1)));
        }
        i = i + 1;
    }
    assert(bytes@.skip(i as int) =~= Seq::<u8>::empty());
    assert(out@ + Seq::<u8>::empty() =~= out@);
    out
}

/// Minimal percent-decoder symmetric with the browser's `encodeURIComponent`:
/// `%XX` becomes a byte, other bytes pass through, and the result is read as
/// UTF-8 (lossily).
pub fn percent_decode(input: &str) -> (r: String)
    ensures
        r@ == percent_decoded(input@),
{
    let out = percent_decode_bytes(input.as_bytes());
    string_from_utf8_lossy(out.as_slice())
}

/// Index of the first `&` in `q`, or its length.
pub open spec fn amp_pos(q: Seq<char>) -> int
    decreases q.len(),
{
    if q.len() == 0 {
        0
    } else if q[0] == '&' {
        0
    } else {
        1 + amp_pos(q.drop_first())
    }
}

pub proof fn lemma_amp_pos(q: Seq<char>)
    ensures
        0 <= amp_pos(q) <= q.len(),
        amp_pos(q) < q.len() ==> q[amp_pos(q)] == '&',
        forall|j: int| 0 <= j < amp_pos(q) ==> q[j] != '&',
    decreases q.len(),
{
    if q.len() > 0 && q[0] != '&' {
        lemma_amp_pos(q.drop_first());
        assert forall|j: int| 0 <= j < amp_pos(q) implies q[j] != '&' by {
            if j > 0 {
                assert(q[j] == q.drop_first()[j - 1]);
            }
        }
    }
}

pub proof fn lemma_amp_pos_unique(q: Seq<char>, k: int)
    requires
        0 <= k <= q.len(),
        k < q.len() ==> q[k] == '&',
        forall|j: int| 0 <= j < k ==> q[j] != '&',
    ensures
        amp_pos(q) == k,
    decreases q.len(),
{
    if q.len() > 0 && k > 0 {
        assert forall|j: int| 0 <= j < k - 1 implies q.drop_first()[j] != '&' by {
            assert(q.drop_first()[j] == q[j + 1]);
        }
        if k - 1 < q.len() - 1 {
            assert(q.drop_first()[k - 1] == q[k]);
        }
        lemma_amp_pos_unique(q.drop_first(), k - 1);
    }
}

pub open spec fn token_prefix() -> Seq<char> {
    seq!['t', 'o', 'k', 'e', 'n', '=']
}

/// The raw value of the first `&`-separated pair that starts with `token=`.
pub open spec fn query_token(q: Seq<char>) -> Option<Seq<char>>
    decreases q.len(),
{
    let e = amp_pos(q);
    let seg = q.take(e);
    if seg.len() >= 6 && seg.take(6) == token_prefix() {
        Some(seg.skip(6))
    } else if 0 <= e < q.len() {
        proof {
            lemma_amp_pos(q);
        }
        query_token(q.skip(e + 1))
    } else {
        None
    }
}

/// The decoded session token carried by a query string, if any.
pub open spec fn query_token_decoded(query: Option<Seq<char>>) -> Option<Seq<char>> {
    match query {
        Some(q) => match query_token(q) {
            Some(v) => Some(percent_decoded(v)),
            None => None,
        },
        None => None,
    }
}

/// The first `token=` value of the query, percent-decoded.
pub fn token_from_query(query: Option<&str>) -> (r: Option<String>)
    ensures
        opt_string_view(r) == query_token_decoded(opt_str_view(query)),
{
    let q = match query {
        Some(q) => q,
        None => {
            return None;
        },
    };
    let n = q.unicode_len();
    let mut start: usize = 0;
    assert(q@.skip(0) =~= q@);
    loop
        invariant
            n == q@.len(),
            0 <= start <= n,
            opt_str_view(query) == Some(q@),
            query_token(q@) == query_token(q@.skip(start as int)),
        decreases n - start,
    {
        let ghost rest = q@.skip(start as int);
        let mut e: usize = start;
        while e < n && q.get_char(e) != '&'
            invariant
                n == q@.len(),
                0 <= start <= e <= n,
                rest == q@.skip(start as int),
                forall|j: int| start <= j < e ==> q@[j] != '&',
            decreases n - e,
        {
            e = e + 1;
        }
        proof {
            assert forall|j: int| 0 <= j < e - start implies rest[j] != '&' by {
                assert(rest[j] == q@[start + j]);
            }
            if e < n {
                assert(rest[e - start] == q@[e as int]);
            }
            lemma_amp_pos_unique(rest, e - start);
        }
        let ghost seg = rest.take(e - start);
        assert(seg =~= q@.subrange(start as int, e as int));
        if e - start >= 6 && q.get_char(start) == 't' && q.get_char(start + 1) == 'o' && q.get_char(
            start + 2,
        ) == 'k' && q.get_char(start + 3) == 'e' && q.get_char(start + 4) == 'n' && q.get_char(
            start + 5,
        ) == '=' {
            assert(seg.take(6) =~= token_prefix());
            let value = q.substring_char(start + 6, e);
            assert(value@ =~= seg.skip(6));
            assert(query_token(rest) == Some(seg.skip(6)));
            let decoded = percent_decode(value);
            assert(query_token_decoded(opt_str_view(query)) == Some(decoded@));
            return Some(decoded);
        }
        assert(!(seg.len() >= 6 && seg.take(6) == token_prefix())) by {
            if seg.len() >= 6 && seg.take(6) == token_prefix() {
                assert(seg.take(6)[0] == 't' && seg.take(6)[1] == 'o' && seg.take(6)[2] == 'k');
                assert(seg.take(6)[3] == 'e' && seg.take(6)[4] == 'n' && seg.take(6)[5] == '=');
            }
        }
        if e < n {
            assert(rest.skip(e - start + 1) =~= q@.skip(e + 1));
            assert(query_token(rest) == query_token(rest.skip(e - start + 1)));
            start = e + 1;
        } else {
            assert(query_token(rest) is None);
            return None;
        }
    }
}

/// Byte-wise equality that always looks at every byte of equal-length inputs.
pub fn constant_time_eq(a: &[u8], b: &[u8]) -> (r: bool)
    ensures
        r == (a@ == b@),
{
    if a.len() != b.len() {
        return false;
    }
    let mut diff: u8 = 0;
    let mut i: usize = 0;
    while i < a.len()
        invariant
            a@.len() == b@.len(),
            0 <= i <= a@.len(),
            (diff == 0) <==> (forall|j: int| 0 <= j < i ==> a@[j] == b@[j]),
        decreases a@.len() - i,
    {
        let x = a[i];
        let y = b[i];
        let d = diff;
        diff = diff | (x ^ y);
        assert(((d | (x ^ y)) == 0) <==> (d == 0 && x == y)) by (bit_vector);
        i = i + 1;
    }
    assert((a@ == b@) <== (forall|j: int| 0 <= j < a@.len() ==> a@[j] == b@[j])) by {
        if forall|j: int| 0 <= j < a@.len() ==> a@[j] == b@[j] {
            assert(a@ =~= b@);
        }
    }
    diff == 0
}

/// The token a request presents: the header value when there is one,
/// otherwise the `token=` query parameter.
pub open spec fn presented_token(header: Option<Seq<char>>, query: Option<Seq<char>>) -> Option<
    Seq<char>,
> {
    match header {
        Some(h) => Some(h),
        None => query_token_decoded(query),
    }
}

/// The decision of the `/api/*` token gate: the request is let through exactly
/// when the token it presents equals the session token.
pub fn token_accepted(header: Option<&str>, query: Option<&str>, expected: &str) -> (r: bool)
    ensures
        r == (presented_token(opt_str_view(header), opt_str_view(query)) == Some(expected@)),
{
    let provided: Option<String> = match header {
        Some(h) => Some(String::from_str(h)),
        None => token_from_query(query),
    };
    match provided {
        Some(t) => {
            let eq = constant_time_eq(t.as_str().as_bytes(), expected.as_bytes());
            proof {
                encode_utf8_decode_utf8(t@);
                encode_utf8_decode_utf8(expected@);
            }
            eq
        },
        None => false,
    }
}

/// The bytes that `encodeURIComponent` leaves as they are.
pub open spec fn is_unreserved(b: u8) -> bool {
    ||| 65 <= b <= 90
    ||| 97 <= b <= 122
    ||| 48 <= b <= 57
    ||| b == 45
    ||| b == 95
    ||| b == 46
    ||| b == 33
    ||| b == 126
    ||| b == 42
    ||| b == 39
    ||| b == 40
    ||| b == 41
}

/// Upper-case hex digit of a nibble.
pub open spec fn hex_upper(n: u8) -> u8 {
    if n < 10 {
        (48 + n) as u8
    } else {
        (55 + n) as u8
    }
}

/// Percent-encoding of a byte string as `encodeURIComponent` does it.
pub open spec fn pct_encode(b: Seq<u8>) -> Seq<u8>
    decreases b.len(),
{
    if b.len() == 0 {
        Seq::empty()
    } else if is_unreserved(b[0]) {
        seq![b[0]] + pct_encode(b.skip(1))
    } else {
        seq![37u8, hex_upper(b[0] / 16), hex_upper(b[0] % 16)] + pct_encode(b.skip(1))
    }
}

/// ASCII bytes read as characters.
pub open spec fn ascii_chars(b: Seq<u8>) -> Seq<char> {
    b.map_values(|x: u8| x as char)
}

/// What the browser's `encodeURIComponent` makes of a string.
pub open spec fn encode_uri_component(t: Seq<char>) -> Seq<char> {
    ascii_chars(pct_encode(encode_utf8(t)))
}

proof fn lemma_pct_encode_ascii(b: Seq<u8>)
    ensures
        forall|i: int| 0 <= i < pct_encode(b).len() ==> pct_encode(b)[i] < 128,
        forall|i: int| 0 <= i < pct_encode(b).len() ==> pct_encode(b)[i] != 38,
    decreases b.len(),
{
    if b.len() > 0 {
        lemma_pct_encode_ascii(b.skip(1));
        let head = if is_unreserved(b[0]) {
            seq![b[0]]
        } else {
            seq![37u8, hex_upper(b[0] / 16), hex_upper(b[0] % 16)]
        };
        assert(pct_encode(b) == head + pct_encode(b.skip(1)));
        assert forall|i: int| 0 <= i < pct_encode(b).len() implies pct_encode(b)[i] < 128
            && pct_encode(b)[i] != 38 by {
            if i >= head.len() {
                assert(pct_encode(b)[i] == pct_encode(b.skip(1))[i - head.len()]);
            }
        }
    }
}

proof fn lemma_ascii_chars_encode(b: Seq<u8>)
    requires
        forall|i: int| 0 <= i < b.len() ==> b[i] < 128,
    ensures
        encode_utf8(ascii_chars(b)) == b,
{
    let c = ascii_chars(b);
    assert(is_ascii_chars(c)) by {
        assert forall|i: int| 0 <= i < c.len() implies '\0' <= #[trigger] c[i] <= '\u{7f}' by {
            assert(c[i] == b[i] as char);
        }
    }
    is_ascii_chars_encode_utf8(c);
    assert forall|i: int| 0 <= i < b.len() implies encode_utf8(c)[i] == b[i] by {
        assert(c[i] == b[i] as char);
    }
    assert(encode_utf8(c) =~= b);
}

proof fn lemma_hex_roundtrip(x: u8)
    ensures
        hex_value(hex_upper(x / 16)) == Some((x / 16) as u8),
        hex_value(hex_upper(x % 16)) == Some((x % 16) as u8),
        (x / 16) * 16 + x % 16 == x,
{
}

/// Decoding undoes encoding, byte string by byte string.
pub proof fn lemma_pct_decode_encode(b: Seq<u8>)
    ensures
        pct_decode(pct_encode(b)) == b,
    decreases b.len(),
{
    if b.len() > 0 {
        lemma_pct_decode_encode(b.skip(1));
        let rest = pct_encode(b.skip(1));
        if is_unreserved(b[0]) {
            let e = seq![b[0]] + rest;
            assert(e.skip(1) =~= rest);
            assert(pct_decode(e) == seq![b[0]] + pct_decode(e.skip(1)));
        } else {
            lemma_hex_roundtrip(b[0]);
            let e = seq![37u8, hex_upper(b[0] / 16), hex_upper(b[0] % 16)] + rest;
            assert(e.skip(3) =~= rest);
            assert(e[1] == hex_upper(b[0] / 16) && e[2] == hex_upper(b[0] % 16));
            assert(pct_decode(e) == seq![b[0]] + pct_decode(e.skip(3)));
        }
        assert(seq![b[0]] + b.skip(1) =~= b);
    }
}

/// Percent-decoding recovers any string from its `encodeURIComponent` form, so
/// a session token survives the `?token=` query of the event stream whatever
/// characters it contains.
pub proof fn law_percent_decode_inverts_encode_uri_component(t: Seq<char>)
    ensures
        percent_decoded(encode_uri_component(t)) == t,
{
    let p = pct_encode(encode_utf8(t));
    lemma_pct_encode_ascii(encode_utf8(t));
    lemma_ascii_chars_encode(p);
    lemma_pct_decode_encode(encode_utf8(t));
    encode_utf8_valid_utf8(t);
    encode_utf8_decode_utf8(t);
}

/// A session token always gets through the event stream's query: whatever
/// characters it holds, `token=` followed by its `encodeURIComponent` form
/// presents exactly that token, for the query is split at each ampersand first
/// and only then is the value percent-decoded, while the browser's encoding
/// never leaves an ampersand bare. The token check thus accepts this query
/// for that token and for no other.
pub proof fn law_encoded_query_token_accepted(t: Seq<char>, expected: Seq<char>)
    ensures
        presented_token(None, Some("token="@ + encode_uri_component(t))) == Some(t),
        (presented_token(None, Some("token="@ + encode_uri_component(t))) == Some(expected)) <==> (t
            == expected),
{
    reveal_strlit("token=");
    assert("token="@ =~= token_prefix());
    let e = encode_uri_component(t);
    let q = token_prefix() + e;
    let b = pct_encode(encode_utf8(t));
    lemma_pct_encode_ascii(encode_utf8(t));
    assert forall|j: int| 0 <= j < q.len() implies q[j] != '&' by {
        if j >= 6 {
            assert(q[j] == e[j - 6]);
            assert(e[j - 6] == b[j - 6] as char);
            assert(b[j - 6] != 38 && b[j - 6] < 128);
        }
    }
    lemma_amp_pos_unique(q, q.len() as int);
    assert(q.take(q.len() as int) =~= q);
    assert(q.take(6) =~= token_prefix());
    assert(q.skip(6) =~= e);
    law_percent_decode_inverts_encode_uri_component(t);
}

/// Bytes other than `%` pass through decoding unchanged.
pub proof fn lemma_pct_decode_without_percent(b: Seq<u8>)
    requires
        forall|i: int| 0 <= i < b.len() ==> b[i] != 37,
    ensures
        pct_decode(b) == b,
    decreases b.len(),
{
    if b.len() > 0 {
        assert forall|i: int| 0 <= i < b.skip(1).len() implies b.skip(1)[i] != 37 by {
            assert(b.skip(1)[i] == b[i + 1]);
        }
        lemma_pct_decode_without_percent(b.skip(1));
        assert(seq![b[0]] + b.skip(1) =~= b);
    }
}

/// An ASCII string without `%` decodes to itself.
pub proof fn law_percent_decode_plain_ascii(s: Seq<char>)
    requires
        is_ascii_chars(s),
        forall|i: int| 0 <= i < s.len() ==> s[i] != '%',
    ensures
        percent_decoded(s) == s,
{
    is_ascii_chars_encode_utf8(s);
    let b = encode_utf8(s);
    assert forall|i: int| 0 <= i < b.len() implies b[i] != 37 by {
        assert(s[i] as u8 == b[i]);
        assert(s[i] != '%');
        assert('\0' <= s[i] <= '\u{7f}');
    }
    lemma_pct_decode_without_percent(b);
    encode_utf8_valid_utf8(s);
    encode_utf8_decode_utf8(s);
}

} // verus!
