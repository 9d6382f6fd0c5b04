//! Percent-encoding of query-parameter values and topic slugs.

use vstd::prelude::*;
use vstd::utf8::encode_utf8;
use crate::text::{
    char_vec, concat_map, lemma_concat_map_append, replace_char, replace_char_chars, replace_piece,
    string_from_chars, trim_chars, trim_spec,
};

verus! {

/// Bytes that `application/x-www-form-urlencoded` serialisation leaves as
/// they are: ASCII letters and digits, `*`, `-`, `.` and `_`.
pub open spec fn is_unreserved_byte(b: u8) -> bool {
    ||| b == 42  // '*'
    ||| b == 45  // '-'
    ||| b == 46  // '.'
    ||| 48 <= b <= 57  // '0'..='9'
    ||| 65 <= b <= 90  // 'A'..='Z'
    ||| b == 95  // '_'
    ||| 97 <= b <= 122  // 'a'..='z'

}

/// The upper-case hexadecimal digit for `d < 16`.
pub open spec fn hex_upper(d: nat) -> char {
    if d < 10 {
        ((d + 48) as u32) as char
    } else {
        ((d + 55) as u32) as char
    }
}

/// `%XY` for the byte `b`, with upper-case hex digits.
pub open spec fn percent_triplet(b: u8) -> Seq<char> {
    seq!['%', hex_upper((b / 16) as nat), hex_upper((b % 16) as nat)]
}

/// How the form-urlencoded serialiser writes one byte: unreserved bytes as
/// themselves, a space as `+`, any other byte as `%XY`.
pub open spec fn form_piece() -> spec_fn(u8) -> Seq<char> {
    |b: u8|
        if is_unreserved_byte(b) {
            seq![(b as u32) as char]
        } else if b == 32 {
            seq!['+']
        } else {
            percent_triplet(b)
        }
}

/// The form-urlencoded serialisation of `bytes`.
pub open spec fn form_serialize(bytes: Seq<u8>) -> Seq<char> {
    concat_map(bytes, form_piece())
}

/// How a query value writes one byte: unreserved bytes as themselves, any
/// other byte (the space included) as `%XY`.
pub open spec fn query_piece() -> spec_fn(u8) -> Seq<char> {
    |b: u8|
        if is_unreserved_byte(b) {
            seq![(b as u32) as char]
        } else {
            percent_triplet(b)
        }
}

/// The percent-encoding of `bytes` used for query values: spaces as `%20`,
/// never `+`.
pub open spec fn query_encode(bytes: Seq<u8>) -> Seq<char> {
    concat_map(bytes, query_piece())
}

/// Calls `url::form_urlencoded::byte_serialize` and joins the pieces it
/// yields. Its source writes each byte in `*-._`, `0-9`, `A-Z`, `a-z`
/// unchanged, a space as `+`, and every other byte as `%XY` with upper-case
/// hex digits (`percent_encoding::percent_encode_byte`), in input order.
#[verifier::external_body]
fn form_urlencoded_bytes(input: &[u8]) -> (r: String)
    ensures
        r@ == form_serialize(input@),
{
    url::form_urlencoded::byte_serialize(input).collect::<String>()
}

/// Name for the result of `str::to_lowercase`: the lower-case form of a
/// string under the Unicode `Lowercase` mapping.
pub uninterp spec fn lowercase_of(s: Seq<char>) -> Seq<char>;

/// Calls `str::to_lowercase`; the result is the named lower-case form of `s`.
#[verifier::external_body]
pub fn to_lowercase(s: &str) -> (r: String)
    ensures
        r@ == lowercase_of(s@),
{
    s.to_lowercase()
}

proof fn lemma_hex_upper(d: nat)
    requires
        d < 16,
    ensures
        hex_upper(d) != '+',
        hex_upper(d) != ' ',
        hex_upper(d) != '%',
{
}

/// Rewriting `+` as `%20` in a byte's form serialisation gives its query
/// encoding.
proof fn lemma_form_piece_to_query(b: u8)
    ensures
        replace_char(form_piece()(b), '+', seq!['%', '2', '0']) == query_piece()(b),
{
    let f = replace_piece('+', seq!['%', '2', '0']);
    let p = form_piece()(b);
    reveal_with_fuel(concat_map, 4);
    if is_unreserved_byte(b) {
        assert(p.drop_last() =~= Seq::<char>::empty());
        assert(concat_map(p, f) =~= query_piece()(b));
    } else if b == 32 {
        assert(p.drop_last() =~= Seq::<char>::empty());
        assert(b / 16 == 2 && b % 16 == 0);
        assert(concat_map(p, f) =~= query_piece()(b));
    } else {
        lemma_hex_upper((b / 16) as nat);
        lemma_hex_upper((b % 16) as nat);
        assert(p.drop_last().drop_last().drop_last() =~= Seq::<char>::empty());
        assert(p.drop_last().drop_last() =~= seq!['%']);
        assert(p.drop_last() =~= seq!['%', hex_upper((b / 16) as nat)]);
        assert(concat_map(p, f) =~= query_piece()(b));
    }
}

/// Rewriting every `+` of the form serialisation as `%20` gives the query
/// encoding.
proof fn lemma_form_to_query(bytes: Seq<u8>)
    ensures
        replace_char(form_serialize(bytes), '+', seq!['%', '2', '0']) == query_encode(bytes),
    decreases bytes.len(),
{
    let f = replace_piece('+', seq!['%', '2', '0']);
    if bytes.len() > 0 {
        lemma_form_to_query(bytes.drop_last());
        lemma_concat_map_append(
            form_serialize(bytes.drop_last()),
            form_piece()(bytes.last()),
            f,
        );
        lemma_form_piece_to_query(bytes.last());
    }
}

/// Percent-encodes a query-parameter value: the UTF-8 bytes of `value`, each
/// unreserved byte as itself and every other byte as `%XY`, so a space
/// becomes `%20` rather than `+`.
pub fn enc(value: &str) -> (r: String)
    ensures
        r@ == query_encode(encode_utf8(value@)),
{
    let bytes = value.as_bytes();
    let form = form_urlencoded_bytes(bytes);
    let chars = char_vec(form.as_str());
    let twenty = ['%', '2', '0'];
    let out = replace_char_chars(chars.as_slice(), '+', twenty.as_slice());
    proof {
        assert(twenty@ =~= seq!['%', '2', '0']);
        lemma_form_to_query(encode_utf8(value@));
    }
    string_from_chars(out.as_slice())
}

/// The slug of a topic name: white space trimmed at both ends, lower-cased,
/// inner spaces turned into `-`.
pub open spec fn slug_chars(category: Seq<char>) -> Seq<char> {
    replace_char(lowercase_of(trim_spec(category)), ' ', seq!['-'])
}

/// Normalises a topic or category name to an Unsplash topic slug: trimmed,
/// lower-cased, spaces as `-`, then percent-encoded as a query value.
pub fn topic_slug(category: &str) -> (r: String)
    ensures
        r@ == query_encode(encode_utf8(slug_chars(category@))),
{
    let chars = char_vec(category);
    let trimmed = trim_chars(chars.as_slice());
    let trimmed_s = string_from_chars(trimmed.as_slice());
    let lower = to_lowercase(trimmed_s.as_str());
    let lower_chars = char_vec(lower.as_str());
    let dash = ['-'];
    let slug = replace_char_chars(lower_chars.as_slice(), ' ', dash.as_slice());
    proof {
        assert(dash@ =~= seq!['-']);
    }
    let slug_s = string_from_chars(slug.as_slice());
    enc(slug_s.as_str())
}


// ---------------------------------------------------------------------------
// Laws of the query encoding
// ---------------------------------------------------------------------------

/// The value of a hexadecimal digit (either case).
pub open spec fn hex_value(c: char) -> Option<nat> {
    if '0' <= c && c <= '9' {
        Some(((c as u32) - 48) as nat)
    } else if 'A' <= c && c <= 'F' {
        Some(((c as u32) - 55) as nat)
    } else if 'a' <= c && c <= 'f' {
        Some(((c as u32) - 87) as nat)
    } else {
        None
    }
}

/// Percent-decoding: `%XY` with two hex digits stands for the byte `0xXY`;
/// any other character stands for its own low byte.
pub open spec fn percent_decode(s: Seq<char>) -> Seq<u8>
    decreases s.len(),
{
    if s.len() == 0 {
        Seq::empty()
    } else if s[0] == '%' && s.len() >= 3 && hex_value(s[1]) is Some && hex_value(s[2]) is Some {
        seq![(hex_value(s[1])->0 * 16 + hex_value(s[2])->0) as u8] + percent_decode(s.skip(3))
    } else {
        seq![(s[0] as u32) as u8] + percent_decode(s.drop_first())
    }
}

/// Characters that may stand in a query value unescaped: the unreserved
/// ASCII set, `%`, and the upper-case hex digits that follow it.
pub open spec fn is_query_safe(c: char) -> bool {
    ||| c == '%'
    ||| is_unreserved_byte((c as u32) as u8) && (c as u32) < 128
}

proof fn lemma_query_encode_cons(b: u8, rest: Seq<u8>)
    ensures
        query_encode(seq![b] + rest) == query_piece()(b) + query_encode(rest),
{
    lemma_concat_map_append(seq![b], rest, query_piece());
    assert(seq![b].drop_last() =~= Seq::<u8>::empty());
    assert(seq![b].last() == b);
    assert(concat_map(Seq::<u8>::empty(), query_piece()) =~= Seq::<char>::empty());
    assert(concat_map(seq![b], query_piece()) == concat_map(Seq::<u8>::empty(), query_piece())
        + query_piece()(b));
    assert(Seq::<char>::empty() + query_piece()(b) =~= query_piece()(b));
}

proof fn lemma_decode_piece(b: u8, tail: Seq<char>)
    ensures
        percent_decode(query_piece()(b) + tail) == seq![b] + percent_decode(tail),
{
    let s = query_piece()(b) + tail;
    if is_unreserved_byte(b) {
        assert(s[0] == (b as u32) as char);
        assert(s[0] != '%');
        assert(s.drop_first() =~= tail);
        assert(((s[0] as u32) as u8) == b);
    } else {
        let hi = (b / 16) as nat;
        let lo = (b % 16) as nat;
        assert(s[0] == '%');
        assert(s[1] == hex_upper(hi));
        assert(s[2] == hex_upper(lo));
        assert(hex_value(hex_upper(hi)) == Some(hi));
        assert(hex_value(hex_upper(lo)) == Some(lo));
        assert(s.skip(3) =~= tail);
        assert((hi * 16 + lo) as u8 == b);
    }
}

/// Decoding the query encoding of any byte string gives the bytes back.
pub proof fn law_query_encode_decodes(bytes: Seq<u8>)
    ensures
        percent_decode(query_encode(bytes)) == bytes,
    decreases bytes.len(),
{
    if bytes.len() == 0 {
        assert(query_encode(bytes) =~= Seq::<char>::empty());
    } else {
        let rest = bytes.drop_first();
        assert(bytes =~= seq![bytes[0]] + rest);
        lemma_query_encode_cons(bytes[0], rest);
        lemma_decode_piece(bytes[0], query_encode(rest));
        law_query_encode_decodes(rest);
    }
}

/// Every character of a query encoding is unreserved ASCII, `%`, or an
/// upper-case hex digit; in particular it holds no space and no `+`.
pub proof fn law_query_encode_safe(bytes: Seq<u8>)
    ensures
        forall|i: int|
            0 <= i < query_encode(bytes).len() ==> is_query_safe(#[trigger] query_encode(bytes)[i]),
        forall|i: int|
            0 <= i < query_encode(bytes).len() ==> #[trigger] query_encode(bytes)[i] != ' '
                && query_encode(bytes)[i] != '+',
    decreases bytes.len(),
{
    let e = query_encode(bytes);
    if bytes.len() > 0 {
        law_query_encode_safe(bytes.drop_last());
        let prev = query_encode(bytes.drop_last());
        let b = bytes.last();
        let p = query_piece()(b);
        assert(e == prev + p);
        assert forall|i: int| 0 <= i < e.len() implies is_query_safe(#[trigger] e[i]) && e[i]
            != ' ' && e[i] != '+' by {
            if i < prev.len() {
                assert(e[i] == prev[i]);
            } else {
                let k = i - prev.len();
                assert(e[i] == p[k]);
                if !is_unreserved_byte(b) && k > 0 {
                    let d = if k == 1 {
                        (b / 16) as nat
                    } else {
                        (b % 16) as nat
                    };
                    assert(p[k] == hex_upper(d));
                }
            }
        }
    }
}

} // verus!
