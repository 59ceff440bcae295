//! Encoding of [`SearchOptions`] as a URL query string.
//!
//! The wire mapping is fixed: `language` is sent as `from`, the optional
//! `translated_language` as `to`, `has_audio` as a boolean literal, `query`
//! and `trans_filter` under their own names. Absent optional fields are left
//! out of the string entirely. Values are form-urlencoded: bytes of the
//! value's UTF-8 encoding pass through when unreserved, a space becomes `+`,
//! and every other byte becomes `%` followed by two uppercase hex digits.

use vstd::prelude::*;
use vstd::utf8::encode_scalar;
use crate::options::{SearchOptions, SearchOptionsView};

verus! {

/// Bytes that form-urlencoding passes through unchanged:
/// ASCII alphanumerics and `*`, `-`, `.`, `_`.
pub open spec fn is_plain_byte(b: u8) -> bool {
    ||| (48 <= b <= 57)  // '0' ..= '9'
    ||| (65 <= b <= 90)  // 'A' ..= 'Z'
    ||| (97 <= b <= 122)  // 'a' ..= 'z'
    ||| b == 42  // '*'
    ||| b == 45  // '-'
    ||| b == 46  // '.'
    ||| b == 95  // '_'
}

/// The uppercase hex digit for a value below 16.
pub open spec fn hex_digit(n: u8) -> char
    recommends
        n < 16,
{
    if n < 10 {
        ((48 + n) as u8) as char  // '0' + n
    } else {
        ((55 + n) as u8) as char  // 'A' + (n - 10)
    }
}

/// The form-urlencoding of one byte of a value.
pub open spec fn enc_byte(b: u8) -> Seq<char> {
    if is_plain_byte(b) {
        seq![b as char]
    } else if b == 32 {
        seq!['+']
    } else {
        seq!['%', hex_digit(b / 16), hex_digit(b % 16)]
    }
}

/// The form-urlencoding of a byte sequence.
pub open spec fn enc_bytes(bs: Seq<u8>) -> Seq<char>
    decreases bs.len(),
{
    if bs.len() == 0 {
        Seq::empty()
    } else {
        enc_byte(bs[0]) + enc_bytes(bs.drop_first())
    }
}

/// The form-urlencoding of a text value: each character's UTF-8 bytes
/// (per [`encode_scalar`]), encoded byte by byte.
pub open spec fn enc_value(s: Seq<char>) -> Seq<char>
    decreases s.len(),
{
    if s.len() == 0 {
        Seq::empty()
    } else {
        enc_bytes(encode_scalar(s[0] as u32)) + enc_value(s.drop_first())
    }
}

/// The boolean literal sent for an audio filter value.
pub open spec fn bool_str(b: bool) -> Seq<char> {
    if b {
        "true"@
    } else {
        "false"@
    }
}

/// The `name = value` pairs a search carries, in the order they are sent.
/// Absent optional fields contribute no pair at all.
pub open spec fn query_pairs(o: SearchOptionsView) -> Seq<(Seq<char>, Seq<char>)> {
    seq![("from"@, o.language)] + (match o.translated_language {
        Option::Some(t) => seq![("to"@, t)],
        Option::None => Seq::empty(),
    }) + (match o.has_audio {
        Option::Some(b) => seq![("has_audio"@, bool_str(b))],
        Option::None => Seq::empty(),
    }) + seq![("query"@, o.query), ("trans_filter"@, o.trans_filter)]
}

/// One encoded pair: the raw parameter name, `=`, and the encoded value.
#[verifier::opaque]
pub open spec fn encoded_pair(p: (Seq<char>, Seq<char>)) -> Seq<char> {
    p.0 + "="@ + enc_value(p.1)
}

/// Encoded pairs joined with `&`.
pub open spec fn encoded_pairs(ps: Seq<(Seq<char>, Seq<char>)>) -> Seq<char>
    decreases ps.len(),
{
    if ps.len() == 0 {
        Seq::empty()
    } else if ps.len() == 1 {
        encoded_pair(ps[0])
    } else {
        encoded_pair(ps[0]) + "&"@ + encoded_pairs(ps.drop_first())
    }
}

/// The full query string for a search (without a leading `?`).
pub open spec fn encoded_query(o: SearchOptionsView) -> Seq<char> {
    encoded_pairs(query_pairs(o))
}

/// Appends every character of `s`.
fn push_chars(out: &mut Vec<char>, s: &str)
    ensures
        final(out)@ == old(out)@ + s@,
{
    let n = s.unicode_len();
    for i in 0..n
        invariant
            n == s@.len(),
            out@ == old(out)@ + s@.take(i as int),
    {
        out.push(s.get_char(i));
        proof {
            assert(s@.take(i + 1) =~= s@.take(i as int).push(s@[i as int]));
        }
    }
    proof {
        assert(s@.take(n as int) =~= s@);
    }
}

/// Appends the form-urlencoding of one byte.
fn push_encoded_byte(out: &mut Vec<char>, b: u8)
    ensures
        final(out)@ == old(out)@ + enc_byte(b),
{
    let plain = (48 <= b && b <= 57) || (65 <= b && b <= 90) || (97 <= b && b <= 122) || b == 42
        || b == 45 || b == 46 || b == 95;
    if plain {
        out.push(b as char);
        proof {
            assert(out@ =~= old(out)@ + enc_byte(b));
        }
    } else if b == 32 {
        out.push('+');
        proof {
            assert(out@ =~= old(out)@ + enc_byte(b));
        }
    } else {
        let hi = b / 16;
        let lo = b % 16;
        out.push('%');
        out.push(if hi < 10 { (48 + hi) as char } else { (55 + hi) as char });
        out.push(if lo < 10 { (48 + lo) as char } else { (55 + lo) as char });
        proof {
            assert(out@ =~= old(out)@ + enc_byte(b));
        }
    }
}

/// Appends the form-urlencoding of one character's UTF-8 bytes.
#[verifier::rlimit(100)]
#[verifier::spinoff_prover]
fn push_encoded_char(out: &mut Vec<char>, c: char)
    ensures
        final(out)@ == old(out)@ + enc_bytes(encode_scalar(c as u32)),
{
    proof {
        vstd::utf8::char_is_scalar(c);
    }
    let u = c as u32;
    if u <= 0x7F {
        assert((u & 0x7F) < 0x80 && (u & 0x7F) == u) by (bit_vector)
            requires
                u <= 0x7F,
        ;
        push_encoded_byte(out, (u & 0x7F) as u8);
        proof {
            reveal_with_fuel(enc_bytes, 6);
            let bs = encode_scalar(c as u32);
            assert(bs =~= seq![(u & 0x7F) as u8]);
            assert(bs.drop_first() =~= Seq::<u8>::empty());
            assert(out@ =~= old(out)@ + enc_bytes(bs));
        }
    } else if u <= 0x7FF {
        assert(((u >> 6) & 0x1F) < 0x20 && (u & 0x3F) < 0x40) by (bit_vector);
        let b1: u8 = 0xC0 | ((u >> 6) & 0x1F) as u8;
        let b2: u8 = 0x80 | (u & 0x3F) as u8;
        push_encoded_byte(out, b1);
        push_encoded_byte(out, b2);
        proof {
            reveal_with_fuel(enc_bytes, 6);
            let bs = encode_scalar(c as u32);
            assert(bs =~= seq![b1, b2]);
            assert(bs.drop_first() =~= seq![b2]);
            assert(seq![b2].drop_first() =~= Seq::<u8>::empty());
            assert(out@ =~= old(out)@ + enc_bytes(bs));
        }
    } else if u <= 0xFFFF {
        assert(((u >> 12) & 0x0F) < 0x10 && ((u >> 6) & 0x3F) < 0x40 && (u & 0x3F) < 0x40)
            by (bit_vector);
        let b1: u8 = 0xE0 | ((u >> 12) & 0x0F) as u8;
        let b2: u8 = 0x80 | ((u >> 6) & 0x3F) as u8;
        let b3: u8 = 0x80 | (u & 0x3F) as u8;
        push_encoded_byte(out, b1);
        push_encoded_byte(out, b2);
        push_encoded_byte(out, b3);
        proof {
            reveal_with_fuel(enc_bytes, 6);
            let bs = encode_scalar(c as u32);
            assert(bs =~= seq![b1, b2, b3]);
            assert(bs.drop_first() =~= seq![b2, b3]);
            assert(seq![b2, b3].drop_first() =~= seq![b3]);
            assert(seq![b3].drop_first() =~= Seq::<u8>::empty());
            assert(out@ =~= old(out)@ + enc_bytes(bs));
        }
    } else {
        assert(((u >> 18) & 0x7) < 0x8 && ((u >> 12) & 0x3F) < 0x40 && ((u >> 6) & 0x3F) < 0x40
            && (u & 0x3F) < 0x40) by (bit_vector);
        let b1: u8 = 0xF0 | ((u >> 18) & 0x7) as u8;
        let b2: u8 = 0x80 | ((u >> 12) & 0x3F) as u8;
        let b3: u8 = 0x80 | ((u >> 6) & 0x3F) as u8;
        let b4: u8 = 0x80 | (u & 0x3F) as u8;
        push_encoded_byte(out, b1);
        push_encoded_byte(out, b2);
        push_encoded_byte(out, b3);
        push_encoded_byte(out, b4);
        proof {
            reveal_with_fuel(enc_bytes, 6);
            let bs = encode_scalar(c as u32);
            assert(bs =~= seq![b1, b2, b3, b4]);
            assert(bs.drop_first() =~= seq![b2, b3, b4]);
            assert(seq![b2, b3, b4].drop_first() =~= seq![b3, b4]);
            assert(seq![b3, b4].drop_first() =~= seq![b4]);
            assert(seq![b4].drop_first() =~= Seq::<u8>::empty());
            assert(out@ =~= old(out)@ + enc_bytes(bs));
        }
    }
}

/// Appends the form-urlencoding of a whole value.
fn push_encoded_value(out: &mut Vec<char>, s: &str)
    ensures
        final(out)@ == old(out)@ + enc_value(s@),
{
    let n = s.unicode_len();
    proof {
        assert(s@.skip(0) =~= s@);
    }
    for i in 0..n
        invariant
            n == s@.len(),
            out@ + enc_value(s@.skip(i as int)) == old(out)@ + enc_value(s@),
    {
        proof {
            assert(s@.skip(i as int).len() > 0);
            assert(s@.skip(i as int)[0] == s@[i as int]);
            assert(s@.skip(i as int).drop_first() =~= s@.skip(i + 1));
        }
        let ghost prev = out@;
        push_encoded_char(out, s.get_char(i));
        proof {
            assert(out@ + enc_value(s@.skip(i + 1)) =~= prev + enc_value(s@.skip(i as int)));
        }
    }
    proof {
        assert(s@.skip(n as int).len() == 0);
        assert(enc_value(s@.skip(n as int)) =~= Seq::<char>::empty());
        assert(out@ =~= out@ + enc_value(s@.skip(n as int)));
    }
}

/// Relies on `String::from_iter` over `char`s: collecting characters yields
/// the string of exactly those characters.
#[verifier::external_body]
fn chars_to_string(v: Vec<char>) -> (r: String)
    ensures
        r@ == v@,
{
    v.into_iter().collect()
}

/// Encodes the options as the query string of the search request,
/// per [`encoded_query`].
/// Appends one encoded `name=value` pair.
fn append_pair(out: &mut Vec<char>, name: &str, value: &str)
    ensures
        final(out)@ == old(out)@ + encoded_pair((name@, value@)),
{
    push_chars(out, name);
    push_chars(out, "=");
    push_encoded_value(out, value);
    proof {
        reveal(encoded_pair);
        assert(out@ =~= old(out)@ + encoded_pair((name@, value@)));
    }
}

/// Encodes the options as the query string of the search request,
/// per [`encoded_query`].
#[verifier::rlimit(100)]
#[verifier::spinoff_prover]
pub fn encode_query(options: &SearchOptions) -> (r: String)
    ensures
        r@ == encoded_query(options@),
{
    let ghost o = options@;
    let mut out: Vec<char> = Vec::new();
    append_pair(&mut out, "from", options.language.as_str());
    if let Some(t) = &options.translated_language {
        push_chars(&mut out, "&");
        append_pair(&mut out, "to", t.as_str());
    }
    if let Some(b) = options.has_audio {
        push_chars(&mut out, "&");
        append_pair(&mut out, "has_audio", if b { "true" } else { "false" });
    }
    push_chars(&mut out, "&");
    append_pair(&mut out, "query", options.query.as_str());
    push_chars(&mut out, "&");
    append_pair(&mut out, "trans_filter", options.trans_filter.as_str());
    proof {
        reveal_with_fuel(encoded_pairs, 6);
        let e_from = encoded_pair(("from"@, o.language));
        let e_query = encoded_pair(("query"@, o.query));
        let e_tf = encoded_pair(("trans_filter"@, o.trans_filter));
        match (o.translated_language, o.has_audio) {
            (Option::None, Option::None) => {
                let ps = seq![
                    ("from"@, o.language),
                    ("query"@, o.query),
                    ("trans_filter"@, o.trans_filter),
                ];
                assert(query_pairs(o) =~= ps);
                assert(ps.drop_first() =~= ps.skip(1));
                assert(ps.skip(1).drop_first() =~= ps.skip(2));
                assert(out@ =~= encoded_pairs(ps));
            },
            (Option::Some(t), Option::None) => {
                let ps = seq![
                    ("from"@, o.language),
                    ("to"@, t),
                    ("query"@, o.query),
                    ("trans_filter"@, o.trans_filter),
                ];
                assert(query_pairs(o) =~= ps);
                assert(ps.drop_first() =~= ps.skip(1));
                assert(ps.skip(1).drop_first() =~= ps.skip(2));
                assert(ps.skip(2).drop_first() =~= ps.skip(3));
                assert(out@ =~= encoded_pairs(ps));
            },
            (Option::None, Option::Some(b)) => {
                let ps = seq![
                    ("from"@, o.language),
                    ("has_audio"@, bool_str(b)),
                    ("query"@, o.query),
                    ("trans_filter"@, o.trans_filter),
                ];
                assert(query_pairs(o) =~= ps);
                assert(ps.drop_first() =~= ps.skip(1));
                assert(ps.skip(1).drop_first() =~= ps.skip(2));
                assert(ps.skip(2).drop_first() =~= ps.skip(3));
                assert(out@ =~= encoded_pairs(ps));
            },
            (Option::Some(t), Option::Some(b)) => {
                let ps = seq![
                    ("from"@, o.language),
                    ("to"@, t),
                    ("has_audio"@, bool_str(b)),
                    ("query"@, o.query),
                    ("trans_filter"@, o.trans_filter),
                ];
                assert(query_pairs(o) =~= ps);
                assert(ps.drop_first() =~= ps.skip(1));
                assert(ps.skip(1).drop_first() =~= ps.skip(2));
                assert(ps.skip(2).drop_first() =~= ps.skip(3));
                assert(ps.skip(3).drop_first() =~= ps.skip(4));
                assert(out@ =~= encoded_pairs(ps));
            },
        }
    }
    chars_to_string(out)
}

/// The `to` parameter appears exactly when a target-language filter is set:
/// never with `translated_language` absent, and exactly once, carrying the
/// filter's value, with it present.
pub proof fn lemma_to_parameter(o: SearchOptionsView)
    ensures
        o.translated_language is None ==> forall|i: int|
            0 <= i < query_pairs(o).len() ==> (#[trigger] query_pairs(o)[i]).0 != "to"@,
        o.translated_language is Some ==> query_pairs(o)[1] == (
            "to"@,
            o.translated_language->0,
        ),
        o.translated_language is Some ==> forall|i: int|
            0 <= i < query_pairs(o).len() && i != 1 ==> (#[trigger] query_pairs(o)[i]).0
                != "to"@,
{
    reveal_strlit("from");
    reveal_strlit("to");
    reveal_strlit("has_audio");
    reveal_strlit("query");
    reveal_strlit("trans_filter");
    assert("from"@.len() == 4);
    assert("to"@.len() == 2);
    assert("has_audio"@.len() == 9);
    assert("query"@.len() == 5);
    assert("trans_filter"@.len() == 12);
    let ps = query_pairs(o);
    match (o.translated_language, o.has_audio) {
        (Option::None, Option::None) => {
            assert(ps =~= seq![("from"@, o.language), ("query"@, o.query), ("trans_filter"@, o.trans_filter)]);
        },
        (Option::None, Option::Some(b)) => {
            assert(ps =~= seq![
                ("from"@, o.language),
                ("has_audio"@, bool_str(b)),
                ("query"@, o.query),
                ("trans_filter"@, o.trans_filter),
            ]);
        },
        (Option::Some(t), Option::None) => {
            assert(ps =~= seq![
                ("from"@, o.language),
                ("to"@, t),
                ("query"@, o.query),
                ("trans_filter"@, o.trans_filter),
            ]);
        },
        (Option::Some(t), Option::Some(b)) => {
            assert(ps =~= seq![
                ("from"@, o.language),
                ("to"@, t),
                ("has_audio"@, bool_str(b)),
                ("query"@, o.query),
                ("trans_filter"@, o.trans_filter),
            ]);
        },
    }
}

} // verus!
