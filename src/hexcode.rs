use vstd::prelude::*;

verus! {

/// The lowercase hex digit for a value below sixteen.
pub open spec fn digit_char(n: int) -> char {
    if n < 10 {
        (n + 48) as char
    } else {
        (n + 87) as char
    }
}

/// Lowercase hex text of a byte sequence: two digits per byte, high nibble first.
pub open spec fn hex_chars(b: Seq<u8>) -> Seq<char> {
    Seq::new(
        2 * b.len(),
        |i: int| if i % 2 == 0 { digit_char(b[i / 2] as int / 16) } else { digit_char(b[i / 2] as int % 16) },
    )
}

pub open spec fn is_hex_digit(c: char) -> bool {
    ('0' <= c && c <= '9') || ('a' <= c && c <= 'f') || ('A' <= c && c <= 'F')
}

/// The value of a hex digit of either case.
pub open spec fn digit_value(c: char) -> int {
    if '0' <= c && c <= '9' {
        c as int - 48
    } else if 'a' <= c && c <= 'f' {
        c as int - 87
    } else {
        c as int - 55
    }
}

/// Even-length text made of hex digits alone.
pub open spec fn is_hex_text(s: Seq<char>) -> bool {
    s.len() % 2 == 0 && forall|i: int| 0 <= i < s.len() ==> is_hex_digit(#[trigger] s[i])
}

/// `s` spells the bytes `b`, two digits per byte.
pub open spec fn hex_decodes(s: Seq<char>, b: Seq<u8>) -> bool {
    &&& s.len() == 2 * b.len()
    &&& forall|i: int|
        0 <= i < b.len() ==> #[trigger] b[i] as int == 16 * digit_value(s[2 * i]) + digit_value(
            s[2 * i + 1],
        )
}

/// Relies on hex::encode: lowercase digits, two for each byte, high nibble first.
#[verifier::external_body]
pub(crate) fn hex_encode(b: &[u8]) -> (r: String)
    ensures
        r@ == hex_chars(b@),
{
    hex::encode(b)
}

/// Relies on hex::decode: accepts even-length text of hex digits of either case and
/// returns the bytes it spells; refuses anything else.
#[verifier::external_body]
pub(crate) fn hex_decode(s: &str) -> (r: Option<Vec<u8>>)
    ensures
        r.is_some() == is_hex_text(s@),
        r matches Some(v) ==> hex_decodes(s@, v@),
{
    hex::decode(s).ok()
}

proof fn lemma_digit(n: int)
    requires
        0 <= n < 16,
    ensures
        is_hex_digit(digit_char(n)),
        digit_value(digit_char(n)) == n,
{
}

/// Hex text made by encoding is accepted by decoding, which gives back exactly the
/// bytes that were encoded.
pub proof fn lemma_hex_round_trip(b: Seq<u8>, d: Seq<u8>)
    ensures
        is_hex_text(hex_chars(b)),
        hex_decodes(hex_chars(b), b),
        hex_decodes(hex_chars(b), d) ==> d == b,
{
    let s = hex_chars(b);
    assert forall|i: int| 0 <= i < s.len() implies is_hex_digit(#[trigger] s[i]) by {
        if i % 2 == 0 {
            lemma_digit(b[i / 2] as int / 16);
        } else {
            lemma_digit(b[i / 2] as int % 16);
        }
    }
    assert(s.len() % 2 == 0);
    assert forall|i: int| 0 <= i < b.len() implies #[trigger] b[i] as int == 16 * digit_value(
        s[2 * i],
    ) + digit_value(s[2 * i + 1]) by {
        assert((2 * i) / 2 == i && (2 * i) % 2 == 0);
        assert((2 * i + 1) / 2 == i && (2 * i + 1) % 2 == 1);
        lemma_digit(b[i] as int / 16);
        lemma_digit(b[i] as int % 16);
    }
    if hex_decodes(s, d) {
        assert forall|i: int| 0 <= i < d.len() implies #[trigger] d[i] == b[i] by {
            assert(d[i] as int == 16 * digit_value(s[2 * i]) + digit_value(s[2 * i + 1]));
            assert(b[i] as int == 16 * digit_value(s[2 * i]) + digit_value(s[2 * i + 1]));
        }
        assert(d =~= b);
    }
}

} // verus!
