//! Base58 and base64 text: charsets, trusted codec wrappers, format validators,
//! and lemmas showing that encoded text never trips the free-text filter.
use vstd::prelude::*;

use base64::Engine;

verus! {

use crate::text::{
    ascii_lower, has_any_pattern, has_sub, is_bad_control, is_space, lower_spec, pattern_list,
    suspicious_spec, trim_of, lemma_trim_no_space,
};
use vstd::utf8::is_ascii_chars;

/// A character of the base58 alphabet (Bitcoin): the digits and letters
/// without `0`, `O`, `I` and `l`.
pub open spec fn is_b58_char(c: char) -> bool {
    ||| ('1' <= c && c <= '9')
    ||| ('A' <= c && c <= 'H')
    ||| ('J' <= c && c <= 'N')
    ||| ('P' <= c && c <= 'Z')
    ||| ('a' <= c && c <= 'k')
    ||| ('m' <= c && c <= 'z')
}

pub open spec fn b58_chars_ok(s: Seq<char>) -> bool {
    forall|i: int| 0 <= i < s.len() ==> is_b58_char(#[trigger] s[i])
}

/// What bs58 decoding returns on a string of base58 characters.
pub uninterp spec fn b58_bytes_of(s: Seq<char>) -> Seq<u8>;

/// What bs58 encoding returns on a sequence of bytes.
pub uninterp spec fn b58_str_of(b: Seq<u8>) -> Seq<char>;

/// The facts base58 encoding guarantees of its result: it is the base58 form of
/// the bytes, all its characters are in the alphabet, decoding it gives the bytes
/// back, it is at least as long as the bytes, and 32 bytes stay within 44
/// characters.
pub open spec fn b58_encoding_of(s: Seq<char>, b: Seq<u8>) -> bool {
    &&& s == b58_str_of(b)
    &&& b58_chars_ok(s)
    &&& b58_bytes_of(s) == b
    &&& b.len() <= s.len()
    &&& b.len() == 32 ==> s.len() <= 44
}

/// Relies on `bs58::decode(..).into_vec()` with the Bitcoin alphabet: it succeeds
/// exactly when every character of the input is in the alphabet, and then returns
/// the decoded bytes. Every such string is the canonical encoding of its own
/// decoding — the digits after the leading ones start with a non-zero digit — so
/// encoding the result gives the input back.
#[verifier::external_body]
pub(crate) fn b58_decode(s: &str) -> (r: Option<Vec<u8>>)
    ensures
        r is Some <==> b58_chars_ok(s@),
        r is Some ==> r->0@ == b58_bytes_of(s@),
        r is Some ==> s@ == b58_str_of(r->0@),
{
    bs58::decode(s).into_vec().ok()
}

/// Relies on `bs58::encode(..).into_string()` with the Bitcoin alphabet: the
/// canonical base58 form of the bytes, which `bs58::decode` maps back to them.
/// A base58 digit carries fewer than eight bits, so the text is at least as long
/// as the bytes; 32 bytes need at most 44 digits since 58^44 > 256^32.
#[verifier::external_body]
pub(crate) fn b58_encode(b: &[u8]) -> (r: String)
    ensures
        r@ == b58_str_of(b@),
        b58_encoding_of(r@, b@),
{
    bs58::encode(b).into_string()
}

/// A character base64 output can hold: the alphabet and the `=` padding.
pub open spec fn is_b64_char(c: char) -> bool {
    ||| ('A' <= c && c <= 'Z')
    ||| ('a' <= c && c <= 'z')
    ||| ('0' <= c && c <= '9')
    ||| c == '+'
    ||| c == '/'
    ||| c == '='
}

pub open spec fn b64_chars_ok(s: Seq<char>) -> bool {
    forall|i: int| 0 <= i < s.len() ==> is_b64_char(#[trigger] s[i])
}

/// What standard padded base64 decoding returns: the bytes, or nothing when the
/// text is not canonical base64.
pub uninterp spec fn b64_decode_of(s: Seq<char>) -> Option<Seq<u8>>;

/// What standard padded base64 encoding returns on a sequence of bytes.
pub uninterp spec fn b64_str_of(b: Seq<u8>) -> Seq<char>;

/// The symbol that precedes a `==` padding: the final byte's low two bits
/// followed by four zero bits, one of the alphabet entries at indices 0, 16,
/// 32 and 48.
pub open spec fn is_b64_double_pad_prefix(c: char) -> bool {
    c == 'A' || c == 'Q' || c == 'g' || c == 'w'
}

/// The facts base64 encoding guarantees of its result: it is the base64 form of
/// the bytes, four characters for every three bytes, all characters in the
/// alphabet or padding, decoding it gives the bytes back, `=` stands only in
/// the last two positions, and a final group of one byte ends in `==` after one
/// of the four double-pad prefix symbols.
pub open spec fn b64_encoding_of(s: Seq<char>, b: Seq<u8>) -> bool {
    &&& s == b64_str_of(b)
    &&& s.len() == 4 * ((b.len() + 2) / 3)
    &&& b64_chars_ok(s)
    &&& b64_decode_of(s) == Some(b)
    &&& forall|i: int| 0 <= i < s.len() - 2 ==> #[trigger] s[i] != '='
    &&& b.len() % 3 == 1 ==> s[s.len() - 1] == '=' && s[s.len() - 2] == '='
        && is_b64_double_pad_prefix(s[s.len() - 3])
}

/// Relies on `base64::engine::general_purpose::STANDARD.encode`: canonical padded
/// base64, four characters for every three bytes, which `decode` maps back. `=`
/// appears only as padding at the end; a trailing group of one byte is encoded
/// as `table[b >> 2]`, `table[(b << 4) & 0x3f]` — the latter one of `A`, `Q`,
/// `g`, `w` — and then `==`.
#[verifier::external_body]
pub(crate) fn b64_encode(b: &[u8]) -> (r: String)
    ensures
        r@ == b64_str_of(b@),
        b64_encoding_of(r@, b@),
{
    base64::engine::general_purpose::STANDARD.encode(b)
}

/// Relies on `base64::engine::general_purpose::STANDARD.decode`.
#[verifier::external_body]
pub(crate) fn b64_decode(s: &str) -> (r: Option<Vec<u8>>)
    ensures
        r is Some <==> b64_decode_of(s@) is Some,
        r is Some ==> Some(r->0@) == b64_decode_of(s@),
{
    base64::engine::general_purpose::STANDARD.decode(s).ok()
}

/// A well-formed base58 blob: non-empty after trimming, and decodable.
pub open spec fn valid_base58_spec(s: Seq<char>) -> bool {
    trim_of(s).len() != 0 && b58_chars_ok(s)
}

pub fn is_valid_base58(s: &str) -> (r: bool)
    ensures
        r == valid_base58_spec(s@),
{
    let t = crate::text::trim_str(s);
    if t.is_empty() {
        return false;
    }
    b58_decode(s).is_some()
}

/// A well-formed base64 blob: non-empty after trimming, and decodable.
pub open spec fn valid_base64_spec(s: Seq<char>) -> bool {
    trim_of(s).len() != 0 && b64_decode_of(s) is Some
}

pub fn is_valid_base64(s: &str) -> (r: bool)
    ensures
        r == valid_base64_spec(s@),
{
    let t = crate::text::trim_str(s);
    if t.is_empty() {
        return false;
    }
    b64_decode(s).is_some()
}

/// A lowercase letter or digit.
pub open spec fn is_alnum_lower(c: char) -> bool {
    ('0' <= c && c <= '9') || ('a' <= c && c <= 'z')
}

proof fn lemma_no_sub_without(l: Seq<char>, pat: Seq<char>, j: int, allowed: spec_fn(char) -> bool)
    requires
        0 <= j < pat.len(),
        forall|i: int| 0 <= i < l.len() ==> allowed(#[trigger] l[i]),
        !allowed(pat[j]),
    ensures
        !has_sub(l, pat),
{
    assert forall|i: int|
        !(0 <= i && i + pat.len() <= l.len() && #[trigger] l.subrange(i, i + pat.len())
            == pat) by {
        if 0 <= i && i + pat.len() <= l.len() && l.subrange(i, i + pat.len()) == pat {
            assert(l.subrange(i, i + pat.len())[j] == l[i + j]);
        }
    }
}

/// Text of lowercase letters and digits matches no denylisted pattern: every
/// pattern holds at least one other character.
pub proof fn lemma_alnum_has_no_pattern(l: Seq<char>)
    requires
        forall|i: int| 0 <= i < l.len() ==> is_alnum_lower(#[trigger] l[i]),
    ensures
        !has_any_pattern(l),
{
    reveal_strlit("drop table");
    reveal_strlit("delete from");
    reveal_strlit("insert into");
    reveal_strlit("update set");
    reveal_strlit("union select");
    reveal_strlit("' or '");
    reveal_strlit("\" or \"");
    reveal_strlit("; --");
    reveal_strlit("/*");
    reveal_strlit("*/");
    reveal_strlit("<script");
    reveal_strlit("</script");
    reveal_strlit("javascript:");
    reveal_strlit("data:");
    reveal_strlit("vbscript:");
    reveal_strlit("onload=");
    reveal_strlit("onerror=");
    reveal_strlit("onclick=");
    reveal_strlit("../");
    reveal_strlit("..\\");
    lemma_no_sub_without(l, "drop table"@, 4, |c: char| is_alnum_lower(c));
    lemma_no_sub_without(l, "delete from"@, 6, |c: char| is_alnum_lower(c));
    lemma_no_sub_without(l, "insert into"@, 6, |c: char| is_alnum_lower(c));
    lemma_no_sub_without(l, "update set"@, 6, |c: char| is_alnum_lower(c));
    lemma_no_sub_without(l, "union select"@, 5, |c: char| is_alnum_lower(c));
    lemma_no_sub_without(l, "' or '"@, 0, |c: char| is_alnum_lower(c));
    lemma_no_sub_without(l, "\" or \""@, 0, |c: char| is_alnum_lower(c));
    lemma_no_sub_without(l, "; --"@, 0, |c: char| is_alnum_lower(c));
    lemma_no_sub_without(l, "/*"@, 0, |c: char| is_alnum_lower(c));
    lemma_no_sub_without(l, "*/"@, 0, |c: char| is_alnum_lower(c));
    lemma_no_sub_without(l, "<script"@, 0, |c: char| is_alnum_lower(c));
    lemma_no_sub_without(l, "</script"@, 0, |c: char| is_alnum_lower(c));
    lemma_no_sub_without(l, "javascript:"@, 10, |c: char| is_alnum_lower(c));
    lemma_no_sub_without(l, "data:"@, 4, |c: char| is_alnum_lower(c));
    lemma_no_sub_without(l, "vbscript:"@, 8, |c: char| is_alnum_lower(c));
    lemma_no_sub_without(l, "onload="@, 6, |c: char| is_alnum_lower(c));
    lemma_no_sub_without(l, "onerror="@, 7, |c: char| is_alnum_lower(c));
    lemma_no_sub_without(l, "onclick="@, 7, |c: char| is_alnum_lower(c));
    lemma_no_sub_without(l, "../"@, 0, |c: char| is_alnum_lower(c));
    lemma_no_sub_without(l, "..\\"@, 0, |c: char| is_alnum_lower(c));
    assert forall|k: int| 0 <= k < pattern_list().len() implies !has_sub(
        l,
        pattern_list()[k],
    ) by {
        if k == 0 {
        } else if k == 1 {
        } else if k == 2 {
        } else if k == 3 {
        } else if k == 4 {
        } else if k == 5 {
        } else if k == 6 {
        } else if k == 7 {
        } else if k == 8 {
        } else if k == 9 {
        } else if k == 10 {
        } else if k == 11 {
        } else if k == 12 {
        } else if k == 13 {
        } else if k == 14 {
        } else if k == 15 {
        } else if k == 16 {
        } else if k == 17 {
        } else if k == 18 {
        } else {
            assert(k == 19);
        }
    }
}

/// Base58 text is ASCII, so its byte length is its character count.
pub proof fn lemma_b58_byte_len(s: Seq<char>)
    requires
        b58_chars_ok(s),
    ensures
        vstd::utf8::encode_utf8(s).len() == s.len(),
{
    assert(is_ascii_chars(s)) by {
        assert forall|i: int| 0 <= i < s.len() implies '\0' <= #[trigger] s[i] <= '\u{7f}' by {
            assert(is_b58_char(s[i]));
        }
    }
    vstd::utf8::is_ascii_chars_encode_utf8(s);
}

/// Base58 text of a sane length is never suspicious: it trims to itself, stays
/// within the byte bound, holds no control character, and its lowercase form is
/// letters and digits only.
pub proof fn lemma_b58_text_not_suspicious(s: Seq<char>)
    requires
        b58_chars_ok(s),
        0 < s.len() <= 1000,
    ensures
        !suspicious_spec(s),
{
    assert forall|i: int| 0 <= i < s.len() implies !is_space(#[trigger] s[i]) by {
        assert(is_b58_char(s[i]));
    }
    lemma_trim_no_space(s);
    assert(is_ascii_chars(s)) by {
        assert forall|i: int| 0 <= i < s.len() implies '\0' <= #[trigger] s[i] <= '\u{7f}' by {
            assert(is_b58_char(s[i]));
        }
    }
    vstd::utf8::is_ascii_chars_encode_utf8(s);
    assert forall|i: int| 0 <= i < s.len() implies !is_bad_control(#[trigger] s[i]) by {
        assert(is_b58_char(s[i]));
    }
    let l = lower_spec(s);
    assert(l == s.map_values(|c: char| ascii_lower(c)));
    assert forall|i: int| 0 <= i < l.len() implies is_alnum_lower(#[trigger] l[i]) by {
        assert(l[i] == ascii_lower(s[i]));
        assert(is_b58_char(s[i]));
    }
    lemma_alnum_has_no_pattern(l);
}

/// For base64 text of a sane length, the free-text filter comes down to the
/// pattern check on its lowercase form: it trims to itself, stays within the
/// byte bound and holds no control character.
pub proof fn lemma_b64_text_suspicion_is_patterns(s: Seq<char>)
    requires
        b64_chars_ok(s),
        0 < s.len() <= 1000,
    ensures
        suspicious_spec(s) == has_any_pattern(lower_spec(s)),
{
    assert forall|i: int| 0 <= i < s.len() implies !is_space(#[trigger] s[i]) by {
        assert(is_b64_char(s[i]));
    }
    lemma_trim_no_space(s);
    assert(is_ascii_chars(s)) by {
        assert forall|i: int| 0 <= i < s.len() implies '\0' <= #[trigger] s[i] <= '\u{7f}' by {
            assert(is_b64_char(s[i]));
        }
    }
    vstd::utf8::is_ascii_chars_encode_utf8(s);
    assert forall|i: int| 0 <= i < s.len() implies !is_bad_control(#[trigger] s[i]) by {
        assert(is_b64_char(s[i]));
    }
}

/// A lowercased base64 character: what `ascii_lower` makes of the alphabet and
/// its padding.
pub open spec fn is_b64_char_lower(c: char) -> bool {
    ('a' <= c && c <= 'z') || ('0' <= c && c <= '9') || c == '+' || c == '/' || c == '='
}

proof fn lemma_no_sub_tail_eq(l: Seq<char>, pat: Seq<char>, x: char)
    requires
        pat.len() >= 2,
        pat[pat.len() - 1] == '=',
        pat[pat.len() - 2] == x,
        x != '=',
        x != 'a' && x != 'q' && x != 'g' && x != 'w',
        l.len() >= 3,
        forall|i: int| 0 <= i < l.len() - 2 ==> #[trigger] l[i] != '=',
        l[l.len() - 2] == '=',
        l[l.len() - 3] == 'a' || l[l.len() - 3] == 'q' || l[l.len() - 3] == 'g' || l[l.len() - 3]
            == 'w',
    ensures
        !has_sub(l, pat),
{
    assert forall|i: int|
        !(0 <= i && i + pat.len() <= l.len() && #[trigger] l.subrange(i, i + pat.len())
            == pat) by {
        if 0 <= i && i + pat.len() <= l.len() && l.subrange(i, i + pat.len()) == pat {
            let e = i + pat.len() - 1;
            assert(l.subrange(i, i + pat.len())[pat.len() - 1] == l[e]);
            assert(l.subrange(i, i + pat.len())[pat.len() - 2] == l[e - 1]);
            assert(l[e] == '=');
            assert(e >= l.len() - 2);
            assert(l[e - 1] == x);
        }
    }
}

/// The base64 text of a 64-byte value is never suspicious: it trims to itself,
/// is 88 bytes, holds no control character, and no denylisted pattern fits its
/// lowercase form. The patterns that stay inside the lowered alphabet all end
/// in `=`, which padding confines to the last two positions — behind `==`, the
/// preceding symbol lowers to `a`, `q`, `g` or `w`, never the letter those
/// patterns need.
pub proof fn lemma_b64_sig_text_not_suspicious(s: Seq<char>, b: Seq<u8>)
    requires
        b64_encoding_of(s, b),
        b.len() == 64,
    ensures
        !suspicious_spec(s),
{
    lemma_b64_text_suspicion_is_patterns(s);
    assert(is_ascii_chars(s)) by {
        assert forall|i: int| 0 <= i < s.len() implies '\0' <= #[trigger] s[i] <= '\u{7f}' by {
            assert(is_b64_char(s[i]));
        }
    }
    let l = lower_spec(s);
    assert(l == s.map_values(|c: char| ascii_lower(c)));
    assert forall|i: int| 0 <= i < l.len() implies is_b64_char_lower(#[trigger] l[i]) by {
        assert(l[i] == ascii_lower(s[i]));
        assert(is_b64_char(s[i]));
    }
    assert(l.len() == 88);
    assert forall|i: int| 0 <= i < l.len() - 2 implies #[trigger] l[i] != '=' by {
        assert(l[i] == ascii_lower(s[i]));
        assert(s[i] != '=');
    }
    assert(l[86] == '=') by {
        assert(l[86] == ascii_lower(s[86]));
    }
    assert(l[85] == 'a' || l[85] == 'q' || l[85] == 'g' || l[85] == 'w') by {
        assert(l[85] == ascii_lower(s[85]));
        assert(is_b64_double_pad_prefix(s[85]));
    }
    reveal_strlit("drop table");
    reveal_strlit("delete from");
    reveal_strlit("insert into");
    reveal_strlit("update set");
    reveal_strlit("union select");
    reveal_strlit("' or '");
    reveal_strlit("\" or \"");
    reveal_strlit("; --");
    reveal_strlit("/*");
    reveal_strlit("*/");
    reveal_strlit("<script");
    reveal_strlit("</script");
    reveal_strlit("javascript:");
    reveal_strlit("data:");
    reveal_strlit("vbscript:");
    reveal_strlit("onload=");
    reveal_strlit("onerror=");
    reveal_strlit("onclick=");
    reveal_strlit("../");
    reveal_strlit("..\\");
    lemma_no_sub_without(l, "drop table"@, 4, |c: char| is_b64_char_lower(c));
    lemma_no_sub_without(l, "delete from"@, 6, |c: char| is_b64_char_lower(c));
    lemma_no_sub_without(l, "insert into"@, 6, |c: char| is_b64_char_lower(c));
    lemma_no_sub_without(l, "update set"@, 6, |c: char| is_b64_char_lower(c));
    lemma_no_sub_without(l, "union select"@, 5, |c: char| is_b64_char_lower(c));
    lemma_no_sub_without(l, "' or '"@, 0, |c: char| is_b64_char_lower(c));
    lemma_no_sub_without(l, "\" or \""@, 0, |c: char| is_b64_char_lower(c));
    lemma_no_sub_without(l, "; --"@, 0, |c: char| is_b64_char_lower(c));
    lemma_no_sub_without(l, "/*"@, 1, |c: char| is_b64_char_lower(c));
    lemma_no_sub_without(l, "*/"@, 0, |c: char| is_b64_char_lower(c));
    lemma_no_sub_without(l, "<script"@, 0, |c: char| is_b64_char_lower(c));
    lemma_no_sub_without(l, "</script"@, 0, |c: char| is_b64_char_lower(c));
    lemma_no_sub_without(l, "javascript:"@, 10, |c: char| is_b64_char_lower(c));
    lemma_no_sub_without(l, "data:"@, 4, |c: char| is_b64_char_lower(c));
    lemma_no_sub_without(l, "vbscript:"@, 8, |c: char| is_b64_char_lower(c));
    lemma_no_sub_tail_eq(l, "onload="@, 'd');
    lemma_no_sub_tail_eq(l, "onerror="@, 'r');
    lemma_no_sub_tail_eq(l, "onclick="@, 'k');
    lemma_no_sub_without(l, "../"@, 0, |c: char| is_b64_char_lower(c));
    lemma_no_sub_without(l, "..\\"@, 0, |c: char| is_b64_char_lower(c));
    assert forall|k: int| 0 <= k < pattern_list().len() implies !has_sub(
        l,
        pattern_list()[k],
    ) by {
        if k == 0 {
        } else if k == 1 {
        } else if k == 2 {
        } else if k == 3 {
        } else if k == 4 {
        } else if k == 5 {
        } else if k == 6 {
        } else if k == 7 {
        } else if k == 8 {
        } else if k == 9 {
        } else if k == 10 {
        } else if k == 11 {
        } else if k == 12 {
        } else if k == 13 {
        } else if k == 14 {
        } else if k == 15 {
        } else if k == 16 {
        } else if k == 17 {
        } else if k == 18 {
        } else {
            assert(k == 19);
        }
    }
}

} // verus!

