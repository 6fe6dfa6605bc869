//! Free-text safety checks: trimming, length and control-character bounds, and a
//! denylist of injection-style substrings, applied to the lowercased text.
use vstd::prelude::*;

verus! {

use vstd::string::StrSliceExecFns;

/// The Unicode `White_Space` code points, the characters that `str::trim` removes.
pub open spec fn is_space(c: char) -> bool {
    ||| c == '\u{9}'
    ||| c == '\u{a}'
    ||| c == '\u{b}'
    ||| c == '\u{c}'
    ||| c == '\u{d}'
    ||| c == ' '
    ||| c == '\u{85}'
    ||| c == '\u{a0}'
    ||| c == '\u{1680}'
    ||| ('\u{2000}' <= c && c <= '\u{200a}')
    ||| c == '\u{2028}'
    ||| c == '\u{2029}'
    ||| c == '\u{202f}'
    ||| c == '\u{205f}'
    ||| c == '\u{3000}'
}

pub fn is_space_char(c: char) -> (r: bool)
    ensures
        r == is_space(c),
{
    let u = c as u32;
    u == 0x09 || u == 0x0A || u == 0x0B || u == 0x0C || u == 0x0D || u == 0x20 || u == 0x85
        || u == 0xA0 || u == 0x1680 || (0x2000 <= u && u <= 0x200A) || u == 0x2028 || u == 0x2029
        || u == 0x202F || u == 0x205F || u == 0x3000
}

/// The Unicode control characters: U+0000 through U+001F and U+007F through U+009F.
pub open spec fn is_control(c: char) -> bool {
    c < '\u{20}' || ('\u{7f}' <= c && c <= '\u{9f}')
}

/// A control character other than newline, carriage return and tab makes text unsafe.
pub open spec fn is_bad_control(c: char) -> bool {
    is_control(c) && c != '\n' && c != '\r' && c != '\t'
}

pub fn is_bad_control_char(c: char) -> (r: bool)
    ensures
        r == is_bad_control(c),
{
    let u = c as u32;
    (u < 0x20 || (0x7F <= u && u <= 0x9F)) && c != '\n' && c != '\r' && c != '\t'
}

/// The text with leading and trailing whitespace removed.
pub open spec fn trim_of(s: Seq<char>) -> Seq<char>
    decreases s.len(),
{
    if s.len() == 0 {
        s
    } else if is_space(s[0]) {
        trim_of(s.drop_first())
    } else if is_space(s[s.len() - 1]) {
        trim_of(s.drop_last())
    } else {
        s
    }
}

pub proof fn lemma_trim_all_space(s: Seq<char>)
    requires
        forall|i: int| 0 <= i < s.len() ==> is_space(s[i]),
    ensures
        trim_of(s).len() == 0,
    decreases s.len(),
{
    if s.len() > 0 {
        lemma_trim_all_space(s.drop_first());
    }
}

pub proof fn lemma_trim_subrange(s: Seq<char>, lo: int, hi: int)
    requires
        0 <= lo < hi <= s.len(),
        forall|i: int| 0 <= i < lo ==> is_space(s[i]),
        forall|i: int| hi <= i < s.len() ==> is_space(s[i]),
        !is_space(s[lo]),
        !is_space(s[hi - 1]),
    ensures
        trim_of(s) == s.subrange(lo, hi),
    decreases s.len(),
{
    if lo > 0 {
        lemma_trim_subrange(s.drop_first(), lo - 1, hi - 1);
        assert(s.subrange(lo, hi) =~= s.drop_first().subrange(lo - 1, hi - 1));
    } else if hi < s.len() {
        lemma_trim_subrange(s.drop_last(), lo, hi);
        assert(s.subrange(lo, hi) =~= s.drop_last().subrange(lo, hi));
    } else {
        assert(trim_of(s) == s);
        assert(s.subrange(lo, hi) =~= s);
    }
}

/// If no character is whitespace, trimming changes nothing.
pub proof fn lemma_trim_no_space(s: Seq<char>)
    requires
        forall|i: int| 0 <= i < s.len() ==> !is_space(s[i]),
    ensures
        trim_of(s) == s,
{
    if s.len() > 0 {
        lemma_trim_subrange(s, 0, s.len() as int);
        assert(s.subrange(0, s.len() as int) =~= s);
    } else {
        assert(trim_of(s) == s);
    }
}

/// `str::trim`, computed over the characters.
pub fn trim_str<'a>(s: &'a str) -> (t: &'a str)
    ensures
        t@ == trim_of(s@),
{
    let n = s.unicode_len();
    let mut lo: usize = 0;
    while lo < n && is_space_char(s.get_char(lo))
        invariant
            n == s@.len(),
            lo <= n,
            forall|i: int| 0 <= i < lo ==> is_space(s@[i]),
        decreases n - lo,
    {
        lo = lo + 1;
    }
    if lo == n {
        proof {
            lemma_trim_all_space(s@);
        }
        let t = s.substring_char(0, 0);
        proof {
            assert(t@ =~= trim_of(s@));
        }
        return t;
    }
    let mut hi: usize = n;
    while hi > lo + 1 && is_space_char(s.get_char(hi - 1))
        invariant
            n == s@.len(),
            lo < hi <= n,
            !is_space(s@[lo as int]),
            forall|i: int| hi <= i < n ==> is_space(s@[i]),
        decreases hi,
    {
        hi = hi - 1;
    }
    proof {
        lemma_trim_subrange(s@, lo as int, hi as int);
    }
    s.substring_char(lo, hi)
}

/// The characters of a string, one by one.
pub fn chars_of(s: &str) -> (r: Vec<char>)
    ensures
        r@ == s@,
{
    let n = s.unicode_len();
    let mut v: Vec<char> = Vec::new();
    let mut i: usize = 0;
    while i < n
        invariant
            n == s@.len(),
            i <= n,
            v@ =~= s@.take(i as int),
        decreases n - i,
    {
        v.push(s.get_char(i));
        i = i + 1;
    }
    proof {
        assert(v@ =~= s@);
    }
    v
}

/// `needle` occurs as a contiguous run inside `hay`.
pub open spec fn has_sub(hay: Seq<char>, needle: Seq<char>) -> bool {
    exists|i: int|
        0 <= i && i + needle.len() <= hay.len() && #[trigger] hay.subrange(i, i + needle.len())
            == needle
}

fn matches_at(h: &Vec<char>, n: &Vec<char>, i: usize) -> (r: bool)
    requires
        i + n@.len() <= h@.len(),
    ensures
        r == (h@.subrange(i as int, i as int + n@.len() as int) == n@),
{
    let hl = h.len();
    let nl = n.len();
    let mut k: usize = 0;
    while k < nl
        invariant
            hl == h@.len(),
            nl == n@.len(),
            i + nl <= h@.len(),
            k <= nl,
            forall|m: int| 0 <= m < k ==> h@[i + m] == n@[m],
        decreases nl - k,
    {
        if h[i + k] != n[k] {
            proof {
                assert(h@.subrange(i as int, i as int + n@.len() as int)[k as int] == h@[i + k]);
            }
            return false;
        }
        k = k + 1;
    }
    proof {
        assert(h@.subrange(i as int, i as int + n@.len() as int) =~= n@);
    }
    true
}

fn contains_seq(h: &Vec<char>, n: &Vec<char>) -> (r: bool)
    ensures
        r == has_sub(h@, n@),
{
    let hl = h.len();
    let nl = n.len();
    if nl > hl {
        return false;
    }
    if nl == 0 {
        proof {
            assert(h@.subrange(0, 0 + n@.len() as int) =~= n@);
        }
        return true;
    }
    let mut i: usize = 0;
    while i <= hl - nl
        invariant
            hl == h@.len(),
            nl == n@.len(),
            1 <= nl <= hl,
            i <= hl - nl + 1,
            forall|j: int|
                0 <= j < i ==> #[trigger] h@.subrange(j, j + n@.len()) != n@,
        decreases hl - nl - i + 1,
    {
        if matches_at(h, n, i) {
            return true;
        }
        i = i + 1;
    }
    false
}

/// `needle` occurs inside `hay`.
pub fn contains_str(h: &Vec<char>, pat: &str) -> (r: bool)
    ensures
        r == has_sub(h@, pat@),
{
    let p = chars_of(pat);
    contains_seq(h, &p)
}

/// What `str::to_lowercase` does to a character below 0x80.
pub open spec fn ascii_lower(c: char) -> char {
    if 'A' <= c && c <= 'Z' {
        (((c as u32) + 32) as u8) as char
    } else {
        c
    }
}

/// What `str::to_lowercase` returns on text that is not all ASCII.
pub uninterp spec fn lower_of(s: Seq<char>) -> Seq<char>;

/// The lowercased text: pointwise ASCII lowercasing on ASCII text, and the
/// Unicode lowercasing of the standard library otherwise.
pub open spec fn lower_spec(s: Seq<char>) -> Seq<char> {
    if vstd::utf8::is_ascii_chars(s) {
        s.map_values(|c: char| ascii_lower(c))
    } else {
        lower_of(s)
    }
}

/// Relies on `str::to_lowercase`: the result is a function of the characters alone,
/// and characters below 0x80 are mapped to their ASCII lowercase form, one for one.
#[verifier::external_body]
pub(crate) fn lowercase(s: &str) -> (r: String)
    ensures
        r@ == lower_spec(s@),
        !vstd::utf8::is_ascii_chars(s@) ==> r@ == lower_of(s@),
{
    s.to_lowercase()
}

/// The denylist of injection-style substrings, matched against lowercased text.
pub open spec fn pattern_list() -> Seq<Seq<char>> {
    seq![
        "drop table"@,
        "delete from"@,
        "insert into"@,
        "update set"@,
        "union select"@,
        "' or '"@,
        "\" or \""@,
        "; --"@,
        "/*"@,
        "*/"@,
        "<script"@,
        "</script"@,
        "javascript:"@,
        "data:"@,
        "vbscript:"@,
        "onload="@,
        "onerror="@,
        "onclick="@,
        "../"@,
        "..\\"@,
    ]
}

/// Some denylisted substring occurs in the text.
pub open spec fn has_any_pattern(l: Seq<char>) -> bool {
    exists|k: int| 0 <= k < pattern_list().len() && has_sub(l, pattern_list()[k])
}

fn has_any_pattern_exec(l: &Vec<char>) -> (r: bool)
    ensures
        r == has_any_pattern(l@),
{
    if contains_str(l, "drop table") {
        proof { assert(has_sub(l@, pattern_list()[0])); }
        return true;
    }
    if contains_str(l, "delete from") {
        proof { assert(has_sub(l@, pattern_list()[1])); }
        return true;
    }
    if contains_str(l, "insert into") {
        proof { assert(has_sub(l@, pattern_list()[2])); }
        return true;
    }
    if contains_str(l, "update set") {
        proof { assert(has_sub(l@, pattern_list()[3])); }
        return true;
    }
    if contains_str(l, "union select") {
        proof { assert(has_sub(l@, pattern_list()[4])); }
        return true;
    }
    if contains_str(l, "' or '") {
        proof { assert(has_sub(l@, pattern_list()[5])); }
        return true;
    }
    if contains_str(l, "\" or \"") {
        proof { assert(has_sub(l@, pattern_list()[6])); }
        return true;
    }
    if contains_str(l, "; --") {
        proof { assert(has_sub(l@, pattern_list()[7])); }
        return true;
    }
    if contains_str(l, "/*") {
        proof { assert(has_sub(l@, pattern_list()[8])); }
        return true;
    }
    if contains_str(l, "*/") {
        proof { assert(has_sub(l@, pattern_list()[9])); }
        return true;
    }
    if contains_str(l, "<script") {
        proof { assert(has_sub(l@, pattern_list()[10])); }
        return true;
    }
    if contains_str(l, "</script") {
        proof { assert(has_sub(l@, pattern_list()[11])); }
        return true;
    }
    if contains_str(l, "javascript:") {
        proof { assert(has_sub(l@, pattern_list()[12])); }
        return true;
    }
    if contains_str(l, "data:") {
        proof { assert(has_sub(l@, pattern_list()[13])); }
        return true;
    }
    if contains_str(l, "vbscript:") {
        proof { assert(has_sub(l@, pattern_list()[14])); }
        return true;
    }
    if contains_str(l, "onload=") {
        proof { assert(has_sub(l@, pattern_list()[15])); }
        return true;
    }
    if contains_str(l, "onerror=") {
        proof { assert(has_sub(l@, pattern_list()[16])); }
        return true;
    }
    if contains_str(l, "onclick=") {
        proof { assert(has_sub(l@, pattern_list()[17])); }
        return true;
    }
    if contains_str(l, "../") {
        proof { assert(has_sub(l@, pattern_list()[18])); }
        return true;
    }
    if contains_str(l, "..\\") {
        proof { assert(has_sub(l@, pattern_list()[19])); }
        return true;
    }
    proof {
        assert forall|k: int| 0 <= k < pattern_list().len() implies !has_sub(
            l@,
            pattern_list()[k],
        ) by {
            if k == 0 {
            } else if k == 1 {
            } else if k == 2 {
            } else if k == 3 {
            } else if k == 4 {
            } else if k == 5 {
            } else if k == 6 {
            } else if k == 7 {
            } else if k == 8 {
            } else if k == 9 {
            } else if k == 10 {
            } else if k == 11 {
            } else if k == 12 {
            } else if k == 13 {
            } else if k == 14 {
            } else if k == 15 {
            } else if k == 16 {
            } else if k == 17 {
            } else if k == 18 {
            } else {
                assert(k == 19);
            }
        }
    }
    false
}

/// Free text is suspicious when, after trimming, it is empty, longer than 1000
/// bytes, holds a control character other than newline, carriage return or tab,
/// or its lowercased form holds a denylisted substring.
pub open spec fn suspicious_spec(s: Seq<char>) -> bool {
    let t = trim_of(s);
    ||| t.len() == 0
    ||| vstd::utf8::encode_utf8(t).len() > 1000
    ||| exists|i: int| 0 <= i < t.len() && is_bad_control(t[i])
    ||| has_any_pattern(lower_spec(t))
}

/// Classify free text as unsafe to accept.
pub fn is_suspicious_text(s: &str) -> (r: bool)
    ensures
        r == suspicious_spec(s@),
{
    let t = trim_str(s);
    if t.is_empty() {
        return true;
    }
    let bytes = t.as_bytes_vec();
    if bytes.len() > 1000 {
        return true;
    }
    let tc = chars_of(t);
    let mut i: usize = 0;
    while i < tc.len()
        invariant
            t@ == trim_of(s@),
            tc@ == t@,
            i <= tc@.len(),
            forall|j: int| 0 <= j < i ==> !is_bad_control(tc@[j]),
        decreases tc@.len() - i,
    {
        if is_bad_control_char(tc[i]) {
            proof {
                assert(is_bad_control(trim_of(s@)[i as int]));
            }
            return true;
        }
        i = i + 1;
    }
    let lower = lowercase(t);
    let lc = chars_of(lower.as_str());
    has_any_pattern_exec(&lc)
}

} // verus!
