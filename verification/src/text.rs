//! Verified text utilities: string equality, substring search, decimal
//! parsing and formatting, and case conversion.
//!
//! Case conversion goes through `str::to_lowercase` / `char::to_uppercase`;
//! their results are named by uninterpreted spec functions, and everything
//! that consumes them is verified against those names.

use vstd::prelude::*;

verus! {

/// True when `needle` occurs as a contiguous run inside `hay`.
pub open spec fn contains_seq(hay: Seq<char>, needle: Seq<char>) -> bool {
    exists|i: int|
        0 <= i && i + needle.len() <= hay.len() && #[trigger] hay.subrange(i, i + needle.len())
            == needle
}

/// Character-for-character equality of two string slices.
pub fn str_eq(a: &str, b: &str) -> (r: bool)
    ensures
        r == (a@ == b@),
{
    let a_len = a.unicode_len();
    let b_len = b.unicode_len();
    if a_len != b_len {
        return false;
    }
    let mut i: usize = 0;
    while i < a_len
        invariant
            a_len == a@.len(),
            b_len == b@.len(),
            a_len == b_len,
            i <= a_len,
            forall|j: int| 0 <= j < i ==> a@[j] == b@[j],
        decreases a_len - i,
    {
        if a.get_char(i) != b.get_char(i) {
            return false;
        }
        i += 1;
    }
    proof {
        assert(a@ =~= b@);
    }
    true
}

/// Substring search: does `needle` occur anywhere inside `hay`?
pub fn str_contains(hay: &str, needle: &str) -> (r: bool)
    ensures
        r == contains_seq(hay@, needle@),
{
    let h_len = hay.unicode_len();
    let n_len = needle.unicode_len();
    if n_len > h_len {
        return false;
    }
    if n_len == 0 {
        proof {
            assert(hay@.subrange(0, 0 + needle@.len() as int) =~= needle@);
        }
        return true;
    }
    let mut i: usize = 0;
    while i <= h_len - n_len
        invariant
            h_len == hay@.len(),
            n_len == needle@.len(),
            0 < n_len <= h_len,
            i <= h_len - n_len + 1,
            forall|k: int|
                0 <= k < i ==> #[trigger] hay@.subrange(k, k + needle@.len() as int) != needle@,
        decreases h_len - i,
    {
        let mut ok = true;
        let mut j: usize = 0;
        while ok && j < n_len
            invariant
                h_len == hay@.len(),
                n_len == needle@.len(),
                i + n_len <= h_len,
                j <= n_len,
                ok ==> forall|m: int| 0 <= m < j ==> hay@[i + m] == needle@[m],
                !ok ==> hay@.subrange(i as int, i + n_len as int) != needle@,
            decreases n_len - j + if ok { 1int } else { 0int },
        {
            if hay.get_char(i + j) != needle.get_char(j) {
                proof {
                    assert(hay@.subrange(i as int, i + n_len as int)[j as int] == hay@[i + j]);
                }
                ok = false;
            } else {
                j += 1;
            }
        }
        if ok {
            proof {
                assert(hay@.subrange(i as int, i + n_len as int) =~= needle@);
            }
            return true;
        }
        i += 1;
    }
    proof {
        assert forall|k: int| !(0 <= k && k + needle@.len() <= hay@.len()
            && #[trigger] hay@.subrange(k, k + needle@.len() as int) == needle@) by {
            if 0 <= k && k + needle@.len() <= hay@.len() {
                assert(k < i);
            }
        }
    }
    false
}

/// A decimal digit.
pub open spec fn is_digit(c: char) -> bool {
    '0' <= c && c <= '9'
}

/// The numeric value of one decimal digit.
pub open spec fn digit_val(c: char) -> int {
    c as int - '0' as int
}

/// Every character of `s` is a decimal digit.
pub open spec fn all_digits(s: Seq<char>) -> bool {
    forall|i: int| 0 <= i < s.len() ==> is_digit(#[trigger] s[i])
}

/// The value of `s` read as a decimal numeral.
pub open spec fn dec_value(s: Seq<char>) -> int
    decreases s.len(),
{
    if s.len() == 0 {
        0
    } else {
        dec_value(s.drop_last()) * 10 + digit_val(s.last())
    }
}

/// A decimal numeral is non-negative.
proof fn lemma_dec_value_nonneg(s: Seq<char>)
    requires
        all_digits(s),
    ensures
        dec_value(s) >= 0,
    decreases s.len(),
{
    if s.len() > 0 {
        assert(all_digits(s.drop_last())) by {
            assert(forall|i: int| 0 <= i < s.len() - 1 ==> is_digit(#[trigger] s[i]));
        }
        lemma_dec_value_nonneg(s.drop_last());
    }
}

/// Extending a numeral on the right never decreases its value.
proof fn lemma_dec_value_prefix_le(s: Seq<char>, n: int)
    requires
        all_digits(s),
        0 <= n <= s.len(),
    ensures
        dec_value(s.take(n)) <= dec_value(s),
    decreases s.len() - n,
{
    if n < s.len() {
        lemma_dec_value_prefix_le(s, n + 1);
        let t = s.take(n + 1);
        assert(t.drop_last() =~= s.take(n));
        assert(all_digits(t.drop_last()));
        lemma_dec_value_nonneg(t.drop_last());
        assert(dec_value(t) == dec_value(s.take(n)) * 10 + digit_val(t.last()));
        assert(dec_value(s.take(n)) <= dec_value(t)) by {
            lemma_dec_value_nonneg(s.take(n));
        }
    } else {
        assert(s.take(n) =~= s);
    }
}

/// The `u16` a string of decimal digits denotes: defined exactly when the
/// string is non-empty, all digits, and the value fits.
pub open spec fn parsed_u16(s: Seq<char>) -> Option<u16> {
    if s.len() > 0 && all_digits(s) && dec_value(s) <= u16::MAX {
        Option::Some(dec_value(s) as u16)
    } else {
        Option::None
    }
}

/// Parse a string of decimal digits into a `u16`; mirrors how upstream
/// score strings are read.
pub fn parse_u16(s: &str) -> (r: Option<u16>)
    ensures
        r == parsed_u16(s@),
{
    let len = s.unicode_len();
    if len == 0 {
        return None;
    }
    let mut acc: u16 = 0;
    let mut i: usize = 0;
    while i < len
        invariant
            len == s@.len(),
            0 < len,
            i <= len,
            all_digits(s@.take(i as int)),
            acc == dec_value(s@.take(i as int)),
        decreases len - i,
    {
        let c = s.get_char(i);
        if c < '0' || c > '9' {
            proof {
                assert(!is_digit(s@[i as int]));
            }
            return None;
        }
        let d: u16 = (c as u32 - '0' as u32) as u16;
        proof {
            assert(s@.take(i + 1).drop_last() =~= s@.take(i as int));
            assert(s@.take(i + 1).last() == s@[i as int]);
        }
        let shifted = match acc.checked_mul(10) {
            Some(v) => v,
            None => {
                proof {
                    assert(dec_value(s@.take(i + 1)) > u16::MAX);
                    if all_digits(s@) {
                        lemma_dec_value_prefix_le(s@, i + 1);
                    }
                }
                return None;
            },
        };
        acc = match shifted.checked_add(d) {
            Some(v) => v,
            None => {
                proof {
                    assert(dec_value(s@.take(i + 1)) > u16::MAX);
                    if all_digits(s@) {
                        lemma_dec_value_prefix_le(s@, i + 1);
                    }
                }
                return None;
            },
        };
        i += 1;
    }
    proof {
        assert(s@.take(len as int) =~= s@);
    }
    Some(acc)
}

/// The character for one decimal digit value.
pub open spec fn digit_char(d: int) -> char {
    ((d + 48) as u8) as char
}

/// The decimal numeral of `n`, most significant digit first.
pub open spec fn dec_str(n: nat) -> Seq<char>
    decreases n,
{
    if n < 10 {
        seq![digit_char(n as int)]
    } else {
        dec_str(n / 10) + seq![digit_char((n % 10) as int)]
    }
}

/// The one-character text of a digit value.
fn digit_str(d: u64) -> (r: &'static str)
    requires
        d < 10,
    ensures
        r@ == seq![digit_char(d as int)],
{
    proof {
        reveal_strlit("0");
        reveal_strlit("1");
        reveal_strlit("2");
        reveal_strlit("3");
        reveal_strlit("4");
        reveal_strlit("5");
        reveal_strlit("6");
        reveal_strlit("7");
        reveal_strlit("8");
        reveal_strlit("9");
    }
    let r = if d == 0 {
        "0"
    } else if d == 1 {
        "1"
    } else if d == 2 {
        "2"
    } else if d == 3 {
        "3"
    } else if d == 4 {
        "4"
    } else if d == 5 {
        "5"
    } else if d == 6 {
        "6"
    } else if d == 7 {
        "7"
    } else if d == 8 {
        "8"
    } else {
        "9"
    };
    proof {
        assert(r@ =~= seq![digit_char(d as int)]);
    }
    r
}

/// Render a value as its decimal numeral.
pub fn u64_to_string(n: u64) -> (r: String)
    ensures
        r@ == dec_str(n as nat),
    decreases n,
{
    if n < 10 {
        digit_str(n).to_owned()
    } else {
        let head = u64_to_string(n / 10);
        head.concat(digit_str(n % 10))
    }
}

/// The decimal numeral of a signed value, with a leading minus sign when
/// negative.
pub open spec fn sint_str(n: int) -> Seq<char> {
    if n >= 0 {
        dec_str(n as nat)
    } else {
        seq!['-'] + dec_str((-n) as nat)
    }
}

/// Render a signed value as its decimal numeral, with a leading minus
/// sign when negative.
pub fn i64_to_string(n: i64) -> (r: String)
    ensures
        r@ == sint_str(n as int),
{
    if n >= 0 {
        u64_to_string(n as u64)
    } else {
        let mag: u64 = ((-(n + 1)) as u64) + 1;
        proof {
            reveal_strlit("-");
            assert(("-")@ =~= seq!['-']);
        }
        String::from_str("-").concat(u64_to_string(mag).as_str())
    }
}

/// An ASCII whitespace character.
pub open spec fn is_space(c: char) -> bool {
    c == ' ' || c == '\t' || c == '\n' || c == '\r'
}

/// First index at or after `from` holding a non-whitespace character.
pub open spec fn first_non_space(s: Seq<char>, from: int) -> Option<int>
    decreases s.len() - from when 0 <= from <= s.len()
{
    if from >= s.len() {
        Option::None
    } else if !is_space(s[from]) {
        Option::Some(from)
    } else {
        first_non_space(s, from + 1)
    }
}

/// Last index below `upto` holding a non-whitespace character.
pub open spec fn last_non_space(s: Seq<char>, upto: int) -> Option<int>
    decreases upto when 0 <= upto <= s.len()
{
    if upto <= 0 {
        Option::None
    } else if !is_space(s[upto - 1]) {
        Option::Some(upto - 1)
    } else {
        last_non_space(s, upto - 1)
    }
}

/// The text without its leading and trailing whitespace.
pub open spec fn trimmed(s: Seq<char>) -> Seq<char> {
    match first_non_space(s, 0) {
        Option::None => Seq::<char>::empty(),
        Option::Some(a) => match last_non_space(s, s.len() as int) {
            Option::Some(b) => s.subrange(a, b + 1),
            Option::None => Seq::<char>::empty(),
        },
    }
}

/// Test one character for ASCII whitespace.
pub fn is_space_char(c: char) -> (r: bool)
    ensures
        r == is_space(c),
{
    c == ' ' || c == '\t' || c == '\n' || c == '\r'
}

/// When nothing below `upto` is non-whitespace, everything there is
/// whitespace.
proof fn lemma_last_non_space_none(s: Seq<char>, upto: int)
    requires
        0 <= upto <= s.len(),
        last_non_space(s, upto) is None,
    ensures
        forall|k: int| 0 <= k < upto ==> is_space(#[trigger] s[k]),
    decreases upto,
{
    if upto > 0 {
        lemma_last_non_space_none(s, upto - 1);
    }
}

/// Everything before the first non-whitespace character is whitespace.
proof fn lemma_first_non_space_prefix(s: Seq<char>, from: int, a: int)
    requires
        0 <= from <= s.len(),
        first_non_space(s, from) == Some(a),
    ensures
        from <= a < s.len(),
        forall|k: int| from <= k < a ==> is_space(#[trigger] s[k]),
    decreases s.len() - from,
{
    if from < s.len() && is_space(s[from]) {
        lemma_first_non_space_prefix(s, from + 1, a);
    }
}

/// Strip leading and trailing whitespace.
pub fn trim_spaces(s: &str) -> (r: String)
    ensures
        r@ == trimmed(s@),
{
    let len = s.unicode_len();
    let mut a: usize = 0;
    while a < len && is_space_char(s.get_char(a))
        invariant
            len == s@.len(),
            a <= len,
            first_non_space(s@, 0) == first_non_space(s@, a as int),
        decreases len - a,
    {
        a += 1;
    }
    if a == len {
        return String::new();
    }
    let mut b: usize = len;
    while b > 0 && is_space_char(s.get_char(b - 1))
        invariant
            len == s@.len(),
            b <= len,
            last_non_space(s@, len as int) == last_non_space(s@, b as int),
        decreases b,
    {
        b -= 1;
    }
    proof {
        if b == 0 {
            lemma_last_non_space_none(s@, len as int);
        }
        lemma_first_non_space_prefix(s@, 0, a as int);
        if b <= a {
            assert(is_space(s@[b - 1]));
        }
    }
    s.substring_char(a, b).to_owned()
}

/// What `str::to_lowercase` returns for a given character sequence.
pub uninterp spec fn lower_str(s: Seq<char>) -> Seq<char>;

/// Relies on `str::to_lowercase`: the result depends on the characters
/// alone, and an empty string stays empty.
#[verifier::external_body]
pub fn to_lowercase(s: &str) -> (r: String)
    ensures
        r@ == lower_str(s@),
        s@.len() == 0 ==> r@.len() == 0,
{
    s.to_lowercase()
}

/// What `char::to_uppercase` yields for a given character.
pub uninterp spec fn upper_char_str(c: char) -> Seq<char>;

/// Relies on `char::to_uppercase`: the result depends on the character alone.
#[verifier::external_body]
pub fn char_to_uppercase(c: char) -> (r: String)
    ensures
        r@ == upper_char_str(c),
{
    c.to_uppercase().collect::<String>()
}

/// Title case as the normalizer uses it: first character uppercased, the
/// rest lowercased.
pub open spec fn title_cased(s: Seq<char>) -> Seq<char> {
    if s.len() == 0 {
        Seq::<char>::empty()
    } else {
        upper_char_str(s[0]) + lower_str(s.skip(1))
    }
}

/// Normalize a free-text label to title case ("SOUTH" -> "South").
pub fn to_title_case(s: &str) -> (r: String)
    ensures
        r@ == title_cased(s@),
{
    let len = s.unicode_len();
    if len == 0 {
        return String::new();
    }
    let first = s.get_char(0);
    let rest = s.substring_char(1, len);
    let lowered_rest = to_lowercase(rest);
    let head = char_to_uppercase(first);
    head.concat(lowered_rest.as_str())
}

/// Every space replaced by a dash; other characters unchanged.
pub open spec fn dashed(s: Seq<char>) -> Seq<char> {
    s.map_values(|c: char| if c == ' ' { '-' } else { c })
}

/// Relies on `str::replace` with a single-character pattern and a
/// single-character replacement: each matching character is replaced in
/// place.
#[verifier::external_body]
pub fn replace_spaces_with_dashes(s: &str) -> (r: String)
    ensures
        r@ == dashed(s@),
{
    s.replace(' ', "-")
}

} // verus!
