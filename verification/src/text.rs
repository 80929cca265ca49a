//! Text as the API reads and writes it: 32-bit numbers in decimal, white
//! space and words, and the letter case mappings of `str`.

use vstd::prelude::*;

verus! {

/// An ASCII decimal digit `'0'..='9'`.
pub open spec fn is_ascii_digit(c: char) -> bool {
    '0' <= c && c <= '9'
}

/// The value of a decimal digit character.
pub open spec fn digit_value(c: char) -> int {
    (c as int) - ('0' as int)
}

/// The character that writes the decimal digit `d` (for `0 <= d < 10`).
pub open spec fn digit_char(d: int) -> char {
    if d == 0 {
        '0'
    } else if d == 1 {
        '1'
    } else if d == 2 {
        '2'
    } else if d == 3 {
        '3'
    } else if d == 4 {
        '4'
    } else if d == 5 {
        '5'
    } else if d == 6 {
        '6'
    } else if d == 7 {
        '7'
    } else if d == 8 {
        '8'
    } else {
        '9'
    }
}

/// Every character of `s` is an ASCII decimal digit.
pub open spec fn all_digits(s: Seq<char>) -> bool {
    forall|i: int| 0 <= i < s.len() ==> #[trigger] is_ascii_digit(s[i])
}

/// The number that the digits `s` write in base ten (most significant first).
pub open spec fn decimal_value(s: Seq<char>) -> int
    decreases s.len(),
{
    if s.len() == 0 {
        0
    } else {
        decimal_value(s.drop_last()) * 10 + digit_value(s.last())
    }
}

/// The shortest decimal writing of `n`: no sign, no leading zero.
pub open spec fn decimal_digits(n: nat) -> Seq<char>
    decreases n,
{
    if n < 10 {
        seq![digit_char(n as int)]
    } else {
        decimal_digits(n / 10).push(digit_char((n % 10) as int))
    }
}

/// What `str::parse::<u32>` accepts: an optional `+`, then one or more
/// ASCII digits whose value fits in 32 bits. Anything else (a `-`, a
/// space, an empty string) is refused.
pub open spec fn spec_parse_u32(s: Seq<char>) -> Option<u32> {
    let digits = if s.len() > 0 && s[0] == '+' {
        s.drop_first()
    } else {
        s
    };
    if digits.len() > 0 && all_digits(digits) && decimal_value(digits) <= u32::MAX {
        Some(decimal_value(digits) as u32)
    } else {
        None
    }
}

/// The value of a string of digits is not negative.
proof fn lemma_decimal_value_nonneg(s: Seq<char>)
    requires
        all_digits(s),
    ensures
        decimal_value(s) >= 0,
    decreases s.len(),
{
    if s.len() > 0 {
        assert(all_digits(s.drop_last())) by {
            assert forall|i: int| 0 <= i < s.drop_last().len() implies #[trigger] is_ascii_digit(
                s.drop_last()[i],
            ) by {
                assert(is_ascii_digit(s[i]));
            }
        }
        lemma_decimal_value_nonneg(s.drop_last());
        assert(is_ascii_digit(s[s.len() - 1]));
    }
}

/// Appending digits never makes the value smaller.
proof fn lemma_decimal_prefix_le(s: Seq<char>, k: int)
    requires
        all_digits(s),
        0 <= k <= s.len(),
    ensures
        decimal_value(s.subrange(0, k)) <= decimal_value(s),
    decreases s.len(),
{
    if k == s.len() {
        assert(s.subrange(0, k) =~= s);
    } else {
        let t = s.drop_last();
        assert(all_digits(t)) by {
            assert forall|i: int| 0 <= i < t.len() implies #[trigger] is_ascii_digit(t[i]) by {
                assert(is_ascii_digit(s[i]));
            }
        }
        lemma_decimal_prefix_le(t, k);
        assert(t.subrange(0, k) =~= s.subrange(0, k));
        lemma_decimal_value_nonneg(t);
        assert(is_ascii_digit(s[s.len() - 1]));
    }
}

/// `digit_char` and `digit_value` undo each other on `0..10`.
proof fn lemma_digit_char(d: int)
    requires
        0 <= d < 10,
    ensures
        is_ascii_digit(digit_char(d)),
        digit_value(digit_char(d)) == d,
{
}

/// The decimal writing of `n` is made of digits and reads back as `n`.
proof fn lemma_decimal_digits_value(n: nat)
    ensures
        decimal_digits(n).len() > 0,
        all_digits(decimal_digits(n)),
        decimal_value(decimal_digits(n)) == n,
        is_ascii_digit(decimal_digits(n)[0]),
    decreases n,
{
    if n < 10 {
        lemma_digit_char(n as int);
        let s = decimal_digits(n);
        assert(s.drop_last() =~= Seq::<char>::empty());
        assert(decimal_value(s) == decimal_value(s.drop_last()) * 10 + digit_value(s.last()));
    } else {
        lemma_digit_char((n % 10) as int);
        lemma_decimal_digits_value(n / 10);
        let s = decimal_digits(n);
        assert(s.drop_last() =~= decimal_digits(n / 10));
        assert(s.last() == digit_char((n % 10) as int));
        assert(decimal_value(s) == decimal_value(s.drop_last()) * 10 + digit_value(s.last()));
        assert(n == (n / 10) * 10 + n % 10);
        assert forall|i: int| 0 <= i < s.len() implies #[trigger] is_ascii_digit(s[i]) by {
            if i < s.len() - 1 {
                assert(s[i] == decimal_digits(n / 10)[i]);
            }
        }
    }
}

/// Reading back the decimal writing of a 32-bit number gives that number.
pub proof fn lemma_parse_decimal_roundtrip(n: u32)
    ensures
        spec_parse_u32(decimal_digits(n as nat)) == Some(n),
{
    lemma_decimal_digits_value(n as nat);
}

/// The decimal writing of a number has no leading zero (only zero itself
/// is written `0`), so with the round trip above it is the one shortest
/// writing that reads back as the number.
pub proof fn lemma_decimal_digits_shortest(n: nat)
    ensures
        decimal_digits(n).len() > 0,
        n == 0 <==> decimal_digits(n) == seq!['0'],
        n > 0 ==> decimal_digits(n)[0] != '0',
    decreases n,
{
    if n >= 10 {
        lemma_decimal_digits_shortest(n / 10);
        assert(decimal_digits(n)[0] == decimal_digits(n / 10)[0]);
        assert(decimal_digits(n).len() > 1);
        assert(decimal_digits(n).len() != seq!['0'].len());
    } else if n == 0 {
        assert(decimal_digits(n) =~= seq!['0']);
    } else {
        assert(decimal_digits(n)[0] != seq!['0'][0]);
    }
}

/// A `+` in front changes nothing; any other character that is not a
/// digit makes the text refused.
pub proof fn lemma_parse_u32_signs_and_digits(s: Seq<char>, i: int)
    ensures
        s.len() > 0 && s[0] != '+' ==> spec_parse_u32(seq!['+'] + s) == spec_parse_u32(s),
        0 <= i < s.len() && !is_ascii_digit(s[i]) && !(i == 0 && s[i] == '+') ==> spec_parse_u32(s) is None,
        spec_parse_u32(s) is Some ==> s.len() > 0,
{
    if s.len() > 0 && s[0] != '+' {
        assert((seq!['+'] + s).drop_first() =~= s);
    }
    if 0 <= i < s.len() && !is_ascii_digit(s[i]) && !(i == 0 && s[i] == '+') {
        if s.len() > 0 && s[0] == '+' {
            assert(s.drop_first()[i - 1] == s[i]);
        }
    }
}

/// The string that writes the decimal digit `d`.
fn digit_str(d: u32) -> (r: &'static str)
    requires
        d < 10,
    ensures
        r@ == seq![digit_char(d as int)],
{
    if d == 0 {
        proof { reveal_strlit("0"); }
        "0"
    } else if d == 1 {
        proof { reveal_strlit("1"); }
        "1"
    } else if d == 2 {
        proof { reveal_strlit("2"); }
        "2"
    } else if d == 3 {
        proof { reveal_strlit("3"); }
        "3"
    } else if d == 4 {
        proof { reveal_strlit("4"); }
        "4"
    } else if d == 5 {
        proof { reveal_strlit("5"); }
        "5"
    } else if d == 6 {
        proof { reveal_strlit("6"); }
        "6"
    } else if d == 7 {
        proof { reveal_strlit("7"); }
        "7"
    } else if d == 8 {
        proof { reveal_strlit("8"); }
        "8"
    } else {
        proof { reveal_strlit("9"); }
        "9"
    }
}

/// Writes `n` in decimal, as `format!("{}", n)` does.
pub fn u32_to_decimal(n: u32) -> (r: String)
    ensures
        r@ == decimal_digits(n as nat),
    decreases n,
{
    if n < 10 {
        digit_str(n).to_owned()
    } else {
        let mut s = u32_to_decimal(n / 10);
        s.append(digit_str(n % 10));
        s
    }
}

/// Reads a 32-bit unsigned number as `str::parse::<u32>` does.
pub fn parse_u32(s: &str) -> (r: Option<u32>)
    ensures
        r == spec_parse_u32(s@),
{
    let len: usize = s.unicode_len();
    if len == 0 {
        return None;
    }
    let mut start: usize = 0;
    if s.get_char(0) == '+' {
        if len == 1 {
            return None;
        }
        start = 1;
    }
    let ghost digits = s@.subrange(start as int, len as int);
    assert(digits =~= (if s@.len() > 0 && s@[0] == '+' { s@.drop_first() } else { s@ }));
    let mut i: usize = start;
    let mut value: u64 = 0;
    while i < len
        invariant
            start <= i <= len,
            len == s@.len(),
            digits == s@.subrange(start as int, len as int),
            digits == (if s@.len() > 0 && s@[0] == '+' { s@.drop_first() } else { s@ }),
            all_digits(s@.subrange(start as int, i as int)),
            value == decimal_value(s@.subrange(start as int, i as int)),
            value <= u32::MAX,
        decreases len - i,
    {
        let c = s.get_char(i);
        if !('0' <= c && c <= '9') {
            assert(!is_ascii_digit(digits[i - start]));
            return None;
        }
        let d: u64 = (c as u64) - ('0' as u64);
        let ghost prefix = s@.subrange(start as int, i + 1);
        assert(prefix.drop_last() =~= s@.subrange(start as int, i as int));
        assert(all_digits(prefix)) by {
            assert forall|j: int| 0 <= j < prefix.len() implies #[trigger] is_ascii_digit(prefix[j]) by {
                if j < prefix.len() - 1 {
                    assert(prefix[j] == s@.subrange(start as int, i as int)[j]);
                }
            }
        }
        value = value * 10 + d;
        if value > 0xffff_ffffu64 {
            proof {
                if all_digits(digits) {
                    lemma_decimal_prefix_le(digits, i + 1 - start);
                    assert(digits.subrange(0, i + 1 - start) =~= prefix);
                }
            }
            return None;
        }
        i = i + 1;
    }
    assert(s@.subrange(start as int, i as int) =~= digits);
    Some(value as u32)
}

/// A character with the Unicode `White_Space` property, which is what
/// `char::is_whitespace`, `str::trim` and `str::split_whitespace` go by.
pub open spec fn is_whitespace(c: char) -> bool {
    ||| ('\u{9}' <= c && c <= '\u{d}')
    ||| c == ' '
    ||| c == '\u{85}'
    ||| c == '\u{a0}'
    ||| c == '\u{1680}'
    ||| ('\u{2000}' <= c && c <= '\u{200a}')
    ||| c == '\u{2028}'
    ||| c == '\u{2029}'
    ||| c == '\u{202f}'
    ||| c == '\u{205f}'
    ||| c == '\u{3000}'
}

/// Whether `c` is white space, as `char::is_whitespace` tells.
pub fn char_is_whitespace(c: char) -> (r: bool)
    ensures
        r == is_whitespace(c),
{
    ('\u{9}' <= c && c <= '\u{d}') || c == ' ' || c == '\u{85}' || c == '\u{a0}' || c == '\u{1680}'
        || ('\u{2000}' <= c && c <= '\u{200a}') || c == '\u{2028}' || c == '\u{2029}'
        || c == '\u{202f}' || c == '\u{205f}' || c == '\u{3000}'
}

/// The words of `s` read so far and the word being read, after reading
/// `s` from the left.
pub open spec fn split_state(s: Seq<char>) -> (Seq<Seq<char>>, Seq<char>)
    decreases s.len(),
{
    if s.len() == 0 {
        (Seq::empty(), Seq::empty())
    } else {
        let (done, cur) = split_state(s.drop_last());
        let c = s.last();
        if is_whitespace(c) {
            if cur.len() > 0 {
                (done.push(cur), Seq::empty())
            } else {
                (done, Seq::empty())
            }
        } else {
            (done, cur.push(c))
        }
    }
}

/// The maximal runs of non-white-space characters of `s`, in order: what
/// `str::split_whitespace` yields.
pub open spec fn words(s: Seq<char>) -> Seq<Seq<char>> {
    let (done, cur) = split_state(s);
    if cur.len() > 0 {
        done.push(cur)
    } else {
        done
    }
}

/// The views of a vector of string slices.
pub open spec fn str_views(v: Seq<&str>) -> Seq<Seq<char>> {
    v.map_values(|p: &str| p@)
}

/// Splits `s` at white space, dropping the empty pieces, as
/// `str::split_whitespace` does.
pub fn split_whitespace<'a>(s: &'a str) -> (r: Vec<&'a str>)
    ensures
        str_views(r@) == words(s@),
{
    let len: usize = s.unicode_len();
    let mut parts: Vec<&'a str> = Vec::new();
    let mut start: usize = 0;
    let mut in_word = false;
    let mut i: usize = 0;
    assert(s@.subrange(0, 0) =~= Seq::<char>::empty());
    while i < len
        invariant
            i <= len,
            len == s@.len(),
            start <= i,
            in_word ==> start < i,
            split_state(s@.subrange(0, i as int)) == (str_views(parts@), if in_word {
                s@.subrange(start as int, i as int)
            } else {
                Seq::<char>::empty()
            }),
        decreases len - i,
    {
        let c = s.get_char(i);
        let ghost before = parts@;
        let ghost prefix = s@.subrange(0, i + 1);
        assert(prefix.drop_last() =~= s@.subrange(0, i as int));
        assert(prefix.last() == c);
        if char_is_whitespace(c) {
            if in_word {
                let word = s.substring_char(start, i);
                parts.push(word);
                assert(str_views(parts@) =~= str_views(before).push(word@));
                in_word = false;
            }
        } else {
            if !in_word {
                start = i;
                in_word = true;
                assert(s@.subrange(start as int, i + 1) =~= Seq::<char>::empty().push(c));
            } else {
                assert(s@.subrange(start as int, i + 1) =~= s@.subrange(start as int, i as int).push(c));
            }
        }
        i = i + 1;
    }
    assert(s@.subrange(0, len as int) =~= s@);
    if in_word {
        let ghost before = parts@;
        let word = s.substring_char(start, len);
        parts.push(word);
        assert(str_views(parts@) =~= str_views(before).push(word@));
    }
    parts
}

/// What `str::to_uppercase` returns for a string: its Unicode uppercase
/// mapping, which depends on the string alone.
pub uninterp spec fn uppercase_of(s: Seq<char>) -> Seq<char>;

/// What `str::to_lowercase` returns for a string: its Unicode lowercase
/// mapping, which depends on the string alone.
pub uninterp spec fn lowercase_of(s: Seq<char>) -> Seq<char>;

/// Calls `str::to_uppercase`. The contract only names the result
/// (`uppercase_of`); the Unicode case tables it follows are not stated.
#[verifier::external_body]
pub(crate) fn to_uppercase(s: &str) -> (r: String)
    ensures
        r@ == uppercase_of(s@),
{
    s.to_uppercase()
}

/// Calls `str::to_lowercase`. The contract only names the result
/// (`lowercase_of`); the Unicode case tables it follows are not stated.
#[verifier::external_body]
pub(crate) fn to_lowercase(s: &str) -> (r: String)
    ensures
        r@ == lowercase_of(s@),
{
    s.to_lowercase()
}

} // verus!
