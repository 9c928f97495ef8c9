//! Decimal numerals: rendering and reading whole numbers, and recognising
//! the literals that denote a real number.
use vstd::prelude::*;
use vstd::string::*;
use crate::text::chars_of;

verus! {

/// One of the ten digits `0` to `9`.
pub open spec fn is_digit(c: char) -> bool {
    '0' <= c && c <= '9'
}

/// The number that the digit `c` writes.
pub open spec fn digit_value(c: char) -> int {
    c as int - '0' as int
}

/// The character that writes the digit `d`.
pub open spec fn digit_char(d: int) -> char {
    if d == 0 {
        '0'
    } else if d == 1 {
        '1'
    } else if d == 2 {
        '2'
    } else if d == 3 {
        '3'
    } else if d == 4 {
        '4'
    } else if d == 5 {
        '5'
    } else if d == 6 {
        '6'
    } else if d == 7 {
        '7'
    } else if d == 8 {
        '8'
    } else {
        '9'
    }
}

/// The text holds nothing but digits.
pub open spec fn all_digits(s: Seq<char>) -> bool {
    forall|i: int| 0 <= i < s.len() ==> is_digit(#[trigger] s[i])
}

/// The digits of `n` in base ten, most significant first, without leading
/// zeros; zero is the single digit `0`.
pub open spec fn digits(n: nat) -> Seq<char>
    decreases n,
{
    if n < 10 {
        seq![digit_char(n as int)]
    } else {
        digits(n / 10).push(digit_char((n % 10) as int))
    }
}

/// The canonical decimal text of `n`: a minus sign for negative numbers,
/// never a plus sign, no leading zeros.
pub open spec fn decimal(n: int) -> Seq<char> {
    if n < 0 {
        seq!['-'] + digits((-n) as nat)
    } else {
        digits(n as nat)
    }
}

/// The number that a run of digits writes; leading zeros count for nothing.
pub open spec fn digits_value(s: Seq<char>) -> int
    decreases s.len(),
{
    if s.len() == 0 {
        0
    } else {
        digits_value(s.drop_last()) * 10 + digit_value(s.last())
    }
}

/// Whether the text opens with a plus or minus sign.
pub open spec fn has_sign(s: Seq<char>) -> bool {
    s.len() > 0 && (s[0] == '+' || s[0] == '-')
}

/// The text without its sign, if it has one.
pub open spec fn unsigned_part(s: Seq<char>) -> Seq<char> {
    if has_sign(s) {
        s.skip(1)
    } else {
        s
    }
}

/// The whole number that `s` writes: an optional sign, at least one digit,
/// nothing else, and a value that a 64-bit signed integer holds.
pub open spec fn integer_value(s: Seq<char>) -> Option<i64> {
    let body = unsigned_part(s);
    let magnitude = digits_value(body);
    let value = if s.len() > 0 && s[0] == '-' {
        -magnitude
    } else {
        magnitude
    };
    if body.len() == 0 || !all_digits(body) {
        None
    } else if i64::MIN <= value <= i64::MAX {
        Some(value as i64)
    } else {
        None
    }
}

/// What `digits` gives is a run of digits that writes the number back.
pub proof fn lemma_digits_value(n: nat)
    ensures
        digits(n).len() >= 1,
        all_digits(digits(n)),
        digits_value(digits(n)) == n,
        n > 0 ==> digits(n)[0] != '0',
    decreases n,
{
    if n < 10 {
        let s = digits(n);
        assert(digits_value(s.drop_last()) == 0);
    } else {
        lemma_digits_value(n / 10);
        let s = digits(n);
        assert(s.drop_last() =~= digits(n / 10));
    }
}

/// Reading the canonical text of a 64-bit integer gives the integer.
pub proof fn lemma_integer_value_of_decimal(n: i64)
    ensures
        integer_value(decimal(n as int)) == Some(n),
{
    let s = decimal(n as int);
    if n < 0 {
        lemma_digits_value((-n) as nat);
        assert(s.skip(1) =~= digits((-n) as nat));
    } else {
        lemma_digits_value(n as nat);
        assert(is_digit(s[0]));
    }
}

/// A run of digits writes no less than any of its prefixes does.
pub proof fn lemma_digits_value_grows(s: Seq<char>, k: int)
    requires
        all_digits(s),
        0 <= k <= s.len(),
    ensures
        0 <= digits_value(s.take(k)) <= digits_value(s),
    decreases s.len() - k,
{
    if k == s.len() {
        assert(s.take(k) =~= s);
        lemma_digits_value_nonnegative(s);
    } else {
        lemma_digits_value_grows(s, k + 1);
        let t = s.take(k + 1);
        assert(t.drop_last() =~= s.take(k));
    }
}

/// A run of digits writes no negative number.
pub proof fn lemma_digits_value_nonnegative(s: Seq<char>)
    requires
        all_digits(s),
    ensures
        digits_value(s) >= 0,
    decreases s.len(),
{
    if s.len() > 0 {
        lemma_digits_value_nonnegative(s.drop_last());
    }
}

/// The one-character text of a digit.
fn digit_text(d: u64) -> (t: &'static str)
    requires
        d <= 9,
    ensures
        t@ == seq![digit_char(d as int)],
{
    proof {
        reveal_strlit("0");
        reveal_strlit("1");
        reveal_strlit("2");
        reveal_strlit("3");
        reveal_strlit("4");
        reveal_strlit("5");
        reveal_strlit("6");
        reveal_strlit("7");
        reveal_strlit("8");
        reveal_strlit("9");
    }
    if d == 0 {
        "0"
    } else if d == 1 {
        "1"
    } else if d == 2 {
        "2"
    } else if d == 3 {
        "3"
    } else if d == 4 {
        "4"
    } else if d == 5 {
        "5"
    } else if d == 6 {
        "6"
    } else if d == 7 {
        "7"
    } else if d == 8 {
        "8"
    } else {
        "9"
    }
}

/// Appends the digits of `n` to `out`.
fn push_digits(out: &mut String, n: u64)
    ensures
        final(out)@ == old(out)@ + digits(n as nat),
    decreases n,
{
    if n >= 10 {
        push_digits(out, n / 10);
    }
    out.append(digit_text(n % 10));
}

/// The canonical decimal text of `n`.
pub fn decimal_text(n: i64) -> (out: String)
    ensures
        out@ == decimal(n as int),
{
    let mut out = String::new();
    if n < 0 {
        proof {
            reveal_strlit("-");
        }
        out.append("-");
        let magnitude: u64 = if n == i64::MIN {
            9223372036854775808u64
        } else {
            (-n) as u64
        };
        push_digits(&mut out, magnitude);
    } else {
        push_digits(&mut out, n as u64);
    }
    out
}

/// Reads a whole number: `Some` exactly for texts that `integer_value`
/// accepts, with the value they write.
pub fn parse_integer(s: &str) -> (value: Option<i64>)
    ensures
        value == integer_value(s@),
{
    let cs = chars_of(s);
    let n: usize = cs.len();
    let mut start: usize = 0;
    let mut negative = false;
    if n > 0 && (cs[0] == '+' || cs[0] == '-') {
        negative = cs[0] == '-';
        start = 1;
    }
    if start == n {
        return None;
    }
    let ghost body = unsigned_part(s@);
    let limit: u64 = 9223372036854775808u64;
    let mut acc: u64 = 0;
    let mut i: usize = start;
    while i < n
        invariant
            start <= i <= n,
            n == cs.len(),
            cs@ == s@,
            body == cs@.skip(start as int),
            body == unsigned_part(s@),
            negative == (s@.len() > 0 && s@[0] == '-'),
            limit == 9223372036854775808u64,
            acc <= limit,
            all_digits(body.take(i - start)),
            acc == digits_value(body.take(i - start)),
        decreases n - i,
    {
        let c = cs[i];
        if !(c >= '0' && c <= '9') {
            assert(!is_digit(body[i - start]));
            return None;
        }
        let d: u64 = (c as u64) - ('0' as u64);
        assert(body.take(i - start + 1).drop_last() =~= body.take(i - start));
        if acc > (limit - d) / 10 {
            proof {
                if all_digits(body) {
                    lemma_digits_value_grows(body, i - start + 1);
                }
            }
            return None;
        }
        acc = acc * 10 + d;
        i += 1;
    }
    assert(body.take(n - start) =~= body);
    if negative {
        if acc == limit {
            Some(i64::MIN)
        } else {
            Some(-(acc as i64))
        }
    } else if acc == limit {
        None
    } else {
        Some(acc as i64)
    }
}

/// End of the longest run of digits of `s` that starts at `from`.
pub open spec fn digit_run(s: Seq<char>, from: int) -> int
    decreases s.len() - from,
{
    if 0 <= from < s.len() && is_digit(s[from]) {
        digit_run(s, from + 1)
    } else {
        from
    }
}

/// `c` is the lower-case letter `letter` or its upper-case form.
pub open spec fn same_letter(c: char, letter: char) -> bool {
    c == letter || ('A' <= c && c <= 'Z' && 'a' <= letter && letter <= 'z' && c as int + 32
        == letter as int)
}

/// `s` spells `word`, a word in lower case, in any mix of cases.
pub open spec fn spells(s: Seq<char>, word: Seq<char>) -> bool {
    s.len() == word.len() && forall|i: int| 0 <= i < s.len() ==> same_letter(s[i], #[trigger] word[i])
}

/// One of the words for the values that are no finite number.
pub open spec fn is_special_word(s: Seq<char>) -> bool {
    spells(s, seq!['i', 'n', 'f']) || spells(s, seq!['i', 'n', 'f', 'i', 'n', 'i', 't', 'y'])
        || spells(s, seq!['n', 'a', 'n'])
}

/// From `at` on, `s` is an exponent (`e` or `E`, an optional sign, at least
/// one digit) or is at its end.
pub open spec fn ends_or_exponent(s: Seq<char>, at: int) -> bool {
    at == s.len() || (0 <= at < s.len() && (s[at] == 'e' || s[at] == 'E') && {
        let digits_from = if at + 1 < s.len() && (s[at + 1] == '+' || s[at + 1] == '-') {
            at + 2
        } else {
            at + 1
        };
        digit_run(s, digits_from) > digits_from && digit_run(s, digits_from) == s.len()
    })
}

/// An unsigned decimal number: digits with an optional point among them, at
/// least one digit before or after the point, and an optional exponent.
pub open spec fn is_number(s: Seq<char>) -> bool {
    let whole = digit_run(s, 0);
    if whole < s.len() && s[whole] == '.' {
        let end = digit_run(s, whole + 1);
        end - 1 >= 1 && ends_or_exponent(s, end)
    } else {
        whole >= 1 && ends_or_exponent(s, whole)
    }
}

/// The literals that denote a real number: an optional sign, followed by a
/// decimal number or by `inf`, `infinity` or `nan` in any mix of cases. No
/// blank is allowed anywhere, and the empty text is no number.
pub open spec fn is_real_literal(s: Seq<char>) -> bool {
    is_special_word(unsigned_part(s)) || is_number(unsigned_part(s))
}

/// A run of digits ends within the text and holds digits only.
pub proof fn lemma_digit_run(s: Seq<char>, from: int)
    requires
        0 <= from <= s.len(),
    ensures
        from <= digit_run(s, from) <= s.len(),
        forall|j: int| from <= j < digit_run(s, from) ==> is_digit(#[trigger] s[j]),
    decreases s.len() - from,
{
    if from < s.len() && is_digit(s[from]) {
        lemma_digit_run(s, from + 1);
    }
}

/// The characters that a number is written with.
pub open spec fn is_numeral_char(c: char) -> bool {
    is_digit(c) || c == '+' || c == '-' || c == '.' || ('a' <= c && c <= 'z') || ('A' <= c && c
        <= 'Z')
}

/// A literal is not empty and holds nothing but digits, signs, a point and
/// letters.
pub proof fn lemma_literal_chars(s: Seq<char>)
    requires
        is_real_literal(s),
    ensures
        s.len() >= 1,
        forall|j: int| 0 <= j < s.len() ==> is_numeral_char(#[trigger] s[j]),
{
    let body = unsigned_part(s);
    let shift: int = if has_sign(s) {
        1
    } else {
        0
    };
    assert forall|j: int| 0 <= j < body.len() implies is_numeral_char(#[trigger] body[j]) by {
        if !is_special_word(body) {
            lemma_digit_run(body, 0);
            let whole = digit_run(body, 0);
            let end = if whole < body.len() && body[whole] == '.' {
                lemma_digit_run(body, whole + 1);
                digit_run(body, whole + 1)
            } else {
                whole
            };
            if end < body.len() {
                let from = if end + 1 < body.len() && (body[end + 1] == '+' || body[end + 1]
                    == '-') {
                    end + 2
                } else {
                    end + 1
                };
                lemma_digit_run(body, from);
            }
        }
    }
    assert forall|j: int| 0 <= j < s.len() implies is_numeral_char(#[trigger] s[j]) by {
        if j >= shift {
            assert(s[j] == body[j - shift]);
        }
    }
}

/// The canonical text of a whole number holds digits and, in front of a
/// negative one, a minus sign.
pub proof fn lemma_decimal_chars(n: int)
    ensures
        decimal(n).len() >= 1,
        forall|j: int| 0 <= j < decimal(n).len() ==> is_numeral_char(#[trigger] decimal(n)[j]),
{
    if n < 0 {
        lemma_digits_value((-n) as nat);
    } else {
        lemma_digits_value(n as nat);
    }
}

/// End of the run of digits that starts at `from`.
fn scan_digits(cs: &Vec<char>, from: usize) -> (to: usize)
    requires
        from <= cs.len(),
    ensures
        from <= to <= cs.len(),
        to == digit_run(cs@, from as int),
{
    let mut i: usize = from;
    while i < cs.len() && cs[i] >= '0' && cs[i] <= '9'
        invariant
            from <= i <= cs.len(),
            digit_run(cs@, from as int) == digit_run(cs@, i as int),
        decreases cs.len() - i,
    {
        i += 1;
    }
    i
}

/// Whether `cs` spells `word`, whatever the case of its letters.
fn spells_word(cs: &Vec<char>, word: &str) -> (hit: bool)
    ensures
        hit == spells(cs@, word@),
{
    let w = chars_of(word);
    if cs.len() != w.len() {
        return false;
    }
    let mut i: usize = 0;
    while i < cs.len()
        invariant
            i <= cs.len(),
            cs.len() == w.len(),
            w@ == word@,
            forall|j: int| 0 <= j < i ==> same_letter(cs@[j], #[trigger] w@[j]),
        decreases cs.len() - i,
    {
        let c = cs[i];
        let l = w[i];
        if !(c == l || (c >= 'A' && c <= 'Z' && l >= 'a' && l <= 'z' && (c as u32) + 32 == (
        l as u32))) {
            return false;
        }
        i += 1;
    }
    true
}

/// Whether `cs` is at its end at `at`, or holds an exponent from there on.
fn at_end_or_exponent(cs: &Vec<char>, at: usize) -> (ok: bool)
    requires
        at <= cs.len(),
    ensures
        ok == ends_or_exponent(cs@, at as int),
{
    let n: usize = cs.len();
    if at == n {
        return true;
    }
    if !(cs[at] == 'e' || cs[at] == 'E') {
        return false;
    }
    let from: usize = if at + 1 < n && (cs[at + 1] == '+' || cs[at + 1] == '-') {
        at + 2
    } else {
        at + 1
    };
    let to: usize = scan_digits(cs, from);
    to > from && to == n
}

/// Whether `s` denotes a real number, as `is_real_literal` defines it.
pub fn is_number_text(s: &str) -> (ok: bool)
    ensures
        ok == is_real_literal(s@),
{
    let cs = chars_of(s);
    let n: usize = cs.len();
    let start: usize = if n > 0 && (cs[0] == '+' || cs[0] == '-') {
        1
    } else {
        0
    };
    let body = chars_of(s.substring_char(start, n));
    assert(body@ =~= unsigned_part(s@));
    proof {
        reveal_strlit("inf");
        reveal_strlit("infinity");
        reveal_strlit("nan");
        assert("inf"@ =~= seq!['i', 'n', 'f']);
        assert("infinity"@ =~= seq!['i', 'n', 'f', 'i', 'n', 'i', 't', 'y']);
        assert("nan"@ =~= seq!['n', 'a', 'n']);
    }
    if spells_word(&body, "inf") || spells_word(&body, "infinity") || spells_word(&body, "nan") {
        return true;
    }
    let whole: usize = scan_digits(&body, 0);
    if whole < body.len() && body[whole] == '.' {
        let end: usize = scan_digits(&body, whole + 1);
        end >= 2 && at_end_or_exponent(&body, end)
    } else {
        whole >= 1 && at_end_or_exponent(&body, whole)
    }
}

} // verus!
