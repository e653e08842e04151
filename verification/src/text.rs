//! Strings as sequences of characters: comparison, prefixes, and decimal
//! numbers written out and read back.

use vstd::prelude::*;
use vstd::string::*;
use vstd::utf8::*;

verus! {

/// The characters of an optional string.
pub open spec fn opt_str_view(s: Option<&str>) -> Option<Seq<char>> {
    match s {
        None => None,
        Some(text) => Some(text@),
    }
}

/// The characters of an optional owned string.
pub open spec fn opt_string_view(s: Option<String>) -> Option<Seq<char>> {
    match s {
        None => None,
        Some(text) => Some(text@),
    }
}

/// Whether `s` begins with `prefix`.
pub open spec fn has_prefix(s: Seq<char>, prefix: Seq<char>) -> bool {
    prefix.len() <= s.len() && s.subrange(0, prefix.len() as int) == prefix
}

/// What is left of `s` once `prefix` is taken off its front, if it begins with it.
pub open spec fn without_prefix(s: Seq<char>, prefix: Seq<char>) -> Option<Seq<char>> {
    if has_prefix(s, prefix) {
        Some(s.subrange(prefix.len() as int, s.len() as int))
    } else {
        None
    }
}

/// Whether two strings hold the same characters.
pub fn str_eq(a: &str, b: &str) -> (same: bool)
    ensures
        same == (a@ == b@),
{
    let x = a.as_bytes();
    let y = b.as_bytes();
    proof {
        // Equal encodings decode to equal characters.
        encode_utf8_decode_utf8(a@);
        encode_utf8_decode_utf8(b@);
    }
    if x.len() != y.len() {
        return false;
    }
    let mut i: usize = 0;
    while i < x.len()
        invariant
            x@ == encode_utf8(a@),
            y@ == encode_utf8(b@),
            x@.len() == y@.len(),
            i <= x@.len(),
            forall|j: int| 0 <= j < i ==> x@[j] == y@[j],
        decreases x.len() - i,
    {
        if x[i] != y[i] {
            return false;
        }
        i += 1;
    }
    assert(x@ =~= y@);
    true
}

/// Takes `prefix` off the front of `s`; `None` where `s` does not begin with it.
pub fn strip_prefix<'a>(s: &'a str, prefix: &str) -> (rest: Option<&'a str>)
    ensures
        opt_str_view(rest) == without_prefix(s@, prefix@),
{
    let n = s.unicode_len();
    let m = prefix.unicode_len();
    if n < m {
        return None;
    }
    let head = s.substring_char(0, m);
    if str_eq(head, prefix) {
        Some(s.substring_char(m, n))
    } else {
        None
    }
}

/// The two strings, one after the other.
pub fn join(a: &str, b: &str) -> (joined: String)
    ensures
        joined@ == a@ + b@,
{
    let mut joined = String::from_str(a);
    joined.append(b);
    joined
}

/// Whether `c` is one of the ten decimal digits.
pub open spec fn is_digit(c: char) -> bool {
    '0' <= c <= '9'
}

/// The digit character for a value below ten.
pub open spec fn digit_char(d: int) -> char {
    if d == 0 {
        '0'
    } else if d == 1 {
        '1'
    } else if d == 2 {
        '2'
    } else if d == 3 {
        '3'
    } else if d == 4 {
        '4'
    } else if d == 5 {
        '5'
    } else if d == 6 {
        '6'
    } else if d == 7 {
        '7'
    } else if d == 8 {
        '8'
    } else {
        '9'
    }
}

/// The value of a digit character.
pub open spec fn digit_value(c: char) -> int {
    c as int - '0' as int
}

/// Whether every character of `s` is a decimal digit.
pub open spec fn all_digits(s: Seq<char>) -> bool {
    forall|i: int| 0 <= i < s.len() ==> is_digit(#[trigger] s[i])
}

/// The number that a run of digits denotes, most significant digit first.
pub open spec fn digits_value(s: Seq<char>) -> nat
    decreases s.len(),
{
    if s.len() == 0 {
        0
    } else {
        (digits_value(s.drop_last()) * 10 + digit_value(s.last())) as nat
    }
}

/// A natural number written in decimal, without leading zeros.
pub open spec fn decimal(n: nat) -> Seq<char>
    decreases n,
{
    if n < 10 {
        seq![digit_char(n as int)]
    } else {
        decimal(n / 10).push(digit_char((n % 10) as int))
    }
}

/// An integer written in decimal, with a minus sign where it is negative.
pub open spec fn decimal_int(i: int) -> Seq<char> {
    if i < 0 {
        seq!['-'] + decimal((-i) as nat)
    } else {
        decimal(i as nat)
    }
}

/// The last `width` decimal digits of `n`, with zeros in front where `n` is short.
pub open spec fn zero_padded(n: nat, width: nat) -> Seq<char>
    decreases width,
{
    if width == 0 {
        Seq::<char>::empty()
    } else {
        zero_padded(n / 10, (width - 1) as nat).push(digit_char((n % 10) as int))
    }
}

/// The integer that `s` denotes: an optional sign, then one or more digits.
pub open spec fn parsed_int(s: Seq<char>) -> Option<int> {
    if s.len() == 0 {
        None
    } else {
        let signed = s[0] == '-' || s[0] == '+';
        let body = if signed {
            s.subrange(1, s.len() as int)
        } else {
            s
        };
        if body.len() > 0 && all_digits(body) {
            if s[0] == '-' {
                Some(-(digits_value(body) as int))
            } else {
                Some(digits_value(body) as int)
            }
        } else {
            None
        }
    }
}

/// The `i32` that `s` denotes, where it denotes an integer in range.
pub open spec fn parsed_i32(s: Seq<char>) -> Option<i32> {
    match parsed_int(s) {
        Some(v) => if i32::MIN <= v <= i32::MAX {
            Some(v as i32)
        } else {
            None
        },
        None => None,
    }
}

/// A digit is an ASCII character whose value is its code less that of `'0'`.
pub proof fn lemma_digit_char(d: int)
    requires
        0 <= d < 10,
    ensures
        is_digit(digit_char(d)),
        digit_value(digit_char(d)) == d,
{
}

/// A number written in decimal is a non-empty run of digits that denotes it.
pub proof fn lemma_decimal_denotes(n: nat)
    ensures
        decimal(n).len() >= 1,
        all_digits(decimal(n)),
        digits_value(decimal(n)) == n,
    decreases n,
{
    if n < 10 {
        lemma_digit_char(n as int);
        let s = decimal(n);
        assert(s.drop_last() =~= Seq::<char>::empty());
        assert(digits_value(s.drop_last()) == 0);
    } else {
        lemma_decimal_denotes(n / 10);
        lemma_digit_char((n % 10) as int);
        let head = decimal(n / 10);
        let s = decimal(n);
        assert(s.drop_last() =~= head);
        assert(s.last() == digit_char((n % 10) as int));
    }
}

/// Zero padding gives exactly `width` digits.
pub proof fn lemma_zero_padded_digits(n: nat, width: nat)
    ensures
        zero_padded(n, width).len() == width,
        all_digits(zero_padded(n, width)),
    decreases width,
{
    if width > 0 {
        lemma_zero_padded_digits(n / 10, (width - 1) as nat);
        lemma_digit_char((n % 10) as int);
    }
}

/// Reading back an `i32` written in decimal gives the same number.
pub proof fn lemma_parse_decimal_i32(n: i32)
    ensures
        parsed_i32(decimal_int(n as int)) == Some(n),
{
    let s = decimal_int(n as int);
    if n < 0 {
        let m = (-(n as int)) as nat;
        lemma_decimal_denotes(m);
        assert(s.subrange(1, s.len() as int) =~= decimal(m));
        assert(s[0] == '-');
    } else {
        lemma_decimal_denotes(n as nat);
        assert(is_digit(s[0]));
    }
}

/// A longer run of digits denotes at least as much as any of its prefixes.
pub proof fn lemma_digits_value_grows(s: Seq<char>, k: int)
    requires
        all_digits(s),
        0 <= k <= s.len(),
    ensures
        digits_value(s.subrange(0, k)) <= digits_value(s),
    decreases s.len() - k,
{
    if k == s.len() {
        assert(s.subrange(0, k) =~= s);
    } else {
        lemma_digits_value_grows(s, k + 1);
        let longer = s.subrange(0, k + 1);
        assert(longer.drop_last() =~= s.subrange(0, k));
        assert(is_digit(longer.last()));
    }
}

/// A string with a character outside ASCII denotes no integer.
proof fn lemma_non_ascii_denotes_nothing(s: Seq<char>)
    requires
        !is_ascii_chars(s),
    ensures
        parsed_int(s) is None,
{
    let i = choose|i: int| 0 <= i < s.len() && !('\0' <= #[trigger] s[i] <= '\u{7f}');
    assert(!is_digit(s[i]));
    if s.len() > 0 && (s[0] == '-' || s[0] == '+') {
        let body = s.subrange(1, s.len() as int);
        assert(i >= 1);
        assert(body[i - 1] == s[i]);
    }
}

/// The one-character string for a digit value.
pub fn digit_str(d: u8) -> (text: &'static str)
    requires
        d < 10,
    ensures
        text@ == seq![digit_char(d as int)],
{
    proof {
        reveal_strlit("0");
        reveal_strlit("1");
        reveal_strlit("2");
        reveal_strlit("3");
        reveal_strlit("4");
        reveal_strlit("5");
        reveal_strlit("6");
        reveal_strlit("7");
        reveal_strlit("8");
        reveal_strlit("9");
    }
    let text = if d == 0 {
        "0"
    } else if d == 1 {
        "1"
    } else if d == 2 {
        "2"
    } else if d == 3 {
        "3"
    } else if d == 4 {
        "4"
    } else if d == 5 {
        "5"
    } else if d == 6 {
        "6"
    } else if d == 7 {
        "7"
    } else if d == 8 {
        "8"
    } else {
        "9"
    };
    assert(text@ =~= seq![digit_char(d as int)]);
    text
}

/// Writes a natural number in decimal.
pub fn render_u64(n: u64) -> (text: String)
    ensures
        text@ == decimal(n as nat),
    decreases n,
{
    if n < 10 {
        String::from_str(digit_str(n as u8))
    } else {
        let mut text = render_u64(n / 10);
        text.append(digit_str((n % 10) as u8));
        assert(text@ =~= decimal((n / 10) as nat).push(digit_char((n % 10) as int)));
        text
    }
}

/// Writes an `i32` in decimal.
pub fn render_i32(n: i32) -> (text: String)
    ensures
        text@ == decimal_int(n as int),
{
    if n < 0 {
        let magnitude: u64 = (-(n as i64)) as u64;
        let digits = render_u64(magnitude);
        proof {
            reveal_strlit("-");
        }
        let text = join("-", digits.as_str());
        assert(text@ =~= seq!['-'] + decimal(magnitude as nat));
        text
    } else {
        render_u64(n as u64)
    }
}

/// Writes the last `width` decimal digits of `n`, zero-padded on the left.
pub fn render_zero_padded(n: u32, width: u8) -> (text: String)
    ensures
        text@ == zero_padded(n as nat, width as nat),
    decreases width,
{
    if width == 0 {
        String::new()
    } else {
        let mut text = render_zero_padded(n / 10, width - 1);
        text.append(digit_str((n % 10) as u8));
        assert(text@ =~= zero_padded((n / 10) as nat, (width - 1) as nat).push(
            digit_char((n % 10) as int),
        ));
        text
    }
}

/// Reads an `i32` written in decimal with an optional sign.
pub fn parse_i32(s: &str) -> (number: Option<i32>)
    ensures
        number == parsed_i32(s@),
{
    if !s.is_ascii() {
        proof {
            lemma_non_ascii_denotes_nothing(s@);
        }
        return None;
    }
    let bytes = s.as_bytes();
    proof {
        is_ascii_chars_encode_utf8(s@);
    }
    let n = bytes.len();
    if n == 0 {
        return None;
    }
    let negative = bytes[0] == 45u8;
    let start: usize = if bytes[0] == 45u8 || bytes[0] == 43u8 {
        1
    } else {
        0
    };
    let ghost body = s@.subrange(start as int, n as int);
    assert(start == 0 ==> body =~= s@);
    assert(negative == (s@[0] == '-'));
    assert(start == 1 <==> (s@[0] == '-' || s@[0] == '+'));
    if start == n {
        return None;
    }
    let mut acc: i64 = 0;
    let mut i: usize = start;
    while i < n
        invariant
            is_ascii_chars(s@),
            bytes@ == encode_utf8(s@),
            n == s@.len(),
            n == bytes@.len(),
            forall|j: int| 0 <= j < n ==> s@[j] as u8 == bytes@[j],
            start <= i <= n,
            start < n,
            start == 0 || start == 1,
            negative == (s@[0] == '-'),
            start == 1 <==> (s@[0] == '-' || s@[0] == '+'),
            body == s@.subrange(start as int, n as int),
            start == 0 ==> body == s@,
            all_digits(body.subrange(0, i - start)),
            acc == digits_value(body.subrange(0, i - start)),
            0 <= acc <= 2147483648,
        decreases n - i,
    {
        let b = bytes[i];
        assert(body[i - start] == s@[i as int]);
        if b < 48u8 || b > 57u8 {
            assert(!is_digit(body[i - start]));
            return None;
        }
        let d: i64 = (b - 48u8) as i64;
        let ghost before = body.subrange(0, i - start);
        let ghost after = body.subrange(0, i - start + 1);
        assert(after.drop_last() =~= before);
        assert(after.last() == body[i - start]);
        assert(digit_value(body[i - start]) == d);
        acc = acc * 10 + d;
        assert(acc == digits_value(after));
        if acc > 2147483648 {
            proof {
                if all_digits(body) {
                    lemma_digits_value_grows(body, i - start + 1);
                }
            }
            return None;
        }
        i += 1;
    }
    assert(body.subrange(0, n - start) =~= body);
    if negative {
        Some((-acc) as i32)
    } else if acc > 2147483647 {
        None
    } else {
        Some(acc as i32)
    }
}

} // verus!
