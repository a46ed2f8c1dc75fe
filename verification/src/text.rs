//! Text as sequences of characters: building, parsing and comparing strings with exact
//! contracts.
use vstd::prelude::*;

verus! {

/// `String::push` appends one character at the end.
pub assume_specification[ String::push ](s: &mut String, ch: char)
    ensures
        final(s)@ == old(s)@.push(ch),
;

/// What `str::to_lowercase` makes of a text: the Unicode lower-case mapping of the whole of it.
pub uninterp spec fn lowercase_of(s: Seq<char>) -> Seq<char>;

/// Calls `str::to_lowercase`. The result is a function of the text alone.
#[verifier::external_body]
pub(crate) fn lowercase(s: &str) -> (r: String)
    ensures
        r@ == lowercase_of(s@),
{
    s.to_lowercase()
}

/// The characters of `s`, in order.
pub fn chars_of(s: &str) -> (r: Vec<char>)
    ensures
        r@ == s@,
{
    let mut out: Vec<char> = Vec::new();
    for c in it: s.chars()
        invariant
            it.seq() == s@,
            out@ == s@.take(it.index()),
    {
        proof {
            assert(s@.take(it.index() + 1) =~= s@.take(it.index()).push(c));
        }
        out.push(c);
    }
    assert(s@.take(s@.len() as int) =~= s@);
    out
}

/// Whether the two texts have the same characters.
pub fn same_text(a: &str, b: &str) -> (r: bool)
    ensures
        r == (a@ == b@),
{
    a.to_owned() == b.to_owned()
}

/// The three texts, one after the other.
pub fn join3(a: &str, b: &str, c: &str) -> (r: String)
    ensures
        r@ == a@ + b@ + c@,
{
    let mut s = a.to_owned();
    s.append(b);
    s.append(c);
    s
}

/// The decimal digit `d` as a character.
pub open spec fn digit_char(d: int) -> char {
    (('0' as int) + d) as char
}

/// `n` written in decimal, without leading zeros.
pub open spec fn decimal(n: nat) -> Seq<char>
    decreases n,
{
    if n < 10 {
        seq![digit_char(n as int)]
    } else {
        decimal(n / 10).push(digit_char((n % 10) as int))
    }
}

fn exec_digit(d: u64) -> (c: char)
    requires
        d < 10,
    ensures
        c == digit_char(d as int),
{
    (48u8 + d as u8) as char
}

/// Appends `n` in decimal to `out`.
pub fn push_decimal(out: &mut String, n: u64)
    ensures
        final(out)@ == old(out)@ + decimal(n as nat),
    decreases n,
{
    if n < 10 {
        out.push(exec_digit(n));
        assert(out@ =~= old(out)@ + decimal(n as nat));
    } else {
        push_decimal(out, n / 10);
        out.push(exec_digit(n % 10));
        assert(out@ =~= old(out)@ + decimal(n as nat));
    }
}

/// `n` in decimal, as a new string.
pub fn decimal_string(n: u64) -> (r: String)
    ensures
        r@ == decimal(n as nat),
{
    let mut out = String::new();
    push_decimal(&mut out, n);
    assert(out@ =~= decimal(n as nat));
    out
}

/// The hexadecimal digit `d`, in lower case.
pub open spec fn hex_char(d: int) -> char {
    if d < 10 {
        digit_char(d)
    } else {
        (('a' as int) + (d - 10)) as char
    }
}

/// The last `width` hexadecimal digits of `n`, zeros in front where `n` is shorter.
pub open spec fn hex_fixed(n: nat, width: nat) -> Seq<char>
    decreases width,
{
    if width == 0 {
        seq![]
    } else {
        hex_fixed(n / 16, (width - 1) as nat).push(hex_char((n % 16) as int))
    }
}

fn exec_hex(d: u32) -> (c: char)
    requires
        d < 16,
    ensures
        c == hex_char(d as int),
{
    if d < 10 {
        (48u8 + d as u8) as char
    } else {
        (97u8 + (d as u8 - 10)) as char
    }
}

/// Appends the last `width` hexadecimal digits of `n` to `out`.
pub fn push_hex_fixed(out: &mut String, n: u32, width: u32)
    ensures
        final(out)@ == old(out)@ + hex_fixed(n as nat, width as nat),
    decreases width,
{
    if width == 0 {
        assert(out@ =~= old(out)@ + hex_fixed(n as nat, width as nat));
    } else {
        push_hex_fixed(out, n / 16, width - 1);
        out.push(exec_hex(n % 16));
        assert(out@ =~= old(out)@ + hex_fixed(n as nat, width as nat));
    }
}

/// Whether `c` has the Unicode `White_Space` property: the code points that the character database
/// lists.
pub open spec fn whitespace(c: char) -> bool {
    ||| '\u{9}' <= c <= '\u{d}'
    ||| c == ' ' || c == '\u{85}' || c == '\u{a0}' || c == '\u{1680}'
    ||| '\u{2000}' <= c <= '\u{200a}'
    ||| c == '\u{2028}' || c == '\u{2029}' || c == '\u{202f}' || c == '\u{205f}' || c == '\u{3000}'
}

/// Whether `c` is white space.
pub fn is_space(c: char) -> (r: bool)
    ensures
        r == whitespace(c),
{
    ('\u{9}' <= c && c <= '\u{d}') || c == ' ' || c == '\u{85}' || c == '\u{a0}' || c == '\u{1680}'
        || ('\u{2000}' <= c && c <= '\u{200a}') || c == '\u{2028}' || c == '\u{2029}'
        || c == '\u{202f}' || c == '\u{205f}' || c == '\u{3000}'
}

/// `s` without white space at its start.
pub open spec fn trim_start_spec(s: Seq<char>) -> Seq<char>
    decreases s.len(),
{
    if s.len() > 0 && whitespace(s[0]) {
        trim_start_spec(s.drop_first())
    } else {
        s
    }
}

/// `s` without white space at its end.
pub open spec fn trim_end_spec(s: Seq<char>) -> Seq<char>
    decreases s.len(),
{
    if s.len() > 0 && whitespace(s.last()) {
        trim_end_spec(s.drop_last())
    } else {
        s
    }
}

/// `s` without white space at either end.
pub open spec fn trim_spec(s: Seq<char>) -> Seq<char> {
    trim_end_spec(trim_start_spec(s))
}

/// `s` without white space at either end.
pub fn trimmed(s: &str) -> (r: String)
    ensures
        r@ == trim_spec(s@),
{
    let cs = chars_of(s);
    let mut from: usize = 0;
    assert(cs@.skip(0) =~= cs@);
    while from < cs.len() && is_space(cs[from])
        invariant
            from <= cs.len(),
            trim_start_spec(cs@.skip(from as int)) == trim_start_spec(cs@),
        decreases cs.len() - from,
    {
        proof {
            assert(cs@.skip(from as int).drop_first() =~= cs@.skip(from + 1));
        }
        from += 1;
    }
    let ghost mid = cs@.skip(from as int);
    let mut to: usize = cs.len();
    assert(cs@.subrange(from as int, to as int) =~= mid);
    while to > from && is_space(cs[to - 1])
        invariant
            from <= to <= cs.len(),
            trim_end_spec(cs@.subrange(from as int, to as int)) == trim_end_spec(mid),
        decreases to - from,
    {
        proof {
            let now = cs@.subrange(from as int, to as int);
            assert(now.drop_last() =~= cs@.subrange(from as int, to - 1));
        }
        to -= 1;
    }
    let mut out = String::new();
    let mut i: usize = from;
    while i < to
        invariant
            from <= i <= to <= cs.len(),
            out@ == cs@.subrange(from as int, i as int),
        decreases to - i,
    {
        proof {
            assert(cs@.subrange(from as int, i + 1) =~= cs@.subrange(from as int, i as int).push(
                cs@[i as int],
            ));
        }
        out.push(cs[i]);
        i += 1;
    }
    out
}

/// Whether `c` is one of the ten ASCII digits.
pub open spec fn is_digit(c: char) -> bool {
    '0' <= c <= '9'
}

/// The number that a text of digits stands for.
pub open spec fn digits_value(s: Seq<char>) -> nat
    decreases s.len(),
{
    if s.len() == 0 {
        0
    } else {
        digits_value(s.drop_last()) * 10 + (s.last() as int - '0' as int) as nat
    }
}

/// The digits of a number text: what follows an optional plus sign.
pub open spec fn number_digits(s: Seq<char>) -> Seq<char> {
    if s.len() > 0 && s[0] == '+' {
        s.skip(1)
    } else {
        s
    }
}

/// The unsigned number that `s` spells, at most `max`: one or more digits, a plus sign allowed in
/// front, nothing else.
pub open spec fn parse_unsigned(s: Seq<char>, max: nat) -> Option<nat> {
    let d = number_digits(s);
    if d.len() > 0 && (forall|i: int| 0 <= i < d.len() ==> is_digit(#[trigger] d[i]))
        && digits_value(d) <= max {
        Some(digits_value(d))
    } else {
        None
    }
}

proof fn lemma_digits_value_grows(s: Seq<char>, k: int)
    requires
        0 <= k <= s.len(),
        forall|i: int| 0 <= i < s.len() ==> is_digit(#[trigger] s[i]),
    ensures
        digits_value(s.take(k)) <= digits_value(s),
    decreases s.len() - k,
{
    if k == s.len() {
        assert(s.take(k) =~= s);
    } else {
        lemma_digits_value_grows(s, k + 1);
        assert(s.take(k + 1).drop_last() =~= s.take(k));
        assert(s.take(k + 1).last() == s[k]);
    }
}

/// The unsigned number that `s` spells, if it is at most `max`.
pub fn parse_number(s: &str, max: u64) -> (r: Option<u64>)
    ensures
        match r {
            Some(n) => parse_unsigned(s@, max as nat) == Some(n as nat),
            None => parse_unsigned(s@, max as nat) is None,
        },
{
    let cs = chars_of(s);
    let from: usize = if cs.len() > 0 && cs[0] == '+' {
        1
    } else {
        0
    };
    let ghost d = number_digits(s@);
    assert(d =~= cs@.skip(from as int));
    if from == cs.len() {
        return None;
    }
    let mut n: u64 = 0;
    let mut i: usize = from;
    assert(d.take(0) =~= seq![]);
    while i < cs.len()
        invariant
            from <= i <= cs.len(),
            d == cs@.skip(from as int),
            d == number_digits(s@),
            cs@ == s@,
            n as nat == digits_value(d.take(i - from)),
            n <= max,
            forall|j: int| 0 <= j < i - from ==> is_digit(#[trigger] d[j]),
        decreases cs.len() - i,
    {
        let c = cs[i];
        proof {
            assert(d[i - from] == c);
            assert(d.take(i - from + 1).drop_last() =~= d.take(i - from));
            assert(d.take(i - from + 1).last() == c);
        }
        if !('0' <= c && c <= '9') {
            return None;
        }
        let v: u64 = (c as u32 - 48) as u64;
        let next: u128 = (n as u128) * 10 + v as u128;
        if next > max as u128 {
            proof {
                if forall|j: int| 0 <= j < d.len() ==> is_digit(#[trigger] d[j]) {
                    lemma_digits_value_grows(d, i - from + 1);
                }
            }
            return None;
        }
        n = next as u64;
        i += 1;
    }
    assert(d.take(d.len() as int) =~= d);
    Some(n)
}

proof fn lemma_decimal_digits(n: nat)
    ensures
        decimal(n).len() > 0,
        forall|i: int| 0 <= i < decimal(n).len() ==> is_digit(#[trigger] decimal(n)[i]),
        digits_value(decimal(n)) == n,
    decreases n,
{
    if n < 10 {
        assert(decimal(n).drop_last() =~= seq![]);
        assert(decimal(n).last() == digit_char(n as int));
        assert(digits_value(decimal(n).drop_last()) == 0);
    } else {
        lemma_decimal_digits(n / 10);
        assert(decimal(n).drop_last() =~= decimal(n / 10));
    }
}

/// A number written in decimal reads back as that number.
pub proof fn law_decimal_reads_back(n: nat, max: nat)
    requires
        n <= max,
    ensures
        parse_unsigned(decimal(n), max) == Some(n),
{
    lemma_decimal_digits(n);
    assert(is_digit(decimal(n)[0]));
}

/// Two numbers written alike are the same number.
pub proof fn law_decimal_unique(a: nat, b: nat)
    requires
        decimal(a) == decimal(b),
    ensures
        a == b,
{
    law_decimal_reads_back(a, a + b);
    law_decimal_reads_back(b, a + b);
}

/// `s` in quotation marks, with what cannot be shown escaped, as std's `Debug` for `str` writes
/// it.
pub uninterp spec fn quoted_of(s: Seq<char>) -> Seq<char>;

/// Formats with std's `Debug` for `str`. The result is a function of the text alone.
#[verifier::external_body]
pub(crate) fn quoted(s: &str) -> (r: String)
    ensures
        r@ == quoted_of(s@),
{
    format!("{s:?}")
}

proof fn lemma_trimmed_start(s: Seq<char>) -> (k: int)
    ensures
        0 <= k <= s.len(),
        trim_start_spec(s) == s.skip(k),
        forall|i: int| 0 <= i < k ==> whitespace(#[trigger] s[i]),
        k < s.len() ==> !whitespace(s[k]),
    decreases s.len(),
{
    if s.len() > 0 && whitespace(s[0]) {
        let rest = s.drop_first();
        let k = lemma_trimmed_start(rest);
        assert(s.skip(k + 1) =~= rest.skip(k));
        assert forall|i: int| 0 <= i < k + 1 implies whitespace(#[trigger] s[i]) by {
            if i > 0 {
                assert(s[i] == rest[i - 1]);
            }
        }
        k + 1
    } else {
        assert(s.skip(0) =~= s);
        0
    }
}

proof fn lemma_trimmed_end(s: Seq<char>) -> (k: int)
    ensures
        0 <= k <= s.len(),
        trim_end_spec(s) == s.take(k),
        forall|i: int| k <= i < s.len() ==> whitespace(#[trigger] s[i]),
        k > 0 ==> !whitespace(s[k - 1]),
    decreases s.len(),
{
    if s.len() > 0 && whitespace(s.last()) {
        let rest = s.drop_last();
        let k = lemma_trimmed_end(rest);
        assert(s.take(k) =~= rest.take(k));
        assert forall|i: int| k <= i < s.len() implies whitespace(#[trigger] s[i]) by {
            if i < rest.len() {
                assert(s[i] == rest[i]);
            }
        }
        k
    } else {
        assert(s.take(s.len() as int) =~= s);
        s.len() as int
    }
}

/// What is left of a trimmed text is a run of it, without white space at either end and with
/// nothing but white space before and after it.
pub proof fn law_trimming_takes_the_margins(s: Seq<char>)
    ensures
        exists|a: int, b: int|
            0 <= a <= b <= s.len() && trim_spec(s) == #[trigger] s.subrange(a, b) && (a < b
                ==> !whitespace(s[a]) && !whitespace(s[b - 1])) && (forall|i: int|
                0 <= i < a || b <= i < s.len() ==> whitespace(#[trigger] s[i])),
{
    let a = lemma_trimmed_start(s);
    let t = s.skip(a);
    let k = lemma_trimmed_end(t);
    let b = a + k;
    assert(t.take(k) =~= s.subrange(a, b));
    assert forall|i: int| 0 <= i < a || b <= i < s.len() implies whitespace(#[trigger] s[i]) by {
        if i >= b {
            assert(t[i - a] == s[i]);
        }
    }
    if k > 0 {
        assert(t[k - 1] == s[b - 1]);
        assert(a < s.len());
    }
}

/// A text of white space alone comes to nothing, and any other to something.
pub proof fn law_blank_is_nothing(s: Seq<char>)
    ensures
        trim_spec(s).len() == 0 <==> forall|i: int| 0 <= i < s.len() ==> whitespace(#[trigger] s[i]),
{
    let a = lemma_trimmed_start(s);
    let t = s.skip(a);
    let k = lemma_trimmed_end(t);
    if k > 0 {
        assert(!whitespace(s[a + k - 1]));
    } else {
        assert forall|i: int| 0 <= i < s.len() implies whitespace(#[trigger] s[i]) by {
            if i >= a {
                assert(t[i - a] == s[i]);
            }
        }
    }
}

/// A digit more makes a number ten times as large, and adds the digit.
pub proof fn law_digits_count_by_tens(s: Seq<char>, c: char)
    requires
        '0' <= c <= '9',
    ensures
        digits_value(s.push(c)) == 10 * digits_value(s) + (c as int - 48),
        digits_value(seq![]) == 0,
{
    assert(s.push(c).drop_last() =~= s);
}

/// A number is read where it is written in digits, with or without a plus sign in front, and is
/// not too large; nothing else is read as one.
pub proof fn law_numbers_are_digits(s: Seq<char>, max: nat)
    requires
        s.len() > 0,
    ensures
        parse_unsigned(s, max) matches Some(n) ==> n <= max,
        '0' <= s[0] <= '9' ==> parse_unsigned(seq!['+'] + s, max) == parse_unsigned(s, max),
        (exists|i: int| 1 <= i < s.len() && !('0' <= #[trigger] s[i] <= '9')) ==> parse_unsigned(
            s,
            max,
        ) is None,
        !('0' <= s[0] <= '9') && s[0] != '+' ==> parse_unsigned(s, max) is None,
        s.len() == 1 && s[0] == '+' ==> parse_unsigned(s, max) is None,
        parse_unsigned(seq![], max) is None,
{
    let signed = seq!['+'] + s;
    assert(signed.skip(1) =~= s);
    if exists|i: int| 1 <= i < s.len() && !('0' <= #[trigger] s[i] <= '9') {
        let i = choose|i: int| 1 <= i < s.len() && !('0' <= #[trigger] s[i] <= '9');
        if s[0] == '+' {
            assert(number_digits(s)[i - 1] == s[i]);
            assert(!is_digit(number_digits(s)[i - 1]));
        } else {
            assert(!is_digit(number_digits(s)[i]));
        }
    }
    if !('0' <= s[0] <= '9') && s[0] != '+' {
        assert(!is_digit(number_digits(s)[0]));
    }
}

/// Hexadecimal digits are those of the number, four bits each, the lowest last and as many as are
/// asked for.
pub proof fn law_hex_digits_are_the_numbers(n: nat, d: nat, width: nat)
    requires
        d < 16,
    ensures
        hex_fixed(n, width).len() == width,
        hex_fixed(16 * n + d, width + 1).drop_last() == hex_fixed(n, width),
        d < 10 ==> hex_fixed(16 * n + d, width + 1).last() as int == 48 + d,
        d >= 10 ==> hex_fixed(16 * n + d, width + 1).last() as int == 97 + (d - 10),
    decreases width,
{
    let m = 16 * n + d;
    assert(m / 16 == n && m % 16 == d);
    assert(hex_fixed(m, width + 1) == hex_fixed(n, width).push(hex_char(d as int)));
    assert(hex_fixed(m, width + 1).drop_last() =~= hex_fixed(n, width));
    if width > 0 {
        law_hex_digits_are_the_numbers(n / 16, n % 16, (width - 1) as nat);
        assert(16 * (n / 16) + n % 16 == n);
    }
}

} // verus!
