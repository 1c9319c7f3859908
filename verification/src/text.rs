//! Decimal text: rendering and parsing of unsigned numbers, and trimming of
//! Unicode white space.
use vstd::prelude::*;

verus! {

/// The character of a decimal digit `d` (`0 <= d < 10`).
pub open spec fn digit_char(d: nat) -> char {
    if d == 0 { '0' }
    else if d == 1 { '1' }
    else if d == 2 { '2' }
    else if d == 3 { '3' }
    else if d == 4 { '4' }
    else if d == 5 { '5' }
    else if d == 6 { '6' }
    else if d == 7 { '7' }
    else if d == 8 { '8' }
    else { '9' }
}

/// The decimal representation of `n`, most significant digit first, with no
/// leading zeros (zero itself is `"0"`).
pub open spec fn decimal(n: nat) -> Seq<char>
    decreases n,
{
    if n < 10 {
        seq![digit_char(n)]
    } else {
        decimal(n / 10).push(digit_char(n % 10))
    }
}

fn digit_str(d: u32) -> (s: &'static str)
    requires
        d < 10,
    ensures
        s@ == seq![digit_char(d as nat)],
{
    proof {
        reveal_strlit("0");
        reveal_strlit("1");
        reveal_strlit("2");
        reveal_strlit("3");
        reveal_strlit("4");
        reveal_strlit("5");
        reveal_strlit("6");
        reveal_strlit("7");
        reveal_strlit("8");
        reveal_strlit("9");
    }
    if d == 0 { "0" }
    else if d == 1 { "1" }
    else if d == 2 { "2" }
    else if d == 3 { "3" }
    else if d == 4 { "4" }
    else if d == 5 { "5" }
    else if d == 6 { "6" }
    else if d == 7 { "7" }
    else if d == 8 { "8" }
    else { "9" }
}

/// The decimal representation of a signed `n`: a `-` before the digits of
/// its magnitude when it is negative.
pub open spec fn signed_decimal(n: int) -> Seq<char> {
    if n < 0 {
        seq!['-'] + decimal((-n) as nat)
    } else {
        decimal(n as nat)
    }
}

/// Appends the decimal representation of `n` to `out`.
pub fn push_decimal(out: &mut String, n: u32)
    ensures
        final(out)@ == old(out)@ + decimal(n as nat),
    decreases n,
{
    if n >= 10 {
        push_decimal(out, n / 10);
    }
    let d = digit_str(n % 10);
    out.append(d);
    proof {
        if n >= 10 {
            assert(decimal(n as nat) == decimal((n / 10) as nat).push(digit_char((n % 10) as nat)));
        }
    }
}

/// The decimal representation of `n` as a new string.
pub fn to_decimal(n: u32) -> (s: String)
    ensures
        s@ == decimal(n as nat),
{
    let mut s = String::new();
    push_decimal(&mut s, n);
    s
}


/// Appends the decimal representation of the signed `n` to `out`.
pub fn push_signed_decimal(out: &mut String, n: i32)
    ensures
        final(out)@ == old(out)@ + signed_decimal(n as int),
{
    if n < 0 {
        proof {
            reveal_strlit("-");
        }
        out.append("-");
        let magnitude: u32 = if n == i32::MIN { 2147483648u32 } else { (-n) as u32 };
        push_decimal(out, magnitude);
        assert(out@ == old(out)@ + signed_decimal(n as int));
    } else {
        push_decimal(out, n as u32);
    }
}

/// Unicode `White_Space`: the characters that `char::is_whitespace` accepts.
pub open spec fn is_white_space(c: char) -> bool {
    let v = c as u32;
    ||| 0x9 <= v <= 0xd
    ||| v == 0x20
    ||| v == 0x85
    ||| v == 0xa0
    ||| v == 0x1680
    ||| 0x2000 <= v <= 0x200a
    ||| v == 0x2028
    ||| v == 0x2029
    ||| v == 0x202f
    ||| v == 0x205f
    ||| v == 0x3000
}

/// Whether `c` is Unicode white space.
pub fn white_space(c: char) -> (b: bool)
    ensures
        b == is_white_space(c),
{
    let v = c as u32;
    (0x9 <= v && v <= 0xd) || v == 0x20 || v == 0x85 || v == 0xa0 || v == 0x1680
        || (0x2000 <= v && v <= 0x200a) || v == 0x2028 || v == 0x2029 || v == 0x202f
        || v == 0x205f || v == 0x3000
}

/// `s` without its leading white space.
pub open spec fn trim_start(s: Seq<char>) -> Seq<char>
    decreases s.len(),
{
    if s.len() > 0 && is_white_space(s[0]) {
        trim_start(s.drop_first())
    } else {
        s
    }
}

/// `s` without its trailing white space.
pub open spec fn trim_end(s: Seq<char>) -> Seq<char>
    decreases s.len(),
{
    if s.len() > 0 && is_white_space(s.last()) {
        trim_end(s.drop_last())
    } else {
        s
    }
}

/// `s` without its leading and trailing white space (what `str::trim` gives).
pub open spec fn trim(s: Seq<char>) -> Seq<char> {
    trim_end(trim_start(s))
}

/// Whether `c` is one of the ASCII digits `0` to `9`.
pub open spec fn is_digit(c: char) -> bool {
    '0' <= c && c <= '9'
}

/// The value of the ASCII digit `c`.
pub open spec fn digit_value(c: char) -> nat {
    ((c as u32) - ('0' as u32)) as nat
}

/// The value of a sequence of ASCII digits read in base ten.
pub open spec fn digits_value(s: Seq<char>) -> nat
    decreases s.len(),
{
    if s.len() == 0 {
        0
    } else {
        digits_value(s.drop_last()) * 10 + digit_value(s.last())
    }
}

/// `s` without a leading `+` sign, if it has one.
pub open spec fn unsigned_digits(s: Seq<char>) -> Seq<char> {
    if s.len() > 0 && s[0] == '+' { s.drop_first() } else { s }
}

/// Whether every character of `s` is an ASCII digit.
pub open spec fn all_digits(s: Seq<char>) -> bool {
    forall|i: int| 0 <= i < s.len() ==> is_digit(#[trigger] s[i])
}

/// What `str::parse::<u16>` gives: an optional `+` sign followed by at least
/// one ASCII digit, whose value must fit in 16 bits.
pub open spec fn parse_u16(s: Seq<char>) -> Option<u16> {
    let digits = unsigned_digits(s);
    if digits.len() == 0 || !all_digits(digits) || digits_value(digits) > u16::MAX {
        None
    } else {
        Some(digits_value(digits) as u16)
    }
}

/// The characters of `s`, read in one pass.
pub fn chars_of(s: &str) -> (v: Vec<char>)
    ensures
        v@ == s@,
{
    broadcast use vstd::string::group_string_axioms;
    let mut v: Vec<char> = Vec::new();
    for c in it: s.chars()
        invariant
            v@ == it.seq().take(it.index() as int),
    {
        v.push(c);
    }
    v
}

/// The bounds `(start, end)` of `s` trimmed: `s[start..end]` is `trim(s)`.
pub fn trim_bounds(s: &Vec<char>) -> (r: (usize, usize))
    ensures
        r.0 <= r.1 <= s@.len(),
        s@.subrange(r.0 as int, r.1 as int) == trim(s@),
{
    let n = s.len();
    let mut i: usize = 0;
    assert(s@.subrange(0, n as int) == s@);
    while i < n && white_space(s[i])
        invariant
            n == s@.len(),
            i <= n,
            trim_start(s@) == trim_start(s@.subrange(i as int, n as int)),
        decreases n - i,
    {
        assert(s@.subrange(i as int, n as int).drop_first() == s@.subrange(i + 1, n as int));
        i = i + 1;
    }
    assert(trim_start(s@) == s@.subrange(i as int, n as int));
    let mut j: usize = n;
    while j > i && white_space(s[j - 1])
        invariant
            n == s@.len(),
            i <= j <= n,
            trim(s@) == trim_end(s@.subrange(i as int, j as int)),
        decreases j - i,
    {
        assert(s@.subrange(i as int, j as int).drop_last() == s@.subrange(i as int, j - 1));
        j = j - 1;
    }
    (i, j)
}

/// Parses `s[start..end]` as `str::parse::<u16>` does.
pub fn parse_u16_range(s: &Vec<char>, start: usize, end: usize) -> (r: Option<u16>)
    requires
        start <= end <= s@.len(),
    ensures
        r == parse_u16(s@.subrange(start as int, end as int)),
{
    let ghost t = s@.subrange(start as int, end as int);
    let mut i = start;
    if i < end && s[i] == '+' {
        i = i + 1;
    }
    let ghost digits = s@.subrange(i as int, end as int);
    assert(digits == unsigned_digits(t));
    if i == end {
        return None;
    }
    // The value read so far, held at 65536 once it is past the 16-bit range.
    let mut acc: u32 = 0;
    let mut k = i;
    while k < end
        invariant
            start <= i <= k <= end <= s@.len(),
            digits == s@.subrange(i as int, end as int),
            digits == unsigned_digits(t),
            t == s@.subrange(start as int, end as int),
            forall|m: int| i <= m < k ==> is_digit(#[trigger] s@[m]),
            acc <= 65536,
            acc == (if digits_value(s@.subrange(i as int, k as int)) > 65536 { 65536 }
                else { digits_value(s@.subrange(i as int, k as int)) }),
        decreases end - k,
    {
        let c = s[k];
        if c < '0' || c > '9' {
            assert(digits[k - i] == s@[k as int]);
            assert(!all_digits(digits));
            return None;
        }
        let d = (c as u32) - ('0' as u32);
        let ghost prefix = s@.subrange(i as int, k + 1);
        assert(prefix.drop_last() == s@.subrange(i as int, k as int));
        assert(digits_value(prefix) == digits_value(s@.subrange(i as int, k as int)) * 10 + d);
        acc = acc * 10 + d;
        if acc > 65536 {
            acc = 65536;
        }
        k = k + 1;
    }
    assert(s@.subrange(i as int, end as int) == digits);
    assert forall|m: int| 0 <= m < digits.len() implies is_digit(#[trigger] digits[m]) by {
        assert(digits[m] == s@[i + m]);
    }
    if acc > 65535 {
        None
    } else {
        Some(acc as u16)
    }
}

proof fn digit_char_is_digit(d: nat)
    requires
        d < 10,
    ensures
        is_digit(digit_char(d)),
        digit_value(digit_char(d)) == d,
        !is_white_space(digit_char(d)),
        digit_char(d) != '+',
{
}

/// The decimal representation of `n` is a nonempty run of ASCII digits whose
/// value is `n`.
pub proof fn decimal_is_digits(n: nat)
    ensures
        decimal(n).len() >= 1,
        all_digits(decimal(n)),
        digits_value(decimal(n)) == n,
    decreases n,
{
    if n < 10 {
        digit_char_is_digit(n);
        assert(decimal(n).drop_last() =~= Seq::<char>::empty());
        assert(digits_value(Seq::<char>::empty()) == 0);
        assert(decimal(n).last() == digit_char(n));
    } else {
        decimal_is_digits(n / 10);
        digit_char_is_digit(n % 10);
        let s = decimal(n);
        assert(s.drop_last() == decimal(n / 10));
        assert(s.last() == digit_char(n % 10));
        assert(digits_value(s) == (n / 10) * 10 + n % 10);
        assert forall|i: int| 0 <= i < s.len() implies is_digit(#[trigger] s[i]) by {
            if i < s.len() - 1 {
                assert(s[i] == decimal(n / 10)[i]);
            }
        }
    }
}

/// Reading back the decimal representation of a 16-bit number, as the
/// answer of the random number service is read (surrounding white space
/// removed, then parsed), gives that number again.
pub proof fn decimal_reads_back(n: u16)
    ensures
        trim(decimal(n as nat)) == decimal(n as nat),
        parse_u16(trim(decimal(n as nat))) == Some(n),
{
    let s = decimal(n as nat);
    decimal_is_digits(n as nat);
    assert(is_digit(s[0]));
    assert(is_digit(s.last()));
    assert(trim_start(s) == s);
    assert(trim_end(s) == s);
    assert(unsigned_digits(s) == s);
}


/// The decimal representation of a number has no leading zero: its first
/// digit is `0` only when the number is zero itself.
pub proof fn decimal_has_no_leading_zero(n: nat)
    ensures
        decimal(n)[0] == '0' <==> n == 0,
        decimal(n)[0] == '0' ==> decimal(n).len() == 1,
    decreases n,
{
    if n >= 10 {
        decimal_has_no_leading_zero(n / 10);
        decimal_is_digits(n / 10);
        assert(decimal(n)[0] == decimal(n / 10)[0]);
    }
}

/// Whether every character of `w` is white space.
pub open spec fn all_white_space(w: Seq<char>) -> bool {
    forall|i: int| 0 <= i < w.len() ==> is_white_space(#[trigger] w[i])
}

proof fn trim_end_ignores_white_suffix(t: Seq<char>, w: Seq<char>)
    requires
        all_white_space(w),
    ensures
        trim_end(t + w) == trim_end(t),
    decreases w.len(),
{
    if w.len() == 0 {
        assert(t + w =~= t);
    } else {
        assert((t + w).last() == w.last());
        assert((t + w).drop_last() =~= t + w.drop_last());
        trim_end_ignores_white_suffix(t, w.drop_last());
    }
}

proof fn trim_start_of_white_is_empty(w: Seq<char>)
    requires
        all_white_space(w),
    ensures
        trim_start(w).len() == 0,
    decreases w.len(),
{
    if w.len() > 0 {
        trim_start_of_white_is_empty(w.drop_first());
    }
}

proof fn trim_start_of_concat(s: Seq<char>, w: Seq<char>)
    requires
        all_white_space(w),
    ensures
        trim_start(s + w) == trim_start(s) + w || (trim_start(s).len() == 0 && trim_start(s + w).len()
            == 0),
    decreases s.len(),
{
    if s.len() == 0 {
        assert(s + w =~= w);
        trim_start_of_white_is_empty(w);
    } else if is_white_space(s[0]) {
        assert((s + w)[0] == s[0]);
        assert((s + w).drop_first() =~= s.drop_first() + w);
        trim_start_of_concat(s.drop_first(), w);
    } else {
        assert((s + w)[0] == s[0]);
    }
}

proof fn trim_start_ignores_white_prefix(w: Seq<char>, s: Seq<char>)
    requires
        all_white_space(w),
    ensures
        trim_start(w + s) == trim_start(s),
    decreases w.len(),
{
    if w.len() == 0 {
        assert(w + s =~= s);
    } else {
        assert((w + s)[0] == w[0]);
        assert((w + s).drop_first() =~= w.drop_first() + s);
        trim_start_ignores_white_prefix(w.drop_first(), s);
    }
}

/// Trimming ignores white space around the text: adding white space before
/// or after `s` does not change what `trim` gives, and a text that neither
/// starts nor ends with white space is left as it is.
pub proof fn trim_ignores_surrounding_white_space(w: Seq<char>, s: Seq<char>, v: Seq<char>)
    requires
        all_white_space(w),
        all_white_space(v),
    ensures
        trim(w + s + v) == trim(s),
        s.len() > 0 && !is_white_space(s[0]) && !is_white_space(s.last()) ==> trim(s) == s,
        all_white_space(s) ==> trim(s).len() == 0,
{
    if all_white_space(s) {
        trim_start_of_white_is_empty(s);
    }
    trim_start_ignores_white_prefix(w, s + v);
    assert(w + s + v =~= w + (s + v));
    trim_start_of_concat(s, v);
    if trim_start(s + v) == trim_start(s) + v {
        trim_end_ignores_white_suffix(trim_start(s), v);
    } else {
        assert(trim_start(s + v) =~= Seq::<char>::empty());
        assert(trim_start(s) =~= Seq::<char>::empty());
    }
}

/// A number in base ten followed by a line break, as the random number
/// service answers it, reads back as that number.
pub proof fn decimal_line_reads_back(n: u16)
    ensures
        parse_u16(trim(decimal(n as nat) + seq!['\n'])) == Some(n),
{
    let e = Seq::<char>::empty();
    let nl = seq!['\n'];
    assert(all_white_space(e));
    assert(all_white_space(nl)) by {
        assert(is_white_space(nl[0]));
    }
    trim_ignores_surrounding_white_space(e, decimal(n as nat), nl);
    assert(e + decimal(n as nat) + nl =~= decimal(n as nat) + nl);
    decimal_reads_back(n);
}


/// What `parse_u16` rejects and accepts: an empty text, a text with a
/// character other than a digit anywhere but a leading `+`, and a value past
/// 65535 are rejected; a number in base ten, with or without a leading `+`,
/// reads as itself.
pub proof fn parse_u16_accepts_only_numbers(s: Seq<char>, n: u16)
    ensures
        s.len() == 0 ==> parse_u16(s) is None,
        (exists|i: int| 1 <= i < s.len() && !is_digit(#[trigger] s[i])) ==> parse_u16(s) is None,
        s.len() > 0 && s[0] != '+' && !is_digit(s[0]) ==> parse_u16(s) is None,
        s.len() > 0 && all_digits(s) && digits_value(s) > 65535 ==> parse_u16(s) is None,
        parse_u16(s) matches Some(v) ==> s.len() > 0 && (s[0] == '+' || is_digit(s[0])),
        parse_u16(decimal(n as nat)) == Some(n),
        parse_u16(seq!['+'] + decimal(n as nat)) == Some(n),
{
    if exists|i: int| 1 <= i < s.len() && !is_digit(#[trigger] s[i]) {
        let i = choose|i: int| 1 <= i < s.len() && !is_digit(#[trigger] s[i]);
        let d = unsigned_digits(s);
        if s[0] == '+' {
            assert(d[i - 1] == s[i]);
        } else {
            assert(d[i] == s[i]);
        }
    }
    if s.len() > 0 && s[0] != '+' && !is_digit(s[0]) {
        assert(unsigned_digits(s)[0] == s[0]);
    }
    if s.len() > 0 && all_digits(s) {
        assert(s[0] != '+');
    }
    decimal_reads_back(n);
    decimal_is_digits(n as nat);
    let p = seq!['+'] + decimal(n as nat);
    assert(p.drop_first() =~= decimal(n as nat));
}

} // verus!
