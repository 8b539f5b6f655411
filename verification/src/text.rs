use vstd::prelude::*;

verus! {

/// Appends one character to a string.
#[verifier::external_body]
pub(crate) fn push_char(s: &mut String, c: char)
    ensures
        final(s)@ == old(s)@.push(c),
{
    s.push(c);
}

/// The characters of a string slice, in order.
pub fn chars_of(s: &str) -> (r: Vec<char>)
    ensures
        r@ == s@,
{
    let mut r: Vec<char> = Vec::new();
    for c in it: s.chars()
        invariant
            r@ == it.seq().take(it.index() as int),
            it.seq() == s@,
    {
        r.push(c);
    }
    r
}

/// Builds a string from a sequence of characters.
pub fn string_of(cs: &[char]) -> (r: String)
    ensures
        r@ == cs@,
{
    let mut r = String::new();
    let mut i: usize = 0;
    while i < cs.len()
        invariant
            i <= cs@.len(),
            r@ == cs@.take(i as int),
        decreases cs@.len() - i,
    {
        push_char(&mut r, cs[i]);
        i = i + 1;
        assert(r@ =~= cs@.take(i as int));
    }
    assert(cs@.take(cs@.len() as int) =~= cs@);
    r
}

}

verus! {

/// An ASCII decimal digit.
pub open spec fn is_dec_digit(c: char) -> bool {
    '0' <= c && c <= '9'
}

/// An ASCII hexadecimal digit, in either case.
pub open spec fn is_hex_digit(c: char) -> bool {
    is_dec_digit(c) || ('a' <= c && c <= 'f') || ('A' <= c && c <= 'F')
}

pub open spec fn dec_digit_value(c: char) -> nat {
    (c as int - '0' as int) as nat
}

pub open spec fn hex_digit_value(c: char) -> nat {
    if is_dec_digit(c) {
        dec_digit_value(c)
    } else if 'a' <= c && c <= 'f' {
        (c as int - 'a' as int + 10) as nat
    } else {
        (c as int - 'A' as int + 10) as nat
    }
}

/// Length of the longest run of decimal digits of `s` that starts at `i`.
pub open spec fn dec_run(s: Seq<char>, i: int) -> nat
    decreases s.len() - i,
{
    if 0 <= i < s.len() && is_dec_digit(s[i]) {
        1 + dec_run(s, i + 1)
    } else {
        0
    }
}

/// Length of the longest run of hexadecimal digits of `s` that starts at `i`.
pub open spec fn hex_run(s: Seq<char>, i: int) -> nat
    decreases s.len() - i,
{
    if 0 <= i < s.len() && is_hex_digit(s[i]) {
        1 + hex_run(s, i + 1)
    } else {
        0
    }
}

/// The number written in decimal by the `n` characters of `s` from `i`.
pub open spec fn dec_value(s: Seq<char>, i: int, n: nat) -> nat
    decreases n,
{
    if n == 0 {
        0
    } else {
        dec_value(s, i, (n - 1) as nat) * 10 + dec_digit_value(s[i + n - 1])
    }
}

/// The number written in hexadecimal by the `n` characters of `s` from `i`.
pub open spec fn hex_value(s: Seq<char>, i: int, n: nat) -> nat
    decreases n,
{
    if n == 0 {
        0
    } else {
        hex_value(s, i, (n - 1) as nat) * 16 + hex_digit_value(s[i + n - 1])
    }
}

pub fn is_dec_digit_exec(c: char) -> (r: bool)
    ensures
        r == is_dec_digit(c),
{
    '0' <= c && c <= '9'
}

pub fn is_hex_digit_exec(c: char) -> (r: bool)
    ensures
        r == is_hex_digit(c),
{
    ('0' <= c && c <= '9') || ('a' <= c && c <= 'f') || ('A' <= c && c <= 'F')
}

pub fn dec_digit_value_exec(c: char) -> (r: u32)
    requires
        is_dec_digit(c),
    ensures
        r == dec_digit_value(c),
        r < 10,
{
    (c as u32) - ('0' as u32)
}

pub fn hex_digit_value_exec(c: char) -> (r: u32)
    requires
        is_hex_digit(c),
    ensures
        r == hex_digit_value(c),
        r < 16,
{
    if '0' <= c && c <= '9' {
        (c as u32) - ('0' as u32)
    } else if 'a' <= c && c <= 'f' {
        (c as u32) - ('a' as u32) + 10
    } else {
        (c as u32) - ('A' as u32) + 10
    }
}

/// Length of the run of decimal digits of `s` from `i`.
pub fn dec_run_exec(s: &[char], i: usize) -> (n: usize)
    requires
        i <= s@.len(),
    ensures
        n == dec_run(s@, i as int),
        i + n <= s@.len(),
{
    let mut j = i;
    while j < s.len() && is_dec_digit_exec(s[j])
        invariant
            i <= j <= s@.len(),
            dec_run(s@, i as int) == (j - i) + dec_run(s@, j as int),
        decreases s@.len() - j,
    {
        j = j + 1;
    }
    j - i
}

/// Length of the run of hexadecimal digits of `s` from `i`.
pub fn hex_run_exec(s: &[char], i: usize) -> (n: usize)
    requires
        i <= s@.len(),
    ensures
        n == hex_run(s@, i as int),
        i + n <= s@.len(),
{
    let mut j = i;
    while j < s.len() && is_hex_digit_exec(s[j])
        invariant
            i <= j <= s@.len(),
            hex_run(s@, i as int) == (j - i) + hex_run(s@, j as int),
        decreases s@.len() - j,
    {
        j = j + 1;
    }
    j - i
}

pub proof fn lemma_dec_run_digits(s: Seq<char>, i: int, k: int)
    requires
        0 <= k < dec_run(s, i),
    ensures
        0 <= i + k < s.len(),
        is_dec_digit(s[i + k]),
    decreases k,
{
    if k > 0 {
        lemma_dec_run_digits(s, i + 1, k - 1);
    }
}

pub proof fn lemma_hex_run_digits(s: Seq<char>, i: int, k: int)
    requires
        0 <= k < hex_run(s, i),
    ensures
        0 <= i + k < s.len(),
        is_hex_digit(s[i + k]),
    decreases k,
{
    if k > 0 {
        lemma_hex_run_digits(s, i + 1, k - 1);
    }
}

pub proof fn lemma_dec_value_monotone(s: Seq<char>, i: int, m: nat, n: nat)
    requires
        m <= n,
    ensures
        dec_value(s, i, m) <= dec_value(s, i, n),
    decreases n,
{
    if m < n {
        lemma_dec_value_monotone(s, i, m, (n - 1) as nat);
    }
}

pub proof fn lemma_hex_value_bound(s: Seq<char>, i: int, n: nat)
    requires
        forall|k: int| 0 <= k < n ==> is_hex_digit(#[trigger] s[i + k]),
    ensures
        n <= 4 ==> hex_value(s, i, n) < 65536,
        n == 0 ==> hex_value(s, i, n) == 0,
        n <= 1 ==> hex_value(s, i, n) < 16,
        n <= 2 ==> hex_value(s, i, n) < 256,
        n <= 3 ==> hex_value(s, i, n) < 4096,
    decreases n,
{
    if n > 0 {
        lemma_hex_value_bound(s, i, (n - 1) as nat);
        assert(is_hex_digit(s[i + (n - 1)]));
    }
}

/// Reads the decimal number of at most `max` (at most three) digits at `i`:
/// the whole run of digits must be at most `max` long and its value below `bound`.
pub fn read_dec_bounded(s: &[char], i: usize, max: usize, bound: u32) -> (r: Option<(u32, usize)>)
    requires
        i <= s@.len(),
        max <= 3,
    ensures
        r matches Some((_, e)) ==> e <= s@.len(),
        ({
            let n = dec_run(s@, i as int);
            match r {
                Some((v, e)) => 0 < n <= max && dec_value(s@, i as int, n) < bound
                    && v == dec_value(s@, i as int, n) && e == i + n,
                None => n == 0 || n > max || dec_value(s@, i as int, n) >= bound,
            }
        }),
{
    let n = dec_run_exec(s, i);
    if n == 0 || n > max {
        return None;
    }
    let mut v: u32 = 0;
    let mut k: usize = 0;
    while k < n
        invariant
            k <= n <= max <= 3,
            i + n <= s.len(),
            n == dec_run(s@, i as int),
            v == dec_value(s@, i as int, k as nat),
            k == 0 ==> v == 0,
            k <= 1 ==> v < 10,
            k <= 2 ==> v < 100,
            v < 1000,
        decreases n - k,
    {
        proof {
            lemma_dec_run_digits(s@, i as int, k as int);
        }
        let d = dec_digit_value_exec(s[i + k]);
        v = v * 10 + d;
        k = k + 1;
    }
    if v < bound {
        Some((v, i + n))
    } else {
        None
    }
}

/// Reads a decimal number of any number of digits at `i`, as the run of
/// digits there; `None` where there is no digit or the value exceeds `u16`.
pub fn read_dec_u16(s: &[char], i: usize) -> (r: Option<(u16, usize)>)
    requires
        i <= s@.len(),
    ensures
        r matches Some((_, e)) ==> e <= s@.len(),
        ({
            let n = dec_run(s@, i as int);
            match r {
                Some((v, e)) => 0 < n && v == dec_value(s@, i as int, n) && e == i + n,
                None => n == 0 || dec_value(s@, i as int, n) > 65535,
            }
        }),
{
    let n = dec_run_exec(s, i);
    if n == 0 {
        return None;
    }
    let mut v: u32 = 0;
    let mut k: usize = 0;
    while k < n
        invariant
            k <= n,
            i + n <= s.len(),
            n == dec_run(s@, i as int),
            v == dec_value(s@, i as int, k as nat),
            v <= 65535,
        decreases n - k,
    {
        proof {
            lemma_dec_run_digits(s@, i as int, k as int);
        }
        let d = dec_digit_value_exec(s[i + k]);
        if v * 10 + d > 65535 {
            proof {
                lemma_dec_value_monotone(s@, i as int, (k + 1) as nat, n as nat);
            }
            return None;
        }
        v = v * 10 + d;
        k = k + 1;
    }
    Some((v as u16, i + n))
}

/// Reads the hexadecimal number of at most four digits at `i`: the whole run
/// of digits must be at most four long.
pub fn read_hex4(s: &[char], i: usize) -> (r: Option<(u16, usize)>)
    requires
        i <= s@.len(),
    ensures
        r matches Some((_, e)) ==> e <= s@.len(),
        ({
            let n = hex_run(s@, i as int);
            match r {
                Some((v, e)) => 0 < n <= 4 && v == hex_value(s@, i as int, n) && e == i + n,
                None => n == 0 || n > 4,
            }
        }),
{
    let n = hex_run_exec(s, i);
    if n == 0 || n > 4 {
        return None;
    }
    proof {
        assert forall|j: int| 0 <= j < n implies is_hex_digit(#[trigger] s@[i + j]) by {
            lemma_hex_run_digits(s@, i as int, j);
        }
    }
    let mut v: u32 = 0;
    let mut k: usize = 0;
    while k < n
        invariant
            k <= n <= 4,
            i + n <= s@.len(),
            n == hex_run(s@, i as int),
            v == hex_value(s@, i as int, k as nat),
            forall|j: int| 0 <= j < n ==> is_hex_digit(#[trigger] s@[i + j]),
            i + n <= s.len(),
        decreases n - k,
    {
        proof {
            lemma_hex_value_bound(s@, i as int, k as nat);
        }
        let d = hex_digit_value_exec(s[i + k]);
        v = v * 16 + d;
        k = k + 1;
    }
    proof {
        lemma_hex_value_bound(s@, i as int, n as nat);
    }
    Some((v as u16, i + n))
}

}

verus! {

/// The character of a digit below sixteen, lower-case for digits above nine.
pub open spec fn digit_char(d: nat) -> char {
    if d < 10 {
        (d + 48) as char
    } else {
        (d + 87) as char
    }
}

/// Canonical decimal text of `n`: no leading zero.
pub open spec fn dec_text(n: nat) -> Seq<char>
    decreases n,
{
    if n < 10 {
        seq![digit_char(n)]
    } else {
        dec_text(n / 10).push(digit_char(n % 10))
    }
}

/// Canonical lower-case hexadecimal text of `n`: no leading zero.
pub open spec fn hex_text(n: nat) -> Seq<char>
    decreases n,
{
    if n < 16 {
        seq![digit_char(n)]
    } else {
        hex_text(n / 16).push(digit_char(n % 16))
    }
}

pub fn digit_char_exec(d: u32) -> (c: char)
    requires
        d < 16,
    ensures
        c == digit_char(d as nat),
{
    if d < 10 {
        ((d + 48) as u8) as char
    } else {
        ((d + 87) as u8) as char
    }
}

/// Appends the decimal text of `n`.
pub fn push_dec(out: &mut Vec<char>, n: u32)
    ensures
        final(out)@ == old(out)@ + dec_text(n as nat),
    decreases n,
{
    if n >= 10 {
        push_dec(out, n / 10);
    }
    let c = digit_char_exec(n % 10);
    out.push(c);
    proof {
        if n >= 10 {
            assert(dec_text(n as nat) == dec_text((n / 10) as nat).push(digit_char((n % 10) as nat)));
        }
    }
    assert(final(out)@ =~= old(out)@ + dec_text(n as nat));
}

/// Appends the lower-case hexadecimal text of `n`.
pub fn push_hex(out: &mut Vec<char>, n: u32)
    ensures
        final(out)@ == old(out)@ + hex_text(n as nat),
    decreases n,
{
    if n >= 16 {
        push_hex(out, n / 16);
    }
    let c = digit_char_exec(n % 16);
    out.push(c);
    assert(final(out)@ =~= old(out)@ + hex_text(n as nat));
}

/// Appends every character of `cs`.
pub fn push_all(out: &mut Vec<char>, cs: &[char])
    ensures
        final(out)@ == old(out)@ + cs@,
{
    let mut i: usize = 0;
    while i < cs.len()
        invariant
            i <= cs@.len(),
            out@ == old(out)@ + cs@.take(i as int),
        decreases cs@.len() - i,
    {
        out.push(cs[i]);
        i = i + 1;
        assert(out@ =~= old(out)@ + cs@.take(i as int));
    }
    assert(cs@.take(cs@.len() as int) =~= cs@);
}

/// Appends every character of `s`.
pub fn push_str(out: &mut Vec<char>, s: &str)
    ensures
        final(out)@ == old(out)@ + s@,
{
    let cs = chars_of(s);
    push_all(out, cs.as_slice());
}

}

verus! {

pub proof fn lemma_digit_char(d: nat)
    requires
        d < 16,
    ensures
        is_hex_digit(digit_char(d)),
        hex_digit_value(digit_char(d)) == d,
        d < 10 ==> is_dec_digit(digit_char(d)) && dec_digit_value(digit_char(d)) == d,
        d >= 10 ==> !is_dec_digit(digit_char(d)),
        digit_char(d) != '.' && digit_char(d) != ':',
        (digit_char(d) == '0') == (d == 0),
{
}

pub proof fn lemma_dec_text(n: nat)
    ensures
        dec_text(n).len() >= 1,
        forall|k: int| 0 <= k < dec_text(n).len() ==> is_dec_digit(#[trigger] dec_text(n)[k]),
        n >= 1 ==> dec_text(n)[0] != '0',
        n < 10 ==> dec_text(n).len() == 1,
        n < 100 ==> dec_text(n).len() <= 2,
        n < 1000 ==> dec_text(n).len() <= 3,
        n >= 10 ==> dec_text(n).len() >= 2,
    decreases n,
{
    lemma_digit_char(n % 10);
    if n >= 10 {
        lemma_dec_text(n / 10);
        let t = dec_text(n / 10);
        assert(dec_text(n) == t.push(digit_char(n % 10)));
        assert forall|k: int| 0 <= k < dec_text(n).len() implies is_dec_digit(
            #[trigger] dec_text(n)[k],
        ) by {
            if k < t.len() {
                assert(dec_text(n)[k] == t[k]);
            }
        }
    } else {
        lemma_digit_char(n);
    }
}

pub proof fn lemma_hex_text(n: nat)
    ensures
        hex_text(n).len() >= 1,
        forall|k: int| 0 <= k < hex_text(n).len() ==> is_hex_digit(#[trigger] hex_text(n)[k]),
        forall|k: int|
            0 <= k < hex_text(n).len() ==> #[trigger] hex_text(n)[k] != '.' && hex_text(n)[k]
                != ':',
        n < 16 ==> hex_text(n).len() == 1,
        n < 256 ==> hex_text(n).len() <= 2,
        n < 4096 ==> hex_text(n).len() <= 3,
        n < 65536 ==> hex_text(n).len() <= 4,
    decreases n,
{
    lemma_digit_char(n % 16);
    if n >= 16 {
        lemma_hex_text(n / 16);
        let t = hex_text(n / 16);
        assert(hex_text(n) == t.push(digit_char(n % 16)));
        assert forall|k: int| 0 <= k < hex_text(n).len() implies is_hex_digit(
            #[trigger] hex_text(n)[k],
        ) && hex_text(n)[k] != '.' && hex_text(n)[k] != ':' by {
            if k < t.len() {
                assert(hex_text(n)[k] == t[k]);
            }
        }
    } else {
        lemma_digit_char(n);
    }
}

/// The digits of `dec_text(n)`, wherever they stand, have the value `n`.
pub proof fn lemma_dec_text_value(s: Seq<char>, p: int, n: nat)
    requires
        0 <= p,
        p + dec_text(n).len() <= s.len(),
        s.subrange(p, p + dec_text(n).len()) == dec_text(n),
    ensures
        dec_value(s, p, dec_text(n).len()) == n,
    decreases n,
{
    let t = dec_text(n);
    lemma_digit_char(n % 10);
    assert(s[p + t.len() - 1] == s.subrange(p, p + t.len())[t.len() - 1]);
    if n >= 10 {
        let u = dec_text(n / 10);
        assert(t == u.push(digit_char(n % 10)));
        assert(s.subrange(p, p + u.len()) =~= s.subrange(p, p + t.len()).subrange(0, u.len() as int));
        assert(u =~= t.subrange(0, u.len() as int));
        lemma_dec_text_value(s, p, n / 10);
    } else {
        lemma_digit_char(n);
        assert(dec_value(s, p, 0) == 0);
    }
}

/// The digits of `hex_text(n)`, wherever they stand, have the value `n`.
pub proof fn lemma_hex_text_value(s: Seq<char>, p: int, n: nat)
    requires
        0 <= p,
        p + hex_text(n).len() <= s.len(),
        s.subrange(p, p + hex_text(n).len()) == hex_text(n),
    ensures
        hex_value(s, p, hex_text(n).len()) == n,
    decreases n,
{
    let t = hex_text(n);
    lemma_digit_char(n % 16);
    assert(s[p + t.len() - 1] == s.subrange(p, p + t.len())[t.len() - 1]);
    if n >= 16 {
        let u = hex_text(n / 16);
        assert(t == u.push(digit_char(n % 16)));
        assert(s.subrange(p, p + u.len()) =~= s.subrange(p, p + t.len()).subrange(0, u.len() as int));
        assert(u =~= t.subrange(0, u.len() as int));
        lemma_hex_text_value(s, p, n / 16);
    } else {
        lemma_digit_char(n);
        assert(hex_value(s, p, 0) == 0);
    }
}

/// A run of exactly `m` decimal digits at `p`.
pub proof fn lemma_dec_run_exact(s: Seq<char>, p: int, m: nat)
    requires
        0 <= p,
        p + m <= s.len(),
        forall|k: int| 0 <= k < m ==> is_dec_digit(#[trigger] s[p + k]),
        p + m == s.len() || !is_dec_digit(s[p + m]),
    ensures
        dec_run(s, p) == m,
    decreases m,
{
    if m > 0 {
        assert(is_dec_digit(s[p + 0]));
        assert forall|k: int| 0 <= k < (m - 1) as nat implies is_dec_digit(#[trigger] s[(p + 1) + k]) by {
            assert(is_dec_digit(s[p + (k + 1)]));
        }
        lemma_dec_run_exact(s, p + 1, (m - 1) as nat);
    }
}

/// A run of exactly `m` hexadecimal digits at `p`.
pub proof fn lemma_hex_run_exact(s: Seq<char>, p: int, m: nat)
    requires
        0 <= p,
        p + m <= s.len(),
        forall|k: int| 0 <= k < m ==> is_hex_digit(#[trigger] s[p + k]),
        p + m == s.len() || !is_hex_digit(s[p + m]),
    ensures
        hex_run(s, p) == m,
    decreases m,
{
    if m > 0 {
        assert(is_hex_digit(s[p + 0]));
        assert forall|k: int| 0 <= k < (m - 1) as nat implies is_hex_digit(#[trigger] s[(p + 1) + k]) by {
            assert(is_hex_digit(s[p + (k + 1)]));
        }
        lemma_hex_run_exact(s, p + 1, (m - 1) as nat);
    }
}

/// A run of decimal digits ends no later than the first non-digit.
pub proof fn lemma_dec_run_le(s: Seq<char>, p: int, m: nat)
    requires
        0 <= p,
        p + m <= s.len(),
        p + m == s.len() || !is_dec_digit(s[p + m]),
    ensures
        dec_run(s, p) <= m,
    decreases m,
{
    if m > 0 && is_dec_digit(s[p]) {
        lemma_dec_run_le(s, p + 1, (m - 1) as nat);
    }
}

}

verus! {

/// Characters with the Unicode `White_Space` property.
pub open spec fn is_whitespace(c: char) -> bool {
    ('\t' <= c && c <= '\r') || c == ' ' || c == '\u{85}' || c == '\u{a0}' || c == '\u{1680}' || (
    '\u{2000}' <= c && c <= '\u{200a}') || c == '\u{2028}' || c == '\u{2029}' || c == '\u{202f}'
        || c == '\u{205f}' || c == '\u{3000}'
}

pub fn is_whitespace_exec(c: char) -> (r: bool)
    ensures
        r == is_whitespace(c),
{
    ('\t' <= c && c <= '\r') || c == ' ' || c == '\u{85}' || c == '\u{a0}' || c == '\u{1680}' || (
    '\u{2000}' <= c && c <= '\u{200a}') || c == '\u{2028}' || c == '\u{2029}' || c == '\u{202f}'
        || c == '\u{205f}' || c == '\u{3000}'
}

pub open spec fn trim_start(s: Seq<char>) -> Seq<char>
    decreases s.len(),
{
    if s.len() > 0 && is_whitespace(s[0]) {
        trim_start(s.drop_first())
    } else {
        s
    }
}

pub open spec fn trim_end(s: Seq<char>) -> Seq<char>
    decreases s.len(),
{
    if s.len() > 0 && is_whitespace(s.last()) {
        trim_end(s.drop_last())
    } else {
        s
    }
}

/// `s` without the whitespace at either end.
pub open spec fn trim(s: Seq<char>) -> Seq<char> {
    trim_end(trim_start(s))
}

/// The pieces of `s` between the occurrences of `c`; one piece more than
/// there are occurrences.
pub open spec fn split_on(s: Seq<char>, c: char) -> Seq<Seq<char>>
    decreases s.len(),
{
    if s.len() == 0 {
        seq![Seq::<char>::empty()]
    } else {
        let r = split_on(s.drop_last(), c);
        if s.last() == c {
            r.push(Seq::<char>::empty())
        } else {
            r.update(r.len() - 1, r.last().push(s.last()))
        }
    }
}

pub proof fn lemma_split_on_len(s: Seq<char>, c: char)
    ensures
        split_on(s, c).len() >= 1,
    decreases s.len(),
{
    if s.len() > 0 {
        lemma_split_on_len(s.drop_last(), c);
    }
}

/// The lines of `s`: the pieces between line feeds, a carriage return
/// before a line feed dropped, and no last line where `s` is empty or ends
/// with a line feed.
pub open spec fn lines_of(s: Seq<char>) -> Seq<Seq<char>> {
    let parts = split_on(s, '\n');
    let kept = if parts.last().len() == 0 {
        parts.drop_last()
    } else {
        parts
    };
    Seq::new(
        kept.len(),
        |i: int|
            if i < parts.len() - 1 && kept[i].len() > 0 && kept[i].last() == '\r' {
                kept[i].drop_last()
            } else {
                kept[i]
            },
    )
}

/// `s` without the whitespace at either end.
pub fn trim_chars(s: &[char]) -> (r: Vec<char>)
    ensures
        r@ == trim(s@),
{
    let mut i: usize = 0;
    assert(s@.subrange(0, s@.len() as int) =~= s@);
    while i < s.len() && is_whitespace_exec(s[i])
        invariant
            i <= s@.len(),
            trim_start(s@) == trim_start(s@.subrange(i as int, s@.len() as int)),
        decreases s@.len() - i,
    {
        proof {
            let t = s@.subrange(i as int, s@.len() as int);
            assert(t.drop_first() =~= s@.subrange(i + 1, s@.len() as int));
        }
        i = i + 1;
    }
    let mut j: usize = s.len();
    proof {
        assert(s@.subrange(i as int, s@.len() as int) == trim_start(s@.subrange(i as int, s@.len() as int)));
    }
    while j > i && is_whitespace_exec(s[j - 1])
        invariant
            i <= j <= s@.len(),
            trim_start(s@) == s@.subrange(i as int, s@.len() as int),
            trim(s@) == trim_end(s@.subrange(i as int, j as int)),
        decreases j,
    {
        proof {
            let t = s@.subrange(i as int, j as int);
            assert(t.drop_last() =~= s@.subrange(i as int, j - 1));
        }
        j = j - 1;
    }
    let mut r: Vec<char> = Vec::new();
    let mut k = i;
    while k < j
        invariant
            i <= k <= j <= s@.len(),
            r@ == s@.subrange(i as int, k as int),
        decreases j - k,
    {
        r.push(s[k]);
        k = k + 1;
        assert(r@ =~= s@.subrange(i as int, k as int));
    }
    r
}

/// The pieces of `s` between the occurrences of `c`.
pub fn split_chars(s: &[char], c: char) -> (r: Vec<Vec<char>>)
    ensures
        r@.len() == split_on(s@, c).len(),
        forall|k: int| 0 <= k < r@.len() ==> #[trigger] r@[k]@ == split_on(s@, c)[k],
{
    let mut done: Vec<Vec<char>> = Vec::new();
    let mut cur: Vec<char> = Vec::new();
    let mut i: usize = 0;
    while i < s.len()
        invariant
            i <= s@.len(),
            split_on(s@.take(i as int), c).len() == done@.len() + 1,
            forall|k: int| 0 <= k < done@.len() ==> #[trigger] done@[k]@ == split_on(s@.take(i as int), c)[k],
            cur@ == split_on(s@.take(i as int), c).last(),
        decreases s@.len() - i,
    {
        proof {
            assert(s@.take(i + 1).drop_last() =~= s@.take(i as int));
            assert(s@.take(i + 1).last() == s@[i as int]);
        }
        if s[i] == c {
            done.push(cur);
            cur = Vec::new();
        } else {
            cur.push(s[i]);
        }
        i = i + 1;
    }
    assert(s@.take(s@.len() as int) =~= s@);
    done.push(cur);
    proof {
        assert forall|k: int| 0 <= k < done@.len() implies #[trigger] done@[k]@ == split_on(s@, c)[k] by {
        }
    }
    done
}

/// The lines of `s`.
pub fn lines_chars(s: &[char]) -> (r: Vec<Vec<char>>)
    ensures
        r@.len() == lines_of(s@).len(),
        forall|k: int| 0 <= k < r@.len() ==> #[trigger] r@[k]@ == lines_of(s@)[k],
{
    let parts = split_chars(s, '\n');
    proof {
        lemma_split_on_len(s@, '\n');
    }
    let n = parts.len();
    let kept = if parts[n - 1].len() == 0 {
        n - 1
    } else {
        n
    };
    let mut r: Vec<Vec<char>> = Vec::new();
    let mut i: usize = 0;
    while i < kept
        invariant
            i <= kept <= n,
            n == parts@.len(),
            n == split_on(s@, '\n').len(),
            kept == lines_of(s@).len(),
            forall|k: int| 0 <= k < n ==> #[trigger] parts@[k]@ == split_on(s@, '\n')[k],
            r@.len() == i,
            forall|k: int| 0 <= k < i ==> #[trigger] r@[k]@ == lines_of(s@)[k],
        decreases kept - i,
    {
        let p = &parts[i];
        let m = p.len();
        let mut line: Vec<char> = Vec::new();
        let cut = if i < n - 1 && m > 0 && p[m - 1] == '\r' {
            m - 1
        } else {
            m
        };
        let mut k: usize = 0;
        while k < cut
            invariant
                k <= cut <= m,
                m == p@.len(),
                line@ == p@.take(k as int),
            decreases cut - k,
        {
            line.push(p[k]);
            k = k + 1;
            assert(line@ =~= p@.take(k as int));
        }
        proof {
            let parts_s = split_on(s@, '\n');
            let kept_s = if parts_s.last().len() == 0 { parts_s.drop_last() } else { parts_s };
            assert(kept_s[i as int] == parts_s[i as int]);
            if cut < m {
                assert(line@ =~= p@.drop_last());
            } else {
                assert(line@ =~= p@);
            }
        }
        r.push(line);
        i = i + 1;
    }
    r
}

}

verus! {

/// Why a text is not a number.
#[derive(Clone, Copy, Debug, PartialEq, Eq, Structural)]
pub enum IntErrorKind {
    /// The text is empty.
    Empty,
    /// A character is not a digit.
    InvalidDigit,
    /// The number is too large for its type.
    PosOverflow,
}

/// Reads the decimal digits of `d` from `i` onto `acc` as a `u16`, left to
/// right: a non-digit is an invalid digit, a value above 65535 an overflow,
/// whichever comes first.
pub open spec fn u16_digits(d: Seq<char>, i: int, acc: nat) -> Result<u16, IntErrorKind>
    decreases d.len() - i,
{
    if i < 0 || i >= d.len() {
        Ok(acc as u16)
    } else if !is_dec_digit(d[i]) {
        Err(IntErrorKind::InvalidDigit)
    } else if acc * 10 + dec_digit_value(d[i]) > 65535 {
        Err(IntErrorKind::PosOverflow)
    } else {
        u16_digits(d, i + 1, acc * 10 + dec_digit_value(d[i]))
    }
}

/// The `u16` that `s` writes in decimal, with an optional leading '+'.
pub open spec fn parse_u16_text(s: Seq<char>) -> Result<u16, IntErrorKind> {
    if s.len() == 0 {
        Err(IntErrorKind::Empty)
    } else if s[0] == '+' {
        if s.len() == 1 {
            Err(IntErrorKind::InvalidDigit)
        } else {
            u16_digits(s, 1, 0)
        }
    } else {
        u16_digits(s, 0, 0)
    }
}

/// The `u16` that `s` writes in decimal, with an optional leading '+'.
pub fn parse_u16(s: &[char]) -> (r: Result<u16, IntErrorKind>)
    ensures
        r == parse_u16_text(s@),
{
    if s.len() == 0 {
        return Err(IntErrorKind::Empty);
    }
    let mut i: usize = 0;
    if s[0] == '+' {
        if s.len() == 1 {
            return Err(IntErrorKind::InvalidDigit);
        }
        i = 1;
    }
    let ghost start = i as int;
    let mut acc: u32 = 0;
    while i < s.len()
        invariant
            start <= i <= s@.len(),
            acc <= 65535,
            parse_u16_text(s@) == u16_digits(s@, i as int, acc as nat),
        decreases s@.len() - i,
    {
        if !is_dec_digit_exec(s[i]) {
            return Err(IntErrorKind::InvalidDigit);
        }
        let d = dec_digit_value_exec(s[i]);
        if acc * 10 + d > 65535 {
            return Err(IntErrorKind::PosOverflow);
        }
        acc = acc * 10 + d;
        i = i + 1;
    }
    Ok(acc as u16)
}

/// Name for what `str::to_lowercase` gives for a text.
pub uninterp spec fn lowercase(s: Seq<char>) -> Seq<char>;

/// Whether every character of a text is ASCII.
pub open spec fn is_ascii_text(s: Seq<char>) -> bool {
    forall|i: int| 0 <= i < s.len() ==> (s[i] as u32) < 128
}

/// An ASCII upper-case letter in lower case; any other character as it is.
pub open spec fn ascii_lower(c: char) -> char {
    if 'A' <= c && c <= 'Z' {
        ((c as u32) + 32) as char
    } else {
        c
    }
}

/// `str::to_lowercase`: the text in lower case, by Unicode's case mapping.
/// Its result is named; of an ASCII text, claimed as the mapping gives it:
/// each upper-case letter becomes its lower-case letter, the rest stays.
#[verifier::external_body]
pub(crate) fn to_lowercase(s: &str) -> (r: String)
    ensures
        r@ == lowercase(s@),
        is_ascii_text(s@) ==> r@ == s@.map_values(|c: char| ascii_lower(c)),
{
    s.to_lowercase()
}

/// Whether `a` and `b` hold the same characters.
pub fn chars_eq(a: &[char], b: &[char]) -> (r: bool)
    ensures
        r == (a@ == b@),
{
    if a.len() != b.len() {
        return false;
    }
    let mut i: usize = 0;
    while i < a.len()
        invariant
            i <= a@.len(),
            a@.len() == b@.len(),
            a@.take(i as int) == b@.take(i as int),
        decreases a@.len() - i,
    {
        if a[i] != b[i] {
            assert(a@[i as int] != b@[i as int]);
            return false;
        }
        i = i + 1;
        assert(a@.take(i as int) =~= b@.take(i as int));
    }
    assert(a@ =~= a@.take(a@.len() as int));
    assert(b@ =~= b@.take(b@.len() as int));
    true
}

/// Whether the text `s` equals the characters `b`.
pub fn str_eq_chars(s: &str, b: &[char]) -> (r: bool)
    ensures
        r == (s@ == b@),
{
    let a = chars_of(s);
    chars_eq(a.as_slice(), b)
}

/// Whether `s` starts with `prefix`.
pub fn starts_with_chars(s: &[char], prefix: &[char]) -> (r: bool)
    ensures
        r == (prefix@.len() <= s@.len() && s@.take(prefix@.len() as int) == prefix@),
{
    if prefix.len() > s.len() {
        return false;
    }
    let mut i: usize = 0;
    while i < prefix.len()
        invariant
            i <= prefix@.len() <= s@.len(),
            s@.take(i as int) == prefix@.take(i as int),
        decreases prefix@.len() - i,
    {
        if s[i] != prefix[i] {
            assert(s@.take(prefix@.len() as int)[i as int] != prefix@[i as int]);
            return false;
        }
        i = i + 1;
        assert(s@.take(i as int) =~= prefix@.take(i as int));
    }
    assert(prefix@ =~= prefix@.take(prefix@.len() as int));
    true
}

}

verus! {

pub proof fn lemma_split_on_none(s: Seq<char>, c: char)
    requires
        !s.contains(c),
    ensures
        split_on(s, c) == seq![s],
    decreases s.len(),
{
    if s.len() == 0 {
        assert(s =~= Seq::<char>::empty());
        assert(split_on(s, c) =~= seq![s]);
    } else {
        assert(!s.drop_last().contains(c)) by {
            if s.drop_last().contains(c) {
                let k = choose|k: int| 0 <= k < s.drop_last().len() && s.drop_last()[k] == c;
                assert(s[k] == c);
            }
        }
        lemma_split_on_none(s.drop_last(), c);
        assert(s.last() != c) by {
            assert(s[s.len() - 1] == s.last());
        }
        assert(s.drop_last().push(s.last()) =~= s);
        let r = split_on(s.drop_last(), c);
        assert(r.last() == s.drop_last());
        assert(split_on(s, c) == r.update(0, r.last().push(s.last())));
        assert(split_on(s, c) =~= seq![s]);
    }
}

/// Splitting `a`, `c`, `b` on `c`, where neither piece holds `c`, gives
/// the two pieces.
pub proof fn lemma_split_on_two(a: Seq<char>, b: Seq<char>, c: char)
    requires
        !a.contains(c),
        !b.contains(c),
    ensures
        split_on(a + seq![c] + b, c) == seq![a, b],
    decreases b.len(),
{
    let s = a + seq![c] + b;
    if b.len() == 0 {
        assert(s.drop_last() =~= a);
        assert(s.last() == c);
        lemma_split_on_none(a, c);
        assert(b =~= Seq::<char>::empty());
        assert(split_on(s, c) == split_on(a, c).push(Seq::<char>::empty()));
        assert(split_on(s, c) =~= seq![a, b]);
    } else {
        assert(!b.drop_last().contains(c)) by {
            if b.drop_last().contains(c) {
                let k = choose|k: int| 0 <= k < b.drop_last().len() && b.drop_last()[k] == c;
                assert(b[k] == c);
            }
        }
        lemma_split_on_two(a, b.drop_last(), c);
        assert(s.drop_last() =~= a + seq![c] + b.drop_last());
        assert(b.last() != c) by {
            assert(b[b.len() - 1] == b.last());
        }
        assert(b.drop_last().push(b.last()) =~= b);
        assert(s.last() == b.last());
        let r = split_on(s.drop_last(), c);
        assert(r.last() == b.drop_last());
        assert(split_on(s, c) == r.update(1, r.last().push(s.last())));
        assert(split_on(s, c) =~= seq![a, b]);
    }
}

proof fn lemma_u16_digits_rest(d: Seq<char>, i: int)
    requires
        0 <= i <= d.len(),
        forall|k: int| 0 <= k < d.len() ==> is_dec_digit(#[trigger] d[k]),
        dec_value(d, 0, d.len()) <= 65535,
    ensures
        u16_digits(d, i, dec_value(d, 0, i as nat)) == Ok::<u16, IntErrorKind>(
            dec_value(d, 0, d.len()) as u16,
        ),
    decreases d.len() - i,
{
    if i < d.len() {
        lemma_dec_value_monotone(d, 0, (i + 1) as nat, d.len());
        assert(dec_value(d, 0, (i + 1) as nat) == dec_value(d, 0, i as nat) * 10 + dec_digit_value(
            d[i],
        ));
        lemma_u16_digits_rest(d, i + 1);
    }
}

/// The decimal text of a port reads back as the port.
pub proof fn lemma_parse_u16_dec_text(p: u16)
    ensures
        parse_u16_text(dec_text(p as nat)) == Ok::<u16, IntErrorKind>(p),
{
    let d = dec_text(p as nat);
    lemma_dec_text(p as nat);
    assert(d.subrange(0, d.len() as int) =~= d);
    lemma_dec_text_value(d, 0, p as nat);
    lemma_u16_digits_rest(d, 0);
    assert(d[0] != '+');
}

pub proof fn lemma_dec_text_no_colon(n: nat)
    ensures
        !dec_text(n).contains(':'),
{
    lemma_dec_text(n);
    if dec_text(n).contains(':') {
        let k = choose|k: int| 0 <= k < dec_text(n).len() && dec_text(n)[k] == ':';
        assert(is_dec_digit(dec_text(n)[k]));
    }
}

}

verus! {

/// Whether two texts are equal.
pub fn str_eq_str(a: &str, b: &str) -> (r: bool)
    ensures
        r == (a@ == b@),
{
    let bs = chars_of(b);
    str_eq_chars(a, bs.as_slice())
}

}
