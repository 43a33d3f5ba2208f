//! Decimal numbers in text: reading and writing them.

use vstd::prelude::*;

verus! {

pub open spec fn is_digit(c: char) -> bool {
    '0' <= c && c <= '9'
}

pub open spec fn digit_value(c: char) -> nat {
    (c as int - '0' as int) as nat
}

pub open spec fn all_digits(s: Seq<char>) -> bool {
    forall|i: int| 0 <= i < s.len() ==> is_digit(#[trigger] s[i])
}

/// The number that a run of decimal digits spells.
pub open spec fn digits_value(s: Seq<char>) -> nat
    decreases s.len(),
{
    if s.len() == 0 {
        0
    } else {
        digits_value(s.drop_last()) * 10 + digit_value(s.last())
    }
}

pub open spec fn digit_char(d: nat) -> char {
    if d == 0 {
        '0'
    } else if d == 1 {
        '1'
    } else if d == 2 {
        '2'
    } else if d == 3 {
        '3'
    } else if d == 4 {
        '4'
    } else if d == 5 {
        '5'
    } else if d == 6 {
        '6'
    } else if d == 7 {
        '7'
    } else if d == 8 {
        '8'
    } else {
        '9'
    }
}

/// Shortest decimal notation of a natural number.
pub open spec fn decimal_text(n: nat) -> Seq<char>
    decreases n,
{
    if n < 10 {
        seq![digit_char(n)]
    } else {
        decimal_text(n / 10).push(digit_char(n % 10))
    }
}

/// Relies on String::push: appends one character.
#[verifier::external_body]
pub(crate) fn push_char(s: &mut String, c: char)
    ensures
        final(s)@ == old(s)@.push(c),
{
    s.push(c)
}

pub fn digit_to_char(d: u64) -> (c: char)
    requires
        d < 10,
    ensures
        c == digit_char(d as nat),
{
    if d == 0 {
        '0'
    } else if d == 1 {
        '1'
    } else if d == 2 {
        '2'
    } else if d == 3 {
        '3'
    } else if d == 4 {
        '4'
    } else if d == 5 {
        '5'
    } else if d == 6 {
        '6'
    } else if d == 7 {
        '7'
    } else if d == 8 {
        '8'
    } else {
        '9'
    }
}

/// Appends the decimal notation of `n`.
pub fn write_decimal(out: &mut String, n: u64)
    ensures
        final(out)@ == old(out)@ + decimal_text(n as nat),
    decreases n,
{
    if n >= 10 {
        write_decimal(out, n / 10);
    }
    push_char(out, digit_to_char(n % 10));
    assert(final(out)@ =~= old(out)@ + decimal_text(n as nat));
}

/// The characters of a string, one per element.
pub fn chars_of(s: &str) -> (r: Vec<char>)
    ensures
        r@ == s@,
{
    let n = s.unicode_len();
    let mut v: Vec<char> = Vec::new();
    let mut i: usize = 0;
    while i < n
        invariant
            n == s@.len(),
            i <= n,
            v@ == s@.take(i as int),
        decreases n - i,
    {
        v.push(s.get_char(i));
        i = i + 1;
        assert(v@ =~= s@.take(i as int));
    }
    assert(v@ =~= s@);
    v
}

/// The value of `s[from..to]` read as decimal digits, when all of them are
/// digits and the value does not exceed `cap`.
pub fn read_digits(s: &Vec<char>, from: usize, to: usize, cap: u64) -> (r: Option<u64>)
    requires
        from <= to <= s@.len(),
    ensures
        r matches Some(v) ==> all_digits(s@.subrange(from as int, to as int)) && v == digits_value(
            s@.subrange(from as int, to as int),
        ) && v <= cap,
        r is None ==> !all_digits(s@.subrange(from as int, to as int)) || digits_value(
            s@.subrange(from as int, to as int),
        ) > cap,
{
    let mut acc: u64 = 0;
    let mut i: usize = from;
    while i < to
        invariant
            from <= i <= to <= s@.len(),
            all_digits(s@.subrange(from as int, i as int)),
            acc == digits_value(s@.subrange(from as int, i as int)),
            acc <= cap,
        decreases to - i,
    {
        let c = s[i];
        assert(s@.subrange(from as int, i + 1) =~= s@.subrange(from as int, i as int).push(c));
        assert(s@.subrange(from as int, i + 1).drop_last() =~= s@.subrange(from as int, i as int));
        if !('0' <= c && c <= '9') {
            assert(!all_digits(s@.subrange(from as int, to as int))) by {
                assert(s@.subrange(from as int, to as int)[i - from] == c);
            }
            return None;
        }
        let d = (c as u32 - '0' as u32) as u64;
        if d > cap || acc > (cap - d) / 10 {
            proof {
                lemma_digits_prefix_le(s@.subrange(from as int, to as int), (i + 1 - from) as int);
                assert(s@.subrange(from as int, to as int).take((i + 1 - from) as int)
                    =~= s@.subrange(from as int, i + 1));
            }
            return None;
        }
        acc = acc * 10 + d;
        i = i + 1;
    }
    Some(acc)
}

/// A prefix of a run of digits never has a larger value than the run.
pub proof fn lemma_digits_prefix_le(s: Seq<char>, k: int)
    requires
        0 <= k <= s.len(),
    ensures
        digits_value(s.take(k)) <= digits_value(s),
    decreases s.len(),
{
    if k < s.len() {
        assert(s.drop_last().take(k) =~= s.take(k));
        lemma_digits_prefix_le(s.drop_last(), k);
    } else {
        assert(s.take(k) =~= s);
    }
}

/// Digits with an optional leading `+`, as an unsigned integer is written.
pub open spec fn unsigned_value(s: Seq<char>) -> Option<nat> {
    let body = if s.len() > 0 && s[0] == '+' {
        s.drop_first()
    } else {
        s
    };
    if body.len() > 0 && all_digits(body) {
        Some(digits_value(body))
    } else {
        None
    }
}

/// Digits with an optional leading `+` or `-`, as a signed integer is written.
pub open spec fn signed_value(s: Seq<char>) -> Option<int> {
    if s.len() > 0 && s[0] == '-' {
        let body = s.drop_first();
        if body.len() > 0 && all_digits(body) {
            Some(-digits_value(body))
        } else {
            None
        }
    } else {
        match unsigned_value(s) {
            Some(v) => Some(v as int),
            None => None,
        }
    }
}

/// What reading a `u8` from the text gives.
pub open spec fn u8_of_text(s: Seq<char>) -> Option<u8> {
    match unsigned_value(s) {
        Some(v) => if v <= 255 {
            Some(v as u8)
        } else {
            None
        },
        None => None,
    }
}

/// What reading an `i16` from the text gives.
pub open spec fn i16_of_text(s: Seq<char>) -> Option<i16> {
    match signed_value(s) {
        Some(v) => if -32768 <= v <= 32767 {
            Some(v as i16)
        } else {
            None
        },
        None => None,
    }
}

/// Shortest decimal notation of an integer.
pub open spec fn int_text(v: int) -> Seq<char> {
    if v < 0 {
        seq!['-'] + decimal_text((-v) as nat)
    } else {
        decimal_text(v as nat)
    }
}

pub fn parse_u8(s: &str) -> (r: Option<u8>)
    ensures
        r == u8_of_text(s@),
{
    let v = chars_of(s);
    let n = v.len();
    let start: usize = if n > 0 && v[0] == '+' {
        1
    } else {
        0
    };
    assert(v@.subrange(start as int, n as int) =~= (if n > 0 && v@[0] == '+' {
        s@.drop_first()
    } else {
        s@
    }));
    if start == n {
        return None;
    }
    match read_digits(&v, start, n, 255) {
        Some(x) => Some(x as u8),
        None => None,
    }
}

pub fn parse_i16(s: &str) -> (r: Option<i16>)
    ensures
        r == i16_of_text(s@),
{
    let v = chars_of(s);
    let n = v.len();
    let negative = n > 0 && v[0] == '-';
    let start: usize = if n > 0 && (v[0] == '+' || v[0] == '-') {
        1
    } else {
        0
    };
    assert(start == 1 ==> v@.subrange(start as int, n as int) =~= s@.drop_first());
    assert(start == 0 ==> v@.subrange(start as int, n as int) =~= s@);
    if start == n {
        return None;
    }
    let cap: u64 = if negative {
        32768
    } else {
        32767
    };
    match read_digits(&v, start, n, cap) {
        Some(x) => {
            if negative {
                Some((0 - (x as i32)) as i16)
            } else {
                Some(x as i16)
            }
        },
        None => None,
    }
}

/// Appends the shortest decimal notation of an integer.
pub fn write_int(out: &mut String, v: i64)
    ensures
        final(out)@ == old(out)@ + int_text(v as int),
{
    if v < 0 {
        push_char(out, '-');
        let m: u64 = if v == i64::MIN {
            9223372036854775808u64
        } else {
            (0 - v) as u64
        };
        write_decimal(out, m);
        assert(final(out)@ =~= old(out)@ + int_text(v as int));
    } else {
        write_decimal(out, v as u64);
    }
}

/// `b` reads as digits, a dot at `k`, and digits again, with digits on both sides.
pub open spec fn dot_at(b: Seq<char>, k: int) -> bool {
    &&& 0 < k < b.len() - 1
    &&& b[k] == '.'
    &&& all_digits(b.take(k))
    &&& all_digits(b.skip(k + 1))
}

/// The first six fraction digits, padded with zeros, as millionths.
pub open spec fn frac_micros(f: Seq<char>) -> nat {
    if f.len() >= 6 {
        digits_value(f.take(6))
    } else {
        digits_value(f + Seq::new((6 - f.len()) as nat, |i: int| '0'))
    }
}

/// An unsigned decimal number (`12`, `8.5`) in millionths; digits past the
/// sixth after the dot are dropped.
pub open spec fn decimal_micros(b: Seq<char>) -> Option<nat> {
    if b.len() > 0 && all_digits(b) {
        Some(digits_value(b) * 1_000_000)
    } else if exists|k: int| dot_at(b, k) {
        let k = choose|k: int| dot_at(b, k);
        Some(digits_value(b.take(k)) * 1_000_000 + frac_micros(b.skip(k + 1)))
    } else {
        None
    }
}

pub open spec fn trim_zeros(f: Seq<char>) -> Seq<char>
    decreases f.len(),
{
    if f.len() > 0 && f.last() == '0' {
        trim_zeros(f.drop_last())
    } else {
        f
    }
}

pub open spec fn float_sign(s: Seq<char>) -> Seq<char> {
    if s.len() > 0 && s[0] == '-' {
        seq!['-']
    } else {
        Seq::<char>::empty()
    }
}

pub open spec fn float_body(s: Seq<char>) -> Seq<char> {
    if s.len() > 0 && s[0] == '-' {
        s.drop_first()
    } else {
        s
    }
}

/// An unsigned decimal number in its shortest notation: zeros at the end of
/// the fraction, and a dot left bare, are dropped.
pub open spec fn shortest_decimal(b: Seq<char>) -> Option<Seq<char>> {
    if b.len() > 0 && all_digits(b) {
        Some(b)
    } else if exists|k: int| dot_at(b, k) {
        let k = choose|k: int| dot_at(b, k);
        let f = trim_zeros(b.skip(k + 1));
        Some(
            b.take(k) + (if f.len() == 0 {
                Seq::<char>::empty()
            } else {
                seq!['.'] + f
            }),
        )
    } else {
        None
    }
}

/// A decimal number with an optional `-`, in its shortest notation
/// (`-8.50` gives `-8.5`, `3.0` gives `3`). Exponent notation (`5e-5`, as a
/// float below 1e-4 is printed) and `NaN` or `inf` are not read: such a
/// length is under a hundred millionths of a unit, or not a length at all.
pub open spec fn float_text(s: Seq<char>) -> Option<Seq<char>> {
    match shortest_decimal(float_body(s)) {
        Some(t) => Some(float_sign(s) + t),
        None => None,
    }
}

/// A number has at most one dot with digits on both sides.
pub proof fn lemma_dot_unique(b: Seq<char>, k1: int, k2: int)
    requires
        dot_at(b, k1),
        dot_at(b, k2),
    ensures
        k1 == k2,
{
    if k1 < k2 {
        assert(b.take(k2)[k1] == '.');
    } else if k2 < k1 {
        assert(b.take(k1)[k2] == '.');
    }
}

/// Index of the first non-digit in `s[from..to]`, or `to`.
pub fn digits_end(s: &Vec<char>, from: usize, to: usize) -> (k: usize)
    requires
        from <= to <= s@.len(),
    ensures
        from <= k <= to,
        all_digits(s@.subrange(from as int, k as int)),
        k < to ==> !is_digit(s@[k as int]),
{
    let mut k = from;
    while k < to && '0' <= s[k] && s[k] <= '9'
        invariant
            from <= k <= to <= s@.len(),
            all_digits(s@.subrange(from as int, k as int)),
        decreases to - k,
    {
        assert(s@.subrange(from as int, k + 1) =~= s@.subrange(from as int, k as int).push(s@[k as int]));
        k = k + 1;
    }
    k
}

/// Where the dot of a decimal number `s[from..]` stands, if it is one.
fn find_dot(s: &Vec<char>, from: usize) -> (r: Option<usize>)
    requires
        from <= s@.len(),
    ensures
        ({
            let b = s@.skip(from as int);
            match r {
                Some(k) => from <= k && dot_at(b, k - from),
                None => !(exists|k: int| dot_at(b, k)),
            }
        }),
{
    let n = s.len();
    let ghost b = s@.skip(from as int);
    let k = digits_end(s, from, n);
    assert(s@.subrange(from as int, k as int) =~= b.take(k - from));
    if k < n && k > from && s[k] == '.' && k + 1 < n {
        let e = digits_end(s, k + 1, n);
        assert(s@.subrange(k + 1, e as int) =~= b.skip(k - from + 1).take(e - k - 1));
        if e == n {
            assert(b.skip(k - from + 1) =~= s@.subrange(k + 1, n as int));
            return Some(k);
        }
        assert forall|j: int| dot_at(b, j) implies false by {
            if j < k - from {
                assert(b.take(k - from)[j] == '.');
            } else if j > k - from {
                assert(b.take(j)[k - from] == s@[k as int]);
            } else {
                assert(b.skip(j + 1)[e - k - 1] == s@[e as int]);
            }
        }
        None
    } else {
        assert forall|j: int| dot_at(b, j) implies false by {
            if j < k - from {
                assert(b.take(k - from)[j] == '.');
            } else if j > k - from {
                assert(b.take(j)[k - from] == s@[k as int]);
            }
        }
        None
    }
}

/// Appends `s[from..to]`.
pub fn push_range(out: &mut String, s: &Vec<char>, from: usize, to: usize)
    requires
        from <= to <= s@.len(),
    ensures
        final(out)@ == old(out)@ + s@.subrange(from as int, to as int),
{
    let mut i = from;
    while i < to
        invariant
            from <= i <= to <= s@.len(),
            out@ == old(out)@ + s@.subrange(from as int, i as int),
        decreases to - i,
    {
        push_char(out, s[i]);
        i = i + 1;
        assert(out@ =~= old(out)@ + s@.subrange(from as int, i as int));
    }
}

pub open spec fn pow10(n: nat) -> nat
    decreases n,
{
    if n == 0 {
        1
    } else {
        10 * pow10((n - 1) as nat)
    }
}

/// A run of `n` digits spells a number below `10^n`.
pub proof fn lemma_digits_bound(s: Seq<char>)
    requires
        all_digits(s),
    ensures
        digits_value(s) < pow10(s.len()),
    decreases s.len(),
{
    if s.len() > 0 {
        let t = s.drop_last();
        assert(all_digits(t)) by {
            assert forall|i: int| 0 <= i < t.len() implies is_digit(#[trigger] t[i]) by {
                assert(t[i] == s[i]);
            }
        }
        lemma_digits_bound(t);
        assert(is_digit(s[s.len() - 1]));
        let a = digits_value(t);
        let p = pow10(t.len());
        let d = digit_value(s.last());
        assert(a * 10 + d < 10 * p) by (nonlinear_arith)
            requires
                a < p,
                d < 10,
        ;
    }
}

/// Largest number of millionths that reading a decimal hands out.
pub const MICROS_TEXT_LIMIT: u64 = 1_000_000_000_000_000_000;

/// Reads an unsigned decimal number in millionths (see `decimal_micros`);
/// `None` where the text is no such number or it exceeds
/// `MICROS_TEXT_LIMIT`.
pub fn parse_micros(s: &str) -> (r: Option<u64>)
    ensures
        r matches Some(v) ==> decimal_micros(s@) == Some(v as nat) && v <= MICROS_TEXT_LIMIT,
        r is None ==> (decimal_micros(s@) matches Some(v) ==> v > MICROS_TEXT_LIMIT),
{
    let v = chars_of(s);
    let n = v.len();
    if n == 0 {
        return None;
    }
    assert(v@.subrange(0, n as int) =~= s@);
    let k0 = digits_end(&v, 0, n);
    if k0 == n {
        return match read_digits(&v, 0, n, 1_000_000_000_000) {
            Some(x) => Some(x * 1_000_000),
            None => None,
        };
    }
    assert(!all_digits(s@)) by {
        assert(s@[k0 as int] == v@[k0 as int]);
    }
    assert(s@.skip(0) =~= s@);
    match find_dot(&v, 0) {
        None => None,
        Some(k) => {
            let ghost b = s@;
            proof {
                lemma_dot_unique(b, choose|j: int| dot_at(b, j), k as int);
            }
            assert(v@.subrange(0, k as int) =~= b.take(k as int));
            let ip = match read_digits(&v, 0, k, 1_000_000_000_000) {
                Some(x) => x,
                None => {
                    proof {
                        let a = digits_value(b.take(k as int));
                        let fm = frac_micros(b.skip(k + 1));
                        assert(a * 1_000_000 + fm > 1_000_000_000_000_000_000) by (nonlinear_arith)
                            requires
                                a > 1_000_000_000_000,
                        ;
                    }
                    return None;
                },
            };
            let ghost f = b.skip(k + 1);
            let m: usize = if n - k - 1 >= 6 {
                6
            } else {
                n - k - 1
            };
            assert(v@.subrange(k + 1, k + 1 + m) =~= f.take(m as int));
            proof {
                lemma_digits_bound(f.take(m as int));
                lemma_pow10_small(m as nat);
            }
            let mut x = match read_digits(&v, k + 1, k + 1 + m, 999_999) {
                Some(x) => x,
                None => {
                    return None;
                },
            };
            let ghost t = f.take(m as int);
            let mut j: usize = m;
            assert(t + Seq::new(0, |i: int| '0') =~= t);
            while j < 6
                invariant
                    m <= j <= 6,
                    x == digits_value(t + Seq::new((j - m) as nat, |i: int| '0')),
                    x < pow10(j as nat),
                decreases 6 - j,
            {
                proof {
                    lemma_pow10_small((j + 1) as nat);
                }
                let ghost before = t + Seq::new((j - m) as nat, |i: int| '0');
                let ghost after = t + Seq::new((j + 1 - m) as nat, |i: int| '0');
                assert(after.drop_last() =~= before);
                assert(after.last() == '0');
                x = x * 10;
                j = j + 1;
            }
            assert(f.len() < 6 ==> t =~= f);
            assert(x == frac_micros(f));
            proof {
                lemma_pow10_small(6);
            }
            if ip == 1_000_000_000_000 && x > 0 {
                return None;
            }
            assert(ip * 1_000_000 <= 1_000_000_000_000_000_000) by (nonlinear_arith)
                requires
                    ip <= 1_000_000_000_000,
            ;
            assert(ip * 1_000_000 + x <= 1_000_000_000_000_000_000) by (nonlinear_arith)
                requires
                    ip <= 1_000_000_000_000,
                    ip == 1_000_000_000_000 ==> x == 0,
                    x < 1_000_000,
            ;
            Some(ip * 1_000_000 + x)
        },
    }
}

proof fn lemma_pow10_small(m: nat)
    requires
        m <= 6,
    ensures
        pow10(m) <= 1_000_000,
{
    assert(pow10(0) == 1);
    assert(pow10(1) == 10);
    assert(pow10(2) == 100);
    assert(pow10(3) == 1000);
    assert(pow10(4) == 10000);
    assert(pow10(5) == 100000);
    assert(pow10(6) == 1000000);
}

/// Writes a decimal number in its shortest notation (see `float_text`).
pub fn canonical_float(s: &str) -> (r: Option<String>)
    ensures
        r matches Some(t) ==> float_text(s@) == Some(t@),
        r is None ==> float_text(s@) is None,
{
    let v = chars_of(s);
    let n = v.len();
    let neg = n > 0 && v[0] == '-';
    let start: usize = if neg {
        1
    } else {
        0
    };
    let ghost b = float_body(s@);
    assert(neg == (s@.len() > 0 && s@[0] == '-'));
    assert(v@.skip(start as int) =~= b);
    assert(v@.subrange(start as int, n as int) =~= b);
    if start == n {
        return None;
    }
    let mut out = String::new();
    if neg {
        push_char(&mut out, '-');
    }
    let ghost sign = out@;
    assert(sign =~= float_sign(s@));
    let k0 = digits_end(&v, start, n);
    if k0 == n {
        push_range(&mut out, &v, start, n);
        return Some(out);
    }
    assert(!all_digits(b)) by {
        assert(b[k0 - start] == v@[k0 as int]);
    }
    match find_dot(&v, start) {
        None => None,
        Some(k) => {
            proof {
                lemma_dot_unique(b, choose|j: int| dot_at(b, j), k - start);
            }
            assert(v@.subrange(start as int, k as int) =~= b.take(k - start));
            push_range(&mut out, &v, start, k);
            let ghost f = b.skip(k - start + 1);
            assert(v@.subrange(k + 1, n as int) =~= f);
            let mut e: usize = n;
            while e > k + 1 && v[e - 1] == '0'
                invariant
                    k + 1 <= e <= n == v@.len(),
                    trim_zeros(f) == trim_zeros(v@.subrange(k + 1, e as int)),
                decreases e,
            {
                assert(v@.subrange(k + 1, e - 1) =~= v@.subrange(k + 1, e as int).drop_last());
                e = e - 1;
            }
            let ghost g = v@.subrange(k + 1, e as int);
            assert(trim_zeros(g) == g);
            if e > k + 1 {
                push_char(&mut out, '.');
                push_range(&mut out, &v, k + 1, e);
                assert(out@ =~= sign + b.take(k - start) + (seq!['.'] + g));
            } else {
                assert(g.len() == 0);
                assert(out@ =~= sign + b.take(k - start) + Seq::<char>::empty());
            }
            Some(out)
        },
    }
}

/// Whether two texts are the same.
pub fn text_equals(a: &str, b: &str) -> (r: bool)
    ensures
        r == (a@ == b@),
{
    let x = chars_of(a);
    let y = chars_of(b);
    if x.len() != y.len() {
        return false;
    }
    let mut i: usize = 0;
    while i < x.len()
        invariant
            x@ == a@,
            y@ == b@,
            x@.len() == y@.len(),
            i <= x@.len(),
            x@.take(i as int) == y@.take(i as int),
        decreases x@.len() - i,
    {
        if x[i] != y[i] {
            return false;
        }
        assert(x@.take(i + 1) =~= x@.take(i as int).push(x@[i as int]));
        assert(y@.take(i + 1) =~= y@.take(i as int).push(y@[i as int]));
        i = i + 1;
    }
    assert(x@.take(i as int) =~= x@);
    assert(y@.take(i as int) =~= y@);
    true
}

/// Reads a signed integer (see `signed_value`) of any size, telling whether
/// it is a `u8`: `None` for text that is no integer, `Some(None)` for an
/// integer outside `0..=255`.
pub fn int_code(s: &str) -> (r: Option<Option<u8>>)
    ensures
        match signed_value(s@) {
            None => r is None,
            Some(v) => r == Some(
                if 0 <= v <= 255 {
                    Some(v as u8)
                } else {
                    None::<u8>
                },
            ),
        },
{
    let v = chars_of(s);
    let n = v.len();
    let negative = n > 0 && v[0] == '-';
    let start: usize = if n > 0 && (v[0] == '+' || v[0] == '-') {
        1
    } else {
        0
    };
    assert(start == 1 ==> v@.subrange(start as int, n as int) =~= s@.drop_first());
    assert(start == 0 ==> v@.subrange(start as int, n as int) =~= s@);
    if start == n {
        return None;
    }
    let k = digits_end(&v, start, n);
    if k < n {
        assert(!all_digits(v@.subrange(start as int, n as int))) by {
            assert(v@.subrange(start as int, n as int)[k - start] == v@[k as int]);
        }
        return None;
    }
    match read_digits(&v, start, n, 255) {
        Some(x) => {
            if negative && x != 0 {
                Some(None)
            } else {
                Some(Some(x as u8))
            }
        },
        None => Some(None),
    }
}

} // verus!
