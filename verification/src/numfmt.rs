//! Unsigned integers read from and written as text: what
//! `u64::from_str_radix`, `str::parse::<u64>` and the decimal, hexadecimal
//! and octal `Display` forms compute.

use vstd::prelude::*;

verus! {

/// The value of digit `c` in base `radix` (2 to 36), if it is one.
pub open spec fn digit_value(c: char, radix: nat) -> Option<nat> {
    let d: int = if '0' <= c && c <= '9' {
        c as int - '0' as int
    } else if 'a' <= c && c <= 'z' {
        c as int - 'a' as int + 10
    } else if 'A' <= c && c <= 'Z' {
        c as int - 'A' as int + 10
    } else {
        -1
    };
    if 0 <= d < radix {
        Some(d as nat)
    } else {
        None
    }
}

/// Every character of `s` is a digit in base `radix`.
pub open spec fn all_digits(s: Seq<char>, radix: nat) -> bool {
    forall|i: int| 0 <= i < s.len() ==> (#[trigger] digit_value(s[i], radix)) is Some
}

/// The number that the digits `s` spell in base `radix`.
pub open spec fn digits_value(s: Seq<char>, radix: nat) -> nat
    decreases s.len(),
{
    if s.len() == 0 {
        0
    } else {
        digits_value(s.drop_last(), radix) * radix + match digit_value(s.last(), radix) {
            Some(d) => d,
            None => 0,
        }
    }
}

/// What `u64::from_str_radix(s, radix)` returns: an optional leading `+`,
/// then at least one digit, and a value that fits in 64 bits.
pub open spec fn parse_unsigned(s: Seq<char>, radix: nat) -> Option<nat> {
    let d = if s.len() > 0 && s[0] == '+' {
        s.drop_first()
    } else {
        s
    };
    if d.len() == 0 || !all_digits(d, radix) || digits_value(d, radix) > u64::MAX {
        None
    } else {
        Some(digits_value(d, radix))
    }
}

/// What `str::parse::<i64>` returns: an optional sign (`+` or `-`), then
/// at least one decimal digit, and a value within the range of `i64`.
pub open spec fn parse_signed(s: Seq<char>) -> Option<int> {
    if s.len() > 0 && s[0] == '-' {
        let d = s.drop_first();
        if d.len() == 0 || !all_digits(d, 10) || digits_value(d, 10) > 0x8000_0000_0000_0000 {
            None
        } else {
            Some(-(digits_value(d, 10) as int))
        }
    } else {
        match parse_unsigned(s, 10) {
            Some(v) => if v <= i64::MAX {
                Some(v as int)
            } else {
                None
            },
            None => None,
        }
    }
}

/// The lowest digit of `n` in base `radix` (at most 16), as `Display`
/// writes it: `0-9`, then `a-f` in `lower` case or `A-F` otherwise.
pub open spec fn digit_char(d: nat, lower: bool) -> char {
    if d < 10 {
        ('0' as nat + d) as char
    } else if lower {
        ('a' as nat + d - 10) as char
    } else {
        ('A' as nat + d - 10) as char
    }
}

/// `n` in base `radix` without leading zeros (`0` for zero).
pub open spec fn radix_string(n: nat, radix: nat, lower: bool) -> Seq<char>
    decreases n,
{
    if radix < 2 || n < radix {
        seq![digit_char(n, lower)]
    } else {
        proof {
            assert(n / radix < n) by (nonlinear_arith)
                requires
                    radix >= 2,
                    n >= radix,
            ;
        }
        radix_string(n / radix, radix, lower).push(digit_char(n % radix, lower))
    }
}

/// `n` in decimal, as `u64::to_string` writes it.
pub open spec fn decimal(n: nat) -> Seq<char> {
    radix_string(n, 10, true)
}

/// `s` padded on the left with `0` to at least `width` characters.
pub open spec fn zero_pad(s: Seq<char>, width: nat) -> Seq<char> {
    if s.len() >= width {
        s
    } else {
        Seq::new((width - s.len()) as nat, |i: int| '0') + s
    }
}

// ---------------------------------------------------------------------------
// Lemmas
// ---------------------------------------------------------------------------

proof fn lemma_digits_value_prefix(s: Seq<char>, i: int, radix: nat)
    requires
        0 <= i <= s.len(),
        radix >= 1,
    ensures
        digits_value(s.take(i), radix) <= digits_value(s, radix),
    decreases s.len() - i,
{
    if i < s.len() {
        lemma_digits_value_prefix(s, i + 1, radix);
        let t = s.take(i + 1);
        assert(t.drop_last() =~= s.take(i));
        let a = digits_value(s.take(i), radix);
        assert(a * radix >= a) by (nonlinear_arith)
            requires
                radix >= 1,
        ;
    } else {
        assert(s.take(i) =~= s);
    }
}

proof fn lemma_radix_string_len(n: nat, radix: nat, lower: bool)
    ensures
        radix_string(n, radix, lower).len() >= 1,
        2 <= radix ==> (n < radix * radix ==> radix_string(n, radix, lower).len() <= 2),
    decreases n,
{
    if !(radix < 2 || n < radix) {
        assert(n / radix < n) by (nonlinear_arith)
            requires
                radix >= 2,
                n >= radix,
        ;
        lemma_radix_string_len(n / radix, radix, lower);
        if n < radix * radix {
            assert(n / radix < radix) by (nonlinear_arith)
                requires
                    n < radix * radix,
                    radix >= 2,
            ;
        }
    }
}

// ---------------------------------------------------------------------------
// Executable functions
// ---------------------------------------------------------------------------

/// The value of digit `c` in base `radix`.
pub fn digit_value_exec(c: char, radix: u32) -> (res: Option<u32>)
    requires
        2 <= radix <= 36,
    ensures
        match digit_value(c, radix as nat) {
            Some(d) => res == Some(d as u32),
            None => res is None,
        },
{
    let d: i64 = if '0' <= c && c <= '9' {
        (c as u32 - '0' as u32) as i64
    } else if 'a' <= c && c <= 'z' {
        (c as u32 - 'a' as u32 + 10) as i64
    } else if 'A' <= c && c <= 'Z' {
        (c as u32 - 'A' as u32 + 10) as i64
    } else {
        -1
    };
    if 0 <= d && d < radix as i64 {
        Some(d as u32)
    } else {
        None
    }
}

/// `u64::from_str_radix` on the string these characters spell.
pub fn parse_u64_radix(s: &[char], radix: u32) -> (res: Option<u64>)
    requires
        2 <= radix <= 36,
    ensures
        match parse_unsigned(s@, radix as nat) {
            Some(v) => res == Some(v as u64),
            None => res is None,
        },
{
    let start: usize = if s.len() > 0 && s[0] == '+' {
        1
    } else {
        0
    };
    let ghost d = if s@.len() > 0 && s@[0] == '+' {
        s@.drop_first()
    } else {
        s@
    };
    assert(d =~= s@.subrange(start as int, s@.len() as int));
    if start == s.len() {
        assert(d.len() == 0);
        return None;
    }
    let mut acc: u64 = 0;
    let mut i = start;
    while i < s.len()
        invariant
            start <= i <= s@.len(),
            d == s@.subrange(start as int, s@.len() as int),
            d == (if s@.len() > 0 && s@[0] == '+' {
                s@.drop_first()
            } else {
                s@
            }),
            d.len() > 0,
            2 <= radix <= 36,
            acc as nat == digits_value(d.take(i - start), radix as nat),
            all_digits(d.take(i - start), radix as nat),
        decreases s.len() - i,
    {
        let ghost pre = d.take(i - start);
        let ghost post = d.take(i - start + 1);
        assert(post.drop_last() =~= pre);
        assert(post.last() == s@[i as int]);
        match digit_value_exec(s[i], radix) {
            None => {
                assert(!all_digits(d, radix as nat)) by {
                    assert(d[i - start] == s@[i as int]);
                    assert(digit_value(d[i - start], radix as nat) is None);
                }
                return None;
            },
            Some(dv) => {
                let lim = (u64::MAX - dv as u64) / radix as u64;
                if acc > lim {
                    proof {
                        assert(acc as int * radix as int + dv as int > u64::MAX) by (nonlinear_arith)
                            requires
                                acc > lim,
                                lim == (u64::MAX - dv) / (radix as int),
                                radix >= 2,
                                dv < radix,
                        ;
                        lemma_digits_value_prefix(d, i - start + 1, radix as nat);
                    }
                    return None;
                }
                proof {
                    assert(acc as int * radix as int + dv as int <= u64::MAX) by (nonlinear_arith)
                        requires
                            acc <= lim,
                            lim == (u64::MAX - dv) / (radix as int),
                            radix >= 2,
                            dv < radix,
                    ;
                    assert forall|j: int| 0 <= j < post.len() implies (#[trigger] digit_value(
                        post[j],
                        radix as nat,
                    )) is Some by {
                        if j < pre.len() {
                            assert(post[j] == pre[j]);
                        }
                    }
                }
                acc = acc * radix as u64 + dv as u64;
            },
        }
        i = i + 1;
    }
    assert(d.take(s@.len() - start) =~= d);
    Some(acc)
}

/// `n` in base `radix` (at most 16) without leading zeros.
pub fn radix_string_exec(n: u64, radix: u64, lower: bool) -> (res: Vec<char>)
    requires
        2 <= radix <= 16,
    ensures
        res@ == radix_string(n as nat, radix as nat, lower),
    decreases n,
{
    let d = n % radix;
    let c: char = if d < 10 {
        (('0' as u8) + (d as u8)) as char
    } else if lower {
        (('a' as u8) + (d as u8) - 10) as char
    } else {
        (('A' as u8) + (d as u8) - 10) as char
    };
    if n < radix {
        assert(d == n) by (nonlinear_arith)
            requires
                d == n % radix,
                n < radix,
                radix >= 2,
        ;
        let mut v: Vec<char> = Vec::new();
        v.push(c);
        assert(v@ =~= seq![digit_char(n as nat, lower)]);
        v
    } else {
        assert(n / radix < n) by (nonlinear_arith)
            requires
                radix >= 2,
                n >= radix,
        ;
        let mut v = radix_string_exec(n / radix, radix, lower);
        v.push(c);
        v
    }
}

/// `n.to_string()` for a 128-bit count.
pub fn u128_to_decimal(n: u128) -> (res: Vec<char>)
    ensures
        res@ == decimal(n as nat),
    decreases n,
{
    let d = n % 10;
    let c: char = (('0' as u8) + (d as u8)) as char;
    if n < 10 {
        let mut v: Vec<char> = Vec::new();
        v.push(c);
        assert(v@ =~= seq![digit_char(n as nat, true)]);
        v
    } else {
        let mut v = u128_to_decimal(n / 10);
        v.push(c);
        v
    }
}

/// `n.to_string()`.
pub fn u64_to_decimal(n: u64) -> (res: Vec<char>)
    ensures
        res@ == decimal(n as nat),
{
    radix_string_exec(n, 10, true)
}

/// Pads `s` on the left with `0` to at least `width` characters.
pub fn zero_pad_exec(s: Vec<char>, width: usize) -> (res: Vec<char>)
    ensures
        res@ == zero_pad(s@, width as nat),
{
    if s.len() >= width {
        return s;
    }
    let fill = width - s.len();
    let mut res: Vec<char> = Vec::new();
    let mut i: usize = 0;
    while i < fill
        invariant
            i <= fill,
            res@ == Seq::new(i as nat, |j: int| '0'),
        decreases fill - i,
    {
        res.push('0');
        assert(res@ =~= Seq::new((i + 1) as nat, |j: int| '0'));
        i = i + 1;
    }
    let mut k: usize = 0;
    let ghost pre = res@;
    while k < s.len()
        invariant
            k <= s@.len(),
            res@ == pre + s@.take(k as int),
        decreases s.len() - k,
    {
        res.push(s[k]);
        assert(res@ =~= pre + s@.take(k + 1));
        k = k + 1;
    }
    assert(s@.take(s@.len() as int) =~= s@);
    res
}

/// `str::parse::<i64>` on the string these characters spell.
pub fn parse_i64(s: &[char]) -> (res: Option<i64>)
    ensures
        match parse_signed(s@) {
            Some(v) => res == Some(v as i64),
            None => res is None,
        },
{
    if s.len() > 0 && s[0] == '-' {
        let ghost d = s@.drop_first();
        if s.len() == 1 || s[1] == '+' {
            assert(d.len() == 0 || digit_value(d[0], 10) is None);
            return None;
        }
        let rest = crate::text::slice_range(s, 1, s.len());
        assert(rest@ =~= d);
        match parse_u64_radix(&rest, 10) {
            Some(v) => {
                if v > 0x8000_0000_0000_0000u64 {
                    None
                } else if v == 0x8000_0000_0000_0000u64 {
                    Some(i64::MIN)
                } else {
                    Some(-(v as i64))
                }
            },
            None => None,
        }
    } else {
        match parse_u64_radix(s, 10) {
            Some(v) => {
                if v <= 0x7fff_ffff_ffff_ffffu64 {
                    Some(v as i64)
                } else {
                    None
                }
            },
            None => None,
        }
    }
}

/// The digit character for `d` (below 16).
pub fn digit_char_exec(d: u64, lower: bool) -> (res: char)
    requires
        d < 16,
    ensures
        res == digit_char(d as nat, lower),
{
    if d < 10 {
        (('0' as u8) + (d as u8)) as char
    } else if lower {
        (('a' as u8) + (d as u8) - 10) as char
    } else {
        (('A' as u8) + (d as u8) - 10) as char
    }
}


/// Each digit that `Display` writes reads back as its value.
proof fn lemma_digit_char_value(d: nat, radix: nat, lower: bool)
    requires
        d < radix <= 16,
    ensures
        digit_value(digit_char(d, lower), radix) == Some(d),
{
    if d < 10 {
        assert(digit_char(d, lower) as int == '0' as int + d);
    } else if lower {
        assert(digit_char(d, lower) as int == 'a' as int + d - 10);
    } else {
        assert(digit_char(d, lower) as int == 'A' as int + d - 10);
    }
}

/// Leading zeros do not change the value of digits.
proof fn lemma_zero_prefix_value(k: nat, s: Seq<char>, radix: nat)
    requires
        2 <= radix,
    ensures
        digits_value(Seq::new(k, |i: int| '0') + s, radix) == digits_value(s, radix),
        all_digits(s, radix) ==> all_digits(Seq::new(k, |i: int| '0') + s, radix),
    decreases s.len() + k,
{
    let z = Seq::new(k, |i: int| '0');
    if s.len() > 0 {
        lemma_zero_prefix_value(k, s.drop_last(), radix);
        assert((z + s).drop_last() =~= z + s.drop_last());
        assert((z + s).last() == s.last());
    } else if k > 0 {
        lemma_zero_prefix_value((k - 1) as nat, s, radix);
        assert(z + s =~= z);
        assert(z.drop_last() =~= Seq::new((k - 1) as nat, |i: int| '0') + s);
        assert(digit_value(z.last(), radix) == Some(0nat));
        assert(digits_value(z.drop_last(), radix) == 0);
        assert(0 * radix == 0) by (nonlinear_arith);
    } else {
        assert(z + s =~= s);
    }
    if all_digits(s, radix) {
        assert forall|i: int| 0 <= i < (z + s).len() implies (#[trigger] digit_value(
            (z + s)[i],
            radix,
        )) is Some by {
            if i >= k {
                assert((z + s)[i] == s[i - k]);
            }
        }
    }
}

/// A number written in a base from 2 to 16 reads back as that number:
/// the text is all digits of the base and spells the number.
pub proof fn law_radix_string_reads_back(n: nat, radix: nat, lower: bool)
    requires
        2 <= radix <= 16,
    ensures
        all_digits(radix_string(n, radix, lower), radix),
        digits_value(radix_string(n, radix, lower), radix) == n,
        radix_string(n, radix, lower).len() >= 1,
    decreases n,
{
    let s = radix_string(n, radix, lower);
    if n < radix {
        lemma_digit_char_value(n, radix, lower);
        assert(s.drop_last() =~= Seq::<char>::empty());
        assert(digits_value(s.drop_last(), radix) == 0);
        assert(0 * radix == 0) by (nonlinear_arith);
    } else {
        assert(n / radix < n) by (nonlinear_arith)
            requires
                radix >= 2,
                n >= radix,
        ;
        law_radix_string_reads_back(n / radix, radix, lower);
        lemma_digit_char_value(n % radix, radix, lower);
        let p = radix_string(n / radix, radix, lower);
        assert(s.drop_last() =~= p);
        assert(n == (n / radix) * radix + n % radix) by (nonlinear_arith)
            requires
                radix >= 2,
        ;
        assert forall|i: int| 0 <= i < s.len() implies (#[trigger] digit_value(s[i], radix)) is Some by {
            if i < p.len() {
                assert(s[i] == p[i]);
            }
        }
    }
}

/// What `u64::to_string` writes, `str::parse::<u64>` reads back.
pub proof fn law_decimal_reads_back(n: nat)
    requires
        n <= u64::MAX,
    ensures
        parse_unsigned(decimal(n), 10) == Some(n),
{
    law_radix_string_reads_back(n, 10, true);
    let s = decimal(n);
    assert(digit_value(s[0], 10) is Some);
}

/// A number padded with leading zeros reads back as that number.
pub proof fn law_zero_padded_reads_back(n: nat, radix: nat, lower: bool, width: nat)
    requires
        2 <= radix <= 16,
        n <= u64::MAX,
    ensures
        parse_unsigned(zero_pad(radix_string(n, radix, lower), width), radix) == Some(n),
{
    law_radix_string_reads_back(n, radix, lower);
    let s = radix_string(n, radix, lower);
    if s.len() < width {
        lemma_zero_prefix_value((width - s.len()) as nat, s, radix);
    }
    let t = zero_pad(s, width);
    assert(digit_value(t[0], radix) is Some);
}

} // verus!
