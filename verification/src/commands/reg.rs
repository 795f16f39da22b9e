//! Output of `reg.exe query`.
//!
//! ```text
//! HKEY_LOCAL_MACHINE\SOFTWARE\Microsoft\Windows NT\CurrentVersion
//!     CurrentBuildNumber    REG_SZ    26100
//! ```

use vstd::prelude::*;
use crate::text::{
    chars_eq, chars_of, find_from, find_from_exec, join, join_from, lines, lower_chars,
    slice_range, split_lines, split_words, starts_with, starts_with_exec, str_to_lowercase,
    str_to_uppercase, string_from_chars, trim, trim_chars, upper_chars, views, words,
};
use crate::numfmt::{decimal, parse_u64_radix, parse_unsigned, u64_to_decimal};

verus! {

/// The separator `reg.exe` puts between the columns of a value line.
pub open spec fn column_sep() -> Seq<char> {
    seq![' ', ' ', ' ', ' ']
}

/// The second and third of the (at most three) parts that splitting `t` at
/// `column_sep()` gives (`splitn(3, "    ")`), when there are three.
pub open spec fn split3(t: Seq<char>) -> Option<(Seq<char>, Seq<char>)> {
    match find_from(t, column_sep(), 0) {
        Some(j1) => match find_from(t, column_sep(), j1 + 4) {
            Some(j2) => Some((t.subrange(j1 + 4, j2), t.subrange(j2 + 4, t.len() as int))),
            None => None,
        },
        None => None,
    }
}

/// The first word at or after `i` that starts with `REG_`, with the words
/// after it joined by single spaces.
pub open spec fn reg_word_from(w: Seq<Seq<char>>, i: int) -> Option<(Seq<char>, Seq<char>)>
    decreases w.len() - i,
{
    if i < 0 || i >= w.len() {
        None
    } else if starts_with(w[i], "REG_"@) {
        Some((w[i], join(w.subrange(i + 1, w.len() as int), " "@)))
    } else {
        reg_word_from(w, i + 1)
    }
}

/// Type and value of one line of `reg.exe query` output, if it holds them.
pub open spec fn reg_line(line: Seq<char>) -> Option<(Seq<char>, Seq<char>)> {
    let t = trim(line);
    if t.len() == 0 || starts_with(t, "HKEY_"@) {
        None
    } else {
        match split3(t) {
            Some((p1, p2)) => Some((trim(p1), trim(p2))),
            None => if words(t).len() >= 3 {
                reg_word_from(words(t), 0)
            } else {
                None
            },
        }
    }
}

/// The first line at or after `i` that holds a type and a value.
pub open spec fn first_reg_line(ls: Seq<Seq<char>>, i: int) -> Option<(Seq<char>, Seq<char>)>
    decreases ls.len() - i,
{
    if i < 0 || i >= ls.len() {
        None
    } else if reg_line(ls[i]) is Some {
        reg_line(ls[i])
    } else {
        first_reg_line(ls, i + 1)
    }
}

/// What `parse_reg_output` returns.
pub open spec fn reg_output(o: Seq<char>) -> Option<(Seq<char>, Seq<char>)> {
    first_reg_line(lines(o), 0)
}

/// The registry types whose values `reg.exe` prints in hexadecimal.
pub open spec fn is_numeric_type(upper: Seq<char>) -> bool {
    upper == "REG_DWORD"@ || upper == "REG_QWORD"@ || upper == "REG_DWORD_BIG_ENDIAN"@
}

/// The hexadecimal digits after a `0x` or `0X` prefix.
pub open spec fn hex_digits(value: Seq<char>) -> Option<Seq<char>> {
    if starts_with(value, "0x"@) || starts_with(value, "0X"@) {
        Some(value.subrange(2, value.len() as int))
    } else {
        None
    }
}

/// A value normalized for the upper-cased type `upper`: a numeric type's
/// `0x` value that parses becomes decimal; anything else is kept.
pub open spec fn reg_value_for_upper(upper: Seq<char>, value: Seq<char>) -> Seq<char> {
    if is_numeric_type(upper) && hex_digits(value) is Some && parse_unsigned(
        hex_digits(value).unwrap(),
        16,
    ) is Some {
        decimal(parse_unsigned(hex_digits(value).unwrap(), 16).unwrap())
    } else {
        value
    }
}

/// What `normalize_reg_value` returns.
pub open spec fn normalized_reg_value(reg_type: Seq<char>, value: Seq<char>) -> Seq<char> {
    reg_value_for_upper(str_to_uppercase(reg_type), value)
}

// ---------------------------------------------------------------------------
// Implementation
// ---------------------------------------------------------------------------

fn split3_exec(t: &[char]) -> (res: Option<(Vec<char>, Vec<char>)>)
    ensures
        match split3(t@) {
            Some((a, b)) => res is Some && res.unwrap().0@ == a && res.unwrap().1@ == b,
            None => res is None,
        },
{
    let sep = chars_of("    ");
    assert(sep@ =~= column_sep()) by {
        reveal_strlit("    ");
    }
    match find_from_exec(t, &sep, 0) {
        Some(j1) => {
            proof {
                reveal_with_fuel(find_from, 1);
            }
            proof {
                lemma_find_from_bounds(t@, column_sep(), 0);
            }
            assert(j1 + 4 <= t.len());
            match find_from_exec(t, &sep, j1 + 4) {
                Some(j2) => {
                    proof {
                        lemma_find_from_bounds(t@, column_sep(), j1 + 4);
                    }
                    assert(j1 + 4 <= j2 && j2 + 4 <= t.len());
                    Some((slice_range(t, j1 + 4, j2), slice_range(t, j2 + 4, t.len())))
                },
                None => None,
            }
        },
        None => None,
    }
}

proof fn lemma_find_from_bounds(s: Seq<char>, p: Seq<char>, i: int)
    ensures
        find_from(s, p, i) matches Some(j) ==> i <= j && j + p.len() <= s.len() && occurs_at_spec(
            s,
            p,
            j,
        ),
    decreases s.len() + 1 - i,
{
    if !(i < 0 || i + p.len() > s.len()) && !crate::text::occurs_at(s, p, i) {
        lemma_find_from_bounds(s, p, i + 1);
    }
}

spec fn occurs_at_spec(s: Seq<char>, p: Seq<char>, j: int) -> bool {
    crate::text::occurs_at(s, p, j)
}

fn reg_word_exec(w: &Vec<Vec<char>>) -> (res: Option<(Vec<char>, Vec<char>)>)
    ensures
        match reg_word_from(views(w@), 0) {
            Some((a, b)) => res is Some && res.unwrap().0@ == a && res.unwrap().1@ == b,
            None => res is None,
        },
{
    let prefix = chars_of("REG_");
    let space = chars_of(" ");
    let ghost wv = views(w@);
    let mut i: usize = 0;
    while i < w.len()
        invariant
            wv == views(w@),
            i <= w@.len(),
            prefix@ == "REG_"@,
            space@ == " "@,
            reg_word_from(wv, 0) == reg_word_from(wv, i as int),
        decreases w.len() - i,
    {
        assert(wv[i as int] == w@[i as int]@);
        if starts_with_exec(&w[i], &prefix) {
            let word = slice_range(&w[i], 0, w[i].len());
            assert(word@ =~= w@[i as int]@);
            let rest = join_from(w, i + 1, &space);
            return Some((word, rest));
        }
        i = i + 1;
    }
    None
}

fn reg_line_exec(line: &[char]) -> (res: Option<(Vec<char>, Vec<char>)>)
    ensures
        match reg_line(line@) {
            Some((a, b)) => res is Some && res.unwrap().0@ == a && res.unwrap().1@ == b,
            None => res is None,
        },
{
    let t = trim_chars(line);
    if t.len() == 0 || starts_with_exec(&t, &chars_of("HKEY_")) {
        return None;
    }
    match split3_exec(&t) {
        Some((p1, p2)) => Some((trim_chars(&p1), trim_chars(&p2))),
        None => {
            let w = split_words(&t);
            if w.len() >= 3 {
                reg_word_exec(&w)
            } else {
                None
            }
        },
    }
}

/// Parses `reg.exe query` output into the value's type and its value, e.g.
/// `("REG_SZ", "26100")`: the first line, other than blank lines and key
/// paths, that has three columns separated by four spaces, or else three
/// or more words one of which starts with `REG_`.
pub fn parse_reg_output(output: &str) -> (res: Option<(String, String)>)
    ensures
        match reg_output(output@) {
            Some((t, v)) => res is Some && res.unwrap().0@ == t && res.unwrap().1@ == v,
            None => res is None,
        },
{
    let o = chars_of(output);
    let ls = split_lines(&o);
    let ghost lv = lines(o@);
    let mut i: usize = 0;
    while i < ls.len()
        invariant
            views(ls@) == lv,
            lv == lines(output@),
            i <= ls@.len(),
            first_reg_line(lv, 0) == first_reg_line(lv, i as int),
        decreases ls.len() - i,
    {
        assert(lv[i as int] == ls@[i as int]@);
        if let Some((t, v)) = reg_line_exec(&ls[i]) {
            return Some((string_from_chars(&t), string_from_chars(&v)));
        }
        i = i + 1;
    }
    None
}

/// Lower-cases a registry type (`REG_SZ` to `reg_sz`).
pub fn normalize_reg_type(reg_type: &str) -> (res: String)
    ensures
        res@ == str_to_lowercase(reg_type@),
{
    string_from_chars(&lower_chars(&chars_of(reg_type)))
}

/// Normalizes a value given the upper-cased type.
pub fn reg_value_for_upper_exec(upper: &[char], value: &[char]) -> (res: Vec<char>)
    ensures
        res@ == reg_value_for_upper(upper@, value@),
{
    let numeric = chars_eq(upper, &chars_of("REG_DWORD")) || chars_eq(upper, &chars_of("REG_QWORD"))
        || chars_eq(upper, &chars_of("REG_DWORD_BIG_ENDIAN"));
    if numeric {
        let prefixed = starts_with_exec(value, &chars_of("0x")) || starts_with_exec(
            value,
            &chars_of("0X"),
        );
        if prefixed {
            proof {
                reveal_strlit("0x");
                reveal_strlit("0X");
            }
            let digits = slice_range(value, 2, value.len());
            if let Some(num) = parse_u64_radix(&digits, 16) {
                return u64_to_decimal(num);
            }
        }
        // A value already written in decimal is kept as it is.
        if let Some(_) = parse_u64_radix(value, 10) {
            let kept = slice_range(value, 0, value.len());
            assert(kept@ =~= value@);
            return kept;
        }
    }
    let kept = slice_range(value, 0, value.len());
    assert(kept@ =~= value@);
    kept
}

/// Normalizes a registry value: a `REG_DWORD`, `REG_QWORD` or
/// `REG_DWORD_BIG_ENDIAN` value written `0x...` becomes its decimal
/// form; every other value is returned as given.
pub fn normalize_reg_value(reg_type: &str, value: &str) -> (res: String)
    ensures
        res@ == normalized_reg_value(reg_type@, value@),
{
    let upper = upper_chars(&chars_of(reg_type));
    string_from_chars(&reg_value_for_upper_exec(&upper, &chars_of(value)))
}

/// Every character of a number written in decimal is a decimal digit.
proof fn lemma_decimal_digits(n: nat)
    ensures
        forall|i: int| 0 <= i < decimal(n).len() ==> '0' <= #[trigger] decimal(n)[i] && decimal(n)[i] <= '9',
    decreases n,
{
    let d = crate::numfmt::digit_char((n % 10) as nat, true);
    assert(n % 10 < 10);
    assert('0' <= d && d <= '9');
    if n >= 10 {
        assert(n / 10 < n);
        lemma_decimal_digits(n / 10);
        assert(decimal(n) == decimal(n / 10).push(d));
    } else {
        assert(n % 10 == n);
        assert(decimal(n) == seq![d]);
    }
}

/// Normalizing a registry value a second time changes nothing, and a
/// value of a type other than `REG_DWORD`, `REG_QWORD` or
/// `REG_DWORD_BIG_ENDIAN` (in any case) is kept as it is.
pub proof fn law_normalize_reg_value_idempotent(reg_type: Seq<char>, value: Seq<char>)
    ensures
        normalized_reg_value(reg_type, normalized_reg_value(reg_type, value)) == normalized_reg_value(
            reg_type,
            value,
        ),
        !is_numeric_type(str_to_uppercase(reg_type)) ==> normalized_reg_value(reg_type, value) == value,
{
    let r = normalized_reg_value(reg_type, value);
    if r != value {
        let n = parse_unsigned(hex_digits(value).unwrap(), 16).unwrap();
        assert(r == decimal(n));
        lemma_decimal_digits(n);
        reveal_strlit("0x");
        reveal_strlit("0X");
        if r.len() >= 2 {
            assert('0' <= r[1] && r[1] <= '9');
            assert(r.subrange(0, 2)[1] == r[1]);
            assert(r.subrange(0, 2) != "0x"@);
            assert(r.subrange(0, 2) != "0X"@);
        }
        assert(hex_digits(r) is None);
    }
}

} // verus!
