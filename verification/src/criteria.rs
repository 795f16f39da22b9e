//! The tests a criterion (CTN) applies: how many objects must exist, how
//! many must pass, how the results of one object's fields combine, and how
//! two strings compare under an operation.

use vstd::prelude::*;
use crate::numfmt::{parse_u64_radix, parse_unsigned};
use crate::text::{
    chars_eq, chars_of, contains, contains_exec, ends_with, ends_with_exec, lower_chars,
    occurs_at, split_on, split_on_exec, starts_with, starts_with_exec, str_to_lowercase, views,
};

verus! {

/// `TEST` existence part: how many of the expected objects must exist.
#[derive(Clone, Copy, PartialEq, Eq, Structural, Debug)]
pub enum ExistenceCheck {
    /// every expected object exists
    All,
    /// no constraint
    Any,
    /// no object exists
    NoneExist,
    /// one or more exist
    AtLeastOne,
    /// exactly one exists
    OnlyOne,
}

/// `TEST` item part: how many existing objects must satisfy the state.
#[derive(Clone, Copy, PartialEq, Eq, Structural, Debug)]
pub enum ItemCheck {
    /// every existing object passes
    All,
    /// one or more pass
    AtLeastOne,
    /// exactly one passes
    OnlyOne,
    /// no object passes
    NoneSatisfy,
}

/// How the results of an object's state fields combine.
#[derive(Clone, Copy, PartialEq, Eq, Structural, Debug)]
pub enum StateOperator {
    And,
    Or,
    One,
}

/// The operation of a state field.
#[derive(Clone, Copy, PartialEq, Eq, Structural, Debug)]
pub enum Operation {
    Equals,
    NotEqual,
    GreaterThan,
    LessThan,
    GreaterThanOrEqual,
    LessThanOrEqual,
    Contains,
    NotContains,
    StartsWith,
    EndsWith,
    NotStartsWith,
    NotEndsWith,
    PatternMatch,
    Matches,
    CaseInsensitiveEquals,
    CaseInsensitiveNotEqual,
}

/// The outcome of a criterion.
#[derive(Clone, Copy, PartialEq, Eq, Structural, Debug)]
pub enum Outcome {
    Pass,
    Fail,
}

/// The `TEST` line of a criterion.
#[derive(Clone, Copy, PartialEq, Eq, Structural, Debug)]
pub struct TestSpecification {
    pub existence_check: ExistenceCheck,
    pub item_check: ItemCheck,
    /// `None` when the line names no operator, which means AND.
    pub state_operator: Option<StateOperator>,
}

/// Whether `found` objects of `expected` meet the existence check.
pub open spec fn existence_holds(check: ExistenceCheck, found: nat, expected: nat) -> bool {
    match check {
        ExistenceCheck::All => found == expected,
        ExistenceCheck::Any => true,
        ExistenceCheck::NoneExist => found == 0,
        ExistenceCheck::AtLeastOne => found >= 1,
        ExistenceCheck::OnlyOne => found == 1,
    }
}

/// Whether `passing` objects of `total` meet the item check.
pub open spec fn item_holds(check: ItemCheck, passing: nat, total: nat) -> bool {
    match check {
        ItemCheck::All => passing == total,
        ItemCheck::AtLeastOne => passing >= 1,
        ItemCheck::OnlyOne => passing == 1,
        ItemCheck::NoneSatisfy => passing == 0,
    }
}

/// How many of `bs` are true.
pub open spec fn count_true(bs: Seq<bool>) -> nat
    decreases bs.len(),
{
    if bs.len() == 0 {
        0
    } else {
        count_true(bs.drop_last()) + if bs.last() {
            1nat
        } else {
            0nat
        }
    }
}

/// Whether field results `bs` combine to a pass under `op` (AND when absent).
pub open spec fn state_operator_holds(op: Option<StateOperator>, bs: Seq<bool>) -> bool {
    match op {
        Some(StateOperator::Or) => exists|i: int| 0 <= i < bs.len() && #[trigger] bs[i],
        Some(StateOperator::One) => count_true(bs) == 1,
        _ => forall|i: int| 0 <= i < bs.len() ==> #[trigger] bs[i],
    }
}

/// Applies the existence check.
pub fn evaluate_existence_check(check: ExistenceCheck, found: usize, expected: usize) -> (res:
    bool)
    ensures
        res == existence_holds(check, found as nat, expected as nat),
{
    match check {
        ExistenceCheck::All => found == expected,
        ExistenceCheck::Any => true,
        ExistenceCheck::NoneExist => found == 0,
        ExistenceCheck::AtLeastOne => found >= 1,
        ExistenceCheck::OnlyOne => found == 1,
    }
}

/// Applies the item check.
pub fn evaluate_item_check(check: ItemCheck, passing: usize, total: usize) -> (res: bool)
    ensures
        res == item_holds(check, passing as nat, total as nat),
{
    match check {
        ItemCheck::All => passing == total,
        ItemCheck::AtLeastOne => passing >= 1,
        ItemCheck::OnlyOne => passing == 1,
        ItemCheck::NoneSatisfy => passing == 0,
    }
}

/// The existence checks mean what their names say: `none` holds exactly
/// when no object was found and is the opposite of `at_least_one`;
/// `only_one` is one found object; `all` holds when every expected object
/// was found; `any` always holds.
pub proof fn law_existence_checks(found: nat, expected: nat)
    ensures
        existence_holds(ExistenceCheck::NoneExist, found, expected) ==> found == 0,
        existence_holds(ExistenceCheck::NoneExist, 0, expected),
        existence_holds(ExistenceCheck::NoneExist, found, expected) == !existence_holds(
            ExistenceCheck::AtLeastOne,
            found,
            expected,
        ),
        existence_holds(ExistenceCheck::AtLeastOne, found, expected) ==> found >= 1,
        existence_holds(ExistenceCheck::OnlyOne, found, expected) ==> found == 1,
        existence_holds(ExistenceCheck::OnlyOne, 1, expected),
        existence_holds(ExistenceCheck::OnlyOne, found, expected) ==> existence_holds(
            ExistenceCheck::AtLeastOne,
            found,
            expected,
        ),
        existence_holds(ExistenceCheck::All, expected, expected),
        existence_holds(ExistenceCheck::All, found, expected) ==> found == expected,
        existence_holds(ExistenceCheck::Any, found, expected),
{
}

/// The item checks mean what their names say: `none_satisfy` holds exactly
/// when no object passed and is the opposite of `at_least_one`;
/// `only_one` is one passing object; `all` holds when every object passed.
pub proof fn law_item_checks(passing: nat, total: nat)
    ensures
        item_holds(ItemCheck::NoneSatisfy, passing, total) ==> passing == 0,
        item_holds(ItemCheck::NoneSatisfy, 0, total),
        item_holds(ItemCheck::NoneSatisfy, passing, total) == !item_holds(
            ItemCheck::AtLeastOne,
            passing,
            total,
        ),
        item_holds(ItemCheck::AtLeastOne, passing, total) ==> passing >= 1,
        item_holds(ItemCheck::OnlyOne, passing, total) ==> passing == 1,
        item_holds(ItemCheck::OnlyOne, 1, total),
        item_holds(ItemCheck::OnlyOne, passing, total) ==> item_holds(
            ItemCheck::AtLeastOne,
            passing,
            total,
        ),
        item_holds(ItemCheck::All, total, total),
        item_holds(ItemCheck::All, passing, total) ==> passing == total,
{
}

/// A positive count of true results means some result is true.
proof fn lemma_count_true_some(bs: Seq<bool>)
    requires
        count_true(bs) > 0,
    ensures
        exists|i: int| 0 <= i < bs.len() && #[trigger] bs[i],
    decreases bs.len(),
{
    if !bs.last() {
        lemma_count_true_some(bs.drop_last());
        let i = choose|i: int| 0 <= i < bs.drop_last().len() && #[trigger] bs.drop_last()[i];
        assert(bs[i]);
    } else {
        assert(bs[bs.len() - 1]);
    }
}

/// The state operators combine field results as their names say: no
/// operator means AND; AND of no results holds and OR and ONE of them do
/// not; adding a result `b` makes AND `old AND b` and OR `old OR b`; ONE of
/// a single result is that result; and ONE implies OR.
pub proof fn law_state_operators(bs: Seq<bool>, b: bool)
    ensures
        state_operator_holds(None, bs) == state_operator_holds(Some(StateOperator::And), bs),
        state_operator_holds(Some(StateOperator::And), Seq::empty()),
        !state_operator_holds(Some(StateOperator::Or), Seq::empty()),
        !state_operator_holds(Some(StateOperator::One), Seq::empty()),
        state_operator_holds(Some(StateOperator::And), bs.push(b)) == (state_operator_holds(
            Some(StateOperator::And),
            bs,
        ) && b),
        state_operator_holds(Some(StateOperator::Or), bs.push(b)) == (state_operator_holds(
            Some(StateOperator::Or),
            bs,
        ) || b),
        state_operator_holds(Some(StateOperator::One), seq![b]) == b,
        state_operator_holds(Some(StateOperator::One), bs) ==> state_operator_holds(
            Some(StateOperator::Or),
            bs,
        ),
{
    let p = bs.push(b);
    assert(p.drop_last() =~= bs);
    assert(p[bs.len() as int] == b);
    assert forall|i: int| 0 <= i < bs.len() implies #[trigger] p[i] == bs[i] by {}
    if state_operator_holds(Some(StateOperator::Or), p) && !b {
        let i = choose|i: int| 0 <= i < p.len() && #[trigger] p[i];
        assert(bs[i]);
    }
    if state_operator_holds(Some(StateOperator::Or), bs) {
        let i = choose|i: int| 0 <= i < bs.len() && #[trigger] bs[i];
        assert(p[i]);
    }
    let one = seq![b];
    assert(one.drop_last() =~= Seq::<bool>::empty());
    assert(one.last() == b);
    assert(count_true(Seq::<bool>::empty()) == 0);
    assert(count_true(one) == if b { 1nat } else { 0nat });
    if count_true(bs) == 1 {
        lemma_count_true_some(bs);
    }
}

/// Combines field results under the state operator.
pub fn evaluate_state_operator(op: Option<StateOperator>, results: &[bool]) -> (res: bool)
    ensures
        res == state_operator_holds(op, results@),
{
    let mut all = true;
    let mut any = false;
    let mut count: usize = 0;
    let mut i: usize = 0;
    while i < results.len()
        invariant
            i <= results@.len(),
            count == count_true(results@.take(i as int)),
            count <= i,
            all <==> (forall|j: int| 0 <= j < i ==> #[trigger] results@[j]),
            any <==> (exists|j: int| 0 <= j < i && #[trigger] results@[j]),
        decreases results.len() - i,
    {
        assert(results@.take(i + 1).drop_last() =~= results@.take(i as int));
        if results[i] {
            count = count + 1;
            any = true;
        } else {
            all = false;
        }
        i = i + 1;
    }
    assert(results@.take(results@.len() as int) =~= results@);
    match op {
        Some(StateOperator::Or) => any,
        Some(StateOperator::One) => count == 1,
        _ => all,
    }
}

/// Names whether `regex::Regex::new` accepts `pattern`.
pub uninterp spec fn regex_compiles(pattern: Seq<char>) -> bool;

/// Names what `Regex::is_match` returns for the compiled `pattern` on
/// `haystack`: whether a match occurs anywhere in it.
pub uninterp spec fn regex_is_match(pattern: Seq<char>, haystack: Seq<char>) -> bool;

/// Compiles `pattern` with `regex::Regex::new` and, when that succeeds,
/// searches `haystack` with `Regex::is_match`. The contract claims only that
/// the result is present exactly when the pattern compiled, and that it is
/// the named match result; the regex semantics stay with the crate.
#[verifier::external_body]
fn regex_search(pattern: &str, haystack: &str) -> (res: Option<bool>)
    ensures
        res is Some <==> regex_compiles(pattern@),
        res matches Some(b) ==> b == regex_is_match(pattern@, haystack@),
{
    match regex::Regex::new(pattern) {
        Ok(re) => Some(re.is_match(haystack)),
        Err(_) => None,
    }
}

/// The result of comparing `actual` with `expected` under `op`, or `None`
/// where the operation does not apply to strings or the pattern is invalid.
pub open spec fn string_compare_spec(actual: Seq<char>, expected: Seq<char>, op: Operation) -> Option<
    bool,
> {
    match op {
        Operation::Equals => Some(actual == expected),
        Operation::NotEqual => Some(actual != expected),
        Operation::Contains => Some(contains(actual, expected)),
        Operation::NotContains => Some(!contains(actual, expected)),
        Operation::StartsWith => Some(starts_with(actual, expected)),
        Operation::EndsWith => Some(ends_with(actual, expected)),
        Operation::NotStartsWith => Some(!starts_with(actual, expected)),
        Operation::NotEndsWith => Some(!ends_with(actual, expected)),
        Operation::CaseInsensitiveEquals => Some(
            str_to_lowercase(actual) == str_to_lowercase(expected),
        ),
        Operation::CaseInsensitiveNotEqual => Some(
            str_to_lowercase(actual) != str_to_lowercase(expected),
        ),
        Operation::PatternMatch | Operation::Matches => if regex_compiles(expected) {
            Some(regex_is_match(expected, actual))
        } else {
            None
        },
        _ => None,
    }
}

/// String comparison means what the operation names: a string equals,
/// contains, starts and ends with itself; each negated operation is the
/// negation of its positive one; `x + e + y` contains `e`, `e + y` starts
/// with `e`, `x + e` ends with `e`; starting or ending with `e` implies
/// containing it; and a string longer than another neither equals nor is
/// contained in it.
pub proof fn law_string_comparisons(a: Seq<char>, e: Seq<char>, x: Seq<char>, y: Seq<char>)
    ensures
        string_test(a, a, Operation::Equals),
        string_test(a, a, Operation::Contains),
        string_test(a, a, Operation::StartsWith),
        string_test(a, a, Operation::EndsWith),
        string_test(a, a, Operation::CaseInsensitiveEquals),
        string_test(a, e, Operation::Equals) == (a == e),
        string_test(a, e, Operation::NotEqual) == !string_test(a, e, Operation::Equals),
        string_test(a, e, Operation::NotContains) == !string_test(a, e, Operation::Contains),
        string_test(a, e, Operation::NotStartsWith) == !string_test(a, e, Operation::StartsWith),
        string_test(a, e, Operation::NotEndsWith) == !string_test(a, e, Operation::EndsWith),
        string_test(a, e, Operation::CaseInsensitiveNotEqual) == !string_test(
            a,
            e,
            Operation::CaseInsensitiveEquals,
        ),
        string_test(x + e + y, e, Operation::Contains),
        string_test(e + y, e, Operation::StartsWith),
        string_test(x + e, e, Operation::EndsWith),
        string_test(a, e, Operation::StartsWith) ==> string_test(a, e, Operation::Contains),
        string_test(a, e, Operation::EndsWith) ==> string_test(a, e, Operation::Contains),
        e.len() > a.len() ==> !string_test(a, e, Operation::Contains) && !string_test(
            a,
            e,
            Operation::Equals,
        ),
{
    assert(occurs_at(a, a, 0)) by {
        assert(a.subrange(0, a.len() as int) =~= a);
    }
    assert(a.subrange(0, a.len() as int) =~= a);
    assert(a.subrange(a.len() - a.len(), a.len() as int) =~= a);
    assert(occurs_at(x + e + y, e, x.len() as int)) by {
        assert((x + e + y).subrange(x.len() as int, (x.len() + e.len()) as int) =~= e);
    }
    assert((e + y).subrange(0, e.len() as int) =~= e);
    assert((x + e).subrange((x + e).len() - e.len(), (x + e).len() as int) =~= e);
    if string_test(a, e, Operation::StartsWith) {
        assert(occurs_at(a, e, 0));
    }
    if string_test(a, e, Operation::EndsWith) {
        assert(occurs_at(a, e, a.len() - e.len()));
    }
}

/// Compares two strings under an operation.
pub fn string_compare(actual: &str, expected: &str, op: Operation) -> (res: Option<bool>)
    ensures
        res == string_compare_spec(actual@, expected@, op),
{
    let a = chars_of(actual);
    let e = chars_of(expected);
    match op {
        Operation::Equals => Some(chars_eq(&a, &e)),
        Operation::NotEqual => Some(!chars_eq(&a, &e)),
        Operation::Contains => Some(contains_exec(&a, &e)),
        Operation::NotContains => Some(!contains_exec(&a, &e)),
        Operation::StartsWith => Some(starts_with_exec(&a, &e)),
        Operation::EndsWith => Some(ends_with_exec(&a, &e)),
        Operation::NotStartsWith => Some(!starts_with_exec(&a, &e)),
        Operation::NotEndsWith => Some(!ends_with_exec(&a, &e)),
        Operation::CaseInsensitiveEquals => Some(chars_eq(&lower_chars(&a), &lower_chars(&e))),
        Operation::CaseInsensitiveNotEqual => Some(
            !chars_eq(&lower_chars(&a), &lower_chars(&e)),
        ),
        Operation::PatternMatch | Operation::Matches => regex_search(expected, actual),
        _ => None,
    }
}

/// Whether a string comparison holds, an inapplicable one counting as false.
pub open spec fn string_test(actual: Seq<char>, expected: Seq<char>, op: Operation) -> bool {
    match string_compare_spec(actual, expected, op) {
        Some(b) => b,
        None => false,
    }
}

/// Whether two integers satisfy an ordering or equality operation; other
/// operations do not hold.
pub open spec fn int_test(actual: int, expected: int, op: Operation) -> bool {
    match op {
        Operation::Equals => actual == expected,
        Operation::NotEqual => actual != expected,
        Operation::GreaterThan => actual > expected,
        Operation::LessThan => actual < expected,
        Operation::GreaterThanOrEqual => actual >= expected,
        Operation::LessThanOrEqual => actual <= expected,
        _ => false,
    }
}

/// Executable `int_test`.
pub fn int_compare(actual: i64, expected: i64, op: Operation) -> (res: bool)
    ensures
        res == int_test(actual as int, expected as int, op),
{
    match op {
        Operation::Equals => actual == expected,
        Operation::NotEqual => actual != expected,
        Operation::GreaterThan => actual > expected,
        Operation::LessThan => actual < expected,
        Operation::GreaterThanOrEqual => actual >= expected,
        Operation::LessThanOrEqual => actual <= expected,
        _ => false,
    }
}

/// Whether two booleans satisfy `=` or `!=`; other operations do not hold.
pub open spec fn bool_test(actual: bool, expected: bool, op: Operation) -> bool {
    match op {
        Operation::Equals => actual == expected,
        Operation::NotEqual => actual != expected,
        _ => false,
    }
}

/// Executable `bool_test`.
pub fn bool_compare(actual: bool, expected: bool, op: Operation) -> (res: bool)
    ensures
        res == bool_test(actual, expected, op),
{
    match op {
        Operation::Equals => actual == expected,
        Operation::NotEqual => actual != expected,
        _ => false,
    }
}

/// The values of the pieces that read as `u64`, in order; other pieces are
/// skipped.
pub open spec fn parsed_pieces(ps: Seq<Seq<char>>) -> Seq<nat>
    decreases ps.len(),
{
    if ps.len() == 0 {
        Seq::empty()
    } else {
        let prev = parsed_pieces(ps.drop_last());
        match parse_unsigned(ps.last(), 10) {
            Some(v) => prev.push(v),
            None => prev,
        }
    }
}

/// The numeric components of a dotted version such as `6.3` or `10240.0`.
pub open spec fn version_parts(s: Seq<char>) -> Seq<nat> {
    parsed_pieces(split_on(s, '.'))
}

/// Lexicographic order of two number sequences: `-1` when `a` comes first,
/// `0` when they are equal, `1` when `b` comes first (a proper prefix comes
/// first).
pub open spec fn lex_order(a: Seq<nat>, b: Seq<nat>) -> int
    decreases a.len(),
{
    if a.len() == 0 {
        if b.len() == 0 {
            0
        } else {
            -1
        }
    } else if b.len() == 0 {
        1
    } else if a[0] < b[0] {
        -1
    } else if a[0] > b[0] {
        1
    } else {
        lex_order(a.drop_first(), b.drop_first())
    }
}

/// Whether version `actual` stands in relation `op` to version `expected`,
/// comparing their numeric components lexicographically.
pub open spec fn version_test(actual: Seq<char>, expected: Seq<char>, op: Operation) -> bool {
    let o = lex_order(version_parts(actual), version_parts(expected));
    match op {
        Operation::Equals => o == 0,
        Operation::NotEqual => o != 0,
        Operation::GreaterThan => o == 1,
        Operation::LessThan => o == -1,
        Operation::GreaterThanOrEqual => o != -1,
        Operation::LessThanOrEqual => o != 1,
        _ => false,
    }
}

/// A vector of `u64` as natural numbers.
pub open spec fn nat_view(v: Seq<u64>) -> Seq<nat> {
    v.map_values(|x: u64| x as nat)
}

/// The numeric components of a dotted version.
pub fn version_parts_exec(s: &str) -> (res: Vec<u64>)
    ensures
        nat_view(res@) == version_parts(s@),
{
    let pieces = split_on_exec(&chars_of(s), '.');
    let mut res: Vec<u64> = Vec::new();
    let mut i: usize = 0;
    while i < pieces.len()
        invariant
            i <= pieces@.len(),
            views(pieces@) == split_on(s@, '.'),
            nat_view(res@) == parsed_pieces(views(pieces@).take(i as int)),
        decreases pieces.len() - i,
    {
        assert(views(pieces@).take(i + 1).drop_last() =~= views(pieces@).take(i as int));
        assert(views(pieces@).take(i + 1).last() == pieces@[i as int]@);
        match parse_u64_radix(&pieces[i], 10) {
            Some(v) => {
                let ghost before = nat_view(res@);
                res.push(v);
                assert(nat_view(res@) =~= before.push(v as nat));
            },
            None => {},
        }
        i = i + 1;
    }
    assert(views(pieces@).take(pieces@.len() as int) =~= views(pieces@));
    res
}

/// Lexicographic order of two `u64` vectors.
pub fn lex_order_exec(a: &Vec<u64>, b: &Vec<u64>) -> (res: i8)
    ensures
        res as int == lex_order(nat_view(a@), nat_view(b@)),
{
    let mut i: usize = 0;
    assert(nat_view(a@).skip(0) =~= nat_view(a@));
    assert(nat_view(b@).skip(0) =~= nat_view(b@));
    loop
        invariant
            i <= a@.len(),
            i <= b@.len(),
            lex_order(nat_view(a@), nat_view(b@)) == lex_order(
                nat_view(a@).skip(i as int),
                nat_view(b@).skip(i as int),
            ),
        decreases a.len() - i,
    {
        let ghost sa = nat_view(a@).skip(i as int);
        let ghost sb = nat_view(b@).skip(i as int);
        if i == a.len() {
            return if i == b.len() {
                0
            } else {
                -1
            };
        }
        if i == b.len() {
            return 1;
        }
        assert(sa[0] == a@[i as int] as nat);
        assert(sb[0] == b@[i as int] as nat);
        if a[i] < b[i] {
            return -1;
        }
        if a[i] > b[i] {
            return 1;
        }
        assert(sa.drop_first() =~= nat_view(a@).skip(i + 1));
        assert(sb.drop_first() =~= nat_view(b@).skip(i + 1));
        i = i + 1;
    }
}

/// `lex_order` compares a sequence with itself as equal.
proof fn lemma_lex_order_refl(a: Seq<nat>)
    ensures
        lex_order(a, a) == 0,
    decreases a.len(),
{
    if a.len() > 0 {
        lemma_lex_order_refl(a.drop_first());
    }
}

/// `lex_order` is one of -1, 0, 1, flips sign when its arguments are
/// swapped, and is 0 only for equal sequences.
proof fn lemma_lex_order_antisym(a: Seq<nat>, b: Seq<nat>)
    ensures
        lex_order(a, b) == -1 || lex_order(a, b) == 0 || lex_order(a, b) == 1,
        lex_order(a, b) == -lex_order(b, a),
        lex_order(a, b) == 0 <==> a == b,
    decreases a.len(),
{
    if a.len() > 0 && b.len() > 0 {
        lemma_lex_order_antisym(a.drop_first(), b.drop_first());
        if a[0] == b[0] && a.drop_first() == b.drop_first() {
            assert(a =~= seq![a[0]] + a.drop_first());
            assert(b =~= seq![b[0]] + b.drop_first());
        }
    } else if a.len() == 0 && b.len() == 0 {
        assert(a =~= b);
    }
}

/// The first component in which two component sequences differ decides
/// their order.
proof fn lemma_lex_order_first_difference(a: Seq<nat>, b: Seq<nat>, k: int)
    requires
        0 <= k < a.len(),
        k < b.len(),
        a.take(k) == b.take(k),
        a[k] < b[k],
    ensures
        lex_order(a, b) == -1,
    decreases k,
{
    if k > 0 {
        assert(a[0] == a.take(k)[0]);
        assert(b[0] == b.take(k)[0]);
        assert(a.drop_first().take(k - 1) =~= a.take(k).drop_first());
        assert(b.drop_first().take(k - 1) =~= b.take(k).drop_first());
        lemma_lex_order_first_difference(a.drop_first(), b.drop_first(), k - 1);
    }
}

/// Version comparison is an order: every version equals itself, and so is
/// `<=` and `>=` of itself but not `<` or `>`; `<=` is the negation of `>`
/// and `>=` of `<`; `!=` is the negation of `=`; swapping the two versions
/// swaps `<` with `>` and `<=` with `>=`; `<=` is `<` or `=`; exactly one of
/// `<`, `=`, `>` holds; two versions are equal exactly when their numeric
/// components are; and the first component in which they differ decides
/// `<`.
pub proof fn law_version_order(a: Seq<char>, b: Seq<char>)
    ensures
        version_test(a, a, Operation::Equals),
        version_test(a, a, Operation::LessThanOrEqual),
        version_test(a, a, Operation::GreaterThanOrEqual),
        !version_test(a, a, Operation::LessThan),
        !version_test(a, a, Operation::GreaterThan),
        version_test(a, b, Operation::LessThanOrEqual) == !version_test(a, b, Operation::GreaterThan),
        version_test(a, b, Operation::GreaterThanOrEqual) == !version_test(a, b, Operation::LessThan),
        version_test(a, b, Operation::NotEqual) == !version_test(a, b, Operation::Equals),
        version_test(a, b, Operation::GreaterThan) == version_test(b, a, Operation::LessThan),
        version_test(a, b, Operation::LessThanOrEqual) == version_test(b, a, Operation::GreaterThanOrEqual),
        version_test(a, b, Operation::LessThanOrEqual) == (version_test(a, b, Operation::LessThan)
            || version_test(a, b, Operation::Equals)),
        version_test(a, b, Operation::LessThan) || version_test(a, b, Operation::Equals)
            || version_test(a, b, Operation::GreaterThan),
        !(version_test(a, b, Operation::LessThan) && version_test(a, b, Operation::GreaterThan)),
        version_test(a, b, Operation::Equals) == (version_parts(a) == version_parts(b)),
        forall|k: int|
            0 <= k < version_parts(a).len() && k < version_parts(b).len()
                && version_parts(a).take(k) == version_parts(b).take(k) && #[trigger] version_parts(
                a,
            )[k] < version_parts(b)[k] ==> version_test(a, b, Operation::LessThan),
{
    lemma_lex_order_refl(version_parts(a));
    lemma_lex_order_antisym(version_parts(a), version_parts(b));
    assert forall|k: int|
        0 <= k < version_parts(a).len() && k < version_parts(b).len()
            && version_parts(a).take(k) == version_parts(b).take(k) && #[trigger] version_parts(
            a,
        )[k] < version_parts(b)[k] implies version_test(a, b, Operation::LessThan) by {
        lemma_lex_order_first_difference(version_parts(a), version_parts(b), k);
    }
}

/// Integer comparison is an order in the same way: `<=` is the negation of
/// `>`, `>=` of `<`, `!=` of `=`; swapping the operands swaps `<` with `>`;
/// and every integer is `=`, `<=`, `>=` itself.
pub proof fn law_int_order(a: int, b: int)
    ensures
        int_test(a, a, Operation::Equals),
        int_test(a, a, Operation::LessThanOrEqual),
        int_test(a, a, Operation::GreaterThanOrEqual),
        !int_test(a, a, Operation::LessThan),
        !int_test(a, a, Operation::GreaterThan),
        int_test(a, b, Operation::LessThanOrEqual) == !int_test(a, b, Operation::GreaterThan),
        int_test(a, b, Operation::GreaterThanOrEqual) == !int_test(a, b, Operation::LessThan),
        int_test(a, b, Operation::NotEqual) == !int_test(a, b, Operation::Equals),
        int_test(a, b, Operation::GreaterThan) == int_test(b, a, Operation::LessThan),
        int_test(a, b, Operation::Equals) == (a == b),
        int_test(a, b, Operation::LessThan) ==> a < b,
        a < b ==> int_test(a, b, Operation::LessThan),
{
}

/// Boolean comparison: `=` holds of equal values and `!=` is its negation.
pub proof fn law_bool_equality(a: bool, b: bool)
    ensures
        bool_test(a, a, Operation::Equals),
        bool_test(a, b, Operation::Equals) == (a == b),
        bool_test(a, b, Operation::NotEqual) == !bool_test(a, b, Operation::Equals),
{
}

/// Compares two dotted versions under an operation.
pub fn version_compare(actual: &str, expected: &str, op: Operation) -> (res: bool)
    ensures
        res == version_test(actual@, expected@, op),
{
    let o = lex_order_exec(&version_parts_exec(actual), &version_parts_exec(expected));
    match op {
        Operation::Equals => o == 0,
        Operation::NotEqual => o != 0,
        Operation::GreaterThan => o == 1,
        Operation::LessThan => o == -1,
        Operation::GreaterThanOrEqual => o != -1,
        Operation::LessThanOrEqual => o != 1,
        _ => false,
    }
}

} // verus!
