//! The executors of the CTN types that check collected values field by
//! field: services, registry values, registry subkeys and file metadata.

use vstd::prelude::*;
use crate::contract::CtnContract;
use crate::criteria::{
    count_true, evaluate_existence_check, evaluate_item_check, evaluate_state_operator,
    existence_holds, item_holds, state_operator_holds, string_compare, string_test,
    version_compare, version_test, Operation, Outcome,
};
use crate::model::{
    concat, data_fields, lookup, CollectedData, ExecutableObject, ResolvedValue, ValueView,
};
use crate::numfmt::{decimal, u128_to_decimal, u64_to_decimal};
use crate::output::utf8_text;
use crate::output::utf8_char;
use crate::model::{concat3, i64_to_decimal, signed_decimal};
use crate::text::{
    join, chars_eq, chars_of, index_of, index_of_from, lemma_index_of_bounds, split_on, split_on_exec,
    append_chars, slice_range, string_from_chars, views,
};
use crate::validation::{
    check_failures, existence_failure_text, failure_lines, join_lines, note_failure,
    object_messages, pass_word, push_str, string_views, lemma_check_failures_append,
    lemma_check_failures_single,
    check_collected_data, execute_criterion, flat_fields, flatten_states, object_passes,
    object_result_view, object_results_view, objects_view, operation_symbol, operation_text,
    pass_flags, passes, checks_of, field_check_of, field_spec, ref_specs, reports_missing,
    runs_criterion, values_match, values_match_exec, CtnExecutionError, CtnExecutionResult,
    ExecutableCriterion, ExecutorKind, FieldCheck, FieldSpec, FieldValidationResult, StateField,
    StateValidationResult,
};

verus! {

/// Validates collected service data against STATE requirements: existence, then each field, then how many objects must pass.
#[derive(Debug)]
pub struct ServiceExecutor {
    contract: CtnContract,
}

impl ServiceExecutor {
    /// The contract the executor checks against.
    pub closed spec fn contract_view(&self) -> CtnContract {
        self.contract
    }

    /// An executor for `contract`.
    pub fn new(contract: CtnContract) -> (res: Self)
        ensures
            res.contract_view() == contract,
    {
        ServiceExecutor { contract }
    }

    /// Whether `actual` stands in relation `operation` to `expected`.
    pub fn compare_values(
        &self,
        expected: &ResolvedValue,
        actual: &ResolvedValue,
        operation: Operation,
        field_name: &str,
    ) -> (res: bool)
        ensures
            res == values_match(ExecutorKind::Service, expected@, actual@, operation, field_name@),
    {
        values_match_exec(ExecutorKind::Service, expected, actual, operation, field_name)
    }

    /// The symbol shown for an operation.
    pub fn format_operation(&self, op: Operation) -> (res: &'static str)
        ensures
            res@ == operation_symbol(ExecutorKind::Service, op),
    {
        operation_text(ExecutorKind::Service, op)
    }

    /// Runs `criterion` over the data collected for its objects.
    pub fn execute_with_contract(
        &self,
        criterion: &ExecutableCriterion,
        collected_data: Vec<(String, CollectedData)>,
        _contract: &CtnContract,
    ) -> (res: Result<CtnExecutionResult, CtnExecutionError>)
        ensures
            res matches Ok(r) && runs_criterion(
                ExecutorKind::Service,
                self.contract_view(),
                *criterion,
                collected_data,
                r,
            ),
    {
        Ok(execute_criterion(ExecutorKind::Service, &self.contract, criterion, collected_data))
    }

    /// The CTN type the executor handles.
    pub fn ctn_type(&self) -> (res: &'static str)
        ensures
            res@ == "service"@,
    {
        "service"
    }

    /// Checks that the collected data holds the fields the executor needs.
    pub fn validate_collected_data(
        &self,
        collected_data: &Vec<(String, CollectedData)>,
        _contract: &CtnContract,
    ) -> (res: Result<(), CtnExecutionError>)
        ensures
            reports_missing(ExecutorKind::Service, self.contract_view(), *collected_data, res),
    {
        check_collected_data(ExecutorKind::Service, &self.contract, collected_data)
    }
}

/// Validates collected registry values against STATE requirements (type, value, version, integer value).
#[derive(Debug)]
pub struct RegistryExecutor {
    contract: CtnContract,
}

impl RegistryExecutor {
    /// The contract the executor checks against.
    pub closed spec fn contract_view(&self) -> CtnContract {
        self.contract
    }

    /// An executor for `contract`.
    pub fn new(contract: CtnContract) -> (res: Self)
        ensures
            res.contract_view() == contract,
    {
        RegistryExecutor { contract }
    }

    /// Whether `actual` stands in relation `operation` to `expected`.
    pub fn compare_values(
        &self,
        expected: &ResolvedValue,
        actual: &ResolvedValue,
        operation: Operation,
        field_name: &str,
    ) -> (res: bool)
        ensures
            res == values_match(ExecutorKind::Registry, expected@, actual@, operation, field_name@),
    {
        values_match_exec(ExecutorKind::Registry, expected, actual, operation, field_name)
    }

    /// The symbol shown for an operation.
    pub fn format_operation(&self, op: Operation) -> (res: &'static str)
        ensures
            res@ == operation_symbol(ExecutorKind::Registry, op),
    {
        operation_text(ExecutorKind::Registry, op)
    }

    /// Runs `criterion` over the data collected for its objects.
    pub fn execute_with_contract(
        &self,
        criterion: &ExecutableCriterion,
        collected_data: Vec<(String, CollectedData)>,
        _contract: &CtnContract,
    ) -> (res: Result<CtnExecutionResult, CtnExecutionError>)
        ensures
            res matches Ok(r) && runs_criterion(
                ExecutorKind::Registry,
                self.contract_view(),
                *criterion,
                collected_data,
                r,
            ),
    {
        Ok(execute_criterion(ExecutorKind::Registry, &self.contract, criterion, collected_data))
    }

    /// The CTN type the executor handles.
    pub fn ctn_type(&self) -> (res: &'static str)
        ensures
            res@ == "registry"@,
    {
        "registry"
    }

    /// Checks that the collected data holds the fields the executor needs.
    pub fn validate_collected_data(
        &self,
        collected_data: &Vec<(String, CollectedData)>,
        _contract: &CtnContract,
    ) -> (res: Result<(), CtnExecutionError>)
        ensures
            reports_missing(ExecutorKind::Registry, self.contract_view(), *collected_data, res),
    {
        check_collected_data(ExecutorKind::Registry, &self.contract, collected_data)
    }
}

/// Validates the subkeys of registry keys against STATE requirements (count and names).
#[derive(Debug)]
pub struct RegistrySubkeysExecutor {
    contract: CtnContract,
}

impl RegistrySubkeysExecutor {
    /// The contract the executor checks against.
    pub closed spec fn contract_view(&self) -> CtnContract {
        self.contract
    }

    /// An executor for `contract`.
    pub fn new(contract: CtnContract) -> (res: Self)
        ensures
            res.contract_view() == contract,
    {
        RegistrySubkeysExecutor { contract }
    }

    /// Whether `actual` stands in relation `operation` to `expected`.
    pub fn compare_values(
        &self,
        expected: &ResolvedValue,
        actual: &ResolvedValue,
        operation: Operation,
        field_name: &str,
    ) -> (res: bool)
        ensures
            res == values_match(ExecutorKind::RegistrySubkeys, expected@, actual@, operation, field_name@),
    {
        values_match_exec(ExecutorKind::RegistrySubkeys, expected, actual, operation, field_name)
    }

    /// The symbol shown for an operation.
    pub fn format_operation(&self, op: Operation) -> (res: &'static str)
        ensures
            res@ == operation_symbol(ExecutorKind::RegistrySubkeys, op),
    {
        operation_text(ExecutorKind::RegistrySubkeys, op)
    }

    /// Runs `criterion` over the data collected for its objects.
    pub fn execute_with_contract(
        &self,
        criterion: &ExecutableCriterion,
        collected_data: Vec<(String, CollectedData)>,
        _contract: &CtnContract,
    ) -> (res: Result<CtnExecutionResult, CtnExecutionError>)
        ensures
            res matches Ok(r) && runs_criterion(
                ExecutorKind::RegistrySubkeys,
                self.contract_view(),
                *criterion,
                collected_data,
                r,
            ),
    {
        Ok(execute_criterion(ExecutorKind::RegistrySubkeys, &self.contract, criterion, collected_data))
    }

    /// The CTN type the executor handles.
    pub fn ctn_type(&self) -> (res: &'static str)
        ensures
            res@ == "registry_subkeys"@,
    {
        "registry_subkeys"
    }

    /// Checks that the collected data holds the fields the executor needs.
    pub fn validate_collected_data(
        &self,
        collected_data: &Vec<(String, CollectedData)>,
        _contract: &CtnContract,
    ) -> (res: Result<(), CtnExecutionError>)
        ensures
            reports_missing(ExecutorKind::RegistrySubkeys, self.contract_view(), *collected_data, res),
    {
        check_collected_data(ExecutorKind::RegistrySubkeys, &self.contract, collected_data)
    }
}

/// Validates file metadata (permissions, owner, group, size, existence) against STATE requirements.
#[derive(Debug)]
pub struct FileMetadataExecutor {
    contract: CtnContract,
}

impl FileMetadataExecutor {
    /// The contract the executor checks against.
    pub closed spec fn contract_view(&self) -> CtnContract {
        self.contract
    }

    /// An executor for `contract`.
    pub fn new(contract: CtnContract) -> (res: Self)
        ensures
            res.contract_view() == contract,
    {
        FileMetadataExecutor { contract }
    }

    /// Whether `actual` stands in relation `operation` to `expected`.
    pub fn compare_values(
        &self,
        expected: &ResolvedValue,
        actual: &ResolvedValue,
        operation: Operation,
    ) -> (res: bool)
        ensures
            res == values_match(ExecutorKind::FileMetadata, expected@, actual@, operation, Seq::empty()),
    {
        values_match_exec(ExecutorKind::FileMetadata, expected, actual, operation, "")
    }

    /// The symbol shown for an operation.
    pub fn format_operation(&self, op: Operation) -> (res: &'static str)
        ensures
            res@ == operation_symbol(ExecutorKind::FileMetadata, op),
    {
        operation_text(ExecutorKind::FileMetadata, op)
    }

    /// Runs `criterion` over the data collected for its objects.
    pub fn execute_with_contract(
        &self,
        criterion: &ExecutableCriterion,
        collected_data: Vec<(String, CollectedData)>,
        _contract: &CtnContract,
    ) -> (res: Result<CtnExecutionResult, CtnExecutionError>)
        ensures
            res matches Ok(r) && runs_criterion(
                ExecutorKind::FileMetadata,
                self.contract_view(),
                *criterion,
                collected_data,
                r,
            ),
    {
        Ok(execute_criterion(ExecutorKind::FileMetadata, &self.contract, criterion, collected_data))
    }

    /// The CTN type the executor handles.
    pub fn ctn_type(&self) -> (res: &'static str)
        ensures
            res@ == "file_metadata"@,
    {
        "file_metadata"
    }

    /// Checks that the collected data holds the fields the executor needs.
    pub fn validate_collected_data(
        &self,
        collected_data: &Vec<(String, CollectedData)>,
        _contract: &CtnContract,
    ) -> (res: Result<(), CtnExecutionError>)
        ensures
            reports_missing(ExecutorKind::FileMetadata, self.contract_view(), *collected_data, res),
    {
        check_collected_data(ExecutorKind::FileMetadata, &self.contract, collected_data)
    }
}

impl RegistryExecutor {
    /// Compares two dotted versions by their numeric components.
    pub fn compare_versions(&self, actual: &str, expected: &str, operation: Operation) -> (res:
        bool)
        ensures
            res == version_test(actual@, expected@, operation),
    {
        version_compare(actual, expected, operation)
    }
}

// ---------------------------------------------------------------------------
// File content
// ---------------------------------------------------------------------------

/// The checks of the `content` fields of a STATE against file content `c`;
/// other fields are not checked here.
pub open spec fn content_checks(flat: Seq<FieldSpec>, c: Seq<char>) -> Seq<FieldCheck>
    decreases flat.len(),
{
    if flat.len() == 0 {
        Seq::empty()
    } else {
        let prev = content_checks(flat.drop_last(), c);
        let f = flat.last();
        if f.name != "content"@ {
            prev
        } else {
            let passed = match f.value {
                ValueView::Str(e) => string_test(c, e, f.op),
                _ => false,
            };
            prev.push(
                FieldCheck {
                    name: f.name,
                    expected: f.value,
                    actual: ValueView::Str(c),
                    op: f.op,
                    passed,
                    message: content_check_text(f, c, passed),
                },
            )
        }
    }
}

/// A value as `{:?}` shows it.
pub open spec fn debug_text(v: ValueView) -> Seq<char> {
    match v {
        ValueView::Str(s) => "String(\""@ + s + "\")"@,
        ValueView::Int(i) => "Integer("@ + signed_decimal(i) + ")"@,
        ValueView::Bool(b) => if b {
            "Boolean(true)"@
        } else {
            "Boolean(false)"@
        },
        ValueView::Ver(s) => "Version(\""@ + s + "\")"@,
    }
}

/// A value as `{:?}` shows it.
pub fn debug_value(v: &ResolvedValue) -> (res: String)
    ensures
        res@ == debug_text(v@),
{
    match v {
        ResolvedValue::String(s) => concat3("String(\"", s.as_str(), "\")"),
        ResolvedValue::Integer(i) => {
            let digits = string_from_chars(&i64_to_decimal(*i));
            concat3("Integer(", digits.as_str(), ")")
        },
        ResolvedValue::Boolean(b) => if *b {
            "Boolean(true)".to_string()
        } else {
            "Boolean(false)".to_string()
        },
        ResolvedValue::Version(s) => concat3("Version(\"", s.as_str(), "\")"),
    }
}

/// The number of leading characters of `s` whose encoding fits in `max`
/// bytes.
pub open spec fn fit_chars(s: Seq<char>, max: nat) -> nat
    decreases s.len(),
{
    if s.len() == 0 || byte_len(s) <= max {
        s.len()
    } else {
        fit_chars(s.drop_last(), max)
    }
}

/// From position `j` on, the first position after which at most `max`
/// bytes of the encoding of `s` remain.
pub open spec fn tail_from(s: Seq<char>, max: nat, j: int) -> int
    decreases s.len() - j,
{
    if j >= s.len() || byte_len(s) - byte_len(s.take(j)) <= max {
        j
    } else {
        tail_from(s, max, j + 1)
    }
}

/// The content shown in a failed `contains` check: all of it up to 100
/// bytes, else its first 100 bytes and its length.
pub open spec fn preview_text(c: Seq<char>) -> Seq<char> {
    if byte_len(c) <= 100 {
        c
    } else {
        c.take(fit_chars(c, 100) as int) + "... ("@ + decimal(byte_len(c)) + " chars total)"@
    }
}

/// The message of the check of a `content` field against content `c`.
pub open spec fn content_check_text(f: FieldSpec, c: Seq<char>, passed: bool) -> Seq<char> {
    let o = operation_symbol(ExecutorKind::FileMetadata, f.op);
    match f.value {
        ValueView::Str(e) => if passed {
            "Content check passed: "@ + o + " '"@ + e + "'"@
        } else {
            match f.op {
                Operation::Contains | Operation::NotContains => "Content check failed: "@ + o
                    + " '"@ + e + "' (content preview: "@ + preview_text(c) + ")"@,
                Operation::StartsWith => "Content check failed: expected to start with '"@ + e
                    + "', actual start: '"@ + (if byte_len(c) > 50 {
                    c.take(fit_chars(c, 50) as int) + "..."@
                } else {
                    c
                }) + "'"@,
                Operation::EndsWith => "Content check failed: expected to end with '"@ + e
                    + "', actual end: '"@ + (if byte_len(c) > 50 {
                    "..."@ + c.subrange(tail_from(c, 50, 0), c.len() as int)
                } else {
                    c
                }) + "'"@,
                _ => "Content check failed: "@ + o + " '"@ + e + "'"@,
            }
        },
        _ => "Expected value for field '"@ + f.name + "' must be a string, got "@ + debug_text(
            f.value,
        ),
    }
}

/// The content of an object's data: `Some(Some(c))` for text, `Some(None)`
/// for a value of another kind, `None` when there is none.
pub open spec fn content_of(d: Seq<(Seq<char>, ValueView)>) -> Option<Option<Seq<char>>> {
    match lookup(d, "file_content"@) {
        Some(ValueView::Str(c)) => Some(Some(c)),
        Some(_) => Some(None),
        None => None,
    }
}

/// Whether some object's data lacks text content; then, whether the first
/// such object has content of another kind (`true`) or none (`false`).
pub open spec fn first_content_problem(objs: Seq<(Seq<char>, Seq<(Seq<char>, ValueView)>)>) -> Option<
    bool,
>
    decreases objs.len(),
{
    if objs.len() == 0 {
        None
    } else {
        match content_of(objs[0].1) {
            Some(Some(_)) => first_content_problem(objs.drop_first()),
            Some(None) => Some(true),
            None => Some(false),
        }
    }
}

/// The result of each object, in order.
pub open spec fn content_results(
    op: Option<crate::criteria::StateOperator>,
    flat: Seq<FieldSpec>,
    objs: Seq<(Seq<char>, Seq<(Seq<char>, ValueView)>)>,
) -> Seq<(Seq<char>, Seq<FieldCheck>, bool)> {
    objs.map_values(
        |o: (Seq<char>, Seq<(Seq<char>, ValueView)>)|
            {
                let c = match content_of(o.1) {
                    Some(Some(c)) => c,
                    _ => Seq::empty(),
                };
                let cs = content_checks(flat, c);
                (o.0, cs, state_operator_holds(op, passes(cs)))
            },
    )
}

/// The message of an object's content checks.
pub open spec fn content_object_message(id: Seq<char>, cs: Seq<FieldCheck>, passed: bool) -> Seq<char> {
    "Object '"@ + id + "': "@ + pass_word(passed) + " ("@ + decimal(count_true(passes(cs)))
        + " of "@ + decimal(cs.len()) + " content checks passed)"@
}

/// The message of a file content criterion whose objects were checked.
pub open spec fn content_final_message(
    passed: bool,
    passing: nat,
    total: nat,
    failures: Seq<Seq<char>>,
) -> Seq<char> {
    if passed {
        "File content validation passed: "@ + decimal(passing) + " of "@ + decimal(total)
            + " objects compliant"@
    } else if failures.len() > 0 {
        "File content validation failed:\n  - "@ + join(failures, "\n  - "@)
    } else {
        "File content validation failed: "@ + decimal(passing) + " of "@ + decimal(total)
            + " objects compliant (item check failed)"@
    }
}

/// What running a file content criterion yields: as any criterion when the
/// existence check fails; an error for the first object without text
/// content; otherwise each object's content checks, their combination, and
/// a pass exactly when the item check holds.
pub open spec fn runs_content_criterion(
    criterion: ExecutableCriterion,
    collected: Vec<(String, CollectedData)>,
    res: Result<CtnExecutionResult, CtnExecutionError>,
) -> bool {
    let found = collected@.len() as nat;
    let objs = objects_view(collected@);
    let rs = content_results(criterion.test.state_operator, flat_fields(criterion.states@), objs);
    if !existence_holds(criterion.test.existence_check, found, criterion.objects@.len() as nat) {
        res matches Ok(r) && r.status == Outcome::Fail && r.state_results@.len() == 0
            && r.ctn_type@ == criterion.criterion_type@ && r.collected_data == collected
            && r.failures@.len() == 0 && r.message@ == existence_failure_text(
            ExecutorKind::FileMetadata,
            criterion.objects@.len() as nat,
            found,
        )
    } else {
        match first_content_problem(objs) {
            Some(true) => res matches Err(CtnExecutionError::DataValidationFailed { reason })
                && reason@ == "file_content field is not a string"@,
            Some(false) => res matches Err(CtnExecutionError::MissingDataField { field }) && field@
                == "file_content"@,
            None => res matches Ok(r) && {
                &&& r.ctn_type@ == criterion.criterion_type@
                &&& r.collected_data == collected
                &&& r.objects_total == found
                &&& object_results_view(r.state_results@) == rs
                &&& forall|k: int|
                    0 <= k < r.state_results@.len() ==> (#[trigger] r.state_results@[k]).state_operator
                        == criterion.test.state_operator
                &&& object_messages(r.state_results@) == Seq::new(
                    rs.len(),
                    |i: int| content_object_message(rs[i].0, rs[i].1, rs[i].2),
                )
                &&& r.objects_passing == count_true(object_passes(rs))
                &&& (r.status == Outcome::Pass <==> item_holds(
                    criterion.test.item_check,
                    count_true(object_passes(rs)),
                    found,
                ))
                &&& string_views(r.failures@) == failure_lines(ExecutorKind::FileMetadata, rs)
                &&& r.message@ == content_final_message(
                    item_holds(criterion.test.item_check, count_true(object_passes(rs)), found),
                    count_true(object_passes(rs)),
                    found,
                    failure_lines(ExecutorKind::FileMetadata, rs),
                )
            },
        }
    }
}

/// Validates file content with string operations (contains, starts, ends,
/// pattern_match, ...).
#[derive(Debug)]
pub struct FileContentExecutor {
    contract: CtnContract,
}

/// The length in bytes of the UTF-8 encoding of a text (`str::len`).
pub open spec fn byte_len(s: Seq<char>) -> nat {
    utf8_text(s).len()
}

/// The text `preview_content` gives: the text itself when it fits in
/// `max_len` bytes, else its first `max_len` bytes, `...` and its length.
pub open spec fn preview_of(s: Seq<char>, max_len: nat, k: int) -> Seq<char> {
    if byte_len(s) <= max_len {
        s
    } else {
        s.take(k) + "... ("@ + decimal(byte_len(s)) + " chars total)"@
    }
}

proof fn lemma_byte_len_monotone(s: Seq<char>, j: int, k: int)
    requires
        0 <= j <= k <= s.len(),
    ensures
        byte_len(s.take(j)) <= byte_len(s.take(k)),
        j < k ==> byte_len(s.take(j)) < byte_len(s.take(k)),
    decreases k - j,
{
    if j < k {
        lemma_byte_len_monotone(s, j, k - 1);
        assert(s.take(k).drop_last() =~= s.take(k - 1));
    }
}

fn utf8_char_len(c: char) -> (n: u64)
    ensures
        n == utf8_char(c).len(),
        1 <= n <= 4,
{
    let v = c as u32;
    if v < 0x80 {
        1
    } else if v < 0x800 {
        2
    } else if v < 0x10000 {
        3
    } else {
        4
    }
}

proof fn lemma_fit_chars(s: Seq<char>, max: nat, k: int)
    requires
        0 <= k <= s.len(),
        byte_len(s.take(k)) <= max,
        k < s.len() ==> byte_len(s.take(k + 1)) > max,
    ensures
        fit_chars(s, max) == k,
    decreases s.len(),
{
    assert(s.take(s.len() as int) =~= s);
    if s.len() == 0 || byte_len(s) <= max {
        if k < s.len() {
            lemma_byte_len_monotone(s, k + 1, s.len() as int);
        }
    } else {
        let t = s.drop_last();
        assert(t.take(k) =~= s.take(k));
        if k + 1 <= t.len() {
            assert(t.take(k + 1) =~= s.take(k + 1));
        }
        lemma_fit_chars(t, max, k);
    }
}

/// The number of leading characters of `cs` whose encoding fits in `max`
/// bytes, and the number of bytes they take.
fn fitting_prefix(cs: &Vec<char>, max: u128) -> (res: (usize, u128))
    ensures
        res.0 <= cs@.len(),
        res.1 == byte_len(cs@.take(res.0 as int)),
        res.1 <= max,
        res.0 < cs@.len() ==> byte_len(cs@.take(res.0 + 1)) > max,
{
    let n = cs.len();
    let mut acc: u128 = 0;
    let mut i: usize = 0;
    while i < n
        invariant
            n == cs@.len(),
            i <= n,
            acc == byte_len(cs@.take(i as int)),
            acc <= max,
            acc <= 4 * i,
        decreases n - i,
    {
        assert(cs@.take(i + 1).drop_last() =~= cs@.take(i as int));
        let w = utf8_char_len(cs[i]) as u128;
        if acc + w > max {
            return (i, acc);
        }
        acc = acc + w;
        i = i + 1;
    }
    (i, acc)
}

/// The start of the characters of `cs` after which at most `max` bytes of
/// its encoding remain, given its length in bytes `total`.
fn fitting_suffix_start(cs: &Vec<char>, total: u128, max: u128) -> (k: usize)
    requires
        total == byte_len(cs@),
    ensures
        k <= cs@.len(),
        k == tail_from(cs@, max as nat, 0),
{
    let n = cs.len();
    let mut acc: u128 = 0;
    let mut i: usize = 0;
    while i < n && total - acc > max
        invariant
            n == cs@.len(),
            i <= n,
            total == byte_len(cs@),
            acc == byte_len(cs@.take(i as int)),
            acc <= total,
            tail_from(cs@, max as nat, i as int) == tail_from(cs@, max as nat, 0),
        decreases n - i,
    {
        proof {
            lemma_byte_len_monotone(cs@, i + 1, n as int);
            assert(cs@.take(n as int) =~= cs@);
        }
        assert(cs@.take(i + 1).drop_last() =~= cs@.take(i as int));
        acc = acc + utf8_char_len(cs[i]) as u128;
        i = i + 1;
    }
    i
}

/// The length in bytes of the encoding of `cs`.
fn byte_len_exec(cs: &Vec<char>) -> (res: u128)
    ensures
        res == byte_len(cs@),
        res <= 4 * cs@.len(),
{
    let n = cs.len();
    let mut total: u128 = 0;
    let mut i: usize = 0;
    while i < n
        invariant
            n == cs@.len(),
            i <= n,
            total == byte_len(cs@.take(i as int)),
            total <= 4 * i,
        decreases n - i,
    {
        assert(cs@.take(i + 1).drop_last() =~= cs@.take(i as int));
        total = total + utf8_char_len(cs[i]) as u128;
        i = i + 1;
    }
    assert(cs@.take(n as int) =~= cs@);
    total
}

/// The message of a failed existence check over objects.
pub(crate) fn existence_message(expected: usize, found: usize) -> (res: String)
    ensures
        res@ == existence_failure_text(ExecutorKind::FileMetadata, expected as nat, found as nat),
{
    let e = string_from_chars(&u128_to_decimal(expected as u128));
    let f = string_from_chars(&u128_to_decimal(found as u128));
    let mut v: Vec<char> = Vec::new();
    push_str(&mut v, "Existence check failed: expected ");
    push_str(&mut v, e.as_str());
    push_str(&mut v, " ");
    push_str(&mut v, "objects");
    push_str(&mut v, ", found ");
    push_str(&mut v, f.as_str());
    assert(Seq::<char>::empty() + "Existence check failed: expected "@
        =~= "Existence check failed: expected "@);
    string_from_chars(&v)
}

/// How many of the results passed.
fn passed_count(results: &Vec<FieldValidationResult>) -> (n: u64)
    ensures
        n == count_true(passes(checks_of(results@))),
{
    let flags = pass_flags(results);
    let mut n: u64 = 0;
    let mut i: usize = 0;
    while i < flags.len()
        invariant
            i <= flags@.len(),
            n == count_true(flags@.take(i as int)),
            n <= i,
        decreases flags.len() - i,
    {
        assert(flags@.take(i + 1).drop_last() =~= flags@.take(i as int));
        if flags[i] {
            n = n + 1;
        }
        i = i + 1;
    }
    assert(flags@.take(flags@.len() as int) =~= flags@);
    n
}

fn content_object_message_exec(id: &str, results: &Vec<FieldValidationResult>, passed: bool) -> (res:
    String)
    ensures
        res@ == content_object_message(id@, checks_of(results@), passed),
{
    let mut v: Vec<char> = Vec::new();
    push_str(&mut v, "Object '");
    push_str(&mut v, id);
    push_str(&mut v, "': ");
    if passed {
        push_str(&mut v, "passed");
    } else {
        push_str(&mut v, "failed");
    }
    push_str(&mut v, " (");
    let pn = string_from_chars(&u64_to_decimal(passed_count(results)));
    push_str(&mut v, pn.as_str());
    push_str(&mut v, " of ");
    let tn = string_from_chars(&u128_to_decimal(results.len() as u128));
    push_str(&mut v, tn.as_str());
    push_str(&mut v, " content checks passed)");
    assert(Seq::<char>::empty() + "Object '"@ =~= "Object '"@);
    assert(checks_of(results@).len() == results@.len());
    string_from_chars(&v)
}

fn content_final_message_exec(passed: bool, passing: usize, total: usize, failures: &Vec<String>) -> (res:
    String)
    ensures
        res@ == content_final_message(passed, passing as nat, total as nat, string_views(failures@)),
{
    let p = string_from_chars(&u128_to_decimal(passing as u128));
    let t = string_from_chars(&u128_to_decimal(total as u128));
    let mut v: Vec<char> = Vec::new();
    if passed {
        push_str(&mut v, "File content validation passed: ");
        push_str(&mut v, p.as_str());
        push_str(&mut v, " of ");
        push_str(&mut v, t.as_str());
        push_str(&mut v, " objects compliant");
        assert(Seq::<char>::empty() + "File content validation passed: "@
            =~= "File content validation passed: "@);
    } else if failures.len() > 0 {
        push_str(&mut v, "File content validation failed:\n  - ");
        let joined = join_lines(failures);
        append_chars(&mut v, &joined);
        assert(Seq::<char>::empty() + "File content validation failed:\n  - "@
            =~= "File content validation failed:\n  - "@);
    } else {
        push_str(&mut v, "File content validation failed: ");
        push_str(&mut v, p.as_str());
        push_str(&mut v, " of ");
        push_str(&mut v, t.as_str());
        push_str(&mut v, " objects compliant (item check failed)");
        assert(Seq::<char>::empty() + "File content validation failed: "@
            =~= "File content validation failed: "@);
    }
    string_from_chars(&v)
}

impl FileContentExecutor {
    /// The contract the executor checks against.
    pub closed spec fn contract_view(&self) -> CtnContract {
        self.contract
    }

    /// An executor for `contract`.
    pub fn new(contract: CtnContract) -> (res: Self)
        ensures
            res.contract_view() == contract,
    {
        FileContentExecutor { contract }
    }

    /// Compares content with an expected string; an operation that does not
    /// apply to strings, or an invalid pattern, fails.
    pub fn compare_string_operation(&self, expected: &str, actual: &str, operation: Operation) -> (res:
        bool)
        ensures
            res == string_test(actual@, expected@, operation),
    {
        match string_compare(actual, expected, operation) {
            Some(b) => b,
            None => false,
        }
    }

    /// The CTN type the executor handles.
    pub fn ctn_type(&self) -> (res: &'static str)
        ensures
            res@ == "file_content"@,
    {
        "file_content"
    }

    /// A preview of content for messages: the content when it is at most
    /// `max_len` bytes long, else its first `max_len` bytes followed by
    /// `... (N chars total)` with its length in bytes. The cut must fall
    /// between characters.
    pub fn preview_content(&self, content: &str, max_len: usize) -> (res: String)
        requires
            byte_len(content@) <= max_len || exists|k: int|
                0 <= k <= content@.len() && byte_len(content@.take(k)) == max_len,
        ensures
            exists|k: int|
                0 <= k <= content@.len() && (byte_len(content@) > max_len ==> byte_len(
                    content@.take(k),
                ) == max_len) && res@ == preview_of(content@, max_len as nat, k),
    {
        let cs = chars_of(content);
        let n = cs.len();
        let total = byte_len_exec(&cs);
        if total <= max_len as u128 {
            assert(preview_of(content@, max_len as nat, 0) == content@);
            return content.to_string();
        }
        let mut acc: u128 = 0;
        let mut k: usize = 0;
        while acc < max_len as u128
            invariant
                n == cs@.len(),
                cs@ == content@,
                total == byte_len(cs@),
                total > max_len,
                k <= n,
                acc == byte_len(cs@.take(k as int)),
                acc <= 4 * k,
                k > 0 ==> byte_len(cs@.take(k - 1)) < max_len,
            decreases n - k,
        {
            if k == n {
                assert(cs@.take(n as int) =~= cs@);
                assert(false);
            }
            assert(cs@.take(k + 1).drop_last() =~= cs@.take(k as int));
            acc = acc + utf8_char_len(cs[k]) as u128;
            k = k + 1;
        }
        proof {
            let w = choose|w: int| 0 <= w <= content@.len() && byte_len(content@.take(w)) == max_len;
            if k > 0 {
                assert(cs@.take(k as int).drop_last() =~= cs@.take(k - 1));
                if byte_len(cs@.take(k - 1)) >= max_len {
                    // the loop would have stopped a step earlier
                    assert(false);
                }
                if w < k {
                    lemma_byte_len_monotone(cs@, w, k - 1);
                } else {
                    lemma_byte_len_monotone(cs@, k as int, w);
                }
            }
            assert(acc == max_len);
        }
        let mut v = slice_range(&cs, 0, k);
        let digits = u128_to_decimal(total);
        append_chars(&mut v, &chars_of("... ("));
        append_chars(&mut v, &digits);
        append_chars(&mut v, &chars_of(" chars total)"));
        assert(cs@.subrange(0, k as int) =~= cs@.take(k as int));
        let res = string_from_chars(&v);
        assert(res@ == preview_of(content@, max_len as nat, k as int));
        assert(byte_len(content@.take(k as int)) == max_len);
        res
    }

    /// The message of one content check, as the executor reports it.
    fn content_message(
        &self,
        f: &StateField,
        content: &String,
        cs: &Vec<char>,
        total: u128,
        passed: bool,
    ) -> (res: String)
        requires
            cs@ == content@,
            total == byte_len(cs@),
        ensures
            res@ == content_check_text(field_spec(*f), content@, passed),
    {
        let op = operation_text(ExecutorKind::FileMetadata, f.operation);
        let mut v: Vec<char> = Vec::new();
        let expected = match &f.value {
            ResolvedValue::String(e) => e,
            ResolvedValue::Integer(i) => {
                push_str(&mut v, "Expected value for field '");
                push_str(&mut v, f.name.as_str());
                push_str(&mut v, "' must be a string, got ");
                let digits = string_from_chars(&i64_to_decimal(*i));
                let shown = concat3("Integer(", digits.as_str(), ")");
                push_str(&mut v, shown.as_str());
                assert(Seq::<char>::empty() + "Expected value for field '"@
                    =~= "Expected value for field '"@);
                return string_from_chars(&v);
            },
            ResolvedValue::Boolean(b) => {
                push_str(&mut v, "Expected value for field '");
                push_str(&mut v, f.name.as_str());
                push_str(&mut v, "' must be a string, got ");
                if *b {
                    push_str(&mut v, "Boolean(true)");
                } else {
                    push_str(&mut v, "Boolean(false)");
                }
                assert(Seq::<char>::empty() + "Expected value for field '"@
                    =~= "Expected value for field '"@);
                return string_from_chars(&v);
            },
            ResolvedValue::Version(ver) => {
                push_str(&mut v, "Expected value for field '");
                push_str(&mut v, f.name.as_str());
                push_str(&mut v, "' must be a string, got ");
                let shown = concat3("Version(\"", ver.as_str(), "\")");
                push_str(&mut v, shown.as_str());
                assert(Seq::<char>::empty() + "Expected value for field '"@
                    =~= "Expected value for field '"@);
                return string_from_chars(&v);
            },
        };
        if passed {
            push_str(&mut v, "Content check passed: ");
            push_str(&mut v, op);
            push_str(&mut v, " '");
            push_str(&mut v, expected.as_str());
            push_str(&mut v, "'");
            assert(Seq::<char>::empty() + "Content check passed: "@ =~= "Content check passed: "@);
            return string_from_chars(&v);
        }
        match f.operation {
            Operation::Contains | Operation::NotContains => {
                let preview = if total <= 100 {
                    content.clone()
                } else {
                    let (k, used) = fitting_prefix(cs, 100);
                    proof {
                        lemma_fit_chars(cs@, 100, k as int);
                    }
                    if used == 100 {
                        let p = self.preview_content(content.as_str(), 100);
                        proof {
                            let w = choose|w: int|
                                0 <= w <= content@.len() && (byte_len(content@) > 100 ==> byte_len(
                                    content@.take(w),
                                ) == 100) && p@ == preview_of(content@, 100, w);
                            if w < k {
                                lemma_byte_len_monotone(cs@, w, k as int);
                            } else if w > k {
                                lemma_byte_len_monotone(cs@, k as int, w);
                            }
                        }
                        p
                    } else {
                        let head = string_from_chars(&slice_range(cs, 0, k));
                        let size = string_from_chars(&u128_to_decimal(total));
                        let mut w: Vec<char> = Vec::new();
                        push_str(&mut w, head.as_str());
                        push_str(&mut w, "... (");
                        push_str(&mut w, size.as_str());
                        push_str(&mut w, " chars total)");
                        assert(cs@.subrange(0, k as int) =~= cs@.take(k as int));
                        assert(Seq::<char>::empty() + head@ =~= head@);
                        string_from_chars(&w)
                    }
                };
                push_str(&mut v, "Content check failed: ");
                push_str(&mut v, op);
                push_str(&mut v, " '");
                push_str(&mut v, expected.as_str());
                push_str(&mut v, "' (content preview: ");
                push_str(&mut v, preview.as_str());
                push_str(&mut v, ")");
                assert(Seq::<char>::empty() + "Content check failed: "@ =~= "Content check failed: "@);
                string_from_chars(&v)
            },
            Operation::StartsWith => {
                let start = if total > 50 {
                    let (k, _used) = fitting_prefix(cs, 50);
                    proof {
                        lemma_fit_chars(cs@, 50, k as int);
                    }
                    let mut w = slice_range(cs, 0, k);
                    push_str(&mut w, "...");
                    assert(cs@.subrange(0, k as int) =~= cs@.take(k as int));
                    string_from_chars(&w)
                } else {
                    content.clone()
                };
                push_str(&mut v, "Content check failed: expected to start with '");
                push_str(&mut v, expected.as_str());
                push_str(&mut v, "', actual start: '");
                push_str(&mut v, start.as_str());
                push_str(&mut v, "'");
                assert(Seq::<char>::empty() + "Content check failed: expected to start with '"@
                    =~= "Content check failed: expected to start with '"@);
                string_from_chars(&v)
            },
            Operation::EndsWith => {
                let end = if total > 50 {
                    let k = fitting_suffix_start(cs, total, 50);
                    let mut w = chars_of("...");
                    append_chars(&mut w, &slice_range(cs, k, cs.len()));
                    string_from_chars(&w)
                } else {
                    content.clone()
                };
                push_str(&mut v, "Content check failed: expected to end with '");
                push_str(&mut v, expected.as_str());
                push_str(&mut v, "', actual end: '");
                push_str(&mut v, end.as_str());
                push_str(&mut v, "'");
                assert(Seq::<char>::empty() + "Content check failed: expected to end with '"@
                    =~= "Content check failed: expected to end with '"@);
                string_from_chars(&v)
            },
            _ => {
                push_str(&mut v, "Content check failed: ");
                push_str(&mut v, op);
                push_str(&mut v, " '");
                push_str(&mut v, expected.as_str());
                push_str(&mut v, "'");
                assert(Seq::<char>::empty() + "Content check failed: "@ =~= "Content check failed: "@);
                string_from_chars(&v)
            },
        }
    }

    /// Checks one object's content against the `content` fields.
    fn content_object(
        &self,
        flat: &Vec<&StateField>,
        content: &String,
        object_id: &str,
        failures: &mut Vec<String>,
    ) -> (res: Vec<FieldValidationResult>)
        ensures
            checks_of(res@) == content_checks(ref_specs(flat@), content@),
            string_views(final(failures)@) == string_views(old(failures)@) + check_failures(
                ExecutorKind::FileMetadata,
                object_id@,
                checks_of(res@),
            ),
    {
        let ghost specs = ref_specs(flat@);
        let ghost f0 = string_views(failures@);
        let mut out: Vec<FieldValidationResult> = Vec::new();
        assert(f0 + check_failures(ExecutorKind::FileMetadata, object_id@, checks_of(out@)) =~= f0);
        let cs = chars_of(content.as_str());
        let total = byte_len_exec(&cs);
        let name = chars_of("content");
        proof {
            reveal_strlit("content");
        }
        let mut i: usize = 0;
        while i < flat.len()
            invariant
                i <= flat@.len(),
                specs == ref_specs(flat@),
                name@ == "content"@,
                cs@ == content@,
                total == byte_len(cs@),
                checks_of(out@) == content_checks(specs.take(i as int), content@),
                string_views(failures@) == f0 + check_failures(
                    ExecutorKind::FileMetadata,
                    object_id@,
                    checks_of(out@),
                ),
            decreases flat.len() - i,
        {
            let f = flat[i];
            assert(specs.take(i + 1).drop_last() =~= specs.take(i as int));
            assert(specs.take(i + 1).last() == field_spec(*f));
            if chars_eq(&chars_of(f.name.as_str()), &name) {
                let passed = match &f.value {
                    ResolvedValue::String(e) => self.compare_string_operation(
                        e.as_str(),
                        content.as_str(),
                        f.operation,
                    ),
                    _ => false,
                };
                let message = self.content_message(f, content, &cs, total, passed);
                let ghost fb = string_views(failures@);
                if !passed {
                    note_failure(ExecutorKind::FileMetadata, object_id, message.as_str(), failures);
                }
                let r = FieldValidationResult {
                    field_name: f.name.clone(),
                    expected_value: f.value.copy_value(),
                    actual_value: ResolvedValue::String(content.clone()),
                    operation: f.operation,
                    passed,
                    message,
                };
                let ghost before = checks_of(out@);
                let ghost c = field_check_of(r);
                out.push(r);
                assert(checks_of(out@) =~= before.push(c));
                proof {
                    lemma_check_failures_single(ExecutorKind::FileMetadata, object_id@, c);
                    lemma_check_failures_append(ExecutorKind::FileMetadata, object_id@, before, seq![c]);
                    assert(before + seq![c] =~= before.push(c));
                }
            }
            i = i + 1;
        }
        assert(specs.take(flat@.len() as int) =~= specs);
        out
    }

    /// Runs `criterion` over the content collected for its objects.
    pub fn execute_with_contract(
        &self,
        criterion: &ExecutableCriterion,
        collected_data: Vec<(String, CollectedData)>,
        _contract: &CtnContract,
    ) -> (res: Result<CtnExecutionResult, CtnExecutionError>)
        ensures
            runs_content_criterion(*criterion, collected_data, res),
    {
        let expected = criterion.expected_object_count();
        let found = collected_data.len();
        if !evaluate_existence_check(criterion.test.existence_check, found, expected) {
            let message = existence_message(expected, found);
            return Ok(
                CtnExecutionResult {
                    ctn_type: criterion.criterion_type.clone(),
                    status: Outcome::Fail,
                    state_results: Vec::new(),
                    message,
                    failures: Vec::new(),
                    objects_passing: 0,
                    objects_total: found,
                    collected_data,
                },
            );
        }
        let op = criterion.test.state_operator;
        let flat = flatten_states(&criterion.states);
        let ghost objs = objects_view(collected_data@);
        let ghost rs = content_results(op, flat_fields(criterion.states@), objs);
        let mut results: Vec<StateValidationResult> = Vec::new();
        let mut failures: Vec<String> = Vec::new();
        let mut passing: usize = 0;
        let mut i: usize = 0;
        assert(objs.skip(0) =~= objs);
        while i < collected_data.len()
            invariant
                i <= collected_data@.len(),
                objs == objects_view(collected_data@),
                ref_specs(flat@) == flat_fields(criterion.states@),
                op == criterion.test.state_operator,
                rs == content_results(op, flat_fields(criterion.states@), objs),
                rs.len() == objs.len(),
                object_messages(results@) == Seq::new(
                    rs.len(),
                    |j: int| content_object_message(rs[j].0, rs[j].1, rs[j].2),
                ).take(i as int),
                string_views(failures@) == failure_lines(ExecutorKind::FileMetadata, rs.take(i as int)),
                first_content_problem(objs) == first_content_problem(objs.skip(i as int)),
                existence_holds(
                    criterion.test.existence_check,
                    collected_data@.len() as nat,
                    criterion.objects@.len() as nat,
                ),
                object_results_view(results@) == rs.take(i as int),
                passing == count_true(object_passes(rs.take(i as int))),
                passing <= i,
                forall|k: int| 0 <= k < results@.len() ==> (#[trigger] results@[k]).state_operator == op,
            decreases collected_data.len() - i,
        {
            let id = &collected_data[i].0;
            let data = &collected_data[i].1;
            assert(objs.skip(i as int)[0] == objs[i as int]);
            assert(objs.skip(i as int).drop_first() =~= objs.skip(i + 1));
            assert(objs[i as int].1 == data_fields(*data));
            proof {
                reveal_strlit("file_content");
            }
            let content = match data.get_field("file_content") {
                Some(ResolvedValue::String(c)) => c,
                Some(_) => {
                    return Err(
                        CtnExecutionError::DataValidationFailed {
                            reason: "file_content field is not a string".to_string(),
                        },
                    );
                },
                None => {
                    return Err(
                        CtnExecutionError::MissingDataField { field: "file_content".to_string() },
                    );
                },
            };
            let field_results = self.content_object(&flat, content, id.as_str(), &mut failures);
            let flags = pass_flags(&field_results);
            let c = evaluate_state_operator(op, flags.as_slice());
            let message = content_object_message_exec(id.as_str(), &field_results, c);
            let r = StateValidationResult {
                object_id: id.clone(),
                state_results: field_results,
                combined_result: c,
                state_operator: op,
                message,
            };
            let ghost rv = object_result_view(r);
            let ghost ms = Seq::new(
                rs.len(),
                |j: int| content_object_message(rs[j].0, rs[j].1, rs[j].2),
            );
            let ghost mbefore = object_messages(results@);
            let ghost mv = r.message@;
            results.push(r);
            assert(rs[i as int] == rv);
            assert(ms[i as int] == mv);
            assert(object_results_view(results@) =~= rs.take(i + 1));
            assert(object_messages(results@) =~= ms.take(i + 1));
            assert(rs.take(i + 1).drop_last() =~= rs.take(i as int));
            assert(rs.take(i + 1).last() == rs[i as int]);
            assert(object_passes(rs.take(i + 1)).drop_last() =~= object_passes(rs.take(i as int)));
            if c {
                passing = passing + 1;
            }
            i = i + 1;
        }
        assert(rs.take(collected_data@.len() as int) =~= rs);
        let ghost ms = Seq::new(
            rs.len(),
            |j: int| content_object_message(rs[j].0, rs[j].1, rs[j].2),
        );
        assert(ms.take(collected_data@.len() as int) =~= ms);
        let total = results.len();
        let item_passed = evaluate_item_check(criterion.test.item_check, passing, total);
        let message = content_final_message_exec(item_passed, passing, total, &failures);
        Ok(
            CtnExecutionResult {
                ctn_type: criterion.criterion_type.clone(),
                status: if item_passed {
                    Outcome::Pass
                } else {
                    Outcome::Fail
                },
                state_results: results,
                message,
                failures,
                objects_passing: passing,
                objects_total: found,
                collected_data,
            },
        )
    }
}

// ---------------------------------------------------------------------------
// Computed values
// ---------------------------------------------------------------------------

/// What computed-value checks record as the actual value: the variables are
/// not evaluated by this executor, and every check counts as passed.
pub open spec fn computed_placeholder() -> Seq<char> {
    "(requires the execution context)"@
}

/// The checks recorded for each object: every STATE field, passed.
pub open spec fn computed_checks(flat: Seq<FieldSpec>) -> Seq<FieldCheck> {
    flat.map_values(
        |f: FieldSpec|
            FieldCheck {
                name: f.name,
                expected: f.value,
                actual: ValueView::Str(computed_placeholder()),
                op: f.op,
                passed: true,
                message: "Variable '"@ + f.name + "' recorded"@,
            },
    )
}

/// What running a computed-values criterion yields: the existence check on
/// the criterion's own objects, then for each object every STATE field
/// recorded as passed.
pub open spec fn runs_computed_criterion(
    criterion: ExecutableCriterion,
    collected: Vec<(String, CollectedData)>,
    res: CtnExecutionResult,
) -> bool {
    let n = criterion.objects@.len() as nat;
    let cs = computed_checks(flat_fields(criterion.states@));
    let c = state_operator_holds(criterion.test.state_operator, passes(cs));
    &&& res.ctn_type@ == criterion.criterion_type@
    &&& res.collected_data == collected
    &&& res.failures@.len() == 0
    &&& !existence_holds(criterion.test.existence_check, n, n) ==> res.status == Outcome::Fail
        && res.state_results@.len() == 0 && res.message@ == existence_failure_text(
        ExecutorKind::FileMetadata,
        n,
        n,
    )
    &&& forall|k: int|
        0 <= k < res.state_results@.len() ==> (#[trigger] res.state_results@[k]).state_operator
            == criterion.test.state_operator
    &&& existence_holds(criterion.test.existence_check, n, n) ==> {
        &&& object_results_view(res.state_results@) == criterion.objects@.map_values(
            |o: ExecutableObject| (o.identifier@, cs, c),
        )
        &&& object_messages(res.state_results@) == criterion.objects@.map_values(
            |o: ExecutableObject| "Object '"@ + o.identifier@ + "': recorded"@,
        )
        &&& res.message@ == "Computed values recorded: "@ + decimal(res.objects_passing as nat)
            + " of "@ + decimal(n) + " objects"@
        &&& res.objects_passing == if c {
            n
        } else {
            0
        }
        &&& (res.status == Outcome::Pass <==> item_holds(
            criterion.test.item_check,
            res.objects_passing as nat,
            n,
        ))
    }
}

/// Records computed-value checks; the variables themselves are resolved by
/// the execution context, not here.
#[derive(Debug)]
pub struct ComputedValuesExecutor {
    contract: CtnContract,
}

impl ComputedValuesExecutor {
    /// The contract the executor checks against.
    pub closed spec fn contract_view(&self) -> CtnContract {
        self.contract
    }

    /// An executor for `contract`.
    pub fn new(contract: CtnContract) -> (res: Self)
        ensures
            res.contract_view() == contract,
    {
        ComputedValuesExecutor { contract }
    }

    /// The CTN type the executor handles.
    pub fn ctn_type(&self) -> (res: &'static str)
        ensures
            res@ == "computed_values"@,
    {
        "computed_values"
    }

    /// Every object's data is accepted.
    pub fn validate_collected_data(
        &self,
        _collected_data: &Vec<(String, CollectedData)>,
        _contract: &CtnContract,
    ) -> (res: Result<(), CtnExecutionError>)
        ensures
            res is Ok,
    {
        Ok(())
    }

    /// The checks recorded for one object.
    fn computed_object(flat: &Vec<&StateField>) -> (res: Vec<FieldValidationResult>)
        ensures
            checks_of(res@) == computed_checks(ref_specs(flat@)),
    {
        let mut out: Vec<FieldValidationResult> = Vec::new();
        let mut i: usize = 0;
        while i < flat.len()
            invariant
                i <= flat@.len(),
                checks_of(out@) == computed_checks(ref_specs(flat@)).take(i as int),
            decreases flat.len() - i,
        {
            let f = flat[i];
            let r = FieldValidationResult {
                field_name: f.name.clone(),
                expected_value: f.value.copy_value(),
                actual_value: ResolvedValue::String("(requires the execution context)".to_string()),
                operation: f.operation,
                passed: true,
                message: concat3("Variable '", f.name.as_str(), "' recorded"),
            };
            let ghost before = checks_of(out@);
            let ghost c = field_check_of(r);
            assert(c == computed_checks(ref_specs(flat@))[i as int]);
            out.push(r);
            assert(checks_of(out@) =~= before.push(c));
            assert(checks_of(out@) =~= computed_checks(ref_specs(flat@)).take(i + 1));
            i = i + 1;
        }
        assert(computed_checks(ref_specs(flat@)).take(flat@.len() as int) =~= computed_checks(
            ref_specs(flat@),
        ));
        out
    }

    /// Runs `criterion` over its own objects.
    pub fn execute_with_contract(
        &self,
        criterion: &ExecutableCriterion,
        collected_data: Vec<(String, CollectedData)>,
        _contract: &CtnContract,
    ) -> (res: Result<CtnExecutionResult, CtnExecutionError>)
        ensures
            res matches Ok(r) && runs_computed_criterion(*criterion, collected_data, r),
    {
        let n = criterion.expected_object_count();
        if !evaluate_existence_check(criterion.test.existence_check, n, n) {
            let message = existence_message(n, n);
            return Ok(
                CtnExecutionResult {
                    ctn_type: criterion.criterion_type.clone(),
                    status: Outcome::Fail,
                    state_results: Vec::new(),
                    message,
                    failures: Vec::new(),
                    objects_passing: 0,
                    objects_total: n,
                    collected_data,
                },
            );
        }
        let op = criterion.test.state_operator;
        let flat = flatten_states(&criterion.states);
        let ghost cs = computed_checks(flat_fields(criterion.states@));
        let ghost c_spec = state_operator_holds(op, passes(cs));
        let ghost want = criterion.objects@.map_values(
            |o: ExecutableObject| (o.identifier@, cs, c_spec),
        );
        let ghost wmsg = criterion.objects@.map_values(
            |o: ExecutableObject| "Object '"@ + o.identifier@ + "': recorded"@,
        );
        let mut results: Vec<StateValidationResult> = Vec::new();
        let mut passing: usize = 0;
        let mut i: usize = 0;
        while i < criterion.objects.len()
            invariant
                i <= criterion.objects@.len(),
                ref_specs(flat@) == flat_fields(criterion.states@),
                op == criterion.test.state_operator,
                cs == computed_checks(flat_fields(criterion.states@)),
                c_spec == state_operator_holds(op, passes(cs)),
                want == criterion.objects@.map_values(
                    |o: ExecutableObject| (o.identifier@, cs, c_spec),
                ),
                object_results_view(results@) == want.take(i as int),
                wmsg == criterion.objects@.map_values(
                    |o: ExecutableObject| "Object '"@ + o.identifier@ + "': recorded"@,
                ),
                object_messages(results@) == wmsg.take(i as int),
                passing == if c_spec {
                    i
                } else {
                    0
                },
                forall|k: int| 0 <= k < results@.len() ==> (#[trigger] results@[k]).state_operator == op,
            decreases criterion.objects.len() - i,
        {
            let field_results = Self::computed_object(&flat);
            let flags = pass_flags(&field_results);
            let c = evaluate_state_operator(op, flags.as_slice());
            let id = &criterion.objects[i].identifier;
            let r = StateValidationResult {
                object_id: id.clone(),
                state_results: field_results,
                combined_result: c,
                state_operator: op,
                message: concat3("Object '", id.as_str(), "': recorded"),
            };
            let ghost rv = object_result_view(r);
            let ghost mv = r.message@;
            let ghost before = object_results_view(results@);
            let ghost mbefore = object_messages(results@);
            results.push(r);
            assert(want[i as int] == rv);
            assert(wmsg[i as int] == mv);
            assert(object_results_view(results@) =~= before.push(rv));
            assert(object_results_view(results@) =~= want.take(i + 1));
            assert(object_messages(results@) =~= mbefore.push(mv));
            assert(object_messages(results@) =~= wmsg.take(i + 1));
            if c {
                passing = passing + 1;
            }
            i = i + 1;
        }
        assert(want.take(criterion.objects@.len() as int) =~= want);
        assert(wmsg.take(criterion.objects@.len() as int) =~= wmsg);
        let item_passed = evaluate_item_check(criterion.test.item_check, passing, results.len());
        let p = string_from_chars(&u128_to_decimal(passing as u128));
        let t = string_from_chars(&u128_to_decimal(n as u128));
        let mut mv: Vec<char> = Vec::new();
        push_str(&mut mv, "Computed values recorded: ");
        push_str(&mut mv, p.as_str());
        push_str(&mut mv, " of ");
        push_str(&mut mv, t.as_str());
        push_str(&mut mv, " objects");
        assert(Seq::<char>::empty() + "Computed values recorded: "@ =~= "Computed values recorded: "@);
        Ok(
            CtnExecutionResult {
                ctn_type: criterion.criterion_type.clone(),
                status: if item_passed {
                    Outcome::Pass
                } else {
                    Outcome::Fail
                },
                state_results: results,
                message: string_from_chars(&mv),
                failures: Vec::new(),
                objects_passing: passing,
                objects_total: n,
                collected_data,
            },
        )
    }
}

// ---------------------------------------------------------------------------
// How the field-checking executors show values in messages
// ---------------------------------------------------------------------------

/// The number of non-empty pieces.
pub open spec fn nonempty_count(ps: Seq<Seq<char>>) -> nat
    decreases ps.len(),
{
    if ps.len() == 0 {
        0
    } else {
        nonempty_count(ps.drop_last()) + if ps.last().len() > 0 {
            1nat
        } else {
            0nat
        }
    }
}

fn bool_text(b: bool) -> (res: String)
    ensures
        res@ == if b {
            "true"@
        } else {
            "false"@
        },
{
    if b {
        "true".to_string()
    } else {
        "false".to_string()
    }
}

/// A subkey value as messages show it: a comma-separated list as the number
/// of its non-empty names, an empty text as none.
pub open spec fn subkeys_value_text(v: ValueView) -> Seq<char> {
    match v {
        ValueView::Bool(b) => if b {
            "true"@
        } else {
            "false"@
        },
        ValueView::Int(i) => signed_decimal(i),
        ValueView::Str(s) => if index_of(s, ',') < s.len() {
            "["@ + decimal(nonempty_count(split_on(s, ','))) + " subkeys]"@
        } else if s.len() == 0 {
            "[0 subkeys]"@
        } else {
            s
        },
        ValueView::Ver(s) => s,
    }
}

/// A file metadata value as messages show it: texts in single quotes.
pub open spec fn metadata_value_text(v: ValueView) -> Seq<char> {
    match v {
        ValueView::Bool(b) => if b {
            "true"@
        } else {
            "false"@
        },
        ValueView::Int(i) => signed_decimal(i),
        ValueView::Str(s) => "'"@ + s + "'"@,
        ValueView::Ver(s) => s,
    }
}

fn count_nonempty(ps: &Vec<Vec<char>>) -> (res: u64)
    ensures
        res == nonempty_count(views(ps@)),
{
    let mut n: u64 = 0;
    let mut i: usize = 0;
    while i < ps.len()
        invariant
            i <= ps@.len(),
            n == nonempty_count(views(ps@).take(i as int)),
            n <= i,
        decreases ps.len() - i,
    {
        assert(views(ps@).take(i + 1).drop_last() =~= views(ps@).take(i as int));
        if ps[i].len() > 0 {
            n = n + 1;
        }
        i = i + 1;
    }
    assert(views(ps@).take(ps@.len() as int) =~= views(ps@));
    n
}

/// A value as the registry subkeys executor's messages show it.
pub fn subkeys_value_string(value: &ResolvedValue) -> (res: String)
    ensures
        res@ == subkeys_value_text(value@),
{
    match value {
        ResolvedValue::Boolean(b) => bool_text(*b),
        ResolvedValue::Integer(i) => string_from_chars(&i64_to_decimal(*i)),
        ResolvedValue::String(s) => {
            let cs = chars_of(s.as_str());
            let k = index_of_from(&cs, ',', 0);
            assert(cs@.subrange(0, cs@.len() as int) =~= cs@);
            if k < cs.len() {
                let parts = split_on_exec(&cs, ',');
                let n = count_nonempty(&parts);
                let digits = string_from_chars(&u64_to_decimal(n));
                concat3("[", digits.as_str(), " subkeys]")
            } else if cs.len() == 0 {
                "[0 subkeys]".to_string()
            } else {
                s.clone()
            }
        },
        ResolvedValue::Version(v) => v.clone(),
    }
}

/// A value as the file metadata executor's messages show it.
pub fn metadata_value_string(value: &ResolvedValue) -> (res: String)
    ensures
        res@ == metadata_value_text(value@),
{
    match value {
        ResolvedValue::Boolean(b) => bool_text(*b),
        ResolvedValue::Integer(i) => string_from_chars(&i64_to_decimal(*i)),
        ResolvedValue::String(s) => concat3("'", s.as_str(), "'"),
        ResolvedValue::Version(v) => v.clone(),
    }
}

impl RegistrySubkeysExecutor {
    /// A value as this executor's messages show it.
    pub fn format_value(&self, value: &ResolvedValue) -> (res: String)
        ensures
            res@ == subkeys_value_text(value@),
    {
        subkeys_value_string(value)
    }
}

impl FileMetadataExecutor {
    /// A value as this executor's messages show it.
    pub fn format_value(&self, value: &ResolvedValue) -> (res: String)
        ensures
            res@ == metadata_value_text(value@),
    {
        metadata_value_string(value)
    }
}

} // verus!
