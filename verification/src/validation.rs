//! Checking collected data against the STATE of a criterion.
//!
//! A criterion is evaluated in three phases: the existence check on the
//! number of objects found, the state check of every object (each STATE
//! field compared with the collected value it maps to, the results combined
//! by the state operator), and the item check on the number of objects that
//! passed.

use vstd::prelude::*;
use crate::contract::{mapped_data_name, state_to_data, CtnContract};
use crate::criteria::{
    bool_compare, bool_test, count_true, evaluate_existence_check, evaluate_item_check,
    evaluate_state_operator, existence_holds, int_compare, int_test, item_holds,
    state_operator_holds, string_compare, string_test, version_compare, version_test, Operation,
    Outcome, StateOperator, TestSpecification,
};
use crate::model::{
    concat, concat3, data_fields, i64_to_decimal, lookup, CollectedData, ExecutableObject, ResolvedValue,
    ValueView,
};
use crate::numfmt::{parse_i64, parse_signed};
use crate::text::{append_chars, chars_eq, chars_of, join, string_from_chars};
use crate::numfmt::decimal;

verus! {

/// One field of a STATE: `name operation value`.
#[derive(Debug)]
pub struct StateField {
    pub name: String,
    pub value: ResolvedValue,
    pub operation: Operation,
}

/// A STATE block, its variables resolved.
#[derive(Debug)]
pub struct ExecutableState {
    pub identifier: String,
    pub fields: Vec<StateField>,
}

/// A criterion (CTN) ready to run: its type, its TEST line, its STATEs and
/// its OBJECTs.
#[derive(Debug)]
pub struct ExecutableCriterion {
    pub criterion_type: String,
    pub test: TestSpecification,
    pub states: Vec<ExecutableState>,
    pub objects: Vec<ExecutableObject>,
}

impl ExecutableCriterion {
    /// How many objects the criterion names.
    pub fn expected_object_count(&self) -> (res: usize)
        ensures
            res == self.objects@.len(),
    {
        self.objects.len()
    }
}

/// A STATE field as a mathematical value.
pub struct FieldSpec {
    pub name: Seq<char>,
    pub value: ValueView,
    pub op: Operation,
}

/// The view of a STATE field.
pub open spec fn field_spec(f: StateField) -> FieldSpec {
    FieldSpec { name: f.name@, value: f.value@, op: f.operation }
}

/// The fields of one STATE.
pub open spec fn state_specs(s: ExecutableState) -> Seq<FieldSpec> {
    s.fields@.map_values(|f: StateField| field_spec(f))
}

/// The fields of all STATEs, STATE after STATE.
pub open spec fn flat_fields(states: Seq<ExecutableState>) -> Seq<FieldSpec>
    decreases states.len(),
{
    if states.len() == 0 {
        Seq::empty()
    } else {
        flat_fields(states.drop_last()) + state_specs(states.last())
    }
}

/// The outcome of checking one field, as a mathematical value.
pub struct FieldCheck {
    pub name: Seq<char>,
    pub expected: ValueView,
    pub actual: ValueView,
    pub op: Operation,
    pub passed: bool,
    pub message: Seq<char>,
}

/// The result of checking one STATE field of one object.
#[derive(Debug)]
pub struct FieldValidationResult {
    pub field_name: String,
    pub expected_value: ResolvedValue,
    pub actual_value: ResolvedValue,
    pub operation: Operation,
    pub passed: bool,
    pub message: String,
}

/// The view of a field result.
pub open spec fn field_check_of(r: FieldValidationResult) -> FieldCheck {
    FieldCheck {
        name: r.field_name@,
        expected: r.expected_value@,
        actual: r.actual_value@,
        op: r.operation,
        passed: r.passed,
        message: r.message@,
    }
}

/// The views of field results.
pub open spec fn checks_of(rs: Seq<FieldValidationResult>) -> Seq<FieldCheck> {
    rs.map_values(|r: FieldValidationResult| field_check_of(r))
}

/// Which fields passed.
pub open spec fn passes(cs: Seq<FieldCheck>) -> Seq<bool> {
    cs.map_values(|c: FieldCheck| c.passed)
}

/// The result of checking one object.
#[derive(Debug)]
pub struct StateValidationResult {
    pub object_id: String,
    pub state_results: Vec<FieldValidationResult>,
    pub combined_result: bool,
    pub state_operator: Option<StateOperator>,
    pub message: String,
}

/// An object's result as a mathematical value: its id, its field checks and
/// whether it passed.
pub open spec fn object_result_view(r: StateValidationResult) -> (Seq<char>, Seq<FieldCheck>, bool) {
    (r.object_id@, checks_of(r.state_results@), r.combined_result)
}

/// The views of object results.
pub open spec fn object_results_view(rs: Seq<StateValidationResult>) -> Seq<
    (Seq<char>, Seq<FieldCheck>, bool),
> {
    rs.map_values(|r: StateValidationResult| object_result_view(r))
}

/// The result of running a criterion.
#[derive(Debug)]
pub struct CtnExecutionResult {
    pub ctn_type: String,
    pub status: Outcome,
    pub state_results: Vec<StateValidationResult>,
    pub message: String,
    /// One line per failed field check
    pub failures: Vec<String>,
    pub objects_passing: usize,
    pub objects_total: usize,
    pub collected_data: Vec<(String, CollectedData)>,
}

/// The CTN types whose executors share this evaluation; they differ in how
/// values compare and how an `exists` field is treated.
#[derive(Clone, Copy, PartialEq, Eq, Structural, Debug)]
pub enum ExecutorKind {
    Service,
    Registry,
    RegistrySubkeys,
    FileMetadata,
}

/// Whether collected `actual` stands in relation `op` to `expected` for
/// STATE field `field`, as the executor of `kind` compares them.
pub open spec fn values_match(
    kind: ExecutorKind,
    expected: ValueView,
    actual: ValueView,
    op: Operation,
    field: Seq<char>,
) -> bool {
    match kind {
        ExecutorKind::Service => match (expected, actual) {
            (ValueView::Bool(e), ValueView::Bool(a)) => bool_test(a, e, op),
            (ValueView::Str(e), ValueView::Str(a)) => string_test(a, e, op),
            _ => false,
        },
        ExecutorKind::Registry => match (expected, actual) {
            (ValueView::Bool(e), ValueView::Bool(a)) => bool_test(a, e, op),
            (ValueView::Str(e), ValueView::Str(a)) => if field == "value_version"@ {
                version_test(a, e, op)
            } else {
                string_test(a, e, op)
            },
            (ValueView::Ver(e), ValueView::Str(a)) => version_test(a, e, op),
            (ValueView::Int(e), ValueView::Str(a)) => field == "value_int"@ && match parse_signed(
                a,
            ) {
                Some(x) => int_test(x, e, op),
                None => false,
            },
            (ValueView::Int(e), ValueView::Int(a)) => int_test(a, e, op),
            _ => false,
        },
        ExecutorKind::RegistrySubkeys => match (expected, actual) {
            (ValueView::Bool(e), ValueView::Bool(a)) => bool_test(a, e, op),
            (ValueView::Int(e), ValueView::Int(a)) => int_test(a, e, op),
            (ValueView::Str(e), ValueView::Str(a)) => field == "subkeys"@ && string_test(a, e, op),
            _ => false,
        },
        ExecutorKind::FileMetadata => match (expected, actual) {
            (ValueView::Str(e), ValueView::Str(a)) => match op {
                Operation::Equals => a == e,
                Operation::NotEqual => a != e,
                _ => false,
            },
            (ValueView::Bool(e), ValueView::Bool(a)) => bool_test(a, e, op),
            (ValueView::Int(e), ValueView::Int(a)) => int_test(a, e, op),
            _ => false,
        },
    }
}

/// Compares values as the executor of `kind` does.
pub fn values_match_exec(
    kind: ExecutorKind,
    expected: &ResolvedValue,
    actual: &ResolvedValue,
    op: Operation,
    field: &str,
) -> (res: bool)
    ensures
        res == values_match(kind, expected@, actual@, op, field@),
{
    let f = chars_of(field);
    proof {
        reveal_strlit("value_version");
        reveal_strlit("value_int");
        reveal_strlit("subkeys");
    }
    match kind {
        ExecutorKind::Service => match (expected, actual) {
            (ResolvedValue::Boolean(e), ResolvedValue::Boolean(a)) => bool_compare(*a, *e, op),
            (ResolvedValue::String(e), ResolvedValue::String(a)) => match string_compare(
                a.as_str(),
                e.as_str(),
                op,
            ) {
                Some(b) => b,
                None => false,
            },
            _ => false,
        },
        ExecutorKind::Registry => match (expected, actual) {
            (ResolvedValue::Boolean(e), ResolvedValue::Boolean(a)) => bool_compare(*a, *e, op),
            (ResolvedValue::String(e), ResolvedValue::String(a)) => {
                if chars_eq(&f, &chars_of("value_version")) {
                    version_compare(a.as_str(), e.as_str(), op)
                } else {
                    match string_compare(a.as_str(), e.as_str(), op) {
                        Some(b) => b,
                        None => false,
                    }
                }
            },
            (ResolvedValue::Version(e), ResolvedValue::String(a)) => version_compare(
                a.as_str(),
                e.as_str(),
                op,
            ),
            (ResolvedValue::Integer(e), ResolvedValue::String(a)) => {
                if chars_eq(&f, &chars_of("value_int")) {
                    match parse_i64(&chars_of(a.as_str())) {
                        Some(x) => int_compare(x, *e, op),
                        None => false,
                    }
                } else {
                    false
                }
            },
            (ResolvedValue::Integer(e), ResolvedValue::Integer(a)) => int_compare(*a, *e, op),
            _ => false,
        },
        ExecutorKind::RegistrySubkeys => match (expected, actual) {
            (ResolvedValue::Boolean(e), ResolvedValue::Boolean(a)) => bool_compare(*a, *e, op),
            (ResolvedValue::Integer(e), ResolvedValue::Integer(a)) => int_compare(*a, *e, op),
            (ResolvedValue::String(e), ResolvedValue::String(a)) => {
                if chars_eq(&f, &chars_of("subkeys")) {
                    match string_compare(a.as_str(), e.as_str(), op) {
                        Some(b) => b,
                        None => false,
                    }
                } else {
                    false
                }
            },
            _ => false,
        },
        ExecutorKind::FileMetadata => match (expected, actual) {
            (ResolvedValue::String(e), ResolvedValue::String(a)) => match op {
                Operation::Equals => chars_eq(&chars_of(a.as_str()), &chars_of(e.as_str())),
                Operation::NotEqual => !chars_eq(&chars_of(a.as_str()), &chars_of(e.as_str())),
                _ => false,
            },
            (ResolvedValue::Boolean(e), ResolvedValue::Boolean(a)) => bool_compare(*a, *e, op),
            (ResolvedValue::Integer(e), ResolvedValue::Integer(a)) => int_compare(*a, *e, op),
            _ => false,
        },
    }
}

// ---------------------------------------------------------------------------
// What one object's check yields
// ---------------------------------------------------------------------------

/// Whether the collected data says the item exists.
pub open spec fn actual_exists(d: Seq<(Seq<char>, ValueView)>) -> bool {
    lookup(d, "exists"@) == Some(ValueView::Bool(true))
}

/// The first STATE field named `exists` with a boolean value, with its
/// operation.
pub open spec fn exists_requirement(flat: Seq<FieldSpec>) -> Option<(bool, Operation)>
    decreases flat.len(),
{
    if flat.len() == 0 {
        None
    } else {
        match flat[0].value {
            ValueView::Bool(b) => if flat[0].name == "exists"@ {
                Some((b, flat[0].op))
            } else {
                exists_requirement(flat.drop_first())
            },
            _ => exists_requirement(flat.drop_first()),
        }
    }
}

/// The text that stands for a value that was not collected.
pub open spec fn missing_text(kind: ExecutorKind, exists: bool) -> Seq<char> {
    match kind {
        ExecutorKind::Service => if exists {
            "missing"@
        } else {
            "N/A"@
        },
        ExecutorKind::Registry | ExecutorKind::RegistrySubkeys => "missing"@,
        ExecutorKind::FileMetadata => Seq::empty(),
    }
}

/// The check of STATE field `f` against collected data `d`, the field
/// read through mapping `m`.
pub open spec fn field_check(
    kind: ExecutorKind,
    f: FieldSpec,
    d: Seq<(Seq<char>, ValueView)>,
    m: Seq<(Seq<char>, Seq<char>)>,
    exists: bool,
) -> FieldCheck {
    match lookup(d, mapped_data_name(m, f.name)) {
        Some(v) => {
            let passed = values_match(kind, f.value, v, f.op, f.name);
            FieldCheck {
                name: f.name,
                expected: f.value,
                actual: v,
                op: f.op,
                passed,
                message: check_text(kind, f.name, f.value, v, f.op, passed),
            }
        },
        None => FieldCheck {
            name: f.name,
            expected: f.value,
            actual: ValueView::Str(missing_text(kind, exists)),
            op: f.op,
            passed: false,
            message: missing_field_text(kind, f.name, mapped_data_name(m, f.name), exists),
        },
    }
}

/// The checks that STATE field `f` contributes: an `exists` field is left
/// to the existence step by the service executor, counts as passed for the
/// registry executors, and is compared like any other field for file
/// metadata.
pub open spec fn field_step(
    kind: ExecutorKind,
    f: FieldSpec,
    d: Seq<(Seq<char>, ValueView)>,
    m: Seq<(Seq<char>, Seq<char>)>,
    exists: bool,
) -> Seq<FieldCheck> {
    if f.name == "exists"@ {
        match kind {
            ExecutorKind::Service => Seq::empty(),
            ExecutorKind::Registry | ExecutorKind::RegistrySubkeys => seq![
                FieldCheck {
                    name: "exists"@,
                    expected: f.value,
                    actual: ValueView::Bool(exists),
                    op: f.op,
                    passed: true,
                    message: "exists check passed"@,
                },
            ],
            ExecutorKind::FileMetadata => seq![field_check(kind, f, d, m, exists)],
        }
    } else {
        seq![field_check(kind, f, d, m, exists)]
    }
}

/// The checks of all STATE fields, in order.
pub open spec fn field_checks(
    kind: ExecutorKind,
    flat: Seq<FieldSpec>,
    d: Seq<(Seq<char>, ValueView)>,
    m: Seq<(Seq<char>, Seq<char>)>,
    exists: bool,
) -> Seq<FieldCheck>
    decreases flat.len(),
{
    if flat.len() == 0 {
        Seq::empty()
    } else {
        field_checks(kind, flat.drop_last(), d, m, exists) + field_step(
            kind,
            flat.last(),
            d,
            m,
            exists,
        )
    }
}

/// Whether an object's checks combine to a pass (for the service executor
/// an object without checks passes).
pub open spec fn combined(kind: ExecutorKind, op: Option<StateOperator>, cs: Seq<FieldCheck>) -> bool {
    if kind == ExecutorKind::Service && cs.len() == 0 {
        true
    } else {
        state_operator_holds(op, passes(cs))
    }
}

/// The record of the existence step.
pub open spec fn exists_check(kind: ExecutorKind, e: bool, ex: bool, op: Operation, passed: bool) -> FieldCheck {
    FieldCheck {
        name: "exists"@,
        expected: ValueView::Bool(e),
        actual: ValueView::Bool(ex),
        op,
        passed,
        message: if passed {
            "exists check passed"@
        } else {
            exists_failure_text(kind, e, ex, op)
        },
    }
}

/// The checks of one object and whether it passed. Where the STATE requires
/// existence (all executors but file metadata), a failed existence step ends
/// the object's check as a failure, and an item that must not exist and does
/// not passes without further checks.
pub open spec fn object_evaluation(
    kind: ExecutorKind,
    op: Option<StateOperator>,
    flat: Seq<FieldSpec>,
    d: Seq<(Seq<char>, ValueView)>,
    m: Seq<(Seq<char>, Seq<char>)>,
) -> (Seq<FieldCheck>, bool) {
    let ex = actual_exists(d);
    let rest = field_checks(kind, flat, d, m, ex);
    let req = exists_requirement(flat);
    if kind != ExecutorKind::FileMetadata && req is Some {
        let e = req.unwrap().0;
        let eop = req.unwrap().1;
        if !bool_test(ex, e, eop) {
            (seq![exists_check(kind, e, ex, eop, false)], false)
        } else if !e && !ex {
            (seq![exists_check(kind, e, ex, eop, true)], true)
        } else if kind == ExecutorKind::Service {
            let cs = seq![exists_check(kind, e, ex, eop, true)] + rest;
            (cs, combined(kind, op, cs))
        } else {
            (rest, combined(kind, op, rest))
        }
    } else {
        (rest, combined(kind, op, rest))
    }
}

/// The collected data of each object, by id.
pub open spec fn objects_view(c: Seq<(String, CollectedData)>) -> Seq<
    (Seq<char>, Seq<(Seq<char>, ValueView)>),
> {
    c.map_values(|p: (String, CollectedData)| (p.0@, data_fields(p.1)))
}

/// The result of every object, in the order the objects come.
pub open spec fn expected_object_results(
    kind: ExecutorKind,
    op: Option<StateOperator>,
    flat: Seq<FieldSpec>,
    objs: Seq<(Seq<char>, Seq<(Seq<char>, ValueView)>)>,
    m: Seq<(Seq<char>, Seq<char>)>,
) -> Seq<(Seq<char>, Seq<FieldCheck>, bool)> {
    objs.map_values(
        |o: (Seq<char>, Seq<(Seq<char>, ValueView)>)|
            (o.0, object_evaluation(kind, op, flat, o.1, m).0, object_evaluation(
                kind,
                op,
                flat,
                o.1,
                m,
            ).1),
    )
}

/// Which objects passed.
pub open spec fn object_passes(rs: Seq<(Seq<char>, Seq<FieldCheck>, bool)>) -> Seq<bool> {
    rs.map_values(|r: (Seq<char>, Seq<FieldCheck>, bool)| r.2)
}

// ---------------------------------------------------------------------------
// Evaluation
// ---------------------------------------------------------------------------

/// The views of borrowed STATE fields.
pub open spec fn ref_specs(v: Seq<&StateField>) -> Seq<FieldSpec> {
    v.map_values(|f: &StateField| field_spec(*f))
}

/// The fields of all STATEs, STATE after STATE.
pub fn flatten_states<'a>(states: &'a Vec<ExecutableState>) -> (res: Vec<&'a StateField>)
    ensures
        ref_specs(res@) == flat_fields(states@),
{
    let mut res: Vec<&'a StateField> = Vec::new();
    let mut i: usize = 0;
    while i < states.len()
        invariant
            i <= states@.len(),
            ref_specs(res@) == flat_fields(states@.take(i as int)),
        decreases states.len() - i,
    {
        let st = &states[i];
        let ghost base = ref_specs(res@);
        let mut j: usize = 0;
        while j < st.fields.len()
            invariant
                j <= st.fields@.len(),
                ref_specs(res@) == base + state_specs(*st).take(j as int),
            decreases st.fields.len() - j,
        {
            let ghost before = ref_specs(res@);
            res.push(&st.fields[j]);
            assert(ref_specs(res@) =~= before.push(field_spec(st.fields@[j as int])));
            assert(state_specs(*st).take(j + 1) =~= state_specs(*st).take(j as int).push(
                field_spec(st.fields@[j as int]),
            ));
            j = j + 1;
        }
        assert(state_specs(*st).take(st.fields@.len() as int) =~= state_specs(*st));
        assert(states@.take(i + 1).drop_last() =~= states@.take(i as int));
        assert(states@.take(i + 1).last() == *st);
        i = i + 1;
    }
    assert(states@.take(states@.len() as int) =~= states@);
    res
}

/// The first STATE field named `exists` with a boolean value.
pub fn exists_requirement_exec(flat: &Vec<&StateField>) -> (res: Option<(bool, Operation)>)
    ensures
        res == exists_requirement(ref_specs(flat@)),
{
    let ghost all = ref_specs(flat@);
    let exists_name = chars_of("exists");
    let mut i: usize = 0;
    assert(all.skip(0) =~= all);
    while i < flat.len()
        invariant
            i <= flat@.len(),
            all == ref_specs(flat@),
            exists_name@ == "exists"@,
            exists_requirement(all) == exists_requirement(all.skip(i as int)),
        decreases flat.len() - i,
    {
        let f = flat[i];
        let ghost rest = all.skip(i as int);
        assert(rest[0] == field_spec(*f));
        assert(rest.drop_first() =~= all.skip(i + 1));
        match &f.value {
            ResolvedValue::Boolean(b) => {
                if chars_eq(&chars_of(f.name.as_str()), &exists_name) {
                    return Some((*b, f.operation));
                }
            },
            _ => {},
        }
        i = i + 1;
    }
    None
}

/// Whether the collected data says the item exists.
pub fn actual_exists_exec(data: &CollectedData) -> (res: bool)
    ensures
        res == actual_exists(data_fields(*data)),
{
    match data.get_field("exists") {
        Some(ResolvedValue::Boolean(b)) => *b,
        _ => false,
    }
}

/// The value that stands for one not collected.
fn missing_value(kind: ExecutorKind, exists: bool) -> (res: ResolvedValue)
    ensures
        res@ == ValueView::Str(missing_text(kind, exists)),
{
    match kind {
        ExecutorKind::Service => if exists {
            ResolvedValue::String("missing".to_string())
        } else {
            ResolvedValue::String("N/A".to_string())
        },
        ExecutorKind::Registry | ExecutorKind::RegistrySubkeys => ResolvedValue::String(
            "missing".to_string(),
        ),
        ExecutorKind::FileMetadata => ResolvedValue::String(String::new()),
    }
}

/// Checks one STATE field of one object.
pub fn field_result(
    kind: ExecutorKind,
    f: &StateField,
    data: &CollectedData,
    contract: &CtnContract,
    exists: bool,
) -> (res: FieldValidationResult)
    ensures
        field_check_of(res) == field_check(
            kind,
            field_spec(*f),
            data_fields(*data),
            state_to_data(*contract),
            exists,
        ),
{
    let dn = contract.data_field_for(f.name.as_str());
    match data.get_field(dn.as_str()) {
        Some(v) => {
            let actual = v.copy_value();
            let passed = values_match_exec(kind, &f.value, &actual, f.operation, f.name.as_str());
            let message = check_message(kind, f, &actual, passed);
            FieldValidationResult {
                field_name: f.name.clone(),
                expected_value: f.value.copy_value(),
                actual_value: actual,
                operation: f.operation,
                passed,
                message,
            }
        },
        None => {
            let message = missing_message(kind, f, &dn, exists);
            FieldValidationResult {
                field_name: f.name.clone(),
                expected_value: f.value.copy_value(),
                actual_value: missing_value(kind, exists),
                operation: f.operation,
                passed: false,
                message,
            }
        },
    }
}

// ---------------------------------------------------------------------------
// Messages
// ---------------------------------------------------------------------------

/// The symbol an executor shows for an operation (`?` for one it does not
/// name).
pub open spec fn operation_symbol(kind: ExecutorKind, op: Operation) -> Seq<char> {
    match kind {
        ExecutorKind::FileMetadata => match op {
            Operation::Equals => "Equals"@,
            Operation::NotEqual => "NotEqual"@,
            Operation::GreaterThan => "GreaterThan"@,
            Operation::LessThan => "LessThan"@,
            Operation::GreaterThanOrEqual => "GreaterThanOrEqual"@,
            Operation::LessThanOrEqual => "LessThanOrEqual"@,
            Operation::Contains => "Contains"@,
            Operation::NotContains => "NotContains"@,
            Operation::StartsWith => "StartsWith"@,
            Operation::EndsWith => "EndsWith"@,
            Operation::NotStartsWith => "NotStartsWith"@,
            Operation::NotEndsWith => "NotEndsWith"@,
            Operation::PatternMatch => "PatternMatch"@,
            Operation::Matches => "Matches"@,
            Operation::CaseInsensitiveEquals => "CaseInsensitiveEquals"@,
            Operation::CaseInsensitiveNotEqual => "CaseInsensitiveNotEqual"@,
        },
        _ => match op {
            Operation::Equals => "="@,
            Operation::NotEqual => "!="@,
            Operation::GreaterThan => ">"@,
            Operation::LessThan => "<"@,
            Operation::GreaterThanOrEqual => ">="@,
            Operation::LessThanOrEqual => "<="@,
            Operation::Contains => "contains"@,
            Operation::NotContains => "not_contains"@,
            Operation::PatternMatch => "pattern_match"@,
            Operation::StartsWith => if kind == ExecutorKind::RegistrySubkeys {
                "?"@
            } else {
                "starts"@
            },
            Operation::EndsWith => if kind == ExecutorKind::RegistrySubkeys {
                "?"@
            } else {
                "ends"@
            },
            Operation::CaseInsensitiveEquals => if kind == ExecutorKind::RegistrySubkeys {
                "?"@
            } else {
                "ieq"@
            },
            Operation::CaseInsensitiveNotEqual => if kind == ExecutorKind::RegistrySubkeys {
                "?"@
            } else {
                "ine"@
            },
            Operation::NotStartsWith => if kind == ExecutorKind::Service {
                "not_starts"@
            } else {
                "?"@
            },
            Operation::NotEndsWith => if kind == ExecutorKind::Service {
                "not_ends"@
            } else {
                "?"@
            },
            Operation::Matches => "?"@,
        },
    }
}

/// The symbol an executor shows for an operation.
pub fn operation_text(kind: ExecutorKind, op: Operation) -> (res: &'static str)
    ensures
        res@ == operation_symbol(kind, op),
{
    match kind {
        ExecutorKind::FileMetadata => match op {
            Operation::Equals => "Equals",
            Operation::NotEqual => "NotEqual",
            Operation::GreaterThan => "GreaterThan",
            Operation::LessThan => "LessThan",
            Operation::GreaterThanOrEqual => "GreaterThanOrEqual",
            Operation::LessThanOrEqual => "LessThanOrEqual",
            Operation::Contains => "Contains",
            Operation::NotContains => "NotContains",
            Operation::StartsWith => "StartsWith",
            Operation::EndsWith => "EndsWith",
            Operation::NotStartsWith => "NotStartsWith",
            Operation::NotEndsWith => "NotEndsWith",
            Operation::PatternMatch => "PatternMatch",
            Operation::Matches => "Matches",
            Operation::CaseInsensitiveEquals => "CaseInsensitiveEquals",
            Operation::CaseInsensitiveNotEqual => "CaseInsensitiveNotEqual",
        },
        _ => match op {
            Operation::Equals => "=",
            Operation::NotEqual => "!=",
            Operation::GreaterThan => ">",
            Operation::LessThan => "<",
            Operation::GreaterThanOrEqual => ">=",
            Operation::LessThanOrEqual => "<=",
            Operation::Contains => "contains",
            Operation::NotContains => "not_contains",
            Operation::PatternMatch => "pattern_match",
            Operation::StartsWith => if kind == ExecutorKind::RegistrySubkeys {
                "?"
            } else {
                "starts"
            },
            Operation::EndsWith => if kind == ExecutorKind::RegistrySubkeys {
                "?"
            } else {
                "ends"
            },
            Operation::CaseInsensitiveEquals => if kind == ExecutorKind::RegistrySubkeys {
                "?"
            } else {
                "ieq"
            },
            Operation::CaseInsensitiveNotEqual => if kind == ExecutorKind::RegistrySubkeys {
                "?"
            } else {
                "ine"
            },
            Operation::NotStartsWith => if kind == ExecutorKind::Service {
                "not_starts"
            } else {
                "?"
            },
            Operation::NotEndsWith => if kind == ExecutorKind::Service {
                "not_ends"
            } else {
                "?"
            },
            Operation::Matches => "?",
        },
    }
}

/// A value as messages show it.
pub open spec fn value_text(v: ValueView) -> Seq<char> {
    match v {
        ValueView::Str(s) => s,
        ValueView::Int(i) => crate::model::signed_decimal(i),
        ValueView::Bool(b) => if b {
            "true"@
        } else {
            "false"@
        },
        ValueView::Ver(s) => s,
    }
}

/// A value as the messages of the executor of `kind` show it.
pub open spec fn shown_text(kind: ExecutorKind, v: ValueView) -> Seq<char> {
    match kind {
        ExecutorKind::RegistrySubkeys => crate::executors::subkeys_value_text(v),
        ExecutorKind::FileMetadata => crate::executors::metadata_value_text(v),
        _ => value_text(v),
    }
}

/// The message of a comparison of field `name`.
pub open spec fn check_text(
    kind: ExecutorKind,
    name: Seq<char>,
    expected: ValueView,
    actual: ValueView,
    op: Operation,
    passed: bool,
) -> Seq<char> {
    let a = shown_text(kind, actual);
    let e = shown_text(kind, expected);
    let o = operation_symbol(kind, op);
    if kind == ExecutorKind::FileMetadata {
        if passed {
            "Field '"@ + name + "' passed: "@ + a + " "@ + o + " "@ + e
        } else {
            "Field '"@ + name + "' failed: expected "@ + e + " "@ + o + " "@ + e + ", got "@ + a
        }
    } else if passed {
        name + " check passed: "@ + a + " "@ + o + " "@ + e
    } else {
        name + " check failed: got "@ + a + ", expected "@ + o + " "@ + e
    }
}

/// The message of a field whose data (`data_name`) was not collected.
pub open spec fn missing_field_text(
    kind: ExecutorKind,
    name: Seq<char>,
    data_name: Seq<char>,
    exists: bool,
) -> Seq<char> {
    if kind == ExecutorKind::FileMetadata {
        "Field '"@ + name + "' (mapped to '"@ + data_name + "') not collected"@
    } else if exists {
        "Field '"@ + name + "' not collected"@
    } else if kind == ExecutorKind::Service {
        "Field '"@ + name + "' not available (service does not exist)"@
    } else {
        "Field '"@ + name + "' not available (key does not exist)"@
    }
}

/// What the executor of `kind` calls the item an `exists` field is about.
pub open spec fn item_noun(kind: ExecutorKind) -> Seq<char> {
    match kind {
        ExecutorKind::Service => "Service"@,
        ExecutorKind::Registry => "Registry key/value"@,
        _ => "Registry key"@,
    }
}

/// The message of a failed existence step.
pub open spec fn exists_failure_text(kind: ExecutorKind, e: bool, ex: bool, op: Operation) -> Seq<char> {
    if e && !ex {
        item_noun(kind) + " does not exist"@
    } else if !e && ex {
        item_noun(kind) + " exists but should not"@
    } else {
        "exists check failed: got "@ + value_text(ValueView::Bool(ex)) + ", expected "@
            + operation_symbol(kind, op) + " "@ + value_text(ValueView::Bool(e))
    }
}

/// A value as messages show it.
pub fn value_text_exec(v: &ResolvedValue) -> (res: String)
    ensures
        res@ == value_text(v@),
{
    match v {
        ResolvedValue::String(s) => s.clone(),
        ResolvedValue::Integer(i) => string_from_chars(&i64_to_decimal(*i)),
        ResolvedValue::Boolean(b) => if *b {
            "true".to_string()
        } else {
            "false".to_string()
        },
        ResolvedValue::Version(s) => s.clone(),
    }
}

fn shown_value(kind: ExecutorKind, v: &ResolvedValue) -> (res: String)
    ensures
        res@ == shown_text(kind, v@),
{
    match kind {
        ExecutorKind::RegistrySubkeys => crate::executors::subkeys_value_string(v),
        ExecutorKind::FileMetadata => crate::executors::metadata_value_string(v),
        _ => value_text_exec(v),
    }
}

/// Appends the characters of `s`.
pub fn push_str(v: &mut Vec<char>, s: &str)
    ensures
        final(v)@ == old(v)@ + s@,
{
    append_chars(v, &chars_of(s));
}

fn check_message(kind: ExecutorKind, f: &StateField, actual: &ResolvedValue, passed: bool) -> (res:
    String)
    ensures
        res@ == check_text(kind, f.name@, f.value@, actual@, f.operation, passed),
{
    let act = shown_value(kind, actual);
    let exp = shown_value(kind, &f.value);
    let op = operation_text(kind, f.operation);
    let mut v: Vec<char> = Vec::new();
    if kind == ExecutorKind::FileMetadata {
        push_str(&mut v, "Field '");
        push_str(&mut v, f.name.as_str());
        if passed {
            push_str(&mut v, "' passed: ");
            push_str(&mut v, act.as_str());
            push_str(&mut v, " ");
            push_str(&mut v, op);
            push_str(&mut v, " ");
            push_str(&mut v, exp.as_str());
        } else {
            push_str(&mut v, "' failed: expected ");
            push_str(&mut v, exp.as_str());
            push_str(&mut v, " ");
            push_str(&mut v, op);
            push_str(&mut v, " ");
            push_str(&mut v, exp.as_str());
            push_str(&mut v, ", got ");
            push_str(&mut v, act.as_str());
        }
    } else {
        push_str(&mut v, f.name.as_str());
        if passed {
            push_str(&mut v, " check passed: ");
            push_str(&mut v, act.as_str());
            push_str(&mut v, " ");
            push_str(&mut v, op);
            push_str(&mut v, " ");
            push_str(&mut v, exp.as_str());
        } else {
            push_str(&mut v, " check failed: got ");
            push_str(&mut v, act.as_str());
            push_str(&mut v, ", expected ");
            push_str(&mut v, op);
            push_str(&mut v, " ");
            push_str(&mut v, exp.as_str());
        }
    }
    assert(Seq::<char>::empty() + "Field '"@ =~= "Field '"@);
    assert(Seq::<char>::empty() + f.name@ =~= f.name@);
    string_from_chars(&v)
}

fn missing_message(kind: ExecutorKind, f: &StateField, data_name: &String, exists: bool) -> (res:
    String)
    ensures
        res@ == missing_field_text(kind, f.name@, data_name@, exists),
{
    let mut v: Vec<char> = Vec::new();
    push_str(&mut v, "Field '");
    push_str(&mut v, f.name.as_str());
    if kind == ExecutorKind::FileMetadata {
        push_str(&mut v, "' (mapped to '");
        push_str(&mut v, data_name.as_str());
        push_str(&mut v, "') not collected");
    } else if exists {
        push_str(&mut v, "' not collected");
    } else if kind == ExecutorKind::Service {
        push_str(&mut v, "' not available (service does not exist)");
    } else {
        push_str(&mut v, "' not available (key does not exist)");
    }
    assert(Seq::<char>::empty() + "Field '"@ =~= "Field '"@);
    string_from_chars(&v)
}

// ---------------------------------------------------------------------------
// Checking an object and a criterion
// ---------------------------------------------------------------------------

/// How results name an object's kind.
pub open spec fn label_text(kind: ExecutorKind) -> Seq<char> {
    match kind {
        ExecutorKind::Service => "Service"@,
        ExecutorKind::Registry | ExecutorKind::RegistrySubkeys => "Registry"@,
        ExecutorKind::FileMetadata => "Object"@,
    }
}

/// `passed` or `failed`.
pub open spec fn pass_word(b: bool) -> Seq<char> {
    if b {
        "passed"@
    } else {
        "failed"@
    }
}

/// The texts of strings.
pub open spec fn string_views(v: Seq<String>) -> Seq<Seq<char>> {
    v.map_values(|s: String| s@)
}

/// The line a failed check of object `id` adds to the failures.
pub open spec fn failure_line(kind: ExecutorKind, id: Seq<char>, msg: Seq<char>) -> Seq<char> {
    label_text(kind) + " '"@ + id + "': "@ + msg
}

/// The failure lines of an object's checks: one per failed check, in order.
pub open spec fn check_failures(kind: ExecutorKind, id: Seq<char>, cs: Seq<FieldCheck>) -> Seq<
    Seq<char>,
>
    decreases cs.len(),
{
    if cs.len() == 0 {
        Seq::empty()
    } else {
        check_failures(kind, id, cs.drop_last()) + if cs.last().passed {
            Seq::<Seq<char>>::empty()
        } else {
            seq![failure_line(kind, id, cs.last().message)]
        }
    }
}

/// The failure lines of all objects, object after object.
pub open spec fn failure_lines(kind: ExecutorKind, rs: Seq<(Seq<char>, Seq<FieldCheck>, bool)>) -> Seq<
    Seq<char>,
>
    decreases rs.len(),
{
    if rs.len() == 0 {
        Seq::empty()
    } else {
        failure_lines(kind, rs.drop_last()) + check_failures(kind, rs.last().0, rs.last().1)
    }
}

/// The message of an object's result: why the existence step decided it,
/// or whether its checks passed (with their count, for file metadata).
pub open spec fn object_message(
    kind: ExecutorKind,
    id: Seq<char>,
    flat: Seq<FieldSpec>,
    d: Seq<(Seq<char>, ValueView)>,
    cs: Seq<FieldCheck>,
    passed: bool,
) -> Seq<char> {
    object_message_of(kind, id, exists_requirement(flat), actual_exists(d), cs, passed)
}

/// `object_message` from the existence requirement `req` and whether the
/// item exists (`ex`).
pub open spec fn object_message_of(
    kind: ExecutorKind,
    id: Seq<char>,
    req: Option<(bool, Operation)>,
    ex: bool,
    cs: Seq<FieldCheck>,
    passed: bool,
) -> Seq<char> {
    if kind != ExecutorKind::FileMetadata && req is Some && !bool_test(
        ex,
        req.unwrap().0,
        req.unwrap().1,
    ) {
        if kind == ExecutorKind::Service {
            "Service '"@ + id + "': failed ("@ + (if !ex {
                "service does not exist"@
            } else {
                "service should not exist"@
            }) + ")"@
        } else {
            "Registry '"@ + id + "': failed (key does not exist)"@
        }
    } else if kind != ExecutorKind::FileMetadata && req is Some && !req.unwrap().0 && !ex {
        if kind == ExecutorKind::Service {
            "Service '"@ + id + "': passed (service correctly does not exist)"@
        } else {
            "Registry '"@ + id + "': passed (key correctly does not exist)"@
        }
    } else if kind == ExecutorKind::FileMetadata {
        label_text(kind) + " '"@ + id + "': "@ + pass_word(passed) + " ("@ + decimal(count_true(passes(cs)))
            + " of "@ + decimal(cs.len()) + " fields passed)"@
    } else {
        label_text(kind) + " '"@ + id + "': "@ + pass_word(passed)
    }
}

/// How the final message names the CTN type.
pub open spec fn title_text(kind: ExecutorKind) -> Seq<char> {
    match kind {
        ExecutorKind::Service => "Service"@,
        ExecutorKind::Registry => "Registry"@,
        ExecutorKind::RegistrySubkeys => "Registry subkeys"@,
        ExecutorKind::FileMetadata => "File metadata"@,
    }
}

/// The message of a criterion whose objects were checked: how many of them
/// are compliant when it passed; otherwise its failure lines (for file
/// metadata without any, how many are compliant).
pub open spec fn final_message(
    kind: ExecutorKind,
    passed: bool,
    passing: nat,
    total: nat,
    failures: Seq<Seq<char>>,
) -> Seq<char> {
    if passed {
        title_text(kind) + " validation passed: "@ + decimal(passing) + " of "@ + decimal(total) + (
        if kind == ExecutorKind::Service {
            " services compliant"@
        } else {
            " objects compliant"@
        })
    } else if kind == ExecutorKind::FileMetadata && failures.len() == 0 {
        "File metadata validation failed: "@ + decimal(passing) + " of "@ + decimal(total)
            + " objects compliant (item check failed)"@
    } else {
        title_text(kind) + " validation failed:\n  - "@ + join(failures, "\n  - "@)
    }
}

/// What the executor of `kind` calls the objects it counts.
pub open spec fn existence_noun(kind: ExecutorKind) -> Seq<char> {
    match kind {
        ExecutorKind::Service => "service objects"@,
        ExecutorKind::Registry => "registry objects"@,
        ExecutorKind::RegistrySubkeys => "registry keys"@,
        ExecutorKind::FileMetadata => "objects"@,
    }
}

/// The message of a failed existence check.
pub open spec fn existence_failure_text(kind: ExecutorKind, expected: nat, found: nat) -> Seq<char> {
    "Existence check failed: expected "@ + decimal(expected) + " "@ + existence_noun(kind)
        + ", found "@ + decimal(found)
}

fn object_label(kind: ExecutorKind) -> (res: &'static str)
    ensures
        res@ == label_text(kind),
{
    match kind {
        ExecutorKind::Service => "Service",
        ExecutorKind::Registry | ExecutorKind::RegistrySubkeys => "Registry",
        ExecutorKind::FileMetadata => "Object",
    }
}

/// Records the failure of a field check of object `object_id`.
pub(crate) fn note_failure(kind: ExecutorKind, object_id: &str, msg: &str, failures: &mut Vec<String>)
    ensures
        string_views(final(failures)@) == string_views(old(failures)@).push(
            failure_line(kind, object_id@, msg@),
        ),
{
    let mut v: Vec<char> = Vec::new();
    push_str(&mut v, object_label(kind));
    push_str(&mut v, " '");
    push_str(&mut v, object_id);
    push_str(&mut v, "': ");
    push_str(&mut v, msg);
    assert(Seq::<char>::empty() + label_text(kind) =~= label_text(kind));
    let line = string_from_chars(&v);
    let ghost before = string_views(failures@);
    failures.push(line);
    assert(string_views(failures@) =~= before.push(failure_line(kind, object_id@, msg@)));
}

/// The record of the existence step, as a result.
fn exists_result(
    kind: ExecutorKind,
    e: bool,
    ex: bool,
    op: Operation,
    passed: bool,
) -> (res: FieldValidationResult)
    ensures
        field_check_of(res) == exists_check(kind, e, ex, op, passed),
{
    let message = if passed {
        "exists check passed".to_string()
    } else {
        let thing = match kind {
            ExecutorKind::Service => "Service",
            ExecutorKind::Registry => "Registry key/value",
            _ => "Registry key",
        };
        let mut v: Vec<char> = Vec::new();
        if e && !ex {
            push_str(&mut v, thing);
            push_str(&mut v, " does not exist");
        } else if !e && ex {
            push_str(&mut v, thing);
            push_str(&mut v, " exists but should not");
        } else {
            let got = value_text_exec(&ResolvedValue::Boolean(ex));
            let want = value_text_exec(&ResolvedValue::Boolean(e));
            push_str(&mut v, "exists check failed: got ");
            push_str(&mut v, got.as_str());
            push_str(&mut v, ", expected ");
            push_str(&mut v, operation_text(kind, op));
            push_str(&mut v, " ");
            push_str(&mut v, want.as_str());
        }
        assert(Seq::<char>::empty() + thing@ =~= thing@);
        assert(Seq::<char>::empty() + "exists check failed: got "@ =~= "exists check failed: got "@);
        string_from_chars(&v)
    };
    FieldValidationResult {
        field_name: "exists".to_string(),
        expected_value: ResolvedValue::Boolean(e),
        actual_value: ResolvedValue::Boolean(ex),
        operation: op,
        passed,
        message,
    }
}

/// Appends the checks that one STATE field contributes.
fn push_field_step(
    kind: ExecutorKind,
    f: &StateField,
    data: &CollectedData,
    contract: &CtnContract,
    exists: bool,
    object_id: &str,
    out: &mut Vec<FieldValidationResult>,
    failures: &mut Vec<String>,
)
    ensures
        checks_of(final(out)@) == checks_of(old(out)@) + field_step(
            kind,
            field_spec(*f),
            data_fields(*data),
            state_to_data(*contract),
            exists,
        ),
        string_views(final(failures)@) == string_views(old(failures)@) + check_failures(
            kind,
            object_id@,
            field_step(kind, field_spec(*f), data_fields(*data), state_to_data(*contract), exists),
        ),
{
    let ghost before = checks_of(out@);
    let is_exists = chars_eq(&chars_of(f.name.as_str()), &chars_of("exists"));
    proof {
        reveal_strlit("exists");
    }
    let ghost fbefore = string_views(failures@);
    if is_exists && kind == ExecutorKind::Service {
        assert(field_step(kind, field_spec(*f), data_fields(*data), state_to_data(*contract), exists)
            =~= Seq::<FieldCheck>::empty());
        assert(checks_of(out@) =~= before + Seq::<FieldCheck>::empty());
        assert(fbefore + check_failures(kind, object_id@, Seq::<FieldCheck>::empty()) =~= fbefore);
        return ;
    }
    let r = if is_exists && (kind == ExecutorKind::Registry || kind
        == ExecutorKind::RegistrySubkeys) {
        FieldValidationResult {
            field_name: "exists".to_string(),
            expected_value: f.value.copy_value(),
            actual_value: ResolvedValue::Boolean(exists),
            operation: f.operation,
            passed: true,
            message: "exists check passed".to_string(),
        }
    } else {
        field_result(kind, f, data, contract, exists)
    };
    if !r.passed {
        note_failure(kind, object_id, r.message.as_str(), failures);
    }
    let ghost c = field_check_of(r);
    out.push(r);
    assert(checks_of(out@) =~= before.push(c));
    assert(field_step(kind, field_spec(*f), data_fields(*data), state_to_data(*contract), exists)
        =~= seq![c]);
    proof {
        lemma_check_failures_single(kind, object_id@, c);
    }
    assert(string_views(failures@) =~= fbefore + check_failures(kind, object_id@, seq![c]));
}

/// Which results passed.
pub fn pass_flags(rs: &Vec<FieldValidationResult>) -> (res: Vec<bool>)
    ensures
        res@ == passes(checks_of(rs@)),
{
    let mut res: Vec<bool> = Vec::new();
    let mut i: usize = 0;
    while i < rs.len()
        invariant
            i <= rs@.len(),
            res@ == passes(checks_of(rs@)).take(i as int),
        decreases rs.len() - i,
    {
        res.push(rs[i].passed);
        assert(res@ =~= passes(checks_of(rs@)).take(i + 1));
        i = i + 1;
    }
    assert(passes(checks_of(rs@)).take(rs@.len() as int) =~= passes(checks_of(rs@)));
    res
}

/// The failure lines of a single check.
pub proof fn lemma_check_failures_single(kind: ExecutorKind, id: Seq<char>, c: FieldCheck)
    ensures
        check_failures(kind, id, seq![c]) == if c.passed {
            Seq::<Seq<char>>::empty()
        } else {
            seq![failure_line(kind, id, c.message)]
        },
{
    assert(seq![c].drop_last() =~= Seq::<FieldCheck>::empty());
    assert(check_failures(kind, id, Seq::<FieldCheck>::empty()) =~= Seq::<Seq<char>>::empty());
    assert(Seq::<Seq<char>>::empty() + seq![failure_line(kind, id, c.message)] =~= seq![
        failure_line(kind, id, c.message),
    ]);
    assert(Seq::<Seq<char>>::empty() + Seq::<Seq<char>>::empty() =~= Seq::<Seq<char>>::empty());
}

/// The failure lines of checks one after another are those of each.
pub proof fn lemma_check_failures_append(
    kind: ExecutorKind,
    id: Seq<char>,
    a: Seq<FieldCheck>,
    b: Seq<FieldCheck>,
)
    ensures
        check_failures(kind, id, a + b) == check_failures(kind, id, a) + check_failures(kind, id, b),
    decreases b.len(),
{
    if b.len() == 0 {
        assert(a + b =~= a);
        assert(check_failures(kind, id, a) + check_failures(kind, id, b) =~= check_failures(
            kind,
            id,
            a,
        ));
    } else {
        lemma_check_failures_append(kind, id, a, b.drop_last());
        assert((a + b).drop_last() =~= a + b.drop_last());
        assert((a + b).last() == b.last());
        let tail = if b.last().passed {
            Seq::<Seq<char>>::empty()
        } else {
            seq![failure_line(kind, id, b.last().message)]
        };
        assert(check_failures(kind, id, a) + check_failures(kind, id, b.drop_last()) + tail
            =~= check_failures(kind, id, a) + (check_failures(kind, id, b.drop_last()) + tail));
    }
}

/// The message of an object's result, once its checks are known.
fn object_message_exec(
    kind: ExecutorKind,
    object_id: &str,
    req: Option<(bool, Operation)>,
    ex: bool,
    results: &Vec<FieldValidationResult>,
    passed: bool,
) -> (res: String)
    ensures
        res@ == object_message_of(kind, object_id@, req, ex, checks_of(results@), passed),
{
    let mut v: Vec<char> = Vec::new();
    if kind != ExecutorKind::FileMetadata {
        if let Some((e, eop)) = req {
            if !bool_compare(ex, e, eop) {
                if kind == ExecutorKind::Service {
                    push_str(&mut v, "Service '");
                    push_str(&mut v, object_id);
                    push_str(&mut v, "': failed (");
                    if !ex {
                        push_str(&mut v, "service does not exist");
                    } else {
                        push_str(&mut v, "service should not exist");
                    }
                    push_str(&mut v, ")");
                } else {
                    push_str(&mut v, "Registry '");
                    push_str(&mut v, object_id);
                    push_str(&mut v, "': failed (key does not exist)");
                }
                assert(Seq::<char>::empty() + "Service '"@ =~= "Service '"@);
                assert(Seq::<char>::empty() + "Registry '"@ =~= "Registry '"@);
                return string_from_chars(&v);
            }
            if !e && !ex {
                if kind == ExecutorKind::Service {
                    push_str(&mut v, "Service '");
                    push_str(&mut v, object_id);
                    push_str(&mut v, "': passed (service correctly does not exist)");
                } else {
                    push_str(&mut v, "Registry '");
                    push_str(&mut v, object_id);
                    push_str(&mut v, "': passed (key correctly does not exist)");
                }
                assert(Seq::<char>::empty() + "Service '"@ =~= "Service '"@);
                assert(Seq::<char>::empty() + "Registry '"@ =~= "Registry '"@);
                return string_from_chars(&v);
            }
        }
    }
    push_str(&mut v, object_label(kind));
    push_str(&mut v, " '");
    push_str(&mut v, object_id);
    push_str(&mut v, "': ");
    if passed {
        push_str(&mut v, "passed");
    } else {
        push_str(&mut v, "failed");
    }
    assert(Seq::<char>::empty() + label_text(kind) =~= label_text(kind));
    if kind == ExecutorKind::FileMetadata {
        let flags = pass_flags(results);
        let mut n: u64 = 0;
        let mut i: usize = 0;
        while i < flags.len()
            invariant
                i <= flags@.len(),
                n == count_true(flags@.take(i as int)),
                n <= i,
            decreases flags.len() - i,
        {
            assert(flags@.take(i + 1).drop_last() =~= flags@.take(i as int));
            if flags[i] {
                n = n + 1;
            }
            i = i + 1;
        }
        assert(flags@.take(flags@.len() as int) =~= flags@);
        push_str(&mut v, " (");
        let pn = string_from_chars(&crate::numfmt::u64_to_decimal(n));
        push_str(&mut v, pn.as_str());
        push_str(&mut v, " of ");
        let tn = string_from_chars(&crate::numfmt::u128_to_decimal(results.len() as u128));
        push_str(&mut v, tn.as_str());
        push_str(&mut v, " fields passed)");
        assert(checks_of(results@).len() == results@.len());
    }
    string_from_chars(&v)
}

/// Checks one object: its field results, whether it passed, and the
/// message of its result; each failed check adds a line to `failures`.
pub fn evaluate_object(
    kind: ExecutorKind,
    op: Option<StateOperator>,
    flat: &Vec<&StateField>,
    data: &CollectedData,
    contract: &CtnContract,
    object_id: &str,
    failures: &mut Vec<String>,
) -> (res: (Vec<FieldValidationResult>, bool, String))
    ensures
        (checks_of(res.0@), res.1) == object_evaluation(
            kind,
            op,
            ref_specs(flat@),
            data_fields(*data),
            state_to_data(*contract),
        ),
        res.2@ == object_message(
            kind,
            object_id@,
            ref_specs(flat@),
            data_fields(*data),
            checks_of(res.0@),
            res.1,
        ),
        string_views(final(failures)@) == string_views(old(failures)@) + check_failures(
            kind,
            object_id@,
            checks_of(res.0@),
        ),
{
    let ghost specs = ref_specs(flat@);
    let ghost d = data_fields(*data);
    let ghost m = state_to_data(*contract);
    let ghost f0 = string_views(failures@);
    let ex = actual_exists_exec(data);
    let req = if kind != ExecutorKind::FileMetadata {
        exists_requirement_exec(flat)
    } else {
        None
    };
    let mut out: Vec<FieldValidationResult> = Vec::new();
    assert(f0 + check_failures(kind, object_id@, checks_of(out@)) =~= f0);
    match req {
        Some((e, eop)) => {
            let ok = bool_compare(ex, e, eop);
            if !ok {
                let r = exists_result(kind, e, ex, eop, false);
                note_failure(kind, object_id, r.message.as_str(), failures);
                let ghost c = field_check_of(r);
                out.push(r);
                assert(checks_of(out@) =~= seq![c]);
                proof {
                    lemma_check_failures_single(kind, object_id@, c);
                }
                assert(string_views(failures@) =~= f0 + check_failures(kind, object_id@, seq![c]));
                let msg = object_message_exec(kind, object_id, req, ex, &out, false);
                return (out, false, msg);
            }
            if !e && !ex {
                let r = exists_result(kind, e, ex, eop, true);
                let ghost c = field_check_of(r);
                out.push(r);
                assert(checks_of(out@) =~= seq![c]);
                proof {
                    lemma_check_failures_single(kind, object_id@, c);
                }
                assert(string_views(failures@) =~= f0 + check_failures(kind, object_id@, seq![c]));
                let msg = object_message_exec(kind, object_id, req, ex, &out, true);
                return (out, true, msg);
            }
            if kind == ExecutorKind::Service {
                let r = exists_result(kind, e, ex, eop, true);
                let ghost c = field_check_of(r);
                out.push(r);
                assert(checks_of(out@) =~= seq![c]);
                proof {
                    lemma_check_failures_single(kind, object_id@, c);
                }
                assert(string_views(failures@) =~= f0 + check_failures(kind, object_id@, seq![c]));
            }
        },
        None => {},
    }
    let ghost pre = checks_of(out@);
    let mut i: usize = 0;
    assert(specs.take(0) =~= Seq::<FieldSpec>::empty());
    assert(pre + field_checks(kind, specs.take(0), d, m, ex) =~= pre);
    while i < flat.len()
        invariant
            i <= flat@.len(),
            specs == ref_specs(flat@),
            d == data_fields(*data),
            m == state_to_data(*contract),
            checks_of(out@) == pre + field_checks(kind, specs.take(i as int), d, m, ex),
            string_views(failures@) == f0 + check_failures(kind, object_id@, checks_of(out@)),
        decreases flat.len() - i,
    {
        let ghost before = checks_of(out@);
        let ghost fb = string_views(failures@);
        push_field_step(kind, flat[i], data, contract, ex, object_id, &mut out, failures);
        let ghost step = field_step(kind, field_spec(*flat@[i as int]), d, m, ex);
        proof {
            lemma_check_failures_append(kind, object_id@, before, step);
        }
        assert(checks_of(out@) == before + step);
        assert(specs.take(i + 1).drop_last() =~= specs.take(i as int));
        assert(specs.take(i + 1).last() == field_spec(*flat@[i as int]));
        assert(checks_of(out@) =~= pre + field_checks(kind, specs.take(i + 1), d, m, ex));
        i = i + 1;
    }
    assert(specs.take(flat@.len() as int) =~= specs);
    let flags = pass_flags(&out);
    let c = if kind == ExecutorKind::Service && out.len() == 0 {
        true
    } else {
        evaluate_state_operator(op, flags.as_slice())
    };
    let msg = object_message_exec(kind, object_id, req, ex, &out, c);
    (out, c, msg)
}

/// The result of a criterion whose existence check failed.
fn existence_failure(
    kind: ExecutorKind,
    criterion: &ExecutableCriterion,
    expected: usize,
    found: usize,
    collected: Vec<(String, CollectedData)>,
) -> (res: CtnExecutionResult)
    ensures
        res.ctn_type@ == criterion.criterion_type@,
        res.status == Outcome::Fail,
        res.state_results@.len() == 0,
        res.objects_passing == 0,
        res.objects_total == found,
        res.collected_data == collected,
        res.failures@.len() == 0,
        res.message@ == existence_failure_text(kind, expected as nat, found as nat),
{
    let noun = match kind {
        ExecutorKind::Service => "service objects",
        ExecutorKind::Registry => "registry objects",
        ExecutorKind::RegistrySubkeys => "registry keys",
        ExecutorKind::FileMetadata => "objects",
    };
    let e = string_from_chars(&crate::numfmt::u128_to_decimal(expected as u128));
    let f = string_from_chars(&crate::numfmt::u128_to_decimal(found as u128));
    let mut v: Vec<char> = Vec::new();
    push_str(&mut v, "Existence check failed: expected ");
    push_str(&mut v, e.as_str());
    push_str(&mut v, " ");
    push_str(&mut v, noun);
    push_str(&mut v, ", found ");
    push_str(&mut v, f.as_str());
    assert(Seq::<char>::empty() + "Existence check failed: expected "@
        =~= "Existence check failed: expected "@);
    CtnExecutionResult {
        ctn_type: criterion.criterion_type.clone(),
        status: Outcome::Fail,
        state_results: Vec::new(),
        message: string_from_chars(&v),
        failures: Vec::new(),
        objects_passing: 0,
        objects_total: found,
        collected_data: collected,
    }
}

/// The messages of object results.
pub open spec fn object_messages(rs: Seq<StateValidationResult>) -> Seq<Seq<char>> {
    rs.map_values(|r: StateValidationResult| r.message@)
}

/// The message of each object's result, in order.
pub open spec fn expected_object_messages(
    kind: ExecutorKind,
    flat: Seq<FieldSpec>,
    objs: Seq<(Seq<char>, Seq<(Seq<char>, ValueView)>)>,
    rs: Seq<(Seq<char>, Seq<FieldCheck>, bool)>,
) -> Seq<Seq<char>> {
    Seq::new(
        objs.len(),
        |i: int| object_message(kind, objs[i].0, flat, objs[i].1, rs[i].1, rs[i].2),
    )
}

/// The final message of a run of `kind` from its object results.
pub open spec fn run_message(
    kind: ExecutorKind,
    item_check: crate::criteria::ItemCheck,
    found: nat,
    rs: Seq<(Seq<char>, Seq<FieldCheck>, bool)>,
) -> Seq<char> {
    let passing = count_true(object_passes(rs));
    final_message(
        kind,
        item_holds(item_check, passing, found),
        passing,
        found,
        failure_lines(kind, rs),
    )
}

/// What running `criterion` over `collected` yields: the criterion's type,
/// the data handed back, the number of objects; when the existence check
/// fails, a failure with no object results; otherwise the result of each
/// object in order, how many passed, and a pass exactly when the item check
/// holds.
pub open spec fn runs_criterion(
    kind: ExecutorKind,
    contract: CtnContract,
    criterion: ExecutableCriterion,
    collected: Vec<(String, CollectedData)>,
    res: CtnExecutionResult,
) -> bool {
    let found = collected@.len() as nat;
    let existence_ok = existence_holds(
        criterion.test.existence_check,
        found,
        criterion.objects@.len() as nat,
    );
    let rs = expected_object_results(
        kind,
        criterion.test.state_operator,
        flat_fields(criterion.states@),
        objects_view(collected@),
        state_to_data(contract),
    );
    &&& res.ctn_type@ == criterion.criterion_type@
    &&& res.collected_data == collected
    &&& res.objects_total == found
    &&& !existence_ok ==> res.status == Outcome::Fail && res.state_results@.len() == 0
        && res.objects_passing == 0 && res.failures@.len() == 0 && res.message@
        == existence_failure_text(kind, criterion.objects@.len() as nat, found)
    &&& forall|k: int|
        0 <= k < res.state_results@.len() ==> (#[trigger] res.state_results@[k]).state_operator
            == criterion.test.state_operator
    &&& existence_ok ==> {
        &&& object_results_view(res.state_results@) == rs
        &&& object_messages(res.state_results@) == expected_object_messages(
            kind,
            flat_fields(criterion.states@),
            objects_view(collected@),
            rs,
        )
        &&& res.objects_passing == count_true(object_passes(rs))
        &&& (res.status == Outcome::Pass <==> item_holds(
            criterion.test.item_check,
            count_true(object_passes(rs)),
            found,
        ))
        &&& string_views(res.failures@) == failure_lines(kind, rs)
        &&& res.message@ == run_message(kind, criterion.test.item_check, found, rs)
    }
}

/// Runs a criterion over the data collected for its objects: the existence
/// check on how many objects were found, the state check of each object, and
/// the item check on how many passed.
pub fn execute_criterion(
    kind: ExecutorKind,
    contract: &CtnContract,
    criterion: &ExecutableCriterion,
    collected: Vec<(String, CollectedData)>,
) -> (res: CtnExecutionResult)
    ensures
        runs_criterion(kind, *contract, *criterion, collected, res),
{
    let expected = criterion.expected_object_count();
    let found = collected.len();
    if !evaluate_existence_check(criterion.test.existence_check, found, expected) {
        return existence_failure(kind, criterion, expected, found, collected);
    }
    let op = criterion.test.state_operator;
    let flat = flatten_states(&criterion.states);
    let ghost objs = objects_view(collected@);
    let ghost rs = expected_object_results(
        kind,
        op,
        flat_fields(criterion.states@),
        objs,
        state_to_data(*contract),
    );
    let ghost ms = expected_object_messages(kind, flat_fields(criterion.states@), objs, rs);
    let mut results: Vec<StateValidationResult> = Vec::new();
    let mut failures: Vec<String> = Vec::new();
    let mut passing: usize = 0;
    let mut i: usize = 0;
    while i < collected.len()
        invariant
            i <= collected@.len(),
            ref_specs(flat@) == flat_fields(criterion.states@),
            op == criterion.test.state_operator,
            objs == objects_view(collected@),
            rs == expected_object_results(
                kind,
                op,
                flat_fields(criterion.states@),
                objs,
                state_to_data(*contract),
            ),
            ms == expected_object_messages(kind, flat_fields(criterion.states@), objs, rs),
            object_results_view(results@) == rs.take(i as int),
            object_messages(results@) == ms.take(i as int),
            string_views(failures@) == failure_lines(kind, rs.take(i as int)),
            passing == count_true(object_passes(rs.take(i as int))),
            passing <= i,
            forall|k: int| 0 <= k < results@.len() ==> (#[trigger] results@[k]).state_operator == op,
        decreases collected.len() - i,
    {
        let id = &collected[i].0;
        let data = &collected[i].1;
        let (field_results, c, message) = evaluate_object(
            kind,
            op,
            &flat,
            data,
            contract,
            id.as_str(),
            &mut failures,
        );
        let r = StateValidationResult {
            object_id: id.clone(),
            state_results: field_results,
            combined_result: c,
            state_operator: op,
            message,
        };
        let ghost before = object_results_view(results@);
        let ghost mbefore = object_messages(results@);
        let ghost rv = object_result_view(r);
        let ghost mv = r.message@;
        results.push(r);
        assert(rs[i as int] == rv);
        assert(objs[i as int] == (collected@[i as int].0@, data_fields(collected@[i as int].1)));
        assert(ms[i as int] == mv);
        assert(object_results_view(results@) =~= rs.take(i + 1));
        assert(object_messages(results@) =~= ms.take(i + 1));
        assert(rs.take(i + 1).drop_last() =~= rs.take(i as int));
        assert(rs.take(i + 1).last() == rs[i as int]);
        assert(object_passes(rs.take(i + 1)).drop_last() =~= object_passes(rs.take(i as int)));
        if c {
            passing = passing + 1;
        }
        i = i + 1;
    }
    assert(rs.take(collected@.len() as int) =~= rs);
    assert(ms.take(collected@.len() as int) =~= ms);
    let total = results.len();
    let item_passed = evaluate_item_check(criterion.test.item_check, passing, total);
    let status = if item_passed {
        Outcome::Pass
    } else {
        Outcome::Fail
    };
    let message = final_message_exec(kind, item_passed, passing, total, &failures);
    CtnExecutionResult {
        ctn_type: criterion.criterion_type.clone(),
        status,
        state_results: results,
        message,
        failures,
        objects_passing: passing,
        objects_total: found,
        collected_data: collected,
    }
}

/// The final message of a run.
pub(crate) fn join_lines(failures: &Vec<String>) -> (res: Vec<char>)
    ensures
        res@ == join(string_views(failures@), "\n  - "@),
{
    let mut lines: Vec<Vec<char>> = Vec::new();
    let mut k: usize = 0;
    while k < failures.len()
        invariant
            k <= failures@.len(),
            crate::text::views(lines@) == string_views(failures@).take(k as int),
        decreases failures.len() - k,
    {
        let ghost before = crate::text::views(lines@);
        let line = chars_of(failures[k].as_str());
        lines.push(line);
        assert(crate::text::views(lines@) =~= before.push(failures@[k as int]@));
        assert(string_views(failures@).take(k + 1) =~= string_views(failures@).take(
            k as int,
        ).push(failures@[k as int]@));
        k = k + 1;
    }
    assert(string_views(failures@).take(failures@.len() as int) =~= string_views(failures@));
    assert(crate::text::views(lines@).subrange(0, lines@.len() as int) =~= crate::text::views(
        lines@,
    ));
    crate::text::join_from(&lines, 0, &chars_of("\n  - "))
}

fn final_message_exec(
    kind: ExecutorKind,
    passed: bool,
    passing: usize,
    total: usize,
    failures: &Vec<String>,
) -> (res: String)
    ensures
        res@ == final_message(kind, passed, passing as nat, total as nat, string_views(failures@)),
{
    let title = match kind {
        ExecutorKind::Service => "Service",
        ExecutorKind::Registry => "Registry",
        ExecutorKind::RegistrySubkeys => "Registry subkeys",
        ExecutorKind::FileMetadata => "File metadata",
    };
    let p = string_from_chars(&crate::numfmt::u128_to_decimal(passing as u128));
    let t = string_from_chars(&crate::numfmt::u128_to_decimal(total as u128));
    let mut v: Vec<char> = Vec::new();
    if passed {
        push_str(&mut v, title);
        push_str(&mut v, " validation passed: ");
        push_str(&mut v, p.as_str());
        push_str(&mut v, " of ");
        push_str(&mut v, t.as_str());
        if kind == ExecutorKind::Service {
            push_str(&mut v, " services compliant");
        } else {
            push_str(&mut v, " objects compliant");
        }
        assert(Seq::<char>::empty() + title@ =~= title@);
    } else if kind == ExecutorKind::FileMetadata && failures.len() == 0 {
        push_str(&mut v, "File metadata validation failed: ");
        push_str(&mut v, p.as_str());
        push_str(&mut v, " of ");
        push_str(&mut v, t.as_str());
        push_str(&mut v, " objects compliant (item check failed)");
        assert(Seq::<char>::empty() + "File metadata validation failed: "@
            =~= "File metadata validation failed: "@);
    } else {
        push_str(&mut v, title);
        push_str(&mut v, " validation failed:\n  - ");
        let joined = join_lines(failures);
        append_chars(&mut v, &joined);
        assert(Seq::<char>::empty() + title@ =~= title@);
    }
    string_from_chars(&v)
}

// ---------------------------------------------------------------------------
// Completeness of collected data
// ---------------------------------------------------------------------------

/// Why a criterion could not be run.
#[derive(Debug)]
pub enum CtnExecutionError {
    /// A data field the executor needs was not collected
    MissingDataField { field: String },
    /// Collected data has the wrong shape
    DataValidationFailed { reason: String },
    /// Execution failed
    ExecutionFailed { reason: String },
}

/// The field an object's data lacks, if any, as the executor of `kind`
/// names it; `required` lists the data fields the contract requires.
pub open spec fn object_missing(
    kind: ExecutorKind,
    id: Seq<char>,
    d: Seq<(Seq<char>, ValueView)>,
    required: Seq<Seq<char>>,
) -> Option<Seq<char>> {
    match kind {
        ExecutorKind::Service => if lookup(d, "exists"@) is None {
            Some("exists (object: "@ + id + ")"@)
        } else if actual_exists(d) && lookup(d, "state"@) is None {
            Some("state (object: "@ + id + ")"@)
        } else if actual_exists(d) && lookup(d, "start_type"@) is None {
            Some("start_type (object: "@ + id + ")"@)
        } else {
            None
        },
        ExecutorKind::Registry => if lookup(d, "exists"@) is None {
            Some("exists"@)
        } else if lookup(d, "value"@) is None {
            Some("value"@)
        } else {
            None
        },
        ExecutorKind::RegistrySubkeys => if lookup(d, "exists"@) is None {
            Some("exists"@)
        } else if lookup(d, "subkey_count"@) is None {
            Some("subkey_count"@)
        } else {
            None
        },
        ExecutorKind::FileMetadata => first_absent(d, required),
    }
}

/// The first of `required` that `d` does not hold.
pub open spec fn first_absent(d: Seq<(Seq<char>, ValueView)>, required: Seq<Seq<char>>) -> Option<
    Seq<char>,
>
    decreases required.len(),
{
    if required.len() == 0 {
        None
    } else if lookup(d, required[0]) is None {
        Some(required[0])
    } else {
        first_absent(d, required.drop_first())
    }
}

/// The missing field of the first object whose data is incomplete.
pub open spec fn first_missing(
    kind: ExecutorKind,
    objs: Seq<(Seq<char>, Seq<(Seq<char>, ValueView)>)>,
    required: Seq<Seq<char>>,
) -> Option<Seq<char>>
    decreases objs.len(),
{
    if objs.len() == 0 {
        None
    } else {
        match object_missing(kind, objs[0].0, objs[0].1, required) {
            Some(f) => Some(f),
            None => first_missing(kind, objs.drop_first(), required),
        }
    }
}

/// The first of `required` that `data` does not hold.
fn first_absent_exec(data: &CollectedData, required: &Vec<String>) -> (res: Option<String>)
    ensures
        match first_absent(data_fields(*data), crate::contract::names_view(required@)) {
            Some(f) => res matches Some(r) && r@ == f,
            None => res is None,
        },
{
    let ghost all = crate::contract::names_view(required@);
    let mut i: usize = 0;
    assert(all.skip(0) =~= all);
    while i < required.len()
        invariant
            i <= required@.len(),
            all == crate::contract::names_view(required@),
            first_absent(data_fields(*data), all) == first_absent(
                data_fields(*data),
                all.skip(i as int),
            ),
        decreases required.len() - i,
    {
        assert(all.skip(i as int)[0] == required@[i as int]@);
        assert(all.skip(i as int).drop_first() =~= all.skip(i + 1));
        if !data.has_field(required[i].as_str()) {
            return Some(required[i].clone());
        }
        i = i + 1;
    }
    None
}

/// The field an object's data lacks, if any.
fn object_missing_exec(
    kind: ExecutorKind,
    id: &String,
    data: &CollectedData,
    required: &Vec<String>,
) -> (res: Option<String>)
    ensures
        match object_missing(
            kind,
            id@,
            data_fields(*data),
            crate::contract::names_view(required@),
        ) {
            Some(f) => res matches Some(r) && r@ == f,
            None => res is None,
        },
{
    match kind {
        ExecutorKind::Service => {
            if !data.has_field("exists") {
                return Some(concat3("exists (object: ", id.as_str(), ")"));
            }
            let ex = actual_exists_exec(data);
            if ex && !data.has_field("state") {
                return Some(concat3("state (object: ", id.as_str(), ")"));
            }
            if ex && !data.has_field("start_type") {
                return Some(concat3("start_type (object: ", id.as_str(), ")"));
            }
            None
        },
        ExecutorKind::Registry => {
            if !data.has_field("exists") {
                return Some("exists".to_string());
            }
            if !data.has_field("value") {
                return Some("value".to_string());
            }
            None
        },
        ExecutorKind::RegistrySubkeys => {
            if !data.has_field("exists") {
                return Some("exists".to_string());
            }
            if !data.has_field("subkey_count") {
                return Some("subkey_count".to_string());
            }
            None
        },
        ExecutorKind::FileMetadata => first_absent_exec(data, required),
    }
}

/// The outcome of checking collected data: the missing field of the first
/// incomplete object, or success when every object is complete.
pub open spec fn reports_missing(
    kind: ExecutorKind,
    contract: CtnContract,
    collected: Vec<(String, CollectedData)>,
    res: Result<(), CtnExecutionError>,
) -> bool {
    match first_missing(
        kind,
        objects_view(collected@),
        crate::contract::names_view(contract.field_mappings.collection_mappings.required_data_fields@),
    ) {
        Some(f) => res matches Err(CtnExecutionError::MissingDataField { field }) && field@ == f,
        None => res is Ok,
    }
}

/// Checks that the data of every object holds the fields the executor
/// needs; the error names the missing field of the first incomplete object.
pub fn check_collected_data(
    kind: ExecutorKind,
    contract: &CtnContract,
    collected: &Vec<(String, CollectedData)>,
) -> (res: Result<(), CtnExecutionError>)
    ensures
        reports_missing(kind, *contract, *collected, res),
{
    let required = &contract.field_mappings.collection_mappings.required_data_fields;
    let ghost objs = objects_view(collected@);
    let ghost req = crate::contract::names_view(required@);
    let mut i: usize = 0;
    assert(objs.skip(0) =~= objs);
    while i < collected.len()
        invariant
            i <= collected@.len(),
            objs == objects_view(collected@),
            req == crate::contract::names_view(required@),
            required == &contract.field_mappings.collection_mappings.required_data_fields,
            first_missing(kind, objs, req) == first_missing(kind, objs.skip(i as int), req),
        decreases collected.len() - i,
    {
        assert(objs.skip(i as int)[0] == objs[i as int]);
        assert(objs.skip(i as int).drop_first() =~= objs.skip(i + 1));
        match object_missing_exec(kind, &collected[i].0, &collected[i].1, required) {
            Some(f) => {
                return Err(CtnExecutionError::MissingDataField { field: f });
            },
            None => {},
        }
        i = i + 1;
    }
    Ok(())
}

// ---------------------------------------------------------------------------
// Laws
// ---------------------------------------------------------------------------

/// The registry executor compares a `value_version` field as a dotted
/// version, a `value_int` field as the integer the collected text reads as,
/// and other string fields as strings; for versions, `<=` and `>=` hold of
/// equal versions and `<=` is the negation of `>`.  Booleans compare as
/// booleans for every executor.
pub proof fn law_registry_comparisons(a: Seq<char>, e: Seq<char>, op: Operation, i: int, b: bool, c: bool)
    ensures
        values_match(ExecutorKind::Registry, ValueView::Str(e), ValueView::Str(a), op, "value_version"@)
            == version_test(a, e, op),
        values_match(ExecutorKind::Registry, ValueView::Ver(e), ValueView::Str(a), op, "value"@)
            == version_test(a, e, op),
        values_match(ExecutorKind::Registry, ValueView::Str(a), ValueView::Str(a), Operation::LessThanOrEqual, "value_version"@),
        values_match(ExecutorKind::Registry, ValueView::Str(a), ValueView::Str(a), Operation::GreaterThanOrEqual, "value_version"@),
        values_match(ExecutorKind::Registry, ValueView::Str(e), ValueView::Str(a), Operation::LessThanOrEqual, "value_version"@)
            == !values_match(ExecutorKind::Registry, ValueView::Str(e), ValueView::Str(a), Operation::GreaterThan, "value_version"@),
        values_match(ExecutorKind::Registry, ValueView::Int(i), ValueView::Str(a), op, "value_int"@)
            == match parse_signed(a) {
                Some(x) => int_test(x, i, op),
                None => false,
            },
        values_match(ExecutorKind::Registry, ValueView::Str(e), ValueView::Str(a), op, "value"@)
            == string_test(a, e, op),
        values_match(ExecutorKind::Service, ValueView::Bool(c), ValueView::Bool(b), op, "value"@) == bool_test(b, c, op),
        values_match(ExecutorKind::Registry, ValueView::Bool(c), ValueView::Bool(b), op, "exists"@) == bool_test(b, c, op),
{
    reveal_strlit("value_version");
    reveal_strlit("value_int");
    reveal_strlit("value");
    assert("value_version"@.len() == 13 && "value"@.len() == 5 && "value_int"@.len() == 9);
    crate::criteria::law_version_order(a, e);
    crate::criteria::law_version_order(a, a);
}

/// When the STATE requires existence (`exists = true`) and the item does not
/// exist, the object fails at once: its only record is the failed existence
/// check, and no other field is examined.
pub proof fn law_required_but_missing(
    kind: ExecutorKind,
    op: Option<StateOperator>,
    flat: Seq<FieldSpec>,
    d: Seq<(Seq<char>, ValueView)>,
    m: Seq<(Seq<char>, Seq<char>)>,
)
    requires
        kind != ExecutorKind::FileMetadata,
        exists_requirement(flat) == Some((true, Operation::Equals)),
        !actual_exists(d),
    ensures
        object_evaluation(kind, op, flat, d, m) == (
            seq![exists_check(kind, true, false, Operation::Equals, false)],
            false,
        ),
{
}

/// When the STATE forbids existence (`exists = false`) and the item exists,
/// the object fails at once with the failed existence check as its only
/// record.
pub proof fn law_forbidden_but_present(
    kind: ExecutorKind,
    op: Option<StateOperator>,
    flat: Seq<FieldSpec>,
    d: Seq<(Seq<char>, ValueView)>,
    m: Seq<(Seq<char>, Seq<char>)>,
)
    requires
        kind != ExecutorKind::FileMetadata,
        exists_requirement(flat) == Some((false, Operation::Equals)),
        actual_exists(d),
    ensures
        object_evaluation(kind, op, flat, d, m) == (
            seq![exists_check(kind, false, true, Operation::Equals, false)],
            false,
        ),
{
}

/// A service, registry value or registry key that must not exist and does
/// not passes at once: the passed existence check is its only record,
/// whatever else the STATE asks.
pub proof fn law_absent_as_required(
    kind: ExecutorKind,
    op: Option<StateOperator>,
    flat: Seq<FieldSpec>,
    d: Seq<(Seq<char>, ValueView)>,
    m: Seq<(Seq<char>, Seq<char>)>,
)
    requires
        kind != ExecutorKind::FileMetadata,
        exists_requirement(flat) == Some((false, Operation::Equals)),
        !actual_exists(d),
    ensures
        object_evaluation(kind, op, flat, d, m) == (
            seq![exists_check(kind, false, false, Operation::Equals, true)],
            true,
        ),
{
}

proof fn lemma_count_true_all(bs: Seq<bool>)
    requires
        count_true(bs) == bs.len(),
    ensures
        forall|i: int| 0 <= i < bs.len() ==> #[trigger] bs[i],
    decreases bs.len(),
{
    if bs.len() > 0 {
        lemma_count_true_le(bs.drop_last());
        lemma_count_true_all(bs.drop_last());
        assert forall|i: int| 0 <= i < bs.len() implies #[trigger] bs[i] by {
            if i < bs.len() - 1 {
                assert(bs.drop_last()[i] == bs[i]);
            }
        }
    }
}

proof fn lemma_count_true_le(bs: Seq<bool>)
    ensures
        count_true(bs) <= bs.len(),
    decreases bs.len(),
{
    if bs.len() > 0 {
        lemma_count_true_le(bs.drop_last());
    }
}

proof fn lemma_count_true_zero(bs: Seq<bool>)
    requires
        count_true(bs) == 0,
    ensures
        forall|i: int| 0 <= i < bs.len() ==> !#[trigger] bs[i],
    decreases bs.len(),
{
    if bs.len() > 0 {
        lemma_count_true_zero(bs.drop_last());
        assert forall|i: int| 0 <= i < bs.len() implies !#[trigger] bs[i] by {
            if i < bs.len() - 1 {
                assert(bs.drop_last()[i] == bs[i]);
            }
        }
    }
}

/// A criterion whose item check is `all` passes only when its existence
/// check held and every object passed; with `none_satisfy`, only when no
/// object passed.
pub proof fn law_item_check_meaning(
    kind: ExecutorKind,
    contract: CtnContract,
    criterion: ExecutableCriterion,
    collected: Vec<(String, CollectedData)>,
    res: CtnExecutionResult,
)
    requires
        runs_criterion(kind, contract, criterion, collected, res),
        res.status == Outcome::Pass,
    ensures
        existence_holds(
            criterion.test.existence_check,
            collected@.len() as nat,
            criterion.objects@.len() as nat,
        ),
        criterion.test.item_check == crate::criteria::ItemCheck::All ==> forall|i: int|
            0 <= i < res.state_results@.len() ==> (#[trigger] res.state_results@[i]).combined_result,
        criterion.test.item_check == crate::criteria::ItemCheck::NoneSatisfy ==> forall|i: int|
            0 <= i < res.state_results@.len() ==> !(#[trigger] res.state_results@[i]).combined_result,
{
    let rs = expected_object_results(
        kind,
        criterion.test.state_operator,
        flat_fields(criterion.states@),
        objects_view(collected@),
        state_to_data(contract),
    );
    let bs = object_passes(rs);
    assert(object_results_view(res.state_results@) == rs);
    if criterion.test.item_check == crate::criteria::ItemCheck::All {
        lemma_count_true_all(bs);
        assert forall|i: int| 0 <= i < res.state_results@.len() implies (#[trigger] res.state_results@[i]).combined_result by {
            assert(object_results_view(res.state_results@)[i] == rs[i]);
            assert(bs[i] == rs[i].2);
        }
    }
    if criterion.test.item_check == crate::criteria::ItemCheck::NoneSatisfy {
        lemma_count_true_zero(bs);
        assert forall|i: int| 0 <= i < res.state_results@.len() implies !(#[trigger] res.state_results@[i]).combined_result by {
            assert(object_results_view(res.state_results@)[i] == rs[i]);
            assert(bs[i] == rs[i].2);
        }
    }
}

} // verus!
