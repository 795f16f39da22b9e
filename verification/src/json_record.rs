//! JSON records: the executor that turns the outcomes of the record checks
//! of each object into a criterion result.
//!
//! The record checks themselves read the record held in an object's
//! `json_data` field; the caller runs them, state by state, and hands their
//! outcomes over.

use vstd::prelude::*;
use crate::contract::CtnContract;
use crate::criteria::{evaluate_existence_check, evaluate_item_check, existence_holds, item_holds, Operation, Outcome};
use crate::executors::existence_message;
use crate::model::{concat2, CollectedData, ResolvedValue, ValueView};
use crate::numfmt::{decimal, u128_to_decimal};
use crate::text::{join, string_from_chars};
use crate::validation::{
    existence_failure_text, join_lines, object_messages, object_result_view, object_results_view,
    push_str, string_views, CtnExecutionError, CtnExecutionResult, ExecutableCriterion,
    ExecutorKind, FieldCheck, FieldValidationResult, StateValidationResult,
};

verus! {

/// The outcome of one record check: the path it read, the expected and
/// actual texts it reports, whether it passed, and its message.
#[derive(Debug)]
pub struct RecordCheckResult {
    pub field_path: String,
    pub expected: Option<String>,
    pub actual: Option<String>,
    pub passed: bool,
    pub message: String,
}

/// An object's JSON data as the executor finds it.
#[derive(Debug)]
pub enum JsonRecordInput {
    /// The object's data has no `json_data` field
    Missing,
    /// `json_data` holds something other than a record
    NotRecord,
    /// The outcome of the record checks of each STATE that has some, in
    /// STATE order: the check results, or why they could not be run
    Checked(Vec<Result<Vec<RecordCheckResult>, String>>),
}

/// What stops the executor at an object.
pub enum RecordProblem {
    Missing,
    NotRecord,
    Failed(Seq<char>),
}

/// A text, or the empty text for none.
pub open spec fn text_or_empty(o: Option<String>) -> Seq<char> {
    match o {
        Some(s) => s@,
        None => Seq::empty(),
    }
}

/// A record check as a field check: an `Equals` comparison of texts.
pub open spec fn record_check_of(r: RecordCheckResult) -> FieldCheck {
    FieldCheck {
        name: r.field_path@,
        expected: ValueView::Str(text_or_empty(r.expected)),
        actual: ValueView::Str(text_or_empty(r.actual)),
        op: Operation::Equals,
        passed: r.passed,
        message: r.message@,
    }
}

/// The field checks of a STATE's record checks.
pub open spec fn record_checks(rs: Seq<RecordCheckResult>) -> Seq<FieldCheck> {
    rs.map_values(|r: RecordCheckResult| record_check_of(r))
}

/// How many checks passed.
pub open spec fn passed_count(cs: Seq<FieldCheck>) -> nat
    decreases cs.len(),
{
    if cs.len() == 0 {
        0
    } else {
        passed_count(cs.drop_last()) + if cs.last().passed {
            1nat
        } else {
            0nat
        }
    }
}

/// Whether every check passed.
pub open spec fn all_passed(cs: Seq<FieldCheck>) -> bool {
    passed_count(cs) == cs.len()
}

/// The message of an object's result for one STATE.
pub open spec fn run_message(id: Seq<char>, cs: Seq<FieldCheck>) -> Seq<char> {
    "Object '"@ + id + "': "@ + (if all_passed(cs) {
        "passed"@
    } else {
        "failed"@
    }) + " ("@ + decimal(passed_count(cs)) + " of "@ + decimal(cs.len()) + " checks passed)"@
}

/// One line per failed check, in order.
pub open spec fn record_failures(id: Seq<char>, cs: Seq<FieldCheck>) -> Seq<Seq<char>>
    decreases cs.len(),
{
    if cs.len() == 0 {
        Seq::empty()
    } else {
        record_failures(id, cs.drop_last()) + if cs.last().passed {
            Seq::empty()
        } else {
            seq!["Object '"@ + id + "': "@ + cs.last().message]
        }
    }
}

/// The first STATE whose checks could not be run, by its reason.
pub open spec fn first_failed(outs: Seq<Result<Vec<RecordCheckResult>, String>>) -> Option<
    Seq<char>,
>
    decreases outs.len(),
{
    if outs.len() == 0 {
        None
    } else {
        match first_failed(outs.drop_last()) {
            Some(e) => Some(e),
            None => match outs.last() {
                Err(e) => Some(e@),
                Ok(_) => None,
            },
        }
    }
}

/// What stops the executor at an object, if anything.
pub open spec fn input_problem(inp: JsonRecordInput) -> Option<RecordProblem> {
    match inp {
        JsonRecordInput::Missing => Some(RecordProblem::Missing),
        JsonRecordInput::NotRecord => Some(RecordProblem::NotRecord),
        JsonRecordInput::Checked(outs) => match first_failed(outs@) {
            Some(e) => Some(RecordProblem::Failed(e)),
            None => None,
        },
    }
}

/// The first problem among the objects, in order.
pub open spec fn first_problem(ins: Seq<(String, JsonRecordInput)>) -> Option<RecordProblem>
    decreases ins.len(),
{
    if ins.len() == 0 {
        None
    } else {
        match first_problem(ins.drop_last()) {
            Some(p) => Some(p),
            None => input_problem(ins.last().1),
        }
    }
}

/// The checks of each STATE run on object `id`.
pub open spec fn state_runs(id: Seq<char>, outs: Seq<Result<Vec<RecordCheckResult>, String>>) -> Seq<
    (Seq<char>, Seq<FieldCheck>),
> {
    outs.map_values(
        |o: Result<Vec<RecordCheckResult>, String>|
            (
                id,
                match o {
                    Ok(v) => record_checks(v@),
                    Err(_) => Seq::empty(),
                },
            ),
    )
}

/// The checks of every STATE run on every object, in order.
pub open spec fn record_runs(ins: Seq<(String, JsonRecordInput)>) -> Seq<(Seq<char>, Seq<FieldCheck>)>
    decreases ins.len(),
{
    if ins.len() == 0 {
        Seq::empty()
    } else {
        record_runs(ins.drop_last()) + match ins.last().1 {
            JsonRecordInput::Checked(outs) => state_runs(ins.last().0@, outs@),
            _ => Seq::empty(),
        }
    }
}

/// The result of each run: its object, its checks, whether all passed.
pub open spec fn run_views(runs: Seq<(Seq<char>, Seq<FieldCheck>)>) -> Seq<
    (Seq<char>, Seq<FieldCheck>, bool),
> {
    runs.map_values(|p: (Seq<char>, Seq<FieldCheck>)| (p.0, p.1, all_passed(p.1)))
}

/// The message of each run.
pub open spec fn run_messages(runs: Seq<(Seq<char>, Seq<FieldCheck>)>) -> Seq<Seq<char>> {
    runs.map_values(|p: (Seq<char>, Seq<FieldCheck>)| run_message(p.0, p.1))
}

/// The failure lines of all runs, in order.
pub open spec fn runs_failures(runs: Seq<(Seq<char>, Seq<FieldCheck>)>) -> Seq<Seq<char>>
    decreases runs.len(),
{
    if runs.len() == 0 {
        Seq::empty()
    } else {
        runs_failures(runs.drop_last()) + record_failures(runs.last().0, runs.last().1)
    }
}

/// How many runs passed.
pub open spec fn runs_passing(runs: Seq<(Seq<char>, Seq<FieldCheck>)>) -> nat
    decreases runs.len(),
{
    if runs.len() == 0 {
        0
    } else {
        runs_passing(runs.drop_last()) + if all_passed(runs.last().1) {
            1nat
        } else {
            0nat
        }
    }
}

/// The final message: how many runs passed, or every failure line.
pub open spec fn record_final_message(passed: bool, passing: nat, total: nat, failures: Seq<Seq<char>>) -> Seq<
    char,
> {
    if passed {
        "JSON record validation passed: "@ + decimal(passing) + " of "@ + decimal(total)
            + " objects compliant"@
    } else {
        "JSON record validation failed:\n  - "@ + join(failures, "\n  - "@)
    }
}

/// What running a JSON record criterion over the objects' inputs yields:
/// the existence check on the number of objects found; then the first
/// problem, in object order, is an error; otherwise every STATE run of
/// every object is a result, and the item check counts the runs that
/// passed.
pub open spec fn runs_record_criterion(
    criterion: ExecutableCriterion,
    ins: Seq<(String, JsonRecordInput)>,
    collected: Vec<(String, CollectedData)>,
    res: Result<CtnExecutionResult, CtnExecutionError>,
) -> bool {
    let found = ins.len();
    let expected = criterion.objects@.len() as nat;
    if !existence_holds(criterion.test.existence_check, found, expected) {
        res matches Ok(r) && r.ctn_type@ == criterion.criterion_type@ && r.status == Outcome::Fail
            && r.state_results@.len() == 0 && r.failures@.len() == 0 && r.collected_data
            == collected && r.message@ == existence_failure_text(
            ExecutorKind::FileMetadata,
            expected,
            found,
        )
    } else {
        match first_problem(ins) {
            Some(RecordProblem::Missing) => res matches Err(e) && e matches CtnExecutionError::MissingDataField {
                field,
            } && field@ == "json_data"@,
            Some(RecordProblem::NotRecord) => res matches Err(e) && e matches CtnExecutionError::DataValidationFailed {
                reason,
            } && reason@ == "json_data field is not RecordData"@,
            Some(RecordProblem::Failed(why)) => res matches Err(e) && e matches CtnExecutionError::ExecutionFailed {
                reason,
            } && reason@ == "Record validation failed: "@ + why,
            None => {
                let runs = record_runs(ins);
                let passing = runs_passing(runs);
                let passed = item_holds(criterion.test.item_check, passing, runs.len());
                res matches Ok(r) && {
                    &&& r.ctn_type@ == criterion.criterion_type@
                    &&& r.collected_data == collected
                    &&& object_results_view(r.state_results@) == run_views(runs)
                    &&& object_messages(r.state_results@) == run_messages(runs)
                    &&& forall|k: int|
                        0 <= k < r.state_results@.len() ==> (#[trigger] r.state_results@[k]).state_operator
                            == criterion.test.state_operator
                    &&& string_views(r.failures@) == runs_failures(runs)
                    &&& r.objects_passing == passing
                    &&& r.objects_total == runs.len()
                    &&& (r.status == Outcome::Pass <==> passed)
                    &&& r.message@ == record_final_message(
                        passed,
                        passing,
                        runs.len(),
                        runs_failures(runs),
                    )
                }
            },
        }
    }
}

/// A problem found among the first `k` objects is the first problem of
/// them all.
proof fn lemma_first_problem_prefix(ins: Seq<(String, JsonRecordInput)>, k: int)
    requires
        0 <= k <= ins.len(),
        first_problem(ins.take(k)) is Some,
    ensures
        first_problem(ins) == first_problem(ins.take(k)),
    decreases ins.len(),
{
    if k == ins.len() {
        assert(ins.take(k) =~= ins);
    } else {
        assert(ins.drop_last().take(k) =~= ins.take(k));
        lemma_first_problem_prefix(ins.drop_last(), k);
    }
}

/// Likewise for the STATEs whose checks could not be run.
proof fn lemma_first_failed_prefix(outs: Seq<Result<Vec<RecordCheckResult>, String>>, k: int)
    requires
        0 <= k <= outs.len(),
        first_failed(outs.take(k)) is Some,
    ensures
        first_failed(outs) == first_failed(outs.take(k)),
    decreases outs.len(),
{
    if k == outs.len() {
        assert(outs.take(k) =~= outs);
    } else {
        assert(outs.drop_last().take(k) =~= outs.take(k));
        lemma_first_failed_prefix(outs.drop_last(), k);
    }
}

/// The results of one STATE's record checks on object `id`, its failure
/// lines added to `failures`.
fn record_state(
    id: &String,
    rs: &Vec<RecordCheckResult>,
    op: Option<crate::criteria::StateOperator>,
    failures: &mut Vec<String>,
) -> (res: StateValidationResult)
    ensures
        object_result_view(res) == (id@, record_checks(rs@), all_passed(record_checks(rs@))),
        res.message@ == run_message(id@, record_checks(rs@)),
        res.state_operator == op,
        string_views(final(failures)@) == string_views(old(failures)@) + record_failures(
            id@,
            record_checks(rs@),
        ),
{
    let ghost cs = record_checks(rs@);
    let ghost start = string_views(failures@);
    let mut field_results: Vec<FieldValidationResult> = Vec::new();
    let mut count: usize = 0;
    let mut i: usize = 0;
    while i < rs.len()
        invariant
            i <= rs@.len(),
            cs == record_checks(rs@),
            crate::validation::checks_of(field_results@) == cs.take(i as int),
            count == passed_count(cs.take(i as int)),
            count <= i,
            string_views(failures@) == start + record_failures(id@, cs.take(i as int)),
        decreases rs.len() - i,
    {
        let r = &rs[i];
        let expected = match &r.expected {
            Some(e) => e.clone(),
            None => String::new(),
        };
        let actual = match &r.actual {
            Some(a) => a.clone(),
            None => String::new(),
        };
        let f = FieldValidationResult {
            field_name: r.field_path.clone(),
            expected_value: ResolvedValue::String(expected),
            actual_value: ResolvedValue::String(actual),
            operation: Operation::Equals,
            passed: r.passed,
            message: r.message.clone(),
        };
        let ghost before = crate::validation::checks_of(field_results@);
        let ghost fbefore = string_views(failures@);
        assert(crate::validation::field_check_of(f) == cs[i as int]);
        field_results.push(f);
        assert(crate::validation::checks_of(field_results@) =~= before.push(cs[i as int]));
        assert(cs.take(i + 1).drop_last() =~= cs.take(i as int));
        assert(cs.take(i + 1).last() == cs[i as int]);
        assert(cs.take(i + 1) =~= cs.take(i as int).push(cs[i as int]));
        if r.passed {
            count = count + 1;
        } else {
            let mut v: Vec<char> = Vec::new();
            push_str(&mut v, "Object '");
            push_str(&mut v, id.as_str());
            push_str(&mut v, "': ");
            push_str(&mut v, r.message.as_str());
            assert(Seq::<char>::empty() + "Object '"@ =~= "Object '"@);
            let line = string_from_chars(&v);
            let ghost lv = line@;
            failures.push(line);
            assert(string_views(failures@) =~= fbefore.push(lv));
        }
        assert(string_views(failures@) =~= start + record_failures(id@, cs.take(i + 1)));
        i = i + 1;
    }
    assert(cs.take(rs@.len() as int) =~= cs);
    let all = count == rs.len();
    let c = string_from_chars(&u128_to_decimal(count as u128));
    let n = string_from_chars(&u128_to_decimal(rs.len() as u128));
    let mut m: Vec<char> = Vec::new();
    push_str(&mut m, "Object '");
    push_str(&mut m, id.as_str());
    push_str(&mut m, "': ");
    let verdict = if all {
        "passed"
    } else {
        "failed"
    };
    push_str(&mut m, verdict);
    push_str(&mut m, " (");
    push_str(&mut m, c.as_str());
    push_str(&mut m, " of ");
    push_str(&mut m, n.as_str());
    push_str(&mut m, " checks passed)");
    assert(Seq::<char>::empty() + "Object '"@ =~= "Object '"@);
    StateValidationResult {
        object_id: id.clone(),
        state_results: field_results,
        combined_result: all,
        state_operator: op,
        message: string_from_chars(&m),
    }
}

/// Validates JSON records through the outcomes of their record checks.
#[derive(Debug)]
pub struct JsonRecordExecutor {
    contract: CtnContract,
}

impl JsonRecordExecutor {
    /// The contract the executor checks against.
    pub closed spec fn contract_view(&self) -> CtnContract {
        self.contract
    }

    /// An executor for `contract`.
    pub fn new(contract: CtnContract) -> (res: Self)
        ensures
            res.contract_view() == contract,
    {
        JsonRecordExecutor { contract }
    }

    /// The CTN type the executor handles.
    pub fn ctn_type(&self) -> (res: &'static str)
        ensures
            res@ == "json_record"@,
    {
        "json_record"
    }

    /// Every object's data must hold `json_data`.
    pub fn validate_collected_data(
        &self,
        records: &Vec<(String, JsonRecordInput)>,
        _contract: &CtnContract,
    ) -> (res: Result<(), CtnExecutionError>)
        ensures
            (forall|k: int| 0 <= k < records@.len() ==> !(#[trigger] records@[k].1 is Missing)) ==> res is Ok,
            (exists|k: int| 0 <= k < records@.len() && #[trigger] records@[k].1 is Missing) ==> (res matches Err(
                e,
            ) && e matches CtnExecutionError::MissingDataField { field } && field@ == "json_data"@),
    {
        let mut i: usize = 0;
        while i < records.len()
            invariant
                i <= records@.len(),
                forall|k: int| 0 <= k < i ==> !(#[trigger] records@[k].1 is Missing),
            decreases records.len() - i,
        {
            match &records[i].1 {
                JsonRecordInput::Missing => {
                    return Err(CtnExecutionError::MissingDataField { field: "json_data".to_string() });
                },
                _ => {},
            }
            i = i + 1;
        }
        Ok(())
    }

    /// Runs `criterion` over the objects' record-check outcomes, given in
    /// the order of the collected data.
    pub fn execute_with_contract(
        &self,
        criterion: &ExecutableCriterion,
        records: &Vec<(String, JsonRecordInput)>,
        collected_data: Vec<(String, CollectedData)>,
        _contract: &CtnContract,
    ) -> (res: Result<CtnExecutionResult, CtnExecutionError>)
        ensures
            runs_record_criterion(*criterion, records@, collected_data, res),
    {
        let expected = criterion.expected_object_count();
        let found = records.len();
        if !evaluate_existence_check(criterion.test.existence_check, found, expected) {
            return Ok(
                CtnExecutionResult {
                    ctn_type: criterion.criterion_type.clone(),
                    status: Outcome::Fail,
                    state_results: Vec::new(),
                    message: existence_message(expected, found),
                    failures: Vec::new(),
                    objects_passing: 0,
                    objects_total: 0,
                    collected_data,
                },
            );
        }
        let op = criterion.test.state_operator;
        let mut results: Vec<StateValidationResult> = Vec::new();
        let mut failures: Vec<String> = Vec::new();
        let mut passing: usize = 0;
        let ghost mut runs: Seq<(Seq<char>, Seq<FieldCheck>)> = Seq::empty();
        let mut i: usize = 0;
        while i < records.len()
            invariant
                i <= records@.len(),
                op == criterion.test.state_operator,
                existence_holds(criterion.test.existence_check, records@.len(), criterion.objects@.len() as nat),
                first_problem(records@.take(i as int)) is None,
                runs == record_runs(records@.take(i as int)),
                object_results_view(results@) == run_views(runs),
                object_messages(results@) == run_messages(runs),
                forall|k: int| 0 <= k < results@.len() ==> (#[trigger] results@[k]).state_operator == op,
                string_views(failures@) == runs_failures(runs),
                passing == runs_passing(runs),
                passing <= results@.len(),
            decreases records.len() - i,
        {
            let id = &records[i].0;
            assert(records@.take(i + 1).drop_last() =~= records@.take(i as int));
            assert(records@.take(i + 1).last() == records@[i as int]);
            let outs = match &records[i].1 {
                JsonRecordInput::Missing => {
                    proof {
                        lemma_first_problem_prefix(records@, i + 1);
                    }
                    return Err(CtnExecutionError::MissingDataField { field: "json_data".to_string() });
                },
                JsonRecordInput::NotRecord => {
                    proof {
                        lemma_first_problem_prefix(records@, i + 1);
                    }
                    return Err(
                        CtnExecutionError::DataValidationFailed {
                            reason: "json_data field is not RecordData".to_string(),
                        },
                    );
                },
                JsonRecordInput::Checked(outs) => outs,
            };
            let ghost base = runs;
            let mut j: usize = 0;
            while j < outs.len()
                invariant
                    j <= outs@.len(),
                    i < records@.len(),
                    records@[i as int].1 == JsonRecordInput::Checked(*outs),
                    *id == records@[i as int].0,
                    op == criterion.test.state_operator,
                    existence_holds(criterion.test.existence_check, records@.len(), criterion.objects@.len() as nat),
                    first_problem(records@.take(i as int)) is None,
                    first_failed(outs@.take(j as int)) is None,
                    runs == base + state_runs(id@, outs@.take(j as int)),
                    object_results_view(results@) == run_views(runs),
                    object_messages(results@) == run_messages(runs),
                    forall|k: int| 0 <= k < results@.len() ==> (#[trigger] results@[k]).state_operator
                        == op,
                    string_views(failures@) == runs_failures(runs),
                    passing == runs_passing(runs),
                    passing <= results@.len(),
                decreases outs.len() - j,
            {
                assert(outs@.take(j + 1).drop_last() =~= outs@.take(j as int));
                assert(outs@.take(j + 1).last() == outs@[j as int]);
                match &outs[j] {
                    Err(e) => {
                        proof {
                            assert(first_failed(outs@.take(j + 1)) == Some(e@));
                            lemma_first_failed_prefix(outs@, j + 1);
                            assert(records@.take(i + 1).drop_last() =~= records@.take(i as int));
                            assert(records@.take(i + 1).last() == records@[i as int]);
                            assert(first_problem(records@.take(i + 1)) == Some(
                                RecordProblem::Failed(e@),
                            ));
                            lemma_first_problem_prefix(records@, i + 1);
                        }
                        return Err(
                            CtnExecutionError::ExecutionFailed {
                                reason: concat2("Record validation failed: ", e.as_str()),
                            },
                        );
                    },
                    Ok(rs) => {
                        let r = record_state(id, rs, op, &mut failures);
                        let ghost item = (id@, record_checks(rs@));
                        let ghost rv = object_result_view(r);
                        let ghost mv = r.message@;
                        let ghost vbefore = object_results_view(results@);
                        let ghost mbefore = object_messages(results@);
                        let ghost old_runs = runs;
                        let passed_here = r.combined_result;
                        results.push(r);
                        proof {
                            runs = runs.push(item);
                            assert(runs.drop_last() =~= old_runs);
                            assert(run_views(runs) =~= run_views(old_runs).push(rv));
                            assert(run_messages(runs) =~= run_messages(old_runs).push(mv));
                            assert(object_results_view(results@) =~= vbefore.push(rv));
                            assert(object_messages(results@) =~= mbefore.push(mv));
                            assert(state_runs(id@, outs@.take(j + 1)) =~= state_runs(
                                id@,
                                outs@.take(j as int),
                            ).push(item));
                            assert(base + state_runs(id@, outs@.take(j + 1)) =~= (base + state_runs(
                                id@,
                                outs@.take(j as int),
                            )).push(item));
                        }
                        let len_now = results.len();
                        if passed_here {
                            passing = passing + 1;
                        }
                    },
                }
                j = j + 1;
            }
            assert(outs@.take(outs@.len() as int) =~= outs@);
            assert(runs == record_runs(records@.take(i + 1)));
            i = i + 1;
        }
        assert(records@.take(records@.len() as int) =~= records@);
        let total = results.len();
        let item_passed = evaluate_item_check(criterion.test.item_check, passing, total);
        let message = if item_passed {
            let p = string_from_chars(&u128_to_decimal(passing as u128));
            let t = string_from_chars(&u128_to_decimal(total as u128));
            let mut v: Vec<char> = Vec::new();
            push_str(&mut v, "JSON record validation passed: ");
            push_str(&mut v, p.as_str());
            push_str(&mut v, " of ");
            push_str(&mut v, t.as_str());
            push_str(&mut v, " objects compliant");
            assert(Seq::<char>::empty() + "JSON record validation passed: "@
                =~= "JSON record validation passed: "@);
            string_from_chars(&v)
        } else {
            let joined = join_lines(&failures);
            let mut v: Vec<char> = Vec::new();
            push_str(&mut v, "JSON record validation failed:\n  - ");
            push_str(&mut v, string_from_chars(&joined).as_str());
            assert(Seq::<char>::empty() + "JSON record validation failed:\n  - "@
                =~= "JSON record validation failed:\n  - "@);
            string_from_chars(&v)
        };
        Ok(
            CtnExecutionResult {
                ctn_type: criterion.criterion_type.clone(),
                status: if item_passed {
                    Outcome::Pass
                } else {
                    Outcome::Fail
                },
                state_results: results,
                message,
                failures,
                objects_passing: passing,
                objects_total: total,
                collected_data,
            },
        )
    }
}

} // verus!
