use esp_agent::contracts::create_json_record_contract;
use esp_agent::criteria::{ExistenceCheck, ItemCheck, Operation, Outcome, TestSpecification};
use esp_agent::json_record::{JsonRecordExecutor, JsonRecordInput, RecordCheckResult};
use esp_agent::model::{ExecutableObject, ResolvedValue};
use esp_agent::validation::{CtnExecutionError, ExecutableCriterion};

fn criterion(existence: ExistenceCheck, item: ItemCheck, objects: &[&str]) -> ExecutableCriterion {
    ExecutableCriterion {
        criterion_type: "json_record".to_string(),
        test: TestSpecification { existence_check: existence, item_check: item, state_operator: None },
        states: vec![],
        objects: objects
            .iter()
            .map(|o| ExecutableObject { identifier: o.to_string(), fields: vec![] })
            .collect(),
    }
}

fn check(path: &str, expected: Option<&str>, actual: Option<&str>, passed: bool, message: &str) -> RecordCheckResult {
    RecordCheckResult {
        field_path: path.to_string(),
        expected: expected.map(|s| s.to_string()),
        actual: actual.map(|s| s.to_string()),
        passed,
        message: message.to_string(),
    }
}

fn executor() -> JsonRecordExecutor {
    JsonRecordExecutor::new(create_json_record_contract())
}

#[test]
fn json_records_all_pass() {
    let e = executor();
    let records = vec![(
        "cfg".to_string(),
        JsonRecordInput::Checked(vec![Ok(vec![
            check("a.b", Some("1"), Some("1"), true, "a.b ok"),
            check("c", Some("x"), Some("x"), true, "c ok"),
        ])]),
    )];
    let r = e
        .execute_with_contract(&criterion(ExistenceCheck::All, ItemCheck::All, &["cfg"]), &records, vec![], &create_json_record_contract())
        .unwrap();
    assert_eq!(r.status, Outcome::Pass);
    assert_eq!(r.message, "JSON record validation passed: 1 of 1 objects compliant");
    assert_eq!(r.state_results.len(), 1);
    assert_eq!(r.state_results[0].message, "Object 'cfg': passed (2 of 2 checks passed)");
    assert!(r.state_results[0].combined_result);
    let f = &r.state_results[0].state_results[0];
    assert_eq!(f.field_name, "a.b");
    assert_eq!(f.operation, Operation::Equals);
    assert!(matches!(&f.expected_value, ResolvedValue::String(v) if v == "1"));
    assert!(r.failures.is_empty());
}

#[test]
fn json_records_failures_are_listed() {
    let e = executor();
    let records = vec![
        (
            "one".to_string(),
            JsonRecordInput::Checked(vec![Ok(vec![
                check("a", Some("1"), Some("2"), false, "a differs"),
                check("b", None, None, true, "b ok"),
            ])]),
        ),
        (
            "two".to_string(),
            JsonRecordInput::Checked(vec![
                Ok(vec![check("c", Some("y"), None, false, "c missing")]),
                Ok(vec![]),
            ]),
        ),
    ];
    let r = e
        .execute_with_contract(&criterion(ExistenceCheck::All, ItemCheck::All, &["one", "two"]), &records, vec![], &create_json_record_contract())
        .unwrap();
    assert_eq!(r.status, Outcome::Fail);
    assert_eq!(r.state_results.len(), 3);
    assert_eq!(r.objects_passing, 1);
    assert_eq!(r.objects_total, 3);
    assert_eq!(r.state_results[0].message, "Object 'one': failed (1 of 2 checks passed)");
    assert_eq!(r.state_results[2].message, "Object 'two': passed (0 of 0 checks passed)");
    assert_eq!(r.failures, vec!["Object 'one': a differs".to_string(), "Object 'two': c missing".to_string()]);
    assert_eq!(
        r.message,
        "JSON record validation failed:\n  - Object 'one': a differs\n  - Object 'two': c missing"
    );
    assert!(matches!(&r.state_results[0].state_results[1].actual_value, ResolvedValue::String(v) if v.is_empty()));
}

#[test]
fn json_records_existence_and_item_checks() {
    let e = executor();
    let records = vec![("only".to_string(), JsonRecordInput::Checked(vec![]))];
    let r = e
        .execute_with_contract(&criterion(ExistenceCheck::All, ItemCheck::All, &["a", "b"]), &records, vec![], &create_json_record_contract())
        .unwrap();
    assert_eq!(r.status, Outcome::Fail);
    assert_eq!(r.message, "Existence check failed: expected 2 objects, found 1");
    let r = e
        .execute_with_contract(&criterion(ExistenceCheck::Any, ItemCheck::AtLeastOne, &["only"]), &records, vec![], &create_json_record_contract())
        .unwrap();
    assert_eq!(r.status, Outcome::Fail);
    assert_eq!(r.message, "JSON record validation failed:\n  - ");
}

#[test]
fn json_records_errors() {
    let e = executor();
    let c = criterion(ExistenceCheck::Any, ItemCheck::All, &[]);
    let contract = create_json_record_contract();
    let missing = vec![("m".to_string(), JsonRecordInput::Missing)];
    assert!(matches!(
        e.execute_with_contract(&c, &missing, vec![], &contract),
        Err(CtnExecutionError::MissingDataField { ref field }) if field == "json_data"
    ));
    let wrong = vec![("w".to_string(), JsonRecordInput::NotRecord)];
    assert!(matches!(
        e.execute_with_contract(&c, &wrong, vec![], &contract),
        Err(CtnExecutionError::DataValidationFailed { ref reason }) if reason == "json_data field is not RecordData"
    ));
    let failed = vec![
        ("ok".to_string(), JsonRecordInput::Checked(vec![Ok(vec![])])),
        ("bad".to_string(), JsonRecordInput::Checked(vec![Err("bad path".to_string())])),
        ("later".to_string(), JsonRecordInput::Missing),
    ];
    assert!(matches!(
        e.execute_with_contract(&c, &failed, vec![], &contract),
        Err(CtnExecutionError::ExecutionFailed { ref reason }) if reason == "Record validation failed: bad path"
    ));
    assert!(matches!(
        e.validate_collected_data(&failed, &contract),
        Err(CtnExecutionError::MissingDataField { .. })
    ));
    assert!(e.validate_collected_data(&Vec::new(), &contract).is_ok());
    assert_eq!(e.ctn_type(), "json_record");
}
