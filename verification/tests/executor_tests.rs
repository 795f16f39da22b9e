use esp_agent::contracts::{
    create_computed_values_contract, create_file_content_contract, create_file_metadata_contract,
    create_registry_contract, create_registry_subkeys_contract, create_service_contract,
};
use esp_agent::criteria::{
    evaluate_existence_check, evaluate_item_check, evaluate_state_operator, string_compare,
    version_compare, ExistenceCheck, ItemCheck, Operation, Outcome, StateOperator,
    TestSpecification,
};
use esp_agent::executors::{
    ComputedValuesExecutor, FileContentExecutor, FileMetadataExecutor, RegistryExecutor,
    RegistrySubkeysExecutor, ServiceExecutor,
};
use esp_agent::model::{CollectedData, ExecutableObject, ResolvedValue};
use esp_agent::validation::{
    CtnExecutionError, ExecutableCriterion, ExecutableState, StateField,
};

fn s(v: &str) -> ResolvedValue {
    ResolvedValue::String(v.to_string())
}

fn data(id: &str, fields: Vec<(&str, ResolvedValue)>) -> (String, CollectedData) {
    let mut d = CollectedData::new(id.to_string(), "t".to_string(), "c".to_string());
    for (n, v) in fields {
        d.add_field(n.to_string(), v);
    }
    (id.to_string(), d)
}

fn criterion(
    ctn: &str,
    existence: ExistenceCheck,
    item: ItemCheck,
    op: Option<StateOperator>,
    fields: Vec<(&str, Operation, ResolvedValue)>,
    objects: &[&str],
) -> ExecutableCriterion {
    ExecutableCriterion {
        criterion_type: ctn.to_string(),
        test: TestSpecification { existence_check: existence, item_check: item, state_operator: op },
        states: vec![ExecutableState {
            identifier: "st".to_string(),
            fields: fields
                .into_iter()
                .map(|(n, o, v)| StateField { name: n.to_string(), value: v, operation: o })
                .collect(),
        }],
        objects: objects
            .iter()
            .map(|o| ExecutableObject { identifier: o.to_string(), fields: vec![] })
            .collect(),
    }
}

// ---------------------------------------------------------------------------
// Registry executor
// ---------------------------------------------------------------------------

#[test]
fn registry_test_executor_creation() {
    let executor = RegistryExecutor::new(create_registry_contract());
    assert_eq!(executor.ctn_type(), "registry");
}

#[test]
fn registry_test_compare_booleans() {
    let executor = RegistryExecutor::new(create_registry_contract());
    assert!(executor.compare_values(
        &ResolvedValue::Boolean(true),
        &ResolvedValue::Boolean(true),
        Operation::Equals,
        "exists"
    ));
    assert!(executor.compare_values(
        &ResolvedValue::Boolean(false),
        &ResolvedValue::Boolean(true),
        Operation::NotEqual,
        "exists"
    ));
}

#[test]
fn test_compare_strings() {
    let executor = RegistryExecutor::new(create_registry_contract());
    assert!(executor.compare_values(&s("reg_sz"), &s("reg_sz"), Operation::Equals, "type"));
    assert!(executor.compare_values(&s("Enterprise"), &s("EnterpriseS"), Operation::Contains, "value"));
}

#[test]
fn test_compare_value_int() {
    let executor = RegistryExecutor::new(create_registry_contract());
    assert!(executor.compare_values(
        &ResolvedValue::Integer(1),
        &s("2"),
        Operation::GreaterThanOrEqual,
        "value_int"
    ));
    assert!(executor.compare_values(&ResolvedValue::Integer(0), &s("0"), Operation::Equals, "value_int"));
}

#[test]
fn test_compare_value_version() {
    let executor = RegistryExecutor::new(create_registry_contract());
    assert!(executor.compare_values(
        &s("19045"),
        &s("26100"),
        Operation::GreaterThanOrEqual,
        "value_version"
    ));
    assert!(executor.compare_values(&s("6.3"), &s("6.3"), Operation::GreaterThanOrEqual, "value_version"));
}

// ---------------------------------------------------------------------------
// Registry subkeys executor
// ---------------------------------------------------------------------------

#[test]
fn registry_subkeys_test_executor_creation() {
    let executor = RegistrySubkeysExecutor::new(create_registry_subkeys_contract());
    assert_eq!(executor.ctn_type(), "registry_subkeys");
}

#[test]
fn registry_subkeys_test_compare_booleans() {
    let executor = RegistrySubkeysExecutor::new(create_registry_subkeys_contract());
    assert!(executor.compare_values(
        &ResolvedValue::Boolean(true),
        &ResolvedValue::Boolean(true),
        Operation::Equals,
        "exists"
    ));
    assert!(executor.compare_values(
        &ResolvedValue::Boolean(false),
        &ResolvedValue::Boolean(true),
        Operation::NotEqual,
        "exists"
    ));
}

#[test]
fn test_compare_integers() {
    let executor = RegistrySubkeysExecutor::new(create_registry_subkeys_contract());
    assert!(executor.compare_values(
        &ResolvedValue::Integer(1),
        &ResolvedValue::Integer(5),
        Operation::GreaterThanOrEqual,
        "subkey_count"
    ));
    assert!(executor.compare_values(
        &ResolvedValue::Integer(0),
        &ResolvedValue::Integer(0),
        Operation::Equals,
        "subkey_count"
    ));
    assert!(executor.compare_values(
        &ResolvedValue::Integer(0),
        &ResolvedValue::Integer(3),
        Operation::GreaterThan,
        "subkey_count"
    ));
}

#[test]
fn test_compare_subkeys_contains() {
    let executor = RegistrySubkeysExecutor::new(create_registry_subkeys_contract());
    let subkeys = s("Reader1,Reader2,SmartCardReader");
    assert!(executor.compare_values(&s("Reader1"), &subkeys, Operation::Contains, "subkeys"));
    assert!(executor.compare_values(&s("SmartCard"), &subkeys, Operation::Contains, "subkeys"));
    assert!(!executor.compare_values(&s("NonExistent"), &subkeys, Operation::Contains, "subkeys"));
}

// ---------------------------------------------------------------------------
// Service executor
// ---------------------------------------------------------------------------

#[test]
fn service_test_executor_creation() {
    let executor = ServiceExecutor::new(create_service_contract());
    assert_eq!(executor.ctn_type(), "service");
}

#[test]
fn service_test_compare_booleans() {
    let executor = ServiceExecutor::new(create_service_contract());
    assert!(executor.compare_values(
        &ResolvedValue::Boolean(true),
        &ResolvedValue::Boolean(true),
        Operation::Equals,
        "exists"
    ));
    assert!(executor.compare_values(
        &ResolvedValue::Boolean(false),
        &ResolvedValue::Boolean(true),
        Operation::NotEqual,
        "exists"
    ));
    assert!(executor.compare_values(
        &ResolvedValue::Boolean(false),
        &ResolvedValue::Boolean(false),
        Operation::Equals,
        "exists"
    ));
}

#[test]
fn test_compare_strings_equals() {
    let executor = ServiceExecutor::new(create_service_contract());
    assert!(executor.compare_values(&s("running"), &s("running"), Operation::Equals, "state"));
    assert!(executor.compare_values(&s("stopped"), &s("running"), Operation::NotEqual, "state"));
}

#[test]
fn test_compare_strings_case_insensitive() {
    let executor = ServiceExecutor::new(create_service_contract());
    assert!(executor.compare_values(
        &s("RUNNING"),
        &s("running"),
        Operation::CaseInsensitiveEquals,
        "state"
    ));
}

#[test]
fn test_compare_strings_contains() {
    let executor = ServiceExecutor::new(create_service_contract());
    assert!(executor.compare_values(
        &s("svchost"),
        &s("C:\\windows\\system32\\svchost.exe -k LocalService"),
        Operation::Contains,
        "path"
    ));
}

#[test]
fn test_compare_strings_starts_with() {
    let executor = ServiceExecutor::new(create_service_contract());
    assert!(executor.compare_values(
        &s("C:\\windows"),
        &s("C:\\windows\\system32\\svchost.exe"),
        Operation::StartsWith,
        "path"
    ));
}

#[test]
fn test_compare_strings_ends_with() {
    let executor = ServiceExecutor::new(create_service_contract());
    assert!(executor.compare_values(
        &s(".exe"),
        &s("C:\\windows\\system32\\spoolsv.exe"),
        Operation::EndsWith,
        "path"
    ));
}

#[test]
fn test_format_operation() {
    let executor = ServiceExecutor::new(create_service_contract());
    assert_eq!(executor.format_operation(Operation::Equals), "=");
    assert_eq!(executor.format_operation(Operation::NotEqual), "!=");
    assert_eq!(executor.format_operation(Operation::Contains), "contains");
    assert_eq!(executor.format_operation(Operation::CaseInsensitiveEquals), "ieq");
    assert_eq!(executor.format_operation(Operation::PatternMatch), "pattern_match");
}

#[test]
fn test_validate_collected_data_success() {
    let contract = create_service_contract();
    let executor = ServiceExecutor::new(create_service_contract());
    let collected = vec![data(
        "test_service",
        vec![("exists", ResolvedValue::Boolean(true)), ("state", s("running")), ("start_type", s("auto"))],
    )];
    assert!(executor.validate_collected_data(&collected, &contract).is_ok());
}

#[test]
fn test_validate_collected_data_missing_exists() {
    let contract = create_service_contract();
    let executor = ServiceExecutor::new(create_service_contract());
    let collected = vec![data("test_service", vec![])];
    assert!(executor.validate_collected_data(&collected, &contract).is_err());
}

#[test]
fn test_validate_collected_data_nonexistent_service() {
    let contract = create_service_contract();
    let executor = ServiceExecutor::new(create_service_contract());
    let collected = vec![data("test_service", vec![("exists", ResolvedValue::Boolean(false))])];
    assert!(executor.validate_collected_data(&collected, &contract).is_ok());
}

#[test]
fn validate_collected_data_names_missing_field() {
    let executor = ServiceExecutor::new(create_service_contract());
    let contract = create_service_contract();
    let collected = vec![data("svc", vec![("exists", ResolvedValue::Boolean(true)), ("state", s("running"))])];
    match executor.validate_collected_data(&collected, &contract) {
        Err(CtnExecutionError::MissingDataField { field }) => {
            assert_eq!(field, "start_type (object: svc)")
        },
        _ => panic!("expected missing field"),
    }
    let reg = RegistryExecutor::new(create_registry_contract());
    let collected = vec![data("k", vec![("exists", ResolvedValue::Boolean(true))])];
    assert!(matches!(
        reg.validate_collected_data(&collected, &create_registry_contract()),
        Err(CtnExecutionError::MissingDataField { ref field }) if field == "value"
    ));
    let meta = FileMetadataExecutor::new(create_file_metadata_contract());
    assert!(meta.validate_collected_data(&vec![data("f", vec![])], &create_file_metadata_contract()).is_err());
}

// ---------------------------------------------------------------------------
// Criterion evaluation
// ---------------------------------------------------------------------------

#[test]
fn test_checks_and_operators() {
    assert!(evaluate_existence_check(ExistenceCheck::All, 2, 2));
    assert!(!evaluate_existence_check(ExistenceCheck::All, 1, 2));
    assert!(evaluate_existence_check(ExistenceCheck::Any, 0, 5));
    assert!(evaluate_existence_check(ExistenceCheck::NoneExist, 0, 5));
    assert!(evaluate_existence_check(ExistenceCheck::AtLeastOne, 3, 5));
    assert!(!evaluate_existence_check(ExistenceCheck::OnlyOne, 2, 5));
    assert!(evaluate_item_check(ItemCheck::All, 3, 3));
    assert!(!evaluate_item_check(ItemCheck::All, 2, 3));
    assert!(evaluate_item_check(ItemCheck::NoneSatisfy, 0, 3));
    assert!(evaluate_item_check(ItemCheck::OnlyOne, 1, 3));
    assert!(evaluate_state_operator(None, &[true, true]));
    assert!(!evaluate_state_operator(Some(StateOperator::And), &[true, false]));
    assert!(evaluate_state_operator(Some(StateOperator::Or), &[false, true]));
    assert!(!evaluate_state_operator(Some(StateOperator::Or), &[]));
    assert!(evaluate_state_operator(Some(StateOperator::One), &[false, true, false]));
    assert!(!evaluate_state_operator(Some(StateOperator::One), &[true, true]));
}

#[test]
fn test_string_and_version_comparisons() {
    assert_eq!(string_compare("abc", "b", Operation::Contains), Some(true));
    assert_eq!(string_compare("abc", "b", Operation::NotContains), Some(false));
    assert_eq!(string_compare("abc", "ab", Operation::NotStartsWith), Some(false));
    assert_eq!(string_compare("abc", "bc", Operation::NotEndsWith), Some(false));
    assert_eq!(string_compare("Abc", "aBC", Operation::CaseInsensitiveNotEqual), Some(false));
    assert_eq!(string_compare("abc", "b", Operation::GreaterThan), None);
    assert_eq!(string_compare("app-7", "^app-[0-9]+$", Operation::PatternMatch), Some(true));
    assert_eq!(string_compare("web-7", "^app-.*", Operation::Matches), Some(false));
    assert_eq!(string_compare("x", "(", Operation::PatternMatch), None);
    assert!(version_compare("10.0.19045", "10.0.9999", Operation::GreaterThan));
    assert!(version_compare("6.3", "6.3.0", Operation::LessThan));
    assert!(version_compare("1.x.2", "1.2", Operation::Equals));
    assert!(!version_compare("1.2", "1.2", Operation::Contains));
}

#[test]
fn service_criterion_short_circuits_on_existence() {
    let executor = ServiceExecutor::new(create_service_contract());
    let contract = create_service_contract();
    let crit = criterion(
        "service",
        ExistenceCheck::All,
        ItemCheck::All,
        None,
        vec![
            ("exists", Operation::Equals, ResolvedValue::Boolean(true)),
            ("state", Operation::Equals, s("running")),
        ],
        &["a", "b"],
    );
    let collected = vec![
        data("a", vec![("exists", ResolvedValue::Boolean(true)), ("state", s("running"))]),
        data("b", vec![("exists", ResolvedValue::Boolean(false))]),
    ];
    let r = executor.execute_with_contract(&crit, collected, &contract).unwrap();
    assert_eq!(r.status, Outcome::Fail);
    assert_eq!(r.objects_passing, 1);
    assert_eq!(r.state_results.len(), 2);
    assert!(r.state_results[0].combined_result);
    assert_eq!(r.state_results[0].state_results.len(), 2);
    assert!(!r.state_results[1].combined_result);
    assert_eq!(r.state_results[1].state_results.len(), 1);
    assert_eq!(r.state_results[1].state_results[0].field_name, "exists");

    let must_not_exist = criterion(
        "service",
        ExistenceCheck::Any,
        ItemCheck::All,
        None,
        vec![
            ("exists", Operation::Equals, ResolvedValue::Boolean(false)),
            ("state", Operation::Equals, s("running")),
        ],
        &["b"],
    );
    let collected = vec![data("b", vec![("exists", ResolvedValue::Boolean(false))])];
    let r = executor.execute_with_contract(&must_not_exist, collected, &contract).unwrap();
    assert_eq!(r.status, Outcome::Pass);
    assert_eq!(r.state_results[0].state_results.len(), 1);

    let wrong_count = criterion("service", ExistenceCheck::All, ItemCheck::All, None, vec![], &["a", "b"]);
    let r = executor
        .execute_with_contract(&wrong_count, vec![data("a", vec![])], &contract)
        .unwrap();
    assert_eq!(r.status, Outcome::Fail);
    assert!(r.state_results.is_empty());
}

#[test]
fn registry_criterion_reports_missing_fields() {
    let executor = RegistryExecutor::new(create_registry_contract());
    let contract = create_registry_contract();
    let crit = criterion(
        "registry",
        ExistenceCheck::All,
        ItemCheck::AtLeastOne,
        Some(StateOperator::Or),
        vec![
            ("value_int", Operation::GreaterThanOrEqual, ResolvedValue::Integer(2)),
            ("type", Operation::Equals, s("reg_dword")),
        ],
        &["k"],
    );
    let collected = vec![data("k", vec![("exists", ResolvedValue::Boolean(true)), ("value", s("3"))])];
    let r = executor.execute_with_contract(&crit, collected, &contract).unwrap();
    assert_eq!(r.status, Outcome::Pass);
    let checks = &r.state_results[0].state_results;
    assert_eq!(checks.len(), 2);
    assert!(checks[0].passed);
    assert!(!checks[1].passed);
    assert!(matches!(checks[1].actual_value, ResolvedValue::String(ref x) if x == "missing"));
    assert_eq!(r.failures.len(), 1);
}

#[test]
fn registry_absent_as_required_passes_at_once() {
    let executor = RegistryExecutor::new(create_registry_contract());
    let contract = create_registry_contract();
    let crit = criterion(
        "registry",
        ExistenceCheck::Any,
        ItemCheck::All,
        None,
        vec![
            ("exists", Operation::Equals, ResolvedValue::Boolean(false)),
            ("value", Operation::Equals, s("1")),
        ],
        &["k"],
    );
    let collected = vec![data("k", vec![("exists", ResolvedValue::Boolean(false)), ("value", s(""))])];
    let r = executor.execute_with_contract(&crit, collected, &contract).unwrap();
    assert_eq!(r.status, Outcome::Pass);
    assert_eq!(r.state_results[0].state_results.len(), 1);
    assert!(r.state_results[0].state_results[0].passed);

    let subkeys = RegistrySubkeysExecutor::new(create_registry_subkeys_contract());
    let sub_contract = create_registry_subkeys_contract();
    let crit = criterion(
        "registry_subkeys",
        ExistenceCheck::Any,
        ItemCheck::All,
        None,
        vec![
            ("exists", Operation::Equals, ResolvedValue::Boolean(false)),
            ("subkey_count", Operation::GreaterThanOrEqual, ResolvedValue::Integer(1)),
        ],
        &["k"],
    );
    let collected = vec![data("k", vec![("exists", ResolvedValue::Boolean(false)), ("subkey_count", ResolvedValue::Integer(0))])];
    let r = subkeys.execute_with_contract(&crit, collected, &sub_contract).unwrap();
    assert_eq!(r.status, Outcome::Pass);
    assert_eq!(r.state_results[0].state_results.len(), 1);
}

#[test]
fn file_metadata_criterion_compares_typed_values() {
    let executor = FileMetadataExecutor::new(create_file_metadata_contract());
    let contract = create_file_metadata_contract();
    let crit = criterion(
        "file_metadata",
        ExistenceCheck::All,
        ItemCheck::All,
        None,
        vec![
            ("permissions", Operation::Equals, s("0600")),
            ("size", Operation::GreaterThan, ResolvedValue::Integer(10)),
            ("exists", Operation::Equals, ResolvedValue::Boolean(true)),
        ],
        &["shadow"],
    );
    let collected = vec![data(
        "shadow",
        vec![
            ("file_mode", s("0600")),
            ("file_size", ResolvedValue::Integer(1024)),
            ("exists", ResolvedValue::Boolean(true)),
        ],
    )];
    let r = executor.execute_with_contract(&crit, collected, &contract).unwrap();
    assert_eq!(r.status, Outcome::Pass);
    assert_eq!(r.state_results[0].state_results.len(), 3);
    assert_eq!(executor.format_operation(Operation::GreaterThan), "GreaterThan");
}

#[test]
fn file_content_criterion() {
    let executor = FileContentExecutor::new(create_file_content_contract());
    let contract = create_file_content_contract();
    let crit = criterion(
        "file_content",
        ExistenceCheck::All,
        ItemCheck::All,
        None,
        vec![
            ("content", Operation::Contains, s("PermitRootLogin no")),
            ("other", Operation::Equals, s("ignored")),
        ],
        &["sshd"],
    );
    let collected = vec![data("sshd", vec![("file_content", s("Port 22\nPermitRootLogin no\n"))])];
    let r = executor.execute_with_contract(&crit, collected, &contract).unwrap();
    assert_eq!(r.status, Outcome::Pass);
    assert_eq!(r.state_results[0].state_results.len(), 1);

    let missing = vec![data("sshd", vec![])];
    assert!(matches!(
        executor.execute_with_contract(&crit, missing, &contract),
        Err(CtnExecutionError::MissingDataField { .. })
    ));
    let wrong = vec![data("sshd", vec![("file_content", ResolvedValue::Integer(1))])];
    assert!(matches!(
        executor.execute_with_contract(&crit, wrong, &contract),
        Err(CtnExecutionError::DataValidationFailed { .. })
    ));
    assert!(!executor.compare_string_operation("x", "abc", Operation::Contains));
}

#[test]
fn computed_values_criterion_records_every_field() {
    let executor = ComputedValuesExecutor::new(create_computed_values_contract());
    let contract = create_computed_values_contract();
    let crit = criterion(
        "computed_values",
        ExistenceCheck::All,
        ItemCheck::All,
        None,
        vec![("x", Operation::Equals, s("1")), ("y", Operation::Equals, s("2"))],
        &["o1", "o2"],
    );
    let r = executor.execute_with_contract(&crit, vec![], &contract).unwrap();
    assert_eq!(r.status, Outcome::Pass);
    assert_eq!(r.objects_passing, 2);
    assert_eq!(r.state_results[1].object_id, "o2");
    assert_eq!(r.state_results[1].state_results.len(), 2);
}

#[test]
fn registry_failure_messages_as_documented() {
    let executor = RegistryExecutor::new(create_registry_contract());
    let contract = create_registry_contract();
    let crit = criterion(
        "registry",
        ExistenceCheck::AtLeastOne,
        ItemCheck::All,
        None,
        vec![
            ("exists", Operation::Equals, ResolvedValue::Boolean(true)),
            ("type", Operation::Equals, s("reg_dword")),
            ("value_int", Operation::LessThanOrEqual, ResolvedValue::Integer(1)),
        ],
        &["telemetry_setting"],
    );
    let collected = vec![data(
        "telemetry_setting",
        vec![("exists", ResolvedValue::Boolean(true)), ("type", s("reg_dword")), ("value", s("3"))],
    )];
    let r = executor.execute_with_contract(&crit, collected, &contract).unwrap();
    assert_eq!(r.status, Outcome::Fail);
    assert_eq!(
        r.message,
        "Registry validation failed:\n  - Registry 'telemetry_setting': value_int check failed: got 3, expected <= 1"
    );
    assert_eq!(r.state_results[0].message, "Registry 'telemetry_setting': failed");

    let crit = criterion(
        "registry",
        ExistenceCheck::AtLeastOne,
        ItemCheck::All,
        None,
        vec![("exists", Operation::Equals, ResolvedValue::Boolean(true))],
        &["bitlocker_minimum_pin"],
    );
    let collected = vec![data("bitlocker_minimum_pin", vec![("exists", ResolvedValue::Boolean(false))])];
    let r = executor.execute_with_contract(&crit, collected, &contract).unwrap();
    assert_eq!(
        r.message,
        "Registry validation failed:\n  - Registry 'bitlocker_minimum_pin': Registry key/value does not exist"
    );
    assert_eq!(r.state_results[0].message, "Registry 'bitlocker_minimum_pin': failed (key does not exist)");
    assert_eq!(r.failures, vec!["Registry 'bitlocker_minimum_pin': Registry key/value does not exist".to_string()]);
}

#[test]
fn service_and_subkeys_messages() {
    let executor = ServiceExecutor::new(create_service_contract());
    let contract = create_service_contract();
    let crit = criterion(
        "service",
        ExistenceCheck::Any,
        ItemCheck::All,
        None,
        vec![("exists", Operation::Equals, ResolvedValue::Boolean(false))],
        &["Telnet"],
    );
    let r = executor
        .execute_with_contract(&crit, vec![data("Telnet", vec![("exists", ResolvedValue::Boolean(false))])], &contract)
        .unwrap();
    assert_eq!(r.status, Outcome::Pass);
    assert_eq!(r.state_results[0].message, "Service 'Telnet': passed (service correctly does not exist)");
    assert_eq!(r.message, "Service validation passed: 1 of 1 services compliant");

    let wrong = criterion("service", ExistenceCheck::All, ItemCheck::All, None, vec![], &["a", "b"]);
    let r = executor.execute_with_contract(&wrong, vec![data("a", vec![])], &contract).unwrap();
    assert_eq!(r.message, "Existence check failed: expected 2 service objects, found 1");

    let sub = RegistrySubkeysExecutor::new(create_registry_subkeys_contract());
    let sub_contract = create_registry_subkeys_contract();
    let crit = criterion(
        "registry_subkeys",
        ExistenceCheck::AtLeastOne,
        ItemCheck::All,
        None,
        vec![
            ("exists", Operation::Equals, ResolvedValue::Boolean(true)),
            ("subkey_count", Operation::GreaterThanOrEqual, ResolvedValue::Integer(1)),
        ],
        &["readers"],
    );
    let collected = vec![data(
        "readers",
        vec![("exists", ResolvedValue::Boolean(true)), ("subkey_count", ResolvedValue::Integer(3))],
    )];
    let r = sub.execute_with_contract(&crit, collected, &sub_contract).unwrap();
    assert_eq!(r.message, "Registry subkeys validation passed: 1 of 1 objects compliant");
    assert_eq!(r.state_results[0].state_results[1].message, "subkey_count check passed: 3 >= 1");
}

#[test]
fn file_metadata_messages() {
    let executor = FileMetadataExecutor::new(create_file_metadata_contract());
    let contract = create_file_metadata_contract();
    let crit = criterion(
        "file_metadata",
        ExistenceCheck::All,
        ItemCheck::All,
        None,
        vec![("owner_id", Operation::Equals, s("0")), ("size", Operation::GreaterThan, ResolvedValue::Integer(10))],
        &["f"],
    );
    let collected = vec![data("f", vec![("file_owner", s("1000"))])];
    let r = executor.execute_with_contract(&crit, collected, &contract).unwrap();
    assert_eq!(r.status, Outcome::Fail);
    let checks = &r.state_results[0].state_results;
    assert_eq!(checks[0].message, "Field 'owner_id' failed: expected '0' Equals '0', got '1000'");
    assert_eq!(checks[1].message, "Field 'size' (mapped to 'file_size') not collected");
    assert_eq!(r.state_results[0].message, "Object 'f': failed (0 of 2 fields passed)");
    assert_eq!(
        r.message,
        "File metadata validation failed:\n  - Object 'f': Field 'owner_id' failed: expected '0' Equals '0', got '1000'\n  - Object 'f': Field 'size' (mapped to 'file_size') not collected"
    );
}
