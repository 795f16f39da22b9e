use esp_agent::commands::executor::{
    create_powershell_executor, create_reg_executor, create_sc_executor, CommandExecutor,
};
use esp_agent::commands::filesystem::{
    format_file_mode, record_file_content, record_file_metadata, unix_file_metadata, FileMetadata,
    FileSystemError, ReadFailure, UnixFileStat,
};
use esp_agent::contracts::{
    create_file_content_contract, create_file_metadata_contract, create_registry_subkeys_contract,
};
use esp_agent::criteria::{ExistenceCheck, ItemCheck, Operation, Outcome, TestSpecification};
use esp_agent::executors::{FileContentExecutor, FileMetadataExecutor, RegistrySubkeysExecutor};
use esp_agent::model::{CollectedData, CollectionError, ExecutableObject, ResolvedValue};
use esp_agent::scan_api::ScanError;
use esp_agent::validation::{ExecutableCriterion, ExecutableState, StateField};

fn content_criterion(op: Operation, expected: ResolvedValue) -> ExecutableCriterion {
    ExecutableCriterion {
        criterion_type: "file_content".to_string(),
        test: TestSpecification {
            existence_check: ExistenceCheck::All,
            item_check: ItemCheck::All,
            state_operator: None,
        },
        states: vec![ExecutableState {
            identifier: "st".to_string(),
            fields: vec![StateField { name: "content".to_string(), value: expected, operation: op }],
        }],
        objects: vec![ExecutableObject { identifier: "f".to_string(), fields: vec![] }],
    }
}

fn content_data(text: &str) -> Vec<(String, CollectedData)> {
    let mut d = CollectedData::new("f".to_string(), "file_content".to_string(), "c".to_string());
    d.add_field("file_content".to_string(), ResolvedValue::String(text.to_string()));
    vec![("f".to_string(), d)]
}

fn first_message(op: Operation, expected: ResolvedValue, text: &str) -> (Outcome, String) {
    let ex = FileContentExecutor::new(create_file_content_contract());
    let r = ex
        .execute_with_contract(&content_criterion(op, expected), content_data(text), &create_file_content_contract())
        .unwrap();
    let m = r.state_results[0].state_results[0].message.clone();
    (r.status, m)
}

#[test]
fn subkeys_values_as_shown() {
    let ex = RegistrySubkeysExecutor::new(create_registry_subkeys_contract());
    assert_eq!(ex.format_value(&ResolvedValue::String("a,b,,c".to_string())), "[3 subkeys]");
    assert_eq!(ex.format_value(&ResolvedValue::String(",".to_string())), "[0 subkeys]");
    assert_eq!(ex.format_value(&ResolvedValue::String(String::new())), "[0 subkeys]");
    assert_eq!(ex.format_value(&ResolvedValue::String("Policies".to_string())), "Policies");
    assert_eq!(ex.format_value(&ResolvedValue::Integer(-5)), "-5");
    assert_eq!(ex.format_value(&ResolvedValue::Boolean(true)), "true");
}

#[test]
fn metadata_values_as_shown() {
    let ex = FileMetadataExecutor::new(create_file_metadata_contract());
    assert_eq!(ex.format_value(&ResolvedValue::String("S-1-5-18".to_string())), "'S-1-5-18'");
    assert_eq!(ex.format_value(&ResolvedValue::Integer(420)), "420");
    assert_eq!(ex.format_value(&ResolvedValue::Boolean(false)), "false");
}

#[test]
fn preview_counts_bytes() {
    let ex = FileContentExecutor::new(create_file_content_contract());
    assert_eq!(ex.preview_content("hello", 10), "hello");
    assert_eq!(ex.preview_content("hello", 5), "hello");
    assert_eq!(ex.preview_content("hello world", 5), "hello... (11 chars total)");
    // 'é' takes two bytes: three bytes end after it
    assert_eq!(ex.preview_content("h\u{e9}llo", 3), "h\u{e9}... (6 chars total)");
}

#[test]
fn content_messages() {
    let (st, m) = first_message(Operation::Contains, ResolvedValue::String("Port".to_string()), "Port 22");
    assert_eq!(st, Outcome::Pass);
    assert_eq!(m, "Content check passed: Contains 'Port'");
    let (st, m) = first_message(Operation::Contains, ResolvedValue::String("Root".to_string()), "Port 22");
    assert_eq!(st, Outcome::Fail);
    assert_eq!(m, "Content check failed: Contains 'Root' (content preview: Port 22)");
    let (_, m) = first_message(Operation::StartsWith, ResolvedValue::String("#".to_string()), "Port 22");
    assert_eq!(m, "Content check failed: expected to start with '#', actual start: 'Port 22'");
    let long = "x".repeat(60);
    let (_, m) = first_message(Operation::EndsWith, ResolvedValue::String("y".to_string()), &long);
    assert_eq!(
        m,
        format!("Content check failed: expected to end with 'y', actual end: '...{}'", "x".repeat(50))
    );
    let (_, m) = first_message(Operation::Equals, ResolvedValue::String("y".to_string()), "x");
    assert_eq!(m, "Content check failed: Equals 'y'");
    let (st, m) = first_message(Operation::Equals, ResolvedValue::Integer(3), "x");
    assert_eq!(st, Outcome::Fail);
    assert_eq!(m, "Expected value for field 'content' must be a string, got Integer(3)");
}

#[test]
fn unix_metadata_model() {
    let stat = UnixFileStat { size: 12, is_dir: false, readable: true, writable: false, mode: 0o100644, uid: 0, gid: 42 };
    let m = unix_file_metadata(true, Some(stat));
    assert!(m.exists && m.readable && !m.writable && !m.is_directory);
    assert_eq!(m.file_size, 12);
    assert_eq!(m.file_mode, "0644");
    assert_eq!(m.file_owner, "0");
    assert_eq!(m.file_group, "42");
    let gone = unix_file_metadata(false, None);
    assert!(!gone.exists && !gone.readable && gone.file_mode.is_empty());
    let d = FileMetadata::default();
    assert!(!d.exists && d.file_size == 0);
    assert_eq!(format_file_mode(0o40755), "0755");
    assert_eq!(format_file_mode(0o7), "0007");
}

#[test]
fn error_messages() {
    assert_eq!(FileSystemError::NotFound("/x".to_string()).message(), "File not found: /x");
    assert_eq!(ScanError::IoError("boom".to_string()).message(), "I/O error: boom");
}

#[test]
fn command_runners_allow_only_their_binaries() {
    let reg = create_reg_executor();
    assert!(reg.is_allowed("reg"));
    assert!(reg.is_allowed("reg.exe"));
    assert!(reg.is_allowed("C:\\Windows\\System32\\reg.exe"));
    assert!(!reg.is_allowed("sc.exe"));
    assert_eq!(reg.timeout_secs(), 30);
    let sc = create_sc_executor();
    assert!(sc.is_allowed("sc.exe"));
    assert!(!sc.is_allowed("sc"));
    let ps = create_powershell_executor();
    assert!(ps.is_allowed("powershell.exe"));
    assert!(!ps.is_allowed("pwsh.exe"));
    let mut e = CommandExecutor::with_timeout(5);
    assert!(!e.is_allowed("rpm"));
    e.allow_command("rpm");
    assert!(e.is_allowed("rpm"));
    assert!(!e.is_allowed("RPM"));
    assert_eq!(e.timeout_secs(), 5);
}

#[test]
fn file_metadata_fields_recorded_in_order() {
    let stat = UnixFileStat { size: 42, is_dir: false, readable: true, writable: false, mode: 0o100640, uid: 0, gid: 4 };
    let m = unix_file_metadata(true, Some(stat));
    let mut d = CollectedData::new("f".to_string(), "file_metadata".to_string(), "fs".to_string());
    record_file_metadata(&mut d, m);
    let names: Vec<&str> = d.fields.iter().map(|(n, _)| n.as_str()).collect();
    assert_eq!(
        names,
        vec![
            "exists", "readable", "writable", "file_size", "is_directory", "file_owner", "file_group",
            "file_mode", "is_readonly", "is_hidden", "is_system"
        ]
    );
    assert!(matches!(d.get_field("file_size"), Some(ResolvedValue::Integer(42))));
    assert!(matches!(d.get_field("file_mode"), Some(ResolvedValue::String(m)) if m == "0640"));
    assert!(matches!(d.get_field("file_group"), Some(ResolvedValue::String(g)) if g == "4"));
    let mut big = CollectedData::new("g".to_string(), "file_metadata".to_string(), "fs".to_string());
    let mut huge = FileMetadata::default();
    huge.file_size = u64::MAX;
    record_file_metadata(&mut big, huge);
    assert!(matches!(big.get_field("file_size"), Some(ResolvedValue::Integer(v)) if *v == i64::MAX));
}

#[test]
fn file_content_recorded_or_refused() {
    let id = "f".to_string();
    let d = CollectedData::new("f".to_string(), "file_content".to_string(), "fs".to_string());
    let d = record_file_content(d, &id, Ok("PermitRootLogin no".to_string())).unwrap();
    assert!(matches!(d.get_field("file_content"), Some(ResolvedValue::String(c)) if c == "PermitRootLogin no"));
    let d = CollectedData::new("f".to_string(), "file_content".to_string(), "fs".to_string());
    assert!(matches!(
        record_file_content(d, &id, Err(ReadFailure::Denied("Permission denied".to_string()))),
        Err(CollectionError::AccessDenied { ref object_id, ref reason }) if object_id == "f" && reason == "Permission denied"
    ));
    let d = CollectedData::new("f".to_string(), "file_content".to_string(), "fs".to_string());
    assert!(matches!(
        record_file_content(d, &id, Err(ReadFailure::Failed("No such file".to_string()))),
        Err(CollectionError::CollectionFailed { ref reason, .. }) if reason == "No such file"
    ));
}
