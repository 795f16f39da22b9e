use esp_agent::collectors::command::{CollectionStep, CommandCollector, CommandPlan};
use esp_agent::collectors::computed_values::ComputedValuesCollector;
use esp_agent::collectors::registry::RegistryCollector;
use esp_agent::collectors::registry_subkeys::RegistrySubkeysCollector;
use esp_agent::collectors::service::{
    normalize_powershell_service_type, normalize_powershell_start_type,
    normalize_powershell_state, ScStep, ServiceCollector, ServiceQueryMethod,
};
use esp_agent::collectors::tcp_listener::TcpListenerCollector;
use esp_agent::collectors::{BehaviorHints, RegistryQueryMethod};
use esp_agent::commands::tcp_listener::TcpListenerResult;
use esp_agent::contract::CtnContract;
use esp_agent::model::{
    CollectedData, CollectionError, CommandOutput, ExecutableObject, ObjectField, ResolvedValue,
};

fn object(id: &str, fields: Vec<(&str, ResolvedValue)>) -> ExecutableObject {
    ExecutableObject {
        identifier: id.to_string(),
        fields: fields
            .into_iter()
            .map(|(n, v)| ObjectField { name: n.to_string(), value: v })
            .collect(),
    }
}

fn s(v: &str) -> ResolvedValue {
    ResolvedValue::String(v.to_string())
}

fn output(code: i32, stdout: &str, stderr: &str) -> Result<CommandOutput, String> {
    Ok(CommandOutput { exit_code: code, stdout: stdout.to_string(), stderr: stderr.to_string() })
}

fn field<'a>(d: &'a CollectedData, name: &str) -> Option<&'a ResolvedValue> {
    d.get_field(name)
}

fn is_str(v: Option<&ResolvedValue>, want: &str) -> bool {
    matches!(v, Some(ResolvedValue::String(x)) if x == want)
}

fn is_bool(v: Option<&ResolvedValue>, want: bool) -> bool {
    matches!(v, Some(ResolvedValue::Boolean(x)) if *x == want)
}

fn is_int(v: Option<&ResolvedValue>, want: i64) -> bool {
    matches!(v, Some(ResolvedValue::Integer(x)) if *x == want)
}

// ---------------------------------------------------------------------------
// Service collector
// ---------------------------------------------------------------------------

#[test]
fn service_test_collector_creation() {
    let collector = ServiceCollector::new();
    assert_eq!(collector.collector_id(), "windows_service_collector");
    assert!(collector.supported_ctn_types().contains(&"service".to_string()));
}

#[test]
fn service_test_collector_with_custom_id() {
    let collector = ServiceCollector::with_id("custom_id");
    assert_eq!(collector.collector_id(), "custom_id");
}

#[test]
fn service_test_supports_batch_collection() {
    let collector = ServiceCollector::new();
    assert!(!collector.supports_batch_collection());
}

#[test]
fn test_normalize_powershell_state() {
    assert_eq!(normalize_powershell_state("Running"), "running");
    assert_eq!(normalize_powershell_state("Stopped"), "stopped");
    assert_eq!(normalize_powershell_state("Paused"), "paused");
    assert_eq!(normalize_powershell_state("StartPending"), "start_pending");
    assert_eq!(normalize_powershell_state("StopPending"), "stop_pending");
    assert_eq!(normalize_powershell_state("Unknown"), "unknown");
}

#[test]
fn test_normalize_powershell_start_type() {
    assert_eq!(normalize_powershell_start_type("Automatic", false), "auto");
    assert_eq!(normalize_powershell_start_type("Automatic", true), "auto_delayed");
    assert_eq!(normalize_powershell_start_type("Auto", false), "auto");
    assert_eq!(normalize_powershell_start_type("Auto", true), "auto_delayed");
    assert_eq!(normalize_powershell_start_type("Manual", false), "manual");
    assert_eq!(normalize_powershell_start_type("Disabled", false), "disabled");
    assert_eq!(normalize_powershell_start_type("Boot", false), "boot");
    assert_eq!(normalize_powershell_start_type("System", false), "system");
}

#[test]
fn test_normalize_powershell_service_type() {
    assert_eq!(normalize_powershell_service_type("Own Process"), "own_process");
    assert_eq!(normalize_powershell_service_type("Share Process"), "share_process");
    assert_eq!(normalize_powershell_service_type("Kernel Driver"), "kernel_driver");
    assert_eq!(normalize_powershell_service_type("File System Driver"), "file_system_driver");
}

#[test]
fn test_ctn_compatibility() {
    let collector = ServiceCollector::new();
    let valid_contract = CtnContract::new("service".to_string());
    assert!(collector.validate_ctn_compatibility(&valid_contract).is_ok());
    let invalid_contract = CtnContract::new("registry".to_string());
    assert!(collector.validate_ctn_compatibility(&invalid_contract).is_err());
}

#[test]
fn powershell_service_type_variations() {
    assert_eq!(normalize_powershell_service_type("Win32 Own Process"), "own_process");
    assert_eq!(normalize_powershell_service_type("share process"), "share_process");
    assert_eq!(normalize_powershell_service_type("KERNEL"), "kernel_driver");
    assert_eq!(normalize_powershell_service_type("Something"), "unknown");
    assert_eq!(normalize_powershell_start_type("Whatever", true), "unknown");
    assert_eq!(normalize_powershell_state("PausePending"), "pause_pending");
}

#[test]
fn service_plan_follows_executor_behavior() {
    let collector = ServiceCollector::new();
    let contract = CtnContract::new("service".to_string());
    let obj = object("svc", vec![("name", s("W32Time"))]);
    let plan = collector.collect_for_ctn_with_hints(&obj, &contract, &BehaviorHints::empty());
    assert!(matches!(plan, Ok((ServiceQueryMethod::Sc, ref n)) if n == "W32Time"));

    let hints = BehaviorHints {
        parameters: vec![("executor".to_string(), "powershell".to_string())],
        flags: vec![],
    };
    let plan = collector.collect_for_ctn_with_hints(&obj, &contract, &hints);
    assert!(matches!(plan, Ok((ServiceQueryMethod::PowerShell, _))));

    let hints = BehaviorHints {
        parameters: vec![("executor".to_string(), "wmi".to_string())],
        flags: vec![],
    };
    let plan = collector.collect_for_ctn_with_hints(&obj, &contract, &hints);
    assert!(matches!(plan, Err(CollectionError::InvalidObjectConfiguration { .. })));

    let missing = object("svc", vec![]);
    let plan = collector.collect_for_ctn_with_hints(&missing, &contract, &BehaviorHints::empty());
    assert!(matches!(plan, Err(CollectionError::InvalidObjectConfiguration { .. })));

    let wrong_kind = object("svc", vec![("name", ResolvedValue::Integer(3))]);
    let plan = collector.collect_for_ctn_with_hints(&wrong_kind, &contract, &BehaviorHints::empty());
    assert!(matches!(plan, Err(CollectionError::InvalidObjectConfiguration { .. })));
}

const SC_QUERY_RUNNING: &str = "SERVICE_NAME: W32Time\n        TYPE               : 30  WIN32\n        STATE              : 4  RUNNING\n";
const SC_QC: &str = "SERVICE_NAME: W32Time\n        TYPE               : 20  WIN32_SHARE_PROCESS\n        START_TYPE         : 3   DEMAND_START\n        BINARY_PATH_NAME   : C:\\WINDOWS\\system32\\svchost.exe -k LocalService\n        DISPLAY_NAME       : Windows Time\n";

#[test]
fn sc_collection_needs_qc_then_collects() {
    let collector = ServiceCollector::new();
    let obj = object("time", vec![("name", s("W32Time"))]);
    let query = output(0, SC_QUERY_RUNNING, "");
    assert!(matches!(collector.collect_via_sc(&obj, "W32Time", &query, None), ScStep::NeedQc));
    let qc = output(0, SC_QC, "");
    match collector.collect_via_sc(&obj, "W32Time", &query, Some(&qc)) {
        ScStep::Done(Ok(d)) => {
            assert!(is_bool(field(&d, "exists"), true));
            assert!(is_str(field(&d, "state"), "running"));
            assert!(is_str(field(&d, "start_type"), "manual"));
            assert!(is_str(field(&d, "display_name"), "Windows Time"));
            assert!(is_str(field(&d, "service_type"), "share_process"));
            assert_eq!(d.object_id, "time");
            assert_eq!(d.ctn_type, "service");
            assert!(d.method.is_some());
        },
        _ => panic!("expected data"),
    }
}

#[test]
fn sc_collection_missing_service() {
    let collector = ServiceCollector::new();
    let obj = object("gone", vec![("name", s("Nope"))]);
    let query = output(
        1060,
        "[SC] EnumQueryServicesStatus:OpenService FAILED 1060:\n\nThe specified service does not exist as an installed service.\n",
        "",
    );
    match collector.collect_via_sc(&obj, "Nope", &query, None) {
        ScStep::Done(Ok(d)) => {
            assert!(is_bool(field(&d, "exists"), false));
            assert!(is_str(field(&d, "state"), ""));
            assert!(is_str(field(&d, "start_type"), ""));
        },
        _ => panic!("expected data"),
    }
}

#[test]
fn sc_collection_errors() {
    let collector = ServiceCollector::new();
    let obj = object("svc", vec![("name", s("X"))]);
    let denied = output(5, "[SC] OpenService FAILED 5:\n\nAccess is denied.\n", "");
    assert!(matches!(
        collector.collect_via_sc(&obj, "X", &denied, None),
        ScStep::Done(Err(CollectionError::AccessDenied { .. }))
    ));
    let failed = output(2, "", "boom");
    assert!(matches!(
        collector.collect_via_sc(&obj, "X", &failed, None),
        ScStep::Done(Err(CollectionError::CollectionFailed { .. }))
    ));
    let unreadable = output(0, "nothing useful", "");
    assert!(matches!(
        collector.collect_via_sc(&obj, "X", &unreadable, None),
        ScStep::Done(Err(CollectionError::CollectionFailed { .. }))
    ));
    let not_run: Result<CommandOutput, String> = Err("spawn failed".to_string());
    assert!(matches!(
        collector.collect_via_sc(&obj, "X", &not_run, None),
        ScStep::Done(Err(CollectionError::CollectionFailed { .. }))
    ));
}

#[test]
fn powershell_service_collection() {
    let collector = ServiceCollector::new();
    let obj = object("spool", vec![("name", s("Spooler"))]);
    let json = r#"{"Name":"Spooler","State":"Running","StartMode":"Auto","DisplayName":"Print Spooler","PathName":"C:\\WINDOWS\\System32\\spoolsv.exe","ServiceType":"Own Process","DelayedAutoStart":true}"#;
    let d = collector.collect_via_powershell(&obj, "Spooler", &output(0, json, "")).unwrap();
    assert!(is_bool(field(&d, "exists"), true));
    assert!(is_str(field(&d, "state"), "running"));
    assert!(is_str(field(&d, "start_type"), "auto_delayed"));
    assert!(is_str(field(&d, "display_name"), "Print Spooler"));
    assert!(is_str(field(&d, "path"), "C:\\WINDOWS\\System32\\spoolsv.exe"));
    assert!(is_str(field(&d, "service_type"), "own_process"));

    let absent = collector.collect_via_powershell(&obj, "Spooler", &output(0, "  \n", "")).unwrap();
    assert!(is_bool(field(&absent, "exists"), false));
    let null = collector.collect_via_powershell(&obj, "Spooler", &output(0, "null", "")).unwrap();
    assert!(is_bool(field(&null, "exists"), false));

    assert!(matches!(
        collector.collect_via_powershell(&obj, "Spooler", &output(0, "{not json", "")),
        Err(CollectionError::CollectionFailed { .. })
    ));
    assert!(matches!(
        collector.collect_via_powershell(&obj, "Spooler", &output(1, "", "Access is DENIED")),
        Err(CollectionError::AccessDenied { .. })
    ));
    let sparse = collector.collect_via_powershell(&obj, "Spooler", &output(0, "{}", "")).unwrap();
    assert!(is_str(field(&sparse, "state"), "unknown"));
    assert!(is_str(field(&sparse, "start_type"), "unknown"));
    assert!(is_str(field(&sparse, "service_type"), "unknown"));
    assert!(is_str(field(&sparse, "path"), ""));
}

#[test]
fn powershell_command_escapes_quotes() {
    let c = ServiceCollector::powershell_command("a'b");
    assert!(c.contains("Name='a''b'"));
    let args = ServiceCollector::powershell_args(&c);
    assert_eq!(args.len(), 4);
    assert_eq!(args[2], "-Command");
    assert_eq!(ServiceCollector::sc_query_args("W32Time"), vec!["query", "W32Time"]);
    assert_eq!(ServiceCollector::sc_qc_args("W32Time"), vec!["qc", "W32Time"]);
}

// ---------------------------------------------------------------------------
// Registry collector
// ---------------------------------------------------------------------------

#[test]
fn registry_test_collector_creation() {
    let collector = RegistryCollector::new();
    assert_eq!(collector.collector_id(), "windows_registry_collector");
    assert!(collector.supported_ctn_types().contains(&"registry".to_string()));
}

#[test]
fn registry_test_collector_with_custom_id() {
    let collector = RegistryCollector::with_id("custom_id");
    assert_eq!(collector.collector_id(), "custom_id");
}

#[test]
fn registry_test_normalize_hive() {
    let collector = RegistryCollector::new();
    assert_eq!(collector.normalize_hive_for_reg("HKEY_LOCAL_MACHINE"), "HKLM");
    assert_eq!(collector.normalize_hive_for_reg("HKLM"), "HKLM");
    assert_eq!(collector.normalize_hive_for_reg("hkey_current_user"), "HKCU");
}

#[test]
fn registry_test_supports_batch_collection() {
    let collector = RegistryCollector::new();
    assert!(!collector.supports_batch_collection());
}

#[test]
fn registry_value_collection() {
    let collector = RegistryCollector::new();
    let obj = object(
        "build",
        vec![
            ("hive", s("HKEY_LOCAL_MACHINE")),
            ("key", s("SOFTWARE\\Microsoft\\Windows NT\\CurrentVersion")),
            ("name", s("CurrentBuild")),
        ],
    );
    let contract = CtnContract::new("registry".to_string());
    let plan = collector.collect_for_ctn_with_hints(&obj, &contract, &BehaviorHints::empty()).unwrap();
    assert_eq!(plan.0, RegistryQueryMethod::Reg);
    let args = collector.reg_query_args(&plan.1, &plan.2, &plan.3);
    assert_eq!(
        args,
        vec!["query", "HKLM\\SOFTWARE\\Microsoft\\Windows NT\\CurrentVersion", "/v", "CurrentBuild"]
    );
    let out = output(
        0,
        "\nHKEY_LOCAL_MACHINE\\SOFTWARE\\Microsoft\\Windows NT\\CurrentVersion\n    CurrentBuild    REG_SZ    26100\n\n",
        "",
    );
    let d = collector.collect_via_reg(&obj, &plan.1, &plan.2, &plan.3, &out).unwrap();
    assert!(is_bool(field(&d, "exists"), true));
    assert!(is_str(field(&d, "type"), "reg_sz"));
    assert!(is_str(field(&d, "value"), "26100"));

    let dword = output(0, "    Flag    REG_DWORD    0x1f\n", "");
    let d = collector.collect_via_reg(&obj, "HKLM", "K", "Flag", &dword).unwrap();
    assert!(is_str(field(&d, "value"), "31"));

    let missing = collector.collect_via_reg(&obj, "HKLM", "K", "N", &output(1, "", "ERROR")).unwrap();
    assert!(is_bool(field(&missing, "exists"), false));
    assert!(is_str(field(&missing, "value"), ""));
    assert!(matches!(
        collector.collect_via_reg(&obj, "HKLM", "K", "N", &output(5, "", "ERROR: Access is denied.")),
        Err(CollectionError::AccessDenied { .. })
    ));
}

#[test]
fn registry_powershell_collection() {
    let collector = RegistryCollector::new();
    let obj = object("x", vec![]);
    let d = collector.collect_via_powershell(&obj, "HKLM", "K", "N", &output(0, " 1\r\n", "")).unwrap();
    assert!(is_bool(field(&d, "exists"), true));
    assert!(is_str(field(&d, "value"), "1"));
    let missing = collector
        .collect_via_powershell(&obj, "HKLM", "K", "N", &output(1, "", "Property N does not exist"))
        .unwrap();
    assert!(is_bool(field(&missing, "exists"), false));
    assert!(matches!(
        collector.collect_via_powershell(&obj, "HKLM", "K", "N", &output(1, "", "boom")),
        Err(CollectionError::CollectionFailed { .. })
    ));
}

// ---------------------------------------------------------------------------
// Registry subkeys collector
// ---------------------------------------------------------------------------

#[test]
fn registry_subkeys_test_collector_creation() {
    let collector = RegistrySubkeysCollector::new();
    assert_eq!(collector.collector_id(), "windows_registry_subkeys_collector");
    assert!(collector.supported_ctn_types().contains(&"registry_subkeys".to_string()));
}

#[test]
fn registry_subkeys_test_collector_with_custom_id() {
    let collector = RegistrySubkeysCollector::with_id("custom_id");
    assert_eq!(collector.collector_id(), "custom_id");
}

#[test]
fn registry_subkeys_test_normalize_hive() {
    let collector = RegistrySubkeysCollector::new();
    assert_eq!(collector.normalize_hive_for_reg("HKEY_LOCAL_MACHINE"), "HKLM");
    assert_eq!(collector.normalize_hive_for_reg("HKLM"), "HKLM");
    assert_eq!(collector.normalize_hive_for_reg("hkey_current_user"), "HKCU");
}

#[test]
fn test_parse_reg_subkeys_output() {
    let collector = RegistrySubkeysCollector::new();
    let output = r#"
HKEY_LOCAL_MACHINE\SOFTWARE\Microsoft\Cryptography\Calais\Readers
    (Default)    REG_SZ    (value not set)

HKEY_LOCAL_MACHINE\SOFTWARE\Microsoft\Cryptography\Calais\Readers\SubKey1

HKEY_LOCAL_MACHINE\SOFTWARE\Microsoft\Cryptography\Calais\Readers\SubKey2
"#;
    let parent = "HKEY_LOCAL_MACHINE\\SOFTWARE\\Microsoft\\Cryptography\\Calais\\Readers";
    let subkeys = collector.parse_reg_subkeys_output(output, parent);
    assert_eq!(subkeys.len(), 2);
    assert!(subkeys.contains(&"SubKey1".to_string()));
    assert!(subkeys.contains(&"SubKey2".to_string()));
}

#[test]
fn test_parse_reg_subkeys_empty() {
    let collector = RegistrySubkeysCollector::new();
    let output = r#"
HKEY_LOCAL_MACHINE\SOFTWARE\Microsoft\Cryptography\Calais\Readers
    SomeValue    REG_SZ    SomeData
"#;
    let parent = "HKLM\\SOFTWARE\\Microsoft\\Cryptography\\Calais\\Readers";
    let subkeys = collector.parse_reg_subkeys_output(output, parent);
    assert!(subkeys.is_empty());
}

#[test]
fn test_parse_powershell_subkeys_output() {
    let collector = RegistrySubkeysCollector::new();
    let output = "SubKey1\nSubKey2\nSubKey3\n";
    let subkeys = collector.parse_powershell_subkeys_output(output);
    assert_eq!(subkeys.len(), 3);
    assert_eq!(subkeys.first(), Some(&"SubKey1".to_string()));
    assert_eq!(subkeys.get(1), Some(&"SubKey2".to_string()));
    assert_eq!(subkeys.get(2), Some(&"SubKey3".to_string()));
}

#[test]
fn test_parse_powershell_subkeys_empty() {
    let collector = RegistrySubkeysCollector::new();
    let subkeys = collector.parse_powershell_subkeys_output("");
    assert!(subkeys.is_empty());
}

#[test]
fn registry_subkeys_test_supports_batch_collection() {
    let collector = RegistrySubkeysCollector::new();
    assert!(!collector.supports_batch_collection());
}

#[test]
fn subkeys_collection_counts_and_joins() {
    let collector = RegistrySubkeysCollector::new();
    let obj = object("readers", vec![]);
    let out = output(
        0,
        "\nHKEY_LOCAL_MACHINE\\SOFTWARE\\R\nHKEY_LOCAL_MACHINE\\SOFTWARE\\R\\A\nHKEY_LOCAL_MACHINE\\SOFTWARE\\R\\B\\C\nhkey_local_machine\\software\\r\\D\n",
        "",
    );
    let d = collector.collect_via_reg(&obj, "HKEY_LOCAL_MACHINE", "SOFTWARE\\R", &out).unwrap();
    assert!(is_bool(field(&d, "exists"), true));
    assert!(is_int(field(&d, "subkey_count"), 2));
    assert!(is_str(field(&d, "subkeys"), "A,D"));
    let d = collector.collect_via_reg(&obj, "HKLM", "SOFTWARE\\R", &output(0, "HKLM\\SOFTWARE\\R\\A\nHKLM\\SOFTWARE\\R\\B\n", "")).unwrap();
    assert!(is_int(field(&d, "subkey_count"), 2));
    assert!(is_str(field(&d, "subkeys"), "A,B"));
    let ps = collector.collect_via_powershell(&obj, "HKLM", "K", &output(0, "X\n\n  Y  \n", "")).unwrap();
    assert!(is_int(field(&ps, "subkey_count"), 2));
    assert!(is_str(field(&ps, "subkeys"), "X,Y"));
    let missing = collector.collect_via_reg(&obj, "HKLM", "K", &output(1, "", "")).unwrap();
    assert!(is_bool(field(&missing, "exists"), false));
    assert!(is_int(field(&missing, "subkey_count"), 0));
    assert_eq!(
        collector.powershell_command("HKEY_CURRENT_USER", "Software"),
        "Get-ChildItem -Path 'HKCU:\\Software' -ErrorAction SilentlyContinue | Select-Object -ExpandProperty PSChildName"
    );
}

// ---------------------------------------------------------------------------
// TCP listener and computed values collectors
// ---------------------------------------------------------------------------

#[test]
fn test_collector_id() {
    let collector = TcpListenerCollector::new();
    assert_eq!(collector.collector_id(), "tcp_listener_collector");
}

#[test]
fn test_supported_ctn_types() {
    let collector = TcpListenerCollector::new();
    assert_eq!(collector.supported_ctn_types(), vec!["tcp_listener"]);
}

#[test]
fn tcp_listener_port_and_host() {
    let collector = TcpListenerCollector::new();
    let contract = CtnContract::new("tcp_listener".to_string());
    let obj = object("ssh", vec![("port", ResolvedValue::Integer(22)), ("host", s("ANY"))]);
    let plan = collector.collect_for_ctn_with_hints(&obj, &contract, &BehaviorHints::empty()).unwrap();
    assert_eq!(plan.0, 22);
    assert!(plan.1.is_none());
    let obj = object("web", vec![("port", s("8080")), ("host", s("127.0.0.1"))]);
    let plan = collector.collect_for_ctn_with_hints(&obj, &contract, &BehaviorHints::empty()).unwrap();
    assert_eq!(plan, (8080, Some("127.0.0.1".to_string())));
    let bad = object("bad", vec![("port", ResolvedValue::Integer(70000))]);
    assert!(collector.extract_port(&bad).is_err());
    let bad = object("bad", vec![("port", s("x"))]);
    assert!(collector.extract_port(&bad).is_err());
    let none = object("none", vec![]);
    assert!(collector.extract_port(&none).is_err());
    let wrong = CtnContract::new("service".to_string());
    assert!(matches!(
        collector.collect_for_ctn_with_hints(&obj, &wrong, &BehaviorHints::empty()),
        Err(CollectionError::CtnContractValidation { .. })
    ));

    let result = TcpListenerResult {
        listening: true,
        local_address: Some("0.0.0.0:22".to_string()),
        error: None,
    };
    let d = collector.finish_collection(&obj, 22, &None, result, false).unwrap();
    assert!(is_bool(field(&d, "listening"), true));
    assert!(is_str(field(&d, "local_address"), "0.0.0.0:22"));
    let failed = TcpListenerResult { listening: false, local_address: None, error: Some("no table".to_string()) };
    assert!(matches!(
        collector.finish_collection(&obj, 22, &None, failed, false),
        Err(CollectionError::CollectionFailed { ref reason, .. }) if reason == "no table"
    ));
}

#[test]
fn computed_values_collector_records_method_only() {
    let collector = ComputedValuesCollector::new();
    assert_eq!(collector.collector_id(), "computed_values_collector");
    let obj = object("c", vec![]);
    let contract = CtnContract::new("computed_values".to_string());
    let d = collector.collect_for_ctn_with_hints(&obj, &contract, &BehaviorHints::empty()).unwrap();
    assert!(d.fields.is_empty());
    assert!(d.method.is_some());
    assert!(collector.validate_ctn_compatibility(&contract).is_ok());
}

// ---------------------------------------------------------------------------
// Command collector
// ---------------------------------------------------------------------------

#[test]
fn rpm_output_parsing() {
    let collector = CommandCollector::new("cmd");
    assert_eq!(
        collector.parse_rpm_output("openssl-libs-3.0.7-27.el9.x86_64\n"),
        Some(("openssl-libs".to_string(), "27.el9.x86_64".to_string()))
    );
    assert_eq!(collector.parse_rpm_output("package foo is not installed"), None);
    assert_eq!(collector.parse_rpm_output(""), None);
    assert_eq!(collector.parse_rpm_output("single"), Some(("single".to_string(), String::new())));
    assert_eq!(collector.parse_rpm_output("one-dash"), Some(("one-dash".to_string(), String::new())));
}

#[test]
fn command_collector_plans_and_collects() {
    let collector = CommandCollector::new("cmd");
    assert!(collector.supports_batch_collection());
    let obj = object("pkg", vec![("package_name", s("openssl"))]);
    let contract = CtnContract::new("rpm_package".to_string());
    assert!(matches!(
        collector.collect_for_ctn_with_hints(&obj, &contract, &BehaviorHints::empty()),
        Ok(CommandPlan::RpmPackage(ref p)) if p == "openssl"
    ));
    let other = CtnContract::new("kernel".to_string());
    assert!(matches!(
        collector.collect_for_ctn_with_hints(&obj, &other, &BehaviorHints::empty()),
        Err(CollectionError::UnsupportedCtnType { .. })
    ));
    assert!(collector.validate_ctn_compatibility(&other).is_err());

    let d = collector.collect_rpm_package(&obj, "openssl", &output(0, "openssl-3.0.7-27.el9.x86_64\n", "")).unwrap();
    assert!(is_bool(field(&d, "installed"), true));
    assert!(is_str(field(&d, "version"), "27.el9.x86_64"));
    let d = collector.collect_rpm_package(&obj, "openssl", &output(1, "package openssl is not installed", "")).unwrap();
    assert!(is_bool(field(&d, "installed"), false));
    assert!(field(&d, "version").is_none());

    let active = output(0, "active\n", "");
    assert!(matches!(collector.collect_systemd_service(&obj, "sshd", &active, None), CollectionStep::NeedNext));
    let enabled = output(1, "disabled\n", "");
    match collector.collect_systemd_service(&obj, "sshd", &active, Some(&enabled)) {
        CollectionStep::Done(Ok(d)) => {
            assert!(is_bool(field(&d, "active"), true));
            assert!(is_bool(field(&d, "enabled"), false));
            assert!(is_bool(field(&d, "loaded"), true));
        },
        _ => panic!("expected data"),
    }

    let d = collector.collect_sysctl_parameter(&obj, "net.ipv4.ip_forward", &output(0, "0\n", "")).unwrap();
    assert!(is_str(field(&d, "value"), "0"));
    assert!(is_int(field(&d, "value_int"), 0));
    let d = collector.collect_sysctl_parameter(&obj, "kernel.x", &output(0, "a b\n", "")).unwrap();
    assert!(field(&d, "value_int").is_none());

    let d = collector.collect_selinux_status(&obj, &output(0, "Enforcing\n", "")).unwrap();
    assert!(is_str(field(&d, "mode"), "Enforcing"));
    assert!(is_bool(field(&d, "enforcing"), true));
    let d = collector.collect_selinux_status(&obj, &output(1, "", "")).unwrap();
    assert!(d.fields.is_empty());

    let hints = BehaviorHints { parameters: vec![("timeout".to_string(), "30".to_string())], flags: vec![] };
    assert_eq!(CommandCollector::timeout_secs(&hints), Some(30));
    assert_eq!(CommandCollector::timeout_secs(&BehaviorHints::empty()), None);
}

#[test]
fn rpm_batch_collection() {
    let collector = CommandCollector::new("cmd");
    let contract = CtnContract::new("rpm_package".to_string());
    let objects = vec![
        object("a", vec![("package_name", s("bash"))]),
        object("b", vec![("package_name", s("zsh"))]),
    ];
    let listing = output(0, "bash-5.1.8-6.el9.x86_64\ncoreutils-8.32-34.el9.x86_64\n", "");
    let results = collector.collect_batch(&objects, &contract, &listing).unwrap();
    assert_eq!(results.len(), 2);
    assert_eq!(results[0].0, "a");
    assert!(is_bool(field(&results[0].1, "installed"), true));
    assert!(is_str(field(&results[0].1, "version"), "6.el9.x86_64"));
    assert!(is_bool(field(&results[1].1, "installed"), false));
    let other = CtnContract::new("selinux_status".to_string());
    assert!(collector.collect_batch(&objects, &other, &listing).is_err());
}

#[test]
fn behavior_hints_lookups() {
    let hints = BehaviorHints {
        parameters: vec![
            ("executor".to_string(), "reg".to_string()),
            ("executor".to_string(), "powershell".to_string()),
        ],
        flags: vec!["recursive_scan".to_string()],
    };
    assert_eq!(hints.get_parameter("executor"), Some("powershell".to_string()));
    assert_eq!(hints.get_parameter("timeout"), None);
    assert!(hints.has_flag("recursive_scan"));
    assert!(!hints.has_flag("binary_mode"));
}
