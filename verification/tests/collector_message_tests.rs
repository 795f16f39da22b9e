use esp_agent::collectors::command::{CollectionStep, CommandCollector};
use esp_agent::collectors::computed_values::ComputedValuesCollector;
use esp_agent::collectors::registry_subkeys::RegistrySubkeysCollector;
use esp_agent::collectors::service::{ScStep, ServiceCollector};
use esp_agent::collectors::tcp_listener::TcpListenerCollector;
use esp_agent::collectors::BehaviorHints;
use esp_agent::commands::tcp_listener::TcpListenerResult;
use esp_agent::contract::CtnContract;
use esp_agent::model::{
    CollectedData, CollectionError, CollectionMethodType, CommandOutput, ExecutableObject,
    ObjectField, ResolvedValue,
};

fn object(id: &str, fields: Vec<(&str, ResolvedValue)>) -> ExecutableObject {
    ExecutableObject {
        identifier: id.to_string(),
        fields: fields
            .into_iter()
            .map(|(n, v)| ObjectField { name: n.to_string(), value: v })
            .collect(),
    }
}

fn s(v: &str) -> ResolvedValue {
    ResolvedValue::String(v.to_string())
}

fn output(code: i32, stdout: &str, stderr: &str) -> Result<CommandOutput, String> {
    Ok(CommandOutput { exit_code: code, stdout: stdout.to_string(), stderr: stderr.to_string() })
}

fn failed_reason(e: CollectionError) -> String {
    match e {
        CollectionError::CollectionFailed { reason, .. } => reason,
        other => panic!("expected a failed collection, got {:?}", other),
    }
}

fn denied_reason(e: CollectionError) -> String {
    match e {
        CollectionError::AccessDenied { reason, .. } => reason,
        other => panic!("expected denied access, got {:?}", other),
    }
}

fn config_reason(e: CollectionError) -> String {
    match e {
        CollectionError::InvalidObjectConfiguration { reason, .. } => reason,
        other => panic!("expected an invalid configuration, got {:?}", other),
    }
}

fn method_of(d: &CollectedData) -> (CollectionMethodType, String, Option<String>, Option<String>, Vec<(String, String)>) {
    let m = d.method.as_ref().expect("method recorded");
    (m.method_type, m.description.clone(), m.target.clone(), m.command.clone(), m.inputs.clone())
}

fn pairs(v: &[(&str, &str)]) -> Vec<(String, String)> {
    v.iter().map(|(a, b)| (a.to_string(), b.to_string())).collect()
}

#[test]
fn subkeys_reg_errors_and_method() {
    let c = RegistrySubkeysCollector::new();
    let obj = object("k", vec![]);
    let not_run: Result<CommandOutput, String> = Err("no reg".to_string());
    assert_eq!(
        failed_reason(c.collect_via_reg(&obj, "HKEY_LOCAL_MACHINE", "SOFTWARE", &not_run).unwrap_err()),
        "reg.exe execution failed: no reg"
    );
    assert_eq!(
        failed_reason(c.collect_via_reg(&obj, "HKLM", "SOFTWARE", &output(2, "", "bad")).unwrap_err()),
        "reg.exe failed with exit code 2: bad"
    );
    assert_eq!(
        denied_reason(
            c.collect_via_reg(&obj, "hklm", "SOFTWARE", &output(5, "", "ERROR: Access is denied.")).unwrap_err()
        ),
        "Access denied to registry key: HKLM\\SOFTWARE"
    );
    let d = c.collect_via_reg(&obj, "HKLM", "SOFTWARE\\X", &output(0, "", "")).unwrap();
    assert_eq!(
        method_of(&d),
        (
            CollectionMethodType::RegistryQuery,
            "Enumerate registry subkeys via reg.exe".to_string(),
            Some("HKLM\\SOFTWARE\\X".to_string()),
            Some("reg query \"HKLM\\SOFTWARE\\X\"".to_string()),
            pairs(&[("hive", "HKLM"), ("key", "SOFTWARE\\X"), ("executor", "reg")]),
        )
    );
}

#[test]
fn subkeys_powershell_errors_and_method() {
    let c = RegistrySubkeysCollector::new();
    let obj = object("k", vec![]);
    assert_eq!(
        failed_reason(c.collect_via_powershell(&obj, "HKCU", "Software", &output(1, "", "boom")).unwrap_err()),
        "PowerShell failed with exit code 1: boom"
    );
    assert_eq!(
        denied_reason(
            c.collect_via_powershell(&obj, "HKCU", "Software", &output(1, "", "Access DENIED")).unwrap_err()
        ),
        "Access denied to registry key: HKCU\\Software"
    );
    let missing = c.collect_via_powershell(&obj, "HKCU", "Nope", &output(1, "", "Cannot find path")).unwrap();
    assert!(matches!(missing.get_field("exists"), Some(ResolvedValue::Boolean(false))));
    let d = c.collect_via_powershell(&obj, "HKCU", "Software", &output(0, "A\nB\n", "")).unwrap();
    let (t, desc, target, command, inputs) = method_of(&d);
    assert_eq!(t, CollectionMethodType::RegistryQuery);
    assert_eq!(desc, "Enumerate registry subkeys via PowerShell Get-ChildItem");
    assert_eq!(target, Some("HKCU:\\Software".to_string()));
    assert_eq!(
        command,
        Some(
            "powershell -NoProfile -NonInteractive -Command \"Get-ChildItem -Path 'HKCU:\\Software' -ErrorAction SilentlyContinue | Select-Object -ExpandProperty PSChildName\""
                .to_string()
        )
    );
    assert_eq!(inputs, pairs(&[("hive", "HKCU"), ("key", "Software"), ("executor", "powershell")]));
}

#[test]
fn service_sc_messages() {
    let c = ServiceCollector::new();
    let obj = object("svc", vec![]);
    let expect_failed = |step: ScStep| match step {
        ScStep::Done(Err(e)) => failed_reason(e),
        _ => panic!("expected an error"),
    };
    let not_run: Result<CommandOutput, String> = Err("spawn".to_string());
    assert_eq!(expect_failed(c.collect_via_sc(&obj, "X", &not_run, None)), "sc.exe query execution failed: spawn");
    assert_eq!(
        expect_failed(c.collect_via_sc(&obj, "X", &output(2, "", "boom"), None)),
        "sc.exe query failed with exit code 2: boom"
    );
    assert_eq!(
        expect_failed(c.collect_via_sc(&obj, "X", &output(0, "nothing", ""), None)),
        "Failed to parse sc.exe query output"
    );
    match c.collect_via_sc(&obj, "X", &output(5, "Access is denied.", ""), None) {
        ScStep::Done(Err(e)) => assert_eq!(denied_reason(e), "Access denied querying service: X"),
        _ => panic!("expected denied access"),
    }
    let running = output(0, "SERVICE_NAME: X\n        STATE              : 4  RUNNING\n", "");
    assert_eq!(
        expect_failed(c.collect_via_sc(&obj, "X", &running, Some(&output(3, "", "qc boom")))),
        "sc.exe qc failed with exit code 3: qc boom"
    );
    assert_eq!(
        expect_failed(c.collect_via_sc(&obj, "X", &running, Some(&output(0, "junk", "")))),
        "Failed to parse sc.exe qc output"
    );
    let qc_not_run: Result<CommandOutput, String> = Err("gone".to_string());
    assert_eq!(
        expect_failed(c.collect_via_sc(&obj, "X", &running, Some(&qc_not_run))),
        "sc.exe qc execution failed: gone"
    );
    match c.collect_via_sc(&obj, "X", &running, Some(&output(5, "Access is denied.", ""))) {
        ScStep::Done(Err(e)) => assert_eq!(denied_reason(e), "Access denied querying service configuration: X"),
        _ => panic!("expected denied access"),
    }
    let qc = output(0, "        START_TYPE         : 2   AUTO_START\n", "");
    match c.collect_via_sc(&obj, "X", &running, Some(&qc)) {
        ScStep::Done(Ok(d)) => assert_eq!(
            method_of(&d),
            (
                CollectionMethodType::Command,
                "Query Windows service state and configuration via sc.exe".to_string(),
                Some("X".to_string()),
                Some("sc.exe query \"X\"; sc.exe qc \"X\"".to_string()),
                pairs(&[("service_name", "X"), ("executor", "sc")]),
            )
        ),
        _ => panic!("expected data"),
    }
}

#[test]
fn service_powershell_messages() {
    let c = ServiceCollector::new();
    let obj = object("svc", vec![]);
    let not_run: Result<CommandOutput, String> = Err("spawn".to_string());
    assert_eq!(
        failed_reason(c.collect_via_powershell(&obj, "X", &not_run).unwrap_err()),
        "PowerShell execution failed: spawn"
    );
    assert_eq!(
        failed_reason(c.collect_via_powershell(&obj, "X", &output(1, "", "broken")).unwrap_err()),
        "PowerShell failed with exit code 1: broken"
    );
    assert_eq!(
        denied_reason(c.collect_via_powershell(&obj, "X", &output(1, "", "access is denied")).unwrap_err()),
        "Access denied querying service: X"
    );
    let bad = failed_reason(c.collect_via_powershell(&obj, "X", &output(0, "{oops", "")).unwrap_err());
    assert!(bad.starts_with("Failed to parse PowerShell JSON output: "));
    assert!(bad.len() > "Failed to parse PowerShell JSON output: ".len());
    let d = c.collect_via_powershell(&obj, "X", &output(0, "null", "")).unwrap();
    let (t, desc, target, _command, inputs) = method_of(&d);
    assert_eq!(t, CollectionMethodType::WmiQuery);
    assert_eq!(desc, "Query Windows service via PowerShell Get-CimInstance (WMI)");
    assert_eq!(target, Some("X".to_string()));
    assert_eq!(
        inputs,
        pairs(&[("service_name", "X"), ("executor", "powershell"), ("wmi_class", "Win32_Service")])
    );
}

#[test]
fn service_plan_messages() {
    let c = ServiceCollector::new();
    let contract = CtnContract::new("service".to_string());
    let mut hints = BehaviorHints::empty();
    hints.parameters.push(("executor".to_string(), "wmic".to_string()));
    let obj = object("svc", vec![("name", s("X"))]);
    assert_eq!(
        config_reason(c.collect_for_ctn_with_hints(&obj, &contract, &hints).unwrap_err()),
        "Invalid executor 'wmic'. Valid values: sc, powershell"
    );
    let unnamed = object("svc", vec![]);
    assert_eq!(
        config_reason(c.collect_for_ctn_with_hints(&unnamed, &contract, &BehaviorHints::empty()).unwrap_err()),
        "Missing required field 'name'"
    );
    let numbered = object("svc", vec![("name", ResolvedValue::Integer(3))]);
    assert_eq!(
        config_reason(c.collect_for_ctn_with_hints(&numbered, &contract, &BehaviorHints::empty()).unwrap_err()),
        "Field 'name' must be a string"
    );
    match c.validate_ctn_compatibility(&CtnContract::new("registry".to_string())) {
        Err(CollectionError::CtnContractValidation { reason }) => {
            assert_eq!(reason, "Incompatible CTN type: expected 'service', got 'registry'")
        },
        _ => panic!("expected a refusal"),
    }
}

#[test]
fn command_field_messages() {
    let c = CommandCollector::new("cmd");
    let obj = object("p", vec![("package_name", ResolvedValue::Integer(7))]);
    assert_eq!(
        config_reason(c.extract_field(&obj, "package_name").unwrap_err()),
        "Field 'package_name' must be a string, got Integer(7)"
    );
    let obj = object("p", vec![("package_name", ResolvedValue::Boolean(true))]);
    assert_eq!(
        config_reason(c.extract_field(&obj, "package_name").unwrap_err()),
        "Field 'package_name' must be a string, got Boolean(true)"
    );
    let obj = object("p", vec![]);
    assert_eq!(
        config_reason(c.extract_field(&obj, "package_name").unwrap_err()),
        "Missing required field 'package_name'"
    );
    match c.validate_ctn_compatibility(&CtnContract::new("registry".to_string())) {
        Err(CollectionError::CtnContractValidation { reason }) => {
            assert_eq!(reason, "CTN type 'registry' not supported")
        },
        _ => panic!("expected a refusal"),
    }
    match c.collect_for_ctn_with_hints(&obj, &CtnContract::new("registry".to_string()), &BehaviorHints::empty()) {
        Err(CollectionError::UnsupportedCtnType { ctn_type, collector_id }) => {
            assert_eq!(ctn_type, "registry");
            assert_eq!(collector_id, "cmd");
        },
        _ => panic!("expected an unsupported type"),
    }
}

#[test]
fn command_collection_messages_and_methods() {
    let c = CommandCollector::new("cmd");
    let obj = object("p", vec![]);
    let not_run: Result<CommandOutput, String> = Err("no rpm".to_string());
    assert_eq!(failed_reason(c.collect_rpm_package(&obj, "bash", &not_run).unwrap_err()), "RPM command failed: no rpm");
    assert_eq!(failed_reason(c.collect_sysctl_parameter(&obj, "a.b", &not_run).unwrap_err()), "sysctl failed: no rpm");
    assert_eq!(failed_reason(c.collect_selinux_status(&obj, &not_run).unwrap_err()), "getenforce failed: no rpm");
    match c.collect_systemd_service(&obj, "sshd", &not_run, None) {
        CollectionStep::Done(Err(e)) => assert_eq!(failed_reason(e), "systemctl is-active failed: no rpm"),
        _ => panic!("expected an error"),
    }
    let active = output(0, "active\n", "");
    match c.collect_systemd_service(&obj, "sshd", &active, Some(&not_run)) {
        CollectionStep::Done(Err(e)) => assert_eq!(failed_reason(e), "systemctl is-enabled failed: no rpm"),
        _ => panic!("expected an error"),
    }
    match c.collect_systemd_service(&obj, "sshd", &active, Some(&output(0, "enabled\n", ""))) {
        CollectionStep::Done(Ok(d)) => assert_eq!(
            method_of(&d),
            (
                CollectionMethodType::Command,
                "Query systemd service status".to_string(),
                Some("sshd".to_string()),
                Some("systemctl is-active sshd; systemctl is-enabled sshd".to_string()),
                pairs(&[("service_name", "sshd")]),
            )
        ),
        _ => panic!("expected data"),
    }
    let d = c.collect_rpm_package(&obj, "bash", &output(0, "bash-5.1.8-6.el9.x86_64\n", "")).unwrap();
    assert_eq!(d.method.as_ref().unwrap().command, Some("rpm -q bash".to_string()));
    let d = c.collect_selinux_status(&obj, &output(0, "Enforcing\n", "")).unwrap();
    assert_eq!(
        method_of(&d),
        (
            CollectionMethodType::Command,
            "Query SELinux enforcement status".to_string(),
            Some("selinux".to_string()),
            Some("getenforce".to_string()),
            Vec::new(),
        )
    );
}

#[test]
fn rpm_batch_first_bad_object_ends_batch() {
    let c = CommandCollector::new("cmd");
    let contract = CtnContract::new("rpm_package".to_string());
    let objects = vec![
        object("a", vec![("package_name", s("bash"))]),
        object("b", vec![("package_name", ResolvedValue::Integer(1))]),
        object("c", vec![]),
    ];
    let e = c.collect_batch(&objects, &contract, &output(0, "bash-5.1-1.x86_64\n", "")).unwrap_err();
    match e {
        CollectionError::InvalidObjectConfiguration { object_id, reason } => {
            assert_eq!(object_id, "b");
            assert_eq!(reason, "Field 'package_name' must be a string, got Integer(1)");
        },
        other => panic!("unexpected {:?}", other),
    }
    let not_run: Result<CommandOutput, String> = Err("x".to_string());
    match c.collect_batch(&objects, &contract, &not_run).unwrap_err() {
        CollectionError::CollectionFailed { object_id, reason } => {
            assert_eq!(object_id, "batch");
            assert_eq!(reason, "RPM batch command failed: x");
        },
        other => panic!("unexpected {:?}", other),
    }
}

#[test]
fn tcp_port_messages() {
    let c = TcpListenerCollector::new();
    let reason = |fields: Vec<(&str, ResolvedValue)>| config_reason(c.extract_port(&object("t", fields)).unwrap_err());
    assert_eq!(reason(vec![("port", ResolvedValue::Integer(0))]), "Port 0 out of range (1-65535)");
    assert_eq!(reason(vec![("port", ResolvedValue::Integer(-4))]), "Port -4 out of range (1-65535)");
    assert_eq!(reason(vec![("port", s("70000"))]), "Invalid port number: 70000");
    assert_eq!(reason(vec![("port", ResolvedValue::Boolean(false))]), "Port must be an integer, got Boolean(false)");
    assert_eq!(
        reason(vec![("port", ResolvedValue::Version("1.0".to_string()))]),
        "Port must be an integer, got Version(\"1.0\")"
    );
    assert_eq!(reason(vec![]), "Missing required field 'port'");
    assert_eq!(c.extract_port(&object("t", vec![("port", s("+443"))])).unwrap(), 443);
}

#[test]
fn tcp_method_records_platform_and_host() {
    let c = TcpListenerCollector::new();
    let obj = object("t", vec![]);
    let result = TcpListenerResult { listening: false, local_address: None, error: None };
    let d = c.finish_collection(&obj, 8080, &Some("127.0.0.1".to_string()), result, false).unwrap();
    assert_eq!(
        method_of(&d),
        (
            CollectionMethodType::SocketInspection,
            "Check TCP port listener state via /proc/net/tcp".to_string(),
            Some("tcp:8080".to_string()),
            None,
            pairs(&[("port", "8080"), ("host_filter", "127.0.0.1")]),
        )
    );
    let result = TcpListenerResult { listening: true, local_address: None, error: None };
    let d = c.finish_collection(&obj, 22, &None, result, true).unwrap();
    let (_, desc, _, _, inputs) = method_of(&d);
    assert_eq!(desc, "Check TCP port listener state via Windows IP Helper API");
    assert_eq!(inputs, pairs(&[("port", "22")]));
}

#[test]
fn computed_values_method_record() {
    let c = ComputedValuesCollector::new();
    let contract = CtnContract::new("computed_values".to_string());
    let d = c.collect_for_ctn_with_hints(&object("c", vec![]), &contract, &BehaviorHints::empty()).unwrap();
    assert_eq!(
        method_of(&d),
        (
            CollectionMethodType::Computed,
            "Computed value - no actual system collection performed".to_string(),
            None,
            None,
            Vec::new(),
        )
    );
    match c.validate_ctn_compatibility(&CtnContract::new("x".to_string())) {
        Err(CollectionError::CtnContractValidation { reason }) => {
            assert_eq!(reason, "Incompatible CTN type: expected 'computed_values', got 'x'")
        },
        _ => panic!("expected a refusal"),
    }
}

#[test]
fn tcp_string_port_out_of_range() {
    let c = TcpListenerCollector::new();
    let reason = |v: &str| config_reason(c.extract_port(&object("t", vec![("port", s(v))])).unwrap_err());
    assert_eq!(reason("0"), "Invalid port number: 0");
    assert_eq!(reason("65536"), "Invalid port number: 65536");
    assert_eq!(c.extract_port(&object("t", vec![("port", s("65535"))])).unwrap(), 65535);
}

#[test]
fn subkeys_reg_output_with_long_hive_names() {
    let c = RegistrySubkeysCollector::new();
    let obj = object("readers", vec![]);
    let k = "HKEY_LOCAL_MACHINE\\SOFTWARE\\Microsoft\\Cryptography\\Calais\\Readers";
    let stdout = format!(
        "{k}\n    (Default)    REG_SZ    (value not set)\n\n{k}\\Alcor Micro USB Smart Card Reader 0\n\n{k}\\Microsoft Virtual Smart Card 0\n"
    );
    for hive in ["HKEY_LOCAL_MACHINE", "HKLM", "hklm"] {
        let d = c
            .collect_via_reg(&obj, hive, "SOFTWARE\\Microsoft\\Cryptography\\Calais\\Readers", &output(0, &stdout, ""))
            .unwrap();
        assert!(matches!(d.get_field("exists"), Some(ResolvedValue::Boolean(true))));
        assert!(matches!(d.get_field("subkey_count"), Some(ResolvedValue::Integer(2))));
        assert!(matches!(
            d.get_field("subkeys"),
            Some(ResolvedValue::String(v)) if v == "Alcor Micro USB Smart Card Reader 0,Microsoft Virtual Smart Card 0"
        ));
    }
}
