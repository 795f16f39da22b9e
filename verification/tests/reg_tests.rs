use esp_agent::commands::powershell::{
    build_registry_value_args, normalize_hive_for_powershell, parse_powershell_output,
};
use esp_agent::commands::reg::{normalize_reg_type, normalize_reg_value, parse_reg_output};

#[test]
fn test_parse_reg_output_string() {
    let output = r#"
HKEY_LOCAL_MACHINE\SOFTWARE\Microsoft\Windows NT\CurrentVersion
    CurrentBuildNumber    REG_SZ    26100
"#;
    let result = parse_reg_output(output);
    assert!(result.is_some(), "Expected valid parse result");
    let (reg_type, value) = result.unwrap_or_default();
    assert_eq!(reg_type, "REG_SZ");
    assert_eq!(value, "26100");
}

#[test]
fn test_parse_reg_output_dword() {
    let output = r#"
HKEY_LOCAL_MACHINE\SOFTWARE\Policies\Microsoft\Windows\DataCollection
    AllowTelemetry    REG_DWORD    0x2
"#;
    let result = parse_reg_output(output);
    assert!(result.is_some(), "Expected valid parse result");
    let (reg_type, value) = result.unwrap_or_default();
    assert_eq!(reg_type, "REG_DWORD");
    assert_eq!(value, "0x2");
}

#[test]
fn test_parse_reg_output_with_spaces_in_value() {
    let output = r#"
HKEY_LOCAL_MACHINE\SOFTWARE\Microsoft\Windows NT\CurrentVersion
    ProductName    REG_SZ    Windows 11 Pro
"#;
    let result = parse_reg_output(output);
    assert!(result.is_some(), "Expected valid parse result");
    let (reg_type, value) = result.unwrap_or_default();
    assert_eq!(reg_type, "REG_SZ");
    assert_eq!(value, "Windows 11 Pro");
}

#[test]
fn test_normalize_reg_type() {
    assert_eq!(normalize_reg_type("REG_SZ"), "reg_sz");
    assert_eq!(normalize_reg_type("REG_DWORD"), "reg_dword");
    assert_eq!(normalize_reg_type("REG_QWORD"), "reg_qword");
}

#[test]
fn test_normalize_reg_value_dword_hex() {
    assert_eq!(normalize_reg_value("REG_DWORD", "0x1"), "1");
    assert_eq!(normalize_reg_value("REG_DWORD", "0x0"), "0");
    assert_eq!(normalize_reg_value("REG_DWORD", "0xff"), "255");
    assert_eq!(normalize_reg_value("REG_DWORD", "0xFF"), "255");
    assert_eq!(normalize_reg_value("REG_DWORD", "0x100"), "256");
}

#[test]
fn test_normalize_reg_value_qword_hex() {
    assert_eq!(normalize_reg_value("REG_QWORD", "0x1"), "1");
    assert_eq!(normalize_reg_value("REG_QWORD", "0xffffffff"), "4294967295");
}

#[test]
fn test_normalize_reg_value_string_unchanged() {
    assert_eq!(normalize_reg_value("REG_SZ", "hello"), "hello");
    assert_eq!(
        normalize_reg_value("REG_SZ", "Windows 11 Pro"),
        "Windows 11 Pro"
    );
    assert_eq!(normalize_reg_value("REG_EXPAND_SZ", "%PATH%"), "%PATH%");
}

#[test]
fn test_normalize_reg_value_decimal_passthrough() {
    assert_eq!(normalize_reg_value("REG_DWORD", "42"), "42");
}

#[test]
fn test_normalize_hive_full_names() {
    assert_eq!(normalize_hive_for_powershell("HKEY_LOCAL_MACHINE"), "HKLM");
    assert_eq!(normalize_hive_for_powershell("HKEY_CURRENT_USER"), "HKCU");
    assert_eq!(normalize_hive_for_powershell("HKEY_CLASSES_ROOT"), "HKCR");
    assert_eq!(normalize_hive_for_powershell("HKEY_USERS"), "HKU");
    assert_eq!(normalize_hive_for_powershell("HKEY_CURRENT_CONFIG"), "HKCC");
}

#[test]
fn test_normalize_hive_short_names() {
    assert_eq!(normalize_hive_for_powershell("HKLM"), "HKLM");
    assert_eq!(normalize_hive_for_powershell("HKCU"), "HKCU");
    assert_eq!(normalize_hive_for_powershell("hklm"), "HKLM");
}

#[test]
fn test_build_registry_value_args() {
    let args = build_registry_value_args(
        "HKEY_LOCAL_MACHINE",
        "SOFTWARE\\Microsoft\\Windows NT\\CurrentVersion",
        "CurrentBuildNumber",
    );

    assert_eq!(args.first(), Some(&"-NoProfile".to_string()));
    assert_eq!(args.get(1), Some(&"-NonInteractive".to_string()));
    assert_eq!(args.get(2), Some(&"-Command".to_string()));
    assert!(args
        .get(3)
        .map(|s| s.contains("Get-ItemPropertyValue"))
        .unwrap_or(false));
    assert!(args.get(3).map(|s| s.contains("HKLM:")).unwrap_or(false));
    assert!(args
        .get(3)
        .map(|s| s.contains("CurrentBuildNumber"))
        .unwrap_or(false));
}

#[test]
fn test_parse_powershell_output() {
    assert_eq!(parse_powershell_output("26100\n"), "26100");
    assert_eq!(parse_powershell_output("  26100  "), "26100");
    assert_eq!(parse_powershell_output("Windows 11 Pro"), "Windows 11 Pro");
}

// ---------------------------------------------------------------------------
// Further cases
// ---------------------------------------------------------------------------

#[test]
fn reg_output_single_space_columns_use_reg_word() {
    let out = "HKEY_LOCAL_MACHINE\\X\n  Name REG_SZ a b  c\n";
    assert_eq!(
        parse_reg_output(out),
        Some(("REG_SZ".to_string(), "a b c".to_string()))
    );
}

#[test]
fn reg_output_without_value_line_is_none() {
    assert_eq!(parse_reg_output("HKEY_LOCAL_MACHINE\\X\n\n"), None);
    assert_eq!(parse_reg_output(""), None);
    assert_eq!(parse_reg_output("one two\n"), None);
}

#[test]
fn reg_value_hex_edge_cases() {
    // Too large for 64 bits: kept as written.
    assert_eq!(
        normalize_reg_value("REG_QWORD", "0x10000000000000000"),
        "0x10000000000000000"
    );
    assert_eq!(
        normalize_reg_value("REG_QWORD", "0xffffffffffffffff"),
        "18446744073709551615"
    );
    assert_eq!(normalize_reg_value("reg_dword", "0x10"), "16");
    assert_eq!(normalize_reg_value("REG_DWORD_BIG_ENDIAN", "0X1f"), "31");
    assert_eq!(normalize_reg_value("REG_DWORD", "0xzz"), "0xzz");
    assert_eq!(normalize_reg_value("REG_SZ", "0x10"), "0x10");
}

#[test]
fn powershell_command_text() {
    let args = build_registry_value_args("hkcu", "Software\\A", "V");
    assert_eq!(
        args[3],
        "Get-ItemPropertyValue -Path 'HKCU:\\Software\\A' -Name 'V'"
    );
    assert_eq!(normalize_hive_for_powershell("HKEY_BOGUS"), "HKLM");
}

#[test]
fn normalize_reg_value_twice_is_once() {
    for (t, v) in [("REG_DWORD", "0x1F"), ("reg_qword", "0x0"), ("REG_SZ", "0x1"), ("REG_DWORD", "0xZZ"), ("REG_DWORD", "42")] {
        let once = normalize_reg_value(t, v);
        assert_eq!(normalize_reg_value(t, &once), once);
    }
    assert_eq!(normalize_reg_value("REG_SZ", "0x1"), "0x1");
    assert_eq!(normalize_reg_value("REG_DWORD", "0xZZ"), "0xZZ");
}
