use esp_agent::commands::sc::{
    is_access_denied, is_service_not_found, normalize_service_type, normalize_start_type,
    normalize_state, parse_sc_qc_output, parse_sc_query_output,
};

#[test]
fn test_parse_sc_query_running() {
    let output = r#"
SERVICE_NAME: W32Time
        TYPE               : 30  WIN32
        STATE              : 4  RUNNING
                                (STOPPABLE, NOT_PAUSABLE, ACCEPTS_SHUTDOWN)
        WIN32_EXIT_CODE    : 0  (0x0)
        SERVICE_EXIT_CODE  : 0  (0x0)
        CHECKPOINT         : 0x0
        WAIT_HINT          : 0x0
"#;
    let result = parse_sc_query_output(output);
    assert!(result.is_some());
    assert_eq!(result.map(|r| r.state), Some("running".to_string()));
}

#[test]
fn test_parse_sc_query_stopped() {
    let output = r#"
SERVICE_NAME: RemoteRegistry
        TYPE               : 20  WIN32_SHARE_PROCESS
        STATE              : 1  STOPPED
        WIN32_EXIT_CODE    : 1077  (0x435)
        SERVICE_EXIT_CODE  : 0  (0x0)
        CHECKPOINT         : 0x0
        WAIT_HINT          : 0x0
"#;
    let result = parse_sc_query_output(output);
    assert!(result.is_some());
    assert_eq!(result.map(|r| r.state), Some("stopped".to_string()));
}

#[test]
fn test_parse_sc_qc_demand_start() {
    let output = r#"
[SC] QueryServiceConfig SUCCESS
SERVICE_NAME: W32Time
        TYPE               : 20  WIN32_SHARE_PROCESS
        START_TYPE         : 3   DEMAND_START
        ERROR_CONTROL      : 1   NORMAL
        BINARY_PATH_NAME   : C:\windows\system32\svchost.exe -k LocalService
        LOAD_ORDER_GROUP   :
        TAG                : 0
        DISPLAY_NAME       : Windows Time
        DEPENDENCIES       :
        SERVICE_START_NAME : NT AUTHORITY\LocalService
"#;
    let result = parse_sc_qc_output(output);
    assert!(result.is_some());
    let result = result.as_ref();
    assert_eq!(result.map(|r| r.start_type.as_str()), Some("manual"));
    assert_eq!(
        result.map(|r| r.service_type.as_str()),
        Some("share_process")
    );
    assert_eq!(
        result.map(|r| r.display_name.as_str()),
        Some("Windows Time")
    );
    assert_eq!(
        result.map(|r| r.path.as_str()),
        Some(r"C:\windows\system32\svchost.exe -k LocalService")
    );
}

#[test]
fn test_parse_sc_qc_auto_delayed() {
    let output = r#"
[SC] QueryServiceConfig SUCCESS
SERVICE_NAME: WSearch
        TYPE               : 10  WIN32_OWN_PROCESS
        START_TYPE         : 2   AUTO_START  (DELAYED)
        ERROR_CONTROL      : 1   NORMAL
        BINARY_PATH_NAME   : C:\windows\system32\SearchIndexer.exe /Embedding
        LOAD_ORDER_GROUP   :
        TAG                : 0
        DISPLAY_NAME       : Windows Search
        DEPENDENCIES       : RPCSS
                           : BrokerInfrastructure
        SERVICE_START_NAME : LocalSystem
"#;
    let result = parse_sc_qc_output(output);
    assert!(result.is_some());
    let result = result.as_ref();
    assert_eq!(result.map(|r| r.start_type.as_str()), Some("auto_delayed"));
    assert_eq!(result.map(|r| r.service_type.as_str()), Some("own_process"));
}

#[test]
fn test_parse_sc_qc_disabled() {
    let output = r#"
[SC] QueryServiceConfig SUCCESS
SERVICE_NAME: RemoteRegistry
        TYPE               : 20  WIN32_SHARE_PROCESS
        START_TYPE         : 4   DISABLED
        ERROR_CONTROL      : 1   NORMAL
        BINARY_PATH_NAME   : C:\windows\system32\svchost.exe -k localService -p
        LOAD_ORDER_GROUP   :
        TAG                : 0
        DISPLAY_NAME       : Remote Registry
        DEPENDENCIES       : RPCSS
        SERVICE_START_NAME : NT AUTHORITY\LocalService
"#;
    let result = parse_sc_qc_output(output);
    assert!(result.is_some());
    assert_eq!(result.map(|r| r.start_type), Some("disabled".to_string()));
}

#[test]
fn test_parse_sc_qc_interactive() {
    let output = r#"
[SC] QueryServiceConfig SUCCESS
SERVICE_NAME: Spooler
        TYPE               : 110  WIN32_OWN_PROCESS (interactive)
        START_TYPE         : 2   AUTO_START
        ERROR_CONTROL      : 1   NORMAL
        BINARY_PATH_NAME   : C:\windows\System32\spoolsv.exe
        LOAD_ORDER_GROUP   : SpoolerGroup
        TAG                : 0
        DISPLAY_NAME       : Print Spooler
        DEPENDENCIES       : RPCSS
                           : http
        SERVICE_START_NAME : LocalSystem
"#;
    let result = parse_sc_qc_output(output);
    assert!(result.is_some());
    let result = result.as_ref();
    assert_eq!(result.map(|r| r.start_type.as_str()), Some("auto"));
    assert_eq!(
        result.map(|r| r.service_type.as_str()),
        Some("own_process_interactive")
    );
    assert_eq!(
        result.map(|r| r.display_name.as_str()),
        Some("Print Spooler")
    );
}

#[test]
fn test_parse_sc_qc_kernel_driver() {
    let output = r#"
[SC] QueryServiceConfig SUCCESS
SERVICE_NAME: Tcpip
        TYPE               : 1  KERNEL_DRIVER
        START_TYPE         : 0   BOOT_START
        ERROR_CONTROL      : 1   NORMAL
        BINARY_PATH_NAME   : \SystemRoot\System32\drivers\tcpip.sys
        LOAD_ORDER_GROUP   : PNP_TDI
        TAG                : 3
        DISPLAY_NAME       : TCP/IP Protocol Driver
        DEPENDENCIES       :
        SERVICE_START_NAME :
"#;
    let result = parse_sc_qc_output(output);
    assert!(result.is_some());
    let result = result.as_ref();
    assert_eq!(result.map(|r| r.start_type.as_str()), Some("boot"));
    assert_eq!(
        result.map(|r| r.service_type.as_str()),
        Some("kernel_driver")
    );
    assert_eq!(
        result.map(|r| r.display_name.as_str()),
        Some("TCP/IP Protocol Driver")
    );
}

#[test]
fn test_is_service_not_found() {
    let output = r#"[SC] EnumQueryServicesStatus:OpenService FAILED 1060:
The specified service does not exist as an installed service."#;
    assert!(is_service_not_found(output));
}

#[test]
fn test_is_service_not_found_qc() {
    let output = r#"[SC] OpenService FAILED 1060:
The specified service does not exist as an installed service."#;
    assert!(is_service_not_found(output));
}

#[test]
fn test_normalize_state() {
    assert_eq!(normalize_state("RUNNING"), "running");
    assert_eq!(normalize_state("STOPPED"), "stopped");
    assert_eq!(normalize_state("PAUSED"), "paused");
    assert_eq!(normalize_state("START_PENDING"), "start_pending");
    assert_eq!(normalize_state("STOP_PENDING"), "stop_pending");
    assert_eq!(normalize_state("UNKNOWN_STATE"), "unknown");
}

#[test]
fn test_normalize_start_type() {
    assert_eq!(normalize_start_type("AUTO_START"), "auto");
    assert_eq!(
        normalize_start_type("AUTO_START  (DELAYED)"),
        "auto_delayed"
    );
    assert_eq!(normalize_start_type("DEMAND_START"), "manual");
    assert_eq!(normalize_start_type("DISABLED"), "disabled");
    assert_eq!(normalize_start_type("BOOT_START"), "boot");
    assert_eq!(normalize_start_type("SYSTEM_START"), "system");
}

#[test]
fn test_normalize_service_type() {
    assert_eq!(normalize_service_type("WIN32_OWN_PROCESS"), "own_process");
    assert_eq!(
        normalize_service_type("WIN32_OWN_PROCESS (interactive)"),
        "own_process_interactive"
    );
    assert_eq!(
        normalize_service_type("WIN32_SHARE_PROCESS"),
        "share_process"
    );
    assert_eq!(normalize_service_type("KERNEL_DRIVER"), "kernel_driver");
    assert_eq!(
        normalize_service_type("FILE_SYSTEM_DRIVER"),
        "file_system_driver"
    );
}

// ---------------------------------------------------------------------------
// Further cases
// ---------------------------------------------------------------------------

#[test]
fn sc_query_without_state_is_none() {
    assert!(parse_sc_query_output("SERVICE_NAME: X\n        TYPE : 30  WIN32\n").is_none());
    assert!(parse_sc_query_output("").is_none());
}

#[test]
fn sc_query_reports_generic_type() {
    let out = "        TYPE               : 30  WIN32\r\n        STATE              : 4  RUNNING\r\n";
    let r = parse_sc_query_output(out).unwrap();
    assert_eq!(r.state, "running");
    assert_eq!(r.service_type, Some("win32".to_string()));
}

#[test]
fn sc_query_digits_only_value_is_kept_whole() {
    // A value made of digits alone is taken whole, and names no known state.
    let r = parse_sc_query_output("STATE : 4\n").unwrap();
    assert_eq!(r.state, "unknown");
}

#[test]
fn sc_qc_without_start_type_is_none() {
    assert!(parse_sc_qc_output("TYPE : 20  WIN32_SHARE_PROCESS\nDISPLAY_NAME : X\n").is_none());
}

#[test]
fn sc_qc_empty_values_read_as_empty() {
    let r = parse_sc_qc_output("START_TYPE : 4 DISABLED\nDISPLAY_NAME :\n").unwrap();
    assert_eq!(r.start_type, "disabled");
    assert_eq!(r.display_name, "");
    assert_eq!(r.path, "");
    assert_eq!(r.service_type, "");
}

#[test]
fn sc_access_denied_forms() {
    assert!(is_access_denied("[SC] OpenService FAILED 5:\n\nAccess is denied."));
    assert!(is_access_denied("ACCESS IS DENIED"));
    assert!(!is_access_denied("[SC] OpenService FAILED 1060:"));
    assert!(!is_service_not_found("SERVICE_NAME: W32Time"));
}

#[test]
fn sc_unknown_classifications() {
    assert_eq!(normalize_start_type("SOMETHING"), "unknown");
    assert_eq!(normalize_service_type("WIN32"), "win32");
    assert_eq!(normalize_service_type("USER_OWN_PROCESS"), "unknown");
    assert_eq!(normalize_state("running"), "running");
    assert_eq!(normalize_state("CONTINUE_PENDING"), "continue_pending");
    assert_eq!(normalize_state("PAUSE_PENDING"), "pause_pending");
}
