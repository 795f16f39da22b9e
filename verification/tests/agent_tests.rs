use esp_agent::cli::{parse_args, CliResult};
use esp_agent::config::{FileOutcome, OutputFormat, ScanSummary};
use esp_agent::discovery::{
    discover_esp_files, discover_esp_files_recursive, has_esp_extension, sort_paths,
    DiscoveryError, PathKind,
};
use esp_agent::output::{
    combine_hashes_sorted, combine_scan_hashes, criticality_weight_tenths, is_compliant,
    posture_weights, summary_counts, tally_by_criticality, CriteriaCounts, Criticality,
    OutputError, ScanResult,
};
use esp_agent::registry::{create_registry, create_scanner_registry, CollectorKind, StrategyError};

fn args(v: &[&str]) -> Vec<String> {
    v.iter().map(|a| a.to_string()).collect()
}

fn result(id: &str, passed: bool, criticality: Criticality, content: &str, evidence: &str) -> ScanResult {
    ScanResult {
        policy_id: id.to_string(),
        platform: "windows".to_string(),
        tree_passed: passed,
        content_hash: content.to_string(),
        evidence_hash: evidence.to_string(),
        criteria_counts: CriteriaCounts { total: 1, passed: if passed { 1 } else { 0 }, failed: if passed { 0 } else { 1 }, error: 0 },
        findings_count: if passed { 0 } else { 1 },
        criticality,
    }
}

// ----------------------------------------------------------------------
// Command line
// ----------------------------------------------------------------------

#[test]
fn parse_args_single_file_defaults() {
    match parse_args(&args(&["esp_agent", "policy.esp"])) {
        CliResult::Run(c) => {
            assert_eq!(c.input_path, "policy.esp");
            assert_eq!(c.output_file, None);
            assert_eq!(c.output_format, OutputFormat::Full);
            assert!(!c.quiet);
        }
        other => panic!("unexpected {:?}", other),
    }
}

#[test]
fn parse_args_all_options() {
    match parse_args(&args(&[
        "esp_agent", "--format", "attestation", "-o", "attestation.json", "-q", "policies",
    ])) {
        CliResult::Run(c) => {
            assert_eq!(c.input_path, "policies");
            assert_eq!(c.output_file, Some("attestation.json".to_string()));
            assert_eq!(c.output_format, OutputFormat::Attestation);
            assert!(c.quiet);
        }
        other => panic!("unexpected {:?}", other),
    }
}

#[test]
fn parse_args_help_wins() {
    assert!(matches!(parse_args(&args(&["esp_agent", "-h"])), CliResult::Help));
    assert!(matches!(parse_args(&args(&["esp_agent", "x.esp", "--help"])), CliResult::Help));
}

#[test]
fn parse_args_errors() {
    match parse_args(&args(&["esp_agent"])) {
        CliResult::Error(m) => assert_eq!(m, "No input file or directory specified"),
        other => panic!("unexpected {:?}", other),
    }
    match parse_args(&args(&["esp_agent", "--format", "xml", "p.esp"])) {
        CliResult::Error(m) => assert_eq!(m, "Unknown output format: xml"),
        other => panic!("unexpected {:?}", other),
    }
    match parse_args(&args(&["esp_agent", "p.esp", "--output"])) {
        CliResult::Error(m) => assert_eq!(m, "Missing value for --output"),
        other => panic!("unexpected {:?}", other),
    }
    match parse_args(&args(&["esp_agent", "--verbose", "p.esp"])) {
        CliResult::Error(m) => assert_eq!(m, "Unknown option: --verbose"),
        other => panic!("unexpected {:?}", other),
    }
    match parse_args(&args(&["esp_agent", "a.esp", "b.esp"])) {
        CliResult::Error(m) => assert_eq!(m, "Multiple input paths specified"),
        other => panic!("unexpected {:?}", other),
    }
}

#[test]
fn output_format_names() {
    assert_eq!(OutputFormat::from_name(&"summary".to_string()), Some(OutputFormat::Summary));
    assert_eq!(OutputFormat::from_name(&"assessor".to_string()), Some(OutputFormat::Assessor));
    assert_eq!(OutputFormat::from_name(&"Full".to_string()), None);
    assert_eq!(OutputFormat::Assessor.default_filename(), "assessor_package.json");
    assert_eq!(OutputFormat::Summary.default_filename(), "summary.json");
    assert_eq!(OutputFormat::Attestation.name(), "attestation");
}

// ----------------------------------------------------------------------
// Scan summary and exit codes
// ----------------------------------------------------------------------

#[test]
fn scan_summary_exit_codes() {
    let mut s = ScanSummary::new(3);
    assert_eq!(s.exit_code(), 0);
    s.record(FileOutcome::Passed);
    assert_eq!(s.exit_code(), 0);
    s.record(FileOutcome::Failed);
    assert_eq!(s.exit_code(), 1);
    s.record(FileOutcome::Error);
    assert_eq!(s.exit_code(), 2);
    assert_eq!((s.passed, s.failed, s.errors, s.total_files), (1, 1, 1, 3));
}

#[test]
fn tally_outcomes_partitions() {
    let s = esp_agent::config::tally_outcomes(&[
        FileOutcome::Passed,
        FileOutcome::Passed,
        FileOutcome::Failed,
    ]);
    assert_eq!((s.total_files, s.passed, s.failed, s.errors), (3, 2, 1, 0));
    assert_eq!(s.passed + s.failed + s.errors, s.total_files);
    assert_eq!(s.exit_code(), 1);
}

// ----------------------------------------------------------------------
// Output: hashes, tallies, posture
// ----------------------------------------------------------------------

#[test]
fn combine_hashes_known_value() {
    let h = combine_hashes_sorted(&vec!["sha256:bbb".to_string(), "sha256:aaa".to_string()]).unwrap();
    assert_eq!(
        h,
        "sha256:d8562cd2e0e0728d03dee4644f232accfafcf8f53a5c390a8563414c1ed9bb4e"
    );
}

#[test]
fn combine_hashes_order_independent() {
    let a = combine_hashes_sorted(&vec!["x".to_string(), "y".to_string(), "z".to_string()]).unwrap();
    let b = combine_hashes_sorted(&vec!["z".to_string(), "x".to_string(), "y".to_string()]).unwrap();
    assert_eq!(a, b);
}

#[test]
fn combine_scan_hashes_cases() {
    match combine_scan_hashes(&vec![]) {
        Err(OutputError::Build(m)) => assert_eq!(m, "At least one scan result is required"),
        other => panic!("unexpected {:?}", other),
    }
    let one = vec![result("p", true, Criticality::High, "c1", "e1")];
    assert_eq!(combine_scan_hashes(&one).unwrap(), ("c1".to_string(), "e1".to_string()));
    let two = vec![
        result("p", true, Criticality::High, "sha256:bbb", "e2"),
        result("q", false, Criticality::Low, "sha256:aaa", "e1"),
    ];
    let (c, e) = combine_scan_hashes(&two).unwrap();
    assert_eq!(c, "sha256:d8562cd2e0e0728d03dee4644f232accfafcf8f53a5c390a8563414c1ed9bb4e");
    assert_eq!(e, "sha256:303536cbced17b10190e7577aa6690dce4d35ce456e86163a50975696e8e74bb");
}

#[test]
fn output_error_messages() {
    assert_eq!(OutputError::Build("x".to_string()).message(), "Failed to build output: x");
    assert_eq!(
        OutputError::Serialization("y".to_string()).message(),
        "Failed to serialize output: y"
    );
}

#[test]
fn summary_counts_and_criticality_rows() {
    let rs = vec![
        result("a", true, Criticality::Critical, "1", "1"),
        result("b", false, Criticality::Critical, "2", "2"),
        result("c", true, Criticality::Low, "3", "3"),
        result("d", false, Criticality::Info, "4", "4"),
    ];
    let s = summary_counts(&rs);
    assert_eq!((s.total_policies, s.passed, s.failed), (4, 2, 2));
    assert!(is_compliant(&rs[0]));
    assert!(!is_compliant(&rs[1]));
    let t = tally_by_criticality(&rs);
    assert_eq!((t.critical.passed, t.critical.failed), (1, 1));
    assert_eq!((t.high.passed, t.high.failed), (0, 0));
    assert_eq!((t.low.passed, t.low.failed), (1, 0));
    assert_eq!((t.info.passed, t.info.failed), (0, 1));
    assert_eq!(t.get(Criticality::Medium).passed + t.get(Criticality::Medium).failed, 0);
    let rows = [t.critical, t.high, t.medium, t.low, t.info];
    assert_eq!(rows.iter().map(|r| r.passed + r.failed).sum::<usize>(), rs.len());
}

#[test]
fn posture_weights_in_tenths() {
    assert_eq!(criticality_weight_tenths(Criticality::Critical), 10);
    assert_eq!(criticality_weight_tenths(Criticality::High), 8);
    assert_eq!(criticality_weight_tenths(Criticality::Medium), 5);
    assert_eq!(criticality_weight_tenths(Criticality::Low), 3);
    assert_eq!(criticality_weight_tenths(Criticality::Info), 1);
    let rs = vec![
        result("a", true, Criticality::Critical, "1", "1"),
        result("b", false, Criticality::High, "2", "2"),
        result("c", true, Criticality::Medium, "3", "3"),
    ];
    assert_eq!(posture_weights(&rs), (15, 23));
    assert_eq!(posture_weights(&vec![]), (0, 0));
}

// ----------------------------------------------------------------------
// Discovery
// ----------------------------------------------------------------------

#[test]
fn esp_extension() {
    assert!(has_esp_extension("policy.esp"));
    assert!(has_esp_extension("a.b.esp"));
    assert!(!has_esp_extension("policy.ESP"));
    assert!(!has_esp_extension(".esp"));
    assert!(!has_esp_extension("policy.esp.bak"));
    assert!(!has_esp_extension("esp"));
}

#[test]
fn discover_single_file_and_missing_path() {
    let none: Vec<(String, bool)> = vec![];
    assert_eq!(discover_esp_files("x.esp", PathKind::File, &none).unwrap(), vec!["x.esp".to_string()]);
    match discover_esp_files("nowhere", PathKind::Missing, &none) {
        Err(DiscoveryError::InvalidPath(p)) => assert_eq!(p, "nowhere"),
        other => panic!("unexpected {:?}", other),
    }
    assert_eq!(
        DiscoveryError::InvalidPath("nowhere".to_string()).message(),
        "Invalid path: nowhere"
    );
}

#[test]
fn discover_directory_filters_and_sorts() {
    let entries = vec![
        ("dir/b.esp".to_string(), true),
        ("dir/notes.txt".to_string(), true),
        ("dir/a.esp".to_string(), true),
        ("dir/sub.esp".to_string(), false),
    ];
    let found = discover_esp_files("dir", PathKind::Directory, &entries).unwrap();
    assert_eq!(found, vec!["dir/a.esp".to_string(), "dir/b.esp".to_string()]);
    let rec = discover_esp_files_recursive(&entries).unwrap();
    assert_eq!(rec, found);
}

#[test]
fn sort_paths_orders_paths() {
    let v = vec!["c".to_string(), "a".to_string(), "b".to_string()];
    assert_eq!(sort_paths(&v), vec!["a".to_string(), "b".to_string(), "c".to_string()]);
}

// ----------------------------------------------------------------------
// Strategy registry
// ----------------------------------------------------------------------

#[test]
fn scanner_registry_types() {
    let r = create_scanner_registry().unwrap();
    for t in ["registry", "registry_subkeys", "file_metadata", "file_content", "tcp_listener", "computed_values", "json_record", "service", "k8s_resource"] {
        assert!(r.has_ctn_type(t), "{}", t);
    }
    assert!(!r.has_ctn_type("unknown"));
    assert!(create_registry().is_ok());
}

#[test]
fn registry_refuses_duplicates() {
    let mut r = create_scanner_registry().unwrap();
    let c = esp_agent::contracts::create_registry_contract();
    match r.register_ctn_strategy(CollectorKind::Registry, c) {
        Err(StrategyError::DuplicateCtnType(t)) => assert_eq!(t, "registry"),
        other => panic!("unexpected {:?}", other),
    }
}

#[test]
fn combine_scan_hashes_ignores_result_order() {
    let a = vec![
        result("p", true, Criticality::High, "sha256:bbb", "e2"),
        result("q", false, Criticality::Low, "sha256:aaa", "e1"),
        result("r", true, Criticality::Info, "sha256:ccc", "e3"),
    ];
    let b = vec![
        result("r", true, Criticality::Info, "sha256:ccc", "e3"),
        result("p", true, Criticality::High, "sha256:bbb", "e2"),
        result("q", false, Criticality::Low, "sha256:aaa", "e1"),
    ];
    let (c, e) = combine_scan_hashes(&a).unwrap();
    assert_eq!((c.clone(), e.clone()), combine_scan_hashes(&b).unwrap());
    assert_eq!(c.len(), 71);
    assert!(c.starts_with("sha256:"));
    assert!(c[7..].chars().all(|ch| ch.is_ascii_digit() || ('a'..='f').contains(&ch)));
}
