//! The contracts of the CTN types: which OBJECT fields each reads, which
//! STATE fields it checks with which operations, how fields map to collected
//! data, how data is collected and which behaviors are accepted.

use vstd::prelude::*;
use crate::contract::{
    behavior_view, names_view, object_field_view, pairs_view, parameter_view, state_field_view,
    BehaviorParameter, BehaviorType, CollectionMode, CollectionStrategy, CtnContract, DataType,
    ObjectFieldSpec, PerformanceHints, StateFieldSpec, SupportedBehavior,
};
use crate::criteria::Operation;

verus! {

/// Whether a collection strategy needs exactly the capabilities `caps`, is
/// expected to take `time_ms` milliseconds and `memory_mb` megabytes, and is
/// neither network- nor CPU-intensive nor needs elevated privileges.
pub open spec fn strategy_needs(s: CollectionStrategy, caps: Seq<Seq<char>>, time_ms: u64, memory_mb: u64) -> bool {
    &&& names_view(s.required_capabilities@) == caps
    &&& s.performance_hints.expected_collection_time_ms == Some(time_ms)
    &&& s.performance_hints.memory_usage_mb == Some(memory_mb)
    &&& !s.performance_hints.network_intensive
    &&& !s.performance_hints.cpu_intensive
    &&& !s.performance_hints.requires_elevated_privileges
}

/// The contract of the service CTN type (Windows services: existence, runtime state, start type, display name, binary path, process type).
#[verifier::rlimit(50)]
pub fn create_service_contract() -> (res: CtnContract)
    ensures
        res.ctn_type@ == "service"@,
        object_field_view(res.object_requirements.required_fields@) == seq![("name"@, DataType::String)],
        object_field_view(res.object_requirements.optional_fields@).len() == 0,
        state_field_view(res.state_requirements.required_fields@).len() == 0,
        state_field_view(res.state_requirements.optional_fields@) == seq![("exists"@, DataType::Boolean, seq![Operation::Equals, Operation::NotEqual]), ("state"@, DataType::String, seq![Operation::Equals, Operation::NotEqual, Operation::CaseInsensitiveEquals]), ("start_type"@, DataType::String, seq![Operation::Equals, Operation::NotEqual, Operation::CaseInsensitiveEquals]), ("display_name"@, DataType::String, seq![Operation::Equals, Operation::NotEqual, Operation::Contains, Operation::NotContains, Operation::StartsWith, Operation::EndsWith, Operation::PatternMatch, Operation::CaseInsensitiveEquals, Operation::CaseInsensitiveNotEqual]), ("path"@, DataType::String, seq![Operation::Equals, Operation::NotEqual, Operation::Contains, Operation::NotContains, Operation::StartsWith, Operation::EndsWith, Operation::PatternMatch, Operation::CaseInsensitiveEquals, Operation::CaseInsensitiveNotEqual]), ("service_type"@, DataType::String, seq![Operation::Equals, Operation::NotEqual, Operation::CaseInsensitiveEquals])],
        pairs_view(res.field_mappings.collection_mappings.object_to_collection.entries@) == seq![("name"@, "name"@)],
        names_view(res.field_mappings.collection_mappings.required_data_fields@) == seq!["exists"@, "state"@, "start_type"@],
        names_view(res.field_mappings.collection_mappings.optional_data_fields@) == seq!["display_name"@, "path"@, "service_type"@],
        pairs_view(res.field_mappings.validation_mappings.state_to_data.entries@) == seq![("exists"@, "exists"@), ("state"@, "state"@), ("start_type"@, "start_type"@), ("display_name"@, "display_name"@), ("path"@, "path"@), ("service_type"@, "service_type"@)],
        res.collection_strategy.collector_type@ == "windows_service"@,
        res.collection_strategy.collection_mode == CollectionMode::Status,
        strategy_needs(res.collection_strategy, seq!["service_query"@], 200, 1),
        behavior_view(res.supported_behaviors@) == seq![("executor"@, BehaviorType::Parameter)],
        parameter_view(res.supported_behaviors@[0].parameters@) == seq![("executor"@, DataType::String, false, Some("sc"@))],
{
    let mut contract = CtnContract::new("service".to_string());

    // =========================================================================
    // Object Requirements (Input)
    // =========================================================================

    // Required: Service name
    contract
        .object_requirements
        .add_required_field(ObjectFieldSpec {
            name: "name".to_string(),
            data_type: DataType::String,
            description: "Service name (not DisplayName)".to_string(),
            example_values: vec![
                "W32Time".to_string(),
                "Spooler".to_string(),
                "TermService".to_string(),
                "RemoteRegistry".to_string(),
            ],
            validation_notes: Some(
                "Use service name (e.g., 'W32Time') not display name (e.g., 'Windows Time')"
                    .to_string(),
            ),
        });

    // =========================================================================
    // State Requirements (Validation)
    // =========================================================================

    // exists - Service existence
    contract
        .state_requirements
        .add_optional_field(StateFieldSpec {
            name: "exists".to_string(),
            data_type: DataType::Boolean,
            allowed_operations: vec![Operation::Equals, Operation::NotEqual],
            description: "Whether the service exists".to_string(),
            example_values: vec!["true".to_string(), "false".to_string()],
            validation_notes: Some(
                "Use 'exists boolean = false' to ensure a service does NOT exist".to_string(),
            ),
        });

    // state - Runtime state
    contract
        .state_requirements
        .add_optional_field(StateFieldSpec {
            name: "state".to_string(),
            data_type: DataType::String,
            allowed_operations: vec![
                Operation::Equals,
                Operation::NotEqual,
                Operation::CaseInsensitiveEquals,
            ],
            description: "Service runtime state".to_string(),
            example_values: vec![
                "running".to_string(),
                "stopped".to_string(),
                "paused".to_string(),
            ],
            validation_notes: Some("Valid values: running, stopped, paused, start_pending, stop_pending, continue_pending, pause_pending, unknown".to_string()),
        });

    // start_type - Startup type
    contract
        .state_requirements
        .add_optional_field(StateFieldSpec {
            name: "start_type".to_string(),
            data_type: DataType::String,
            allowed_operations: vec![
                Operation::Equals,
                Operation::NotEqual,
                Operation::CaseInsensitiveEquals,
            ],
            description: "Service startup type".to_string(),
            example_values: vec![
                "auto".to_string(),
                "auto_delayed".to_string(),
                "manual".to_string(),
                "disabled".to_string(),
            ],
            validation_notes: Some("Valid values: auto, auto_delayed, manual, disabled, boot, system, unknown".to_string()),
        });

    // display_name - Display name
    contract
        .state_requirements
        .add_optional_field(StateFieldSpec {
            name: "display_name".to_string(),
            data_type: DataType::String,
            allowed_operations: vec![
                Operation::Equals,
                Operation::NotEqual,
                Operation::Contains,
                Operation::NotContains,
                Operation::StartsWith,
                Operation::EndsWith,
                Operation::PatternMatch,
                Operation::CaseInsensitiveEquals,
                Operation::CaseInsensitiveNotEqual,
            ],
            description: "Service display name".to_string(),
            example_values: vec![
                "Windows Time".to_string(),
                "Print Spooler".to_string(),
                "Remote Desktop Services".to_string(),
            ],
            validation_notes: None,
        });

    // path - Binary path
    contract
        .state_requirements
        .add_optional_field(StateFieldSpec {
            name: "path".to_string(),
            data_type: DataType::String,
            allowed_operations: vec![
                Operation::Equals,
                Operation::NotEqual,
                Operation::Contains,
                Operation::NotContains,
                Operation::StartsWith,
                Operation::EndsWith,
                Operation::PatternMatch,
                Operation::CaseInsensitiveEquals,
                Operation::CaseInsensitiveNotEqual,
            ],
            description: "Service binary path".to_string(),
            example_values: vec![
                r"C:\windows\system32\svchost.exe -k LocalService".to_string(),
                r"C:\windows\System32\spoolsv.exe".to_string(),
            ],
            validation_notes: Some("Can be used to detect service binary tampering".to_string()),
        });

    // service_type - Service type
    contract
        .state_requirements
        .add_optional_field(StateFieldSpec {
            name: "service_type".to_string(),
            data_type: DataType::String,
            allowed_operations: vec![
                Operation::Equals,
                Operation::NotEqual,
                Operation::CaseInsensitiveEquals,
            ],
            description: "Service process type".to_string(),
            example_values: vec![
                "own_process".to_string(),
                "share_process".to_string(),
                "kernel_driver".to_string(),
            ],
            validation_notes: Some("Valid values: own_process, own_process_interactive, share_process, kernel_driver, file_system_driver, win32, unknown".to_string()),
        });

    // =========================================================================
    // Field Mappings
    // =========================================================================

    // Object field -> collector parameter
    contract
        .field_mappings
        .collection_mappings
        .object_to_collection
        .insert("name".to_string(), "name".to_string());

    // Required data fields from collector
    contract
        .field_mappings
        .collection_mappings
        .required_data_fields = vec![
        "exists".to_string(),
        "state".to_string(),
        "start_type".to_string(),
    ];

    // Optional data fields from collector
    contract
        .field_mappings
        .collection_mappings
        .optional_data_fields = vec![
        "display_name".to_string(),
        "path".to_string(),
        "service_type".to_string(),
    ];

    // State field -> collected data field (1:1 mapping)
    contract
        .field_mappings
        .validation_mappings
        .state_to_data
        .insert("exists".to_string(), "exists".to_string());
    contract
        .field_mappings
        .validation_mappings
        .state_to_data
        .insert("state".to_string(), "state".to_string());
    contract
        .field_mappings
        .validation_mappings
        .state_to_data
        .insert("start_type".to_string(), "start_type".to_string());
    contract
        .field_mappings
        .validation_mappings
        .state_to_data
        .insert("display_name".to_string(), "display_name".to_string());
    contract
        .field_mappings
        .validation_mappings
        .state_to_data
        .insert("path".to_string(), "path".to_string());
    contract
        .field_mappings
        .validation_mappings
        .state_to_data
        .insert("service_type".to_string(), "service_type".to_string());

    // =========================================================================
    // Collection Strategy
    // =========================================================================

    contract.collection_strategy = CollectionStrategy {
        collector_type: "windows_service".to_string(),
        collection_mode: CollectionMode::Status,
        required_capabilities: vec!["service_query".to_string()],
        performance_hints: PerformanceHints {
            expected_collection_time_ms: Some(200), // Two sc.exe calls
            memory_usage_mb: Some(1),
            network_intensive: false,
            cpu_intensive: false,
            requires_elevated_privileges: false, // Most services queryable without elevation
        },
    };
    assert(names_view(contract.collection_strategy.required_capabilities@) =~= seq!["service_query"@]);

    // =========================================================================
    // Behaviors
    // =========================================================================

    // executor - Collection method selection
    contract.add_supported_behavior(SupportedBehavior {
        name: "executor".to_string(),
        behavior_type: BehaviorType::Parameter,
        parameters: vec![BehaviorParameter {
            name: "executor".to_string(),
            data_type: DataType::String,
            required: false,
            default_value: Some("sc".to_string()),
            description: "Collection method: sc (default) or powershell".to_string(),
        }],
        description: "Select the service collection executor".to_string(),
        example: "behavior executor powershell".to_string(),
    });

    contract
}

/// The contract of the registry CTN type (a registry value: existence, type, value, integer and version readings).
#[verifier::rlimit(50)]
pub fn create_registry_contract() -> (res: CtnContract)
    ensures
        res.ctn_type@ == "registry"@,
        object_field_view(res.object_requirements.required_fields@) == seq![("hive"@, DataType::String), ("key"@, DataType::String), ("name"@, DataType::String)],
        object_field_view(res.object_requirements.optional_fields@).len() == 0,
        state_field_view(res.state_requirements.required_fields@).len() == 0,
        state_field_view(res.state_requirements.optional_fields@) == seq![("exists"@, DataType::Boolean, seq![Operation::Equals, Operation::NotEqual]), ("type"@, DataType::String, seq![Operation::Equals, Operation::NotEqual, Operation::CaseInsensitiveEquals]), ("value"@, DataType::String, seq![Operation::Equals, Operation::NotEqual, Operation::Contains, Operation::NotContains, Operation::StartsWith, Operation::EndsWith, Operation::PatternMatch, Operation::CaseInsensitiveEquals, Operation::CaseInsensitiveNotEqual]), ("value_int"@, DataType::Int, seq![Operation::Equals, Operation::NotEqual, Operation::GreaterThan, Operation::LessThan, Operation::GreaterThanOrEqual, Operation::LessThanOrEqual]), ("value_version"@, DataType::Version, seq![Operation::Equals, Operation::NotEqual, Operation::GreaterThan, Operation::LessThan, Operation::GreaterThanOrEqual, Operation::LessThanOrEqual])],
        pairs_view(res.field_mappings.collection_mappings.object_to_collection.entries@) == seq![("hive"@, "hive"@), ("key"@, "key"@), ("name"@, "name"@)],
        names_view(res.field_mappings.collection_mappings.required_data_fields@) == seq!["exists"@, "value"@],
        names_view(res.field_mappings.collection_mappings.optional_data_fields@) == seq!["type"@],
        pairs_view(res.field_mappings.validation_mappings.state_to_data.entries@) == seq![("exists"@, "exists"@), ("type"@, "type"@), ("value"@, "value"@), ("value_int"@, "value"@), ("value_version"@, "value"@)],
        res.collection_strategy.collector_type@ == "windows_registry"@,
        res.collection_strategy.collection_mode == CollectionMode::Metadata,
        strategy_needs(res.collection_strategy, seq!["registry_read"@], 100, 1),
        behavior_view(res.supported_behaviors@) == seq![("executor"@, BehaviorType::Parameter)],
        parameter_view(res.supported_behaviors@[0].parameters@) == seq![("executor"@, DataType::String, false, Some("reg"@))],
{
    let mut contract = CtnContract::new("registry".to_string());

    // =========================================================================
    // Object Requirements (Input)
    // =========================================================================

    // Required: Registry hive
    contract
        .object_requirements
        .add_required_field(ObjectFieldSpec {
            name: "hive".to_string(),
            data_type: DataType::String,
            description: "Registry hive (HKEY_LOCAL_MACHINE, HKLM, etc.)".to_string(),
            example_values: vec![
                "HKEY_LOCAL_MACHINE".to_string(),
                "HKLM".to_string(),
                "HKEY_CURRENT_USER".to_string(),
            ],
            validation_notes: Some("Valid values: HKEY_LOCAL_MACHINE, HKEY_CURRENT_USER, HKEY_CLASSES_ROOT, HKEY_USERS, HKEY_CURRENT_CONFIG, HKLM, HKCU, HKCR, HKU, HKCC".to_string()),
        });

    // Required: Registry key path
    contract
        .object_requirements
        .add_required_field(ObjectFieldSpec {
            name: "key".to_string(),
            data_type: DataType::String,
            description: "Registry key path (without hive prefix)".to_string(),
            example_values: vec![
                "SOFTWARE\\Microsoft\\Windows NT\\CurrentVersion".to_string(),
                "SOFTWARE\\Policies\\Microsoft\\Windows\\DataCollection".to_string(),
            ],
            validation_notes: Some("Use backslashes as path separators".to_string()),
        });

    // Required: Value name
    contract
        .object_requirements
        .add_required_field(ObjectFieldSpec {
            name: "name".to_string(),
            data_type: DataType::String,
            description: "Registry value name".to_string(),
            example_values: vec![
                "CurrentBuildNumber".to_string(),
                "AllowTelemetry".to_string(),
                "EditionId".to_string(),
            ],
            validation_notes: None,
        });

    // =========================================================================
    // State Requirements (Validation)
    // =========================================================================

    // exists - Key/value existence
    contract
        .state_requirements
        .add_optional_field(StateFieldSpec {
            name: "exists".to_string(),
            data_type: DataType::Boolean,
            allowed_operations: vec![Operation::Equals, Operation::NotEqual],
            description: "Whether the registry key/value exists".to_string(),
            example_values: vec!["true".to_string(), "false".to_string()],
            validation_notes: None,
        });

    // type - Registry value type (reg only)
    contract
        .state_requirements
        .add_optional_field(StateFieldSpec {
            name: "type".to_string(),
            data_type: DataType::String,
            allowed_operations: vec![
                Operation::Equals,
                Operation::NotEqual,
                Operation::CaseInsensitiveEquals,
            ],
            description: "Registry value type (only available with reg executor)".to_string(),
            example_values: vec![
                "reg_sz".to_string(),
                "reg_dword".to_string(),
                "reg_qword".to_string(),
            ],
            validation_notes: Some("Valid types: reg_sz, reg_expand_sz, reg_binary, reg_dword, reg_dword_big_endian, reg_link, reg_multi_sz, reg_resource_list, reg_full_resource_descriptor, reg_resource_requirements_list, reg_qword, reg_none".to_string()),
        });

    // value - String comparison
    contract
        .state_requirements
        .add_optional_field(StateFieldSpec {
            name: "value".to_string(),
            data_type: DataType::String,
            allowed_operations: vec![
                Operation::Equals,
                Operation::NotEqual,
                Operation::Contains,
                Operation::NotContains,
                Operation::StartsWith,
                Operation::EndsWith,
                Operation::PatternMatch,
                Operation::CaseInsensitiveEquals,
                Operation::CaseInsensitiveNotEqual,
            ],
            description: "Registry value as string".to_string(),
            example_values: vec!["EnterpriseS".to_string(), "26100".to_string()],
            validation_notes: Some("For string comparisons".to_string()),
        });

    // value_int - Integer comparison (for DWORD/QWORD)
    contract
        .state_requirements
        .add_optional_field(StateFieldSpec {
            name: "value_int".to_string(),
            data_type: DataType::Int,
            allowed_operations: vec![
                Operation::Equals,
                Operation::NotEqual,
                Operation::GreaterThan,
                Operation::LessThan,
                Operation::GreaterThanOrEqual,
                Operation::LessThanOrEqual,
            ],
            description: "Registry value as integer (for DWORD/QWORD)".to_string(),
            example_values: vec!["0".to_string(), "1".to_string(), "2".to_string()],
            validation_notes: Some("Parses string value to integer".to_string()),
        });

    // value_version - Version comparison
    contract
        .state_requirements
        .add_optional_field(StateFieldSpec {
            name: "value_version".to_string(),
            data_type: DataType::Version,
            allowed_operations: vec![
                Operation::Equals,
                Operation::NotEqual,
                Operation::GreaterThan,
                Operation::LessThan,
                Operation::GreaterThanOrEqual,
                Operation::LessThanOrEqual,
            ],
            description: "Registry value as version (semver comparison)".to_string(),
            example_values: vec!["6.3".to_string(), "19045".to_string(), "10240".to_string()],
            validation_notes: Some("Uses semantic version comparison rules".to_string()),
        });

    // =========================================================================
    // Field Mappings
    // =========================================================================

    // Object fields used for collection
    contract
        .field_mappings
        .collection_mappings
        .object_to_collection
        .insert("hive".to_string(), "hive".to_string());
    contract
        .field_mappings
        .collection_mappings
        .object_to_collection
        .insert("key".to_string(), "key".to_string());
    contract
        .field_mappings
        .collection_mappings
        .object_to_collection
        .insert("name".to_string(), "name".to_string());

    // Required data fields from collector
    contract
        .field_mappings
        .collection_mappings
        .required_data_fields = vec!["exists".to_string(), "value".to_string()];

    // Optional data fields from collector (type only available with reg executor)
    contract
        .field_mappings
        .collection_mappings
        .optional_data_fields = vec!["type".to_string()];

    // State field → collected data field
    contract
        .field_mappings
        .validation_mappings
        .state_to_data
        .insert("exists".to_string(), "exists".to_string());
    contract
        .field_mappings
        .validation_mappings
        .state_to_data
        .insert("type".to_string(), "type".to_string());
    contract
        .field_mappings
        .validation_mappings
        .state_to_data
        .insert("value".to_string(), "value".to_string());
    contract
        .field_mappings
        .validation_mappings
        .state_to_data
        .insert("value_int".to_string(), "value".to_string()); // parsed from value
    contract
        .field_mappings
        .validation_mappings
        .state_to_data
        .insert("value_version".to_string(), "value".to_string()); // parsed from value

    // =========================================================================
    // Collection Strategy
    // =========================================================================

    contract.collection_strategy = CollectionStrategy {
        collector_type: "windows_registry".to_string(),
        collection_mode: CollectionMode::Metadata,
        required_capabilities: vec!["registry_read".to_string()],
        performance_hints: PerformanceHints {
            expected_collection_time_ms: Some(100),
            memory_usage_mb: Some(1),
            network_intensive: false,
            cpu_intensive: false,
            requires_elevated_privileges: false,
        },
    };
    assert(names_view(contract.collection_strategy.required_capabilities@) =~= seq!["registry_read"@]);

    // =========================================================================
    // Behaviors
    // =========================================================================

    // executor - Collection method selection
    contract.add_supported_behavior(SupportedBehavior {
        name: "executor".to_string(),
        behavior_type: BehaviorType::Parameter,
        parameters: vec![BehaviorParameter {
            name: "executor".to_string(),
            data_type: DataType::String,
            required: false,
            default_value: Some("reg".to_string()),
            description: "Collection method: reg (default) or powershell".to_string(),
        }],
        description: "Select the registry collection executor".to_string(),
        example: "behavior executor powershell".to_string(),
    });

    contract
}

/// The contract of the registry_subkeys CTN type (the subkeys of a registry key: existence, count, names).
#[verifier::rlimit(50)]
pub fn create_registry_subkeys_contract() -> (res: CtnContract)
    ensures
        res.ctn_type@ == "registry_subkeys"@,
        object_field_view(res.object_requirements.required_fields@) == seq![("hive"@, DataType::String), ("key"@, DataType::String)],
        object_field_view(res.object_requirements.optional_fields@).len() == 0,
        state_field_view(res.state_requirements.required_fields@).len() == 0,
        state_field_view(res.state_requirements.optional_fields@) == seq![("exists"@, DataType::Boolean, seq![Operation::Equals, Operation::NotEqual]), ("subkey_count"@, DataType::Int, seq![Operation::Equals, Operation::NotEqual, Operation::GreaterThan, Operation::LessThan, Operation::GreaterThanOrEqual, Operation::LessThanOrEqual]), ("subkeys"@, DataType::String, seq![Operation::Contains, Operation::NotContains, Operation::PatternMatch])],
        pairs_view(res.field_mappings.collection_mappings.object_to_collection.entries@) == seq![("hive"@, "hive"@), ("key"@, "key"@)],
        names_view(res.field_mappings.collection_mappings.required_data_fields@) == seq!["exists"@, "subkey_count"@],
        names_view(res.field_mappings.collection_mappings.optional_data_fields@) == seq!["subkeys"@],
        pairs_view(res.field_mappings.validation_mappings.state_to_data.entries@) == seq![("exists"@, "exists"@), ("subkey_count"@, "subkey_count"@), ("subkeys"@, "subkeys"@)],
        res.collection_strategy.collector_type@ == "windows_registry_subkeys"@,
        res.collection_strategy.collection_mode == CollectionMode::Metadata,
        strategy_needs(res.collection_strategy, seq!["registry_read"@], 150, 2),
        behavior_view(res.supported_behaviors@) == seq![("executor"@, BehaviorType::Parameter)],
        parameter_view(res.supported_behaviors@[0].parameters@) == seq![("executor"@, DataType::String, false, Some("reg"@))],
{
    let mut contract = CtnContract::new("registry_subkeys".to_string());

    // =========================================================================
    // Object Requirements (Input)
    // =========================================================================

    // Required: Registry hive
    contract
        .object_requirements
        .add_required_field(ObjectFieldSpec {
            name: "hive".to_string(),
            data_type: DataType::String,
            description: "Registry hive (HKEY_LOCAL_MACHINE, HKLM, etc.)".to_string(),
            example_values: vec![
                "HKEY_LOCAL_MACHINE".to_string(),
                "HKLM".to_string(),
                "HKEY_CURRENT_USER".to_string(),
            ],
            validation_notes: Some("Valid values: HKEY_LOCAL_MACHINE, HKEY_CURRENT_USER, HKEY_CLASSES_ROOT, HKEY_USERS, HKEY_CURRENT_CONFIG, HKLM, HKCU, HKCR, HKU, HKCC".to_string()),
        });

    // Required: Registry key path
    contract
        .object_requirements
        .add_required_field(ObjectFieldSpec {
            name: "key".to_string(),
            data_type: DataType::String,
            description: "Registry key path (without hive prefix)".to_string(),
            example_values: vec![
                "SOFTWARE\\Microsoft\\Cryptography\\Calais\\Readers".to_string(),
                "SOFTWARE\\Microsoft\\Cryptography\\Calais\\SmartCards".to_string(),
            ],
            validation_notes: Some("Use backslashes as path separators".to_string()),
        });

    // Note: No 'name' field - this CTN enumerates subkeys, not values

    // =========================================================================
    // State Requirements (Validation)
    // =========================================================================

    // exists - Key existence
    contract
        .state_requirements
        .add_optional_field(StateFieldSpec {
            name: "exists".to_string(),
            data_type: DataType::Boolean,
            allowed_operations: vec![Operation::Equals, Operation::NotEqual],
            description: "Whether the registry key exists".to_string(),
            example_values: vec!["true".to_string(), "false".to_string()],
            validation_notes: None,
        });

    // subkey_count - Number of child subkeys
    contract
        .state_requirements
        .add_optional_field(StateFieldSpec {
            name: "subkey_count".to_string(),
            data_type: DataType::Int,
            allowed_operations: vec![
                Operation::Equals,
                Operation::NotEqual,
                Operation::GreaterThan,
                Operation::LessThan,
                Operation::GreaterThanOrEqual,
                Operation::LessThanOrEqual,
            ],
            description: "Number of child subkeys under this key".to_string(),
            example_values: vec!["0".to_string(), "1".to_string(), "5".to_string()],
            validation_notes: Some("Use >= 1 to verify at least one subkey exists".to_string()),
        });

    // subkeys - Check for specific subkey names (optional)
    contract
        .state_requirements
        .add_optional_field(StateFieldSpec {
            name: "subkeys".to_string(),
            data_type: DataType::String,
            allowed_operations: vec![
                Operation::Contains,
                Operation::NotContains,
                Operation::PatternMatch,
            ],
            description: "Check if a specific subkey name exists in the list".to_string(),
            example_values: vec![
                "Microsoft Usbccid Smartcard Reader".to_string(),
                "Identity Device".to_string(),
            ],
            validation_notes: Some(
                "Uses contains to check if subkey name is in the enumerated list".to_string(),
            ),
        });

    // =========================================================================
    // Field Mappings
    // =========================================================================

    // Object fields used for collection
    contract
        .field_mappings
        .collection_mappings
        .object_to_collection
        .insert("hive".to_string(), "hive".to_string());
    contract
        .field_mappings
        .collection_mappings
        .object_to_collection
        .insert("key".to_string(), "key".to_string());

    // Required data fields from collector
    contract
        .field_mappings
        .collection_mappings
        .required_data_fields = vec!["exists".to_string(), "subkey_count".to_string()];

    // Optional data fields from collector
    contract
        .field_mappings
        .collection_mappings
        .optional_data_fields = vec!["subkeys".to_string()];

    // State field → collected data field
    contract
        .field_mappings
        .validation_mappings
        .state_to_data
        .insert("exists".to_string(), "exists".to_string());
    contract
        .field_mappings
        .validation_mappings
        .state_to_data
        .insert("subkey_count".to_string(), "subkey_count".to_string());
    contract
        .field_mappings
        .validation_mappings
        .state_to_data
        .insert("subkeys".to_string(), "subkeys".to_string());

    // =========================================================================
    // Collection Strategy
    // =========================================================================

    contract.collection_strategy = CollectionStrategy {
        collector_type: "windows_registry_subkeys".to_string(),
        collection_mode: CollectionMode::Metadata,
        required_capabilities: vec!["registry_read".to_string()],
        performance_hints: PerformanceHints {
            expected_collection_time_ms: Some(150),
            memory_usage_mb: Some(2),
            network_intensive: false,
            cpu_intensive: false,
            requires_elevated_privileges: false,
        },
    };
    assert(names_view(contract.collection_strategy.required_capabilities@) =~= seq!["registry_read"@]);

    // =========================================================================
    // Behaviors
    // =========================================================================

    // executor - Collection method selection
    contract.add_supported_behavior(SupportedBehavior {
        name: "executor".to_string(),
        behavior_type: BehaviorType::Parameter,
        parameters: vec![BehaviorParameter {
            name: "executor".to_string(),
            data_type: DataType::String,
            required: false,
            default_value: Some("reg".to_string()),
            description: "Collection method: reg (default) or powershell".to_string(),
        }],
        description: "Select the registry collection executor".to_string(),
        example: "behavior executor powershell".to_string(),
    });

    contract
}

/// The contract of the file_metadata CTN type (permissions, owner, group, size, existence and attributes of a file).
#[verifier::rlimit(50)]
pub fn create_file_metadata_contract() -> (res: CtnContract)
    ensures
        res.ctn_type@ == "file_metadata"@,
        object_field_view(res.object_requirements.required_fields@) == seq![("path"@, DataType::String)],
        object_field_view(res.object_requirements.optional_fields@) == seq![("type"@, DataType::String)],
        state_field_view(res.state_requirements.required_fields@).len() == 0,
        state_field_view(res.state_requirements.optional_fields@) == seq![("exists"@, DataType::Boolean, seq![Operation::Equals, Operation::NotEqual]), ("readable"@, DataType::Boolean, seq![Operation::Equals, Operation::NotEqual]), ("writable"@, DataType::Boolean, seq![Operation::Equals, Operation::NotEqual]), ("size"@, DataType::Int, seq![Operation::Equals, Operation::NotEqual, Operation::GreaterThan, Operation::LessThan, Operation::GreaterThanOrEqual, Operation::LessThanOrEqual]), ("is_directory"@, DataType::Boolean, seq![Operation::Equals, Operation::NotEqual]), ("owner_id"@, DataType::String, seq![Operation::Equals, Operation::NotEqual]), ("group_id"@, DataType::String, seq![Operation::Equals, Operation::NotEqual]), ("permissions"@, DataType::String, seq![Operation::Equals, Operation::NotEqual]), ("is_readonly"@, DataType::Boolean, seq![Operation::Equals, Operation::NotEqual]), ("is_hidden"@, DataType::Boolean, seq![Operation::Equals, Operation::NotEqual]), ("is_system"@, DataType::Boolean, seq![Operation::Equals, Operation::NotEqual])],
        pairs_view(res.field_mappings.collection_mappings.object_to_collection.entries@) == seq![("path"@, "target_path"@)],
        names_view(res.field_mappings.collection_mappings.required_data_fields@) == seq!["exists"@, "readable"@, "writable"@, "file_size"@, "is_directory"@, "file_owner"@, "file_group"@, "file_mode"@, "is_readonly"@, "is_hidden"@, "is_system"@],
        names_view(res.field_mappings.collection_mappings.optional_data_fields@).len() == 0,
        pairs_view(res.field_mappings.validation_mappings.state_to_data.entries@) == seq![("exists"@, "exists"@), ("readable"@, "readable"@), ("writable"@, "writable"@), ("size"@, "file_size"@), ("is_directory"@, "is_directory"@), ("owner_id"@, "file_owner"@), ("group_id"@, "file_group"@), ("permissions"@, "file_mode"@), ("is_readonly"@, "is_readonly"@), ("is_hidden"@, "is_hidden"@), ("is_system"@, "is_system"@)],
        res.collection_strategy.collector_type@ == "filesystem"@,
        res.collection_strategy.collection_mode == CollectionMode::Metadata,
        strategy_needs(res.collection_strategy, seq!["file_access"@], 5, 1),
        behavior_view(res.supported_behaviors@).len() == 0,
{
    let mut contract = CtnContract::new("file_metadata".to_string());

    // ========================================================================
    // Object Requirements
    // ========================================================================

    contract
        .object_requirements
        .add_required_field(ObjectFieldSpec {
            name: "path".to_string(),
            data_type: DataType::String,
            description: "File system path (absolute or relative)".to_string(),
            example_values: vec![
                "/etc/sudoers".to_string(),
                "C:\\Windows\\System32\\config\\SAM".to_string(),
            ],
            validation_notes: Some("Supports VAR resolution".to_string()),
        });

    contract
        .object_requirements
        .add_optional_field(ObjectFieldSpec {
            name: "type".to_string(),
            data_type: DataType::String,
            description: "Resource type indicator".to_string(),
            example_values: vec!["file".to_string()],
            validation_notes: Some("Informational only".to_string()),
        });

    // ========================================================================
    // State Requirements - Portable Fields
    // ========================================================================

    contract
        .state_requirements
        .add_optional_field(StateFieldSpec {
            name: "exists".to_string(),
            data_type: DataType::Boolean,
            allowed_operations: vec![Operation::Equals, Operation::NotEqual],
            description: "Whether file exists".to_string(),
            example_values: vec!["true".to_string(), "false".to_string()],
            validation_notes: Some("Portable: works on all platforms".to_string()),
        });

    contract
        .state_requirements
        .add_optional_field(StateFieldSpec {
            name: "readable".to_string(),
            data_type: DataType::Boolean,
            allowed_operations: vec![Operation::Equals, Operation::NotEqual],
            description: "Whether file is readable by current process".to_string(),
            example_values: vec!["true".to_string(), "false".to_string()],
            validation_notes: Some("Portable: tests read permission".to_string()),
        });

    contract
        .state_requirements
        .add_optional_field(StateFieldSpec {
            name: "writable".to_string(),
            data_type: DataType::Boolean,
            allowed_operations: vec![Operation::Equals, Operation::NotEqual],
            description: "Whether file is writable by current process".to_string(),
            example_values: vec!["true".to_string(), "false".to_string()],
            validation_notes: Some("Portable: tests write permission".to_string()),
        });

    contract
        .state_requirements
        .add_optional_field(StateFieldSpec {
            name: "size".to_string(),
            data_type: DataType::Int,
            allowed_operations: vec![
                Operation::Equals,
                Operation::NotEqual,
                Operation::GreaterThan,
                Operation::LessThan,
                Operation::GreaterThanOrEqual,
                Operation::LessThanOrEqual,
            ],
            description: "File size in bytes".to_string(),
            example_values: vec!["0".to_string(), "1024".to_string()],
            validation_notes: Some("Portable: integer bytes".to_string()),
        });

    contract
        .state_requirements
        .add_optional_field(StateFieldSpec {
            name: "is_directory".to_string(),
            data_type: DataType::Boolean,
            allowed_operations: vec![Operation::Equals, Operation::NotEqual],
            description: "Whether path is a directory".to_string(),
            example_values: vec!["true".to_string(), "false".to_string()],
            validation_notes: Some("Portable: works on all platforms".to_string()),
        });

    contract
        .state_requirements
        .add_optional_field(StateFieldSpec {
            name: "owner_id".to_string(),
            data_type: DataType::String,
            allowed_operations: vec![Operation::Equals, Operation::NotEqual],
            description: "File owner identifier (UID on Unix, SID on Windows)".to_string(),
            example_values: vec!["0".to_string(), "S-1-5-18".to_string()],
            validation_notes: Some(
                "Portable field, platform-specific values: UID string on Unix, SID on Windows"
                    .to_string(),
            ),
        });

    contract
        .state_requirements
        .add_optional_field(StateFieldSpec {
            name: "group_id".to_string(),
            data_type: DataType::String,
            allowed_operations: vec![Operation::Equals, Operation::NotEqual],
            description: "File group identifier (GID on Unix, SID on Windows)".to_string(),
            example_values: vec!["0".to_string(), "S-1-5-32-544".to_string()],
            validation_notes: Some(
                "Portable field, platform-specific values: GID string on Unix, SID on Windows"
                    .to_string(),
            ),
        });

    // ========================================================================
    // State Requirements - Linux/macOS Only
    // ========================================================================

    contract
        .state_requirements
        .add_optional_field(StateFieldSpec {
            name: "permissions".to_string(),
            data_type: DataType::String,
            allowed_operations: vec![Operation::Equals, Operation::NotEqual],
            description: "File permissions in octal format (Linux/macOS only)".to_string(),
            example_values: vec!["0440".to_string(), "0644".to_string(), "0755".to_string()],
            validation_notes: Some(
                "Linux/macOS only: 4-digit octal format. Returns empty string on Windows."
                    .to_string(),
            ),
        });

    // ========================================================================
    // State Requirements - Windows Only
    // ========================================================================

    contract
        .state_requirements
        .add_optional_field(StateFieldSpec {
            name: "is_readonly".to_string(),
            data_type: DataType::Boolean,
            allowed_operations: vec![Operation::Equals, Operation::NotEqual],
            description: "Whether file has read-only attribute (Windows only)".to_string(),
            example_values: vec!["true".to_string(), "false".to_string()],
            validation_notes: Some("Windows only: always returns false on Linux/macOS".to_string()),
        });

    contract
        .state_requirements
        .add_optional_field(StateFieldSpec {
            name: "is_hidden".to_string(),
            data_type: DataType::Boolean,
            allowed_operations: vec![Operation::Equals, Operation::NotEqual],
            description: "Whether file has hidden attribute (Windows only)".to_string(),
            example_values: vec!["true".to_string(), "false".to_string()],
            validation_notes: Some("Windows only: always returns false on Linux/macOS".to_string()),
        });

    contract
        .state_requirements
        .add_optional_field(StateFieldSpec {
            name: "is_system".to_string(),
            data_type: DataType::Boolean,
            allowed_operations: vec![Operation::Equals, Operation::NotEqual],
            description: "Whether file has system attribute (Windows only)".to_string(),
            example_values: vec!["true".to_string(), "false".to_string()],
            validation_notes: Some("Windows only: always returns false on Linux/macOS".to_string()),
        });

    // ========================================================================
    // Field Mappings
    // ========================================================================

    contract
        .field_mappings
        .collection_mappings
        .object_to_collection
        .insert("path".to_string(), "target_path".to_string());

    contract
        .field_mappings
        .collection_mappings
        .required_data_fields = vec![
        // Portable fields
        "exists".to_string(),
        "readable".to_string(),
        "writable".to_string(),
        "file_size".to_string(),
        "is_directory".to_string(),
        "file_owner".to_string(),
        "file_group".to_string(),
        // Platform-specific (may be empty/false on some platforms)
        "file_mode".to_string(),
        "is_readonly".to_string(),
        "is_hidden".to_string(),
        "is_system".to_string(),
    ];

    // Portable mappings
    contract
        .field_mappings
        .validation_mappings
        .state_to_data
        .insert("exists".to_string(), "exists".to_string());
    contract
        .field_mappings
        .validation_mappings
        .state_to_data
        .insert("readable".to_string(), "readable".to_string());
    contract
        .field_mappings
        .validation_mappings
        .state_to_data
        .insert("writable".to_string(), "writable".to_string());
    contract
        .field_mappings
        .validation_mappings
        .state_to_data
        .insert("size".to_string(), "file_size".to_string());
    contract
        .field_mappings
        .validation_mappings
        .state_to_data
        .insert("is_directory".to_string(), "is_directory".to_string());
    contract
        .field_mappings
        .validation_mappings
        .state_to_data
        .insert("owner_id".to_string(), "file_owner".to_string());
    contract
        .field_mappings
        .validation_mappings
        .state_to_data
        .insert("group_id".to_string(), "file_group".to_string());

    // Linux/macOS only
    contract
        .field_mappings
        .validation_mappings
        .state_to_data
        .insert("permissions".to_string(), "file_mode".to_string());

    // Windows only
    contract
        .field_mappings
        .validation_mappings
        .state_to_data
        .insert("is_readonly".to_string(), "is_readonly".to_string());
    contract
        .field_mappings
        .validation_mappings
        .state_to_data
        .insert("is_hidden".to_string(), "is_hidden".to_string());
    contract
        .field_mappings
        .validation_mappings
        .state_to_data
        .insert("is_system".to_string(), "is_system".to_string());

    // ========================================================================
    // Collection Strategy
    // ========================================================================

    contract.collection_strategy = CollectionStrategy {
        collector_type: "filesystem".to_string(),
        collection_mode: CollectionMode::Metadata,
        required_capabilities: vec!["file_access".to_string()],
        performance_hints: PerformanceHints {
            expected_collection_time_ms: Some(5),
            memory_usage_mb: Some(1),
            network_intensive: false,
            cpu_intensive: false,
            requires_elevated_privileges: false,
        },
    };
    assert(names_view(contract.collection_strategy.required_capabilities@) =~= seq!["file_access"@]);

    contract
}

/// The contract of the file_content CTN type (the text of a file checked with string operations).
#[verifier::rlimit(50)]
pub fn create_file_content_contract() -> (res: CtnContract)
    ensures
        res.ctn_type@ == "file_content"@,
        object_field_view(res.object_requirements.required_fields@) == seq![("path"@, DataType::String)],
        object_field_view(res.object_requirements.optional_fields@) == seq![("type"@, DataType::String)],
        state_field_view(res.state_requirements.required_fields@).len() == 0,
        state_field_view(res.state_requirements.optional_fields@) == seq![("content"@, DataType::String, seq![Operation::Equals, Operation::NotEqual, Operation::Contains, Operation::NotContains, Operation::StartsWith, Operation::EndsWith, Operation::PatternMatch])],
        pairs_view(res.field_mappings.collection_mappings.object_to_collection.entries@) == seq![("path"@, "target_path"@)],
        names_view(res.field_mappings.collection_mappings.required_data_fields@) == seq!["file_content"@],
        names_view(res.field_mappings.collection_mappings.optional_data_fields@).len() == 0,
        pairs_view(res.field_mappings.validation_mappings.state_to_data.entries@) == seq![("content"@, "file_content"@)],
        res.collection_strategy.collector_type@ == "filesystem"@,
        res.collection_strategy.collection_mode == CollectionMode::Content,
        strategy_needs(res.collection_strategy, seq!["file_access"@], 50, 10),
        behavior_view(res.supported_behaviors@) == seq![("recursive_scan"@, BehaviorType::Flag), ("include_hidden"@, BehaviorType::Flag), ("binary_mode"@, BehaviorType::Flag), ("follow_symlinks"@, BehaviorType::Flag)],
        parameter_view(res.supported_behaviors@[0].parameters@) == seq![("max_depth"@, DataType::Int, false, Some("3"@))],
        parameter_view(res.supported_behaviors@[1].parameters@).len() == 0,
        parameter_view(res.supported_behaviors@[2].parameters@).len() == 0,
        parameter_view(res.supported_behaviors@[3].parameters@).len() == 0,
{
    let mut contract = CtnContract::new("file_content".to_string());

    // Object requirements (same as metadata)
    contract
        .object_requirements
        .add_required_field(ObjectFieldSpec {
            name: "path".to_string(),
            data_type: DataType::String,
            description: "File system path (absolute or relative)".to_string(),
            example_values: vec![
                "/etc/sudoers".to_string(),
                "C:\\ProgramData\\MyApp\\config.ini".to_string(),
            ],
            validation_notes: Some("Supports VAR resolution".to_string()),
        });

    contract
        .object_requirements
        .add_optional_field(ObjectFieldSpec {
            name: "type".to_string(),
            data_type: DataType::String,
            description: "Resource type indicator".to_string(),
            example_values: vec!["file".to_string()],
            validation_notes: Some("Informational only".to_string()),
        });

    // State requirements - content field with string operations
    contract
        .state_requirements
        .add_optional_field(StateFieldSpec {
            name: "content".to_string(),
            data_type: DataType::String,
            allowed_operations: vec![
                Operation::Equals,
                Operation::NotEqual,
                Operation::Contains,
                Operation::NotContains,
                Operation::StartsWith,
                Operation::EndsWith,
                Operation::PatternMatch,
            ],
            description: "File content as UTF-8 string".to_string(),
            example_values: vec!["logfile=".to_string(), "NOPASSWD".to_string()],
            validation_notes: Some("Binary files will error or return as binary".to_string()),
        });

    // Field mappings
    contract
        .field_mappings
        .collection_mappings
        .object_to_collection
        .insert("path".to_string(), "target_path".to_string());

    contract
        .field_mappings
        .collection_mappings
        .required_data_fields = vec!["file_content".to_string()];

    contract
        .field_mappings
        .validation_mappings
        .state_to_data
        .insert("content".to_string(), "file_content".to_string());

    // Collection strategy - more expensive
    contract.collection_strategy = CollectionStrategy {
        collector_type: "filesystem".to_string(),
        collection_mode: CollectionMode::Content,
        required_capabilities: vec!["file_access".to_string()],
        performance_hints: PerformanceHints {
            expected_collection_time_ms: Some(50),
            memory_usage_mb: Some(10),
            network_intensive: false,
            cpu_intensive: false,
            requires_elevated_privileges: false,
        },
    };
    assert(names_view(contract.collection_strategy.required_capabilities@) =~= seq!["file_access"@]);

    contract.add_supported_behavior(SupportedBehavior {
        name: "recursive_scan".to_string(),
        behavior_type: BehaviorType::Flag,
        parameters: vec![BehaviorParameter {
            name: "max_depth".to_string(),
            data_type: DataType::Int,
            required: false,
            default_value: Some("3".to_string()),
            description: "Maximum directory depth for recursive scan".to_string(),
        }],
        description: "Recursively scan directories for matching files".to_string(),
        example: "BEHAVIOR recursive_scan max_depth 5".to_string(),
    });

    contract.add_supported_behavior(SupportedBehavior {
        name: "include_hidden".to_string(),
        behavior_type: BehaviorType::Flag,
        parameters: vec![],
        description: "Include hidden files (starting with .) in scan".to_string(),
        example: "BEHAVIOR include_hidden".to_string(),
    });

    contract.add_supported_behavior(SupportedBehavior {
        name: "binary_mode".to_string(),
        behavior_type: BehaviorType::Flag,
        parameters: vec![],
        description: "Collect binary files as base64-encoded data".to_string(),
        example: "BEHAVIOR binary_mode".to_string(),
    });

    contract.add_supported_behavior(SupportedBehavior {
        name: "follow_symlinks".to_string(),
        behavior_type: BehaviorType::Flag,
        parameters: vec![],
        description: "Follow symbolic links during collection".to_string(),
        example: "BEHAVIOR follow_symlinks".to_string(),
    });

    contract
}

/// The contract of the json_record CTN type (fields of a JSON document checked by record checks).
#[verifier::rlimit(50)]
pub fn create_json_record_contract() -> (res: CtnContract)
    ensures
        res.ctn_type@ == "json_record"@,
        object_field_view(res.object_requirements.required_fields@) == seq![("path"@, DataType::String)],
        object_field_view(res.object_requirements.optional_fields@).len() == 0,
        state_field_view(res.state_requirements.required_fields@).len() == 0,
        state_field_view(res.state_requirements.optional_fields@) == seq![("record"@, DataType::RecordData, seq![Operation::Equals])],
        pairs_view(res.field_mappings.collection_mappings.object_to_collection.entries@) == seq![("path"@, "file_path"@)],
        names_view(res.field_mappings.collection_mappings.required_data_fields@) == seq!["json_data"@],
        names_view(res.field_mappings.collection_mappings.optional_data_fields@).len() == 0,
        pairs_view(res.field_mappings.validation_mappings.state_to_data.entries@) == seq![("record"@, "json_data"@)],
        res.collection_strategy.collector_type@ == "filesystem"@,
        res.collection_strategy.collection_mode == CollectionMode::Content,
        strategy_needs(res.collection_strategy, seq!["file_access"@, "json_parsing"@], 100, 10),
        behavior_view(res.supported_behaviors@).len() == 0,
{
    let mut contract = CtnContract::new("json_record".to_string());

    // Object requirements
    contract
        .object_requirements
        .add_required_field(ObjectFieldSpec {
            name: "path".to_string(),
            data_type: DataType::String,
            description: "Path to JSON file".to_string(),
            example_values: vec!["scanfiles/test_data.json".to_string()],
            validation_notes: Some("Must be valid JSON file".to_string()),
        });

    // State requirements - allow record checks
    contract
        .state_requirements
        .add_optional_field(StateFieldSpec {
            name: "record".to_string(),
            data_type: DataType::RecordData,
            allowed_operations: vec![Operation::Equals],
            description: "Record validation with field paths".to_string(),
            example_values: vec!["See record_checks".to_string()],
            validation_notes: Some("Use record checks for JSON validation".to_string()),
        });

    assert(state_field_view(contract.state_requirements.optional_fields@).len() == 1);
    assert(state_field_view(contract.state_requirements.optional_fields@)[0].0 == "record"@);
    assert(state_field_view(contract.state_requirements.optional_fields@)[0].2 == seq![Operation::Equals]);
    // Field mappings
    contract
        .field_mappings
        .collection_mappings
        .object_to_collection
        .insert("path".to_string(), "file_path".to_string());

    contract
        .field_mappings
        .collection_mappings
        .required_data_fields = vec!["json_data".to_string()];

    contract
        .field_mappings
        .validation_mappings
        .state_to_data
        .insert("record".to_string(), "json_data".to_string());

    // Collection strategy
    contract.collection_strategy = CollectionStrategy {
        collector_type: "filesystem".to_string(),
        collection_mode: CollectionMode::Content,
        required_capabilities: vec!["file_access".to_string(), "json_parsing".to_string()],
        performance_hints: PerformanceHints {
            expected_collection_time_ms: Some(100),
            memory_usage_mb: Some(10),
            network_intensive: false,
            cpu_intensive: false,
            requires_elevated_privileges: false,
        },
    };
    assert(names_view(contract.collection_strategy.required_capabilities@) =~= seq!["file_access"@, "json_parsing"@]);

    contract
}

/// The contract of the k8s_resource CTN type (Kubernetes API resources,
/// validated with record checks over the JSON that `kubectl get` returns).
#[verifier::rlimit(50)]
pub fn create_k8s_resource_contract() -> (res: CtnContract)
    ensures
        res.ctn_type@ == "k8s_resource"@,
        object_field_view(res.object_requirements.required_fields@) == seq![("kind"@, DataType::String)],
        object_field_view(res.object_requirements.optional_fields@) == seq![("namespace"@, DataType::String), ("label_selector"@, DataType::String)],
        state_field_view(res.state_requirements.required_fields@).len() == 0,
        state_field_view(res.state_requirements.optional_fields@) == seq![("record"@, DataType::RecordData, seq![Operation::Equals])],
        pairs_view(res.field_mappings.collection_mappings.object_to_collection.entries@) == seq![("kind"@, "kind"@), ("namespace"@, "namespace"@), ("label_selector"@, "label_selector"@)],
        names_view(res.field_mappings.collection_mappings.required_data_fields@) == seq!["json_data"@],
        names_view(res.field_mappings.collection_mappings.optional_data_fields@).len() == 0,
        pairs_view(res.field_mappings.validation_mappings.state_to_data.entries@) == seq![("record"@, "json_data"@)],
        res.collection_strategy.collector_type@ == "k8s_resource"@,
        res.collection_strategy.collection_mode == CollectionMode::Content,
        names_view(res.collection_strategy.required_capabilities@) == seq!["kubectl_access"@],
        res.collection_strategy.performance_hints.expected_collection_time_ms == Some(1000u64),
        res.collection_strategy.performance_hints.memory_usage_mb == Some(10u64),
        res.collection_strategy.performance_hints.network_intensive,
        !res.collection_strategy.performance_hints.cpu_intensive,
        !res.collection_strategy.performance_hints.requires_elevated_privileges,
        behavior_view(res.supported_behaviors@).len() == 0,
{
    let mut contract = CtnContract::new("k8s_resource".to_string());

    // Object requirements
    contract
        .object_requirements
        .add_required_field(ObjectFieldSpec {
            name: "kind".to_string(),
            data_type: DataType::String,
            description: "Kind of the Kubernetes resource".to_string(),
            example_values: vec!["Pod".to_string()],
            validation_notes: None,
        });
    contract
        .object_requirements
        .add_optional_field(ObjectFieldSpec {
            name: "namespace".to_string(),
            data_type: DataType::String,
            description: "Namespace of the resources".to_string(),
            example_values: vec!["kube-system".to_string()],
            validation_notes: None,
        });
    contract
        .object_requirements
        .add_optional_field(ObjectFieldSpec {
            name: "label_selector".to_string(),
            data_type: DataType::String,
            description: "Label selector of the resources".to_string(),
            example_values: vec!["component=kube-apiserver".to_string()],
            validation_notes: None,
        });

    // State requirements - record checks over the resource JSON
    contract
        .state_requirements
        .add_optional_field(StateFieldSpec {
            name: "record".to_string(),
            data_type: DataType::RecordData,
            allowed_operations: vec![Operation::Equals],
            description: "Record validation with field paths".to_string(),
            example_values: vec!["spec.containers.0.command".to_string()],
            validation_notes: Some("Use record checks for resource validation".to_string()),
        });

    assert(state_field_view(contract.state_requirements.optional_fields@).len() == 1);
    assert(state_field_view(contract.state_requirements.optional_fields@)[0].0 == "record"@);
    assert(state_field_view(contract.state_requirements.optional_fields@)[0].2 == seq![Operation::Equals]);
    // Field mappings
    contract
        .field_mappings
        .collection_mappings
        .object_to_collection
        .insert("kind".to_string(), "kind".to_string());
    contract
        .field_mappings
        .collection_mappings
        .object_to_collection
        .insert("namespace".to_string(), "namespace".to_string());
    contract
        .field_mappings
        .collection_mappings
        .object_to_collection
        .insert("label_selector".to_string(), "label_selector".to_string());

    contract
        .field_mappings
        .collection_mappings
        .required_data_fields = vec!["json_data".to_string()];

    contract
        .field_mappings
        .validation_mappings
        .state_to_data
        .insert("record".to_string(), "json_data".to_string());

    // Collection strategy
    contract.collection_strategy = CollectionStrategy {
        collector_type: "k8s_resource".to_string(),
        collection_mode: CollectionMode::Content,
        required_capabilities: vec!["kubectl_access".to_string()],
        performance_hints: PerformanceHints {
            expected_collection_time_ms: Some(1000),
            memory_usage_mb: Some(10),
            network_intensive: true,
            cpu_intensive: false,
            requires_elevated_privileges: false,
        },
    };
    assert(names_view(contract.collection_strategy.required_capabilities@) =~= seq!["kubectl_access"@]);

    contract
}

/// The contract of the computed_values CTN type (variables computed by RUN operations).
#[verifier::rlimit(50)]
pub fn create_computed_values_contract() -> (res: CtnContract)
    ensures
        res.ctn_type@ == "computed_values"@,
        object_field_view(res.object_requirements.required_fields@).len() == 0,
        object_field_view(res.object_requirements.optional_fields@) == seq![("type"@, DataType::String), ("description"@, DataType::String)],
        state_field_view(res.state_requirements.required_fields@).len() == 0,
        state_field_view(res.state_requirements.optional_fields@) == seq![("*"@, DataType::String, seq![Operation::Equals, Operation::NotEqual, Operation::Contains, Operation::NotContains, Operation::StartsWith, Operation::EndsWith]), ("*_int"@, DataType::Int, seq![Operation::Equals, Operation::NotEqual, Operation::GreaterThan, Operation::LessThan, Operation::GreaterThanOrEqual, Operation::LessThanOrEqual]), ("*_bool"@, DataType::Boolean, seq![Operation::Equals, Operation::NotEqual])],
        pairs_view(res.field_mappings.collection_mappings.object_to_collection.entries@).len() == 0,
        names_view(res.field_mappings.collection_mappings.required_data_fields@) == seq!["_validation_marker"@],
        names_view(res.field_mappings.collection_mappings.optional_data_fields@).len() == 0,
        pairs_view(res.field_mappings.validation_mappings.state_to_data.entries@).len() == 0,
        res.collection_strategy.collector_type@ == "computed_values"@,
        res.collection_strategy.collection_mode == CollectionMode::Metadata,
        strategy_needs(res.collection_strategy, Seq::empty(), 0, 0),
        behavior_view(res.supported_behaviors@).len() == 0,
{
    let mut contract = CtnContract::new("computed_values".to_string());

    // Object requirements - minimal, just needs an identifier
    contract
        .object_requirements
        .add_optional_field(ObjectFieldSpec {
            name: "type".to_string(),
            data_type: DataType::String,
            description: "Validation type marker".to_string(),
            example_values: vec!["test".to_string(), "validation".to_string()],
            validation_notes: Some("Informational only - not used for collection".to_string()),
        });

    contract
        .object_requirements
        .add_optional_field(ObjectFieldSpec {
            name: "description".to_string(),
            data_type: DataType::String,
            description: "Description of what is being validated".to_string(),
            example_values: vec!["RUN operations test".to_string()],
            validation_notes: Some("Informational only".to_string()),
        });

    // State requirements - flexible to support any computed value type
    // String values
    contract
        .state_requirements
        .add_optional_field(StateFieldSpec {
            name: "*".to_string(), // Wildcard - any field name accepted
            data_type: DataType::String,
            allowed_operations: vec![
                Operation::Equals,
                Operation::NotEqual,
                Operation::Contains,
                Operation::NotContains,
                Operation::StartsWith,
                Operation::EndsWith,
            ],
            description: "Any string variable".to_string(),
            example_values: vec!["Hello".to_string(), "test".to_string()],
            validation_notes: Some("Validates against resolved variables".to_string()),
        });

    // Integer values
    contract
        .state_requirements
        .add_optional_field(StateFieldSpec {
            name: "*_int".to_string(),
            data_type: DataType::Int,
            allowed_operations: vec![
                Operation::Equals,
                Operation::NotEqual,
                Operation::GreaterThan,
                Operation::LessThan,
                Operation::GreaterThanOrEqual,
                Operation::LessThanOrEqual,
            ],
            description: "Any integer variable".to_string(),
            example_values: vec!["42".to_string(), "100".to_string()],
            validation_notes: Some("Validates against resolved variables".to_string()),
        });

    // Boolean values
    contract
        .state_requirements
        .add_optional_field(StateFieldSpec {
            name: "*_bool".to_string(),
            data_type: DataType::Boolean,
            allowed_operations: vec![Operation::Equals, Operation::NotEqual],
            description: "Any boolean variable".to_string(),
            example_values: vec!["true".to_string(), "false".to_string()],
            validation_notes: Some("Validates against resolved variables".to_string()),
        });

    // Field mappings - Add a dummy required field to satisfy validation
    contract
        .field_mappings
        .collection_mappings
        .required_data_fields = vec!["_validation_marker".to_string()];

    // Validation mappings are identity mappings (state field → variable name)
    // The executor will implement this by looking up variables directly

    // Collection strategy - no actual collection happens
    contract.collection_strategy = CollectionStrategy {
        collector_type: "computed_values".to_string(),
        collection_mode: CollectionMode::Metadata, // Closest match, but not really collecting
        required_capabilities: vec![],
        performance_hints: PerformanceHints {
            expected_collection_time_ms: Some(0),
            memory_usage_mb: Some(0),
            network_intensive: false,
            cpu_intensive: false,
            requires_elevated_privileges: false,
        },
    };
    assert(names_view(contract.collection_strategy.required_capabilities@) =~= Seq::<Seq<char>>::empty());

    contract
}

/// The contract of the tcp_listener CTN type (whether a TCP port is listening).
#[verifier::rlimit(50)]
pub fn create_tcp_listener_contract() -> (res: CtnContract)
    ensures
        res.ctn_type@ == "tcp_listener"@,
        object_field_view(res.object_requirements.required_fields@) == seq![("port"@, DataType::Int)],
        object_field_view(res.object_requirements.optional_fields@) == seq![("host"@, DataType::String)],
        state_field_view(res.state_requirements.required_fields@).len() == 0,
        state_field_view(res.state_requirements.optional_fields@) == seq![("listening"@, DataType::Boolean, seq![Operation::Equals, Operation::NotEqual])],
        pairs_view(res.field_mappings.collection_mappings.object_to_collection.entries@) == seq![("port"@, "port"@), ("host"@, "host"@)],
        names_view(res.field_mappings.collection_mappings.required_data_fields@) == seq!["listening"@],
        names_view(res.field_mappings.collection_mappings.optional_data_fields@) == seq!["local_address"@],
        pairs_view(res.field_mappings.validation_mappings.state_to_data.entries@) == seq![("listening"@, "listening"@)],
        res.collection_strategy.collector_type@ == "tcp_listener"@,
        res.collection_strategy.collection_mode == CollectionMode::Metadata,
        strategy_needs(res.collection_strategy, seq!["procfs_access"@], 10, 1),
        behavior_view(res.supported_behaviors@).len() == 0,
{
    let mut contract = CtnContract::new("tcp_listener".to_string());

    // Object requirements
    contract
        .object_requirements
        .add_required_field(ObjectFieldSpec {
            name: "port".to_string(),
            data_type: DataType::Int,
            description: "TCP port number to check".to_string(),
            example_values: vec!["22".to_string(), "10255".to_string(), "8080".to_string()],
            validation_notes: Some("Port range 1-65535".to_string()),
        });

    contract
        .object_requirements
        .add_optional_field(ObjectFieldSpec {
            name: "host".to_string(),
            data_type: DataType::String,
            description: "Bind address filter (default: any)".to_string(),
            example_values: vec![
                "0.0.0.0".to_string(),
                "127.0.0.1".to_string(),
                "any".to_string(),
            ],
            validation_notes: Some("Use 'any' or omit to match any bind address".to_string()),
        });

    // State requirements
    contract
        .state_requirements
        .add_optional_field(StateFieldSpec {
            name: "listening".to_string(),
            data_type: DataType::Boolean,
            allowed_operations: vec![Operation::Equals, Operation::NotEqual],
            description: "Whether port is in LISTEN state".to_string(),
            example_values: vec!["true".to_string(), "false".to_string()],
            validation_notes: Some("true if any process is listening on the port".to_string()),
        });

    // Field mappings - object to collection
    contract
        .field_mappings
        .collection_mappings
        .object_to_collection
        .insert("port".to_string(), "port".to_string());
    contract
        .field_mappings
        .collection_mappings
        .object_to_collection
        .insert("host".to_string(), "host".to_string());

    // Required data fields from collection
    contract
        .field_mappings
        .collection_mappings
        .required_data_fields = vec!["listening".to_string()];

    // Optional data fields
    contract
        .field_mappings
        .collection_mappings
        .optional_data_fields = vec!["local_address".to_string()];

    // State to data mappings for validation
    contract
        .field_mappings
        .validation_mappings
        .state_to_data
        .insert("listening".to_string(), "listening".to_string());

    // Collection strategy
    contract.collection_strategy = CollectionStrategy {
        collector_type: "tcp_listener".to_string(),
        collection_mode: CollectionMode::Metadata,
        required_capabilities: vec!["procfs_access".to_string()],
        performance_hints: PerformanceHints {
            expected_collection_time_ms: Some(10),
            memory_usage_mb: Some(1),
            network_intensive: false,
            cpu_intensive: false,
            requires_elevated_privileges: false,
        },
    };
    assert(names_view(contract.collection_strategy.required_capabilities@) =~= seq!["procfs_access"@]);

    contract
}

} // verus!
