use esp_agent::contract::{BehaviorType, CollectionMode, DataType};
use esp_agent::contracts::{
    create_computed_values_contract, create_file_content_contract, create_file_metadata_contract,
    create_json_record_contract, create_registry_contract, create_registry_subkeys_contract,
    create_service_contract, create_tcp_listener_contract,
};
use esp_agent::criteria::Operation;
use esp_agent::registry::{create_scanner_registry, CollectorKind, CtnStrategyRegistry};

#[test]
fn registry_test_contract_creation() {
    let contract = create_registry_contract();
    assert_eq!(contract.ctn_type, "registry");
}

#[test]
fn registry_test_object_requirements() {
    let contract = create_registry_contract();
    assert_eq!(contract.object_requirements.required_fields.len(), 3);
    let field_names: Vec<&str> =
        contract.object_requirements.required_fields.iter().map(|f| f.name.as_str()).collect();
    assert!(field_names.contains(&"hive"));
    assert!(field_names.contains(&"key"));
    assert!(field_names.contains(&"name"));
}

#[test]
fn registry_test_state_requirements() {
    let contract = create_registry_contract();
    assert_eq!(contract.state_requirements.optional_fields.len(), 5);
    let field_names: Vec<&str> =
        contract.state_requirements.optional_fields.iter().map(|f| f.name.as_str()).collect();
    assert!(field_names.contains(&"exists"));
    assert!(field_names.contains(&"type"));
    assert!(field_names.contains(&"value"));
    assert!(field_names.contains(&"value_int"));
    assert!(field_names.contains(&"value_version"));
}

#[test]
fn registry_test_behaviors() {
    let contract = create_registry_contract();
    assert_eq!(contract.supported_behaviors.len(), 1);
    assert_eq!(contract.supported_behaviors.first().map(|b| b.name.as_str()), Some("executor"));
}

#[test]
fn registry_subkeys_test_contract_creation() {
    let contract = create_registry_subkeys_contract();
    assert_eq!(contract.ctn_type, "registry_subkeys");
}

#[test]
fn registry_subkeys_test_object_requirements() {
    let contract = create_registry_subkeys_contract();
    assert_eq!(contract.object_requirements.required_fields.len(), 2);
    let field_names: Vec<&str> =
        contract.object_requirements.required_fields.iter().map(|f| f.name.as_str()).collect();
    assert!(field_names.contains(&"hive"));
    assert!(field_names.contains(&"key"));
    assert!(!field_names.contains(&"name"));
}

#[test]
fn registry_subkeys_test_state_requirements() {
    let contract = create_registry_subkeys_contract();
    assert_eq!(contract.state_requirements.optional_fields.len(), 3);
    let field_names: Vec<&str> =
        contract.state_requirements.optional_fields.iter().map(|f| f.name.as_str()).collect();
    assert!(field_names.contains(&"exists"));
    assert!(field_names.contains(&"subkey_count"));
    assert!(field_names.contains(&"subkeys"));
}

#[test]
fn registry_subkeys_test_behaviors() {
    let contract = create_registry_subkeys_contract();
    assert_eq!(contract.supported_behaviors.len(), 1);
    assert_eq!(contract.supported_behaviors.first().map(|b| b.name.as_str()), Some("executor"));
}

#[test]
fn registry_subkeys_test_collection_strategy() {
    let contract = create_registry_subkeys_contract();
    assert_eq!(contract.collection_strategy.collector_type, "windows_registry_subkeys");
}

#[test]
fn service_test_contract_creation() {
    let contract = create_service_contract();
    assert_eq!(contract.ctn_type, "service");
}

#[test]
fn service_test_object_requirements() {
    let contract = create_service_contract();
    assert_eq!(contract.object_requirements.required_fields.len(), 1);
    let field = contract.object_requirements.required_fields.first();
    assert!(field.is_some());
    assert_eq!(field.map(|f| f.name.as_str()), Some("name"));
    assert_eq!(field.map(|f| f.data_type), Some(DataType::String));
}

#[test]
fn service_test_state_requirements() {
    let contract = create_service_contract();
    assert_eq!(contract.state_requirements.optional_fields.len(), 6);
    let field_names: Vec<&str> =
        contract.state_requirements.optional_fields.iter().map(|f| f.name.as_str()).collect();
    assert!(field_names.contains(&"exists"));
    assert!(field_names.contains(&"state"));
    assert!(field_names.contains(&"start_type"));
    assert!(field_names.contains(&"display_name"));
    assert!(field_names.contains(&"path"));
    assert!(field_names.contains(&"service_type"));
}

#[test]
fn test_state_operations() {
    let contract = create_service_contract();
    let state_field = contract.state_requirements.optional_fields.iter().find(|f| f.name == "state");
    assert!(state_field.is_some());
    assert!(state_field.map(|f| f.allowed_operations.contains(&Operation::Equals)).unwrap_or(false));
    assert!(state_field.map(|f| f.allowed_operations.contains(&Operation::NotEqual)).unwrap_or(false));
    assert!(state_field
        .map(|f| f.allowed_operations.contains(&Operation::CaseInsensitiveEquals))
        .unwrap_or(false));
}

#[test]
fn test_path_operations() {
    let contract = create_service_contract();
    let path_field = contract.state_requirements.optional_fields.iter().find(|f| f.name == "path");
    assert!(path_field.is_some());
    assert!(path_field.map(|f| f.allowed_operations.contains(&Operation::Equals)).unwrap_or(false));
    assert!(path_field.map(|f| f.allowed_operations.contains(&Operation::Contains)).unwrap_or(false));
    assert!(path_field.map(|f| f.allowed_operations.contains(&Operation::StartsWith)).unwrap_or(false));
    assert!(path_field.map(|f| f.allowed_operations.contains(&Operation::PatternMatch)).unwrap_or(false));
}

#[test]
fn test_field_mappings() {
    let contract = create_service_contract();
    let cm = &contract.field_mappings.collection_mappings;
    assert!(cm.required_data_fields.contains(&"exists".to_string()));
    assert!(cm.required_data_fields.contains(&"state".to_string()));
    assert!(cm.required_data_fields.contains(&"start_type".to_string()));
    assert!(cm.optional_data_fields.contains(&"display_name".to_string()));
    assert!(cm.optional_data_fields.contains(&"path".to_string()));
    assert!(cm.optional_data_fields.contains(&"service_type".to_string()));
}

#[test]
fn service_test_behaviors() {
    let contract = create_service_contract();
    assert_eq!(contract.supported_behaviors.len(), 1);
    let executor_behavior = contract.supported_behaviors.first();
    assert!(executor_behavior.is_some());
    assert_eq!(executor_behavior.map(|b| b.name.as_str()), Some("executor"));
    assert_eq!(executor_behavior.map(|b| b.behavior_type.clone()), Some(BehaviorType::Parameter));
    let param = executor_behavior.and_then(|b| b.parameters.first());
    assert!(param.is_some());
    assert_eq!(param.and_then(|p| p.default_value.as_ref()).map(|s| s.as_str()), Some("sc"));
}

#[test]
fn service_test_collection_strategy() {
    let contract = create_service_contract();
    assert_eq!(contract.collection_strategy.collector_type, "windows_service");
}

#[test]
fn file_and_other_contracts() {
    let m = create_file_metadata_contract();
    assert_eq!(m.ctn_type, "file_metadata");
    assert_eq!(m.collection_strategy.collection_mode, CollectionMode::Metadata);
    assert_eq!(m.field_mappings.validation_mappings.state_to_data.get("owner_id"), Some("file_owner".to_string()));
    let c = create_file_content_contract();
    assert_eq!(c.ctn_type, "file_content");
    assert_eq!(c.supported_behaviors.len(), 4);
    assert_eq!(create_json_record_contract().ctn_type, "json_record");
    assert_eq!(create_computed_values_contract().ctn_type, "computed_values");
    assert_eq!(create_tcp_listener_contract().ctn_type, "tcp_listener");
}

#[test]
fn scanner_registry_holds_each_type_once() {
    let registry = create_scanner_registry().unwrap();
    for t in [
        "file_metadata",
        "file_content",
        "computed_values",
        "json_record",
        "tcp_listener",
        "registry",
        "registry_subkeys",
        "service",
        "k8s_resource",
    ] {
        assert!(registry.has_ctn_type(t));
    }
    assert!(!registry.has_ctn_type("rpm_package"));
    let mut r = CtnStrategyRegistry::new();
    assert!(r.register_ctn_strategy(CollectorKind::Service, create_service_contract()).is_ok());
    assert!(r.register_ctn_strategy(CollectorKind::Service, create_service_contract()).is_err());
}
