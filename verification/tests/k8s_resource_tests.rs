use esp_agent::collectors::k8s_resource::{K8sQuery, K8sResourceCollector};
use esp_agent::collectors::BehaviorHints;
use esp_agent::commands::executor::create_k8s_command_executor;
use esp_agent::contract::{CollectionMode, CtnContract, DataType};
use esp_agent::contracts::create_k8s_resource_contract;
use esp_agent::criteria::Operation;
use esp_agent::model::{
    CollectionError, CollectionMethodType, CommandOutput, ExecutableObject, ObjectField,
    ResolvedValue,
};
use esp_agent::registry::{create_scanner_registry, CollectorKind};

fn object(id: &str, fields: Vec<(&str, ResolvedValue)>) -> ExecutableObject {
    ExecutableObject {
        identifier: id.to_string(),
        fields: fields
            .into_iter()
            .map(|(n, v)| ObjectField { name: n.to_string(), value: v })
            .collect(),
    }
}

fn s(v: &str) -> ResolvedValue {
    ResolvedValue::String(v.to_string())
}

fn strings(v: &[&str]) -> Vec<String> {
    v.iter().map(|x| x.to_string()).collect()
}

fn query(kind: &str, ns: Option<&str>, sel: Option<&str>) -> K8sQuery {
    K8sQuery {
        kind: kind.to_string(),
        namespace: ns.map(|x| x.to_string()),
        label_selector: sel.map(|x| x.to_string()),
    }
}

#[test]
fn k8s_contract_fields() {
    let c = create_k8s_resource_contract();
    assert_eq!(c.ctn_type, "k8s_resource");
    let req: Vec<(&str, DataType)> =
        c.object_requirements.required_fields.iter().map(|f| (f.name.as_str(), f.data_type)).collect();
    assert_eq!(req, vec![("kind", DataType::String)]);
    let opt: Vec<&str> = c.object_requirements.optional_fields.iter().map(|f| f.name.as_str()).collect();
    assert_eq!(opt, vec!["namespace", "label_selector"]);
    assert!(c.state_requirements.required_fields.is_empty());
    assert_eq!(c.state_requirements.optional_fields.len(), 1);
    let record = &c.state_requirements.optional_fields[0];
    assert_eq!(record.name, "record");
    assert_eq!(record.data_type, DataType::RecordData);
    assert_eq!(record.allowed_operations, vec![Operation::Equals]);
    let cm = &c.field_mappings.collection_mappings;
    assert_eq!(cm.required_data_fields, strings(&["json_data"]));
    assert!(cm.optional_data_fields.is_empty());
    assert_eq!(c.field_mappings.validation_mappings.state_to_data.get("record"), Some("json_data".to_string()));
    assert_eq!(c.collection_strategy.collector_type, "k8s_resource");
    assert_eq!(c.collection_strategy.collection_mode, CollectionMode::Content);
    assert_eq!(c.collection_strategy.required_capabilities, strings(&["kubectl_access"]));
    assert!(c.collection_strategy.performance_hints.network_intensive);
    assert!(!c.collection_strategy.performance_hints.requires_elevated_privileges);
    assert!(c.supported_behaviors.is_empty());
}

#[test]
fn k8s_registered_in_scanner() {
    let r = create_scanner_registry().unwrap();
    assert!(r.has_ctn_type("k8s_resource"));
    let mut r = r;
    assert!(r.register_ctn_strategy(CollectorKind::K8sResource, create_k8s_resource_contract()).is_err());
}

#[test]
fn k8s_plan_reads_fields() {
    let c = K8sResourceCollector::new();
    let contract = CtnContract::new("k8s_resource".to_string());
    let hints = BehaviorHints::empty();
    let obj = object("pods", vec![("kind", s("Pod")), ("namespace", s("kube-system")), ("label_selector", s("component=kube-apiserver"))]);
    let q = c.collect_for_ctn_with_hints(&obj, &contract, &hints).unwrap();
    assert_eq!(q.kind, "Pod");
    assert_eq!(q.namespace.as_deref(), Some("kube-system"));
    assert_eq!(q.label_selector.as_deref(), Some("component=kube-apiserver"));
    let q = c.collect_for_ctn_with_hints(&object("ns", vec![("kind", s("Namespace"))]), &contract, &hints).unwrap();
    assert_eq!(q.namespace, None);
    assert_eq!(q.label_selector, None);
    match c.collect_for_ctn_with_hints(&object("x", vec![]), &contract, &hints) {
        Err(CollectionError::InvalidObjectConfiguration { object_id, reason }) => {
            assert_eq!(object_id, "x");
            assert_eq!(reason, "Missing required field 'kind'");
        },
        other => panic!("unexpected {:?}", other),
    }
    let bad = object("y", vec![("kind", s("Pod")), ("namespace", ResolvedValue::Integer(3))]);
    assert!(matches!(
        c.collect_for_ctn_with_hints(&bad, &contract, &hints),
        Err(CollectionError::InvalidObjectConfiguration { .. })
    ));
}

#[test]
fn k8s_kubectl_arguments() {
    let c = K8sResourceCollector::new();
    assert_eq!(c.kubectl_args(&query("Pod", None, None)), strings(&["get", "Pod", "-o", "json"]));
    assert_eq!(
        c.kubectl_args(&query("Pod", Some("kube-system"), Some("tier=control-plane"))),
        strings(&["get", "Pod", "-n", "kube-system", "-l", "tier=control-plane", "-o", "json"])
    );
    assert_eq!(c.kubectl_args(&query("Node", None, Some("a=b"))), strings(&["get", "Node", "-l", "a=b", "-o", "json"]));
}

#[test]
fn k8s_finish_collection() {
    let c = K8sResourceCollector::new();
    let obj = object("pods", vec![]);
    let q = query("Pod", Some("default"), None);
    let out: Result<CommandOutput, String> =
        Ok(CommandOutput { exit_code: 0, stdout: "{\"items\":[]}".to_string(), stderr: String::new() });
    let d = c.finish_collection(&obj, &q, &out).unwrap();
    assert_eq!(d.object_id, "pods");
    assert_eq!(d.ctn_type, "k8s_resource");
    assert_eq!(d.collector_id, c.collector_id());
    match d.get_field("json_data") {
        Some(ResolvedValue::String(text)) => assert_eq!(text, "{\"items\":[]}"),
        other => panic!("unexpected {:?}", other),
    }
    let m = d.method.as_ref().unwrap();
    assert_eq!(m.method_type, CollectionMethodType::Command);
    assert_eq!(m.description, "Query Kubernetes resources via kubectl");
    assert_eq!(m.target.as_deref(), Some("Pod"));
    assert_eq!(m.command.as_deref(), Some("kubectl get Pod -n default -o json"));
    assert_eq!(
        m.inputs,
        vec![("kind".to_string(), "Pod".to_string()), ("namespace".to_string(), "default".to_string())]
    );

    let failed: Result<CommandOutput, String> =
        Ok(CommandOutput { exit_code: 1, stdout: String::new(), stderr: "forbidden".to_string() });
    match c.finish_collection(&obj, &q, &failed) {
        Err(CollectionError::CollectionFailed { reason, .. }) => {
            assert_eq!(reason, "kubectl failed with exit code 1: forbidden")
        },
        other => panic!("unexpected {:?}", other),
    }
    let not_run: Result<CommandOutput, String> = Err("not found".to_string());
    match c.finish_collection(&obj, &q, &not_run) {
        Err(CollectionError::CollectionFailed { reason, .. }) => {
            assert_eq!(reason, "kubectl execution failed: not found")
        },
        other => panic!("unexpected {:?}", other),
    }
}

#[test]
fn k8s_collector_identity() {
    let c = K8sResourceCollector::new();
    assert_eq!(c.collector_id(), "k8s_resource_collector");
    assert_eq!(c.supported_ctn_types(), strings(&["k8s_resource"]));
    assert!(!c.supports_batch_collection());
    assert!(c.validate_ctn_compatibility(&create_k8s_resource_contract()).is_ok());
    assert!(c.validate_ctn_compatibility(&CtnContract::new("service".to_string())).is_err());
}

#[test]
fn k8s_command_executor() {
    let e = create_k8s_command_executor();
    assert_eq!(e.timeout_secs(), 30);
    assert!(e.is_allowed("kubectl"));
    assert!(e.is_allowed("/usr/local/bin/kubectl"));
    assert!(e.is_allowed("/usr/bin/kubectl"));
    assert!(!e.is_allowed("rm"));
}
