//! Kubernetes resources, through `kubectl get <kind> -o json`.
//!
//! Collected field: `json_data`, the JSON text `kubectl` printed, which the
//! record checks of the k8s_resource CTN read.

use vstd::prelude::*;
use crate::collectors::{
    check_ctn_type, config_error, extract_required_string, extract_string_field, failed_error,
    incompatible_reason, not_string_reason, required_field, string_field, BehaviorHints,
};
use crate::collectors::registry::{exit_reason, exit_reason_exec};
use crate::contract::CtnContract;
use crate::model::{
    concat2, data_fields, has_method, method_view, CollectedData, CollectionError,
    CollectionMethod, CollectionMethodType, CommandOutput, ExecutableObject, MethodView,
    ResolvedValue, ValueView,
};
use crate::text::{opt_view, string_from_chars};
use crate::validation::push_str;

verus! {

/// What to ask `kubectl` for: a kind of resource, optionally within a
/// namespace and restricted by a label selector.
#[derive(Debug)]
pub struct K8sQuery {
    pub kind: String,
    pub namespace: Option<String>,
    pub label_selector: Option<String>,
}

/// Collector for Kubernetes resources.
#[derive(Debug)]
pub struct K8sResourceCollector {
    id: String,
}

/// What reading an optional string field gives: its text, none, or why the
/// object is refused.
pub open spec fn optional_field(o: ExecutableObject, name: Seq<char>) -> Result<Option<Seq<char>>, Seq<char>> {
    match string_field(o, name) {
        Ok(v) => Ok(v),
        Err(_) => Err(not_string_reason(name)),
    }
}

/// What the collector asks for an object: its `kind`, and its `namespace`
/// and `label_selector` when it names them; the first field in that order
/// that is missing (for `kind`) or not a string is the reason it is
/// refused.
pub open spec fn k8s_plan(o: ExecutableObject, res: Result<K8sQuery, CollectionError>) -> bool {
    match required_field(o, "kind"@) {
        Err(why) => res matches Err(e) && config_error(e, o, why),
        Ok(k) => match optional_field(o, "namespace"@) {
            Err(why) => res matches Err(e) && config_error(e, o, why),
            Ok(ns) => match optional_field(o, "label_selector"@) {
                Err(why) => res matches Err(e) && config_error(e, o, why),
                Ok(sel) => res matches Ok(q) && q.kind@ == k && opt_view(q.namespace) == ns
                    && opt_view(q.label_selector) == sel,
            },
        },
    }
}

/// The arguments given to `kubectl`: `get <kind>`, then `-n <namespace>`
/// and `-l <selector>` when given, then `-o json`.
pub open spec fn kubectl_args(kind: Seq<char>, ns: Option<Seq<char>>, sel: Option<Seq<char>>) -> Seq<
    Seq<char>,
> {
    seq!["get"@, kind] + match ns {
        Some(n) => seq!["-n"@, n],
        None => Seq::empty(),
    } + match sel {
        Some(l) => seq!["-l"@, l],
        None => Seq::empty(),
    } + seq!["-o"@, "json"@]
}

/// The command line as the method record shows it.
pub open spec fn kubectl_command(kind: Seq<char>, ns: Option<Seq<char>>, sel: Option<Seq<char>>) -> Seq<char> {
    "kubectl get "@ + kind + match ns {
        Some(n) => " -n "@ + n,
        None => Seq::empty(),
    } + match sel {
        Some(l) => " -l "@ + l,
        None => Seq::empty(),
    } + " -o json"@
}

/// The inputs a query records.
pub open spec fn k8s_inputs(kind: Seq<char>, ns: Option<Seq<char>>, sel: Option<Seq<char>>) -> Seq<
    (Seq<char>, Seq<char>),
> {
    seq![("kind"@, kind)] + match ns {
        Some(n) => seq![("namespace"@, n)],
        None => Seq::empty(),
    } + match sel {
        Some(l) => seq![("label_selector"@, l)],
        None => Seq::empty(),
    }
}

/// The record of a query.
pub open spec fn k8s_method(q: K8sQuery) -> MethodView {
    let (k, ns, sel) = (q.kind@, opt_view(q.namespace), opt_view(q.label_selector));
    MethodView {
        method_type: CollectionMethodType::Command,
        description: "Query Kubernetes resources via kubectl"@,
        target: Some(k),
        command: Some(kubectl_command(k, ns, sel)),
        inputs: k8s_inputs(k, ns, sel),
    }
}

/// What collection yields for the outcome of `kubectl`: a command that did
/// not run or exited with an error is a failed collection; otherwise the
/// printed JSON is recorded as `json_data`.
pub open spec fn k8s_outcome(
    o: ExecutableObject,
    id: Seq<char>,
    q: K8sQuery,
    output: Result<CommandOutput, String>,
    res: Result<CollectedData, CollectionError>,
) -> bool {
    match output {
        Err(why) => res matches Err(e) && failed_error(e, o, "kubectl execution failed: "@ + why@),
        Ok(out) => if out.exit_code != 0 {
            res matches Err(e) && failed_error(e, o, exit_reason("kubectl"@, out))
        } else {
            res matches Ok(d) && {
                &&& d.object_id@ == o.identifier@
                &&& d.ctn_type@ == "k8s_resource"@
                &&& d.collector_id@ == id
                &&& has_method(d, k8s_method(q))
                &&& data_fields(d) == seq![("json_data"@, ValueView::Str(out.stdout@))]
            }
        },
    }
}

impl K8sResourceCollector {
    /// The collector's id.
    pub closed spec fn id_view(&self) -> Seq<char> {
        self.id@
    }

    /// A collector with id `k8s_resource_collector`.
    pub fn new() -> (res: Self)
        ensures
            res.id_view() == "k8s_resource_collector"@,
    {
        K8sResourceCollector { id: "k8s_resource_collector".to_string() }
    }

    /// The collector's id.
    pub fn collector_id(&self) -> (res: &str)
        ensures
            res@ == self.id_view(),
    {
        self.id.as_str()
    }

    /// The CTN types the collector serves.
    pub fn supported_ctn_types(&self) -> (res: Vec<String>)
        ensures
            res@.len() == 1,
            res@[0]@ == "k8s_resource"@,
    {
        let mut v = Vec::new();
        v.push("k8s_resource".to_string());
        v
    }

    /// Each object is queried on its own.
    pub fn supports_batch_collection(&self) -> (res: bool)
        ensures
            !res,
    {
        false
    }

    /// Accepts only the k8s_resource contract.
    pub fn validate_ctn_compatibility(&self, contract: &CtnContract) -> (res: Result<
        (),
        CollectionError,
    >)
        ensures
            res is Ok <==> contract.ctn_type@ == "k8s_resource"@,
            res matches Err(e) ==> e matches CollectionError::CtnContractValidation { reason }
                && reason@ == incompatible_reason("k8s_resource"@, contract.ctn_type@),
    {
        check_ctn_type(&contract.ctn_type, "k8s_resource")
    }

    /// Decides what to ask for an object.
    pub fn collect_for_ctn_with_hints(
        &self,
        object: &ExecutableObject,
        _contract: &CtnContract,
        _hints: &BehaviorHints,
    ) -> (res: Result<K8sQuery, CollectionError>)
        ensures
            k8s_plan(*object, res),
    {
        let kind = extract_required_string(object, "kind")?;
        let namespace = extract_string_field(object, "namespace")?;
        let label_selector = extract_string_field(object, "label_selector")?;
        Ok(K8sQuery { kind, namespace, label_selector })
    }

    /// The arguments to give `kubectl` for a query.
    pub fn kubectl_args(&self, q: &K8sQuery) -> (res: Vec<String>)
        ensures
            res@.map_values(|s: String| s@) == kubectl_args(
                q.kind@,
                opt_view(q.namespace),
                opt_view(q.label_selector),
            ),
    {
        let mut v: Vec<String> = Vec::new();
        v.push("get".to_string());
        v.push(q.kind.clone());
        match &q.namespace {
            Some(n) => {
                v.push("-n".to_string());
                v.push(n.clone());
            },
            None => {},
        }
        match &q.label_selector {
            Some(l) => {
                v.push("-l".to_string());
                v.push(l.clone());
            },
            None => {},
        }
        v.push("-o".to_string());
        v.push("json".to_string());
        assert(v@.map_values(|s: String| s@) =~= kubectl_args(
            q.kind@,
            opt_view(q.namespace),
            opt_view(q.label_selector),
        ));
        v
    }

    /// The record of a query.
    fn method(q: &K8sQuery) -> (res: CollectionMethod)
        ensures
            method_view(res) == k8s_method(*q),
    {
        let mut c: Vec<char> = Vec::new();
        push_str(&mut c, "kubectl get ");
        push_str(&mut c, q.kind.as_str());
        let mut inputs: Vec<(String, String)> = Vec::new();
        inputs.push(("kind".to_string(), q.kind.clone()));
        let ghost c0 = c@;
        let ghost i0 = inputs@.map_values(|p: (String, String)| (p.0@, p.1@));
        match &q.namespace {
            Some(n) => {
                push_str(&mut c, " -n ");
                push_str(&mut c, n.as_str());
                inputs.push(("namespace".to_string(), n.clone()));
            },
            None => {},
        }
        let ghost c1 = c@;
        let ghost i1 = inputs@.map_values(|p: (String, String)| (p.0@, p.1@));
        assert(c1 =~= c0 + match opt_view(q.namespace) {
            Some(n) => " -n "@ + n,
            None => Seq::<char>::empty(),
        });
        assert(i1 =~= i0 + match opt_view(q.namespace) {
            Some(n) => seq![("namespace"@, n)],
            None => Seq::<(Seq<char>, Seq<char>)>::empty(),
        });
        match &q.label_selector {
            Some(l) => {
                push_str(&mut c, " -l ");
                push_str(&mut c, l.as_str());
                inputs.push(("label_selector".to_string(), l.clone()));
            },
            None => {},
        }
        let ghost c2 = c@;
        let ghost i2 = inputs@.map_values(|p: (String, String)| (p.0@, p.1@));
        assert(c2 =~= c1 + match opt_view(q.label_selector) {
            Some(l) => " -l "@ + l,
            None => Seq::<char>::empty(),
        });
        assert(i2 =~= i1 + match opt_view(q.label_selector) {
            Some(l) => seq![("label_selector"@, l)],
            None => Seq::<(Seq<char>, Seq<char>)>::empty(),
        });
        push_str(&mut c, " -o json");
        assert(c@ =~= kubectl_command(q.kind@, opt_view(q.namespace), opt_view(q.label_selector)));
        assert(i2 =~= k8s_inputs(q.kind@, opt_view(q.namespace), opt_view(q.label_selector)));
        CollectionMethod {
            method_type: CollectionMethodType::Command,
            description: "Query Kubernetes resources via kubectl".to_string(),
            target: Some(q.kind.clone()),
            command: Some(string_from_chars(&c)),
            inputs,
        }
    }

    /// Collects an object's resources from the outcome of `kubectl`.
    pub fn finish_collection(
        &self,
        object: &ExecutableObject,
        q: &K8sQuery,
        output: &Result<CommandOutput, String>,
    ) -> (res: Result<CollectedData, CollectionError>)
        ensures
            k8s_outcome(*object, self.id_view(), *q, *output, res),
    {
        let out = match output {
            Ok(o) => o,
            Err(e) => {
                return Err(
                    CollectionError::CollectionFailed {
                        object_id: object.identifier.clone(),
                        reason: concat2("kubectl execution failed: ", e.as_str()),
                    },
                );
            },
        };
        if out.exit_code != 0 {
            return Err(
                CollectionError::CollectionFailed {
                    object_id: object.identifier.clone(),
                    reason: exit_reason_exec("kubectl", out),
                },
            );
        }
        let mut data = CollectedData::new(
            object.identifier.clone(),
            "k8s_resource".to_string(),
            self.id.clone(),
        );
        data.set_method(Self::method(q));
        data.add_field("json_data".to_string(), ResolvedValue::String(out.stdout.clone()));
        assert(data_fields(data) =~= seq![("json_data"@, ValueView::Str(out.stdout@))]);
        Ok(data)
    }
}

} // verus!
