//! Windows services, through `sc.exe` (default) or PowerShell
//! `Get-CimInstance Win32_Service`.
//!
//! Collected fields: `exists`, `state`, `start_type`, `display_name`,
//! `path`, `service_type` (all but `exists` normalized strings).

use vstd::prelude::*;
use crate::collectors::{
    check_ctn_type, config_error, denied_error, extract_required_string, extract_string_field,
    failed_error, incompatible_reason, not_string_reason, required_field, required_field_result,
    string_field, string_field_result_view, BehaviorHints,
};
use crate::collectors::registry::{exit_reason, exit_reason_exec};
use crate::commands::sc::{
    access_denied, is_access_denied, is_service_not_found, or_empty, parse_sc_qc_output,
    parse_sc_query_output, qc_display_name, qc_path, qc_start_type, qc_type, query_state,
    service_not_found,
};
use crate::contract::{pair_lookup, pairs_view, CtnContract};
use crate::json::{
    get_bool, get_str, json_error, json_members, json_parses, member_bool, member_str,
    parse_json_members,
};
use crate::model::{
    concat2, concat3, data_fields, has_method, method_view, CollectedData, CollectionError,
    CollectionMethod, CollectionMethodType, CommandOutput, ExecutableObject, MethodView,
    ResolvedValue, ValueView,
};
use crate::text::{
    chars_eq, chars_of, contains, contains_exec, lower_chars, str_to_lowercase, string_from_chars,
    trim, trim_chars,
};

verus! {

/// How a service is queried.
#[derive(Clone, Copy, PartialEq, Eq, Structural, Debug)]
pub enum ServiceQueryMethod {
    Sc,
    PowerShell,
}

/// Where `sc.exe` collection stands after the outputs it has been given.
#[derive(Debug)]
pub enum ScStep {
    /// `sc.exe qc` must be run next
    NeedQc,
    /// Collection is over
    Done(Result<CollectedData, CollectionError>),
}

/// Collector for Windows services.
#[derive(Debug)]
pub struct ServiceCollector {
    id: String,
}

/// PowerShell `State` to its normalized form.
pub open spec fn ps_state(s: Seq<char>) -> Seq<char> {
    if s == "Running"@ {
        "running"@
    } else if s == "Stopped"@ {
        "stopped"@
    } else if s == "Paused"@ {
        "paused"@
    } else if s == "StartPending"@ {
        "start_pending"@
    } else if s == "StopPending"@ {
        "stop_pending"@
    } else if s == "ContinuePending"@ {
        "continue_pending"@
    } else if s == "PausePending"@ {
        "pause_pending"@
    } else {
        "unknown"@
    }
}

/// PowerShell `StartMode` and `DelayedAutoStart` to a normalized start type.
pub open spec fn ps_start_type(mode: Seq<char>, delayed: bool) -> Seq<char> {
    if mode == "Automatic"@ || mode == "Auto"@ {
        if delayed {
            "auto_delayed"@
        } else {
            "auto"@
        }
    } else if mode == "Manual"@ {
        "manual"@
    } else if mode == "Disabled"@ {
        "disabled"@
    } else if mode == "Boot"@ {
        "boot"@
    } else if mode == "System"@ {
        "system"@
    } else {
        "unknown"@
    }
}

/// PowerShell `ServiceType` to its normalized form: the four exact names,
/// else by the words its lower-case form contains.
pub open spec fn ps_service_type(s: Seq<char>) -> Seq<char> {
    let l = str_to_lowercase(s);
    if s == "Own Process"@ {
        "own_process"@
    } else if s == "Share Process"@ {
        "share_process"@
    } else if s == "Kernel Driver"@ {
        "kernel_driver"@
    } else if s == "File System Driver"@ {
        "file_system_driver"@
    } else if contains(l, "own"@) && contains(l, "process"@) {
        "own_process"@
    } else if contains(l, "share"@) && contains(l, "process"@) {
        "share_process"@
    } else if contains(l, "kernel"@) {
        "kernel_driver"@
    } else if contains(l, "file"@) && contains(l, "system"@) {
        "file_system_driver"@
    } else {
        "unknown"@
    }
}

/// Normalizes a PowerShell `State` value (`Running` to `running`, ...;
/// anything else to `unknown`).
pub fn normalize_powershell_state(state: &str) -> (res: String)
    ensures
        res@ == ps_state(state@),
{
    let s = chars_of(state);
    let r = if chars_eq(&s, &chars_of("Running")) {
        "running"
    } else if chars_eq(&s, &chars_of("Stopped")) {
        "stopped"
    } else if chars_eq(&s, &chars_of("Paused")) {
        "paused"
    } else if chars_eq(&s, &chars_of("StartPending")) {
        "start_pending"
    } else if chars_eq(&s, &chars_of("StopPending")) {
        "stop_pending"
    } else if chars_eq(&s, &chars_of("ContinuePending")) {
        "continue_pending"
    } else if chars_eq(&s, &chars_of("PausePending")) {
        "pause_pending"
    } else {
        "unknown"
    };
    r.to_string()
}

/// Normalizes a PowerShell `StartMode` (`Automatic`/`Auto` to `auto`, or
/// `auto_delayed` with delayed start; `Manual`, `Disabled`, `Boot`,
/// `System`; anything else to `unknown`).
pub fn normalize_powershell_start_type(start_mode: &str, delayed_auto_start: bool) -> (res: String)
    ensures
        res@ == ps_start_type(start_mode@, delayed_auto_start),
{
    let s = chars_of(start_mode);
    let r = if chars_eq(&s, &chars_of("Automatic")) || chars_eq(&s, &chars_of("Auto")) {
        if delayed_auto_start {
            "auto_delayed"
        } else {
            "auto"
        }
    } else if chars_eq(&s, &chars_of("Manual")) {
        "manual"
    } else if chars_eq(&s, &chars_of("Disabled")) {
        "disabled"
    } else if chars_eq(&s, &chars_of("Boot")) {
        "boot"
    } else if chars_eq(&s, &chars_of("System")) {
        "system"
    } else {
        "unknown"
    };
    r.to_string()
}

/// Normalizes a PowerShell `ServiceType` (`Own Process` to `own_process`,
/// ...; variations by the words they contain).
pub fn normalize_powershell_service_type(service_type: &str) -> (res: String)
    ensures
        res@ == ps_service_type(service_type@),
{
    let s = chars_of(service_type);
    let l = lower_chars(&s);
    let r = if chars_eq(&s, &chars_of("Own Process")) {
        "own_process"
    } else if chars_eq(&s, &chars_of("Share Process")) {
        "share_process"
    } else if chars_eq(&s, &chars_of("Kernel Driver")) {
        "kernel_driver"
    } else if chars_eq(&s, &chars_of("File System Driver")) {
        "file_system_driver"
    } else if contains_exec(&l, &chars_of("own")) && contains_exec(&l, &chars_of("process")) {
        "own_process"
    } else if contains_exec(&l, &chars_of("share")) && contains_exec(&l, &chars_of("process")) {
        "share_process"
    } else if contains_exec(&l, &chars_of("kernel")) {
        "kernel_driver"
    } else if contains_exec(&l, &chars_of("file")) && contains_exec(&l, &chars_of("system")) {
        "file_system_driver"
    } else {
        "unknown"
    };
    r.to_string()
}

/// The fields recorded for a service that is not installed.
pub open spec fn absent_service_fields() -> Seq<(Seq<char>, ValueView)> {
    seq![
        ("exists"@, ValueView::Bool(false)),
        ("state"@, ValueView::Str(Seq::empty())),
        ("start_type"@, ValueView::Str(Seq::empty())),
    ]
}

/// The fields recorded for an installed service.
pub open spec fn present_service_fields(
    state: Seq<char>,
    start_type: Seq<char>,
    display_name: Seq<char>,
    path: Seq<char>,
    service_type: Seq<char>,
) -> Seq<(Seq<char>, ValueView)> {
    seq![
        ("exists"@, ValueView::Bool(true)),
        ("state"@, ValueView::Str(state)),
        ("start_type"@, ValueView::Str(start_type)),
        ("display_name"@, ValueView::Str(display_name)),
        ("path"@, ValueView::Str(path)),
        ("service_type"@, ValueView::Str(service_type)),
    ]
}

/// Whether `d` is the service data of object `o` gathered by collector
/// `id` with fields `fs` and method record `m`.
pub open spec fn service_data(
    d: CollectedData,
    o: ExecutableObject,
    id: Seq<char>,
    fs: Seq<(Seq<char>, ValueView)>,
    m: MethodView,
) -> bool {
    &&& d.object_id@ == o.identifier@
    &&& d.ctn_type@ == "service"@
    &&& d.collector_id@ == id
    &&& has_method(d, m)
    &&& data_fields(d) == fs
}

/// The record of an `sc.exe` query.
pub open spec fn sc_method_view(name: Seq<char>) -> MethodView {
    MethodView {
        method_type: CollectionMethodType::Command,
        description: "Query Windows service state and configuration via sc.exe"@,
        target: Some(name),
        command: Some(
            "sc.exe query \""@ + name + "\""@ + "; "@ + ("sc.exe qc \""@ + name + "\""@),
        ),
        inputs: seq![("service_name"@, name), ("executor"@, "sc"@)],
    }
}

/// The record of a PowerShell query.
pub open spec fn ps_method_view(name: Seq<char>) -> MethodView {
    MethodView {
        method_type: CollectionMethodType::WmiQuery,
        description: "Query Windows service via PowerShell Get-CimInstance (WMI)"@,
        target: Some(name),
        command: Some(
            "powershell -NoProfile -NonInteractive -Command \""@ + ps_service_command(name)
                + "\""@,
        ),
        inputs: seq![
            ("service_name"@, name),
            ("executor"@, "powershell"@),
            ("wmi_class"@, "Win32_Service"@),
        ],
    }
}

/// An output reports a missing service on either stream.
pub open spec fn reports_not_found(out: CommandOutput) -> bool {
    service_not_found(out.stdout@) || service_not_found(out.stderr@)
}

/// An output reports denied access on either stream.
pub open spec fn reports_denied(out: CommandOutput) -> bool {
    access_denied(out.stdout@) || access_denied(out.stderr@)
}

/// What `sc.exe` collection yields for the outputs given so far: the query
/// decides whether the service is missing, access is denied, the command
/// failed or its state cannot be read; then `qc` is needed, and its output
/// is judged the same way and supplies the configuration.
pub open spec fn sc_outcome(
    o: ExecutableObject,
    id: Seq<char>,
    name: Seq<char>,
    query: Result<CommandOutput, String>,
    qc: Option<Result<CommandOutput, String>>,
    res: ScStep,
) -> bool {
    let m = sc_method_view(name);
    match query {
        Err(why) => res matches ScStep::Done(Err(e)) && failed_error(
            e,
            o,
            "sc.exe query execution failed: "@ + why@,
        ),
        Ok(q) => if reports_not_found(q) {
            res matches ScStep::Done(Ok(d)) && service_data(d, o, id, absent_service_fields(), m)
        } else if reports_denied(q) {
            res matches ScStep::Done(Err(e)) && denied_error(
                e,
                o,
                "Access denied querying service: "@ + name,
            )
        } else if q.exit_code != 0 {
            res matches ScStep::Done(Err(e)) && failed_error(e, o, exit_reason("sc.exe query"@, q))
        } else if or_empty(query_state(q.stdout@)).len() == 0 {
            res matches ScStep::Done(Err(e)) && failed_error(
                e,
                o,
                "Failed to parse sc.exe query output"@,
            )
        } else {
            match qc {
                None => res is NeedQc,
                Some(Err(why)) => res matches ScStep::Done(Err(e)) && failed_error(
                    e,
                    o,
                    "sc.exe qc execution failed: "@ + why@,
                ),
                Some(Ok(c)) => if reports_not_found(c) {
                    res matches ScStep::Done(Ok(d)) && service_data(
                        d,
                        o,
                        id,
                        absent_service_fields(),
                        m,
                    )
                } else if reports_denied(c) {
                    res matches ScStep::Done(Err(e)) && denied_error(
                        e,
                        o,
                        "Access denied querying service configuration: "@ + name,
                    )
                } else if c.exit_code != 0 {
                    res matches ScStep::Done(Err(e)) && failed_error(
                        e,
                        o,
                        exit_reason("sc.exe qc"@, c),
                    )
                } else if or_empty(qc_start_type(c.stdout@)).len() == 0 {
                    res matches ScStep::Done(Err(e)) && failed_error(
                        e,
                        o,
                        "Failed to parse sc.exe qc output"@,
                    )
                } else {
                    res matches ScStep::Done(Ok(d)) && service_data(
                        d,
                        o,
                        id,
                        present_service_fields(
                            or_empty(query_state(q.stdout@)),
                            or_empty(qc_start_type(c.stdout@)),
                            or_empty(qc_display_name(c.stdout@)),
                            or_empty(qc_path(c.stdout@)),
                            or_empty(qc_type(c.stdout@)),
                        ),
                        m,
                    )
                },
            }
        },
    }
}

/// The PowerShell command that lists a service as JSON; single quotes in
/// the name are doubled.
pub open spec fn ps_service_command(name: Seq<char>) -> Seq<char> {
    "Get-CimInstance -ClassName Win32_Service -Filter \"Name='"@ + double_quotes(name)
        + "'\" | Select-Object Name, State, StartMode, DisplayName, PathName, ServiceType, DelayedAutoStart | ConvertTo-Json"@
}

/// `s` with every `'` doubled.
pub open spec fn double_quotes(s: Seq<char>) -> Seq<char>
    decreases s.len(),
{
    if s.len() == 0 {
        Seq::empty()
    } else {
        double_quotes(s.drop_last()) + if s.last() == '\'' {
            seq!['\'', '\'']
        } else {
            seq![s.last()]
        }
    }
}

/// What PowerShell collection yields for the command's outcome.
pub open spec fn ps_outcome(
    o: ExecutableObject,
    id: Seq<char>,
    name: Seq<char>,
    output: Result<CommandOutput, String>,
    res: Result<CollectedData, CollectionError>,
) -> bool {
    let m = ps_method_view(name);
    match output {
        Err(why) => res matches Err(e) && failed_error(
            e,
            o,
            "PowerShell execution failed: "@ + why@,
        ),
        Ok(out) => {
            let low = str_to_lowercase(out.stderr@);
            let t = trim(out.stdout@);
            if out.exit_code != 0 {
                if contains(low, "access"@) && contains(low, "denied"@) {
                    res matches Err(e) && denied_error(
                        e,
                        o,
                        "Access denied querying service: "@ + name,
                    )
                } else {
                    res matches Err(e) && failed_error(e, o, exit_reason("PowerShell"@, out))
                }
            } else if t.len() == 0 || t == "null"@ {
                res matches Ok(d) && service_data(d, o, id, absent_service_fields(), m)
            } else if !json_parses(t) {
                res matches Err(e) && failed_error(
                    e,
                    o,
                    "Failed to parse PowerShell JSON output: "@ + json_error(t),
                )
            } else {
                let ms = json_members(t);
                res matches Ok(d) && service_data(
                    d,
                    o,
                    id,
                    present_service_fields(
                        match member_str(ms, "State"@) {
                            Some(s) => ps_state(s),
                            None => "unknown"@,
                        },
                        ps_start_type(
                            match member_str(ms, "StartMode"@) {
                                Some(s) => s,
                                None => "unknown"@,
                            },
                            match member_bool(ms, "DelayedAutoStart"@) {
                                Some(b) => b,
                                None => false,
                            },
                        ),
                        match member_str(ms, "DisplayName"@) {
                            Some(s) => s,
                            None => Seq::empty(),
                        },
                        match member_str(ms, "PathName"@) {
                            Some(s) => s,
                            None => Seq::empty(),
                        },
                        match member_str(ms, "ServiceType"@) {
                            Some(s) => ps_service_type(s),
                            None => "unknown"@,
                        },
                    ),
                    m,
                )
            }
        },
    }
}

/// Which query method the hints select for an object, with the service
/// name: `name` must be a string field, and the `executor` parameter, `sc`
/// by default, must be `sc` or `powershell`.
pub open spec fn service_plan(
    o: ExecutableObject,
    hints: BehaviorHints,
    res: Result<(ServiceQueryMethod, String), CollectionError>,
) -> bool {
    match required_field(o, "name"@) {
        Ok(name) => {
            let ex = match pair_lookup(pairs_view(hints.parameters@), "executor"@) {
                Some(e) => e,
                None => "sc"@,
            };
            if ex == "sc"@ {
                res matches Ok(p) && p.0 == ServiceQueryMethod::Sc && p.1@ == name
            } else if ex == "powershell"@ {
                res matches Ok(p) && p.0 == ServiceQueryMethod::PowerShell && p.1@ == name
            } else {
                res matches Err(e) && config_error(
                    e,
                    o,
                    "Invalid executor '"@ + ex + "'. Valid values: sc, powershell"@,
                )
            }
        },
        Err(why) => res matches Err(e) && config_error(e, o, why),
    }
}

impl ServiceCollector {
    /// The collector's id.
    pub closed spec fn id_view(&self) -> Seq<char> {
        self.id@
    }

    /// A collector with id `windows_service_collector`.
    pub fn new() -> (res: Self)
        ensures
            res.id_view() == "windows_service_collector"@,
    {
        ServiceCollector { id: "windows_service_collector".to_string() }
    }

    /// A collector with the given id.
    pub fn with_id(id: &str) -> (res: Self)
        ensures
            res.id_view() == id@,
    {
        ServiceCollector { id: id.to_string() }
    }

    /// The collector's id.
    pub fn collector_id(&self) -> (res: &str)
        ensures
            res@ == self.id_view(),
    {
        self.id.as_str()
    }

    /// The CTN types the collector serves.
    pub fn supported_ctn_types(&self) -> (res: Vec<String>)
        ensures
            res@.len() == 1,
            res@[0]@ == "service"@,
    {
        let mut v = Vec::new();
        v.push("service".to_string());
        v
    }

    /// Each service needs queries of its own.
    pub fn supports_batch_collection(&self) -> (res: bool)
        ensures
            !res,
    {
        false
    }

    /// Accepts only the service contract.
    pub fn validate_ctn_compatibility(&self, contract: &CtnContract) -> (res: Result<
        (),
        CollectionError,
    >)
        ensures
            res is Ok <==> contract.ctn_type@ == "service"@,
            res matches Err(e) ==> e matches CollectionError::CtnContractValidation { reason }
                && reason@ == incompatible_reason("service"@, contract.ctn_type@),
    {
        check_ctn_type(&contract.ctn_type, "service")
    }

    /// Reads a string field of the object.
    pub fn extract_string_field(&self, object: &ExecutableObject, field_name: &str) -> (res:
        Result<Option<String>, CollectionError>)
        ensures
            string_field_result_view(res) == string_field(*object, field_name@),
            res matches Err(e) ==> config_error(e, *object, not_string_reason(field_name@)),
    {
        extract_string_field(object, field_name)
    }

    /// Reads a required string field of the object.
    pub fn extract_required_string(&self, object: &ExecutableObject, field_name: &str) -> (res:
        Result<String, CollectionError>)
        ensures
            required_field_result(*object, field_name@, res),
    {
        extract_required_string(object, field_name)
    }

    /// Decides how to collect an object: the service name and the query
    /// method that the `executor` behavior selects.
    pub fn collect_for_ctn_with_hints(
        &self,
        object: &ExecutableObject,
        _contract: &CtnContract,
        hints: &BehaviorHints,
    ) -> (res: Result<(ServiceQueryMethod, String), CollectionError>)
        ensures
            service_plan(*object, *hints, res),
    {
        let name = self.extract_required_string(object, "name")?;
        let ex = match hints.get_parameter("executor") {
            Some(e) => e,
            None => "sc".to_string(),
        };
        proof {
            reveal_strlit("sc");
            reveal_strlit("powershell");
        }
        let e = chars_of(ex.as_str());
        if chars_eq(&e, &chars_of("sc")) {
            Ok((ServiceQueryMethod::Sc, name))
        } else if chars_eq(&e, &chars_of("powershell")) {
            Ok((ServiceQueryMethod::PowerShell, name))
        } else {
            Err(
                CollectionError::InvalidObjectConfiguration {
                    object_id: object.identifier.clone(),
                    reason: concat3("Invalid executor '", ex.as_str(), "'. Valid values: sc, powershell"),
                },
            )
        }
    }

    /// The arguments of `sc.exe query`.
    pub fn sc_query_args(service_name: &str) -> (res: Vec<String>)
        ensures
            res@.len() == 2,
            res@[0]@ == "query"@,
            res@[1]@ == service_name@,
    {
        let mut v = Vec::new();
        v.push("query".to_string());
        v.push(service_name.to_string());
        v
    }

    /// The arguments of `sc.exe qc`.
    pub fn sc_qc_args(service_name: &str) -> (res: Vec<String>)
        ensures
            res@.len() == 2,
            res@[0]@ == "qc"@,
            res@[1]@ == service_name@,
    {
        let mut v = Vec::new();
        v.push("qc".to_string());
        v.push(service_name.to_string());
        v
    }

    /// Empty data for an object, with its collection method.
    fn new_data(&self, object: &ExecutableObject, method: CollectionMethod) -> (res: CollectedData)
        ensures
            res.object_id@ == object.identifier@,
            res.ctn_type@ == "service"@,
            res.collector_id@ == self.id_view(),
            has_method(res, method_view(method)),
            data_fields(res).len() == 0,
    {
        let mut data = CollectedData::new(
            object.identifier.clone(),
            "service".to_string(),
            self.id.clone(),
        );
        data.set_method(method);
        assert(data_fields(data) =~= Seq::<(Seq<char>, ValueView)>::empty());
        data
    }

    /// Records a service that is not installed.
    fn absent(data: CollectedData) -> (res: CollectedData)
        requires
            data_fields(data).len() == 0,
        ensures
            res.object_id == data.object_id,
            res.ctn_type == data.ctn_type,
            res.collector_id == data.collector_id,
            res.method == data.method,
            data_fields(res) == absent_service_fields(),
    {
        let mut d = data;
        d.add_field("exists".to_string(), ResolvedValue::Boolean(false));
        d.add_field("state".to_string(), ResolvedValue::String(String::new()));
        d.add_field("start_type".to_string(), ResolvedValue::String(String::new()));
        assert(data_fields(d) =~= absent_service_fields());
        d
    }

    /// Records an installed service.
    fn present(
        data: CollectedData,
        state: String,
        start_type: String,
        display_name: String,
        path: String,
        service_type: String,
    ) -> (res: CollectedData)
        requires
            data_fields(data).len() == 0,
        ensures
            res.object_id == data.object_id,
            res.ctn_type == data.ctn_type,
            res.collector_id == data.collector_id,
            res.method == data.method,
            data_fields(res) == present_service_fields(
                state@,
                start_type@,
                display_name@,
                path@,
                service_type@,
            ),
    {
        let ghost (a, b, c, e, f) = (state@, start_type@, display_name@, path@, service_type@);
        let mut d = data;
        d.add_field("exists".to_string(), ResolvedValue::Boolean(true));
        d.add_field("state".to_string(), ResolvedValue::String(state));
        d.add_field("start_type".to_string(), ResolvedValue::String(start_type));
        d.add_field("display_name".to_string(), ResolvedValue::String(display_name));
        d.add_field("path".to_string(), ResolvedValue::String(path));
        d.add_field("service_type".to_string(), ResolvedValue::String(service_type));
        assert(data_fields(d) =~= present_service_fields(a, b, c, e, f));
        d
    }

    /// A failure of collection for the object.
    fn failure(object: &ExecutableObject, reason: String) -> (res: CollectionError)
        ensures
            failed_error(res, *object, reason@),
    {
        CollectionError::CollectionFailed { object_id: object.identifier.clone(), reason }
    }

    /// Denied access for the object.
    fn denied(object: &ExecutableObject, reason: String) -> (res: CollectionError)
        ensures
            denied_error(res, *object, reason@),
    {
        CollectionError::AccessDenied { object_id: object.identifier.clone(), reason }
    }

    /// Collects a service through `sc.exe`: call first with the outcome of
    /// `sc.exe query` and no `qc` outcome; when the answer is `NeedQc`, run
    /// `sc.exe qc` and call again with both.
    pub fn collect_via_sc(
        &self,
        object: &ExecutableObject,
        service_name: &str,
        query: &Result<CommandOutput, String>,
        qc: Option<&Result<CommandOutput, String>>,
    ) -> (res: ScStep)
        ensures
            sc_outcome(
                *object,
                self.id_view(),
                service_name@,
                *query,
                match qc {
                    Some(r) => Some(*r),
                    None => None,
                },
                res,
            ),
    {
        let query_command = concat3("sc.exe query \"", service_name, "\"");
        let qc_command = concat3("sc.exe qc \"", service_name, "\"");
        let mut inputs: Vec<(String, String)> = Vec::new();
        inputs.push(("service_name".to_string(), service_name.to_string()));
        inputs.push(("executor".to_string(), "sc".to_string()));
        assert(inputs@.map_values(|p: (String, String)| (p.0@, p.1@)) =~= seq![
            ("service_name"@, service_name@),
            ("executor"@, "sc"@),
        ]);
        let method = CollectionMethod {
            method_type: CollectionMethodType::Command,
            description: "Query Windows service state and configuration via sc.exe".to_string(),
            target: Some(service_name.to_string()),
            command: Some(concat3(query_command.as_str(), "; ", qc_command.as_str())),
            inputs,
        };
        let data = self.new_data(object, method);
        let q = match query {
            Ok(q) => q,
            Err(e) => {
                return ScStep::Done(
                    Err(
                        Self::failure(
                            object,
                            concat2("sc.exe query execution failed: ", e.as_str()),
                        ),
                    ),
                );
            },
        };
        if is_service_not_found(q.stdout.as_str()) || is_service_not_found(q.stderr.as_str()) {
            return ScStep::Done(Ok(Self::absent(data)));
        }
        if is_access_denied(q.stdout.as_str()) || is_access_denied(q.stderr.as_str()) {
            return ScStep::Done(
                Err(
                    Self::denied(
                        object,
                        concat2("Access denied querying service: ", service_name),
                    ),
                ),
            );
        }
        if q.exit_code != 0 {
            return ScStep::Done(
                Err(Self::failure(object, exit_reason_exec("sc.exe query", q))),
            );
        }
        let query_info = match parse_sc_query_output(q.stdout.as_str()) {
            Some(i) => i,
            None => {
                return ScStep::Done(
                    Err(Self::failure(object, "Failed to parse sc.exe query output".to_string())),
                );
            },
        };
        let c = match qc {
            None => {
                return ScStep::NeedQc;
            },
            Some(Ok(c)) => c,
            Some(Err(e)) => {
                return ScStep::Done(
                    Err(
                        Self::failure(object, concat2("sc.exe qc execution failed: ", e.as_str())),
                    ),
                );
            },
        };
        if is_service_not_found(c.stdout.as_str()) || is_service_not_found(c.stderr.as_str()) {
            return ScStep::Done(Ok(Self::absent(data)));
        }
        if is_access_denied(c.stdout.as_str()) || is_access_denied(c.stderr.as_str()) {
            return ScStep::Done(
                Err(
                    Self::denied(
                        object,
                        concat2("Access denied querying service configuration: ", service_name),
                    ),
                ),
            );
        }
        if c.exit_code != 0 {
            return ScStep::Done(
                Err(Self::failure(object, exit_reason_exec("sc.exe qc", c))),
            );
        }
        match parse_sc_qc_output(c.stdout.as_str()) {
            Some(qc_info) => ScStep::Done(
                Ok(
                    Self::present(
                        data,
                        query_info.state,
                        qc_info.start_type,
                        qc_info.display_name,
                        qc_info.path,
                        qc_info.service_type,
                    ),
                ),
            ),
            None => ScStep::Done(
                Err(Self::failure(object, "Failed to parse sc.exe qc output".to_string())),
            ),
        }
    }

    /// The PowerShell query for a service, with its name's single quotes
    /// doubled.
    pub fn powershell_command(service_name: &str) -> (res: String)
        ensures
            res@ == ps_service_command(service_name@),
    {
        let s = chars_of(service_name);
        let mut escaped: Vec<char> = Vec::new();
        let mut i: usize = 0;
        while i < s.len()
            invariant
                i <= s@.len(),
                s@ == service_name@,
                escaped@ == double_quotes(s@.take(i as int)),
            decreases s.len() - i,
        {
            assert(s@.take(i + 1).drop_last() =~= s@.take(i as int));
            if s[i] == '\'' {
                escaped.push('\'');
                escaped.push('\'');
            } else {
                escaped.push(s[i]);
            }
            assert(escaped@ =~= double_quotes(s@.take(i + 1)));
            i = i + 1;
        }
        assert(s@.take(s@.len() as int) =~= s@);
        let e = string_from_chars(&escaped);
        concat3(
            "Get-CimInstance -ClassName Win32_Service -Filter \"Name='",
            e.as_str(),
            "'\" | Select-Object Name, State, StartMode, DisplayName, PathName, ServiceType, DelayedAutoStart | ConvertTo-Json",
        )
    }

    /// The arguments given to `powershell` for a command.
    pub fn powershell_args(command: &str) -> (res: Vec<String>)
        ensures
            res@.len() == 4,
            res@[0]@ == "-NoProfile"@,
            res@[1]@ == "-NonInteractive"@,
            res@[2]@ == "-Command"@,
            res@[3]@ == command@,
    {
        let mut v = Vec::new();
        v.push("-NoProfile".to_string());
        v.push("-NonInteractive".to_string());
        v.push("-Command".to_string());
        v.push(command.to_string());
        v
    }

    /// Collects a service from the outcome of the PowerShell query.
    pub fn collect_via_powershell(
        &self,
        object: &ExecutableObject,
        service_name: &str,
        output: &Result<CommandOutput, String>,
    ) -> (res: Result<CollectedData, CollectionError>)
        ensures
            ps_outcome(*object, self.id_view(), service_name@, *output, res),
    {
        let command = Self::powershell_command(service_name);
        let mut inputs: Vec<(String, String)> = Vec::new();
        inputs.push(("service_name".to_string(), service_name.to_string()));
        inputs.push(("executor".to_string(), "powershell".to_string()));
        inputs.push(("wmi_class".to_string(), "Win32_Service".to_string()));
        assert(inputs@.map_values(|p: (String, String)| (p.0@, p.1@)) =~= seq![
            ("service_name"@, service_name@),
            ("executor"@, "powershell"@),
            ("wmi_class"@, "Win32_Service"@),
        ]);
        let method = CollectionMethod {
            method_type: CollectionMethodType::WmiQuery,
            description: "Query Windows service via PowerShell Get-CimInstance (WMI)".to_string(),
            target: Some(service_name.to_string()),
            command: Some(
                concat3(
                    "powershell -NoProfile -NonInteractive -Command \"",
                    command.as_str(),
                    "\"",
                ),
            ),
            inputs,
        };
        let data = self.new_data(object, method);
        let out = match output {
            Ok(o) => o,
            Err(e) => {
                return Err(
                    Self::failure(object, concat2("PowerShell execution failed: ", e.as_str())),
                );
            },
        };
        if out.exit_code != 0 {
            let low = lower_chars(&chars_of(out.stderr.as_str()));
            proof {
                reveal_strlit("access");
                reveal_strlit("denied");
            }
            if contains_exec(&low, &chars_of("access")) && contains_exec(&low, &chars_of("denied")) {
                return Err(
                    Self::denied(object, concat2("Access denied querying service: ", service_name)),
                );
            }
            return Err(
                Self::failure(object, exit_reason_exec("PowerShell", out)),
            );
        }
        let t = trim_chars(&chars_of(out.stdout.as_str()));
        if t.len() == 0 || chars_eq(&t, &chars_of("null")) {
            return Ok(Self::absent(data));
        }
        let text = string_from_chars(&t);
        let ms = match parse_json_members(text.as_str()) {
            Ok(ms) => ms,
            Err(e) => {
                return Err(
                    Self::failure(
                        object,
                        concat2("Failed to parse PowerShell JSON output: ", e.as_str()),
                    ),
                );
            },
        };
        let state = match get_str(&ms, "State") {
            Some(s) => normalize_powershell_state(s.as_str()),
            None => "unknown".to_string(),
        };
        let start_mode = match get_str(&ms, "StartMode") {
            Some(s) => s.clone(),
            None => "unknown".to_string(),
        };
        let delayed = match get_bool(&ms, "DelayedAutoStart") {
            Some(b) => b,
            None => false,
        };
        let start_type = normalize_powershell_start_type(start_mode.as_str(), delayed);
        let display_name = match get_str(&ms, "DisplayName") {
            Some(s) => s.clone(),
            None => String::new(),
        };
        let path = match get_str(&ms, "PathName") {
            Some(s) => s.clone(),
            None => String::new(),
        };
        let service_type = match get_str(&ms, "ServiceType") {
            Some(s) => normalize_powershell_service_type(s.as_str()),
            None => "unknown".to_string(),
        };
        Ok(Self::present(data, state, start_type, display_name, path, service_type))
    }
}

} // verus!
