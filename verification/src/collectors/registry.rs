//! Windows registry values, through `reg.exe query` (default) or PowerShell
//! `Get-ItemPropertyValue`.
//!
//! Collected fields: `exists`, `type` (lower-case `reg_*`, from `reg.exe`
//! only) and `value` (DWORD and QWORD values in decimal).

use vstd::prelude::*;
use crate::collectors::{
    config_error, denied_error, failed_error, incompatible_reason, not_string_reason,
    required_field, required_field_result,
    check_ctn_type, extract_required_string, extract_string_field,
    mentions, mentions_both, mentions_both_exec, normalize_hive_for_reg, reg_hive,
    registry_executor, registry_method, string_field, string_field_result_view, BehaviorHints,
    RegistryQueryMethod,
};
use crate::commands::powershell::{build_registry_value_args, parse_powershell_output};
use crate::commands::reg::{
    normalize_reg_type, normalize_reg_value, normalized_reg_value, parse_reg_output, reg_output,
};
use crate::contract::CtnContract;
use crate::model::{
    concat, concat2, concat3, data_fields, has_method, i64_to_decimal, method_view, signed_decimal,
    CollectedData, CollectionError, CollectionMethod, CollectionMethodType, CommandOutput,
    ExecutableObject, MethodView, ResolvedValue, ValueView,
};
use crate::text::string_from_chars;
use crate::validation::push_str;
use crate::text::{contains, str_to_lowercase, trim};

verus! {

/// Collector for registry values.
#[derive(Debug)]
pub struct RegistryCollector {
    id: String,
}

/// The full `reg.exe` path of a key.
pub open spec fn reg_key_path(hive: Seq<char>, key: Seq<char>) -> Seq<char> {
    reg_hive(hive) + "\\"@ + key
}

/// The fields recorded for a value that does not exist.
pub open spec fn absent_value_fields() -> Seq<(Seq<char>, ValueView)> {
    seq![("exists"@, ValueView::Bool(false)), ("value"@, ValueView::Str(Seq::empty()))]
}

/// Whether `d` is the registry data of object `o` gathered by collector
/// `id` with fields `fs`.
pub open spec fn registry_data(
    d: CollectedData,
    o: ExecutableObject,
    id: Seq<char>,
    fs: Seq<(Seq<char>, ValueView)>,
    m: MethodView,
) -> bool {
    &&& d.object_id@ == o.identifier@
    &&& d.ctn_type@ == "registry"@
    &&& d.collector_id@ == id
    &&& has_method(d, m)
    &&& data_fields(d) == fs
}

/// The inputs a registry query records.
pub open spec fn query_inputs(hive: Seq<char>, key: Seq<char>, name: Seq<char>, executor: Seq<char>) -> Seq<
    (Seq<char>, Seq<char>),
> {
    seq![("hive"@, hive), ("key"@, key), ("name"@, name), ("executor"@, executor)]
}

/// The record of a `reg.exe` query.
pub open spec fn reg_method_view(hive: Seq<char>, key: Seq<char>, name: Seq<char>) -> MethodView {
    let full = reg_key_path(hive, key);
    MethodView {
        method_type: CollectionMethodType::RegistryQuery,
        description: "Query registry value via reg.exe"@,
        target: Some(full),
        command: Some("reg query \""@ + full + "\" /v \""@ + name + "\""@),
        inputs: query_inputs(hive, key, name, "reg"@),
    }
}

/// The record of a PowerShell query.
pub open spec fn ps_method_view(hive: Seq<char>, key: Seq<char>, name: Seq<char>) -> MethodView {
    MethodView {
        method_type: CollectionMethodType::RegistryQuery,
        description: "Query registry value via PowerShell Get-ItemPropertyValue"@,
        target: Some(hive + "\\"@ + key),
        command: Some(
            "powershell "@ + "-NoProfile"@ + " "@ + "-NonInteractive"@ + " "@ + "-Command"@ + " "@
                + crate::commands::powershell::registry_value_command(hive, key, name),
        ),
        inputs: query_inputs(hive, key, name, "powershell"@),
    }
}

/// Why a command failed, with its exit code and error output.
pub open spec fn exit_reason(tool: Seq<char>, out: CommandOutput) -> Seq<char> {
    tool + " failed with exit code "@ + signed_decimal(out.exit_code as int) + ": "@ + out.stderr@
}

/// What `reg.exe query` collection yields: exit code 1 means the value does
/// not exist; another failure is denied access or a failed collection; a
/// success gives the value's type and normalized value, or no value when
/// the output holds none.
pub open spec fn reg_value_outcome(
    o: ExecutableObject,
    id: Seq<char>,
    hive: Seq<char>,
    key: Seq<char>,
    name: Seq<char>,
    output: Result<CommandOutput, String>,
    res: Result<CollectedData, CollectionError>,
) -> bool {
    let m = reg_method_view(hive, key, name);
    match output {
        Err(why) => res matches Err(e) && failed_error(e, o, "reg.exe execution failed: "@ + why@),
        Ok(out) => if out.exit_code == 1 {
            res matches Ok(d) && registry_data(d, o, id, absent_value_fields(), m)
        } else if out.exit_code != 0 {
            if mentions_both(out.stderr@, "access"@, "denied"@) {
                res matches Err(e) && denied_error(
                    e,
                    o,
                    "Access denied to registry key: "@ + reg_key_path(hive, key),
                )
            } else {
                res matches Err(e) && failed_error(e, o, exit_reason("reg.exe"@, out))
            }
        } else {
            match reg_output(out.stdout@) {
                Some((t, v)) => res matches Ok(d) && registry_data(
                    d,
                    o,
                    id,
                    seq![
                        ("exists"@, ValueView::Bool(true)),
                        ("type"@, ValueView::Str(str_to_lowercase(t))),
                        ("value"@, ValueView::Str(normalized_reg_value(t, v))),
                    ],
                    m,
                ),
                None => res matches Ok(d) && registry_data(d, o, id, absent_value_fields(), m),
            }
        },
    }
}

/// What PowerShell collection yields: a failure whose message says the
/// path or property does not exist means the value does not exist; denied
/// access and other failures are errors; a success gives the trimmed output
/// as the value.
pub open spec fn ps_value_outcome(
    o: ExecutableObject,
    id: Seq<char>,
    hive: Seq<char>,
    key: Seq<char>,
    name: Seq<char>,
    output: Result<CommandOutput, String>,
    res: Result<CollectedData, CollectionError>,
) -> bool {
    let m = ps_method_view(hive, key, name);
    match output {
        Err(why) => res matches Err(e) && failed_error(
            e,
            o,
            "PowerShell execution failed: "@ + why@,
        ),
        Ok(out) => {
            let low = str_to_lowercase(out.stderr@);
            if out.exit_code != 0 {
                if contains(low, "does not exist"@) || contains(low, "cannot find path"@) || contains(
                    low,
                    "property"@,
                ) {
                    res matches Ok(d) && registry_data(d, o, id, absent_value_fields(), m)
                } else if mentions_both(out.stderr@, "access"@, "denied"@) {
                    res matches Err(e) && denied_error(
                        e,
                        o,
                        "Access denied to registry key: "@ + (hive + "\\"@ + key),
                    )
                } else {
                    res matches Err(e) && failed_error(e, o, exit_reason("PowerShell"@, out))
                }
            } else {
                res matches Ok(d) && registry_data(
                    d,
                    o,
                    id,
                    seq![
                        ("exists"@, ValueView::Bool(true)),
                        ("value"@, ValueView::Str(trim(out.stdout@))),
                    ],
                    m,
                )
            }
        },
    }
}

/// The message of a command that exited with an error.
pub fn exit_reason_exec(tool: &str, out: &CommandOutput) -> (res: String)
    ensures
        res@ == exit_reason(tool@, *out),
{
    let code = string_from_chars(&i64_to_decimal(out.exit_code as i64));
    let mut v: Vec<char> = Vec::new();
    push_str(&mut v, tool);
    push_str(&mut v, " failed with exit code ");
    push_str(&mut v, code.as_str());
    push_str(&mut v, ": ");
    push_str(&mut v, out.stderr.as_str());
    assert(Seq::<char>::empty() + tool@ =~= tool@);
    string_from_chars(&v)
}

/// `powershell` followed by its four arguments, separated by spaces.
pub fn powershell_command_line(args: &Vec<String>) -> (res: String)
    requires
        args@.len() == 4,
    ensures
        res@ == "powershell "@ + args@[0]@ + " "@ + args@[1]@ + " "@ + args@[2]@ + " "@
            + args@[3]@,
{
    let mut v: Vec<char> = Vec::new();
    push_str(&mut v, "powershell ");
    push_str(&mut v, args[0].as_str());
    push_str(&mut v, " ");
    push_str(&mut v, args[1].as_str());
    push_str(&mut v, " ");
    push_str(&mut v, args[2].as_str());
    push_str(&mut v, " ");
    push_str(&mut v, args[3].as_str());
    assert(Seq::<char>::empty() + "powershell "@ =~= "powershell "@);
    string_from_chars(&v)
}

impl RegistryCollector {
    /// The collector's id.
    pub closed spec fn id_view(&self) -> Seq<char> {
        self.id@
    }

    /// A collector with id `windows_registry_collector`.
    pub fn new() -> (res: Self)
        ensures
            res.id_view() == "windows_registry_collector"@,
    {
        RegistryCollector { id: "windows_registry_collector".to_string() }
    }

    /// A collector with the given id.
    pub fn with_id(id: &str) -> (res: Self)
        ensures
            res.id_view() == id@,
    {
        RegistryCollector { id: id.to_string() }
    }

    /// The collector's id.
    pub fn collector_id(&self) -> (res: &str)
        ensures
            res@ == self.id_view(),
    {
        self.id.as_str()
    }

    /// The CTN types the collector serves.
    pub fn supported_ctn_types(&self) -> (res: Vec<String>)
        ensures
            res@.len() == 1,
            res@[0]@ == "registry"@,
    {
        let mut v = Vec::new();
        v.push("registry".to_string());
        v
    }

    /// Each value is queried on its own.
    pub fn supports_batch_collection(&self) -> (res: bool)
        ensures
            !res,
    {
        false
    }

    /// Accepts only the registry contract.
    pub fn validate_ctn_compatibility(&self, contract: &CtnContract) -> (res: Result<
        (),
        CollectionError,
    >)
        ensures
            res is Ok <==> contract.ctn_type@ == "registry"@,
            res matches Err(e) ==> e matches CollectionError::CtnContractValidation { reason }
                && reason@ == incompatible_reason("registry"@, contract.ctn_type@),
    {
        check_ctn_type(&contract.ctn_type, "registry")
    }

    /// Reads a string field of the object.
    pub fn extract_string_field(&self, object: &ExecutableObject, field_name: &str) -> (res:
        Result<Option<String>, CollectionError>)
        ensures
            string_field_result_view(res) == string_field(*object, field_name@),
            res matches Err(e) ==> config_error(e, *object, not_string_reason(field_name@)),
    {
        extract_string_field(object, field_name)
    }

    /// Reads a required string field of the object.
    pub fn extract_required_string(&self, object: &ExecutableObject, field_name: &str) -> (res:
        Result<String, CollectionError>)
        ensures
            required_field_result(*object, field_name@, res),
    {
        extract_required_string(object, field_name)
    }

    /// The `reg.exe` root key for a hive name.
    pub fn normalize_hive_for_reg(&self, hive: &str) -> (res: String)
        ensures
            res@ == reg_hive(hive@),
    {
        normalize_hive_for_reg(hive)
    }

    /// Decides how to collect an object: its `hive`, `key` and `name`
    /// fields, and the query method the `executor` behavior selects.
    pub fn collect_for_ctn_with_hints(
        &self,
        object: &ExecutableObject,
        _contract: &CtnContract,
        hints: &BehaviorHints,
    ) -> (res: Result<(RegistryQueryMethod, String, String, String), CollectionError>)
        ensures
            match (
                required_field(*object, "hive"@),
                required_field(*object, "key"@),
                required_field(*object, "name"@),
            ) {
                (Err(why), _, _) => res matches Err(e) && config_error(e, *object, why),
                (Ok(_), Err(why), _) => res matches Err(e) && config_error(e, *object, why),
                (Ok(_), Ok(_), Err(why)) => res matches Err(e) && config_error(e, *object, why),
                (Ok(h), Ok(k), Ok(n)) => {
                    let ex = registry_executor(*hints);
                    if ex == "reg"@ || ex == "powershell"@ {
                        res matches Ok(p) && (p.0 == RegistryQueryMethod::Reg <==> ex == "reg"@)
                            && p.1@ == h && p.2@ == k && p.3@ == n
                    } else {
                        res matches Err(e) && config_error(
                            e,
                            *object,
                            "Invalid executor '"@ + ex + "'. Valid values: reg, powershell"@,
                        )
                    }
                },
            },
    {
        let hive = self.extract_required_string(object, "hive")?;
        let key = self.extract_required_string(object, "key")?;
        let name = self.extract_required_string(object, "name")?;
        proof {
            reveal_strlit("reg");
            reveal_strlit("powershell");
            assert("powershell"@.len() != "reg"@.len());
        }
        let m = registry_method(object, hints)?;
        Ok((m, hive, key, name))
    }

    /// The arguments of `reg.exe query <hive>\<key> /v <name>`.
    pub fn reg_query_args(&self, hive: &str, key: &str, name: &str) -> (res: Vec<String>)
        ensures
            res@.len() == 4,
            res@[0]@ == "query"@,
            res@[1]@ == reg_key_path(hive@, key@),
            res@[2]@ == "/v"@,
            res@[3]@ == name@,
    {
        let h = self.normalize_hive_for_reg(hive);
        let mut v = Vec::new();
        v.push("query".to_string());
        v.push(concat3(h.as_str(), "\\", key));
        v.push("/v".to_string());
        v.push(name.to_string());
        v
    }

    /// The arguments of the PowerShell query.
    pub fn powershell_args(&self, hive: &str, key: &str, name: &str) -> (res: Vec<String>)
        ensures
            res@.len() == 4,
            res@[0]@ == "-NoProfile"@,
            res@[1]@ == "-NonInteractive"@,
            res@[2]@ == "-Command"@,
            res@[3]@ == crate::commands::powershell::registry_value_command(hive@, key@, name@),
    {
        build_registry_value_args(hive, key, name)
    }

    /// Empty data for an object, with its collection method.
    fn new_data(&self, object: &ExecutableObject, method: CollectionMethod) -> (res: CollectedData)
        ensures
            res.object_id@ == object.identifier@,
            res.ctn_type@ == "registry"@,
            res.collector_id@ == self.id_view(),
            has_method(res, method_view(method)),
            data_fields(res).len() == 0,
    {
        let mut data = CollectedData::new(
            object.identifier.clone(),
            "registry".to_string(),
            self.id.clone(),
        );
        data.set_method(method);
        assert(data_fields(data) =~= Seq::<(Seq<char>, ValueView)>::empty());
        data
    }

    /// Records a value that does not exist.
    fn absent(data: CollectedData) -> (res: CollectedData)
        requires
            data_fields(data).len() == 0,
        ensures
            res.object_id == data.object_id,
            res.ctn_type == data.ctn_type,
            res.collector_id == data.collector_id,
            res.method == data.method,
            data_fields(res) == absent_value_fields(),
    {
        let mut d = data;
        d.add_field("exists".to_string(), ResolvedValue::Boolean(false));
        d.add_field("value".to_string(), ResolvedValue::String(String::new()));
        assert(data_fields(d) =~= absent_value_fields());
        d
    }

    /// The method record of a query.
    fn method(
        description: &str,
        target: String,
        command: String,
        hive: &str,
        key: &str,
        name: &str,
        executor: &str,
    ) -> (res: CollectionMethod)
        ensures
            method_view(res) == (MethodView {
                method_type: CollectionMethodType::RegistryQuery,
                description: description@,
                target: Some(target@),
                command: Some(command@),
                inputs: query_inputs(hive@, key@, name@, executor@),
            }),
    {
        let mut inputs: Vec<(String, String)> = Vec::new();
        inputs.push(("hive".to_string(), hive.to_string()));
        inputs.push(("key".to_string(), key.to_string()));
        inputs.push(("name".to_string(), name.to_string()));
        inputs.push(("executor".to_string(), executor.to_string()));
        assert(inputs@.map_values(|p: (String, String)| (p.0@, p.1@)) =~= query_inputs(
            hive@,
            key@,
            name@,
            executor@,
        ));
        CollectionMethod {
            method_type: CollectionMethodType::RegistryQuery,
            description: description.to_string(),
            target: Some(target),
            command: Some(command),
            inputs,
        }
    }

    /// Collects a value from the outcome of `reg.exe query`.
    pub fn collect_via_reg(
        &self,
        object: &ExecutableObject,
        hive: &str,
        key: &str,
        name: &str,
        output: &Result<CommandOutput, String>,
    ) -> (res: Result<CollectedData, CollectionError>)
        ensures
            reg_value_outcome(*object, self.id_view(), hive@, key@, name@, *output, res),
    {
        let h = self.normalize_hive_for_reg(hive);
        let full_path = concat3(h.as_str(), "\\", key);
        let out = match output {
            Ok(o) => o,
            Err(e) => {
                return Err(
                    CollectionError::CollectionFailed {
                        object_id: object.identifier.clone(),
                        reason: concat2("reg.exe execution failed: ", e.as_str()),
                    },
                );
            },
        };
        let mut cv: Vec<char> = Vec::new();
        push_str(&mut cv, "reg query \"");
        push_str(&mut cv, full_path.as_str());
        push_str(&mut cv, "\" /v \"");
        push_str(&mut cv, name);
        push_str(&mut cv, "\"");
        assert(Seq::<char>::empty() + "reg query \""@ =~= "reg query \""@);
        let command = string_from_chars(&cv);
        let method = Self::method(
            "Query registry value via reg.exe",
            full_path.clone(),
            command,
            hive,
            key,
            name,
            "reg",
        );
        let data = self.new_data(object, method);
        if out.exit_code == 1 {
            return Ok(Self::absent(data));
        }
        if out.exit_code != 0 {
            if mentions_both_exec(out.stderr.as_str(), "access", "denied") {
                return Err(
                    CollectionError::AccessDenied {
                        object_id: object.identifier.clone(),
                        reason: concat2("Access denied to registry key: ", full_path.as_str()),
                    },
                );
            }
            return Err(
                CollectionError::CollectionFailed {
                    object_id: object.identifier.clone(),
                    reason: exit_reason_exec("reg.exe", out),
                },
            );
        }
        match parse_reg_output(out.stdout.as_str()) {
            Some((reg_type, value)) => {
                let mut d = data;
                let ghost (t, v) = (reg_type@, value@);
                d.add_field("exists".to_string(), ResolvedValue::Boolean(true));
                d.add_field(
                    "type".to_string(),
                    ResolvedValue::String(normalize_reg_type(reg_type.as_str())),
                );
                d.add_field(
                    "value".to_string(),
                    ResolvedValue::String(normalize_reg_value(reg_type.as_str(), value.as_str())),
                );
                assert(data_fields(d) =~= seq![
                    ("exists"@, ValueView::Bool(true)),
                    ("type"@, ValueView::Str(str_to_lowercase(t))),
                    ("value"@, ValueView::Str(normalized_reg_value(t, v))),
                ]);
                Ok(d)
            },
            None => Ok(Self::absent(data)),
        }
    }

    /// Collects a value from the outcome of the PowerShell query.
    pub fn collect_via_powershell(
        &self,
        object: &ExecutableObject,
        hive: &str,
        key: &str,
        name: &str,
        output: &Result<CommandOutput, String>,
    ) -> (res: Result<CollectedData, CollectionError>)
        ensures
            ps_value_outcome(*object, self.id_view(), hive@, key@, name@, *output, res),
    {
        let args = self.powershell_args(hive, key, name);
        let out = match output {
            Ok(o) => o,
            Err(e) => {
                return Err(
                    CollectionError::CollectionFailed {
                        object_id: object.identifier.clone(),
                        reason: concat2("PowerShell execution failed: ", e.as_str()),
                    },
                );
            },
        };
        let full_path = concat3(hive, "\\", key);
        let command = powershell_command_line(&args);
        let method = Self::method(
            "Query registry value via PowerShell Get-ItemPropertyValue",
            full_path.clone(),
            command,
            hive,
            key,
            name,
            "powershell",
        );
        let data = self.new_data(object, method);
        if out.exit_code != 0 {
            let err = out.stderr.as_str();
            if mentions(err, "does not exist") || mentions(err, "cannot find path") || mentions(
                err,
                "property",
            ) {
                return Ok(Self::absent(data));
            }
            if mentions_both_exec(err, "access", "denied") {
                return Err(
                    CollectionError::AccessDenied {
                        object_id: object.identifier.clone(),
                        reason: concat2("Access denied to registry key: ", full_path.as_str()),
                    },
                );
            }
            return Err(
                CollectionError::CollectionFailed {
                    object_id: object.identifier.clone(),
                    reason: exit_reason_exec("PowerShell", out),
                },
            );
        }
        let value = parse_powershell_output(out.stdout.as_str());
        let ghost vv = value@;
        let mut d = data;
        d.add_field("exists".to_string(), ResolvedValue::Boolean(true));
        d.add_field("value".to_string(), ResolvedValue::String(value));
        assert(data_fields(d) =~= seq![
            ("exists"@, ValueView::Bool(true)),
            ("value"@, ValueView::Str(vv)),
        ]);
        Ok(d)
    }
}

} // verus!
