//! Linux state read through system commands: RPM packages (`rpm -q`,
//! `rpm -qa` in batch), systemd services (`systemctl is-active` and
//! `is-enabled`), kernel parameters (`sysctl -n`) and SELinux (`getenforce`).

use vstd::prelude::*;
use crate::collectors::{
    config_error, failed_error, find_field, first_field, missing_field_reason, BehaviorHints,
};
use crate::contract::{pair_lookup, pairs_view, CtnContract};
use crate::executors::{debug_text, debug_value};
use crate::model::{
    concat2, concat3, data_fields, has_method, method_view, object_fields, CollectedData,
    CollectionError, CollectionMethod, CollectionMethodType, CommandOutput, ExecutableObject,
    MethodView, ResolvedValue, ValueView,
};
use crate::validation::push_str;
use crate::numfmt::{parse_i64, parse_signed};
use crate::text::{
    chars_eq, chars_of, contains, contains_exec, lines, slice_range, split_lines,
    string_from_chars, trim, trim_chars, views,
};

verus! {

/// What a command collector runs for an object.
#[derive(Debug)]
pub enum CommandPlan {
    /// `rpm -q <package>`
    RpmPackage(String),
    /// `systemctl is-active <service>`, then `systemctl is-enabled <service>`
    SystemdService(String),
    /// `sysctl -n <parameter>`
    SysctlParameter(String),
    /// `getenforce`
    SelinuxStatus,
}

/// Where a collection that runs several commands stands.
#[derive(Debug)]
pub enum CollectionStep {
    /// The next command must be run
    NeedNext,
    /// Collection is over
    Done(Result<CollectedData, CollectionError>),
}

/// Collector that reads Linux state through system commands.
#[derive(Debug)]
pub struct CommandCollector {
    id: String,
}

/// Position of the last `c` in `s`, or `-1` when there is none.
pub open spec fn last_index(s: Seq<char>, c: char) -> int
    decreases s.len(),
{
    if s.len() == 0 {
        -1
    } else if s.last() == c {
        s.len() - 1
    } else {
        last_index(s.drop_last(), c)
    }
}

/// What `rpm -q` output names: `None` for blank output or output saying the
/// package is not installed; otherwise, cutting at the last two `-`, the
/// name before them and the version-release after the last one, or the
/// whole line and an empty version when there are fewer than two.
pub open spec fn rpm_output(stdout: Seq<char>) -> Option<(Seq<char>, Seq<char>)> {
    let line = trim(stdout);
    let k = last_index(line, '-');
    if line.len() == 0 || contains(line, "not installed"@) {
        None
    } else if k >= 0 && last_index(line.take(k), '-') >= 0 {
        let j = last_index(line.take(k), '-');
        Some((line.take(j), line.skip(k + 1)))
    } else {
        Some((line, Seq::empty()))
    }
}

/// What reading required string field `name` of an object gives: its
/// text, or why the object is refused.
pub open spec fn command_field(o: ExecutableObject, name: Seq<char>) -> Result<Seq<char>, Seq<char>> {
    match first_field(object_fields(o), name) {
        Some(ValueView::Str(s)) => Ok(s),
        Some(v) => Err("Field '"@ + name + "' must be a string, got "@ + debug_text(v)),
        None => Err(missing_field_reason(name)),
    }
}

/// Whether `res` is what `command_field` gives for object `o`.
pub open spec fn command_field_result(
    o: ExecutableObject,
    name: Seq<char>,
    res: Result<String, CollectionError>,
) -> bool {
    match command_field(o, name) {
        Ok(s) => res matches Ok(r) && r@ == s,
        Err(why) => res matches Err(e) && config_error(e, o, why),
    }
}

/// Whether `e` says that collector `id` does not serve CTN type `ctn`.
pub open spec fn unsupported(e: CollectionError, ctn: Seq<char>, id: Seq<char>) -> bool {
    e matches CollectionError::UnsupportedCtnType { ctn_type, collector_id } && ctn_type@ == ctn
        && collector_id@ == id
}

/// The plan for an object under contract type `ctn`, by collector `id`.
pub open spec fn command_plan(
    o: ExecutableObject,
    ctn: Seq<char>,
    id: Seq<char>,
    res: Result<CommandPlan, CollectionError>,
) -> bool {
    if ctn == "rpm_package"@ {
        match command_field(o, "package_name"@) {
            Ok(s) => res matches Ok(CommandPlan::RpmPackage(p)) && p@ == s,
            Err(why) => res matches Err(e) && config_error(e, o, why),
        }
    } else if ctn == "systemd_service"@ {
        match command_field(o, "service_name"@) {
            Ok(s) => res matches Ok(CommandPlan::SystemdService(p)) && p@ == s,
            Err(why) => res matches Err(e) && config_error(e, o, why),
        }
    } else if ctn == "sysctl_parameter"@ {
        match command_field(o, "parameter_name"@) {
            Ok(s) => res matches Ok(CommandPlan::SysctlParameter(p)) && p@ == s,
            Err(why) => res matches Err(e) && config_error(e, o, why),
        }
    } else if ctn == "selinux_status"@ {
        res matches Ok(CommandPlan::SelinuxStatus)
    } else {
        res matches Err(e) && unsupported(e, ctn, id)
    }
}

/// Whether `d` is data of object `o` for CTN type `ctn` gathered by
/// collector `id` with fields `fs` and method record `m`.
pub open spec fn command_data(
    d: CollectedData,
    o: ExecutableObject,
    ctn: Seq<char>,
    id: Seq<char>,
    fs: Seq<(Seq<char>, ValueView)>,
    m: MethodView,
) -> bool {
    &&& d.object_id@ == o.identifier@
    &&& d.ctn_type@ == ctn
    &&& d.collector_id@ == id
    &&& has_method(d, m)
    &&& data_fields(d) == fs
}

/// The record of a command run for one target.
pub open spec fn command_method_view(
    description: Seq<char>,
    target: Seq<char>,
    command: Seq<char>,
    inputs: Seq<(Seq<char>, Seq<char>)>,
) -> MethodView {
    MethodView {
        method_type: CollectionMethodType::Command,
        description,
        target: Some(target),
        command: Some(command),
        inputs,
    }
}

/// The record of an `rpm -q` query.
pub open spec fn rpm_method(name: Seq<char>) -> MethodView {
    command_method_view(
        "Query RPM package information"@,
        name,
        "rpm -q "@ + name,
        seq![("package_name"@, name)],
    )
}

/// The record of a systemd service query.
pub open spec fn systemd_method(name: Seq<char>) -> MethodView {
    command_method_view(
        "Query systemd service status"@,
        name,
        "systemctl is-active "@ + name + "; systemctl is-enabled "@ + name,
        seq![("service_name"@, name)],
    )
}

/// The record of a sysctl query.
pub open spec fn sysctl_method(name: Seq<char>) -> MethodView {
    command_method_view(
        "Query kernel sysctl parameter"@,
        name,
        "sysctl -n "@ + name,
        seq![("parameter_name"@, name)],
    )
}

/// The record of a SELinux query.
pub open spec fn selinux_method() -> MethodView {
    command_method_view(
        "Query SELinux enforcement status"@,
        "selinux"@,
        "getenforce"@,
        Seq::empty(),
    )
}

/// The record of a package in a batch query.
pub open spec fn batch_method(name: Seq<char>) -> MethodView {
    command_method_view(
        "Batch query RPM packages"@,
        name,
        "rpm -qa"@,
        seq![("package_name"@, name), ("batch_mode"@, "true"@)],
    )
}

/// The fields of an RPM package query.
pub open spec fn rpm_fields(name: Seq<char>, out: CommandOutput) -> Seq<(Seq<char>, ValueView)> {
    let installed = out.exit_code == 0;
    seq![("package_name"@, ValueView::Str(name)), ("installed"@, ValueView::Bool(installed))]
        + if installed && rpm_output(out.stdout@) is Some {
        seq![("version"@, ValueView::Str(rpm_output(out.stdout@).unwrap().1))]
    } else {
        Seq::empty()
    }
}

/// Whether a `systemctl` check succeeded with the expected word.
pub open spec fn reports(out: CommandOutput, word: Seq<char>) -> bool {
    out.exit_code == 0 && trim(out.stdout@) == word
}

/// The fields of a systemd service query.
pub open spec fn systemd_fields(name: Seq<char>, active: bool, enabled: bool) -> Seq<
    (Seq<char>, ValueView),
> {
    seq![
        ("service_name"@, ValueView::Str(name)),
        ("active"@, ValueView::Bool(active)),
        ("enabled"@, ValueView::Bool(enabled)),
        ("loaded"@, ValueView::Bool(active || enabled)),
    ]
}

/// The fields of a sysctl query.
pub open spec fn sysctl_fields(name: Seq<char>, out: CommandOutput) -> Seq<(Seq<char>, ValueView)> {
    let v = trim(out.stdout@);
    seq![("parameter_name"@, ValueView::Str(name))] + if out.exit_code == 0 {
        seq![("value"@, ValueView::Str(v))] + match parse_signed(v) {
            Some(i) => seq![("value_int"@, ValueView::Int(i))],
            None => Seq::empty(),
        }
    } else {
        Seq::empty()
    }
}

/// The fields of a SELinux query.
pub open spec fn selinux_fields(out: CommandOutput) -> Seq<(Seq<char>, ValueView)> {
    let m = trim(out.stdout@);
    if out.exit_code == 0 {
        seq![("mode"@, ValueView::Str(m)), ("enforcing"@, ValueView::Bool(m == "Enforcing"@))]
    } else {
        Seq::empty()
    }
}

/// The packages `rpm -qa` lists, by name (a later line for a name wins).
pub open spec fn installed_packages(ls: Seq<Seq<char>>) -> Seq<(Seq<char>, Seq<char>)>
    decreases ls.len(),
{
    if ls.len() == 0 {
        Seq::empty()
    } else {
        installed_packages(ls.drop_last()) + match rpm_output(ls.last()) {
            Some(p) => seq![p],
            None => Seq::empty(),
        }
    }
}

/// The fields of a package in a batch query.
pub open spec fn batch_fields(name: Seq<char>, installed: Seq<(Seq<char>, Seq<char>)>) -> Seq<
    (Seq<char>, ValueView),
> {
    seq![("package_name"@, ValueView::Str(name))] + match pair_lookup(installed, name) {
        Some(v) => seq![("installed"@, ValueView::Bool(true)), ("version"@, ValueView::Str(v))],
        None => seq![("installed"@, ValueView::Bool(false))],
    }
}

/// The position of the last `c` in `v`, if any.
fn last_index_exec(v: &[char], c: char) -> (res: Option<usize>)
    ensures
        match res {
            Some(k) => k as int == last_index(v@, c),
            None => last_index(v@, c) == -1,
        },
        last_index(v@, c) >= -1,
        last_index(v@, c) < v@.len(),
        last_index(v@, c) >= 0 ==> v@[last_index(v@, c)] == c,
{
    let mut i = v.len();
    assert(v@.take(i as int) =~= v@);
    while i > 0
        invariant
            i <= v@.len(),
            last_index(v@, c) == last_index(v@.take(i as int), c),
            forall|j: int| i <= j < v@.len() ==> v@[j] != c,
        decreases i,
    {
        assert(v@.take(i as int).drop_last() =~= v@.take(i - 1));
        if v[i - 1] == c {
            return Some(i - 1);
        }
        i = i - 1;
    }
    assert(v@.take(0) =~= Seq::<char>::empty());
    proof {
        lemma_last_index_range(v@, c);
    }
    None
}

proof fn lemma_last_index_range(s: Seq<char>, c: char)
    ensures
        -1 <= last_index(s, c) < s.len(),
        last_index(s, c) >= 0 ==> s[last_index(s, c)] == c,
    decreases s.len(),
{
    if s.len() > 0 && s.last() != c {
        lemma_last_index_range(s.drop_last(), c);
    }
}

/// Parses `rpm -q` output into name and version-release.
fn rpm_output_exec(stdout: &str) -> (res: Option<(Vec<char>, Vec<char>)>)
    ensures
        match rpm_output(stdout@) {
            Some((n, v)) => res matches Some(r) && r.0@ == n && r.1@ == v,
            None => res is None,
        },
{
    let line = trim_chars(&chars_of(stdout));
    if line.len() == 0 || contains_exec(&line, &chars_of("not installed")) {
        return None;
    }
    proof {
        lemma_last_index_range(line@, '-');
    }
    match last_index_exec(&line, '-') {
        Some(k) => {
            let head = slice_range(&line, 0, k);
            assert(head@ =~= line@.take(k as int));
            proof {
                lemma_last_index_range(head@, '-');
            }
            match last_index_exec(&head, '-') {
                Some(j) => {
                    let name = slice_range(&line, 0, j);
                    let version = slice_range(&line, k + 1, line.len());
                    assert(name@ =~= line@.take(j as int));
                    assert(version@ =~= line@.skip(k + 1));
                    Some((name, version))
                },
                None => Some((line.clone(), Vec::new())),
            }
        },
        None => Some((line, Vec::new())),
    }
}

impl CommandCollector {
    /// The collector's id.
    pub closed spec fn id_view(&self) -> Seq<char> {
        self.id@
    }

    /// A collector with the given id.
    pub fn new(id: &str) -> (res: Self)
        ensures
            res.id_view() == id@,
    {
        CommandCollector { id: id.to_string() }
    }

    /// The collector's id.
    pub fn collector_id(&self) -> (res: &str)
        ensures
            res@ == self.id_view(),
    {
        self.id.as_str()
    }

    /// The CTN types the collector serves.
    pub fn supported_ctn_types(&self) -> (res: Vec<String>)
        ensures
            res@.map_values(|s: String| s@) == seq![
                "rpm_package"@,
                "systemd_service"@,
                "sysctl_parameter"@,
                "selinux_status"@,
            ],
    {
        let mut v: Vec<String> = Vec::new();
        v.push("rpm_package".to_string());
        v.push("systemd_service".to_string());
        v.push("sysctl_parameter".to_string());
        v.push("selinux_status".to_string());
        assert(v@.map_values(|s: String| s@) =~= seq![
            "rpm_package"@,
            "systemd_service"@,
            "sysctl_parameter"@,
            "selinux_status"@,
        ]);
        v
    }

    /// Commands are cheaper in batch.
    pub fn supports_batch_collection(&self) -> (res: bool)
        ensures
            res,
    {
        true
    }

    /// Accepts the contracts of the four CTN types the collector serves.
    pub fn validate_ctn_compatibility(&self, contract: &CtnContract) -> (res: Result<
        (),
        CollectionError,
    >)
        ensures
            res is Ok <==> (contract.ctn_type@ == "rpm_package"@ || contract.ctn_type@
                == "systemd_service"@ || contract.ctn_type@ == "sysctl_parameter"@
                || contract.ctn_type@ == "selinux_status"@),
            res matches Err(e) ==> e matches CollectionError::CtnContractValidation { reason }
                && reason@ == "CTN type '"@ + contract.ctn_type@ + "' not supported"@,
    {
        let t = chars_of(contract.ctn_type.as_str());
        if chars_eq(&t, &chars_of("rpm_package")) || chars_eq(&t, &chars_of("systemd_service"))
            || chars_eq(&t, &chars_of("sysctl_parameter")) || chars_eq(
            &t,
            &chars_of("selinux_status"),
        ) {
            Ok(())
        } else {
            Err(
                CollectionError::CtnContractValidation {
                    reason: concat3("CTN type '", contract.ctn_type.as_str(), "' not supported"),
                },
            )
        }
    }

    /// Reads a required string field of the object.
    pub fn extract_field(&self, object: &ExecutableObject, field_name: &str) -> (res: Result<
        String,
        CollectionError,
    >)
        ensures
            command_field_result(*object, field_name@, res),
    {
        match find_field(object, field_name) {
            Some(ResolvedValue::String(s)) => Ok(s.clone()),
            Some(v) => {
                let shown = debug_value(v);
                let mut m: Vec<char> = Vec::new();
                push_str(&mut m, "Field '");
                push_str(&mut m, field_name);
                push_str(&mut m, "' must be a string, got ");
                push_str(&mut m, shown.as_str());
                assert(Seq::<char>::empty() + "Field '"@ =~= "Field '"@);
                Err(
                    CollectionError::InvalidObjectConfiguration {
                        object_id: object.identifier.clone(),
                        reason: string_from_chars(&m),
                    },
                )
            },
            None => Err(
                CollectionError::InvalidObjectConfiguration {
                    object_id: object.identifier.clone(),
                    reason: concat3("Missing required field '", field_name, "'"),
                },
            ),
        }
    }

    /// The name and version-release that `rpm -q` output names.
    pub fn parse_rpm_output(&self, stdout: &str) -> (res: Option<(String, String)>)
        ensures
            match rpm_output(stdout@) {
                Some((n, v)) => res matches Some(r) && r.0@ == n && r.1@ == v,
                None => res is None,
            },
    {
        match rpm_output_exec(stdout) {
            Some((n, v)) => Some((string_from_chars(&n), string_from_chars(&v))),
            None => None,
        }
    }

    /// The `timeout` behavior, in seconds, as the command runner takes it.
    pub fn timeout_secs(hints: &BehaviorHints) -> (res: Option<u64>)
        ensures
            match pair_lookup(pairs_view(hints.parameters@), "timeout"@) {
                Some(t) => match parse_signed(t) {
                    Some(v) => res == Some((v as i64) as u64),
                    None => res is None,
                },
                None => res is None,
            },
    {
        match hints.get_parameter("timeout") {
            Some(t) => match parse_i64(&chars_of(t.as_str())) {
                Some(v) => Some(v as u64),
                None => None,
            },
            None => None,
        }
    }

    /// Decides what to run for an object, by the contract's CTN type.
    pub fn collect_for_ctn_with_hints(
        &self,
        object: &ExecutableObject,
        contract: &CtnContract,
        _hints: &BehaviorHints,
    ) -> (res: Result<CommandPlan, CollectionError>)
        ensures
            command_plan(*object, contract.ctn_type@, self.id_view(), res),
    {
        let t = chars_of(contract.ctn_type.as_str());
        if chars_eq(&t, &chars_of("rpm_package")) {
            Ok(CommandPlan::RpmPackage(self.extract_field(object, "package_name")?))
        } else if chars_eq(&t, &chars_of("systemd_service")) {
            Ok(CommandPlan::SystemdService(self.extract_field(object, "service_name")?))
        } else if chars_eq(&t, &chars_of("sysctl_parameter")) {
            Ok(CommandPlan::SysctlParameter(self.extract_field(object, "parameter_name")?))
        } else if chars_eq(&t, &chars_of("selinux_status")) {
            Ok(CommandPlan::SelinuxStatus)
        } else {
            Err(
                CollectionError::UnsupportedCtnType {
                    ctn_type: contract.ctn_type.clone(),
                    collector_id: self.id.clone(),
                },
            )
        }
    }

    /// Empty data for an object.
    fn new_data(
        &self,
        object: &ExecutableObject,
        ctn: &str,
        method: CollectionMethod,
    ) -> (res: CollectedData)
        ensures
            res.object_id@ == object.identifier@,
            res.ctn_type@ == ctn@,
            res.collector_id@ == self.id_view(),
            has_method(res, method_view(method)),
            data_fields(res).len() == 0,
    {
        let mut data = CollectedData::new(object.identifier.clone(), ctn.to_string(), self.id.clone());
        data.set_method(method);
        assert(data_fields(data) =~= Seq::<(Seq<char>, ValueView)>::empty());
        data
    }

    /// A command record with at most one input.
    fn command_method(description: &str, target: &str, command: String, input: Option<(&str, &str)>) -> (res:
        CollectionMethod)
        ensures
            method_view(res) == command_method_view(
                description@,
                target@,
                command@,
                match input {
                    Some((k, v)) => seq![(k@, v@)],
                    None => Seq::empty(),
                },
            ),
    {
        let mut inputs: Vec<(String, String)> = Vec::new();
        match input {
            Some((k, v)) => inputs.push((k.to_string(), v.to_string())),
            None => {},
        }
        assert(inputs@.map_values(|p: (String, String)| (p.0@, p.1@)) =~= match input {
            Some((k, v)) => seq![(k@, v@)],
            None => Seq::<(Seq<char>, Seq<char>)>::empty(),
        });
        CollectionMethod {
            method_type: CollectionMethodType::Command,
            description: description.to_string(),
            target: Some(target.to_string()),
            command: Some(command),
            inputs,
        }
    }

    /// Collects an RPM package from the outcome of `rpm -q <package>`.
    pub fn collect_rpm_package(
        &self,
        object: &ExecutableObject,
        package_name: &str,
        output: &Result<CommandOutput, String>,
    ) -> (res: Result<CollectedData, CollectionError>)
        ensures
            match output {
                Err(why) => res matches Err(e) && failed_error(
                    e,
                    *object,
                    "RPM command failed: "@ + why@,
                ),
                Ok(out) => res matches Ok(d) && command_data(
                    d,
                    *object,
                    "rpm_package"@,
                    self.id_view(),
                    rpm_fields(package_name@, *out),
                    rpm_method(package_name@),
                ),
            },
    {
        let out = match output {
            Ok(o) => o,
            Err(e) => {
                return Err(
                    CollectionError::CollectionFailed {
                        object_id: object.identifier.clone(),
                        reason: concat2("RPM command failed: ", e.as_str()),
                    },
                );
            },
        };
        let method = Self::command_method(
            "Query RPM package information",
            package_name,
            concat2("rpm -q ", package_name),
            Some(("package_name", package_name)),
        );
        let mut data = self.new_data(object, "rpm_package", method);
        let installed = out.exit_code == 0;
        data.add_field("package_name".to_string(), ResolvedValue::String(package_name.to_string()));
        data.add_field("installed".to_string(), ResolvedValue::Boolean(installed));
        if installed {
            match self.parse_rpm_output(out.stdout.as_str()) {
                Some((_name, version)) => {
                    data.add_field("version".to_string(), ResolvedValue::String(version));
                },
                None => {},
            }
        }
        assert(data_fields(data) =~= rpm_fields(package_name@, *out));
        Ok(data)
    }

    /// Collects a systemd service: call first with the outcome of
    /// `systemctl is-active`; when the answer is `NeedNext`, run
    /// `systemctl is-enabled` and call again with both.
    pub fn collect_systemd_service(
        &self,
        object: &ExecutableObject,
        service_name: &str,
        active: &Result<CommandOutput, String>,
        enabled: Option<&Result<CommandOutput, String>>,
    ) -> (res: CollectionStep)
        ensures
            match active {
                Err(why) => res matches CollectionStep::Done(Err(e)) && failed_error(
                    e,
                    *object,
                    "systemctl is-active failed: "@ + why@,
                ),
                Ok(a) => match enabled {
                    None => res is NeedNext,
                    Some(Err(why)) => res matches CollectionStep::Done(Err(e)) && failed_error(
                        e,
                        *object,
                        "systemctl is-enabled failed: "@ + why@,
                    ),
                    Some(Ok(n)) => res matches CollectionStep::Done(Ok(d)) && command_data(
                        d,
                        *object,
                        "systemd_service"@,
                        self.id_view(),
                        systemd_fields(service_name@, reports(*a, "active"@), reports(*n, "enabled"@)),
                        systemd_method(service_name@),
                    ),
                },
            },
    {
        let a = match active {
            Ok(a) => a,
            Err(e) => {
                return CollectionStep::Done(
                    Err(
                        CollectionError::CollectionFailed {
                            object_id: object.identifier.clone(),
                            reason: concat2("systemctl is-active failed: ", e.as_str()),
                        },
                    ),
                );
            },
        };
        let n = match enabled {
            None => {
                return CollectionStep::NeedNext;
            },
            Some(Ok(n)) => n,
            Some(Err(e)) => {
                return CollectionStep::Done(
                    Err(
                        CollectionError::CollectionFailed {
                            object_id: object.identifier.clone(),
                            reason: concat2("systemctl is-enabled failed: ", e.as_str()),
                        },
                    ),
                );
            },
        };
        let mut c: Vec<char> = Vec::new();
        push_str(&mut c, "systemctl is-active ");
        push_str(&mut c, service_name);
        push_str(&mut c, "; systemctl is-enabled ");
        push_str(&mut c, service_name);
        assert(Seq::<char>::empty() + "systemctl is-active "@ =~= "systemctl is-active "@);
        let method = Self::command_method(
            "Query systemd service status",
            service_name,
            string_from_chars(&c),
            Some(("service_name", service_name)),
        );
        let mut data = self.new_data(object, "systemd_service", method);
        let is_active = a.exit_code == 0 && chars_eq(
            &trim_chars(&chars_of(a.stdout.as_str())),
            &chars_of("active"),
        );
        let is_enabled = n.exit_code == 0 && chars_eq(
            &trim_chars(&chars_of(n.stdout.as_str())),
            &chars_of("enabled"),
        );
        data.add_field("service_name".to_string(), ResolvedValue::String(service_name.to_string()));
        data.add_field("active".to_string(), ResolvedValue::Boolean(is_active));
        data.add_field("enabled".to_string(), ResolvedValue::Boolean(is_enabled));
        data.add_field("loaded".to_string(), ResolvedValue::Boolean(is_active || is_enabled));
        assert(data_fields(data) =~= systemd_fields(service_name@, is_active, is_enabled));
        CollectionStep::Done(Ok(data))
    }

    /// Collects a kernel parameter from the outcome of `sysctl -n`.
    pub fn collect_sysctl_parameter(
        &self,
        object: &ExecutableObject,
        parameter_name: &str,
        output: &Result<CommandOutput, String>,
    ) -> (res: Result<CollectedData, CollectionError>)
        ensures
            match output {
                Err(why) => res matches Err(e) && failed_error(e, *object, "sysctl failed: "@ + why@),
                Ok(out) => res matches Ok(d) && command_data(
                    d,
                    *object,
                    "sysctl_parameter"@,
                    self.id_view(),
                    sysctl_fields(parameter_name@, *out),
                    sysctl_method(parameter_name@),
                ),
            },
    {
        let out = match output {
            Ok(o) => o,
            Err(e) => {
                return Err(
                    CollectionError::CollectionFailed {
                        object_id: object.identifier.clone(),
                        reason: concat2("sysctl failed: ", e.as_str()),
                    },
                );
            },
        };
        let method = Self::command_method(
            "Query kernel sysctl parameter",
            parameter_name,
            concat2("sysctl -n ", parameter_name),
            Some(("parameter_name", parameter_name)),
        );
        let mut data = self.new_data(object, "sysctl_parameter", method);
        data.add_field(
            "parameter_name".to_string(),
            ResolvedValue::String(parameter_name.to_string()),
        );
        if out.exit_code == 0 {
            let v = trim_chars(&chars_of(out.stdout.as_str()));
            data.add_field("value".to_string(), ResolvedValue::String(string_from_chars(&v)));
            match parse_i64(&v) {
                Some(i) => data.add_field("value_int".to_string(), ResolvedValue::Integer(i)),
                None => {},
            }
        }
        assert(data_fields(data) =~= sysctl_fields(parameter_name@, *out));
        Ok(data)
    }

    /// Collects the SELinux mode from the outcome of `getenforce`.
    pub fn collect_selinux_status(
        &self,
        object: &ExecutableObject,
        output: &Result<CommandOutput, String>,
    ) -> (res: Result<CollectedData, CollectionError>)
        ensures
            match output {
                Err(why) => res matches Err(e) && failed_error(
                    e,
                    *object,
                    "getenforce failed: "@ + why@,
                ),
                Ok(out) => res matches Ok(d) && command_data(
                    d,
                    *object,
                    "selinux_status"@,
                    self.id_view(),
                    selinux_fields(*out),
                    selinux_method(),
                ),
            },
    {
        let out = match output {
            Ok(o) => o,
            Err(e) => {
                return Err(
                    CollectionError::CollectionFailed {
                        object_id: object.identifier.clone(),
                        reason: concat2("getenforce failed: ", e.as_str()),
                    },
                );
            },
        };
        let method = Self::command_method(
            "Query SELinux enforcement status",
            "selinux",
            "getenforce".to_string(),
            None,
        );
        let mut data = self.new_data(object, "selinux_status", method);
        if out.exit_code == 0 {
            let m = trim_chars(&chars_of(out.stdout.as_str()));
            let enforcing = chars_eq(&m, &chars_of("Enforcing"));
            data.add_field("mode".to_string(), ResolvedValue::String(string_from_chars(&m)));
            data.add_field("enforcing".to_string(), ResolvedValue::Boolean(enforcing));
        }
        assert(data_fields(data) =~= selinux_fields(*out));
        Ok(data)
    }

    /// The packages `rpm -qa` lists.
    fn installed_from(&self, stdout: &str) -> (res: Vec<(String, String)>)
        ensures
            pairs_view(res@) == installed_packages(lines(stdout@)),
    {
        let ls = split_lines(&chars_of(stdout));
        let mut res: Vec<(String, String)> = Vec::new();
        let mut i: usize = 0;
        while i < ls.len()
            invariant
                i <= ls@.len(),
                views(ls@) == lines(stdout@),
                pairs_view(res@) == installed_packages(views(ls@).take(i as int)),
            decreases ls.len() - i,
        {
            assert(views(ls@).take(i + 1).drop_last() =~= views(ls@).take(i as int));
            assert(views(ls@).take(i + 1).last() == ls@[i as int]@);
            let line = string_from_chars(&ls[i]);
            let ghost before = pairs_view(res@);
            match self.parse_rpm_output(line.as_str()) {
                Some((n, v)) => {
                    let ghost p = (n@, v@);
                    res.push((n, v));
                    assert(pairs_view(res@) =~= before + seq![p]);
                },
                None => {
                    assert(pairs_view(res@) =~= before + Seq::<(Seq<char>, Seq<char>)>::empty());
                },
            }
            i = i + 1;
        }
        assert(views(ls@).take(ls@.len() as int) =~= views(ls@));
        res
    }

    /// Collects RPM packages for many objects from one `rpm -qa` listing;
    /// only the rpm_package type is collected in batch. The data come in
    /// the order of the objects; the first object without a string
    /// `package_name` ends the batch with its error.
    pub fn collect_batch(
        &self,
        objects: &Vec<ExecutableObject>,
        contract: &CtnContract,
        output: &Result<CommandOutput, String>,
    ) -> (res: Result<Vec<(String, CollectedData)>, CollectionError>)
        ensures
            contract.ctn_type@ != "rpm_package"@ ==> (res matches Err(e) && unsupported(
                e,
                contract.ctn_type@,
                self.id_view(),
            )),
            contract.ctn_type@ == "rpm_package"@ ==> match output {
                Err(why) => res matches Err(e) && e matches CollectionError::CollectionFailed {
                    object_id,
                    reason,
                } && object_id@ == "batch"@ && reason@ == "RPM batch command failed: "@ + why@,
                Ok(out) => if forall|i: int|
                    0 <= i < objects@.len() ==> #[trigger] command_field(objects@[i], "package_name"@) is Ok {
                    let ps = installed_packages(lines(out.stdout@));
                    &&& res is Ok
                    &&& res.unwrap()@.len() == objects@.len()
                    &&& forall|i: int|
                        0 <= i < objects@.len() ==> {
                            let d = (#[trigger] res.unwrap()@[i]).1;
                            let name = command_field(objects@[i], "package_name"@)->Ok_0;
                            &&& res.unwrap()@[i].0@ == objects@[i].identifier@
                            &&& command_data(
                                d,
                                objects@[i],
                                "rpm_package"@,
                                self.id_view(),
                                batch_fields(name, ps),
                                batch_method(name),
                            )
                        }
                } else {
                    exists|i: int|
                        0 <= i < objects@.len() && (forall|k: int|
                            0 <= k < i ==> #[trigger] command_field(objects@[k], "package_name"@) is Ok)
                            && #[trigger] command_field(objects@[i], "package_name"@) is Err
                            && (res matches Err(e) && config_error(
                            e,
                            objects@[i],
                            command_field(objects@[i], "package_name"@)->Err_0,
                        ))
                },
            },
    {
        proof {
            reveal_strlit("rpm_package");
        }
        if !chars_eq(&chars_of(contract.ctn_type.as_str()), &chars_of("rpm_package")) {
            return Err(
                CollectionError::UnsupportedCtnType {
                    ctn_type: contract.ctn_type.clone(),
                    collector_id: self.id.clone(),
                },
            );
        }
        let out = match output {
            Ok(o) => o,
            Err(e) => {
                return Err(
                    CollectionError::CollectionFailed {
                        object_id: "batch".to_string(),
                        reason: concat2("RPM batch command failed: ", e.as_str()),
                    },
                );
            },
        };
        let installed = self.installed_from(out.stdout.as_str());
        let ghost ps = installed_packages(lines(out.stdout@));
        let mut results: Vec<(String, CollectedData)> = Vec::new();
        let mut i: usize = 0;
        while i < objects.len()
            invariant
                i <= objects@.len(),
                contract.ctn_type@ == "rpm_package"@,
                *output == Ok::<CommandOutput, String>(*out),
                pairs_view(installed@) == ps,
                ps == installed_packages(lines(out.stdout@)),
                results@.len() == i,
                forall|k: int| 0 <= k < i ==> #[trigger] command_field(objects@[k], "package_name"@) is Ok,
                forall|k: int|
                    0 <= k < i ==> {
                        let d = (#[trigger] results@[k]).1;
                        let name = command_field(objects@[k], "package_name"@)->Ok_0;
                        &&& results@[k].0@ == objects@[k].identifier@
                        &&& command_data(
                            d,
                            objects@[k],
                            "rpm_package"@,
                            self.id_view(),
                            batch_fields(name, ps),
                            batch_method(name),
                        )
                    },
            decreases objects.len() - i,
        {
            let object = &objects[i];
            let package_name = match self.extract_field(object, "package_name") {
                Ok(p) => p,
                Err(e) => {
                    assert(command_field(objects@[i as int], "package_name"@) is Err);
                    return Err(e);
                },
            };
            let mut inputs: Vec<(String, String)> = Vec::new();
            inputs.push(("package_name".to_string(), package_name.clone()));
            inputs.push(("batch_mode".to_string(), "true".to_string()));
            assert(inputs@.map_values(|p: (String, String)| (p.0@, p.1@)) =~= seq![
                ("package_name"@, package_name@),
                ("batch_mode"@, "true"@),
            ]);
            let method = CollectionMethod {
                method_type: CollectionMethodType::Command,
                description: "Batch query RPM packages".to_string(),
                target: Some(package_name.clone()),
                command: Some("rpm -qa".to_string()),
                inputs,
            };
            let mut data = self.new_data(object, "rpm_package", method);
            data.add_field("package_name".to_string(), ResolvedValue::String(package_name.clone()));
            match crate::contract::lookup_pair(&installed, package_name.as_str()) {
                Some(v) => {
                    data.add_field("installed".to_string(), ResolvedValue::Boolean(true));
                    data.add_field("version".to_string(), ResolvedValue::String(v));
                },
                None => {
                    data.add_field("installed".to_string(), ResolvedValue::Boolean(false));
                },
            }
            assert(data_fields(data) =~= batch_fields(package_name@, ps));
            results.push((object.identifier.clone(), data));
            i = i + 1;
        }
        Ok(results)
    }
}


/// What a package query records: the package name, and whether `rpm -q`
/// succeeded as `installed`; a version only for an installed package.
pub proof fn law_rpm_fields(name: Seq<char>, out: CommandOutput)
    ensures
        ({
            let fs = rpm_fields(name, out);
            &&& crate::model::lookup(fs, "package_name"@) == Some(ValueView::Str(name))
            &&& crate::model::lookup(fs, "installed"@) == Some(ValueView::Bool(out.exit_code == 0))
            &&& out.exit_code != 0 ==> crate::model::lookup(fs, "version"@) is None
        }),
{
    reveal_strlit("package_name");
    reveal_strlit("installed");
    reveal_strlit("version");
    assert("package_name"@.len() == 12 && "installed"@.len() == 9 && "version"@.len() == 7);
    let fs = rpm_fields(name, out);
    crate::model::lemma_lookup_unique(fs, "package_name"@);
    crate::model::lemma_lookup_unique(fs, "installed"@);
    crate::model::lemma_lookup_unique(fs, "version"@);
    assert(fs[0].0 == "package_name"@ && fs[1].0 == "installed"@);
}

/// What a kernel parameter query records: the parameter name and, when
/// `sysctl` succeeded, its trimmed output as `value` and, when that reads
/// as an integer, the integer as `value_int`; nothing more when it failed.
pub proof fn law_sysctl_fields(name: Seq<char>, out: CommandOutput)
    ensures
        ({
            let fs = sysctl_fields(name, out);
            let v = trim(out.stdout@);
            &&& crate::model::lookup(fs, "parameter_name"@) == Some(ValueView::Str(name))
            &&& out.exit_code == 0 ==> crate::model::lookup(fs, "value"@) == Some(ValueView::Str(v))
            &&& out.exit_code == 0 ==> crate::model::lookup(fs, "value_int"@) == match parse_signed(v) {
                Some(i) => Some(ValueView::Int(i)),
                None => None,
            }
            &&& out.exit_code != 0 ==> crate::model::lookup(fs, "value"@) is None
                && crate::model::lookup(fs, "value_int"@) is None
        }),
{
    reveal_strlit("parameter_name");
    reveal_strlit("value");
    reveal_strlit("value_int");
    assert("parameter_name"@.len() == 14 && "value"@.len() == 5 && "value_int"@.len() == 9);
    let fs = sysctl_fields(name, out);
    crate::model::lemma_lookup_unique(fs, "parameter_name"@);
    crate::model::lemma_lookup_unique(fs, "value"@);
    crate::model::lemma_lookup_unique(fs, "value_int"@);
    assert(fs[0].0 == "parameter_name"@);
    if out.exit_code == 0 {
        assert(fs[1].0 == "value"@);
    }
}

/// What a SELinux query records when `getenforce` succeeded: its trimmed
/// output as `mode`, and `enforcing` exactly when the mode is `Enforcing`;
/// nothing when it failed.
pub proof fn law_selinux_fields(out: CommandOutput)
    ensures
        ({
            let fs = selinux_fields(out);
            let m = trim(out.stdout@);
            &&& out.exit_code == 0 ==> crate::model::lookup(fs, "mode"@) == Some(ValueView::Str(m))
            &&& out.exit_code == 0 ==> crate::model::lookup(fs, "enforcing"@) == Some(
                ValueView::Bool(m == "Enforcing"@),
            )
            &&& out.exit_code != 0 ==> fs.len() == 0
        }),
{
    reveal_strlit("mode");
    reveal_strlit("enforcing");
    assert("mode"@.len() == 4 && "enforcing"@.len() == 9);
    let fs = selinux_fields(out);
    crate::model::lemma_lookup_unique(fs, "mode"@);
    crate::model::lemma_lookup_unique(fs, "enforcing"@);
    if out.exit_code == 0 {
        assert(fs[0].0 == "mode"@ && fs[1].0 == "enforcing"@);
    }
}

/// What a systemd service query records: `active` is whether
/// `systemctl is-active` succeeded and printed `active`, `enabled` whether
/// `systemctl is-enabled` succeeded and printed `enabled`, and the service
/// counts as loaded when either holds: an enabled service that is not
/// running is loaded, and one neither running nor enabled is not.
pub proof fn law_systemd_loaded(name: Seq<char>, a: CommandOutput, n: CommandOutput)
    ensures
        ({
            let is_active = a.exit_code == 0 && trim(a.stdout@) == "active"@;
            let is_enabled = n.exit_code == 0 && trim(n.stdout@) == "enabled"@;
            let fs = systemd_fields(name, reports(a, "active"@), reports(n, "enabled"@));
            &&& crate::model::lookup(fs, "service_name"@) == Some(ValueView::Str(name))
            &&& crate::model::lookup(fs, "active"@) == Some(ValueView::Bool(is_active))
            &&& crate::model::lookup(fs, "enabled"@) == Some(ValueView::Bool(is_enabled))
            &&& is_enabled ==> crate::model::lookup(fs, "loaded"@) == Some(ValueView::Bool(true))
            &&& is_active ==> crate::model::lookup(fs, "loaded"@) == Some(ValueView::Bool(true))
            &&& !is_active && !is_enabled ==> crate::model::lookup(fs, "loaded"@) == Some(
                ValueView::Bool(false),
            )
        }),
{
    reveal_strlit("service_name");
    reveal_strlit("active");
    reveal_strlit("enabled");
    reveal_strlit("loaded");
    assert("service_name"@.len() == 12 && "enabled"@.len() == 7);
    assert("active"@[0] == 'a' && "loaded"@[0] == 'l' && "loaded"@.len() == 6);
    let fs = systemd_fields(name, reports(a, "active"@), reports(n, "enabled"@));
    let f3 = fs.drop_last();
    let f2 = f3.drop_last();
    let f1 = f2.drop_last();
    assert(f1 =~= seq![fs[0]]);
    assert(f1.drop_last() =~= Seq::<(Seq<char>, ValueView)>::empty());
    assert(crate::model::lookup(f1, "service_name"@) == Some(ValueView::Str(name)));
    assert(crate::model::lookup(f2, "service_name"@) == Some(ValueView::Str(name)));
    assert(crate::model::lookup(f2, "active"@) == Some(fs[1].1));
    assert(crate::model::lookup(f3, "service_name"@) == Some(ValueView::Str(name)));
    assert(crate::model::lookup(f3, "active"@) == Some(fs[1].1));
    assert(crate::model::lookup(f3, "enabled"@) == Some(fs[2].1));
    assert(crate::model::lookup(fs, "enabled"@) == Some(fs[2].1));
    assert(crate::model::lookup(fs, "active"@) == Some(fs[1].1));
    assert(crate::model::lookup(fs, "service_name"@) == Some(ValueView::Str(name)));
    assert(crate::model::lookup(fs, "loaded"@) == Some(fs[3].1));
}

} // verus!
