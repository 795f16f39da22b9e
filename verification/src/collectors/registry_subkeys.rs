//! The subkeys of a Windows registry key, through `reg.exe query` (default)
//! or PowerShell `Get-ChildItem`.
//!
//! Collected fields: `exists`, `subkey_count` and `subkeys` (the names,
//! comma-separated).

use vstd::prelude::*;
use crate::collectors::{
    check_ctn_type, config_error, denied_error, extract_required_string, extract_string_field,
    failed_error, incompatible_reason, mentions, mentions_both, mentions_both_exec,
    normalize_hive_for_reg, not_string_reason, reg_hive, registry_executor, registry_method,
    required_field, required_field_result, string_field, string_field_result_view, BehaviorHints,
    RegistryQueryMethod,
};
use crate::collectors::registry::{exit_reason, exit_reason_exec};
use crate::commands::powershell::{normalize_hive_for_powershell, ps_hive};
use crate::contract::CtnContract;
use crate::model::{
    concat2, concat3, data_fields, has_method, method_view, CollectedData, CollectionError,
    CollectionMethod, CollectionMethodType, CommandOutput, ExecutableObject, MethodView,
    ResolvedValue, ValueView,
};
use crate::text::{
    append_chars, chars_eq, chars_of, contains, contains_exec, join, join_from, lines,
    slice_range, split_lines, starts_with, starts_with_exec, str_to_lowercase, str_to_uppercase,
    string_from_chars, trim, trim_chars, upper_chars, views,
};
use crate::validation::push_str;

verus! {

/// Collector for registry subkeys.
#[derive(Debug)]
pub struct RegistrySubkeysCollector {
    id: String,
}

/// The subkey a line of `reg.exe query` output names directly under
/// `parent`: a line that is not blank, not indented, names no value, starts
/// with a root key, and is `parent` (compared without case) followed by
/// `\` and one more path component; the subkey keeps the line's own case.
pub open spec fn subkey_of_line(line: Seq<char>, parent: Seq<char>) -> Option<Seq<char>> {
    let t = trim(line);
    let u = str_to_uppercase(t);
    let p = str_to_uppercase(parent);
    if t.len() == 0 || starts_with(line, " "@) || starts_with(line, "\t"@) || contains(t, "REG_"@) {
        None
    } else if !(starts_with(u, "HKEY_"@) || starts_with(u, "HKLM"@) || starts_with(u, "HKCU"@)) {
        None
    } else if u == p || !starts_with(u, p) || !starts_with(u, p + "\\"@) {
        None
    } else {
        let suffix = u.subrange(p.len() + 1int, u.len() as int);
        if contains(suffix, "\\"@) || suffix.len() == 0 || t.len() <= parent.len() {
            None
        } else {
            Some(t.subrange(parent.len() + 1int, t.len() as int))
        }
    }
}

/// The subkey a line names directly under `parent`, or else directly
/// under `other` (the same key in another spelling of its hive).
pub open spec fn subkey_of_line_either(line: Seq<char>, parent: Seq<char>, other: Seq<char>) -> Option<
    Seq<char>,
> {
    match subkey_of_line(line, parent) {
        Some(k) => Some(k),
        None => subkey_of_line(line, other),
    }
}

/// The subkeys named by the lines `ls` directly under `parent` or
/// `other`, in order.
pub open spec fn subkeys_among(ls: Seq<Seq<char>>, parent: Seq<char>, other: Seq<char>) -> Seq<
    Seq<char>,
>
    decreases ls.len(),
{
    if ls.len() == 0 {
        Seq::empty()
    } else {
        subkeys_among(ls.drop_last(), parent, other) + match subkey_of_line_either(
            ls.last(),
            parent,
            other,
        ) {
            Some(k) => seq![k],
            None => Seq::empty(),
        }
    }
}

/// The subkeys named by the lines `ls` directly under `parent`, in order.
pub open spec fn subkeys_of_lines(ls: Seq<Seq<char>>, parent: Seq<char>) -> Seq<Seq<char>> {
    subkeys_among(ls, parent, parent)
}

/// The non-blank lines of `ls`, trimmed.
pub open spec fn trimmed_nonblank(ls: Seq<Seq<char>>) -> Seq<Seq<char>>
    decreases ls.len(),
{
    if ls.len() == 0 {
        Seq::empty()
    } else {
        trimmed_nonblank(ls.drop_last()) + if trim(ls.last()).len() == 0 {
            Seq::empty()
        } else {
            seq![trim(ls.last())]
        }
    }
}

/// The number of subkeys as recorded (bounded by `i64::MAX`).
pub open spec fn subkey_count(n: nat) -> int {
    if n <= i64::MAX {
        n as int
    } else {
        i64::MAX as int
    }
}

/// The fields recorded for a set of subkeys.
pub open spec fn subkey_fields(ks: Seq<Seq<char>>) -> Seq<(Seq<char>, ValueView)> {
    seq![
        ("exists"@, ValueView::Bool(true)),
        ("subkey_count"@, ValueView::Int(subkey_count(ks.len()))),
        ("subkeys"@, ValueView::Str(join(ks, ","@))),
    ]
}

/// The fields recorded for a key that does not exist.
pub open spec fn absent_key_fields() -> Seq<(Seq<char>, ValueView)> {
    seq![
        ("exists"@, ValueView::Bool(false)),
        ("subkey_count"@, ValueView::Int(0)),
        ("subkeys"@, ValueView::Str(Seq::empty())),
    ]
}

/// Whether `d` is the subkey data of object `o` gathered by collector `id`
/// with fields `fs` and method record `m`.
pub open spec fn subkeys_data(
    d: CollectedData,
    o: ExecutableObject,
    id: Seq<char>,
    fs: Seq<(Seq<char>, ValueView)>,
    m: MethodView,
) -> bool {
    &&& d.object_id@ == o.identifier@
    &&& d.ctn_type@ == "registry_subkeys"@
    &&& d.collector_id@ == id
    &&& has_method(d, m)
    &&& data_fields(d) == fs
}

/// The long name of a hive (`HKLM` to `HKEY_LOCAL_MACHINE`, ...), as
/// `reg.exe` prints it; unknown names are kept as given.
pub open spec fn long_hive(hive: Seq<char>) -> Seq<char> {
    let h = reg_hive(hive);
    if h == "HKLM"@ {
        "HKEY_LOCAL_MACHINE"@
    } else if h == "HKCU"@ {
        "HKEY_CURRENT_USER"@
    } else if h == "HKCR"@ {
        "HKEY_CLASSES_ROOT"@
    } else if h == "HKU"@ {
        "HKEY_USERS"@
    } else if h == "HKCC"@ {
        "HKEY_CURRENT_CONFIG"@
    } else {
        h
    }
}

/// The path of a key as `reg.exe` prints it, with the hive's long name.
pub open spec fn subkeys_long_path(hive: Seq<char>, key: Seq<char>) -> Seq<char> {
    long_hive(hive) + "\\"@ + key
}

/// The full `reg.exe` path of a key.
pub open spec fn subkeys_key_path(hive: Seq<char>, key: Seq<char>) -> Seq<char> {
    reg_hive(hive) + "\\"@ + key
}

/// The PowerShell command that lists the subkeys of a key.
pub open spec fn ps_subkeys_command(hive: Seq<char>, key: Seq<char>) -> Seq<char> {
    "Get-ChildItem -Path '"@ + ps_hive(hive) + ":\\"@ + key
        + "' -ErrorAction SilentlyContinue | Select-Object -ExpandProperty PSChildName"@
}

/// The inputs a subkey enumeration records.
pub open spec fn subkey_inputs(hive: Seq<char>, key: Seq<char>, executor: Seq<char>) -> Seq<
    (Seq<char>, Seq<char>),
> {
    seq![("hive"@, hive), ("key"@, key), ("executor"@, executor)]
}

/// The record of a `reg.exe` enumeration.
pub open spec fn reg_subkeys_method(hive: Seq<char>, key: Seq<char>) -> MethodView {
    let full = subkeys_key_path(hive, key);
    MethodView {
        method_type: CollectionMethodType::RegistryQuery,
        description: "Enumerate registry subkeys via reg.exe"@,
        target: Some(full),
        command: Some("reg query \""@ + full + "\""@),
        inputs: subkey_inputs(hive, key, "reg"@),
    }
}

/// The record of a PowerShell enumeration.
pub open spec fn ps_subkeys_method(hive: Seq<char>, key: Seq<char>) -> MethodView {
    MethodView {
        method_type: CollectionMethodType::RegistryQuery,
        description: "Enumerate registry subkeys via PowerShell Get-ChildItem"@,
        target: Some(ps_hive(hive) + ":\\"@ + key),
        command: Some(
            "powershell -NoProfile -NonInteractive -Command \""@ + ps_subkeys_command(hive, key)
                + "\""@,
        ),
        inputs: subkey_inputs(hive, key, "powershell"@),
    }
}

/// What `reg.exe query` collection yields: exit code 1 means the key does
/// not exist; another failure is denied access or a failed collection; a
/// success lists the direct subkeys named in the output.
pub open spec fn reg_subkeys_outcome(
    o: ExecutableObject,
    id: Seq<char>,
    hive: Seq<char>,
    key: Seq<char>,
    output: Result<CommandOutput, String>,
    res: Result<CollectedData, CollectionError>,
) -> bool {
    let m = reg_subkeys_method(hive, key);
    match output {
        Err(why) => res matches Err(e) && failed_error(e, o, "reg.exe execution failed: "@ + why@),
        Ok(out) => if out.exit_code == 1 {
            res matches Ok(d) && subkeys_data(d, o, id, absent_key_fields(), m)
        } else if out.exit_code != 0 {
            if mentions_both(out.stderr@, "access"@, "denied"@) {
                res matches Err(e) && denied_error(
                    e,
                    o,
                    "Access denied to registry key: "@ + subkeys_key_path(hive, key),
                )
            } else {
                res matches Err(e) && failed_error(e, o, exit_reason("reg.exe"@, out))
            }
        } else {
            res matches Ok(d) && subkeys_data(
                d,
                o,
                id,
                subkey_fields(
                    subkeys_among(
                        lines(out.stdout@),
                        subkeys_key_path(hive, key),
                        subkeys_long_path(hive, key),
                    ),
                ),
                m,
            )
        },
    }
}

/// What PowerShell collection yields: a failure whose message says the path
/// does not exist means the key does not exist; denied access and other
/// failures are errors; a success lists the non-blank output lines.
pub open spec fn ps_subkeys_outcome(
    o: ExecutableObject,
    id: Seq<char>,
    hive: Seq<char>,
    key: Seq<char>,
    output: Result<CommandOutput, String>,
    res: Result<CollectedData, CollectionError>,
) -> bool {
    let m = ps_subkeys_method(hive, key);
    match output {
        Err(why) => res matches Err(e) && failed_error(
            e,
            o,
            "PowerShell execution failed: "@ + why@,
        ),
        Ok(out) => {
            let low = str_to_lowercase(out.stderr@);
            if out.exit_code != 0 {
                if contains(low, "does not exist"@) || contains(low, "cannot find path"@) || contains(
                    low,
                    "itemnotfoundexception"@,
                ) {
                    res matches Ok(d) && subkeys_data(d, o, id, absent_key_fields(), m)
                } else if mentions_both(out.stderr@, "access"@, "denied"@) {
                    res matches Err(e) && denied_error(
                        e,
                        o,
                        "Access denied to registry key: "@ + (hive + "\\"@ + key),
                    )
                } else {
                    res matches Err(e) && failed_error(e, o, exit_reason("PowerShell"@, out))
                }
            } else {
                res matches Ok(d) && subkeys_data(
                    d,
                    o,
                    id,
                    subkey_fields(trimmed_nonblank(lines(out.stdout@))),
                    m,
                )
            }
        },
    }
}

/// The long name of a hive, as `reg.exe` prints it.
pub fn long_hive_name(hive: &str) -> (res: String)
    ensures
        res@ == long_hive(hive@),
{
    let h = normalize_hive_for_reg(hive);
    let c = chars_of(h.as_str());
    if chars_eq(&c, &chars_of("HKLM")) {
        "HKEY_LOCAL_MACHINE".to_string()
    } else if chars_eq(&c, &chars_of("HKCU")) {
        "HKEY_CURRENT_USER".to_string()
    } else if chars_eq(&c, &chars_of("HKCR")) {
        "HKEY_CLASSES_ROOT".to_string()
    } else if chars_eq(&c, &chars_of("HKU")) {
        "HKEY_USERS".to_string()
    } else if chars_eq(&c, &chars_of("HKCC")) {
        "HKEY_CURRENT_CONFIG".to_string()
    } else {
        h
    }
}

/// The subkey a line names directly under `parent`.
fn subkey_of_line_exec(line: &[char], parent: &[char], parent_upper: &[char]) -> (res: Option<
    Vec<char>,
>)
    requires
        parent_upper@ == str_to_uppercase(parent@),
    ensures
        match subkey_of_line(line@, parent@) {
            Some(k) => res matches Some(r) && r@ == k,
            None => res is None,
        },
{
    let t = trim_chars(line);
    if t.len() == 0 || starts_with_exec(line, &chars_of(" ")) || starts_with_exec(
        line,
        &chars_of("\t"),
    ) || contains_exec(&t, &chars_of("REG_")) {
        return None;
    }
    let u = upper_chars(&t);
    if !(starts_with_exec(&u, &chars_of("HKEY_")) || starts_with_exec(&u, &chars_of("HKLM"))
        || starts_with_exec(&u, &chars_of("HKCU"))) {
        return None;
    }
    let mut prefix: Vec<char> = Vec::new();
    append_chars(&mut prefix, parent_upper);
    append_chars(&mut prefix, &chars_of("\\"));
    proof {
        reveal_strlit("\\");
    }
    assert(prefix@.len() == parent_upper@.len() + 1);
    if chars_eq(&u, parent_upper) || !starts_with_exec(&u, parent_upper) || !starts_with_exec(
        &u,
        &prefix,
    ) {
        return None;
    }
    let ul = u.len();
    assert(starts_with(u@, prefix@));
    assert(parent_upper@.len() + 1 <= ul);
    let start = parent_upper.len() + 1;
    let suffix = slice_range(&u, start, ul);
    if contains_exec(&suffix, &chars_of("\\")) || suffix.len() == 0 || t.len() <= parent.len() {
        return None;
    }
    Some(slice_range(&t, parent.len() + 1, t.len()))
}

/// The names, joined with commas, and their number.
fn subkeys_result(data: CollectedData, ks: &Vec<Vec<char>>) -> (res: CollectedData)
    requires
        data_fields(data).len() == 0,
    ensures
        res.object_id == data.object_id,
        res.ctn_type == data.ctn_type,
        res.collector_id == data.collector_id,
        res.method == data.method,
        data_fields(res) == subkey_fields(views(ks@)),
{
    let n = ks.len();
    let count: i64 = if (n as u64) <= 0x7fff_ffff_ffff_ffffu64 {
        n as i64
    } else {
        0x7fff_ffff_ffff_ffffi64
    };
    let joined = join_from(ks, 0, &chars_of(","));
    assert(views(ks@).subrange(0, ks@.len() as int) =~= views(ks@));
    let ghost j = joined@;
    let mut d = data;
    d.add_field("exists".to_string(), ResolvedValue::Boolean(true));
    d.add_field("subkey_count".to_string(), ResolvedValue::Integer(count));
    d.add_field("subkeys".to_string(), ResolvedValue::String(string_from_chars(&joined)));
    assert(data_fields(d) =~= subkey_fields(views(ks@)));
    d
}

impl RegistrySubkeysCollector {
    /// The collector's id.
    pub closed spec fn id_view(&self) -> Seq<char> {
        self.id@
    }

    /// A collector with id `windows_registry_subkeys_collector`.
    pub fn new() -> (res: Self)
        ensures
            res.id_view() == "windows_registry_subkeys_collector"@,
    {
        RegistrySubkeysCollector { id: "windows_registry_subkeys_collector".to_string() }
    }

    /// A collector with the given id.
    pub fn with_id(id: &str) -> (res: Self)
        ensures
            res.id_view() == id@,
    {
        RegistrySubkeysCollector { id: id.to_string() }
    }

    /// The collector's id.
    pub fn collector_id(&self) -> (res: &str)
        ensures
            res@ == self.id_view(),
    {
        self.id.as_str()
    }

    /// The CTN types the collector serves.
    pub fn supported_ctn_types(&self) -> (res: Vec<String>)
        ensures
            res@.len() == 1,
            res@[0]@ == "registry_subkeys"@,
    {
        let mut v = Vec::new();
        v.push("registry_subkeys".to_string());
        v
    }

    /// Each key is queried on its own.
    pub fn supports_batch_collection(&self) -> (res: bool)
        ensures
            !res,
    {
        false
    }

    /// Accepts only the registry_subkeys contract.
    pub fn validate_ctn_compatibility(&self, contract: &CtnContract) -> (res: Result<
        (),
        CollectionError,
    >)
        ensures
            res is Ok <==> contract.ctn_type@ == "registry_subkeys"@,
            res matches Err(e) ==> e matches CollectionError::CtnContractValidation { reason }
                && reason@ == incompatible_reason("registry_subkeys"@, contract.ctn_type@),
    {
        check_ctn_type(&contract.ctn_type, "registry_subkeys")
    }

    /// Reads a string field of the object.
    pub fn extract_string_field(&self, object: &ExecutableObject, field_name: &str) -> (res:
        Result<Option<String>, CollectionError>)
        ensures
            string_field_result_view(res) == string_field(*object, field_name@),
            res matches Err(e) ==> config_error(e, *object, not_string_reason(field_name@)),
    {
        extract_string_field(object, field_name)
    }

    /// Reads a required string field of the object.
    pub fn extract_required_string(&self, object: &ExecutableObject, field_name: &str) -> (res:
        Result<String, CollectionError>)
        ensures
            required_field_result(*object, field_name@, res),
    {
        extract_required_string(object, field_name)
    }

    /// The `reg.exe` root key for a hive name.
    pub fn normalize_hive_for_reg(&self, hive: &str) -> (res: String)
        ensures
            res@ == reg_hive(hive@),
    {
        normalize_hive_for_reg(hive)
    }

    /// The PowerShell drive for a hive name (`HKLM` for unknown names).
    pub fn normalize_hive_for_powershell(&self, hive: &str) -> (res: &'static str)
        ensures
            res@ == ps_hive(hive@),
    {
        normalize_hive_for_powershell(hive)
    }

    /// The subkeys directly under `parent_path` that `reg.exe query` lists.
    pub fn parse_reg_subkeys_output(&self, stdout: &str, parent_path: &str) -> (res: Vec<String>)
        ensures
            res@.map_values(|s: String| s@) == subkeys_of_lines(lines(stdout@), parent_path@),
    {
        let ks = self.reg_subkeys(stdout, parent_path, parent_path);
        let mut res: Vec<String> = Vec::new();
        let mut i: usize = 0;
        while i < ks.len()
            invariant
                i <= ks@.len(),
                views(ks@) == subkeys_of_lines(lines(stdout@), parent_path@),
                res@.map_values(|s: String| s@) == views(ks@).take(i as int),
            decreases ks.len() - i,
        {
            let ghost before = res@.map_values(|s: String| s@);
            let s = string_from_chars(&ks[i]);
            res.push(s);
            assert(res@.map_values(|s: String| s@) =~= before.push(ks@[i as int]@));
            assert(views(ks@).take(i + 1) =~= views(ks@).take(i as int).push(ks@[i as int]@));
            i = i + 1;
        }
        assert(views(ks@).take(ks@.len() as int) =~= views(ks@));
        res
    }

    /// The subkeys as character vectors, directly under `parent_path` or
    /// `other_path`.
    fn reg_subkeys(&self, stdout: &str, parent_path: &str, other_path: &str) -> (res: Vec<Vec<char>>)
        ensures
            views(res@) == subkeys_among(lines(stdout@), parent_path@, other_path@),
    {
        let ls = split_lines(&chars_of(stdout));
        let parent = chars_of(parent_path);
        let parent_upper = upper_chars(&parent);
        let other = chars_of(other_path);
        let other_upper = upper_chars(&other);
        let mut res: Vec<Vec<char>> = Vec::new();
        let mut i: usize = 0;
        while i < ls.len()
            invariant
                i <= ls@.len(),
                views(ls@) == lines(stdout@),
                parent@ == parent_path@,
                parent_upper@ == str_to_uppercase(parent@),
                other@ == other_path@,
                other_upper@ == str_to_uppercase(other@),
                views(res@) == subkeys_among(views(ls@).take(i as int), parent_path@, other_path@),
            decreases ls.len() - i,
        {
            assert(views(ls@).take(i + 1).drop_last() =~= views(ls@).take(i as int));
            assert(views(ls@).take(i + 1).last() == ls@[i as int]@);
            let ghost before = views(res@);
            let found = match subkey_of_line_exec(&ls[i], &parent, &parent_upper) {
                Some(k) => Some(k),
                None => subkey_of_line_exec(&ls[i], &other, &other_upper),
            };
            match found {
                Some(k) => {
                    let ghost kv = k@;
                    res.push(k);
                    assert(views(res@) =~= before + seq![kv]);
                },
                None => {
                    assert(views(res@) =~= before + Seq::<Seq<char>>::empty());
                },
            }
            i = i + 1;
        }
        assert(views(ls@).take(ls@.len() as int) =~= views(ls@));
        res
    }

    /// The non-blank lines PowerShell printed, trimmed.
    fn ps_subkeys(&self, stdout: &str) -> (res: Vec<Vec<char>>)
        ensures
            views(res@) == trimmed_nonblank(lines(stdout@)),
    {
        let ls = split_lines(&chars_of(stdout));
        let mut res: Vec<Vec<char>> = Vec::new();
        let mut i: usize = 0;
        while i < ls.len()
            invariant
                i <= ls@.len(),
                views(ls@) == lines(stdout@),
                views(res@) == trimmed_nonblank(views(ls@).take(i as int)),
            decreases ls.len() - i,
        {
            assert(views(ls@).take(i + 1).drop_last() =~= views(ls@).take(i as int));
            assert(views(ls@).take(i + 1).last() == ls@[i as int]@);
            let ghost before = views(res@);
            let t = trim_chars(&ls[i]);
            if t.len() == 0 {
                assert(views(res@) =~= before + Seq::<Seq<char>>::empty());
            } else {
                let ghost tv = t@;
                res.push(t);
                assert(views(res@) =~= before + seq![tv]);
            }
            i = i + 1;
        }
        assert(views(ls@).take(ls@.len() as int) =~= views(ls@));
        res
    }

    /// The non-blank lines PowerShell printed, trimmed.
    pub fn parse_powershell_subkeys_output(&self, stdout: &str) -> (res: Vec<String>)
        ensures
            res@.map_values(|s: String| s@) == trimmed_nonblank(lines(stdout@)),
    {
        let ks = self.ps_subkeys(stdout);
        let mut res: Vec<String> = Vec::new();
        let mut i: usize = 0;
        while i < ks.len()
            invariant
                i <= ks@.len(),
                views(ks@) == trimmed_nonblank(lines(stdout@)),
                res@.map_values(|s: String| s@) == views(ks@).take(i as int),
            decreases ks.len() - i,
        {
            let ghost before = res@.map_values(|s: String| s@);
            res.push(string_from_chars(&ks[i]));
            assert(res@.map_values(|s: String| s@) =~= before.push(ks@[i as int]@));
            assert(views(ks@).take(i + 1) =~= views(ks@).take(i as int).push(ks@[i as int]@));
            i = i + 1;
        }
        assert(views(ks@).take(ks@.len() as int) =~= views(ks@));
        res
    }

    /// Decides how to collect an object: its `hive` and `key` fields, and
    /// the query method the `executor` behavior selects.
    pub fn collect_for_ctn_with_hints(
        &self,
        object: &ExecutableObject,
        _contract: &CtnContract,
        hints: &BehaviorHints,
    ) -> (res: Result<(RegistryQueryMethod, String, String), CollectionError>)
        ensures
            match (required_field(*object, "hive"@), required_field(*object, "key"@)) {
                (Err(why), _) => res matches Err(e) && config_error(e, *object, why),
                (Ok(_), Err(why)) => res matches Err(e) && config_error(e, *object, why),
                (Ok(h), Ok(k)) => {
                    let ex = registry_executor(*hints);
                    if ex == "reg"@ || ex == "powershell"@ {
                        res matches Ok(p) && (p.0 == RegistryQueryMethod::Reg <==> ex == "reg"@)
                            && p.1@ == h && p.2@ == k
                    } else {
                        res matches Err(e) && config_error(
                            e,
                            *object,
                            "Invalid executor '"@ + ex + "'. Valid values: reg, powershell"@,
                        )
                    }
                },
            },
    {
        let hive = self.extract_required_string(object, "hive")?;
        let key = self.extract_required_string(object, "key")?;
        proof {
            reveal_strlit("reg");
            reveal_strlit("powershell");
            assert("powershell"@.len() != "reg"@.len());
        }
        let m = registry_method(object, hints)?;
        Ok((m, hive, key))
    }

    /// The arguments of `reg.exe query <hive>\<key>`.
    pub fn reg_query_args(&self, hive: &str, key: &str) -> (res: Vec<String>)
        ensures
            res@.len() == 2,
            res@[0]@ == "query"@,
            res@[1]@ == subkeys_key_path(hive@, key@),
    {
        let h = self.normalize_hive_for_reg(hive);
        let mut v = Vec::new();
        v.push("query".to_string());
        v.push(concat3(h.as_str(), "\\", key));
        v
    }

    /// The PowerShell command that lists the subkeys.
    pub fn powershell_command(&self, hive: &str, key: &str) -> (res: String)
        ensures
            res@ == ps_subkeys_command(hive@, key@),
    {
        let mut c = chars_of("Get-ChildItem -Path '");
        append_chars(&mut c, &chars_of(self.normalize_hive_for_powershell(hive)));
        append_chars(&mut c, &chars_of(":\\"));
        append_chars(&mut c, &chars_of(key));
        append_chars(
            &mut c,
            &chars_of(
                "' -ErrorAction SilentlyContinue | Select-Object -ExpandProperty PSChildName",
            ),
        );
        string_from_chars(&c)
    }

    /// The method record of an enumeration.
    fn method(description: &str, target: String, command: String, hive: &str, key: &str, executor: &str) -> (res:
        CollectionMethod)
        ensures
            method_view(res) == (MethodView {
                method_type: CollectionMethodType::RegistryQuery,
                description: description@,
                target: Some(target@),
                command: Some(command@),
                inputs: subkey_inputs(hive@, key@, executor@),
            }),
    {
        let mut inputs: Vec<(String, String)> = Vec::new();
        inputs.push(("hive".to_string(), hive.to_string()));
        inputs.push(("key".to_string(), key.to_string()));
        inputs.push(("executor".to_string(), executor.to_string()));
        assert(inputs@.map_values(|p: (String, String)| (p.0@, p.1@)) =~= subkey_inputs(
            hive@,
            key@,
            executor@,
        ));
        CollectionMethod {
            method_type: CollectionMethodType::RegistryQuery,
            description: description.to_string(),
            target: Some(target),
            command: Some(command),
            inputs,
        }
    }

    /// Empty data for an object, with its collection method.
    fn new_data(&self, object: &ExecutableObject, method: CollectionMethod) -> (res: CollectedData)
        ensures
            res.object_id@ == object.identifier@,
            res.ctn_type@ == "registry_subkeys"@,
            res.collector_id@ == self.id_view(),
            has_method(res, method_view(method)),
            data_fields(res).len() == 0,
    {
        let mut data = CollectedData::new(
            object.identifier.clone(),
            "registry_subkeys".to_string(),
            self.id.clone(),
        );
        data.set_method(method);
        assert(data_fields(data) =~= Seq::<(Seq<char>, ValueView)>::empty());
        data
    }

    /// Records a key that does not exist.
    fn absent(data: CollectedData) -> (res: CollectedData)
        requires
            data_fields(data).len() == 0,
        ensures
            res.object_id == data.object_id,
            res.ctn_type == data.ctn_type,
            res.collector_id == data.collector_id,
            res.method == data.method,
            data_fields(res) == absent_key_fields(),
    {
        let mut d = data;
        d.add_field("exists".to_string(), ResolvedValue::Boolean(false));
        d.add_field("subkey_count".to_string(), ResolvedValue::Integer(0));
        d.add_field("subkeys".to_string(), ResolvedValue::String(String::new()));
        assert(data_fields(d) =~= absent_key_fields());
        d
    }

    /// Collects the subkeys from the outcome of `reg.exe query`.
    pub fn collect_via_reg(
        &self,
        object: &ExecutableObject,
        hive: &str,
        key: &str,
        output: &Result<CommandOutput, String>,
    ) -> (res: Result<CollectedData, CollectionError>)
        ensures
            reg_subkeys_outcome(*object, self.id_view(), hive@, key@, *output, res),
    {
        let h = self.normalize_hive_for_reg(hive);
        let full_path = concat3(h.as_str(), "\\", key);
        let out = match output {
            Ok(o) => o,
            Err(e) => {
                return Err(
                    CollectionError::CollectionFailed {
                        object_id: object.identifier.clone(),
                        reason: concat2("reg.exe execution failed: ", e.as_str()),
                    },
                );
            },
        };
        let method = Self::method(
            "Enumerate registry subkeys via reg.exe",
            full_path.clone(),
            concat3("reg query \"", full_path.as_str(), "\""),
            hive,
            key,
            "reg",
        );
        let data = self.new_data(object, method);
        if out.exit_code == 1 {
            return Ok(Self::absent(data));
        }
        if out.exit_code != 0 {
            if mentions_both_exec(out.stderr.as_str(), "access", "denied") {
                return Err(
                    CollectionError::AccessDenied {
                        object_id: object.identifier.clone(),
                        reason: concat2("Access denied to registry key: ", full_path.as_str()),
                    },
                );
            }
            return Err(
                CollectionError::CollectionFailed {
                    object_id: object.identifier.clone(),
                    reason: exit_reason_exec("reg.exe", out),
                },
            );
        }
        let long_path = concat3(long_hive_name(hive).as_str(), "\\", key);
        let ks = self.reg_subkeys(out.stdout.as_str(), full_path.as_str(), long_path.as_str());
        Ok(subkeys_result(data, &ks))
    }

    /// Collects the subkeys from the outcome of the PowerShell command.
    pub fn collect_via_powershell(
        &self,
        object: &ExecutableObject,
        hive: &str,
        key: &str,
        output: &Result<CommandOutput, String>,
    ) -> (res: Result<CollectedData, CollectionError>)
        ensures
            ps_subkeys_outcome(*object, self.id_view(), hive@, key@, *output, res),
    {
        let command = self.powershell_command(hive, key);
        let out = match output {
            Ok(o) => o,
            Err(e) => {
                return Err(
                    CollectionError::CollectionFailed {
                        object_id: object.identifier.clone(),
                        reason: concat2("PowerShell execution failed: ", e.as_str()),
                    },
                );
            },
        };
        let target = concat3(self.normalize_hive_for_powershell(hive), ":\\", key);
        let method = Self::method(
            "Enumerate registry subkeys via PowerShell Get-ChildItem",
            target,
            concat3("powershell -NoProfile -NonInteractive -Command \"", command.as_str(), "\""),
            hive,
            key,
            "powershell",
        );
        let data = self.new_data(object, method);
        if out.exit_code != 0 {
            let err = out.stderr.as_str();
            if mentions(err, "does not exist") || mentions(err, "cannot find path") || mentions(
                err,
                "itemnotfoundexception",
            ) {
                return Ok(Self::absent(data));
            }
            if mentions_both_exec(err, "access", "denied") {
                let mut v: Vec<char> = Vec::new();
                push_str(&mut v, "Access denied to registry key: ");
                push_str(&mut v, hive);
                push_str(&mut v, "\\");
                push_str(&mut v, key);
                assert(v@ =~= "Access denied to registry key: "@ + (hive@ + "\\"@ + key@));
                return Err(
                    CollectionError::AccessDenied {
                        object_id: object.identifier.clone(),
                        reason: string_from_chars(&v),
                    },
                );
            }
            return Err(
                CollectionError::CollectionFailed {
                    object_id: object.identifier.clone(),
                    reason: exit_reason_exec("PowerShell", out),
                },
            );
        }
        let ks = self.ps_subkeys(out.stdout.as_str());
        Ok(subkeys_result(data, &ks))
    }
}

} // verus!
