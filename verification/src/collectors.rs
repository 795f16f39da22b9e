//! Collectors: from a policy OBJECT to the data a CTN type checks.
//!
//! A collector reads the OBJECT's fields, decides which system command to
//! run, and turns the command's output into `CollectedData`. Running the
//! command is left to the caller: the collector names the command, the
//! caller runs it and hands back its output.

use vstd::prelude::*;
use crate::contract::{pair_lookup, pairs_view};
use crate::model::{
    concat, concat3, object_fields, CollectionError, ExecutableObject, ResolvedValue, ValueView,
};
use crate::text::{
    chars_eq, chars_of, contains, contains_exec, lower_chars, str_to_lowercase, str_to_uppercase,
    string_from_chars, upper_chars,
};

pub mod service;
pub mod registry;
pub mod registry_subkeys;
pub mod tcp_listener;
pub mod computed_values;
pub mod command;
pub mod k8s_resource;


verus! {

/// The behaviors a criterion gives its collector: parameters with values
/// and flags.
#[derive(Debug)]
pub struct BehaviorHints {
    pub parameters: Vec<(String, String)>,
    pub flags: Vec<String>,
}

impl BehaviorHints {
    /// Hints with no parameter and no flag.
    pub fn empty() -> (res: Self)
        ensures
            res.parameters@.len() == 0,
            res.flags@.len() == 0,
    {
        BehaviorHints { parameters: Vec::new(), flags: Vec::new() }
    }

    /// The value of parameter `name` (the last one given wins).
    pub fn get_parameter(&self, name: &str) -> (res: Option<String>)
        ensures
            match pair_lookup(pairs_view(self.parameters@), name@) {
                Some(v) => res matches Some(r) && r@ == v,
                None => res is None,
            },
    {
        crate::contract::lookup_pair(&self.parameters, name)
    }

    /// Whether flag `name` is set.
    pub fn has_flag(&self, name: &str) -> (res: bool)
        ensures
            res == exists|i: int| 0 <= i < self.flags@.len() && #[trigger] self.flags@[i]@ == name@,
    {
        let n = chars_of(name);
        let mut i: usize = 0;
        while i < self.flags.len()
            invariant
                i <= self.flags@.len(),
                n@ == name@,
                forall|j: int| 0 <= j < i ==> #[trigger] self.flags@[j]@ != name@,
            decreases self.flags.len() - i,
        {
            if chars_eq(&chars_of(self.flags[i].as_str()), &n) {
                return true;
            }
            i = i + 1;
        }
        false
    }
}

/// The value of the first field of an object named `name`.
pub open spec fn first_field(fs: Seq<(Seq<char>, ValueView)>, name: Seq<char>) -> Option<ValueView>
    decreases fs.len(),
{
    if fs.len() == 0 {
        None
    } else if fs[0].0 == name {
        Some(fs[0].1)
    } else {
        first_field(fs.drop_first(), name)
    }
}

/// What reading string field `name` of an object gives: its text, `None`
/// when there is no such field, or an error when the field is not a string.
pub open spec fn string_field(o: ExecutableObject, name: Seq<char>) -> Result<Option<Seq<char>>, ()> {
    match first_field(object_fields(o), name) {
        Some(ValueView::Str(s)) => Ok(Some(s)),
        Some(_) => Err(()),
        None => Ok(None),
    }
}

/// The view of an optional-string result: `Ok(..)` with the text, or the
/// error reduced to its presence.
pub open spec fn string_field_result_view(r: Result<Option<String>, CollectionError>) -> Result<
    Option<Seq<char>>,
    (),
> {
    match r {
        Ok(Some(s)) => Ok(Some(s@)),
        Ok(None) => Ok(None),
        Err(_) => Err(()),
    }
}

/// Whether `e` is an invalid-configuration error for object `o` with this
/// reason.
pub open spec fn config_error(e: CollectionError, o: ExecutableObject, why: Seq<char>) -> bool {
    e matches CollectionError::InvalidObjectConfiguration { object_id, reason } && object_id@
        == o.identifier@ && reason@ == why
}

/// Whether `e` is a failed collection of object `o` with this reason.
pub open spec fn failed_error(e: CollectionError, o: ExecutableObject, why: Seq<char>) -> bool {
    e matches CollectionError::CollectionFailed { object_id, reason } && object_id@
        == o.identifier@ && reason@ == why
}

/// Whether `e` is denied access to object `o` with this reason.
pub open spec fn denied_error(e: CollectionError, o: ExecutableObject, why: Seq<char>) -> bool {
    e matches CollectionError::AccessDenied { object_id, reason } && object_id@ == o.identifier@
        && reason@ == why
}

/// Why a field that is not a string is refused.
pub open spec fn not_string_reason(name: Seq<char>) -> Seq<char> {
    "Field '"@ + name + "' must be a string"@
}

/// Why an object without a required field is refused.
pub open spec fn missing_field_reason(name: Seq<char>) -> Seq<char> {
    "Missing required field '"@ + name + "'"@
}

/// Why a contract of another CTN type is refused.
pub open spec fn incompatible_reason(expected: Seq<char>, got: Seq<char>) -> Seq<char> {
    "Incompatible CTN type: expected '"@ + expected + "', got '"@ + got + "'"@
}

/// What reading a required string field gives: its text, or the reason it
/// is refused.
pub open spec fn required_field(o: ExecutableObject, name: Seq<char>) -> Result<Seq<char>, Seq<char>> {
    match string_field(o, name) {
        Ok(Some(s)) => Ok(s),
        Ok(None) => Err(missing_field_reason(name)),
        Err(_) => Err(not_string_reason(name)),
    }
}

/// Whether `res` is what `required_field` gives for object `o`.
pub open spec fn required_field_result(
    o: ExecutableObject,
    name: Seq<char>,
    res: Result<String, CollectionError>,
) -> bool {
    match required_field(o, name) {
        Ok(s) => res matches Ok(r) && r@ == s,
        Err(why) => res matches Err(e) && config_error(e, o, why),
    }
}

/// The value of the first field of an object named `name`.
pub fn find_field<'a>(object: &'a ExecutableObject, name: &str) -> (res: Option<&'a ResolvedValue>)
    ensures
        match first_field(object_fields(*object), name@) {
            Some(v) => res matches Some(r) && r@ == v,
            None => res is None,
        },
{
    let n = chars_of(name);
    let ghost fs = object_fields(*object);
    let mut i: usize = 0;
    assert(fs.skip(0) =~= fs);
    while i < object.fields.len()
        invariant
            i <= object.fields@.len(),
            n@ == name@,
            fs == object_fields(*object),
            first_field(fs, name@) == first_field(fs.skip(i as int), name@),
        decreases object.fields.len() - i,
    {
        assert(fs.skip(i as int)[0] == (object.fields@[i as int].name@, object.fields@[i as int].value@));
        assert(fs.skip(i as int).drop_first() =~= fs.skip(i + 1));
        if chars_eq(&chars_of(object.fields[i].name.as_str()), &n) {
            return Some(&object.fields[i].value);
        }
        i = i + 1;
    }
    None
}

/// Reads string field `name` of an object: `Ok(None)` when absent, an
/// invalid-configuration error when the field is not a string.
pub fn extract_string_field(object: &ExecutableObject, field_name: &str) -> (res: Result<
    Option<String>,
    CollectionError,
>)
    ensures
        string_field_result_view(res) == string_field(*object, field_name@),
        res matches Err(e) ==> config_error(e, *object, not_string_reason(field_name@)),
{
    let n = chars_of(field_name);
    let ghost fs = object_fields(*object);
    let mut i: usize = 0;
    assert(fs.skip(0) =~= fs);
    while i < object.fields.len()
        invariant
            i <= object.fields@.len(),
            n@ == field_name@,
            fs == object_fields(*object),
            first_field(fs, field_name@) == first_field(fs.skip(i as int), field_name@),
        decreases object.fields.len() - i,
    {
        assert(fs.skip(i as int)[0] == (object.fields@[i as int].name@, object.fields@[i as int].value@));
        assert(fs.skip(i as int).drop_first() =~= fs.skip(i + 1));
        if chars_eq(&chars_of(object.fields[i].name.as_str()), &n) {
            match &object.fields[i].value {
                ResolvedValue::String(s) => {
                    return Ok(Some(s.clone()));
                },
                _ => {
                    return Err(
                        CollectionError::InvalidObjectConfiguration {
                            object_id: object.identifier.clone(),
                            reason: concat3("Field '", field_name, "' must be a string"),
                        },
                    );
                },
            }
        }
        i = i + 1;
    }
    Ok(None)
}

/// Reads a required string field: an invalid-configuration error when it is
/// absent or not a string.
pub fn extract_required_string(object: &ExecutableObject, field_name: &str) -> (res: Result<
    String,
    CollectionError,
>)
    ensures
        required_field_result(*object, field_name@, res),
{
    match extract_string_field(object, field_name) {
        Ok(Some(s)) => Ok(s),
        Ok(None) => Err(
            CollectionError::InvalidObjectConfiguration {
                object_id: object.identifier.clone(),
                reason: concat3("Missing required field '", field_name, "'"),
            },
        ),
        Err(e) => Err(e),
    }
}

/// Whether a contract is for `ctn`: `Ok` or a contract-validation error.
pub fn check_ctn_type(contract_type: &String, ctn: &str) -> (res: Result<(), CollectionError>)
    ensures
        res is Ok <==> contract_type@ == ctn@,
        res matches Err(e) ==> e matches CollectionError::CtnContractValidation { reason } && reason@
            == incompatible_reason(ctn@, contract_type@),
{
    if chars_eq(&chars_of(contract_type.as_str()), &chars_of(ctn)) {
        Ok(())
    } else {
        let mut v: Vec<char> = Vec::new();
        crate::validation::push_str(&mut v, "Incompatible CTN type: expected '");
        crate::validation::push_str(&mut v, ctn);
        crate::validation::push_str(&mut v, "', got '");
        crate::validation::push_str(&mut v, contract_type.as_str());
        crate::validation::push_str(&mut v, "'");
        assert(Seq::<char>::empty() + "Incompatible CTN type: expected '"@
            =~= "Incompatible CTN type: expected '"@);
        Err(CollectionError::CtnContractValidation { reason: string_from_chars(&v) })
    }
}

/// `reg.exe` root key for a hive name in any case (`HKEY_LOCAL_MACHINE` to
/// `HKLM`, ...); unknown names are kept as given.
pub open spec fn reg_hive(hive: Seq<char>) -> Seq<char> {
    let u = str_to_uppercase(hive);
    if u == "HKLM"@ || u == "HKEY_LOCAL_MACHINE"@ {
        "HKLM"@
    } else if u == "HKCU"@ || u == "HKEY_CURRENT_USER"@ {
        "HKCU"@
    } else if u == "HKCR"@ || u == "HKEY_CLASSES_ROOT"@ {
        "HKCR"@
    } else if u == "HKU"@ || u == "HKEY_USERS"@ {
        "HKU"@
    } else if u == "HKCC"@ || u == "HKEY_CURRENT_CONFIG"@ {
        "HKCC"@
    } else {
        hive
    }
}

/// The `reg.exe` root key for a hive name.
pub fn normalize_hive_for_reg(hive: &str) -> (res: String)
    ensures
        res@ == reg_hive(hive@),
{
    let u = upper_chars(&chars_of(hive));
    let r = if chars_eq(&u, &chars_of("HKLM")) || chars_eq(&u, &chars_of("HKEY_LOCAL_MACHINE")) {
        "HKLM"
    } else if chars_eq(&u, &chars_of("HKCU")) || chars_eq(&u, &chars_of("HKEY_CURRENT_USER")) {
        "HKCU"
    } else if chars_eq(&u, &chars_of("HKCR")) || chars_eq(&u, &chars_of("HKEY_CLASSES_ROOT")) {
        "HKCR"
    } else if chars_eq(&u, &chars_of("HKU")) || chars_eq(&u, &chars_of("HKEY_USERS")) {
        "HKU"
    } else if chars_eq(&u, &chars_of("HKCC")) || chars_eq(&u, &chars_of("HKEY_CURRENT_CONFIG")) {
        "HKCC"
    } else {
        hive
    };
    r.to_string()
}

/// How a registry key is queried.
#[derive(Clone, Copy, PartialEq, Eq, Structural, Debug)]
pub enum RegistryQueryMethod {
    Reg,
    PowerShell,
}

/// The `executor` behavior for registry collectors, `reg` by default.
pub open spec fn registry_executor(hints: BehaviorHints) -> Seq<char> {
    match pair_lookup(pairs_view(hints.parameters@), "executor"@) {
        Some(e) => e,
        None => "reg"@,
    }
}

/// The query method named by the `executor` behavior, if it is one.
pub fn registry_method(object: &ExecutableObject, hints: &BehaviorHints) -> (res: Result<
    RegistryQueryMethod,
    CollectionError,
>)
    ensures
        registry_executor(*hints) == "reg"@ ==> res == Ok::<RegistryQueryMethod, CollectionError>(
            RegistryQueryMethod::Reg,
        ),
        registry_executor(*hints) == "powershell"@ ==> res == Ok::<
            RegistryQueryMethod,
            CollectionError,
        >(RegistryQueryMethod::PowerShell),
        registry_executor(*hints) != "reg"@ && registry_executor(*hints) != "powershell"@ ==> (res matches Err(
            e,
        ) && config_error(
            e,
            *object,
            "Invalid executor '"@ + registry_executor(*hints) + "'. Valid values: reg, powershell"@,
        )),
{
    let ex = match hints.get_parameter("executor") {
        Some(e) => e,
        None => "reg".to_string(),
    };
    let e = chars_of(ex.as_str());
    proof {
        reveal_strlit("reg");
        reveal_strlit("powershell");
        assert("powershell"@.len() != "reg"@.len());
    }
    if chars_eq(&e, &chars_of("reg")) {
        Ok(RegistryQueryMethod::Reg)
    } else if chars_eq(&e, &chars_of("powershell")) {
        Ok(RegistryQueryMethod::PowerShell)
    } else {
        Err(
            CollectionError::InvalidObjectConfiguration {
                object_id: object.identifier.clone(),
                reason: concat3("Invalid executor '", ex.as_str(), "'. Valid values: reg, powershell"),
            },
        )
    }
}

/// Whether the lower-case form of `s` contains `a` and `b`.
pub open spec fn mentions_both(s: Seq<char>, a: Seq<char>, b: Seq<char>) -> bool {
    contains(str_to_lowercase(s), a) && contains(str_to_lowercase(s), b)
}

/// Whether the lower-case form of `s` contains `a` and `b`.
pub fn mentions_both_exec(s: &str, a: &str, b: &str) -> (res: bool)
    ensures
        res == mentions_both(s@, a@, b@),
{
    let l = lower_chars(&chars_of(s));
    contains_exec(&l, &chars_of(a)) && contains_exec(&l, &chars_of(b))
}

/// Whether the lower-case form of `s` contains `w`.
pub fn mentions(s: &str, w: &str) -> (res: bool)
    ensures
        res == contains(str_to_lowercase(s@), w@),
{
    contains_exec(&lower_chars(&chars_of(s)), &chars_of(w))
}

} // verus!
