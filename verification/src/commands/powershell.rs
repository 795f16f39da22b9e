//! Arguments for, and output of, PowerShell `Get-ItemPropertyValue`.

use vstd::prelude::*;
use crate::text::{
    append_chars, chars_eq, chars_of, str_to_uppercase, string_from_chars, trim, trim_chars,
    upper_chars,
};

verus! {

/// PowerShell drive for an upper-cased hive name; unknown hives fall back
/// to `HKLM`.
pub open spec fn ps_hive_from_upper(u: Seq<char>) -> Seq<char> {
    if u == "HKEY_LOCAL_MACHINE"@ || u == "HKLM"@ {
        "HKLM"@
    } else if u == "HKEY_CURRENT_USER"@ || u == "HKCU"@ {
        "HKCU"@
    } else if u == "HKEY_CLASSES_ROOT"@ || u == "HKCR"@ {
        "HKCR"@
    } else if u == "HKEY_USERS"@ || u == "HKU"@ {
        "HKU"@
    } else if u == "HKEY_CURRENT_CONFIG"@ || u == "HKCC"@ {
        "HKCC"@
    } else {
        "HKLM"@
    }
}

/// What `normalize_hive_for_powershell` returns.
pub open spec fn ps_hive(hive: Seq<char>) -> Seq<char> {
    ps_hive_from_upper(str_to_uppercase(hive))
}

/// The `Get-ItemPropertyValue` command for a value.
pub open spec fn registry_value_command(hive: Seq<char>, key: Seq<char>, name: Seq<char>) -> Seq<
    char,
> {
    "Get-ItemPropertyValue -Path '"@ + ps_hive(hive) + ":\\"@ + key + "' -Name '"@ + name + "'"@
}

/// PowerShell drive for an upper-cased hive name.
pub fn ps_hive_from_upper_exec(u: &[char]) -> (res: &'static str)
    ensures
        res@ == ps_hive_from_upper(u@),
{
    if chars_eq(u, &chars_of("HKEY_LOCAL_MACHINE")) || chars_eq(u, &chars_of("HKLM")) {
        "HKLM"
    } else if chars_eq(u, &chars_of("HKEY_CURRENT_USER")) || chars_eq(u, &chars_of("HKCU")) {
        "HKCU"
    } else if chars_eq(u, &chars_of("HKEY_CLASSES_ROOT")) || chars_eq(u, &chars_of("HKCR")) {
        "HKCR"
    } else if chars_eq(u, &chars_of("HKEY_USERS")) || chars_eq(u, &chars_of("HKU")) {
        "HKU"
    } else if chars_eq(u, &chars_of("HKEY_CURRENT_CONFIG")) || chars_eq(u, &chars_of("HKCC")) {
        "HKCC"
    } else {
        "HKLM"
    }
}

/// Normalizes a hive name to its PowerShell drive (`HKEY_LOCAL_MACHINE` and
/// `hklm` to `HKLM`, ...).
pub fn normalize_hive_for_powershell(hive: &str) -> (res: &'static str)
    ensures
        res@ == ps_hive(hive@),
{
    ps_hive_from_upper_exec(&upper_chars(&chars_of(hive)))
}

/// Arguments for `powershell -NoProfile -NonInteractive -Command
/// "Get-ItemPropertyValue -Path '<drive>:\<key>' -Name '<name>'"`.
pub fn build_registry_value_args(hive: &str, key: &str, name: &str) -> (res: Vec<String>)
    ensures
        res@.len() == 4,
        res@[0]@ == "-NoProfile"@,
        res@[1]@ == "-NonInteractive"@,
        res@[2]@ == "-Command"@,
        res@[3]@ == registry_value_command(hive@, key@, name@),
{
    let ps = normalize_hive_for_powershell(hive);
    let mut command = chars_of("Get-ItemPropertyValue -Path '");
    append_chars(&mut command, &chars_of(ps));
    append_chars(&mut command, &chars_of(":\\"));
    append_chars(&mut command, &chars_of(key));
    append_chars(&mut command, &chars_of("' -Name '"));
    append_chars(&mut command, &chars_of(name));
    append_chars(&mut command, &chars_of("'"));
    let mut args: Vec<String> = Vec::new();
    args.push("-NoProfile".to_owned());
    args.push("-NonInteractive".to_owned());
    args.push("-Command".to_owned());
    args.push(string_from_chars(&command));
    args
}

/// PowerShell prints just the value: the output, trimmed.
pub fn parse_powershell_output(output: &str) -> (res: String)
    ensures
        res@ == trim(output@),
{
    string_from_chars(&trim_chars(&chars_of(output)))
}

} // verus!
