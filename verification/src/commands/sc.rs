//! Output of `sc.exe query` (runtime state) and `sc.exe qc` (configuration).
//!
//! ```text
//! SERVICE_NAME: W32Time
//!         TYPE               : 30  WIN32
//!         STATE              : 4  RUNNING
//! ```

use vstd::prelude::*;
use crate::text::{
    after_first, after_first_exec, lemma_last_field_step, starts_with, chars_eq, chars_of, contains, contains_exec, is_digit,
    is_ws, is_ws_char, last_field, lines, lower_chars, non_empty, opt_string, opt_view,
    opt_vview, slice_range, split_lines, starts_with_exec, str_to_lowercase,
    str_to_uppercase, string_from_chars, trim, trim_chars, upper_chars, views,
};

verus! {

/// Exit code `sc.exe` reports for a service that is not installed.
pub const SC_ERROR_SERVICE_NOT_FOUND: i32 = 1060;

/// Exit code `sc.exe` reports when access is denied.
pub const SC_ERROR_ACCESS_DENIED: i32 = 5;

/// Parsed output of `sc.exe query`.
#[derive(Debug)]
pub struct ScQueryOutput {
    /// Service runtime state (normalized)
    pub state: String,
    /// Service type from the query output (less detailed than `qc`)
    pub service_type: Option<String>,
}

/// Parsed output of `sc.exe qc`.
#[derive(Debug)]
pub struct ScQcOutput {
    /// Service type (normalized)
    pub service_type: String,
    /// Start type (normalized)
    pub start_type: String,
    /// Binary path
    pub path: String,
    /// Display name
    pub display_name: String,
}

/// Service information combined from both commands.
#[derive(Debug)]
pub struct ServiceInfo {
    pub exists: bool,
    pub state: String,
    pub start_type: String,
    pub display_name: String,
    pub path: String,
    pub service_type: String,
}

// ---------------------------------------------------------------------------
// Specifications
// ---------------------------------------------------------------------------

/// The output reports a service that is not installed.
pub open spec fn service_not_found(o: Seq<char>) -> bool {
    contains(o, "FAILED 1060:"@) || contains(o, "does not exist as an installed service"@)
}

/// The output reports that access was denied.
pub open spec fn access_denied(o: Seq<char>) -> bool {
    contains(o, "FAILED 5:"@) || contains(str_to_lowercase(o), "access is denied"@)
}

/// Runtime state named by an upper-cased `sc.exe` state word.
pub open spec fn state_from_upper(u: Seq<char>) -> Seq<char> {
    if u == "STOPPED"@ {
        "stopped"@
    } else if u == "START_PENDING"@ {
        "start_pending"@
    } else if u == "STOP_PENDING"@ {
        "stop_pending"@
    } else if u == "RUNNING"@ {
        "running"@
    } else if u == "CONTINUE_PENDING"@ {
        "continue_pending"@
    } else if u == "PAUSE_PENDING"@ {
        "pause_pending"@
    } else if u == "PAUSED"@ {
        "paused"@
    } else {
        "unknown"@
    }
}

/// Start type named by an upper-cased `sc.exe` start-type text.
pub open spec fn start_type_from_upper(u: Seq<char>) -> Seq<char> {
    if contains(u, "AUTO_START"@) && contains(u, "DELAYED"@) {
        "auto_delayed"@
    } else if contains(u, "BOOT_START"@) {
        "boot"@
    } else if contains(u, "SYSTEM_START"@) {
        "system"@
    } else if contains(u, "AUTO_START"@) {
        "auto"@
    } else if contains(u, "DEMAND_START"@) {
        "manual"@
    } else if contains(u, "DISABLED"@) {
        "disabled"@
    } else {
        "unknown"@
    }
}

/// Service type named by an upper-cased `sc.exe` type text.
pub open spec fn service_type_from_upper(u: Seq<char>) -> Seq<char> {
    if contains(u, "WIN32_OWN_PROCESS"@) && contains(u, "INTERACTIVE"@) {
        "own_process_interactive"@
    } else if contains(u, "KERNEL_DRIVER"@) {
        "kernel_driver"@
    } else if contains(u, "FILE_SYSTEM_DRIVER"@) {
        "file_system_driver"@
    } else if contains(u, "WIN32_OWN_PROCESS"@) {
        "own_process"@
    } else if contains(u, "WIN32_SHARE_PROCESS"@) {
        "share_process"@
    } else if u == "WIN32"@ {
        "win32"@
    } else {
        "unknown"@
    }
}

pub open spec fn normalized_state(s: Seq<char>) -> Seq<char> {
    state_from_upper(str_to_uppercase(s))
}

pub open spec fn normalized_start_type(s: Seq<char>) -> Seq<char> {
    start_type_from_upper(str_to_uppercase(s))
}

pub open spec fn normalized_service_type(s: Seq<char>) -> Seq<char> {
    service_type_from_upper(str_to_uppercase(s))
}

/// Position of the first character that is neither an ASCII digit nor
/// whitespace, or `t.len()` when there is none.
pub open spec fn first_text_index(t: Seq<char>) -> int
    decreases t.len(),
{
    if t.len() == 0 {
        0
    } else if !is_digit(t[0]) && !is_ws(t[0]) {
        0
    } else {
        1 + first_text_index(t.drop_first())
    }
}

/// The text after the numeric code of a value such as `4  RUNNING`.
/// When the value holds nothing but digits and spaces, the whole value.
pub open spec fn text_after_number(value: Seq<char>) -> Option<Seq<char>> {
    let t = trim(value);
    let k = first_text_index(t);
    let start = if k < t.len() {
        k
    } else {
        0
    };
    non_empty(trim(t.subrange(start, t.len() as int)))
}

/// The trimmed value after the first `:` of a line.
pub open spec fn line_value(line: Seq<char>) -> Option<Seq<char>> {
    match after_first(line, ':') {
        Some(v) => Some(trim(v)),
        None => None,
    }
}

/// `STATE : 4  RUNNING` gives `running`.
pub open spec fn state_line(line: Seq<char>) -> Option<Seq<char>> {
    match line_value(line) {
        Some(v) => match text_after_number(v) {
            Some(t) => Some(normalized_state(t)),
            None => None,
        },
        None => None,
    }
}

/// `TYPE : 20  WIN32_SHARE_PROCESS` gives `share_process`.
pub open spec fn type_line(line: Seq<char>) -> Option<Seq<char>> {
    match line_value(line) {
        Some(v) => match text_after_number(v) {
            Some(t) => Some(normalized_service_type(t)),
            None => None,
        },
        None => None,
    }
}

/// `START_TYPE : 3   DEMAND_START` gives `manual`.
pub open spec fn start_type_line(line: Seq<char>) -> Option<Seq<char>> {
    match line_value(line) {
        Some(v) => match text_after_number(v) {
            Some(t) => Some(normalized_start_type(t)),
            None => None,
        },
        None => None,
    }
}

/// `DISPLAY_NAME : Windows Time` gives `Windows Time`; an empty value gives nothing.
pub open spec fn key_value_line(line: Seq<char>) -> Option<Seq<char>> {
    match line_value(line) {
        Some(v) => non_empty(v),
        None => None,
    }
}

pub open spec fn state_line_f() -> spec_fn(Seq<char>) -> Option<Seq<char>> {
    |l: Seq<char>| state_line(l)
}

pub open spec fn type_line_f() -> spec_fn(Seq<char>) -> Option<Seq<char>> {
    |l: Seq<char>| type_line(l)
}

pub open spec fn start_type_line_f() -> spec_fn(Seq<char>) -> Option<Seq<char>> {
    |l: Seq<char>| start_type_line(l)
}

pub open spec fn key_value_line_f() -> spec_fn(Seq<char>) -> Option<Seq<char>> {
    |l: Seq<char>| key_value_line(l)
}

/// The state that `sc.exe query` output reports: the last `STATE` line that parses.
pub open spec fn query_state(o: Seq<char>) -> Option<Seq<char>> {
    last_field(lines(o), "STATE"@, state_line_f())
}

/// The service type that `sc.exe query` output reports: the last `TYPE` line that parses.
pub open spec fn query_type(o: Seq<char>) -> Option<Seq<char>> {
    last_field(lines(o), "TYPE"@, type_line_f())
}

pub open spec fn qc_type(o: Seq<char>) -> Option<Seq<char>> {
    last_field(lines(o), "TYPE"@, type_line_f())
}

pub open spec fn qc_start_type(o: Seq<char>) -> Option<Seq<char>> {
    last_field(lines(o), "START_TYPE"@, start_type_line_f())
}

pub open spec fn qc_path(o: Seq<char>) -> Option<Seq<char>> {
    last_field(lines(o), "BINARY_PATH_NAME"@, key_value_line_f())
}

pub open spec fn qc_display_name(o: Seq<char>) -> Option<Seq<char>> {
    last_field(lines(o), "DISPLAY_NAME"@, key_value_line_f())
}

/// A value that is absent reads as the empty string.
pub open spec fn or_empty(o: Option<Seq<char>>) -> Seq<char> {
    match o {
        Some(s) => s,
        None => Seq::empty(),
    }
}

// ---------------------------------------------------------------------------
// Lemmas
// ---------------------------------------------------------------------------

proof fn lemma_first_text_index(t: Seq<char>)
    ensures
        0 <= first_text_index(t) <= t.len(),
        first_text_index(t) < t.len() ==> !is_digit(t[first_text_index(t)]) && !is_ws(
            t[first_text_index(t)],
        ),
    decreases t.len(),
{
    if t.len() > 0 && !(!is_digit(t[0]) && !is_ws(t[0])) {
        lemma_first_text_index(t.drop_first());
    }
}

proof fn lemma_first_text_index_exact(t: Seq<char>, k: int)
    requires
        0 <= k <= t.len(),
        k < t.len() ==> !is_digit(t[k]) && !is_ws(t[k]),
        forall|j: int| 0 <= j < k ==> is_digit(t[j]) || is_ws(t[j]),
    ensures
        first_text_index(t) == k,
    decreases t.len(),
{
    if t.len() > 0 && k > 0 {
        assert forall|j: int| 0 <= j < k - 1 implies is_digit(t.drop_first()[j]) || is_ws(
            t.drop_first()[j],
        ) by {
            assert(t.drop_first()[j] == t[j + 1]);
        }
        lemma_first_text_index_exact(t.drop_first(), k - 1);
    }
}

/// The normalized state is never empty, so a parsed `STATE` line always
/// yields a state.
pub proof fn lemma_state_from_upper_non_empty(u: Seq<char>)
    ensures
        state_from_upper(u).len() > 0,
{
    reveal_strlit("stopped");
    reveal_strlit("start_pending");
    reveal_strlit("stop_pending");
    reveal_strlit("running");
    reveal_strlit("continue_pending");
    reveal_strlit("pause_pending");
    reveal_strlit("paused");
    reveal_strlit("unknown");
}

/// Likewise for the start type.
pub proof fn lemma_start_type_from_upper_non_empty(u: Seq<char>)
    ensures
        start_type_from_upper(u).len() > 0,
{
    reveal_strlit("auto_delayed");
    reveal_strlit("boot");
    reveal_strlit("system");
    reveal_strlit("auto");
    reveal_strlit("manual");
    reveal_strlit("disabled");
    reveal_strlit("unknown");
}

// ---------------------------------------------------------------------------
// Classification
// ---------------------------------------------------------------------------

/// Names the runtime state from the upper-cased state word.
pub fn state_from_upper_exec(u: &[char]) -> (res: Vec<char>)
    ensures
        res@ == state_from_upper(u@),
{
    if chars_eq(u, &chars_of("STOPPED")) {
        chars_of("stopped")
    } else if chars_eq(u, &chars_of("START_PENDING")) {
        chars_of("start_pending")
    } else if chars_eq(u, &chars_of("STOP_PENDING")) {
        chars_of("stop_pending")
    } else if chars_eq(u, &chars_of("RUNNING")) {
        chars_of("running")
    } else if chars_eq(u, &chars_of("CONTINUE_PENDING")) {
        chars_of("continue_pending")
    } else if chars_eq(u, &chars_of("PAUSE_PENDING")) {
        chars_of("pause_pending")
    } else if chars_eq(u, &chars_of("PAUSED")) {
        chars_of("paused")
    } else {
        chars_of("unknown")
    }
}

/// Names the start type from the upper-cased start-type text.
pub fn start_type_from_upper_exec(u: &[char]) -> (res: Vec<char>)
    ensures
        res@ == start_type_from_upper(u@),
{
    let auto = contains_exec(u, &chars_of("AUTO_START"));
    if auto && contains_exec(u, &chars_of("DELAYED")) {
        chars_of("auto_delayed")
    } else if contains_exec(u, &chars_of("BOOT_START")) {
        chars_of("boot")
    } else if contains_exec(u, &chars_of("SYSTEM_START")) {
        chars_of("system")
    } else if auto {
        chars_of("auto")
    } else if contains_exec(u, &chars_of("DEMAND_START")) {
        chars_of("manual")
    } else if contains_exec(u, &chars_of("DISABLED")) {
        chars_of("disabled")
    } else {
        chars_of("unknown")
    }
}

/// Names the service type from the upper-cased type text.
pub fn service_type_from_upper_exec(u: &[char]) -> (res: Vec<char>)
    ensures
        res@ == service_type_from_upper(u@),
{
    let own = contains_exec(u, &chars_of("WIN32_OWN_PROCESS"));
    if own && contains_exec(u, &chars_of("INTERACTIVE")) {
        chars_of("own_process_interactive")
    } else if contains_exec(u, &chars_of("KERNEL_DRIVER")) {
        chars_of("kernel_driver")
    } else if contains_exec(u, &chars_of("FILE_SYSTEM_DRIVER")) {
        chars_of("file_system_driver")
    } else if own {
        chars_of("own_process")
    } else if contains_exec(u, &chars_of("WIN32_SHARE_PROCESS")) {
        chars_of("share_process")
    } else if chars_eq(u, &chars_of("WIN32")) {
        chars_of("win32")
    } else {
        chars_of("unknown")
    }
}

fn normalize_state_chars(s: &[char]) -> (res: Vec<char>)
    ensures
        res@ == normalized_state(s@),
{
    let u = upper_chars(s);
    state_from_upper_exec(&u)
}

fn normalize_start_type_chars(s: &[char]) -> (res: Vec<char>)
    ensures
        res@ == normalized_start_type(s@),
{
    let u = upper_chars(s);
    start_type_from_upper_exec(&u)
}

fn normalize_service_type_chars(s: &[char]) -> (res: Vec<char>)
    ensures
        res@ == normalized_service_type(s@),
{
    let u = upper_chars(s);
    service_type_from_upper_exec(&u)
}

/// Normalizes a runtime state (`RUNNING` to `running`; anything else
/// outside the seven known states to `unknown`).
pub fn normalize_state(state: &str) -> (res: String)
    ensures
        res@ == normalized_state(state@),
{
    string_from_chars(&normalize_state_chars(&chars_of(state)))
}

/// Normalizes a start type (`DEMAND_START` to `manual`, `AUTO_START (DELAYED)`
/// to `auto_delayed`, ...).
pub fn normalize_start_type(start_type: &str) -> (res: String)
    ensures
        res@ == normalized_start_type(start_type@),
{
    string_from_chars(&normalize_start_type_chars(&chars_of(start_type)))
}

/// Normalizes a service type (`WIN32_SHARE_PROCESS` to `share_process`, ...).
pub fn normalize_service_type(svc_type: &str) -> (res: String)
    ensures
        res@ == normalized_service_type(svc_type@),
{
    string_from_chars(&normalize_service_type_chars(&chars_of(svc_type)))
}

// ---------------------------------------------------------------------------
// Line parsing
// ---------------------------------------------------------------------------

/// The text after the numeric code: `4  RUNNING` gives `RUNNING`.
pub fn extract_text_after_number(value: &[char]) -> (res: Option<Vec<char>>)
    ensures
        opt_vview(res) == text_after_number(value@),
{
    let t = trim_chars(value);
    let n = t.len();
    let mut k: usize = 0;
    while k < n && (('0' <= t[k] && t[k] <= '9') || is_ws_char(t[k]))
        invariant
            k <= n == t@.len(),
            forall|j: int| 0 <= j < k ==> is_digit(t@[j]) || is_ws(t@[j]),
        decreases n - k,
    {
        k = k + 1;
    }
    proof {
        lemma_first_text_index_exact(t@, k as int);
    }
    let start = if k < n {
        k
    } else {
        0
    };
    let rest = slice_range(&t, start, n);
    let text = trim_chars(&rest);
    if text.len() == 0 {
        None
    } else {
        Some(text)
    }
}

fn line_value_exec(line: &[char]) -> (res: Option<Vec<char>>)
    ensures
        opt_vview(res) == line_value(line@),
{
    match after_first_exec(line, ':') {
        Some(v) => Some(trim_chars(&v)),
        None => None,
    }
}

fn parse_state_line(line: &[char]) -> (res: Option<Vec<char>>)
    ensures
        opt_vview(res) == state_line(line@),
{
    let value = line_value_exec(line)?;
    let text = extract_text_after_number(&value)?;
    Some(normalize_state_chars(&text))
}

fn parse_type_line(line: &[char]) -> (res: Option<Vec<char>>)
    ensures
        opt_vview(res) == type_line(line@),
{
    let value = line_value_exec(line)?;
    let text = extract_text_after_number(&value)?;
    Some(normalize_service_type_chars(&text))
}

fn parse_start_type_line(line: &[char]) -> (res: Option<Vec<char>>)
    ensures
        opt_vview(res) == start_type_line(line@),
{
    let value = line_value_exec(line)?;
    let text = extract_text_after_number(&value)?;
    Some(normalize_start_type_chars(&text))
}

fn parse_key_value_line(line: &[char]) -> (res: Option<Vec<char>>)
    ensures
        opt_vview(res) == key_value_line(line@),
{
    let value = line_value_exec(line)?;
    if value.len() == 0 {
        None
    } else {
        Some(value)
    }
}

// ---------------------------------------------------------------------------
// Public parsers
// ---------------------------------------------------------------------------

/// The output reports a service that is not installed (`FAILED 1060:`).
pub fn is_service_not_found(output: &str) -> (res: bool)
    ensures
        res == service_not_found(output@),
{
    let o = chars_of(output);
    contains_exec(&o, &chars_of("FAILED 1060:")) || contains_exec(
        &o,
        &chars_of("does not exist as an installed service"),
    )
}

/// The output reports that access was denied (`FAILED 5:` or, in any case,
/// `access is denied`).
pub fn is_access_denied(output: &str) -> (res: bool)
    ensures
        res == access_denied(output@),
{
    let o = chars_of(output);
    contains_exec(&o, &chars_of("FAILED 5:")) || contains_exec(
        &lower_chars(&o),
        &chars_of("access is denied"),
    )
}

/// Parses `sc.exe query` output: the runtime state and the service type.
/// `None` when no `STATE` line yields a state.
pub fn parse_sc_query_output(output: &str) -> (res: Option<ScQueryOutput>)
    ensures
        res is None <==> or_empty(query_state(output@)).len() == 0,
        res is Some ==> res.unwrap().state@ == or_empty(query_state(output@)) && opt_view(
            res.unwrap().service_type,
        ) == query_type(output@),
{
    let o = chars_of(output);
    let ls = split_lines(&o);
    let ghost lv = lines(o@);
    let state_p = chars_of("STATE");
    let type_p = chars_of("TYPE");
    let mut state: Option<Vec<char>> = None;
    let mut svc_type: Option<Vec<char>> = None;
    let mut i: usize = 0;
    while i < ls.len()
        invariant
            views(ls@) == lv,
            lv == lines(output@),
            i <= ls@.len(),
            state_p@ == "STATE"@,
            type_p@ == "TYPE"@,
            opt_vview(state) == last_field(lv.take(i as int), "STATE"@, state_line_f()),
            opt_vview(svc_type) == last_field(lv.take(i as int), "TYPE"@, type_line_f()),
        decreases ls.len() - i,
    {
        let t = trim_chars(&ls[i]);
        proof {
            assert(lv[i as int] == ls@[i as int]@);
            lemma_last_field_step(lv, i as int, "STATE"@, state_line_f());
            lemma_last_field_step(lv, i as int, "TYPE"@, type_line_f());
            assert(state_line_f()(t@) == state_line(t@));
            assert(type_line_f()(t@) == type_line(t@));
        }
        if starts_with_exec(&t, &state_p) {
            if let Some(s) = parse_state_line(&t) {
                state = Some(s);
            }
        }
        if starts_with_exec(&t, &type_p) {
            if let Some(s) = parse_type_line(&t) {
                svc_type = Some(s);
            }
        }
        i = i + 1;
    }
    assert(lv.take(ls@.len() as int) =~= lv);
    match state {
        Some(s) => {
            if s.len() == 0 {
                None
            } else {
                Some(ScQueryOutput { state: string_from_chars(&s), service_type: opt_string(svc_type) })
            }
        },
        None => None,
    }
}

/// Parses `sc.exe qc` output: service type, start type, binary path and
/// display name.  `None` when no `START_TYPE` line yields a start type.
pub fn parse_sc_qc_output(output: &str) -> (res: Option<ScQcOutput>)
    ensures
        res is None <==> or_empty(qc_start_type(output@)).len() == 0,
        res is Some ==> {
            let r = res.unwrap();
            &&& r.start_type@ == or_empty(qc_start_type(output@))
            &&& r.service_type@ == or_empty(qc_type(output@))
            &&& r.path@ == or_empty(qc_path(output@))
            &&& r.display_name@ == or_empty(qc_display_name(output@))
        },
{
    let o = chars_of(output);
    let ls = split_lines(&o);
    let ghost lv = lines(o@);
    let type_p = chars_of("TYPE");
    let start_p = chars_of("START_TYPE");
    let path_p = chars_of("BINARY_PATH_NAME");
    let name_p = chars_of("DISPLAY_NAME");
    let mut svc_type: Option<Vec<char>> = None;
    let mut start: Option<Vec<char>> = None;
    let mut path: Option<Vec<char>> = None;
    let mut name: Option<Vec<char>> = None;
    let mut i: usize = 0;
    while i < ls.len()
        invariant
            views(ls@) == lv,
            lv == lines(output@),
            i <= ls@.len(),
            type_p@ == "TYPE"@,
            start_p@ == "START_TYPE"@,
            path_p@ == "BINARY_PATH_NAME"@,
            name_p@ == "DISPLAY_NAME"@,
            opt_vview(svc_type) == last_field(lv.take(i as int), "TYPE"@, type_line_f()),
            opt_vview(start) == last_field(lv.take(i as int), "START_TYPE"@, start_type_line_f()),
            opt_vview(path) == last_field(lv.take(i as int), "BINARY_PATH_NAME"@, key_value_line_f()),
            opt_vview(name) == last_field(lv.take(i as int), "DISPLAY_NAME"@, key_value_line_f()),
        decreases ls.len() - i,
    {
        let t = trim_chars(&ls[i]);
        proof {
            assert(lv[i as int] == ls@[i as int]@);
            lemma_last_field_step(lv, i as int, "TYPE"@, type_line_f());
            lemma_last_field_step(lv, i as int, "START_TYPE"@, start_type_line_f());
            lemma_last_field_step(lv, i as int, "BINARY_PATH_NAME"@, key_value_line_f());
            lemma_last_field_step(lv, i as int, "DISPLAY_NAME"@, key_value_line_f());
            assert(type_line_f()(t@) == type_line(t@));
            assert(start_type_line_f()(t@) == start_type_line(t@));
            assert(key_value_line_f()(t@) == key_value_line(t@));
        }
        if starts_with_exec(&t, &type_p) {
            if let Some(s) = parse_type_line(&t) {
                svc_type = Some(s);
            }
        }
        if starts_with_exec(&t, &start_p) {
            if let Some(s) = parse_start_type_line(&t) {
                start = Some(s);
            }
        }
        if starts_with_exec(&t, &path_p) {
            if let Some(s) = parse_key_value_line(&t) {
                path = Some(s);
            }
        }
        if starts_with_exec(&t, &name_p) {
            if let Some(s) = parse_key_value_line(&t) {
                name = Some(s);
            }
        }
        i = i + 1;
    }
    assert(lv.take(ls@.len() as int) =~= lv);
    let start_v = match start {
        Some(s) => s,
        None => Vec::new(),
    };
    if start_v.len() == 0 {
        return None;
    }
    let type_v = match svc_type {
        Some(s) => s,
        None => Vec::new(),
    };
    let path_v = match path {
        Some(s) => s,
        None => Vec::new(),
    };
    let name_v = match name {
        Some(s) => s,
        None => Vec::new(),
    };
    Some(
        ScQcOutput {
            service_type: string_from_chars(&type_v),
            start_type: string_from_chars(&start_v),
            path: string_from_chars(&path_v),
            display_name: string_from_chars(&name_v),
        },
    )
}


// ---------------------------------------------------------------------------
// Laws
// ---------------------------------------------------------------------------

/// The state words `sc.exe` writes.
pub open spec fn sc_state_words() -> Seq<Seq<char>> {
    seq![
        "STOPPED"@,
        "START_PENDING"@,
        "STOP_PENDING"@,
        "RUNNING"@,
        "CONTINUE_PENDING"@,
        "PAUSE_PENDING"@,
        "PAUSED"@,
    ]
}

/// Each state word names its own state: a word `sc.exe` writes is never
/// reported as `unknown`, two different words are never reported as the
/// same state, and any other text is `unknown`.
pub proof fn law_state_words(u: Seq<char>, v: Seq<char>)
    ensures
        sc_state_words().contains(u) ==> state_from_upper(u) != "unknown"@,
        !sc_state_words().contains(u) ==> state_from_upper(u) == "unknown"@,
        sc_state_words().contains(u) && sc_state_words().contains(v) && u != v ==> state_from_upper(u)
            != state_from_upper(v),
{
    reveal_strlit("STOPPED");
    reveal_strlit("START_PENDING");
    reveal_strlit("STOP_PENDING");
    reveal_strlit("RUNNING");
    reveal_strlit("CONTINUE_PENDING");
    reveal_strlit("PAUSE_PENDING");
    reveal_strlit("PAUSED");
    reveal_strlit("stopped");
    reveal_strlit("start_pending");
    reveal_strlit("stop_pending");
    reveal_strlit("running");
    reveal_strlit("continue_pending");
    reveal_strlit("pause_pending");
    reveal_strlit("paused");
    reveal_strlit("unknown");
    let w = sc_state_words();
    let out = seq![
        "stopped"@,
        "start_pending"@,
        "stop_pending"@,
        "running"@,
        "continue_pending"@,
        "pause_pending"@,
        "paused"@,
    ];
    assert(w[0].len() == 7 && w[1].len() == 13 && w[2].len() == 12 && w[3].len() == 7);
    assert(w[4].len() == 16 && w[5].len() == 13 && w[6].len() == 6);
    assert(w[0][0] == 'S' && w[3][0] == 'R' && w[1][1] == 'T' && w[5][1] == 'A');
    assert(out[0].len() == 7 && out[1].len() == 13 && out[2].len() == 12 && out[3].len() == 7);
    assert(out[4].len() == 16 && out[5].len() == 13 && out[6].len() == 6);
    assert(out[0][0] == 's' && out[3][0] == 'r' && out[1][1] == 't' && out[5][1] == 'a');
    assert("unknown"@.len() == 7 && "unknown"@[0] == 'u');
    assert forall|i: int| 0 <= i < 7 implies state_from_upper(#[trigger] w[i]) == out[i] by {}
    if w.contains(u) {
        let i = choose|i: int| 0 <= i < w.len() && w[i] == u;
        assert(state_from_upper(w[i]) == out[i]);
        if w.contains(v) && u != v {
            let j = choose|j: int| 0 <= j < w.len() && w[j] == v;
            assert(state_from_upper(w[j]) == out[j]);
        }
    } else {
        assert(u != w[0] && u != w[1] && u != w[2] && u != w[3] && u != w[4] && u != w[5] && u != w[6]);
    }
}

} // verus!
