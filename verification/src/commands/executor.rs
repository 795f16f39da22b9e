//! The configuration of the command runners the collectors use: which
//! binaries each may start and how long a run may take. A runner refuses
//! any command that is not on its list.

use vstd::prelude::*;
use crate::text::{chars_eq, chars_of};

verus! {

/// Seconds a run of `reg.exe`, `sc.exe` or PowerShell may take.
pub const DEFAULT_COMMAND_TIMEOUT_SECS: u64 = 30;

/// A command runner's configuration: its timeout and the binaries it may
/// start, in the order they were allowed.
#[derive(Debug)]
pub struct CommandExecutor {
    timeout_secs: u64,
    allowed: Vec<String>,
}

impl CommandExecutor {
    /// The binaries this runner may start.
    pub closed spec fn allowed_view(&self) -> Seq<Seq<char>> {
        self.allowed@.map_values(|s: String| s@)
    }

    /// The timeout, in seconds.
    pub closed spec fn timeout_view(&self) -> u64 {
        self.timeout_secs
    }

    /// A runner with the given timeout that may start nothing yet.
    pub fn with_timeout(timeout_secs: u64) -> (res: Self)
        ensures
            res.timeout_view() == timeout_secs,
            res.allowed_view() == Seq::<Seq<char>>::empty(),
    {
        let res = CommandExecutor { timeout_secs, allowed: Vec::new() };
        assert(res.allowed_view() =~= Seq::<Seq<char>>::empty());
        res
    }

    /// Allows the runner to start `command`.
    pub fn allow_command(&mut self, command: &str)
        ensures
            final(self).allowed_view() == old(self).allowed_view().push(command@),
            final(self).timeout_view() == old(self).timeout_view(),
    {
        let ghost before = self.allowed_view();
        self.allowed.push(command.to_string());
        assert(self.allowed_view() =~= before.push(command@));
    }

    /// Whether the runner may start `command`: it was allowed, as written.
    pub fn is_allowed(&self, command: &str) -> (res: bool)
        ensures
            res == self.allowed_view().contains(command@),
    {
        let c = chars_of(command);
        let mut i: usize = 0;
        while i < self.allowed.len()
            invariant
                i <= self.allowed@.len(),
                c@ == command@,
                forall|j: int| 0 <= j < i ==> self.allowed@[j]@ != command@,
            decreases self.allowed.len() - i,
        {
            if chars_eq(&chars_of(self.allowed[i].as_str()), &c) {
                assert(self.allowed_view()[i as int] == command@);
                return true;
            }
            i = i + 1;
        }
        assert forall|j: int| 0 <= j < self.allowed_view().len() implies self.allowed_view()[j]
            != command@ by {
            assert(self.allowed_view()[j] == self.allowed@[j]@);
        }
        false
    }

    /// The timeout, in seconds.
    pub fn timeout_secs(&self) -> (res: u64)
        ensures
            res == self.timeout_view(),
    {
        self.timeout_secs
    }
}

/// A runner with this timeout allowed to start exactly these binaries.
fn executor_for(timeout_secs: u64, paths: &[&str]) -> (res: CommandExecutor)
    ensures
        res.timeout_view() == timeout_secs,
        res.allowed_view() == paths@.map_values(|p: &str| p@),
{
    let mut e = CommandExecutor::with_timeout(timeout_secs);
    let mut i: usize = 0;
    while i < paths.len()
        invariant
            i <= paths@.len(),
            e.timeout_view() == timeout_secs,
            e.allowed_view() == paths@.take(i as int).map_values(|p: &str| p@),
        decreases paths.len() - i,
    {
        e.allow_command(paths[i]);
        assert(paths@.take(i + 1).map_values(|p: &str| p@) =~= paths@.take(i as int).map_values(
            |p: &str| p@,
        ).push(paths@[i as int]@));
        i = i + 1;
    }
    assert(paths@.take(paths@.len() as int) =~= paths@);
    e
}

/// The binaries the `reg.exe` runner may start.
pub open spec fn reg_paths() -> Seq<Seq<char>> {
    seq!["reg"@, "reg.exe"@, "C:\\Windows\\System32\\reg.exe"@]
}

/// The binaries the `sc.exe` runner may start.
pub open spec fn sc_paths() -> Seq<Seq<char>> {
    seq!["sc.exe"@, "C:\\Windows\\System32\\sc.exe"@]
}

/// The binaries the PowerShell runner may start (Windows PowerShell 5.1,
/// which is always present).
pub open spec fn powershell_paths() -> Seq<Seq<char>> {
    seq![
        "powershell"@,
        "powershell.exe"@,
        "C:\\Windows\\System32\\WindowsPowerShell\\v1.0\\powershell.exe"@,
    ]
}

/// The runner for `reg.exe` queries.
pub fn create_reg_executor() -> (res: CommandExecutor)
    ensures
        res.timeout_view() == DEFAULT_COMMAND_TIMEOUT_SECS,
        res.allowed_view() == reg_paths(),
{
    let paths: [&str; 3] = ["reg", "reg.exe", "C:\\Windows\\System32\\reg.exe"];
    let e = executor_for(DEFAULT_COMMAND_TIMEOUT_SECS, &paths);
    assert(e.allowed_view() =~= reg_paths());
    e
}

/// The runner for `sc.exe` queries.
pub fn create_sc_executor() -> (res: CommandExecutor)
    ensures
        res.timeout_view() == DEFAULT_COMMAND_TIMEOUT_SECS,
        res.allowed_view() == sc_paths(),
{
    let paths: [&str; 2] = ["sc.exe", "C:\\Windows\\System32\\sc.exe"];
    let e = executor_for(DEFAULT_COMMAND_TIMEOUT_SECS, &paths);
    assert(e.allowed_view() =~= sc_paths());
    e
}

/// The runner for PowerShell commands.
pub fn create_powershell_executor() -> (res: CommandExecutor)
    ensures
        res.timeout_view() == DEFAULT_COMMAND_TIMEOUT_SECS,
        res.allowed_view() == powershell_paths(),
{
    let paths: [&str; 3] = [
        "powershell",
        "powershell.exe",
        "C:\\Windows\\System32\\WindowsPowerShell\\v1.0\\powershell.exe",
    ];
    let e = executor_for(DEFAULT_COMMAND_TIMEOUT_SECS, &paths);
    assert(e.allowed_view() =~= powershell_paths());
    e
}

/// The binaries the `kubectl` runner may start.
pub open spec fn kubectl_paths() -> Seq<Seq<char>> {
    seq!["kubectl"@, "/usr/local/bin/kubectl"@, "/usr/bin/kubectl"@]
}

/// The runner for Kubernetes queries: `kubectl` on the path or in its
/// usual places, with 30 seconds per run, since API calls can be slower
/// than local commands.
pub fn create_k8s_command_executor() -> (res: CommandExecutor)
    ensures
        res.timeout_view() == 30,
        res.allowed_view() == kubectl_paths(),
{
    let paths: [&str; 3] = ["kubectl", "/usr/local/bin/kubectl", "/usr/bin/kubectl"];
    let e = executor_for(30, &paths);
    assert(e.allowed_view() =~= kubectl_paths());
    e
}

/// A runner starts only what it was allowed to: after allowing a binary it
/// may start that binary, and whatever it may start it could start before
/// or is that binary.
pub proof fn law_allow_then_allowed(e: CommandExecutor, command: Seq<char>, other: Seq<char>)
    ensures
        e.allowed_view().push(command).contains(command),
        e.allowed_view().push(command).contains(other) <==> (e.allowed_view().contains(other)
            || other == command),
{
    let before = e.allowed_view();
    assert(before.push(command)[before.len() as int] == command);
    if before.push(command).contains(other) {
        let j = choose|j: int| 0 <= j < before.push(command).len() && before.push(command)[j] == other;
        if j < before.len() {
            assert(before[j] == other);
        }
    }
    if before.contains(other) {
        let j = choose|j: int| 0 <= j < before.len() && before[j] == other;
        assert(before.push(command)[j] == other);
    }
}

} // verus!
