//! Configuration of a scan run and the tally of its results.

use vstd::prelude::*;

verus! {

/// Output format for scan results.
#[derive(Clone, Copy, PartialEq, Eq, Structural, Debug)]
pub enum OutputFormat {
    /// Summary only (minimal JSON)
    Summary,
    /// Full results with findings and evidence
    Full,
    /// Attestation format (CUI-free)
    Attestation,
    /// Assessor package with full reproducibility info
    Assessor,
}

pub open spec fn format_filename(f: OutputFormat) -> Seq<char> {
    match f {
        OutputFormat::Summary => "summary.json"@,
        OutputFormat::Full => "results.json"@,
        OutputFormat::Attestation => "attestation.json"@,
        OutputFormat::Assessor => "assessor_package.json"@,
    }
}

pub open spec fn format_name(f: OutputFormat) -> Seq<char> {
    match f {
        OutputFormat::Summary => "summary"@,
        OutputFormat::Full => "full"@,
        OutputFormat::Attestation => "attestation"@,
        OutputFormat::Assessor => "assessor"@,
    }
}

impl OutputFormat {
    /// The default output filename for this format.
    pub fn default_filename(&self) -> (res: &'static str)
        ensures
            res@ == format_filename(*self),
    {
        match self {
            OutputFormat::Summary => "summary.json",
            OutputFormat::Full => "results.json",
            OutputFormat::Attestation => "attestation.json",
            OutputFormat::Assessor => "assessor_package.json",
        }
    }

    /// The name the format is given on the command line and in messages.
    pub fn name(&self) -> (res: &'static str)
        ensures
            res@ == format_name(*self),
    {
        match self {
            OutputFormat::Summary => "summary",
            OutputFormat::Full => "full",
            OutputFormat::Attestation => "attestation",
            OutputFormat::Assessor => "assessor",
        }
    }
}

/// Configuration for a scan run.
#[derive(Debug)]
pub struct ScanConfig {
    /// Input path (file or directory)
    pub input_path: String,
    /// Output file path (`None` means console-only output)
    pub output_file: Option<String>,
    /// Output format
    pub output_format: OutputFormat,
    /// Suppress progress output
    pub quiet: bool,
}

/// How the scan of one policy file ended.
#[derive(Clone, Copy, PartialEq, Eq, Structural, Debug)]
pub enum FileOutcome {
    /// The policy's criteria tree passed
    Passed,
    /// The policy's criteria tree failed
    Failed,
    /// The file could not be scanned
    Error,
}

/// Result of a scan run.
#[derive(Debug)]
pub struct ScanSummary {
    /// Total files scanned
    pub total_files: usize,
    /// Policies that passed
    pub passed: usize,
    /// Policies that failed
    pub failed: usize,
    /// Files that had errors
    pub errors: usize,
    /// Total scan duration, in milliseconds
    pub duration_ms: u64,
}

/// The exit code a summary calls for: 2 when a file had an error, else 1
/// when a policy failed, else 0.
pub open spec fn exit_code_of(errors: nat, failed: nat) -> i32 {
    if errors > 0 {
        2
    } else if failed > 0 {
        1
    } else {
        0
    }
}

/// How many of `outcomes` are `o`.
pub open spec fn count_outcome(outcomes: Seq<FileOutcome>, o: FileOutcome) -> nat
    decreases outcomes.len(),
{
    if outcomes.len() == 0 {
        0
    } else {
        count_outcome(outcomes.drop_last(), o) + if outcomes.last() == o {
            1nat
        } else {
            0nat
        }
    }
}

impl ScanSummary {
    /// A summary of `total_files` files, none of them scanned yet.
    pub fn new(total_files: usize) -> (res: Self)
        ensures
            res.total_files == total_files,
            res.passed == 0,
            res.failed == 0,
            res.errors == 0,
            res.duration_ms == 0,
    {
        ScanSummary { total_files, passed: 0, failed: 0, errors: 0, duration_ms: 0 }
    }

    /// Counts the outcome of one more file.
    pub fn record(&mut self, outcome: FileOutcome)
        requires
            old(self).passed < usize::MAX,
            old(self).failed < usize::MAX,
            old(self).errors < usize::MAX,
        ensures
            final(self).total_files == old(self).total_files,
            final(self).duration_ms == old(self).duration_ms,
            final(self).passed == old(self).passed + if outcome == FileOutcome::Passed {
                1int
            } else {
                0int
            },
            final(self).failed == old(self).failed + if outcome == FileOutcome::Failed {
                1int
            } else {
                0int
            },
            final(self).errors == old(self).errors + if outcome == FileOutcome::Error {
                1int
            } else {
                0int
            },
    {
        match outcome {
            FileOutcome::Passed => self.passed = self.passed + 1,
            FileOutcome::Failed => self.failed = self.failed + 1,
            FileOutcome::Error => self.errors = self.errors + 1,
        }
    }

    /// The exit code for the run: 2 on any error, 1 on any failed policy,
    /// 0 when every policy passed.
    pub fn exit_code(&self) -> (res: i32)
        ensures
            res == exit_code_of(self.errors as nat, self.failed as nat),
    {
        if self.errors > 0 {
            2
        } else if self.failed > 0 {
            1
        } else {
            0
        }
    }
}

/// The summary of a run over `outcomes`, one per scanned file.
pub fn tally_outcomes(outcomes: &[FileOutcome]) -> (res: ScanSummary)
    ensures
        res.total_files == outcomes@.len(),
        res.passed == count_outcome(outcomes@, FileOutcome::Passed),
        res.failed == count_outcome(outcomes@, FileOutcome::Failed),
        res.errors == count_outcome(outcomes@, FileOutcome::Error),
        res.duration_ms == 0,
{
    let mut summary = ScanSummary::new(outcomes.len());
    let mut i: usize = 0;
    while i < outcomes.len()
        invariant
            i <= outcomes@.len(),
            summary.total_files == outcomes@.len(),
            summary.duration_ms == 0,
            summary.passed == count_outcome(outcomes@.take(i as int), FileOutcome::Passed),
            summary.failed == count_outcome(outcomes@.take(i as int), FileOutcome::Failed),
            summary.errors == count_outcome(outcomes@.take(i as int), FileOutcome::Error),
        decreases outcomes.len() - i,
    {
        proof {
            lemma_count_outcome_bound(outcomes@.take(i as int), FileOutcome::Passed);
            lemma_count_outcome_bound(outcomes@.take(i as int), FileOutcome::Failed);
            lemma_count_outcome_bound(outcomes@.take(i as int), FileOutcome::Error);
            assert(outcomes@.take(i + 1).drop_last() =~= outcomes@.take(i as int));
        }
        summary.record(outcomes[i]);
        i = i + 1;
    }
    assert(outcomes@.take(outcomes@.len() as int) =~= outcomes@);
    summary
}

pub proof fn lemma_count_outcome_bound(outcomes: Seq<FileOutcome>, o: FileOutcome)
    ensures
        count_outcome(outcomes, o) <= outcomes.len(),
    decreases outcomes.len(),
{
    if outcomes.len() > 0 {
        lemma_count_outcome_bound(outcomes.drop_last(), o);
    }
}

/// Every scanned file is counted exactly once: passed, failed or in error.
pub proof fn law_outcomes_partition(outcomes: Seq<FileOutcome>)
    ensures
        count_outcome(outcomes, FileOutcome::Passed) + count_outcome(outcomes, FileOutcome::Failed)
            + count_outcome(outcomes, FileOutcome::Error) == outcomes.len(),
    decreases outcomes.len(),
{
    if outcomes.len() > 0 {
        law_outcomes_partition(outcomes.drop_last());
    }
}

/// The exit code is 0 exactly when every scanned policy passed, 1 when
/// some policy failed and no file had an error, and 2 when a file had an
/// error.
pub proof fn law_exit_code_meaning(outcomes: Seq<FileOutcome>)
    ensures
        exit_code_of(
            count_outcome(outcomes, FileOutcome::Error),
            count_outcome(outcomes, FileOutcome::Failed),
        ) == 0 <==> (forall|i: int| 0 <= i < outcomes.len() ==> outcomes[i] == FileOutcome::Passed),
        exit_code_of(
            count_outcome(outcomes, FileOutcome::Error),
            count_outcome(outcomes, FileOutcome::Failed),
        ) == 2 <==> (exists|i: int| 0 <= i < outcomes.len() && outcomes[i] == FileOutcome::Error),
    decreases outcomes.len(),
{
    lemma_count_positive(outcomes, FileOutcome::Error);
    lemma_count_positive(outcomes, FileOutcome::Failed);
    if (forall|i: int| 0 <= i < outcomes.len() ==> outcomes[i] == FileOutcome::Passed) {
    } else {
        let i = choose|i: int| 0 <= i < outcomes.len() && outcomes[i] != FileOutcome::Passed;
        assert(outcomes[i] == FileOutcome::Failed || outcomes[i] == FileOutcome::Error);
    }
}

/// A count is positive exactly when the outcome occurs.
pub proof fn lemma_count_positive(outcomes: Seq<FileOutcome>, o: FileOutcome)
    ensures
        count_outcome(outcomes, o) > 0 <==> (exists|i: int|
            0 <= i < outcomes.len() && outcomes[i] == o),
    decreases outcomes.len(),
{
    if outcomes.len() > 0 {
        let init = outcomes.drop_last();
        lemma_count_positive(init, o);
        if exists|i: int| 0 <= i < init.len() && init[i] == o {
            let i = choose|i: int| 0 <= i < init.len() && init[i] == o;
            assert(outcomes[i] == o);
        }
        if exists|i: int| 0 <= i < outcomes.len() && outcomes[i] == o {
            let i = choose|i: int| 0 <= i < outcomes.len() && outcomes[i] == o;
            if i < init.len() {
                assert(init[i] == o);
            }
        }
    }
}

} // verus!
