//! Errors of scanning one policy file.

use vstd::prelude::*;

verus! {

/// Why scanning a policy file failed.
#[derive(Debug)]
pub enum ScanError {
    /// The file could not be read
    IoError(String),
    /// The policy did not compile
    CompilationFailed(String),
    /// The compiled policy could not be converted for execution
    ConversionFailed(String),
    /// Variables or references could not be resolved
    ResolutionFailed(String),
    /// Execution failed
    ExecutionFailed(String),
    /// The strategy registry failed
    RegistryError(String),
}

impl ScanError {
    /// The error as a message.
    pub fn message(&self) -> (res: String)
        ensures
            res@ == match self {
                ScanError::IoError(m) => "I/O error: "@ + m@,
                ScanError::CompilationFailed(m) => "Compilation failed: "@ + m@,
                ScanError::ConversionFailed(m) => "AST conversion failed: "@ + m@,
                ScanError::ResolutionFailed(m) => "Resolution failed: "@ + m@,
                ScanError::ExecutionFailed(m) => "Execution failed: "@ + m@,
                ScanError::RegistryError(m) => "Registry error: "@ + m@,
            },
    {
        proof {
            reveal_strlit("");
        }
        let (head, m) = match self {
            ScanError::IoError(m) => ("I/O error: ", m),
            ScanError::CompilationFailed(m) => ("Compilation failed: ", m),
            ScanError::ConversionFailed(m) => ("AST conversion failed: ", m),
            ScanError::ResolutionFailed(m) => ("Resolution failed: ", m),
            ScanError::ExecutionFailed(m) => ("Execution failed: ", m),
            ScanError::RegistryError(m) => ("Registry error: ", m),
        };
        crate::model::concat3(head, m.as_str(), "")
    }
}

} // verus!
