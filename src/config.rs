//! The scenario as the parser hands it over, and the errors of a run.
use crate::ram::MemoryError;
use vstd::prelude::*;

verus! {

/// A whole scenario: its entries, in the order in which they run.
#[derive(Debug, Clone)]
pub struct LoadTests {
    pub load_zenario: Vec<LoadZenario>,
}

/// One scenario entry: a single test, or a group of tests run concurrently.
#[derive(Debug, Clone)]
pub enum LoadZenario {
    Test(Test),
    ParallelGroup { parallel_group: Vec<Test> },
}

/// One test as written in the scenario. Which optional fields are needed
/// depends on the test type.
#[derive(Debug, Clone)]
pub struct Test {
    pub name: String,
    pub test_type: String,
    pub duration: Option<u64>,
    pub operation: Option<String>,
    pub description: Option<String>,
    pub file_path: Option<String>,
    pub data_size: Option<String>,
}

/// The kinds of failure that a scenario entry can meet.
#[derive(Debug, Clone, Copy, PartialEq, Eq, Structural)]
pub enum ErrorKind {
    UnknownTestType,
    MissingField,
    UnknownVariant,
    ValidationFailure,
    IOFailure,
    VerificationFailure,
}

/// Why a test did not run, or did not finish.
#[derive(Debug, Clone)]
pub enum LoadError {
    /// No generator has this test type.
    UnknownTestType(String),
    /// The test lacks the field of this name, which its generator needs.
    MissingField(String),
    /// The operation names no variant of the generator.
    UnknownVariant(String),
    /// The field of this name holds a value that cannot be used.
    ValidationFailure(String),
    /// A file operation failed, as described.
    IOFailure(String),
    /// A memory check found a difference.
    VerificationFailure(MemoryError),
}

impl LoadError {
    pub open spec fn spec_kind(&self) -> ErrorKind {
        match self {
            LoadError::UnknownTestType(_) => ErrorKind::UnknownTestType,
            LoadError::MissingField(_) => ErrorKind::MissingField,
            LoadError::UnknownVariant(_) => ErrorKind::UnknownVariant,
            LoadError::ValidationFailure(_) => ErrorKind::ValidationFailure,
            LoadError::IOFailure(_) => ErrorKind::IOFailure,
            LoadError::VerificationFailure(_) => ErrorKind::VerificationFailure,
        }
    }

    /// The text that the error carries; empty for a memory difference.
    pub open spec fn spec_detail(&self) -> Seq<char> {
        match self {
            LoadError::UnknownTestType(s) => s@,
            LoadError::MissingField(s) => s@,
            LoadError::UnknownVariant(s) => s@,
            LoadError::ValidationFailure(s) => s@,
            LoadError::IOFailure(s) => s@,
            LoadError::VerificationFailure(_) => Seq::empty(),
        }
    }

    pub fn kind(&self) -> (r: ErrorKind)
        ensures
            r == self.spec_kind(),
    {
        match self {
            LoadError::UnknownTestType(_) => ErrorKind::UnknownTestType,
            LoadError::MissingField(_) => ErrorKind::MissingField,
            LoadError::UnknownVariant(_) => ErrorKind::UnknownVariant,
            LoadError::ValidationFailure(_) => ErrorKind::ValidationFailure,
            LoadError::IOFailure(_) => ErrorKind::IOFailure,
            LoadError::VerificationFailure(_) => ErrorKind::VerificationFailure,
        }
    }
}

} // verus!
