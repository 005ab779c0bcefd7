//! Resolution of a test type to its generator, and validation of the
//! fields that the generator needs.
use crate::config::{ErrorKind, LoadError, Test};
use crate::cpu::{kernel_named, CpuKernel};
use crate::text::{parse_size, same_text, size_of_text};
use vstd::prelude::*;

verus! {

/// Bytes in one megabyte of a RAM test's data size.
pub const BYTES_PER_MB: usize = 1_048_576;

/// The generators that a test type can select.
#[derive(Debug, Clone, Copy, PartialEq, Eq, Structural)]
pub enum GeneratorKind {
    Cpu,
    Disk,
    Ram,
    Gpu,
}

/// The generator that a test type names.
pub open spec fn kind_named(t: Seq<char>) -> Option<GeneratorKind> {
    if t == "cpu"@ {
        Some(GeneratorKind::Cpu)
    } else if t == "disk"@ {
        Some(GeneratorKind::Disk)
    } else if t == "ram"@ {
        Some(GeneratorKind::Ram)
    } else if t == "gpu"@ {
        Some(GeneratorKind::Gpu)
    } else {
        None
    }
}

/// The work of one validated test, with what its generator needs.
#[derive(Debug, Clone)]
pub enum Workload {
    Cpu(CpuKernel),
    /// Writes to the file at this path, removed when the test ends.
    Disk(String),
    /// Checks a block of this many bytes.
    Ram(usize),
    Gpu,
}

/// A test that passed validation, ready to run.
#[derive(Debug, Clone)]
pub struct TestPlan {
    pub name: String,
    pub duration_secs: u64,
    pub workload: Workload,
}

/// The kind and text of the error that validating `t` for generator `k`
/// meets, or `None` when `t` carries all that `k` needs.
pub open spec fn field_error(t: Test, k: GeneratorKind) -> Option<(ErrorKind, Seq<char>)> {
    if t.duration is None {
        Some((ErrorKind::MissingField, "duration"@))
    } else {
        match k {
            GeneratorKind::Cpu => {
                if t.operation is None {
                    Some((ErrorKind::MissingField, "operation"@))
                } else if kernel_named(t.operation->0@) is None {
                    Some((ErrorKind::UnknownVariant, t.operation->0@))
                } else {
                    None
                }
            },
            GeneratorKind::Disk => {
                if t.file_path is None {
                    Some((ErrorKind::MissingField, "file_path"@))
                } else {
                    None
                }
            },
            GeneratorKind::Ram => {
                if t.data_size is None {
                    Some((ErrorKind::MissingField, "data_size"@))
                } else if size_of_text(t.data_size->0@) is None || size_of_text(t.data_size->0@)->0
                    * BYTES_PER_MB > usize::MAX {
                    Some((ErrorKind::ValidationFailure, "data_size"@))
                } else {
                    None
                }
            },
            GeneratorKind::Gpu => None,
        }
    }
}

/// The error that stops `t` from running, or `None` when it is valid.
pub open spec fn test_error(t: Test) -> Option<(ErrorKind, Seq<char>)> {
    match kind_named(t.test_type@) {
        None => Some((ErrorKind::UnknownTestType, t.test_type@)),
        Some(k) => field_error(t, k),
    }
}

/// `e` is the error described by `d`.
pub open spec fn error_is(e: LoadError, d: Option<(ErrorKind, Seq<char>)>) -> bool {
    d == Some((e.spec_kind(), e.spec_detail()))
}

/// `p` is the plan of the valid test `t`.
pub open spec fn plan_fits(p: TestPlan, t: Test) -> bool {
    &&& p.name@ == t.name@
    &&& t.duration == Some(p.duration_secs)
    &&& match p.workload {
        Workload::Cpu(kn) => kind_named(t.test_type@) == Some(GeneratorKind::Cpu) && kernel_named(
            t.operation->0@,
        ) == Some(kn),
        Workload::Disk(path) => kind_named(t.test_type@) == Some(GeneratorKind::Disk) && path@
            == t.file_path->0@,
        Workload::Ram(bytes) => kind_named(t.test_type@) == Some(GeneratorKind::Ram) && bytes
            == size_of_text(t.data_size->0@)->0 * BYTES_PER_MB,
        Workload::Gpu => kind_named(t.test_type@) == Some(GeneratorKind::Gpu),
    }
}

/// Resolves a test type to its generator.
pub fn resolve(test_type: &str) -> (r: Result<GeneratorKind, LoadError>)
    ensures
        r is Ok <==> kind_named(test_type@) is Some,
        r matches Ok(k) ==> kind_named(test_type@) == Some(k),
        r matches Err(e) ==> error_is(e, Some((ErrorKind::UnknownTestType, test_type@))),
{
    if same_text(test_type, "cpu") {
        Ok(GeneratorKind::Cpu)
    } else if same_text(test_type, "disk") {
        Ok(GeneratorKind::Disk)
    } else if same_text(test_type, "ram") {
        Ok(GeneratorKind::Ram)
    } else if same_text(test_type, "gpu") {
        Ok(GeneratorKind::Gpu)
    } else {
        Err(LoadError::UnknownTestType(String::from_str(test_type)))
    }
}


/// Checks that `spec` carries every field that generator `kind` needs, and
/// builds its plan.
pub fn validate(spec: &Test, kind: GeneratorKind) -> (r: Result<TestPlan, LoadError>)
    requires
        kind_named(spec.test_type@) == Some(kind),
    ensures
        r is Ok <==> field_error(*spec, kind) is None,
        r matches Ok(p) ==> plan_fits(p, *spec),
        r matches Err(e) ==> error_is(e, field_error(*spec, kind)),
{
    let duration_secs = match spec.duration {
        Some(d) => d,
        None => return Err(LoadError::MissingField(String::from_str("duration"))),
    };
    let workload = match kind {
        GeneratorKind::Cpu => match &spec.operation {
            None => return Err(LoadError::MissingField(String::from_str("operation"))),
            Some(op) => match CpuKernel::from_operation(op.as_str()) {
                Ok(k) => Workload::Cpu(k),
                Err(_) => return Err(LoadError::UnknownVariant(op.clone())),
            },
        },
        GeneratorKind::Disk => match &spec.file_path {
            None => return Err(LoadError::MissingField(String::from_str("file_path"))),
            Some(path) => Workload::Disk(path.clone()),
        },
        GeneratorKind::Ram => match &spec.data_size {
            None => return Err(LoadError::MissingField(String::from_str("data_size"))),
            Some(text) => match parse_size(text.as_str()) {
                None => return Err(LoadError::ValidationFailure(String::from_str("data_size"))),
                Some(mb) => {
                    if mb > usize::MAX / BYTES_PER_MB {
                        assert(mb * BYTES_PER_MB > usize::MAX) by (nonlinear_arith)
                            requires
                                mb > usize::MAX / BYTES_PER_MB,
                        ;
                        return Err(LoadError::ValidationFailure(String::from_str("data_size")));
                    }
                    assert(mb * BYTES_PER_MB <= usize::MAX) by (nonlinear_arith)
                        requires
                            mb <= usize::MAX / BYTES_PER_MB,
                    ;
                    Workload::Ram(mb * BYTES_PER_MB)
                },
            },
        },
        GeneratorKind::Gpu => Workload::Gpu,
    };
    Ok(TestPlan { name: spec.name.clone(), duration_secs, workload })
}

/// Resolves and validates one test.
pub fn plan_test(spec: &Test) -> (r: Result<TestPlan, LoadError>)
    ensures
        r is Ok <==> test_error(*spec) is None,
        r matches Ok(p) ==> plan_fits(p, *spec),
        r matches Err(e) ==> error_is(e, test_error(*spec)),
{
    let kind = resolve(spec.test_type.as_str())?;
    validate(spec, kind)
}

} // verus!
