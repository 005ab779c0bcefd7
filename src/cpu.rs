//! The CPU generator: a fixed amount of integer arithmetic per tick.
use vstd::prelude::*;

verus! {

pub const TARGET_ITERATIONS_PER_SEC: u64 = 1_000_000;

/// Why a CPU tick could not run.
#[derive(Debug, Clone, PartialEq, Eq)]
pub enum CPUError {
    TookTooLong,
    /// The operation names no arithmetic kernel.
    UnknownTestType(String),
    Other(String),
}

/// `i / 1 + i / 2 + ... + i / (x - 1)`.
pub open spec fn quotient_sum(i: nat, x: nat) -> nat
    decreases x,
{
    if x <= 1 {
        0
    } else {
        quotient_sum(i, (x - 1) as nat) + i / ((x - 1) as nat)
    }
}

/// The sum, over every iteration `i` below `n`, of `quotient_sum(i, 100)`.
pub open spec fn integer_load(n: nat) -> nat
    decreases n,
{
    if n == 0 {
        0
    } else {
        integer_load((n - 1) as nat) + quotient_sum((n - 1) as nat, 100)
    }
}

proof fn lemma_quotient_sum_bound(i: nat, x: nat)
    ensures
        quotient_sum(i, x) <= i * x,
    decreases x,
{
    if x > 1 {
        lemma_quotient_sum_bound(i, (x - 1) as nat);
        let y = (x - 1) as nat;
        assert(i / y <= i) by (nonlinear_arith)
            requires
                y >= 1,
        ;
        assert(i * y + i == i * x) by (nonlinear_arith)
            requires
                y + 1 == x,
        ;
    }
}

proof fn lemma_integer_load_bound(n: nat)
    requires
        n <= 1_000_000,
    ensures
        integer_load(n) <= n * 100_000_000,
    decreases n,
{
    if n > 0 {
        lemma_integer_load_bound((n - 1) as nat);
        lemma_quotient_sum_bound((n - 1) as nat, 100);
        let m = (n - 1) as nat;
        assert(m * 100 <= 100_000_000) by (nonlinear_arith)
            requires
                m < 1_000_000,
        ;
        assert(((n - 1) as nat) * 100_000_000 + 100_000_000 == n * 100_000_000) by (nonlinear_arith)
            requires
                n >= 1,
        ;
    }
}

/// One tick of integer load: `TARGET_ITERATIONS_PER_SEC` iterations, each
/// adding up the quotients of the iteration number by 1 to 99.
pub fn generate_integer_load_2024() -> (r: Result<u64, CPUError>)
    ensures
        r == Ok::<u64, CPUError>(integer_load(TARGET_ITERATIONS_PER_SEC as nat) as u64),
{
    let mut iterations: u64 = 0;
    let mut a: u64 = 0;
    while iterations < TARGET_ITERATIONS_PER_SEC
        invariant
            iterations <= TARGET_ITERATIONS_PER_SEC,
            a == integer_load(iterations as nat),
        decreases TARGET_ITERATIONS_PER_SEC - iterations,
    {
        let mut s: u64 = 0;
        let mut x: u64 = 1;
        while x < 100
            invariant
                1 <= x <= 100,
                iterations < TARGET_ITERATIONS_PER_SEC,
                s == quotient_sum(iterations as nat, x as nat),
            decreases 100 - x,
        {
            proof {
                lemma_quotient_sum_bound(iterations as nat, x as nat);
                assert(iterations * x <= 100_000_000) by (nonlinear_arith)
                    requires
                        iterations < 1_000_000,
                        x <= 100,
                ;
            }
            s = s + iterations / x;
            x = x + 1;
        }
        proof {
            lemma_integer_load_bound(iterations as nat + 1);
            assert((iterations as nat + 1) * 100_000_000 <= 100_000_000_000_000) by (nonlinear_arith)
                requires
                    iterations < 1_000_000,
            ;
        }
        a = a + s;
        iterations = iterations + 1;
    }
    Ok(a)
}

/// The arithmetic kernels that a CPU test can run.
#[derive(Debug, Clone, Copy, PartialEq, Eq, Structural)]
pub enum CpuKernel {
    /// The integer division load of `generate_integer_load_2024`.
    Int24,
}


/// The kernel that an operation name selects: `int24`, or `k1` as the
/// short name of the first kernel.
pub open spec fn kernel_named(op: Seq<char>) -> Option<CpuKernel> {
    if op == "int24"@ || op == "k1"@ {
        Some(CpuKernel::Int24)
    } else {
        None
    }
}

impl CpuKernel {
    /// Selects the kernel that `operation` names.
    pub fn from_operation(operation: &str) -> (r: Result<CpuKernel, CPUError>)
        ensures
            r matches Ok(k) ==> kernel_named(operation@) == Some(k),
            r is Err ==> (r matches Err(CPUError::UnknownTestType(s)) && s@ == operation@),
            r is Ok <==> kernel_named(operation@) is Some,
    {
        if crate::text::same_text(operation, "int24") || crate::text::same_text(operation, "k1") {
            Ok(CpuKernel::Int24)
        } else {
            Err(CPUError::UnknownTestType(String::from_str(operation)))
        }
    }

    /// One tick of this kernel's work; its result is the computed value.
    pub fn run(&self) -> (r: Result<u64, CPUError>)
        ensures
            r == Ok::<u64, CPUError>(integer_load(TARGET_ITERATIONS_PER_SEC as nat) as u64),
    {
        match self {
            CpuKernel::Int24 => generate_integer_load_2024(),
        }
    }
}

} // verus!
