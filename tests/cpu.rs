use loadgen::cpu::{generate_integer_load_2024, CPUError, CpuKernel};

#[test]
fn integer_load_has_exact_value() {
    assert_eq!(generate_integer_load_2024(), Ok(2_588_639_259_193));
}

#[test]
fn kernels_are_selected_by_name() {
    assert_eq!(CpuKernel::from_operation("int24"), Ok(CpuKernel::Int24));
    assert_eq!(CpuKernel::from_operation("k1"), Ok(CpuKernel::Int24));
    assert_eq!(
        CpuKernel::from_operation("float"),
        Err(CPUError::UnknownTestType("float".to_string()))
    );
    assert_eq!(
        CpuKernel::from_operation(""),
        Err(CPUError::UnknownTestType(String::new()))
    );
}
