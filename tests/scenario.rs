use loadgen::config::{ErrorKind, LoadError, LoadTests, LoadZenario, Test};
use loadgen::cpu::CpuKernel;
use loadgen::registry::{plan_test, resolve, GeneratorKind, Workload};
use loadgen::scenario::{entry_duration_secs, plan_entry, plan_scenario, EntryPlan, ScenarioReport};

fn test(name: &str, test_type: &str) -> Test {
    Test {
        name: name.to_string(),
        test_type: test_type.to_string(),
        duration: None,
        operation: None,
        description: None,
        file_path: None,
        data_size: None,
    }
}

fn gpu(name: &str, secs: u64) -> Test {
    Test { duration: Some(secs), ..test(name, "gpu") }
}

#[test]
fn unknown_type_fails_alone_and_later_entry_runs() {
    let a = test("a", "bogus");
    let b = Test { duration: Some(1), operation: Some("k1".to_string()), ..test("b", "cpu") };
    let scenario = LoadTests { load_zenario: vec![LoadZenario::Test(a), LoadZenario::Test(b)] };
    let plans = plan_scenario(&scenario);
    assert_eq!(plans.len(), 2);

    let mut report = ScenarioReport::new();
    match &plans[0] {
        EntryPlan::Rejected(fs) => {
            assert_eq!(fs.len(), 1);
            assert_eq!(fs[0].name, "a");
            assert_eq!(fs[0].error.kind(), ErrorKind::UnknownTestType);
            report.record_rejected(fs.clone());
        }
        other => panic!("expected a rejection, got {:?}", other),
    }
    match &plans[1] {
        EntryPlan::Single(p) => {
            assert_eq!(p.name, "b");
            assert_eq!(p.duration_secs, 1);
            match &p.workload {
                Workload::Cpu(k) => {
                    assert_eq!(*k, CpuKernel::Int24);
                    assert!(k.run().is_ok());
                }
                other => panic!("expected a CPU workload, got {:?}", other),
            }
            report.record_outcome(p.name.clone(), Ok(()));
        }
        other => panic!("expected a single test, got {:?}", other),
    }
    assert_eq!(report.failures.len(), 1);
    assert_eq!(report.failures[0].name, "a");
    assert!(!report.succeeded());
    assert_eq!(report.exit_code(), 1);
}

#[test]
fn group_lasts_as_long_as_its_longest_member() {
    let group = LoadZenario::ParallelGroup { parallel_group: vec![gpu("x", 2), gpu("y", 5), gpu("z", 3)] };
    let plan = plan_entry(&group);
    match &plan {
        EntryPlan::Group(ps) => {
            assert_eq!(ps.len(), 3);
            assert_eq!(ps[1].name, "y");
        }
        other => panic!("expected a group, got {:?}", other),
    }
    assert_eq!(entry_duration_secs(&plan), 5);
}

#[test]
fn group_with_an_invalid_member_is_rejected_whole() {
    let group = LoadZenario::ParallelGroup {
        parallel_group: vec![gpu("ok", 2), test("bad", "cpu"), test("worse", "tape")],
    };
    let plan = plan_entry(&group);
    match &plan {
        EntryPlan::Rejected(fs) => {
            assert_eq!(fs.len(), 2);
            assert_eq!(fs[0].name, "bad");
            assert!(matches!(&fs[0].error, LoadError::MissingField(f) if f == "duration"));
            assert_eq!(fs[1].name, "worse");
            assert!(matches!(&fs[1].error, LoadError::UnknownTestType(t) if t == "tape"));
        }
        other => panic!("expected a rejection, got {:?}", other),
    }
    assert_eq!(entry_duration_secs(&plan), 0);
}

#[test]
fn test_types_resolve_to_generators() {
    assert_eq!(resolve("cpu").unwrap(), GeneratorKind::Cpu);
    assert_eq!(resolve("disk").unwrap(), GeneratorKind::Disk);
    assert_eq!(resolve("ram").unwrap(), GeneratorKind::Ram);
    assert_eq!(resolve("gpu").unwrap(), GeneratorKind::Gpu);
    assert!(matches!(resolve("CPU"), Err(LoadError::UnknownTestType(t)) if t == "CPU"));
}

#[test]
fn missing_and_bad_fields_are_reported() {
    let cpu = Test { duration: Some(3), ..test("c", "cpu") };
    assert!(matches!(plan_test(&cpu), Err(LoadError::MissingField(f)) if f == "operation"));
    let cpu = Test { duration: Some(3), operation: Some("fft".to_string()), ..test("c", "cpu") };
    assert!(matches!(plan_test(&cpu), Err(LoadError::UnknownVariant(op)) if op == "fft"));
    let disk = Test { duration: Some(3), ..test("d", "disk") };
    assert!(matches!(plan_test(&disk), Err(LoadError::MissingField(f)) if f == "file_path"));
    let ram = Test { duration: Some(3), ..test("r", "ram") };
    assert!(matches!(plan_test(&ram), Err(LoadError::MissingField(f)) if f == "data_size"));
    let ram = Test { duration: Some(3), data_size: Some("lots".to_string()), ..test("r", "ram") };
    assert!(matches!(plan_test(&ram), Err(LoadError::ValidationFailure(f)) if f == "data_size"));
    let ram = Test { duration: Some(3), data_size: Some("99999999999999999".to_string()), ..test("r", "ram") };
    assert!(matches!(plan_test(&ram), Err(LoadError::ValidationFailure(f)) if f == "data_size"));
    let gpu_missing = test("g", "gpu");
    assert!(matches!(plan_test(&gpu_missing), Err(LoadError::MissingField(f)) if f == "duration"));
}

#[test]
fn valid_tests_become_plans() {
    let ram = Test { duration: Some(4), data_size: Some(" 2 ".to_string()), ..test("r", "ram") };
    let p = plan_test(&ram).unwrap();
    assert_eq!(p.duration_secs, 4);
    assert!(matches!(p.workload, Workload::Ram(2_097_152)));
    let disk = Test { duration: Some(0), file_path: Some("t.tmp".to_string()), ..test("d", "disk") };
    let p = plan_test(&disk).unwrap();
    assert!(matches!(&p.workload, Workload::Disk(path) if path == "t.tmp"));
    assert_eq!(p.duration_secs, 0);
}

#[test]
fn report_without_failures_succeeds() {
    let mut report = ScenarioReport::new();
    report.record_outcome("a".to_string(), Ok(()));
    assert!(report.succeeded());
    assert_eq!(report.exit_code(), 0);
    report.record_outcome("b".to_string(), Err(LoadError::IOFailure("disk full".to_string())));
    assert_eq!(report.exit_code(), 1);
    assert_eq!(report.failures[0].name, "b");
}
