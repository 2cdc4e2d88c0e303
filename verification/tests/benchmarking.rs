use filesort::BenchmarkDecision;
use filesort::benchmark_decision;
use filesort::create_file_plan;
use filesort::extension_table;
use filesort::lookup;
use filesort::random_extension;

#[test]
fn benchmark_runs_only_in_an_empty_directory() {
    assert!(matches!(benchmark_decision(0), BenchmarkDecision::Run));
    assert!(matches!(benchmark_decision(1), BenchmarkDecision::Refuse));
    assert!(matches!(benchmark_decision(5000), BenchmarkDecision::Refuse));
}

#[test]
fn random_extension_is_a_table_extension() {
    let table = extension_table();
    for _ in 0..100 {
        let ext = random_extension();
        assert!(lookup(&table, ext).is_some());
    }
}

#[test]
fn create_file_plan_counts() {
    assert!(create_file_plan(0).is_empty());
    assert!(create_file_plan(1).is_empty());
    assert_eq!(create_file_plan(2).len(), 1);
    assert_eq!(create_file_plan(100).len(), 99);
}

#[test]
fn create_file_plan_names_are_numbered_table_files() {
    let table = extension_table();
    let names = create_file_plan(25);
    for (i, name) in names.iter().enumerate() {
        let (stem, ext) = name.split_once('.').expect("a dot in each generated name");
        assert_eq!(stem, (i + 1).to_string());
        assert!(lookup(&table, ext).is_some());
    }
}
