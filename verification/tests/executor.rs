use licensebat::check::{run, EmptyRetriever, Retriever};
use licensebat::cli::{Cli, OutputFormat, DEFAULT_LICRC_FILE};
use licensebat::collector::js::retrieve_from_npm;
use licensebat::collector::Resolution;
use licensebat::dependency::{Dependency, RetrievedDependency};
use licensebat::executor::{Executor, Step};
use licensebat::licrc::{LicRc, LicRcBehavior, LicRcDependencies, LicRcLicenses};

fn policy(bound: Option<usize>) -> LicRc {
    LicRc {
        licenses: LicRcLicenses { accepted: Some(vec!["MIT".to_string()]), unaccepted: None },
        dependencies: LicRcDependencies {
            ignored: Some(vec!["d3".to_string()]),
            ignore_dev_dependencies: false,
            ignore_optional_dependencies: false,
        },
        behavior: LicRcBehavior { retriever_buffer_size: bound, ..LicRcBehavior::default() },
    }
}

fn record(name: &str, license: &str) -> RetrievedDependency {
    RetrievedDependency::new(
        name.to_string(),
        "1".to_string(),
        "npm".to_string(),
        None,
        Some(vec![license.to_string()]),
        None,
        None,
        None,
        None,
        None,
    )
}

fn lookups(n: usize) -> Vec<Resolution> {
    (0..n).map(|i| Resolution::Retrieve(Dependency::new(&format!("d{}", i), "1"))).collect()
}

/// Runs the executor to its end. Of the lookups under way, the one at the
/// place `pick(how many are under way)` ends next.
fn drive(tasks: Vec<Resolution>, bound: usize, pick: &dyn Fn(usize) -> usize) -> (Vec<RetrievedDependency>, usize) {
    let mut executor = Executor::new(policy(None), tasks, bound);
    let mut under_way: Vec<(usize, Dependency)> = Vec::new();
    let mut most = 0;
    loop {
        assert_eq!(executor.in_flight(), under_way.len());
        assert!(under_way.len() <= bound);
        most = most.max(under_way.len());
        match executor.step() {
            Step::Start { ticket, dependency } => under_way.push((ticket, dependency)),
            Step::Yielded => {}
            Step::Wait => {
                assert!(!under_way.is_empty());
                let (ticket, dependency) = under_way.remove(pick(under_way.len()));
                assert!(executor.complete(ticket, record(&dependency.name, "MIT")));
                assert!(!executor.complete(ticket, record(&dependency.name, "MIT")));
            }
            Step::Stalled => panic!("stalled"),
            Step::Finished => break,
        }
    }
    assert!(executor.is_finished());
    assert!(under_way.is_empty());
    (executor.into_records(), most)
}

#[test]
fn every_dependency_yields_one_record_whatever_the_bound() {
    for n in [0usize, 1, 2, 5, 17] {
        for bound in 1..=(n.max(1) + 2) {
            let picks: [&dyn Fn(usize) -> usize; 3] = [&|_: usize| 0usize, &|k: usize| k - 1, &|k: usize| k / 2];
            for pick in picks {
                let (records, most) = drive(lookups(n), bound, pick);
                assert_eq!(records.len(), n);
                let mut names: Vec<String> = records.iter().map(|r| r.name.clone()).collect();
                names.sort();
                names.dedup();
                assert_eq!(names.len(), n);
                assert!(records.iter().all(|r| r.validated));
                assert!(most <= bound);
                assert_eq!(most, bound.min(n));
            }
        }
    }
}

#[test]
fn records_come_in_the_order_in_which_lookups_end() {
    let (records, _) = drive(lookups(4), 4, &|k| k - 1);
    let names: Vec<&str> = records.iter().map(|r| r.name.as_str()).collect();
    assert_eq!(names, vec!["d3", "d2", "d1", "d0"]);
    let (records, _) = drive(lookups(4), 2, &|k| k - 1);
    let names: Vec<&str> = records.iter().map(|r| r.name.as_str()).collect();
    assert_eq!(names, vec!["d1", "d2", "d3", "d0"]);
    let (records, _) = drive(lookups(4), 1, &|k| k - 1);
    let names: Vec<&str> = records.iter().map(|r| r.name.as_str()).collect();
    assert_eq!(names, vec!["d0", "d1", "d2", "d3"]);
}

#[test]
fn records_are_validated_as_they_arrive() {
    let mut executor = Executor::new(policy(None), lookups(4), 10);
    let mut tickets = Vec::new();
    loop {
        match executor.step() {
            Step::Start { ticket, dependency } => tickets.push((ticket, dependency)),
            Step::Wait => break,
            other => panic!("{:?}", other),
        }
    }
    assert_eq!(tickets.len(), 4);
    assert_eq!(tickets[2].0, 2);
    assert_eq!(tickets[2].1, Dependency::new("d2", "1"));
    assert!(executor.complete(0, record("d0", "MIT")));
    assert!(executor.complete(1, record("d1", "GPL-3.0")));
    assert!(executor.complete(3, record("d3", "GPL-3.0")));
    assert!(!executor.is_finished());
    assert_eq!(executor.step(), Step::Wait);
    assert!(executor.complete(2, RetrievedDependency::new("d2".into(), "1".into(), "npm".into(), None, None, None, None, None, None, None)));
    assert_eq!(executor.step(), Step::Finished);
    assert_eq!(executor.step(), Step::Finished);
    let records = executor.into_records();
    assert_eq!(records.len(), 4);
    assert!(records[0].is_valid && records[0].validated && !records[0].is_ignored);
    assert!(!records[1].is_valid && records[1].validated);
    assert_eq!(records[1].error, Some("Not compliant".to_string()));
    assert!(records[2].is_ignored && records[2].is_valid);
    assert_eq!(records[2].name, "d3");
    assert!(!records[3].is_valid && records[3].validated);
    assert_eq!(records[3].error, Some("No License".to_string()));
}

#[test]
fn unknown_tickets_change_nothing() {
    let mut executor = Executor::new(policy(None), lookups(2), 1);
    assert!(!executor.complete(0, record("d0", "MIT")));
    assert!(matches!(executor.step(), Step::Start { ticket: 0, .. }));
    assert_eq!(executor.step(), Step::Wait);
    assert!(!executor.complete(1, record("d1", "MIT")));
    assert!(!executor.complete(7, record("d7", "MIT")));
    assert_eq!(executor.in_flight(), 1);
    assert!(executor.complete(0, record("d0", "MIT")));
    assert!(!executor.complete(0, record("d0", "MIT")));
    assert!(matches!(executor.step(), Step::Start { ticket: 1, .. }));
    assert!(executor.complete(1, record("d1", "MIT")));
    assert_eq!(executor.step(), Step::Finished);
    assert_eq!(executor.into_records().len(), 2);
}

#[test]
fn known_records_need_no_slot() {
    let tasks = vec![
        Resolution::Resolved(record("known", "GPL-3.0")),
        Resolution::Retrieve(Dependency::new("d1", "1")),
        Resolution::Resolved(record("d3", "GPL-3.0")),
    ];
    let mut executor = Executor::new(policy(None), tasks.clone(), 1);
    assert_eq!(executor.step(), Step::Yielded);
    assert!(matches!(executor.step(), Step::Start { ticket: 1, .. }));
    assert_eq!(executor.step(), Step::Yielded);
    assert_eq!(executor.step(), Step::Wait);
    assert!(executor.complete(1, record("d1", "MIT")));
    assert_eq!(executor.step(), Step::Finished);
    let records = executor.into_records();
    assert_eq!(records.len(), 3);
    assert_eq!(records[0].name, "known");
    assert!(!records[0].is_valid && records[0].validated);
    assert_eq!(records[1].name, "d3");
    assert!(records[1].is_ignored && records[1].validated);
    assert_eq!(records[2].name, "d1");

    let mut never = Executor::new(policy(None), vec![tasks[0].clone(), tasks[2].clone()], 0);
    assert_eq!(never.step(), Step::Yielded);
    assert_eq!(never.step(), Step::Yielded);
    assert_eq!(never.step(), Step::Finished);
    assert_eq!(never.into_records().len(), 2);
}

#[test]
fn bound_of_zero_stalls() {
    let mut executor = Executor::new(policy(None), lookups(2), 0);
    assert_eq!(executor.step(), Step::Stalled);
    assert_eq!(executor.step(), Step::Stalled);
    assert!(!executor.is_finished());
    assert_eq!(executor.in_flight(), 0);
    assert_eq!(executor.into_records().len(), 0);
}

#[test]
fn empty_run_is_finished_at_once() {
    let mut executor = Executor::new(policy(None), vec![], 3);
    assert!(executor.is_finished());
    assert_eq!(executor.step(), Step::Finished);
    assert_eq!(executor.into_records(), vec![]);
}

#[test]
fn empty_retriever_knows_name_and_version_only() {
    let dep = EmptyRetriever.get_dependency("exit", "0.1.2");
    let mut expected = RetrievedDependency::default();
    expected.name = "exit".to_string();
    expected.version = "0.1.2".to_string();
    assert_eq!(dep, expected);
    assert_eq!(EmptyRetriever::default(), EmptyRetriever);
}

#[derive(Debug)]
struct Mit;

impl Retriever for Mit {
    fn get_dependency(&self, dep_name: &str, dep_version: &str) -> RetrievedDependency {
        let mut r = record(dep_name, if dep_name == "d1" { "GPL-3.0" } else { "MIT" });
        r.version = dep_version.to_string();
        r
    }
}

#[test]
fn run_judges_every_dependency_in_order() {
    let mut tasks = lookups(5);
    tasks.insert(2, Resolution::Resolved(record("known", "MIT")));
    for bound in [None, Some(1), Some(3), Some(1000)] {
        let result = run(policy(bound), tasks.clone(), &Mit).unwrap();
        assert_eq!(result.licrc, policy(bound));
        let names: Vec<&str> = result.dependencies.iter().map(|r| r.name.as_str()).collect();
        assert_eq!(names, vec!["d0", "d1", "known", "d2", "d3", "d4"]);
        assert!(result.dependencies.iter().all(|r| r.validated));
        let valid: Vec<bool> = result.dependencies.iter().map(|r| r.is_valid).collect();
        assert_eq!(valid, vec![true, false, true, true, true, true]);
        let ignored: Vec<bool> = result.dependencies.iter().map(|r| r.is_ignored).collect();
        assert_eq!(ignored, vec![false, false, false, false, true, false]);
    }
    let result = run(policy(None), lookups(3), &EmptyRetriever).unwrap();
    assert_eq!(result.dependencies.len(), 3);
    assert!(result.dependencies.iter().all(|r| r.validated && !r.is_valid));
    assert_eq!(run(policy(None), vec![], &Mit).unwrap().dependencies, vec![]);
}

#[test]
fn run_without_slots_comes_to_nothing() {
    assert!(run(policy(Some(0)), lookups(1), &Mit).is_none());
    let known = vec![Resolution::Resolved(record("known", "MIT"))];
    assert_eq!(run(policy(Some(0)), known, &Mit).unwrap().dependencies.len(), 1);
}

#[test]
fn output_format_is_json_unless_markdown_is_named() {
    assert_eq!(OutputFormat::parse("markdown"), OutputFormat::Markdown);
    assert_eq!(OutputFormat::parse("md"), OutputFormat::Markdown);
    assert_eq!(OutputFormat::parse("json"), OutputFormat::Json);
    assert_eq!(OutputFormat::parse(""), OutputFormat::Json);
    assert_eq!(OutputFormat::parse("Markdown"), OutputFormat::Json);
    assert_eq!(OutputFormat::parse("md "), OutputFormat::Json);
    assert_eq!("md".parse::<OutputFormat>(), Ok(OutputFormat::Markdown));
    assert_eq!("yaml".parse::<OutputFormat>(), Ok(OutputFormat::Json));
    let cli = Cli {
        dependency_file: "./Cargo.lock".to_string(),
        licrc_file: DEFAULT_LICRC_FILE.to_string(),
        output_format: OutputFormat::Json,
    };
    assert_eq!(cli.clone(), cli);
    assert_eq!(DEFAULT_LICRC_FILE, ".licrc");
}

#[test]
fn what_passes_the_filter_is_not_ignored_by_the_run() {
    let licrc = LicRc {
        licenses: LicRcLicenses { accepted: Some(vec!["MIT".to_string()]), unaccepted: None },
        dependencies: LicRcDependencies {
            ignored: Some(vec!["d1".to_string(), "d4".to_string()]),
            ignore_dev_dependencies: true,
            ignore_optional_dependencies: true,
        },
        behavior: LicRcBehavior::default(),
    };
    let mut dependencies: Vec<Dependency> = (0..6).map(|i| Dependency::new(&format!("d{}", i), "1")).collect();
    dependencies[2].is_dev = Some(true);
    dependencies[3].is_optional = Some(true);
    dependencies[5].is_dev = Some(false);
    let kept = licrc.filter_dependencies(dependencies);
    let names: Vec<&str> = kept.iter().map(|d| d.name.as_str()).collect();
    assert_eq!(names, vec!["d0", "d5"]);
    let result = run(licrc.clone(), retrieve_from_npm(kept.clone()), &Mit).unwrap();
    assert_eq!(result.dependencies.len(), 2);
    assert!(result.dependencies.iter().all(|r| r.validated && !r.is_ignored));
    let result = run(licrc, retrieve_from_npm(kept), &EmptyRetriever).unwrap();
    assert_eq!(result.dependencies.len(), 2);
    assert!(result.dependencies.iter().all(|r| r.validated && !r.is_ignored));
}

#[test]
fn run_gives_the_verdict_on_what_the_retriever_gave() {
    let tasks = lookups(3);
    let result = run(policy(Some(2)), tasks, &Mit).unwrap();
    for (i, record) in result.dependencies.iter().enumerate() {
        let mut expected = Mit.get_dependency(&format!("d{}", i), "1");
        policy(Some(2)).validate(&mut expected);
        assert_eq!(record, &expected);
    }
    let result = run(policy(None), lookups(2), &EmptyRetriever).unwrap();
    for (i, record) in result.dependencies.iter().enumerate() {
        let mut expected = EmptyRetriever.get_dependency(&format!("d{}", i), "1");
        policy(None).validate(&mut expected);
        assert_eq!(record, &expected);
    }
}

#[test]
fn nothing_comes_of_a_run_only_without_slots_for_a_lookup_that_is_due() {
    let known = || Resolution::Resolved(record("known", "MIT"));
    let lookup = || Resolution::Retrieve(Dependency::new("d0", "1"));
    for (bound, tasks, ends) in [
        (Some(0), vec![], true),
        (Some(0), vec![known(), known()], true),
        (Some(0), vec![known(), lookup()], false),
        (Some(0), vec![lookup(), known()], false),
        (Some(1), vec![lookup(), known()], true),
        (None, vec![lookup(), lookup()], true),
    ] {
        assert_eq!(run(policy(bound), tasks, &Mit).is_some(), ends);
    }
}
