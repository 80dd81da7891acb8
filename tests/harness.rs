use rps2_sync::harness::{outcome, Args, RunIgnored, Test, TestBuilder};
use rps2_sync::printer::{list_tests, run_start, Output, TestStatus};

fn args() -> Args {
    Args {
        run_ignored: RunIgnored::No,
        exclude_should_panic: false,
        run_tests: true,
        run_benches: false,
        list: false,
        help: false,
        logfile: None,
        nocapture: false,
        terse: false,
        skip: Vec::new(),
        exact: false,
        show_output: false,
        filters: Vec::new(),
    }
}

fn body() {}

fn sample(name: &'static str) -> Test<fn()> {
    TestBuilder::new(name, body as fn()).build()
}

#[test]
fn builder_sets_flags() {
    let t = TestBuilder::new("a", body as fn()).build();
    assert_eq!(t.name(), "a");
    assert!(!t.ignore() && !t.should_panic());
    assert_eq!(t.ignore_reason(), None);
    let t = TestBuilder::new("b", body as fn()).ignore().with_should_panic().build();
    assert!(t.ignore() && t.should_panic());
    assert_eq!(t.ignore_reason(), None);
    let t = TestBuilder::new("c", body as fn()).ignore_reason("slow").build();
    assert_eq!(t.ignore_reason(), Some("slow"));
    (*t.func())();
}

#[test]
fn filters_match_substrings_or_exact_names() {
    let t = sample("sync::lazy_lock");
    let mut a = args();
    assert!(t.is_filtered(&a));
    a.filters = vec![String::from("lazy")];
    assert!(t.is_filtered(&a));
    a.filters = vec![String::from("mutex"), String::from("lock")];
    assert!(t.is_filtered(&a));
    a.filters = vec![String::from("mutex")];
    assert!(!t.is_filtered(&a));
    a.filters = vec![String::from("lazy")];
    a.exact = true;
    assert!(!t.is_filtered(&a));
    a.filters = vec![String::from("sync::lazy_lock")];
    assert!(t.is_filtered(&a));
    a.filters = vec![String::new()];
    a.exact = false;
    assert!(t.is_filtered(&a));
}

#[test]
fn skips_should_panic_and_ignored_only() {
    let t = sample("queue_fifo");
    let mut a = args();
    a.skip = vec![String::from("fifo")];
    assert!(!t.is_filtered(&a));
    a.skip = Vec::new();

    let p = TestBuilder::new("boom", body as fn()).with_should_panic().build();
    a.exclude_should_panic = true;
    assert!(!p.is_filtered(&a));
    assert!(t.is_filtered(&a));

    let i = TestBuilder::new("slow", body as fn()).ignore().build();
    a.run_ignored = RunIgnored::Only;
    assert!(i.is_filtered(&a));
    assert!(!t.is_filtered(&a));

    a.run_ignored = RunIgnored::No;
    assert!(i.is_ignored(&a));
    assert!(!t.is_ignored(&a));
    a.run_ignored = RunIgnored::Yes;
    assert!(!i.is_ignored(&a));
}

#[test]
fn listing_ends_with_count() {
    let (x, y) = (sample("x"), sample("y"));
    let out = list_tests(&args(), &vec![&x, &y]);
    assert!(matches!(out[0], Output::Listed { name: "x" }));
    assert!(matches!(out[1], Output::Listed { name: "y" }));
    assert!(matches!(out[2], Output::Blank));
    assert!(matches!(out[3], Output::ListCount { count: 2 }));
    let mut terse = args();
    terse.terse = true;
    assert_eq!(list_tests(&terse, &vec![&x]).len(), 1);
    let none: Vec<&Test<fn()>> = Vec::new();
    assert!(matches!(list_tests(&args(), &none)[..], [Output::ListCount { count: 0 }]));
}

#[test]
fn run_report_tallies_results() {
    let (a, b, c) = (sample("a"), sample("b"), sample("c"));
    let mut opts = args();
    opts.show_output = true;
    let mut p = run_start(&opts, 3, 1);
    p.test_start(&a);
    p.test_result(&a, TestStatus::Success(String::from("hello")));
    p.test_start(&b);
    p.test_result(&b, TestStatus::Failed(String::new()));
    p.test_result(&c, TestStatus::Ignored(Some("slow")));
    let first = p.take_output();
    assert!(matches!(first[0], Output::Running { total: 3 }));
    assert!(matches!(first[1], Output::TestName { name: "a", should_panic: false }));
    assert!(matches!(first[2], Output::Passed));
    assert!(matches!(first[4], Output::Failed));
    assert!(matches!(first[5], Output::Ignored { reason: Some("slow") }));
    let rest = p.run_finish();
    assert!(matches!(rest[0], Output::Successes));
    assert!(matches!(&rest[1], Output::Captured { name: "a", output } if output == "hello"));
    assert!(matches!(
        rest.last(),
        Some(Output::Result { success: false, passed: 1, failed: 1, ignored: 1, filtered: 1 })
    ));
}

#[test]
fn terse_report_wraps_rows_of_marks() {
    let t = sample("t");
    let mut opts = args();
    opts.terse = true;
    let mut p = run_start(&opts, 40, 0);
    for _ in 0..29 {
        p.test_result(&t, TestStatus::Success(String::new()));
    }
    let out = p.take_output();
    assert_eq!(out.len(), 1 + 29 + 1);
    assert!(matches!(out[30], Output::Progress { count: 29, total: 40 }));
    p.test_result(&t, TestStatus::Ignored(None));
    p.test_result(&t, TestStatus::Failed(String::from("oops")));
    let out = p.take_output();
    assert!(matches!(out[0], Output::IgnoreMark));
    assert!(matches!(out[1], Output::Progress { count: 30, total: 40 }));
    assert!(matches!(out[2], Output::FailedName { name: "t" }));
    let end = p.run_finish();
    assert!(matches!(
        end.last(),
        Some(Output::Result { success: false, passed: 29, failed: 1, ignored: 1, filtered: 0 })
    ));
}

#[test]
fn outcome_of_a_test_run() {
    assert_eq!(outcome(false, false), (true, false));
    assert_eq!(outcome(false, true), (false, false));
    assert_eq!(outcome(true, true), (true, false));
    assert_eq!(outcome(true, false), (false, true));
}

#[test]
fn report_sections_only_when_due() {
    let a = sample("a");
    let mut p = run_start(&args(), 1, 0);
    p.test_result(&a, TestStatus::Success(String::from("quiet")));
    let _ = p.take_output();
    let end = p.run_finish();
    assert_eq!(end.len(), 1);
    assert!(matches!(end[0], Output::Result { success: true, passed: 1, .. }));

    let mut p = run_start(&args(), 1, 0);
    p.test_result(&a, TestStatus::Failed(String::from("out")));
    let _ = p.take_output();
    let end = p.run_finish();
    assert!(matches!(end[0], Output::Failures));
    assert!(matches!(&end[1], Output::Captured { name: "a", output } if output == "out"));
    assert!(matches!(end[2], Output::Failures));
    assert!(matches!(end[3], Output::Name { name: "a" }));
    assert!(matches!(end[4], Output::Result { success: false, failed: 1, .. }));
    assert_eq!(end.len(), 5);
}
