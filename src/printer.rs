//! The run report of the test harness: the tallies of a run and the pieces of
//! text to show, as [`Output`] events that the caller writes out.
use vstd::prelude::*;
use vstd::string::StringSliceAdditionalSpecFns;
use vstd::utf8::encode_utf8;
use crate::harness::{Args, Test};

verus! {

/// Width of a row of progress marks in terse mode.
pub const TERSE_MODE_MAX_COLUMN: usize = 30;

/// How a test ended, with its captured output.
#[derive(Debug, Clone)]
pub enum TestStatus {
    Success(String),
    Failed(String),
    Ignored(Option<&'static str>),
}

/// One piece of the report.
#[derive(Debug, Clone)]
pub enum Output {
    /// `{name}: test`, in a listing.
    Listed { name: &'static str },
    /// An empty line.
    Blank,
    /// `{count} test(s)`, closing a listing.
    ListCount { count: usize },
    /// `running {total} test(s)`, opening a run.
    Running { total: usize },
    /// `test {name} ...`, or `test {name} - should panic ...`.
    TestName { name: &'static str, should_panic: bool },
    /// ` {count}/{total}`, closing a row of marks.
    Progress { count: usize, total: usize },
    /// A passed test's `.` mark.
    PassMark,
    /// An ignored test's `i` mark.
    IgnoreMark,
    /// `ok`, after a test name.
    Passed,
    /// `FAILED`, after a test name.
    Failed,
    /// `{name} --- FAILED`, in terse mode.
    FailedName { name: &'static str },
    /// `ignored`, or `ignored, {reason}`, after a test name.
    Ignored { reason: Option<&'static str> },
    /// `successes:` heading.
    Successes,
    /// `failures:` heading.
    Failures,
    /// `---- {name} stdout ----` and the captured output.
    Captured { name: &'static str, output: String },
    /// A test name in a summary list.
    Name { name: &'static str },
    /// `test result: ok|FAILED. {passed} passed; {failed} failed; {ignored} ignored; {filtered} filtered out`.
    Result { success: bool, passed: usize, failed: usize, ignored: usize, filtered: usize },
}

/// The captured outputs of `kept`, in order, leaving out the empty ones.
pub open spec fn captured(kept: Seq<(&'static str, String)>) -> Seq<Output>
    decreases kept.len(),
{
    if kept.len() == 0 {
        Seq::empty()
    } else {
        captured(kept.drop_last()) + if encode_utf8(kept.last().1@).len() != 0 {
            seq![Output::Captured { name: kept.last().0, output: kept.last().1 }]
        } else {
            Seq::empty()
        }
    }
}

/// The names of `kept`, in order.
pub open spec fn named(kept: Seq<(&'static str, String)>) -> Seq<Output> {
    Seq::new(kept.len(), |i: int| Output::Name { name: kept[i].0 })
}

/// A summary section: the heading, the captured outputs, the heading again,
/// and the names.
pub open spec fn section(heading: Output, kept: Seq<(&'static str, String)>) -> Seq<Output> {
    seq![heading] + captured(kept) + seq![heading] + named(kept)
}

/// The report of listing `count` tests: one entry each, then, unless terse,
/// a blank line when there were any and the count.
pub fn list_tests<F>(args: &Args, tests: &Vec<&Test<F>>) -> (r: Vec<Output>)
    ensures
        r@.len() == tests@.len() + if args.terse {
            0int
        } else if tests@.len() == 0 {
            1int
        } else {
            2int
        },
        forall|i: int| 0 <= i < tests@.len() ==> (#[trigger] r@[i] matches Output::Listed { name }
            && name == tests@[i].name_spec()),
        !args.terse ==> (r@.last() matches Output::ListCount { count } && count == tests@.len()),
        !args.terse && tests@.len() > 0 ==> r@[r@.len() - 2] is Blank,
{
    let mut out: Vec<Output> = Vec::new();
    let mut i: usize = 0;
    while i < tests.len()
        invariant
            i <= tests@.len(),
            out@.len() == i,
            forall|j: int| 0 <= j < i ==> (#[trigger] out@[j] matches Output::Listed { name }
                && name == tests@[j].name_spec()),
        decreases tests@.len() - i,
    {
        out.push(Output::Listed { name: tests[i].name() });
        i = i + 1;
    }
    if !args.terse {
        if tests.len() != 0 {
            out.push(Output::Blank);
        }
        out.push(Output::ListCount { count: tests.len() });
    }
    out
}

/// The report of a run in progress: tallies, the terse-mode row, kept
/// outputs, and the pieces not yet handed out.
pub struct RunPrinter {
    terse: bool,
    show_output: bool,
    passed: usize,
    failed: usize,
    ignored: usize,
    filtered: usize,
    count: usize,
    total: usize,
    column: usize,
    successes: Vec<(&'static str, String)>,
    failures: Vec<(&'static str, String)>,
    out: Vec<Output>,
}

/// Opens the report of a run of `total` tests, `filtered` others left out.
pub fn run_start(args: &Args, total: usize, filtered: usize) -> (r: RunPrinter)
    ensures
        r.wf(),
        r.terse() == args.terse,
        r.show_output() == args.show_output,
        r.tally() == (0usize, 0usize, 0usize, 0usize),
        r.filtered() == filtered,
        r.total() == total,
        r.column() == 0,
        r.pending()@.len() == 1,
        r.pending()@[0] matches Output::Running { total: t } && t == total,
{
    let mut out: Vec<Output> = Vec::new();
    out.push(Output::Running { total });
    RunPrinter {
        terse: args.terse,
        show_output: args.show_output,
        passed: 0,
        failed: 0,
        ignored: 0,
        filtered,
        count: 0,
        total,
        column: 0,
        successes: Vec::new(),
        failures: Vec::new(),
        out,
    }
}

impl RunPrinter {
    pub closed spec fn terse(&self) -> bool {
        self.terse
    }

    pub closed spec fn show_output(&self) -> bool {
        self.show_output
    }

    /// Tests done so far, and of those the passed, failed and ignored ones.
    pub closed spec fn tally(&self) -> (usize, usize, usize, usize) {
        (self.count, self.passed, self.failed, self.ignored)
    }

    pub closed spec fn filtered(&self) -> usize {
        self.filtered
    }

    pub closed spec fn total(&self) -> usize {
        self.total
    }

    /// Marks on the current terse row.
    pub closed spec fn column(&self) -> usize {
        self.column
    }

    /// Passed tests kept for the summary, with their outputs.
    pub closed spec fn successes(&self) -> Seq<(&'static str, String)> {
        self.successes@
    }

    /// Failed tests, with their outputs.
    pub closed spec fn failures(&self) -> Seq<(&'static str, String)> {
        self.failures@
    }

    /// Report pieces not yet handed out.
    pub closed spec fn pending(&self) -> Vec<Output> {
        self.out
    }

    /// Every test done was passed, failed or ignored, and a terse row is
    /// closed once it holds one mark less than its width.
    pub closed spec fn wf(&self) -> bool {
        &&& self.count == self.passed + self.failed + self.ignored
        &&& self.column < TERSE_MODE_MAX_COLUMN - 1
    }

    /// Hands out the report pieces produced so far.
    pub fn take_output(&mut self) -> (r: Vec<Output>)
        ensures
            r@ == old(self).pending()@,
            final(self).pending()@.len() == 0,
            final(self).tally() == old(self).tally(),
            final(self).column() == old(self).column(),
            final(self).terse() == old(self).terse(),
            final(self).wf() == old(self).wf(),
    {
        let mut r: Vec<Output> = Vec::new();
        core::mem::swap(&mut r, &mut self.out);
        r
    }

    fn write_test_name(&mut self, name: &'static str, should_panic: bool)
        ensures
            *final(self) == (RunPrinter { out: final(self).out, ..*old(self) }),
            old(self).terse ==> final(self).out@ == old(self).out@,
            !old(self).terse ==> final(self).out@ == old(self).out@.push(
                Output::TestName { name, should_panic },
            ),
    {
        if !self.terse {
            self.out.push(Output::TestName { name, should_panic });
        }
    }

    fn write_progress(&mut self)
        ensures
            *final(self) == (RunPrinter { out: final(self).out, column: 0, ..*old(self) }),
            final(self).out@ == old(self).out@.push(
                Output::Progress { count: old(self).count, total: old(self).total },
            ),
    {
        self.column = 0;
        self.out.push(Output::Progress { count: self.count, total: self.total });
    }

    fn write_progress_if_needed(&mut self)
        requires
            old(self).column <= TERSE_MODE_MAX_COLUMN,
        ensures
            old(self).column % TERSE_MODE_MAX_COLUMN == TERSE_MODE_MAX_COLUMN - 1 ==> final(self).column
                == 0 && final(self).out@ == old(self).out@.push(
                Output::Progress { count: old(self).count, total: old(self).total },
            ),
            old(self).column % TERSE_MODE_MAX_COLUMN != TERSE_MODE_MAX_COLUMN - 1 ==> *final(self)
                == *old(self),
            *final(self) == (RunPrinter { out: final(self).out, column: final(self).column, ..*old(self) }),
    {
        if self.column % TERSE_MODE_MAX_COLUMN == TERSE_MODE_MAX_COLUMN - 1 {
            self.write_progress();
        }
    }

    fn write_ok(&mut self)
        requires
            old(self).wf(),
            old(self).count < usize::MAX,
        ensures
            final(self).wf(),
            final(self).count == old(self).count + 1,
            final(self).passed == old(self).passed + 1,
            final(self).failed == old(self).failed,
            final(self).ignored == old(self).ignored,
            final(self).terse == old(self).terse,
            final(self).show_output == old(self).show_output,
            final(self).total == old(self).total,
            final(self).filtered == old(self).filtered,
            final(self).successes == old(self).successes,
            final(self).failures == old(self).failures,
            !old(self).terse ==> final(self).out@ == old(self).out@.push(Output::Passed),
            !old(self).terse ==> final(self).column == old(self).column,
            old(self).terse ==> final(self).out@.len() >= old(self).out@.len() + 1,
            old(self).terse ==> final(self).out@[old(self).out@.len() as int] is PassMark,
    {
        self.count = self.count + 1;
        self.passed = self.passed + 1;
        if self.terse {
            self.column = self.column + 1;
            self.out.push(Output::PassMark);
            self.write_progress_if_needed();
        } else {
            self.out.push(Output::Passed);
        }
    }

    fn write_failed(&mut self, name: &'static str)
        requires
            old(self).wf(),
            old(self).count < usize::MAX,
        ensures
            final(self).wf(),
            final(self).count == old(self).count + 1,
            final(self).failed == old(self).failed + 1,
            final(self).passed == old(self).passed,
            final(self).ignored == old(self).ignored,
            final(self).terse == old(self).terse,
            final(self).show_output == old(self).show_output,
            final(self).total == old(self).total,
            final(self).filtered == old(self).filtered,
            final(self).successes == old(self).successes,
            final(self).failures == old(self).failures,
            !old(self).terse ==> final(self).out@ == old(self).out@.push(Output::Failed),
            old(self).terse ==> final(self).out@.last() == (Output::FailedName { name }),
            old(self).terse ==> final(self).column == 0,
    {
        if self.terse && self.column != 0 {
            self.write_progress();
        }
        self.count = self.count + 1;
        self.failed = self.failed + 1;
        if self.terse {
            self.out.push(Output::FailedName { name });
        } else {
            self.out.push(Output::Failed);
        }
    }

    fn write_ignored(&mut self, reason: Option<&'static str>)
        requires
            old(self).wf(),
            old(self).count < usize::MAX,
        ensures
            final(self).wf(),
            final(self).count == old(self).count + 1,
            final(self).ignored == old(self).ignored + 1,
            final(self).passed == old(self).passed,
            final(self).failed == old(self).failed,
            final(self).terse == old(self).terse,
            final(self).show_output == old(self).show_output,
            final(self).total == old(self).total,
            final(self).filtered == old(self).filtered,
            final(self).successes == old(self).successes,
            final(self).failures == old(self).failures,
            !old(self).terse ==> final(self).out@ == old(self).out@.push(Output::Ignored { reason }),
            !old(self).terse ==> final(self).column == old(self).column,
            old(self).terse ==> final(self).out@.len() >= old(self).out@.len() + 1,
            old(self).terse ==> final(self).out@[old(self).out@.len() as int] is IgnoreMark,
    {
        self.count = self.count + 1;
        self.ignored = self.ignored + 1;
        if self.terse {
            self.column = self.column + 1;
            self.out.push(Output::IgnoreMark);
            self.write_progress_if_needed();
        } else {
            self.out.push(Output::Ignored { reason });
        }
    }

    /// Announces a test about to run.
    pub fn test_start<F>(&mut self, test: &Test<F>)
        ensures
            final(self).tally() == old(self).tally(),
            final(self).column() == old(self).column(),
            final(self).terse() == old(self).terse(),
            final(self).show_output() == old(self).show_output(),
            final(self).total() == old(self).total(),
            final(self).filtered() == old(self).filtered(),
            final(self).wf() == old(self).wf(),
            old(self).terse() ==> final(self).pending()@ == old(self).pending()@,
            !old(self).terse() ==> final(self).pending()@ == old(self).pending()@.push(
                Output::TestName { name: test.name_spec(), should_panic: test.should_panic_spec() },
            ),
    {
        self.write_test_name(test.name(), test.should_panic());
    }

    /// Records how a test ended. A passed test's output is kept for the
    /// summary when output is shown; a failed test's always is.
    pub fn test_result<F>(&mut self, test: &Test<F>, status: TestStatus)
        requires
            old(self).wf(),
            old(self).tally().0 < usize::MAX,
        ensures
            final(self).wf(),
            final(self).terse() == old(self).terse(),
            final(self).show_output() == old(self).show_output(),
            final(self).total() == old(self).total(),
            final(self).filtered() == old(self).filtered(),
            final(self).tally().0 == old(self).tally().0 + 1,
            status is Success ==> final(self).tally().1 == old(self).tally().1 + 1
                && final(self).tally().2 == old(self).tally().2 && final(self).tally().3
                == old(self).tally().3,
            status is Failed ==> final(self).tally().2 == old(self).tally().2 + 1
                && final(self).tally().1 == old(self).tally().1 && final(self).tally().3
                == old(self).tally().3,
            status is Ignored ==> final(self).tally().3 == old(self).tally().3 + 1
                && final(self).tally().1 == old(self).tally().1 && final(self).tally().2
                == old(self).tally().2,
            status matches TestStatus::Success(c) ==> final(self).successes() == (if old(self).show_output() {
                old(self).successes().push((test.name_spec(), c))
            } else {
                old(self).successes()
            }) && final(self).failures() == old(self).failures(),
            status matches TestStatus::Failed(c) ==> final(self).failures() == old(self).failures().push(
                (test.name_spec(), c),
            ) && final(self).successes() == old(self).successes(),
            status is Ignored ==> final(self).successes() == old(self).successes()
                && final(self).failures() == old(self).failures(),
    {
        match status {
            TestStatus::Success(capture) => {
                if self.show_output {
                    self.successes.push((test.name(), capture));
                }
                self.write_ok();
            },
            TestStatus::Failed(capture) => {
                self.failures.push((test.name(), capture));
                self.write_failed(test.name());
            },
            TestStatus::Ignored(reason) => {
                self.write_ignored(reason);
            },
        }
    }

    fn write_captures(out: &mut Vec<Output>, list: &Vec<(&'static str, String)>)
        ensures
            final(out)@ == old(out)@ + captured(list@),
    {
        let mut i: usize = 0;
        while i < list.len()
            invariant
                i <= list@.len(),
                out@ == old(out)@ + captured(list@.subrange(0, i as int)),
            decreases list@.len() - i,
        {
            let ghost before = out@;
            let (name, capture) = &list[i];
            proof {
                let next = list@.subrange(0, i + 1);
                assert(next.drop_last() =~= list@.subrange(0, i as int));
                assert(next.last() == list@[i as int]);
            }
            let text = capture.as_str();
            let n = text.as_bytes().len();
            proof {
                assert(text.spec_bytes() == encode_utf8(text@));
                assert(n == encode_utf8(capture@).len());
            }
            if n != 0 {
                out.push(Output::Captured { name: *name, output: capture.clone() });
                assert(out@ =~= old(out)@ + captured(list@.subrange(0, i + 1)));
            } else {
                assert(out@ =~= old(out)@ + captured(list@.subrange(0, i + 1)));
            }
            i = i + 1;
        }
        assert(list@.subrange(0, list@.len() as int) =~= list@);
    }

    fn write_names(out: &mut Vec<Output>, list: &Vec<(&'static str, String)>)
        ensures
            final(out)@ == old(out)@ + named(list@),
    {
        let mut i: usize = 0;
        while i < list.len()
            invariant
                i <= list@.len(),
                out@ == old(out)@ + named(list@.subrange(0, i as int)),
            decreases list@.len() - i,
        {
            out.push(Output::Name { name: list[i].0 });
            assert(out@ =~= old(out)@ + named(list@.subrange(0, i + 1)));
            i = i + 1;
        }
        assert(list@.subrange(0, list@.len() as int) =~= list@);
    }

    /// Closes the report: the pieces not yet handed out; the successes
    /// section exactly when output is shown; the failures section exactly when
    /// a test failed; and the result line with the tallies.
    pub fn run_finish(self) -> (r: Vec<Output>)
        ensures
            r@ == self.pending()@ + (if self.show_output() {
                section(Output::Successes, self.successes())
            } else {
                Seq::empty()
            }) + (if self.tally().2 != 0 {
                section(Output::Failures, self.failures())
            } else {
                Seq::empty()
            }) + seq![
                Output::Result {
                    success: self.tally().2 == 0,
                    passed: self.tally().1,
                    failed: self.tally().2,
                    ignored: self.tally().3,
                    filtered: self.filtered(),
                },
            ],
    {
        let RunPrinter {
            terse: _,
            show_output,
            passed,
            failed,
            ignored,
            filtered,
            count: _,
            total: _,
            column: _,
            successes,
            failures,
            out,
        } = self;
        let ghost p = out@;
        let mut out = out;
        let success = failed == 0;
        if show_output {
            out.push(Output::Successes);
            RunPrinter::write_captures(&mut out, &successes);
            out.push(Output::Successes);
            RunPrinter::write_names(&mut out, &successes);
            assert(out@ =~= p + section(Output::Successes, successes@));
        } else {
            assert(out@ =~= p + Seq::<Output>::empty());
        }
        let ghost q = out@;
        if !success {
            out.push(Output::Failures);
            RunPrinter::write_captures(&mut out, &failures);
            out.push(Output::Failures);
            RunPrinter::write_names(&mut out, &failures);
            assert(out@ =~= q + section(Output::Failures, failures@));
        } else {
            assert(out@ =~= q + Seq::<Output>::empty());
        }
        let ghost q2 = out@;
        out.push(Output::Result { success, passed, failed, ignored, filtered });
        assert(out@ =~= q2 + seq![Output::Result { success, passed, failed, ignored, filtered }]);
        out
    }
}

} // verus!
