//! Test registry entries and the rules that pick which tests run.
use vstd::prelude::*;
use vstd::utf8::encode_utf8;

verus! {

/// Which tests marked ignored are run.
#[derive(Debug, Clone, Copy, PartialEq, Eq, Structural)]
pub enum RunIgnored {
    Yes,
    No,
    Only,
}

/// The harness's command line.
#[derive(Debug, Clone)]
pub struct Args {
    pub run_ignored: RunIgnored,
    pub exclude_should_panic: bool,
    pub run_tests: bool,
    pub run_benches: bool,
    pub list: bool,
    pub help: bool,
    pub logfile: Option<String>,
    pub nocapture: bool,
    pub terse: bool,
    pub skip: Vec<String>,
    pub exact: bool,
    pub show_output: bool,
    pub filters: Vec<String>,
}

/// `t` occurs in `s` at some position.
pub open spec fn contains_bytes(s: Seq<u8>, t: Seq<u8>) -> bool {
    exists|i: int| 0 <= i && i + t.len() <= s.len() && #[trigger] s.subrange(i, i + t.len()) == t
}

/// Whether a test of this name matches `filter`: equal to it when `exact`,
/// else holding it as a substring.
pub open spec fn name_matches(name: Seq<u8>, filter: Seq<u8>, exact: bool) -> bool {
    if exact {
        name == filter
    } else {
        contains_bytes(name, filter)
    }
}

/// Some filter of `filters` matches the name.
pub open spec fn any_matches(name: Seq<u8>, filters: Seq<String>, exact: bool) -> bool {
    exists|i: int| 0 <= i < filters.len() && name_matches(name, encode_utf8(#[trigger] filters[i]@), exact)
}

fn occurs_at(s: &[u8], t: &[u8], i: usize) -> (r: bool)
    requires
        i + t@.len() <= s@.len(),
    ensures
        r == (s@.subrange(i as int, i + t@.len()) == t@),
{
    let sl = s.len();
    let mut j: usize = 0;
    while j < t.len()
        invariant
            sl == s@.len(),
            i + t@.len() <= s@.len(),
            j <= t@.len(),
            forall|m: int| 0 <= m < j ==> s@[i + m] == t@[m],
        decreases t@.len() - j,
    {
        if s[i + j] != t[j] {
            assert(s@.subrange(i as int, i + t@.len())[j as int] != t@[j as int]);
            return false;
        }
        j = j + 1;
    }
    assert(s@.subrange(i as int, i + t@.len()) =~= t@);
    true
}

fn bytes_contain(s: &[u8], t: &[u8]) -> (r: bool)
    ensures
        r == contains_bytes(s@, t@),
{
    if t.len() > s.len() {
        return false;
    }
    let last = s.len() - t.len();
    let mut i: usize = 0;
    loop
        invariant
            last == s@.len() - t@.len(),
            i <= last,
            forall|m: int| 0 <= m < i ==> #[trigger] s@.subrange(m, m + t@.len()) != t@,
        decreases last - i,
    {
        if occurs_at(s, t, i) {
            return true;
        }
        if i == last {
            return false;
        }
        i = i + 1;
    }
}

fn bytes_equal(s: &[u8], t: &[u8]) -> (r: bool)
    ensures
        r == (s@ == t@),
{
    if s.len() != t.len() {
        return false;
    }
    let r = occurs_at(s, t, 0);
    assert(s@.subrange(0, t@.len() as int) =~= s@);
    r
}

fn matches_filter(name: &str, filter: &String, exact: bool) -> (r: bool)
    ensures
        r == name_matches(encode_utf8(name@), encode_utf8(filter@), exact),
{
    let n = name.as_bytes();
    let f = filter.as_str().as_bytes();
    if exact {
        bytes_equal(n, f)
    } else {
        bytes_contain(n, f)
    }
}

fn matches_any(name: &str, filters: &Vec<String>, exact: bool) -> (r: bool)
    ensures
        r == any_matches(encode_utf8(name@), filters@, exact),
{
    let mut i: usize = 0;
    while i < filters.len()
        invariant
            i <= filters@.len(),
            forall|m: int| 0 <= m < i ==> !name_matches(encode_utf8(name@), encode_utf8(#[trigger] filters@[m]@), exact),
        decreases filters@.len() - i,
    {
        if matches_filter(name, &filters[i], exact) {
            return true;
        }
        i = i + 1;
    }
    false
}

#[derive(Debug, Clone, Copy)]
struct Ignore {
    reason: Option<&'static str>,
}

/// A registered test: its name, its body, whether it is ignored (and why),
/// and whether it is expected to panic.
#[derive(Debug, Clone, Copy)]
pub struct Test<F> {
    name: &'static str,
    func: F,
    ignore: Option<Ignore>,
    should_panic: bool,
}

/// Builds a [`Test`]: not ignored and not expected to panic unless told so.
#[derive(Debug, Clone, Copy)]
pub struct TestBuilder<F>(Test<F>);

impl<F> TestBuilder<F> {
    pub closed spec fn test(&self) -> Test<F> {
        self.0
    }

    pub fn new(name: &'static str, func: F) -> (r: TestBuilder<F>)
        ensures
            r.test().name_spec() == name,
            r.test().func_spec() == func,
            !r.test().ignored(),
            r.test().reason() is None,
            !r.test().should_panic_spec(),
    {
        TestBuilder(Test { name, func, ignore: None, should_panic: false })
    }

    /// Marks the test ignored, with no reason given.
    pub fn ignore(self) -> (r: TestBuilder<F>)
        ensures
            r.test().ignored(),
            r.test().reason() is None,
            r.test().name_spec() == self.test().name_spec(),
            r.test().func_spec() == self.test().func_spec(),
            r.test().should_panic_spec() == self.test().should_panic_spec(),
    {
        let TestBuilder(t) = self;
        TestBuilder(Test { ignore: Some(Ignore { reason: None }), ..t })
    }

    /// Marks the test ignored, for `reason`.
    pub fn ignore_reason(self, reason: &'static str) -> (r: TestBuilder<F>)
        ensures
            r.test().ignored(),
            r.test().reason() == Some(reason),
            r.test().name_spec() == self.test().name_spec(),
            r.test().func_spec() == self.test().func_spec(),
            r.test().should_panic_spec() == self.test().should_panic_spec(),
    {
        let TestBuilder(t) = self;
        TestBuilder(Test { ignore: Some(Ignore { reason: Some(reason) }), ..t })
    }

    /// Marks the test as expected to panic.
    pub fn with_should_panic(self) -> (r: TestBuilder<F>)
        ensures
            r.test().should_panic_spec(),
            r.test().name_spec() == self.test().name_spec(),
            r.test().func_spec() == self.test().func_spec(),
            r.test().ignored() == self.test().ignored(),
            r.test().reason() == self.test().reason(),
    {
        let TestBuilder(t) = self;
        TestBuilder(Test { should_panic: true, ..t })
    }

    pub fn build(self) -> (r: Test<F>)
        ensures
            r == self.test(),
    {
        self.0
    }
}

/// The test is picked by `args`: it matches a filter when there are any,
/// matches no skip pattern, is not excluded for being expected to panic, and
/// is ignored when only ignored tests are run.
pub open spec fn picked(
    name: Seq<u8>,
    should_panic: bool,
    ignored: bool,
    args: Args,
) -> bool {
    &&& (args.filters@.len() == 0 || any_matches(name, args.filters@, args.exact))
    &&& !any_matches(name, args.skip@, args.exact)
    &&& !(args.exclude_should_panic && should_panic)
    &&& !(args.run_ignored == RunIgnored::Only && !ignored)
}

impl<F> Test<F> {
    pub closed spec fn name_spec(&self) -> &'static str {
        self.name
    }

    pub closed spec fn func_spec(&self) -> F {
        self.func
    }

    pub closed spec fn ignored(&self) -> bool {
        self.ignore is Some
    }

    /// The reason given for ignoring the test, if any.
    pub closed spec fn reason(&self) -> Option<&'static str> {
        match self.ignore {
            Some(i) => i.reason,
            None => None,
        }
    }

    pub closed spec fn should_panic_spec(&self) -> bool {
        self.should_panic
    }

    pub fn name(&self) -> (r: &'static str)
        ensures
            r == self.name_spec(),
    {
        self.name
    }

    pub fn func(&self) -> (r: &F)
        ensures
            *r == self.func_spec(),
    {
        &self.func
    }

    pub fn should_panic(&self) -> (r: bool)
        ensures
            r == self.should_panic_spec(),
    {
        self.should_panic
    }

    pub fn ignore(&self) -> (r: bool)
        ensures
            r == self.ignored(),
    {
        self.ignore.is_some()
    }

    pub fn ignore_reason(&self) -> (r: Option<&'static str>)
        ensures
            r == self.reason(),
    {
        match self.ignore {
            Some(i) => i.reason,
            None => None,
        }
    }

    /// Whether `args` picks this test to list or run.
    pub fn is_filtered(&self, args: &Args) -> (r: bool)
        ensures
            r == picked(encode_utf8(self.name_spec()@), self.should_panic_spec(), self.ignored(), *args),
    {
        // Discard tests that match none of the filters
        if args.filters.len() != 0 && !matches_any(self.name, &args.filters, args.exact) {
            return false;
        }
        // Discard tests that match any of the skips
        if matches_any(self.name, &args.skip, args.exact) {
            return false;
        }
        // Discard tests expected to panic
        if args.exclude_should_panic && self.should_panic() {
            return false;
        }
        // Discard tests not ignored
        if args.run_ignored == RunIgnored::Only && !self.ignore() {
            return false;
        }
        true
    }

    /// A picked test is reported ignored, not run, when it is marked ignored
    /// and ignored tests are not run.
    pub fn is_ignored(&self, args: &Args) -> (r: bool)
        ensures
            r == (args.run_ignored == RunIgnored::No && self.ignored()),
    {
        args.run_ignored == RunIgnored::No && self.ignore()
    }
}

/// How a test that ran came out: it passed when it panicked exactly when
/// it was expected to; and a test expected to panic that did not gets a note
/// saying so.
pub fn outcome(should_panic: bool, panicked: bool) -> (r: (bool, bool))
    ensures
        r.0 == (panicked == should_panic),
        r.1 == (should_panic && !panicked),
{
    let passed = if should_panic {
        panicked
    } else {
        !panicked
    };
    (passed, !passed && should_panic)
}

} // verus!
