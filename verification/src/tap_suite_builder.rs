//! Builder for [`TapSuite`].

use crate::tap_suite::{SuiteView, TapSuite};
use crate::tap_test::{copy_strings, TapTest};
use vstd::prelude::*;

verus! {

/// Coordinator for constructing `TapSuite` objects using the builder pattern.
pub struct TapSuiteBuilder {
    /// Name of test suite
    pub name: String,
    /// Vector of type `Vec<TapTest>` which holds the actual tests
    pub tests: Vec<TapTest>,
}

impl View for TapSuiteBuilder {
    type V = SuiteView;

    /// The suite that `finalize` would hand out now.
    open spec fn view(&self) -> SuiteView {
        SuiteView { name: self.name@, tests: self.tests.deep_view() }
    }
}

impl TapSuiteBuilder {
    /// Produce a new builder object
    pub fn new() -> (builder: TapSuiteBuilder)
        ensures
            builder@ == SuiteView::blank(),
    {
        let builder = TapSuiteBuilder { name: String::new(), tests: Vec::new() };
        assert(builder.tests.deep_view() =~= Seq::empty());
        builder
    }

    /// Set the name
    pub fn name(&mut self, s: &str) -> (builder: &mut TapSuiteBuilder)
        ensures
            (*builder)@ == old(self)@.with_name(s@),
            *final(self) == *final(builder),
    {
        self.name = s.to_string();
        self
    }

    /// Set the tests
    pub fn tests(&mut self, test_vec: Vec<TapTest>) -> (builder: &mut TapSuiteBuilder)
        ensures
            (*builder)@ == old(self)@.with_tests(test_vec.deep_view()),
            *final(self) == *final(builder),
    {
        self.tests = test_vec;
        self
    }

    /// Produce the configured `TapSuite` object
    pub fn finalize(&mut self) -> (suite: TapSuite)
        ensures
            suite@ == old(self)@,
            *final(self) == *old(self),
    {
        let mut tests: Vec<TapTest> = Vec::new();
        let mut i: usize = 0;
        while i < self.tests.len()
            invariant
                *self == *old(self),
                i <= self.tests.len(),
                tests.len() == i,
                forall|k: int| 0 <= k < i ==> tests@[k]@ == self.tests@[k]@,
            decreases self.tests.len() - i,
        {
            let test = &self.tests[i];
            let diagnostics = copy_strings(&test.diagnostics);
            tests.push(TapTest { name: test.name.clone(), passed: test.passed, diagnostics });
            i += 1;
        }
        assert(tests.deep_view() =~= self.tests.deep_view());
        TapSuite { name: self.name.clone(), tests }
    }
}

/// A new builder on which name and tests were set finalizes to a suite of
/// that name with as many tests as were given, each with the contents of the
/// given one at the same place.
pub proof fn lemma_built_suite_keeps_tests(name: &str, tests: Vec<TapTest>, suite: TapSuite)
    requires
        suite@ == SuiteView::blank().with_name(name@).with_tests(tests.deep_view()),
    ensures
        suite.name@ == name@,
        suite.tests.len() == tests.len(),
        forall|i: int|
            0 <= i < tests.len() ==> {
                &&& (#[trigger] suite.tests[i]).name@ == tests[i].name@
                &&& suite.tests[i].passed == tests[i].passed
                &&& suite.tests[i].diagnostics.deep_view() == tests[i].diagnostics.deep_view()
            },
{
    assert(suite.tests.deep_view().len() == tests.deep_view().len());
    assert forall|i: int| 0 <= i < tests.len() implies {
        &&& (#[trigger] suite.tests[i]).name@ == tests[i].name@
        &&& suite.tests[i].passed == tests[i].passed
        &&& suite.tests[i].diagnostics.deep_view() == tests[i].diagnostics.deep_view()
    } by {
        assert(suite.tests.deep_view()[i] == tests.deep_view()[i]);
    }
}

/// `finalize` can be repeated: where no setter runs between two calls, the
/// second hands out the same contents as the first.
pub proof fn lemma_finalize_suite_repeats(
    builder: TapSuiteBuilder,
    first: TapSuite,
    between: TapSuiteBuilder,
    second: TapSuite,
)
    requires
        first@ == builder@,
        between == builder,
        second@ == between@,
    ensures
        second@ == first@,
{
}

/// A builder that no setter has touched finalizes to a suite with an empty
/// name and without tests.
pub proof fn lemma_new_suite_is_blank(builder: TapSuiteBuilder, suite: TapSuite)
    requires
        builder@ == SuiteView::blank(),
        suite@ == builder@,
    ensures
        suite.name@ == Seq::<char>::empty(),
        suite.tests@ == Seq::<TapTest>::empty(),
{
    assert(suite.tests.deep_view().len() == 0);
    assert(suite.tests@ =~= Seq::empty());
}

} // verus!
