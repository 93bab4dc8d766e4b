//! A named list of test results.

use crate::tap_test::{TapTest, TestView};
use vstd::prelude::*;

verus! {

/// What a suite holds, as mathematical values.
pub struct SuiteView {
    pub name: Seq<char>,
    pub tests: Seq<TestView>,
}

impl SuiteView {
    /// The suite that no setter has touched: no name and no tests.
    pub open spec fn blank() -> SuiteView {
        SuiteView { name: Seq::empty(), tests: Seq::empty() }
    }

    /// This suite under another name.
    pub open spec fn with_name(self, name: Seq<char>) -> SuiteView {
        SuiteView { name, ..self }
    }

    /// This suite with other tests.
    pub open spec fn with_tests(self, tests: Seq<TestView>) -> SuiteView {
        SuiteView { tests, ..self }
    }

    /// The two setters touch different fields, so the order in which they are
    /// applied makes no difference.
    pub proof fn lemma_setters_commute(self, name: Seq<char>, tests: Seq<TestView>)
        ensures
            self.with_name(name).with_tests(tests) == self.with_tests(tests).with_name(name),
    {
    }

    /// A setter overwrites: where the same setter is applied twice, only the
    /// later value is kept.
    pub proof fn lemma_later_setter_wins(
        self,
        names: (Seq<char>, Seq<char>),
        tests: (Seq<TestView>, Seq<TestView>),
    )
        ensures
            self.with_name(names.0).with_name(names.1) == self.with_name(names.1),
            self.with_tests(tests.0).with_tests(tests.1) == self.with_tests(tests.1),
    {
    }
}

/// A named list of test results, in the order they were given. Names are
/// neither checked nor made unique.
#[derive(Debug)]
pub struct TapSuite {
    /// Name of the suite
    pub name: String,
    /// The tests of the suite, first one first
    pub tests: Vec<TapTest>,
}

impl View for TapSuite {
    type V = SuiteView;

    open spec fn view(&self) -> SuiteView {
        SuiteView { name: self.name@, tests: self.tests.deep_view() }
    }
}

impl DeepView for TapSuite {
    type V = SuiteView;

    open spec fn deep_view(&self) -> SuiteView {
        self@
    }
}

impl Clone for TapSuite {
    /// A suite with the same contents that shares nothing with this one.
    fn clone(&self) -> (copy: TapSuite)
        ensures
            copy@ == self@,
    {
        let copy = TapSuite { name: self.name.clone(), tests: self.tests.clone() };
        assert(copy.tests.deep_view() =~= self.tests.deep_view());
        copy
    }
}

} // verus!
