//! Builder for [`TapTest`].

use crate::tap_test::{copy_strings, TapTest, TestView};
use vstd::prelude::*;

verus! {

/// Collects the fields of one test result. Setters may come in any order and
/// any number of times; `finalize` may be called as often as needed.
pub struct TapTestBuilder {
    /// Name of the test
    pub name: String,
    /// Whether the test passed
    pub passed: bool,
    /// Diagnostic lines, oldest first
    pub diagnostics: Vec<String>,
}

impl View for TapTestBuilder {
    type V = TestView;

    /// The test that `finalize` would hand out now.
    open spec fn view(&self) -> TestView {
        TestView {
            name: self.name@,
            passed: self.passed,
            diagnostics: self.diagnostics.deep_view(),
        }
    }
}

/// An owned copy of each line, in the same order.
pub(crate) fn copy_lines(lines: &[&str]) -> (copy: Vec<String>)
    ensures
        copy.deep_view() == lines.deep_view(),
{
    let mut copy: Vec<String> = Vec::new();
    let mut i: usize = 0;
    while i < lines.len()
        invariant
            i <= lines.len(),
            copy.len() == i,
            forall|k: int| 0 <= k < i ==> copy@[k]@ == lines@[k]@,
        decreases lines.len() - i,
    {
        copy.push(lines[i].to_string());
        i += 1;
    }
    assert(copy.deep_view() =~= lines.deep_view());
    copy
}

impl TapTestBuilder {
    /// Produce a new builder object
    pub fn new() -> (builder: TapTestBuilder)
        ensures
            builder@ == TestView::blank(),
    {
        let builder = TapTestBuilder { name: String::new(), passed: false, diagnostics: Vec::new() };
        assert(builder.diagnostics.deep_view() =~= Seq::empty());
        builder
    }

    /// Set the name
    pub fn name(&mut self, s: &str) -> (builder: &mut TapTestBuilder)
        ensures
            (*builder)@ == old(self)@.with_name(s@),
            *final(self) == *final(builder),
    {
        self.name = s.to_string();
        self
    }

    /// Set whether the test passed
    pub fn passed(&mut self, status: bool) -> (builder: &mut TapTestBuilder)
        ensures
            (*builder)@ == old(self)@.with_passed(status),
            *final(self) == *final(builder),
    {
        self.passed = status;
        self
    }

    /// Set the diagnostic lines
    pub fn diagnostics(&mut self, diags: &[&str]) -> (builder: &mut TapTestBuilder)
        ensures
            (*builder)@ == old(self)@.with_diagnostics(diags.deep_view()),
            *final(self) == *final(builder),
    {
        self.diagnostics = copy_lines(diags);
        self
    }

    /// Produce the configured `TapTest` object
    pub fn finalize(&mut self) -> (test: TapTest)
        ensures
            test@ == old(self)@,
            *final(self) == *old(self),
    {
        TapTest {
            name: self.name.clone(),
            passed: self.passed,
            diagnostics: copy_strings(&self.diagnostics),
        }
    }
}

/// A new builder on which name, outcome and diagnostics were set finalizes
/// to the same contents as a test made directly from those three values.
pub proof fn lemma_built_test_equals_direct(
    name: &str,
    passed: bool,
    diagnostics: &[&str],
    direct: TapTest,
)
    requires
        direct.name@ == name@,
        direct.passed == passed,
        direct.diagnostics.deep_view() == diagnostics.deep_view(),
    ensures
        TestView::blank().with_name(name@).with_passed(passed).with_diagnostics(
            diagnostics.deep_view(),
        ) == direct@,
{
}

/// `finalize` can be repeated: where no setter runs between two calls, the
/// second hands out the same contents as the first.
pub proof fn lemma_finalize_test_repeats(
    builder: TapTestBuilder,
    first: TapTest,
    between: TapTestBuilder,
    second: TapTest,
)
    requires
        first@ == builder@,
        between == builder,
        second@ == between@,
    ensures
        second@ == first@,
{
}

/// A builder that no setter has touched finalizes to a test with an empty
/// name, not passed, and without diagnostics.
pub proof fn lemma_new_test_is_blank(builder: TapTestBuilder, test: TapTest)
    requires
        builder@ == TestView::blank(),
        test@ == builder@,
    ensures
        test.name@ == Seq::<char>::empty(),
        !test.passed,
        test.diagnostics@ == Seq::<String>::empty(),
{
    assert(test.diagnostics.deep_view().len() == 0);
    assert(test.diagnostics@ =~= Seq::empty());
}

} // verus!
