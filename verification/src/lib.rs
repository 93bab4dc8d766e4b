//! In-memory test results and test suites for the Test Anything Protocol,
//! assembled through builders.
//!
//! A [`tap_test_builder::TapTestBuilder`] collects the name, the outcome and
//! the diagnostic lines of one test and hands out a [`tap_test::TapTest`]. A
//! [`tap_suite_builder::TapSuiteBuilder`] collects a name and a list of tests
//! and hands out a [`tap_suite::TapSuite`]. Every value handed out owns a copy
//! of what the builder held, so builder and result can go separate ways.

pub mod tap_suite;
pub mod tap_suite_builder;
pub mod tap_test_builder;
