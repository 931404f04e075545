//! The concrete adapter variants.
//!
//! Each variant is a distinct nominal type holding exactly one boolean flag,
//! constructed with an explicit initial value. All three implement the
//! capability identically in behaviour; only the diagnostic line telling a
//! reader which variant performed the action differs.

use vstd::prelude::*;
use crate::port::Port;

verus! {

/// The production variant wired when the toggle is absent.
pub struct DefaultAdapter(pub bool);

impl Port for DefaultAdapter {
    open spec fn done(&self) -> bool {
        self.0
    }

    open spec fn variant_message(&self) -> Seq<char> {
        "Default Adapter done something"@
    }

    fn do_something(&mut self) -> (r: bool) {
        self.0 = true;
        self.0
    }

    fn message(&self) -> (r: &'static str) {
        "Default Adapter done something"
    }
}

/// The production variant wired when the toggle is present.
pub struct OtherAdapter(pub bool);

impl Port for OtherAdapter {
    open spec fn done(&self) -> bool {
        self.0
    }

    open spec fn variant_message(&self) -> Seq<char> {
        "Other Adapter done something"@
    }

    fn do_something(&mut self) -> (r: bool) {
        self.0 = true;
        self.0
    }

    fn message(&self) -> (r: &'static str) {
        "Other Adapter done something"
    }
}

/// The variant substituted for the capability by the verification harness.
pub struct TestAdapter(pub bool);

impl Port for TestAdapter {
    open spec fn done(&self) -> bool {
        self.0
    }

    open spec fn variant_message(&self) -> Seq<char> {
        "Test Adapter done something"@
    }

    fn do_something(&mut self) -> (r: bool) {
        self.0 = true;
        self.0
    }

    fn message(&self) -> (r: &'static str) {
        "Test Adapter done something"
    }
}

} // verus!
