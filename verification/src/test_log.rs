//! The log that the liveness routes write to and read from.

use crate::time::Timestamp;
use vstd::prelude::*;
use vstd::string::*;

verus! {

/// A stored entry of the log.
#[derive(Debug)]
pub struct TestLog {
    pub id: i32,
    pub log: String,
    pub created_at: Option<Timestamp>,
}

/// What a stored entry holds.
pub struct TestLogView {
    pub id: int,
    pub log: Seq<char>,
    pub created_at: Option<Timestamp>,
}

impl View for TestLog {
    type V = TestLogView;

    open spec fn view(&self) -> TestLogView {
        TestLogView { id: self.id as int, log: self.log@, created_at: self.created_at }
    }
}

impl DeepView for TestLog {
    type V = TestLogView;

    open spec fn deep_view(&self) -> TestLogView {
        self@
    }
}

/// An entry that is to be stored.
#[derive(Debug)]
pub struct NewTestLog {
    pub log: String,
}

impl NewTestLog {
    /// The entry that the liveness route stores.
    pub fn new() -> (out: Self)
        ensures
            out.log@ == "test log"@,
    {
        Self { log: String::from_str("test log") }
    }
}

} // verus!
