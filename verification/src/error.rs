//! Errors, and the places in the source that they point to.

use vstd::prelude::*;

verus! {

/// A place in the source: what `#[track_caller]` hands to a callee.
#[derive(Debug)]
pub struct Location {
    pub file: String,
    pub line: u32,
    pub column: u32,
}

/// A place in the source, with its file name as a sequence of characters.
pub struct LocationView {
    pub file: Seq<char>,
    pub line: u32,
    pub column: u32,
}

impl View for Location {
    type V = LocationView;

    open spec fn view(&self) -> LocationView {
        LocationView { file: self.file@, line: self.line, column: self.column }
    }
}

impl Clone for Location {
    fn clone(&self) -> (copy: Self)
        ensures
            copy@ == self@,
    {
        Location { file: self.file.clone(), line: self.line, column: self.column }
    }
}

/// What went wrong, and where the failing call stands.
#[derive(Debug)]
pub struct Exception {
    pub what: String,
    pub location: Location,
}

/// An error with its texts as sequences of characters.
pub struct ExceptionView {
    pub what: Seq<char>,
    pub location: LocationView,
}

impl View for Exception {
    type V = ExceptionView;

    open spec fn view(&self) -> ExceptionView {
        ExceptionView { what: self.what@, location: self.location@ }
    }
}

impl Exception {
    /// An error with a message of the caller's own.
    pub fn custom(what: String, location: &Location) -> (e: Exception)
        ensures
            e@ == (ExceptionView { what: what@, location: location@ }),
    {
        Exception { what, location: location.clone() }
    }

    /// The message.
    pub fn what(&self) -> (what: &str)
        ensures
            what@ == self@.what,
    {
        self.what.as_str()
    }
}

} // verus!
