//! The error that control operations report.
use vstd::prelude::*;

verus! {

/// An error of the control interface, with the description that libxenctrl gives of it.
#[derive(Debug, PartialEq, Eq)]
pub struct XcError {
    desc: String,
}

impl View for XcError {
    type V = Seq<char>;

    closed spec fn view(&self) -> Seq<char> {
        self.desc@
    }
}

impl XcError {
    /// An error described by `desc`.
    pub fn new(desc: &str) -> (error: XcError)
        ensures
            error@ == desc@,
    {
        XcError { desc: desc.to_owned() }
    }

    /// An error that takes over the description `desc`.
    pub fn from_description(desc: String) -> (error: XcError)
        ensures
            error@ == desc@,
    {
        XcError { desc }
    }

    /// The description of the error.
    pub fn desc(&self) -> (desc: &str)
        ensures
            desc@ == self@,
    {
        self.desc.as_str()
    }
}

} // verus!
