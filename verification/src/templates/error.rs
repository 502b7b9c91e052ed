//! The page of an error mail: the error's text, line by line.
use vstd::prelude::*;

verus! {

/// The lines of an error report.
pub struct Error<'a> {
    error_lines: Vec<&'a str>,
}

impl<'a> View for Error<'a> {
    type V = Seq<Seq<char>>;

    closed spec fn view(&self) -> Seq<Seq<char>> {
        self.error_lines@.map_values(|l: &str| l@)
    }
}

impl<'a> Error<'a> {
    /// A page showing `error_lines`, in order.
    pub fn new(error_lines: Vec<&'a str>) -> (res: Error<'a>)
        ensures
            res@ == error_lines@.map_values(|l: &str| l@),
    {
        Error { error_lines }
    }

    /// The lines shown.
    pub fn error_lines(&self) -> (res: &Vec<&'a str>)
        ensures
            res@.map_values(|l: &str| l@) == self@,
    {
        &self.error_lines
    }
}

} // verus!
