//! The page of the daily mail: star and download counts of a repository.
use vstd::prelude::*;

verus! {

/// The counts shown on the daily page.
pub struct Normal {
    star: u32,
    download: i64,
}

impl View for Normal {
    type V = (u32, i64);

    closed spec fn view(&self) -> (u32, i64) {
        (self.star, self.download)
    }
}

impl Normal {
    /// A page showing `star` stars and `download` downloads.
    pub fn new(star: u32, download: i64) -> (res: Normal)
        ensures
            res@ == (star, download),
    {
        Normal { star, download }
    }

    /// The star count shown.
    pub fn star(&self) -> (res: u32)
        ensures
            res == self@.0,
    {
        self.star
    }

    /// The download count shown.
    pub fn download(&self) -> (res: i64)
        ensures
            res == self@.1,
    {
        self.download
    }
}

} // verus!
