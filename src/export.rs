//! Exporting a generated problem to an online judge: the judge's manifest, and
//! which files to copy under which names.

pub mod syzoj;

use crate::error::Error;
use crate::generated::problem::Problem;
use vstd::prelude::*;

verus! {

/// The judges that a problem can be exported to.
#[derive(Debug, Clone, Copy, PartialEq, Eq)]
pub enum OnlineJudge {
    Syzoj,
}

/// A file to copy from `from` to the name `to` in the export directory.
#[derive(Debug, Clone)]
pub struct FileCopy {
    pub from: String,
    pub to: String,
}

/// An export: the judge's manifest and the files that go with it.
#[derive(Debug, Clone)]
pub struct Export<M> {
    pub manifest: M,
    pub copies: Vec<FileCopy>,
}

/// The export of a problem to one judge.
pub trait Exporter {
    type Manifest;

    /// `r` is what exporting `problem` gives.
    spec fn exports(problem: Problem, r: Result<Export<Self::Manifest>, Error>) -> bool;

    fn export(problem: &Problem) -> (r: Result<Export<Self::Manifest>, Error>)
        ensures
            Self::exports(*problem, r),
    ;
}

} // verus!
