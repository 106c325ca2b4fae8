use vstd::prelude::*;

verus! {

/// The service layer's failure: a repository call failed, with its message.
#[derive(Clone, PartialEq, Eq, Debug)]
pub enum Error {
    RepoError(String),
}

} // verus!
