//! The entities that the listing endpoints return.
use vstd::prelude::*;

verus! {

/// A repository of the user, as one page of the repository list gives it.
#[derive(Debug, Clone, PartialEq, Eq)]
pub struct Repository {
    /// Display name, for the log only.
    pub name: String,
    /// The pulls endpoint, as a template that ends in `{/number}`.
    pub pulls_url: String,
}

/// An open pull request, as one page of a pull-request list gives it.
#[derive(Debug, Clone, PartialEq, Eq)]
pub struct Pull {
    pub title: String,
    pub number: u32,
}

/// What the decisions read of a pull request.
pub struct PullView {
    pub title: Seq<char>,
    pub number: u32,
}

impl View for Pull {
    type V = PullView;

    open spec fn view(&self) -> PullView {
        PullView { title: self.title@, number: self.number }
    }
}

impl Repository {
    pub fn new(name: String, pulls_url: String) -> (r: Repository)
        ensures
            r.name@ == name@,
            r.pulls_url@ == pulls_url@,
    {
        Repository { name, pulls_url }
    }
}

impl Pull {
    pub fn new(title: String, number: u32) -> (r: Pull)
        ensures
            r.title@ == title@,
            r.number == number,
    {
        Pull { title, number }
    }
}

} // verus!
