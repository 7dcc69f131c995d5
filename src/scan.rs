//! Deciding, page by page, which pull requests of a repository to merge.
use vstd::prelude::*;

use crate::model::Pull;
use crate::model::PullView;
use crate::model::Repository;
use crate::request::ApiRequest;
use crate::request::GithubHandler;
use crate::request::Method;
use crate::request::RequestView;
use crate::request::common_headers;
use crate::request::merge_url;
use crate::title::TitleClassifier;
use crate::title::is_bump_title;

verus! {

pub open spec fn pull_views(s: Seq<Pull>) -> Seq<PullView> {
    s.map_values(|p: Pull| p@)
}

/// The pull requests of `s` whose titles qualify, in their order in `s`.
pub open spec fn bump_pulls(s: Seq<PullView>) -> Seq<PullView>
    decreases s.len(),
{
    if s.len() == 0 {
        Seq::empty()
    } else if is_bump_title(s.last().title) {
        bump_pulls(s.drop_last()).push(s.last())
    } else {
        bump_pulls(s.drop_last())
    }
}

/// The pull requests of `s` whose titles do not qualify, in their order.
pub open spec fn other_pulls(s: Seq<PullView>) -> Seq<PullView>
    decreases s.len(),
{
    if s.len() == 0 {
        Seq::empty()
    } else if is_bump_title(s.last().title) {
        other_pulls(s.drop_last())
    } else {
        other_pulls(s.drop_last()).push(s.last())
    }
}

/// The merge request of pull request `p` of `repo`.
pub open spec fn merge_request(h: &GithubHandler, repo: &Repository, p: PullView) -> RequestView {
    RequestView {
        method: Method::Put,
        url: merge_url(repo.pulls_url@, p.number as nat),
        query: Seq::empty(),
        headers: common_headers(h.username@),
        auth_user: h.username@,
    }
}

/// A merge to perform: the title of the pull request, for the log, and the
/// request that merges it.
#[derive(Debug)]
pub struct Merge {
    pub title: String,
    pub request: ApiRequest,
}

impl GithubHandler {
    /// The merges for one page of open pull requests of `repo`: one
    /// for each pull request whose title qualifies, in page order.
    pub fn detect_dependabot_prs(
        &self,
        classifier: &TitleClassifier,
        repo: &Repository,
        pulls: &Vec<Pull>,
    ) -> (r: Vec<Merge>)
        requires
            classifier.wf(),
        ensures
            r@.len() == bump_pulls(pull_views(pulls@)).len(),
            forall|k: int|
                0 <= k < r@.len() ==> #[trigger] r@[k].request@ == merge_request(
                    self,
                    repo,
                    bump_pulls(pull_views(pulls@))[k],
                ) && r@[k].title@ == bump_pulls(pull_views(pulls@))[k].title,
    {
        let mut r: Vec<Merge> = Vec::new();
        let mut i: usize = 0;
        while i < pulls.len()
            invariant
                i <= pulls@.len(),
                classifier.wf(),
                r@.len() == bump_pulls(pull_views(pulls@.subrange(0, i as int))).len(),
                forall|k: int|
                    0 <= k < r@.len() ==> #[trigger] r@[k].request@ == merge_request(
                        self,
                        repo,
                        bump_pulls(pull_views(pulls@.subrange(0, i as int)))[k],
                    ) && r@[k].title@ == bump_pulls(pull_views(pulls@.subrange(0, i as int)))[k].title,
            decreases pulls@.len() - i,
        {
            let ghost before = pull_views(pulls@.subrange(0, i as int));
            let ghost after = pull_views(pulls@.subrange(0, i + 1));
            assert(after.drop_last() =~= before);
            assert(after.last() == pulls@[i as int]@);
            let pull = &pulls[i];
            if classifier.is_dependabot_title(pull.title.as_str()) {
                let request = self.generate_merge_pr(repo, pull);
                r.push(Merge { title: pull.title.clone(), request });
            }
            i = i + 1;
        }
        assert(pulls@.subrange(0, pulls@.len() as int) =~= pulls@);
        r
    }
}

/// No pull request that `other_pulls` keeps qualifies.
proof fn lemma_others_do_not_qualify(s: Seq<PullView>)
    ensures
        bump_pulls(other_pulls(s)).len() == 0,
    decreases s.len(),
{
    if s.len() > 0 {
        lemma_others_do_not_qualify(s.drop_last());
        if !is_bump_title(s.last().title) {
            let o = other_pulls(s);
            assert(o.drop_last() =~= other_pulls(s.drop_last()));
        }
    }
}

/// A second scan of a repository whose first scan merged every qualifying
/// pull request, so that only the others are still open, finds nothing to
/// merge.
pub proof fn lemma_second_scan_merges_nothing(first: Seq<Pull>, second: Seq<Pull>)
    requires
        pull_views(second) == other_pulls(pull_views(first)),
    ensures
        bump_pulls(pull_views(second)) == Seq::<PullView>::empty(),
{
    lemma_others_do_not_qualify(pull_views(first));
    assert(bump_pulls(pull_views(second)) =~= Seq::<PullView>::empty());
}

/// What became of a merge request, by the HTTP status of its response.
#[derive(Debug, Clone, Copy, PartialEq, Eq, Structural)]
pub enum MergeOutcome {
    /// A 2xx status: the pull request was merged.
    Merged,
    /// Any other status (a conflict, a protected branch, a rate limit): the
    /// pull request stays open and the scan goes on.
    Refused(u16),
}

/// Classifies the status of a merge response.
pub fn merge_outcome(status: u16) -> (r: MergeOutcome)
    ensures
        200 <= status < 300 ==> r == MergeOutcome::Merged,
        !(200 <= status < 300) ==> r == MergeOutcome::Refused(status),
{
    if 200 <= status && status < 300 {
        MergeOutcome::Merged
    } else {
        MergeOutcome::Refused(status)
    }
}

/// How the repositories of one page are scanned.
#[derive(Debug, Clone, Copy, PartialEq, Eq, Structural)]
pub enum Policy {
    /// One after the other, in page order.
    Sequential,
    /// All at once; the page is done when every scan is.
    Concurrent,
}

} // verus!
