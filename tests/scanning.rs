use dependabot_cleaner::model::Pull;
use dependabot_cleaner::model::Repository;
use dependabot_cleaner::paging::Pager;
use dependabot_cleaner::request::GithubHandler;
use dependabot_cleaner::scan::merge_outcome;
use dependabot_cleaner::scan::MergeOutcome;
use dependabot_cleaner::title::TitleClassifier;

fn handler() -> GithubHandler {
    GithubHandler::new("u".to_string(), "t".to_string())
}

fn repo(name: &str) -> Repository {
    Repository::new(
        name.to_string(),
        format!("https://api.github.com/repos/u/{}/pulls{{/number}}", name),
    )
}

fn pull(title: &str, number: u32) -> Pull {
    Pull::new(title.to_string(), number)
}

/// Walks a mock source that answers the pages in `pages` in turn; returns
/// the pages requested and the items received.
fn walk(pages: &[usize]) -> (Vec<u32>, usize) {
    let mut pager = Pager::new();
    let mut requested = Vec::new();
    let mut items = 0;
    while let Some(p) = pager.next_page() {
        requested.push(p);
        let len = pages[(p - 1) as usize];
        items += len;
        pager.record_page(len);
    }
    (requested, items)
}

#[test]
fn full_pages_then_empty() {
    for n in 0..5usize {
        let mut pages = vec![100; n];
        pages.push(0);
        let (requested, items) = walk(&pages);
        assert_eq!(requested.len(), n + 1);
        assert_eq!(requested, (1..=(n as u32 + 1)).collect::<Vec<u32>>());
        assert_eq!(items, 100 * n);
    }
}

#[test]
fn short_page_does_not_end_walk() {
    let (requested, items) = walk(&[100, 3, 0]);
    assert_eq!(requested, vec![1, 2, 3]);
    assert_eq!(items, 103);
}

#[test]
fn empty_account() {
    let (requested, items) = walk(&[0]);
    assert_eq!(requested, vec![1]);
    assert_eq!(items, 0);
    let c = TitleClassifier::new().unwrap();
    let merges = handler().detect_dependabot_prs(&c, &repo("r"), &Vec::new());
    assert!(merges.is_empty());
}

#[test]
fn merges_qualifying_pulls_in_order() {
    let c = TitleClassifier::new().unwrap();
    let pulls = vec![
        pull("Bump a from 1 to 2", 7),
        pull("Fix typo in README", 8),
        pull("bump b from 1 to 2", 9),
        pull("Bump c from 3 to 4", 10),
    ];
    let merges = handler().detect_dependabot_prs(&c, &repo("r"), &pulls);
    let urls: Vec<&str> = merges.iter().map(|m| m.request.url.as_str()).collect();
    let titles: Vec<&str> = merges.iter().map(|m| m.title.as_str()).collect();
    assert_eq!(titles, vec!["Bump a from 1 to 2", "Bump c from 3 to 4"]);
    assert_eq!(
        urls,
        vec![
            "https://api.github.com/repos/u/r/pulls/7/merge",
            "https://api.github.com/repos/u/r/pulls/10/merge",
        ]
    );
}

#[test]
fn second_scan_merges_nothing() {
    let c = TitleClassifier::new().unwrap();
    let h = handler();
    let r = repo("r");
    let open = vec![
        pull("Bump a from 1 to 2", 1),
        pull("Add feature", 2),
        pull("Bump c from 3 to 4", 3),
    ];
    let first = h.detect_dependabot_prs(&c, &r, &open);
    assert_eq!(first.len(), 2);
    let merged: Vec<String> = first.iter().map(|m| m.request.url.clone()).collect();
    let still_open: Vec<Pull> = open
        .into_iter()
        .filter(|p| !merged.contains(&h.generate_merge_pr(&r, p).url))
        .collect();
    assert_eq!(still_open.len(), 1);
    assert!(h.detect_dependabot_prs(&c, &r, &still_open).is_empty());
}

#[test]
fn repositories_scan_independently() {
    let c = TitleClassifier::new().unwrap();
    let h = handler();
    let a = repo("a");
    let b = repo("b");
    let page_a = vec![pull("Bump x from 1 to 2", 1)];
    let page_b = vec![pull("Bump y from 1 to 2", 5), pull("Docs", 6)];
    let alone_a = h.detect_dependabot_prs(&c, &a, &page_a);
    let mut pager_a = Pager::new();
    let mut pager_b = Pager::new();
    let mixed_b = h.detect_dependabot_prs(&c, &b, &page_b);
    pager_b.record_page(page_b.len());
    let mixed_a = h.detect_dependabot_prs(&c, &a, &page_a);
    pager_a.record_page(page_a.len());
    assert_eq!(alone_a[0].request.url, mixed_a[0].request.url);
    assert_eq!(mixed_b.len(), 1);
    assert_eq!(mixed_b[0].request.url, "https://api.github.com/repos/u/b/pulls/5/merge");
    assert_eq!(pager_a.next_page(), Some(2));
    assert_eq!(pager_b.next_page(), Some(2));
}

#[test]
fn merge_outcomes() {
    assert_eq!(merge_outcome(200), MergeOutcome::Merged);
    assert_eq!(merge_outcome(204), MergeOutcome::Merged);
    assert_eq!(merge_outcome(299), MergeOutcome::Merged);
    assert_eq!(merge_outcome(300), MergeOutcome::Refused(300));
    assert_eq!(merge_outcome(405), MergeOutcome::Refused(405));
    assert_eq!(merge_outcome(409), MergeOutcome::Refused(409));
    assert_eq!(merge_outcome(199), MergeOutcome::Refused(199));
}
