use dependabot_cleaner::model::Pull;
use dependabot_cleaner::model::Repository;
use dependabot_cleaner::request::decimal;
use dependabot_cleaner::request::GithubHandler;
use dependabot_cleaner::request::Method;

fn pairs(v: &[(&str, &str)]) -> Vec<(String, String)> {
    v.iter().map(|(k, x)| (k.to_string(), x.to_string())).collect()
}

fn handler() -> GithubHandler {
    GithubHandler::new("u".to_string(), "secret".to_string())
}

fn repo() -> Repository {
    Repository::new(
        "r".to_string(),
        "https://api.github.com/repos/u/r/pulls{/number}".to_string(),
    )
}

#[test]
fn decimal_values() {
    assert_eq!(decimal(0), "0");
    assert_eq!(decimal(7), "7");
    assert_eq!(decimal(42), "42");
    assert_eq!(decimal(100), "100");
    assert_eq!(decimal(u32::MAX), "4294967295");
}

#[test]
fn pulls_list_endpoint_strips_placeholder() {
    let r = handler().generate_pulls_list(&repo(), 3);
    assert_eq!(r.method, Method::Get);
    assert_eq!(r.url, "https://api.github.com/repos/u/r/pulls");
    assert_eq!(
        r.query,
        pairs(&[
            ("sort", "updated"),
            ("direction", "desc"),
            ("state", "open"),
            ("per_page", "100"),
            ("page", "3"),
        ])
    );
    assert_eq!(
        r.headers,
        pairs(&[("Accept", "application/vnd.github.v3+json"), ("User-Agent", "u")])
    );
}

#[test]
fn merge_endpoint_for_pull_42() {
    let pull = Pull::new("Bump a from 1 to 2".to_string(), 42);
    let r = handler().generate_merge_pr(&repo(), &pull);
    assert_eq!(r.method, Method::Put);
    assert_eq!(r.url, "https://api.github.com/repos/u/r/pulls/42/merge");
    assert!(r.query.is_empty());
}

#[test]
fn repo_list_endpoint() {
    let r = handler().generate_repo_list(1);
    assert_eq!(r.method, Method::Get);
    assert_eq!(r.url, "https://api.github.com/users/u/repos");
    assert_eq!(
        r.query,
        pairs(&[("sort", "updated"), ("direction", "desc"), ("per_page", "100"), ("page", "1")])
    );
    assert_eq!(
        r.headers,
        pairs(&[("Accept", "application/vnd.github.v3+json"), ("User-Agent", "u")])
    );
}

#[test]
fn other_api_base() {
    let h = GithubHandler::with_api_base(
        "me".to_string(),
        "t".to_string(),
        "http://localhost:8080".to_string(),
    );
    assert_eq!(h.generate_repo_list(12).url, "http://localhost:8080/users/me/repos");
    assert_eq!(h.generate_repo_list(12).query[3], ("page".to_string(), "12".to_string()));
}

#[test]
fn token_stays_out_of_requests() {
    let h = handler();
    let r = h.generate_merge_pr(&repo(), &Pull::new("t".to_string(), 1));
    assert!(!r.url.contains("secret"));
    assert!(r.headers.iter().all(|(k, v)| !k.contains("secret") && !v.contains("secret")));
}

#[test]
fn requests_authenticate_as_handler_user() {
    let h = handler();
    let pull = Pull::new("Bump a from 1 to 2".to_string(), 5);
    assert_eq!(h.generate_repo_list(1).auth_user, "u");
    assert_eq!(h.generate_pulls_list(&repo(), 1).auth_user, "u");
    assert_eq!(h.generate_merge_pr(&repo(), &pull).auth_user, "u");
}
