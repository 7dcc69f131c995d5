//! The HTTP requests that the scan sends, as plain values.
use vstd::prelude::*;
use vstd::string::StringExecFns;

use crate::model::Repository;
use crate::model::Pull;

verus! {

pub open spec fn digit_chars() -> Seq<char> {
    seq!['0', '1', '2', '3', '4', '5', '6', '7', '8', '9']
}

/// The decimal digits of `n`, without leading zeros.
pub open spec fn decimal_of(n: nat) -> Seq<char>
    decreases n,
{
    if n < 10 {
        seq![digit_chars()[n as int]]
    } else {
        decimal_of(n / 10).push(digit_chars()[(n % 10) as int])
    }
}

fn digit_str(d: u32) -> (r: &'static str)
    requires
        d < 10,
    ensures
        r@ == seq![digit_chars()[d as int]],
{
    proof {
        reveal_strlit("0");
        reveal_strlit("1");
        reveal_strlit("2");
        reveal_strlit("3");
        reveal_strlit("4");
        reveal_strlit("5");
        reveal_strlit("6");
        reveal_strlit("7");
        reveal_strlit("8");
        reveal_strlit("9");
    }
    let r = if d == 0 {
        "0"
    } else if d == 1 {
        "1"
    } else if d == 2 {
        "2"
    } else if d == 3 {
        "3"
    } else if d == 4 {
        "4"
    } else if d == 5 {
        "5"
    } else if d == 6 {
        "6"
    } else if d == 7 {
        "7"
    } else if d == 8 {
        "8"
    } else {
        "9"
    };
    assert(r@ =~= seq![digit_chars()[d as int]]);
    r
}

/// Writes `n` in decimal.
pub fn decimal(n: u32) -> (r: String)
    ensures
        r@ == decimal_of(n as nat),
    decreases n,
{
    if n < 10 {
        String::from_str(digit_str(n))
    } else {
        let head = decimal(n / 10);
        let r = head.concat(digit_str(n % 10));
        assert(r@ =~= decimal_of(n as nat));
        r
    }
}

/// `s` with every occurrence of `pat` replaced by `rep`, taking occurrences
/// from the left and never overlapping.
pub open spec fn replace_all(s: Seq<char>, pat: Seq<char>, rep: Seq<char>) -> Seq<char>
    recommends
        pat.len() > 0,
    decreases s.len(),
{
    if pat.len() == 0 || s.len() < pat.len() {
        s
    } else if s.subrange(0, pat.len() as int) == pat {
        rep + replace_all(s.subrange(pat.len() as int, s.len() as int), pat, rep)
    } else {
        seq![s[0]] + replace_all(s.subrange(1, s.len() as int), pat, rep)
    }
}

/// Relies on str::replace, which replaces every match of a non-empty
/// pattern, left to right and without overlap, with `to`.
#[verifier::external_body]
fn replace_str(s: &str, from: &str, to: &str) -> (r: String)
    requires
        from@.len() > 0,
    ensures
        r@ == replace_all(s@, from@, to@),
{
    s.replace(from, to)
}

/// The HTTP method of a request.
#[derive(Debug, Clone, Copy, PartialEq, Eq, Structural)]
pub enum Method {
    Get,
    Put,
}

/// A request to the API: method, URL, query pairs, headers, and the user of
/// its Basic authentication. The token that goes with that user is left to
/// whoever sends the request, so that the request value never holds it.
#[derive(Debug, Clone)]
pub struct ApiRequest {
    pub method: Method,
    pub url: String,
    pub query: Vec<(String, String)>,
    pub headers: Vec<(String, String)>,
    /// The user name of the Basic authentication.
    pub auth_user: String,
}

pub struct RequestView {
    pub method: Method,
    pub url: Seq<char>,
    pub query: Seq<(Seq<char>, Seq<char>)>,
    pub headers: Seq<(Seq<char>, Seq<char>)>,
    pub auth_user: Seq<char>,
}

pub open spec fn pairs_view(v: Seq<(String, String)>) -> Seq<(Seq<char>, Seq<char>)> {
    v.map_values(|p: (String, String)| (p.0@, p.1@))
}

impl View for ApiRequest {
    type V = RequestView;

    open spec fn view(&self) -> RequestView {
        RequestView {
            method: self.method,
            url: self.url@,
            query: pairs_view(self.query@),
            headers: pairs_view(self.headers@),
            auth_user: self.auth_user@,
        }
    }
}

/// The headers of every request made for `user`.
pub open spec fn common_headers(user: Seq<char>) -> Seq<(Seq<char>, Seq<char>)> {
    seq![("Accept"@, "application/vnd.github.v3+json"@), ("User-Agent"@, user)]
}

/// The query of page `page` of a list, newest update first, 100 to a page.
pub open spec fn page_query(page: nat) -> Seq<(Seq<char>, Seq<char>)> {
    seq![
        ("sort"@, "updated"@),
        ("direction"@, "desc"@),
        ("per_page"@, "100"@),
        ("page"@, decimal_of(page)),
    ]
}

/// The query of page `page` of the open pull requests.
pub open spec fn open_pulls_query(page: nat) -> Seq<(Seq<char>, Seq<char>)> {
    seq![
        ("sort"@, "updated"@),
        ("direction"@, "desc"@),
        ("state"@, "open"@),
        ("per_page"@, "100"@),
        ("page"@, decimal_of(page)),
    ]
}

pub open spec fn placeholder() -> Seq<char> {
    "{/number}"@
}

/// The pull-request collection of a repository: its templated pulls URL
/// without the `{/number}` placeholder.
pub open spec fn pulls_collection_url(pulls_url: Seq<char>) -> Seq<char> {
    replace_all(pulls_url, placeholder(), Seq::empty())
}

/// The endpoint that merges pull request `number`.
pub open spec fn merge_url(pulls_url: Seq<char>, number: nat) -> Seq<char> {
    pulls_collection_url(pulls_url) + "/"@ + decimal_of(number) + "/merge"@
}

pub open spec fn repo_list_url(base: Seq<char>, user: Seq<char>) -> Seq<char> {
    base + "/users/"@ + user + "/repos"@
}

fn pair(k: &str, v: &str) -> (r: (String, String))
    ensures
        r.0@ == k@,
        r.1@ == v@,
{
    (String::from_str(k), String::from_str(v))
}

/// The API root, credentials and user agent that every request is made with.
pub struct GithubHandler {
    pub username: String,
    pub token: String,
    /// The API root, without a trailing slash.
    pub api_base: String,
}

impl GithubHandler {
    /// A handler for the public GitHub API.
    pub fn new(username: String, token: String) -> (r: GithubHandler)
        ensures
            r.username@ == username@,
            r.token@ == token@,
            r.api_base@ == "https://api.github.com"@,
    {
        GithubHandler { username, token, api_base: String::from_str("https://api.github.com") }
    }

    /// A handler for another API root.
    pub fn with_api_base(username: String, token: String, api_base: String) -> (r: GithubHandler)
        ensures
            r.username@ == username@,
            r.token@ == token@,
            r.api_base@ == api_base@,
    {
        GithubHandler { username, token, api_base }
    }

    fn headers(&self) -> (r: Vec<(String, String)>)
        ensures
            pairs_view(r@) == common_headers(self.username@),
    {
        proof {
            reveal_strlit("Accept");
            reveal_strlit("application/vnd.github.v3+json");
            reveal_strlit("User-Agent");
        }
        let mut r: Vec<(String, String)> = Vec::new();
        r.push(pair("Accept", "application/vnd.github.v3+json"));
        r.push((String::from_str("User-Agent"), self.username.clone()));
        assert(pairs_view(r@) =~= common_headers(self.username@));
        r
    }

    /// Page `page_no` of the user's repositories.
    pub fn generate_repo_list(&self, page_no: u32) -> (r: ApiRequest)
        ensures
            r@ == (RequestView {
                method: Method::Get,
                url: repo_list_url(self.api_base@, self.username@),
                query: page_query(page_no as nat),
                headers: common_headers(self.username@),
                auth_user: self.username@,
            }),
    {
        let url = self.api_base.clone().concat("/users/").concat(self.username.as_str()).concat(
            "/repos",
        );
        let mut query: Vec<(String, String)> = Vec::new();
        query.push(pair("sort", "updated"));
        query.push(pair("direction", "desc"));
        query.push(pair("per_page", "100"));
        query.push((String::from_str("page"), decimal(page_no)));
        proof {
            reveal_strlit("sort");
            reveal_strlit("updated");
            reveal_strlit("direction");
            reveal_strlit("desc");
            reveal_strlit("per_page");
            reveal_strlit("100");
            reveal_strlit("page");
            assert(pairs_view(query@) =~= page_query(page_no as nat));
            assert(url@ =~= repo_list_url(self.api_base@, self.username@));
        }
        ApiRequest { method: Method::Get, url, query, headers: self.headers(), auth_user: self.username.clone() }
    }

    /// Page `page_no` of the open pull requests of `repo`.
    pub fn generate_pulls_list(&self, repo: &Repository, page_no: u32) -> (r: ApiRequest)
        ensures
            r@ == (RequestView {
                method: Method::Get,
                url: pulls_collection_url(repo.pulls_url@),
                query: open_pulls_query(page_no as nat),
                headers: common_headers(self.username@),
                auth_user: self.username@,
            }),
    {
        proof {
            reveal_strlit("{/number}");
            reveal_strlit("");
        }
        let url = replace_str(repo.pulls_url.as_str(), "{/number}", "");
        assert(""@ =~= Seq::<char>::empty());
        let mut query: Vec<(String, String)> = Vec::new();
        query.push(pair("sort", "updated"));
        query.push(pair("direction", "desc"));
        query.push(pair("state", "open"));
        query.push(pair("per_page", "100"));
        query.push((String::from_str("page"), decimal(page_no)));
        proof {
            reveal_strlit("sort");
            reveal_strlit("updated");
            reveal_strlit("direction");
            reveal_strlit("desc");
            reveal_strlit("state");
            reveal_strlit("open");
            reveal_strlit("per_page");
            reveal_strlit("100");
            reveal_strlit("page");
            assert(pairs_view(query@) =~= open_pulls_query(page_no as nat));
        }
        ApiRequest { method: Method::Get, url, query, headers: self.headers(), auth_user: self.username.clone() }
    }

    /// The merge of `pull` in `repo`.
    pub fn generate_merge_pr(&self, repo: &Repository, pull: &Pull) -> (r: ApiRequest)
        ensures
            r@ == (RequestView {
                method: Method::Put,
                url: merge_url(repo.pulls_url@, pull.number as nat),
                query: Seq::empty(),
                headers: common_headers(self.username@),
                auth_user: self.username@,
            }),
    {
        proof {
            reveal_strlit("{/number}");
            reveal_strlit("");
            reveal_strlit("/");
            reveal_strlit("/merge");
        }
        let base = replace_str(repo.pulls_url.as_str(), "{/number}", "");
        assert(""@ =~= Seq::<char>::empty());
        let number = decimal(pull.number);
        let url = base.concat("/").concat(number.as_str()).concat("/merge");
        let query: Vec<(String, String)> = Vec::new();
        assert(pairs_view(query@) =~= Seq::empty());
        ApiRequest { method: Method::Put, url, query, headers: self.headers(), auth_user: self.username.clone() }
    }
}

} // verus!
