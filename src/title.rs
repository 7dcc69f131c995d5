//! Classification of pull-request titles.
use vstd::prelude::*;

use regex::Regex;

verus! {

#[verifier::external_type_specification]
#[verifier::external_body]
pub struct ExRegex(regex::Regex);

#[verifier::external_type_specification]
#[verifier::external_body]
pub struct ExRegexError(regex::Error);

/// `w` stands in `t` from index `i` on.
pub open spec fn word_at(t: Seq<char>, w: Seq<char>, i: int) -> bool {
    0 <= i && i + w.len() <= t.len() && t.subrange(i, i + w.len()) == w
}

pub open spec fn bump_word() -> Seq<char> {
    seq!['B', 'u', 'm', 'p']
}

pub open spec fn from_word() -> Seq<char> {
    seq!['f', 'r', 'o', 'm']
}

pub open spec fn to_word() -> Seq<char> {
    seq!['t', 'o']
}

/// The shape of a dependency-update title: on one line, `Bump` at the start,
/// then `from` somewhere after it, then `to` somewhere after that.
pub open spec fn is_bump_title(t: Seq<char>) -> bool {
    &&& !t.contains('\n')
    &&& word_at(t, bump_word(), 0)
    &&& exists|i: int, j: int|
        4 <= i && i + 4 <= j && #[trigger] word_at(t, from_word(), i) && #[trigger] word_at(
            t,
            to_word(),
            j,
        )
}

/// The title `Bump <a> from <b> to <c>`.
pub open spec fn bump_form(a: Seq<char>, b: Seq<char>, c: Seq<char>) -> Seq<char> {
    bump_word() + seq![' '] + a + seq![' '] + from_word() + seq![' '] + b + seq![' '] + to_word()
        + seq![' '] + c
}

/// Every title `Bump <a> from <b> to <c>` whose three parts are non-empty and
/// free of line breaks is accepted.
pub proof fn lemma_bump_form_accepted(a: Seq<char>, b: Seq<char>, c: Seq<char>)
    requires
        a.len() > 0,
        b.len() > 0,
        c.len() > 0,
        !a.contains('\n'),
        !b.contains('\n'),
        !c.contains('\n'),
    ensures
        is_bump_title(bump_form(a, b, c)),
{
    let t = bump_form(a, b, c);
    let i: int = a.len() as int + 6;
    let j: int = i + b.len() as int + 6;
    assert(t.subrange(0, 4) =~= bump_word());
    assert(t.subrange(i, i + 4) =~= from_word());
    assert(t.subrange(j, j + 2) =~= to_word());
    assert(word_at(t, from_word(), i) && word_at(t, to_word(), j));
    assert forall|k: int| 0 <= k < t.len() implies t[k] != '\n' by {
        if k >= 5 && k < 5 + a.len() {
            assert(t[k] == a[k - 5]);
        } else if k >= i + 5 && k < i + 5 + b.len() {
            assert(t[k] == b[k - i - 5]);
        } else if k >= j + 3 {
            assert(t[k] == c[k - j - 3]);
        }
    }
}

/// A title is rejected unless it starts with `Bump` and holds `from` after
/// that and `to` after the `from`.
pub proof fn lemma_rejects_without_from_to(t: Seq<char>)
    requires
        !(word_at(t, bump_word(), 0) && exists|i: int, j: int|
            4 <= i && i + 4 <= j && #[trigger] word_at(t, from_word(), i) && #[trigger] word_at(
                t,
                to_word(),
                j,
            )),
    ensures
        !is_bump_title(t),
{
}

/// The regular expression whose matches are exactly the titles of
/// `is_bump_title`.
pub open spec fn bump_pattern() -> Seq<char> {
    "^Bump.*from.*to.*$"@
}

/// The error given when the title pattern cannot be compiled.
#[derive(Debug, Clone, Copy, PartialEq, Eq, Structural)]
pub enum PatternError {
    Invalid,
}

/// Decides which pull-request titles were written by a dependency-update bot.
pub struct TitleClassifier {
    /// Compiled from `source` by `new`, the only place that builds the struct.
    re: Regex,
    source: Ghost<Seq<char>>,
}

/// Relies on regex::Regex::new, which compiles `pattern` or says why it cannot.
/// It fails only on an invalid pattern or one whose regex would pass the
/// default size limit; `bump_pattern` is valid and small.
#[verifier::external_body]
fn compile_regex(pattern: &str) -> (r: Result<Regex, regex::Error>)
    ensures
        pattern@ == bump_pattern() ==> r is Ok,
{
    Regex::new(pattern)
}

impl TitleClassifier {
    /// The classifier holds the regex compiled from `bump_pattern`.
    pub closed spec fn wf(&self) -> bool {
        self.source@ == bump_pattern()
    }

    /// Compiles the title pattern. The pattern is fixed and valid, so this
    /// always succeeds.
    pub fn new() -> (r: Result<TitleClassifier, PatternError>)
        ensures
            r is Ok,
            r matches Ok(c) ==> c.wf(),
    {
        let pattern = "^Bump.*from.*to.*$";
        proof {
            reveal_strlit("^Bump.*from.*to.*$");
        }
        match compile_regex(pattern) {
            Ok(re) => Ok(TitleClassifier { re, source: Ghost(pattern@) }),
            Err(_) => Err(PatternError::Invalid),
        }
    }

    /// Relies on regex::Regex::is_match. The regex was compiled from
    /// `^Bump.*from.*to.*$` with no flags: `^` and `$` are the ends of the
    /// haystack and `.` is any character but `\n`, so it matches a title
    /// exactly when `is_bump_title` holds of it.
    #[verifier::external_body]
    fn regex_matches(&self, title: &str) -> (r: bool)
        requires
            self.wf(),
        ensures
            r == is_bump_title(title@),
    {
        self.re.is_match(title)
    }

    /// Whether a pull request with this title is to be merged.
    pub fn is_dependabot_title(&self, title: &str) -> (r: bool)
        requires
            self.wf(),
        ensures
            r == is_bump_title(title@),
    {
        self.regex_matches(title)
    }
}

} // verus!
