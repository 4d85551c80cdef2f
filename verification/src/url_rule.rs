//! URL rules: glob patterns that restrict a browser profile to certain
//! URLs, and the URL parts they are matched against.
//!
//! A pattern is matched against the URL's host followed by its path
//! (for example `example.com/docs/index.html`). In a pattern `**` matches
//! any run of characters, `*` any run without `/`, `?` one character other
//! than `/`, and every other character itself.

use vstd::prelude::*;
use crate::text::chars_of;

verus! {

/// Whether glob `p` matches all of `s`.
pub open spec fn glob_matches(p: Seq<char>, s: Seq<char>) -> bool
    decreases p.len() + s.len(),
{
    if p.len() == 0 {
        s.len() == 0
    } else if p.len() >= 2 && p[0] == '*' && p[1] == '*' {
        glob_matches(p.subrange(2, p.len() as int), s)
            || (s.len() > 0 && glob_matches(p, s.subrange(1, s.len() as int)))
    } else if p[0] == '*' {
        glob_matches(p.subrange(1, p.len() as int), s)
            || (s.len() > 0 && s[0] != '/' && glob_matches(p, s.subrange(1, s.len() as int)))
    } else if p[0] == '?' {
        s.len() > 0 && s[0] != '/' && glob_matches(
            p.subrange(1, p.len() as int),
            s.subrange(1, s.len() as int),
        )
    } else {
        s.len() > 0 && s[0] == p[0] && glob_matches(
            p.subrange(1, p.len() as int),
            s.subrange(1, s.len() as int),
        )
    }
}

/// A `*` absorbs any run of characters without `/` in front of what the
/// rest of the pattern matches (when that rest does not itself start with
/// `*`, which would make a `**`).
pub proof fn star_absorbs_run_without_slash(p: Seq<char>, u: Seq<char>, t: Seq<char>)
    requires
        p.len() == 0 || p[0] != '*',
        forall|i: int| 0 <= i < u.len() ==> u[i] != '/',
        glob_matches(p, t),
    ensures
        glob_matches(seq!['*'] + p, u + t),
    decreases u.len(),
{
    let q = seq!['*'] + p;
    assert(q.subrange(1, q.len() as int) =~= p);
    if u.len() > 0 {
        let rest = u.subrange(1, u.len() as int);
        star_absorbs_run_without_slash(p, rest, t);
        assert((u + t).subrange(1, (u + t).len() as int) =~= rest + t);
        assert((u + t)[0] == u[0]);
    } else {
        assert(u + t =~= t);
    }
}

/// A `*` never matches a `/`: `*` alone matches exactly the texts without
/// `/`.
pub proof fn star_matches_exactly_texts_without_slash(s: Seq<char>)
    ensures
        glob_matches(seq!['*'], s) <==> forall|i: int| 0 <= i < s.len() ==> s[i] != '/',
    decreases s.len(),
{
    let star = seq!['*'];
    assert(star.len() == 1 && star[0] == '*');
    assert(star.subrange(1, star.len() as int) =~= Seq::<char>::empty());
    assert(glob_matches(Seq::<char>::empty(), s) == (s.len() == 0));
    if s.len() > 0 {
        let rest = s.subrange(1, s.len() as int);
        star_matches_exactly_texts_without_slash(rest);
        assert(glob_matches(star, s) == (s[0] != '/' && glob_matches(star, rest)));
        let all = forall|i: int| 0 <= i < s.len() ==> s[i] != '/';
        let all_rest = forall|i: int| 0 <= i < rest.len() ==> rest[i] != '/';
        if all {
            assert forall|i: int| 0 <= i < rest.len() implies rest[i] != '/' by {
                assert(rest[i] == s[i + 1]);
            }
        }
        if s[0] != '/' && all_rest {
            assert forall|i: int| 0 <= i < s.len() implies s[i] != '/' by {
                if i > 0 {
                    assert(rest[i - 1] == s[i]);
                }
            }
        }
        assert(all == (s[0] != '/' && all_rest));
    }
}

/// A `**` absorbs any run of characters, `/` included, in front of what
/// the rest of the pattern matches.
pub proof fn double_star_absorbs_any_run(p: Seq<char>, u: Seq<char>, t: Seq<char>)
    requires
        glob_matches(p, t),
    ensures
        glob_matches(seq!['*', '*'] + p, u + t),
    decreases u.len(),
{
    let q = seq!['*', '*'] + p;
    assert(q.subrange(2, q.len() as int) =~= p);
    if u.len() > 0 {
        let rest = u.subrange(1, u.len() as int);
        double_star_absorbs_any_run(p, rest, t);
        assert((u + t).subrange(1, (u + t).len() as int) =~= rest + t);
    } else {
        assert(u + t =~= t);
    }
}

/// A `?` matches one character other than `/`, and an ordinary character
/// matches itself.
pub proof fn single_characters_match(p: Seq<char>, c: char, t: Seq<char>)
    requires
        glob_matches(p, t),
    ensures
        c != '/' ==> glob_matches(seq!['?'] + p, seq![c] + t),
        !glob_matches(seq!['?'] + p, seq!['/'] + t),
        c != '*' && c != '?' ==> glob_matches(seq![c] + p, seq![c] + t),
{
    let s = seq![c] + t;
    assert(s.subrange(1, s.len() as int) =~= t);
    let q = seq!['?'] + p;
    assert(q.subrange(1, q.len() as int) =~= p);
    let r = seq![c] + p;
    assert(r.subrange(1, r.len() as int) =~= p);
    assert((seq!['/'] + t)[0] == '/');
}

/// The parts of a parsed URL that rules look at.
pub struct UrlParts {
    pub host: Option<String>,
    pub path: String,
}

/// Plain view of [`UrlParts`].
pub struct UrlPartsView {
    pub host: Option<Seq<char>>,
    pub path: Seq<char>,
}

impl View for UrlParts {
    type V = UrlPartsView;

    open spec fn view(&self) -> UrlPartsView {
        UrlPartsView {
            host: match self.host {
                Some(h) => Some(h@),
                None => None,
            },
            path: self.path@,
        }
    }
}

/// The text a rule pattern is matched against: host (empty when the URL
/// has none) followed by the path.
pub open spec fn match_subject(url: UrlPartsView) -> Seq<char> {
    match url.host {
        Some(h) => h + url.path,
        None => url.path,
    }
}

/// What `url::Url::parse` gives for `input`: `None` when the text is not a
/// URL, else the URL's host (if it has one) and its path.
pub uninterp spec fn url_parts(input: Seq<char>) -> Option<UrlPartsView>;

/// Parses `input` with `url::Url::parse` and keeps its host and path.
/// Trusted: the result is `url_parts(input@)`; what that is for a given
/// text (the WHATWG URL grammar) is not stated here.
#[verifier::external_body]
pub(crate) fn parse_url(input: &str) -> (r: Option<UrlParts>)
    ensures
        match r {
            Some(parts) => url_parts(input@) == Some(parts@),
            None => url_parts(input@) is None,
        },
{
    match url::Url::parse(input) {
        Ok(parsed) => Some(UrlParts {
            host: parsed.host_str().map(|h| h.to_string()),
            path: parsed.path().to_string(),
        }),
        Err(_) => None,
    }
}

/// A rule that restricts a browser profile to the URLs its glob pattern
/// matches.
pub struct UrlGlobMatcher {
    pub pattern: String,
}

impl UrlGlobMatcher {
    /// A matcher for the given glob pattern.
    pub fn new(pattern: String) -> (m: Self)
        ensures
            m.pattern@ == pattern@,
    {
        UrlGlobMatcher { pattern }
    }

    /// Whether the pattern matches the URL's host followed by its path.
    pub fn url_matches(&self, url: &UrlParts) -> (r: bool)
        ensures
            r == glob_matches(self.pattern@, match_subject(url@)),
    {
        let p = chars_of(self.pattern.as_str());
        let mut s: Vec<char> = match &url.host {
            Some(h) => chars_of(h.as_str()),
            None => Vec::new(),
        };
        let path = chars_of(url.path.as_str());
        let ghost before = s@;
        let mut i: usize = 0;
        while i < path.len()
            invariant
                i <= path@.len(),
                s@ == before + path@.subrange(0, i as int),
            decreases path.len() - i,
        {
            s.push(path[i]);
            i = i + 1;
            assert(s@ =~= before + path@.subrange(0, i as int));
        }
        assert(path@.subrange(0, path@.len() as int) =~= path@);
        assert(s@ =~= match_subject(url@));
        assert(p@.subrange(0, p@.len() as int) =~= self.pattern@);
        assert(s@.subrange(0, s@.len() as int) =~= s@);
        glob_match_from(&p, 0, &s, 0)
    }
}

impl Clone for UrlGlobMatcher {
    fn clone(&self) -> (r: Self)
        ensures
            r == *self,
    {
        UrlGlobMatcher { pattern: self.pattern.clone() }
    }
}

/// Glob matching of the suffixes `p[i..]` and `s[j..]`.
fn glob_match_from(p: &Vec<char>, i: usize, s: &Vec<char>, j: usize) -> (r: bool)
    requires
        i <= p@.len(),
        j <= s@.len(),
    ensures
        r == glob_matches(p@.subrange(i as int, p@.len() as int), s@.subrange(j as int, s@.len() as int)),
    decreases p@.len() - i + s@.len() - j,
{
    let ghost ps = p@.subrange(i as int, p@.len() as int);
    let ghost ss = s@.subrange(j as int, s@.len() as int);
    if i == p.len() {
        return j == s.len();
    }
    if i + 1 < p.len() && p[i] == '*' && p[i + 1] == '*' {
        assert(ps.subrange(2, ps.len() as int) =~= p@.subrange(i + 2, p@.len() as int));
        if glob_match_from(p, i + 2, s, j) {
            return true;
        }
        if j < s.len() {
            assert(ss.subrange(1, ss.len() as int) =~= s@.subrange(j + 1, s@.len() as int));
            return glob_match_from(p, i, s, j + 1);
        }
        return false;
    }
    if p[i] == '*' {
        assert(ps.subrange(1, ps.len() as int) =~= p@.subrange(i + 1, p@.len() as int));
        if glob_match_from(p, i + 1, s, j) {
            return true;
        }
        if j < s.len() && s[j] != '/' {
            assert(ss.subrange(1, ss.len() as int) =~= s@.subrange(j + 1, s@.len() as int));
            return glob_match_from(p, i, s, j + 1);
        }
        return false;
    }
    assert(ps.subrange(1, ps.len() as int) =~= p@.subrange(i + 1, p@.len() as int));
    if j == s.len() {
        return false;
    }
    assert(ss.subrange(1, ss.len() as int) =~= s@.subrange(j + 1, s@.len() as int));
    if p[i] == '?' {
        if s[j] == '/' {
            return false;
        }
        return glob_match_from(p, i + 1, s, j + 1);
    }
    if s[j] != p[i] {
        return false;
    }
    glob_match_from(p, i + 1, s, j + 1)
}

} // verus!
