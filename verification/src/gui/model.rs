//! UI-facing application data: the chooser's state, the settings view's
//! values, and the browser list shown for a URL.

use vstd::prelude::*;
use vstd::string::*;
use crate::config::{
    BehavioralConfig, CommonBrowserProfile, Config, ConfigRule, ConfiguredTheme,
    ProfileAndOptions, UIConfig,
};
use crate::url_rule::{
    glob_matches, match_subject, parse_url, url_parts, UrlGlobMatcher, UrlParts, UrlPartsView,
};

verus! {

broadcast use vstd::seq_lib::group_seq_properties;

// ---------------------------------------------------------------------
// Browsers
// ---------------------------------------------------------------------

/// A browser profile as the chooser renders it.
pub struct UIBrowser {
    pub browser_profile_index: usize,
    pub is_first: bool,
    pub is_last: bool,
    pub restricted_url_matchers: Vec<UrlGlobMatcher>,
    pub browser_name: String,
    pub profile_name: String,
    pub profile_name_maybe: Option<String>,
    pub supports_profiles: bool,
    pub supports_incognito: bool,
    pub icon_path: String,
    pub profile_icon_path: String,
    pub unique_id: String,
    pub unique_app_id: String,
    pub filtered_index: usize,
}

/// Plain view of [`UIBrowser`].
pub struct UIBrowserView {
    pub browser_profile_index: usize,
    pub is_first: bool,
    pub is_last: bool,
    pub restricted_url_matchers: Seq<UrlGlobMatcher>,
    pub browser_name: Seq<char>,
    pub profile_name: Seq<char>,
    pub profile_name_maybe: Option<Seq<char>>,
    pub supports_profiles: bool,
    pub supports_incognito: bool,
    pub icon_path: Seq<char>,
    pub profile_icon_path: Seq<char>,
    pub unique_id: Seq<char>,
    pub unique_app_id: Seq<char>,
    pub filtered_index: usize,
}

/// The characters of an optional string.
pub open spec fn opt_view(s: Option<String>) -> Option<Seq<char>> {
    match s {
        Some(t) => Some(t@),
        None => None,
    }
}

impl View for UIBrowser {
    type V = UIBrowserView;

    open spec fn view(&self) -> UIBrowserView {
        UIBrowserView {
            browser_profile_index: self.browser_profile_index,
            is_first: self.is_first,
            is_last: self.is_last,
            restricted_url_matchers: self.restricted_url_matchers@,
            browser_name: self.browser_name@,
            profile_name: self.profile_name@,
            profile_name_maybe: opt_view(self.profile_name_maybe),
            supports_profiles: self.supports_profiles,
            supports_incognito: self.supports_incognito,
            icon_path: self.icon_path@,
            profile_icon_path: self.profile_icon_path@,
            unique_id: self.unique_id@,
            unique_app_id: self.unique_app_id@,
            filtered_index: self.filtered_index,
        }
    }
}

/// The views of a sequence of browsers.
pub open spec fn browser_views(bs: Seq<UIBrowser>) -> Seq<UIBrowserView> {
    bs.map_values(|b: UIBrowser| b@)
}

/// Whether a browser is restricted to certain URLs (and so listed first).
pub open spec fn has_priority(b: UIBrowserView) -> bool {
    b.restricted_url_matchers.len() > 0
}

/// The full display name: `browser (profile)` when the browser has real
/// profiles, else the browser's name.
pub open spec fn full_name(b: UIBrowserView) -> Seq<char> {
    if b.supports_profiles {
        b.browser_name + " ("@ + b.profile_name + ")"@
    } else {
        b.browser_name
    }
}

fn clone_matchers(v: &Vec<UrlGlobMatcher>) -> (r: Vec<UrlGlobMatcher>)
    ensures
        r@ == v@,
{
    let mut r: Vec<UrlGlobMatcher> = Vec::new();
    let mut i: usize = 0;
    while i < v.len()
        invariant
            i <= v@.len(),
            r@ == v@.subrange(0, i as int),
        decreases v.len() - i,
    {
        r.push(v[i].clone());
        i = i + 1;
        assert(r@ =~= v@.subrange(0, i as int));
    }
    assert(r@ =~= v@);
    r
}

fn clone_opt_string(s: &Option<String>) -> (r: Option<String>)
    ensures
        r == *s,
{
    match s {
        Some(t) => Some(t.clone()),
        None => None,
    }
}

impl Clone for UIBrowser {
    fn clone(&self) -> (r: Self)
        ensures
            r@ == self@,
    {
        UIBrowser {
            browser_profile_index: self.browser_profile_index,
            is_first: self.is_first,
            is_last: self.is_last,
            restricted_url_matchers: clone_matchers(&self.restricted_url_matchers),
            browser_name: self.browser_name.clone(),
            profile_name: self.profile_name.clone(),
            profile_name_maybe: clone_opt_string(&self.profile_name_maybe),
            supports_profiles: self.supports_profiles,
            supports_incognito: self.supports_incognito,
            icon_path: self.icon_path.clone(),
            profile_icon_path: self.profile_icon_path.clone(),
            unique_id: self.unique_id.clone(),
            unique_app_id: self.unique_app_id.clone(),
            filtered_index: self.filtered_index,
        }
    }
}

impl UIBrowser {
    /// Whether the browser is restricted to certain URLs.
    pub fn has_priority_ordering(&self) -> (r: bool)
        ensures
            r == has_priority(self@),
    {
        self.restricted_url_matchers.len() > 0
    }

    /// The full display name of the browser profile.
    pub fn get_full_name(&self) -> (r: String)
        ensures
            r@ == full_name(self@),
    {
        if self.supports_profiles {
            let mut name = self.browser_name.clone();
            name.append(" (");
            name.append(self.profile_name.as_str());
            name.append(")");
            name
        } else {
            self.browser_name.clone()
        }
    }
}

// ---------------------------------------------------------------------
// The browser list shown for a URL
// ---------------------------------------------------------------------

/// Whether a browser may open `url`: unrestricted browsers always may,
/// restricted ones only when the URL parsed and one of their rules matches.
pub open spec fn browser_applies(b: UIBrowserView, url: Option<UrlPartsView>) -> bool {
    b.restricted_url_matchers.len() == 0 || (url is Some && exists|k: int|
        0 <= k < b.restricted_url_matchers.len() && #[trigger] glob_matches(
            b.restricted_url_matchers[k].pattern@,
            match_subject(url->0),
        ))
}

/// `b` with its display position set to `i`.
pub open spec fn at_position(b: UIBrowserView, i: int) -> UIBrowserView {
    UIBrowserView { filtered_index: i as usize, ..b }
}

/// `s` with every browser's display position set to its index.
pub open spec fn reindexed(s: Seq<UIBrowserView>) -> Seq<UIBrowserView> {
    Seq::new(s.len(), |i: int| at_position(s[i], i))
}

/// The browsers shown for `url`, in display order: those that apply, the
/// URL-restricted ones first, each group keeping its order, and each
/// browser's display position set to its place in the list.
pub open spec fn filtered_browsers(bs: Seq<UIBrowserView>, url: Option<UrlPartsView>) -> Seq<UIBrowserView> {
    let kept = bs.filter(|b: UIBrowserView| browser_applies(b, url));
    reindexed(kept.filter(|b: UIBrowserView| has_priority(b)) + kept.filter(|b: UIBrowserView| !has_priority(b)))
}

/// A browser listed for a URL is one of the applicable browsers.
proof fn listed_entry_from_kept(bs: Seq<UIBrowserView>, url: Option<UrlPartsView>, k: int)
    requires
        0 <= k < filtered_browsers(bs, url).len(),
    ensures
        ({
            let kept = bs.filter(|b: UIBrowserView| browser_applies(b, url));
            let first = kept.filter(|b: UIBrowserView| has_priority(b));
            let others = kept.filter(|b: UIBrowserView| !has_priority(b));
            let joined = first + others;
            &&& filtered_browsers(bs, url)[k] == at_position(joined[k], k)
            &&& kept.contains(joined[k])
            &&& (k < first.len() <==> has_priority(joined[k]))
        }),
{
    broadcast use vstd::seq_lib::group_filter_ensures;

    let app = |b: UIBrowserView| browser_applies(b, url);
    let pri = |b: UIBrowserView| has_priority(b);
    let ord = |b: UIBrowserView| !has_priority(b);
    let kept = bs.filter(app);
    let first = kept.filter(pri);
    let others = kept.filter(ord);
    let joined = first + others;
    if k < first.len() {
        assert(first.contains(first[k]));
        kept.lemma_filter_contains_rev(pri, first[k]);
        assert(joined[k] == first[k]);
    } else {
        let m = k - first.len();
        assert(others.contains(others[m]));
        kept.lemma_filter_contains_rev(ord, others[m]);
        assert(joined[k] == others[m]);
        assert(ord(others[m]));
    }
}

/// Every browser listed for a URL applies to it.
pub proof fn listed_browsers_apply(bs: Seq<UIBrowserView>, url: Option<UrlPartsView>, k: int)
    requires
        0 <= k < filtered_browsers(bs, url).len(),
    ensures
        browser_applies(filtered_browsers(bs, url)[k], url),
{
    broadcast use vstd::seq_lib::group_filter_ensures;

    let app = |b: UIBrowserView| browser_applies(b, url);
    let kept = bs.filter(app);
    listed_entry_from_kept(bs, url, k);
    let first = kept.filter(|b: UIBrowserView| has_priority(b));
    let others = kept.filter(|b: UIBrowserView| !has_priority(b));
    let e = (first + others)[k];
    let j = choose|j: int| 0 <= j < kept.len() && kept[j] == e;
    assert(app(kept[j]));
}

/// In the list shown for a URL, the URL-restricted browsers come before
/// all the others.
pub proof fn restricted_browsers_listed_first(bs: Seq<UIBrowserView>, url: Option<UrlPartsView>, i: int, j: int)
    requires
        0 <= i < j < filtered_browsers(bs, url).len(),
        has_priority(filtered_browsers(bs, url)[j]),
    ensures
        has_priority(filtered_browsers(bs, url)[i]),
{
    listed_entry_from_kept(bs, url, i);
    listed_entry_from_kept(bs, url, j);
}

/// Every browser that applies to a URL is listed for it.
pub proof fn applicable_browsers_listed(bs: Seq<UIBrowserView>, url: Option<UrlPartsView>, i: int)
    requires
        0 <= i < bs.len(),
        browser_applies(bs[i], url),
    ensures
        exists|k: int| 0 <= k < filtered_browsers(bs, url).len()
            && #[trigger] filtered_browsers(bs, url)[k] == at_position(bs[i], k),
{
    broadcast use vstd::seq_lib::group_filter_ensures;

    let app = |b: UIBrowserView| browser_applies(b, url);
    let pri = |b: UIBrowserView| has_priority(b);
    let ord = |b: UIBrowserView| !has_priority(b);
    let kept = bs.filter(app);
    let first = kept.filter(pri);
    let others = kept.filter(ord);
    let joined = first + others;
    assert(kept.contains(bs[i]));
    let m = choose|m: int| 0 <= m < kept.len() && kept[m] == bs[i];
    if has_priority(bs[i]) {
        assert(first.contains(kept[m]));
        let k = choose|k: int| 0 <= k < first.len() && first[k] == kept[m];
        assert(joined[k] == bs[i]);
        assert(filtered_browsers(bs, url)[k] == at_position(bs[i], k));
    } else {
        assert(others.contains(kept[m]));
        let n = choose|n: int| 0 <= n < others.len() && others[n] == kept[m];
        let k = first.len() + n;
        assert(joined[k] == bs[i]);
        assert(filtered_browsers(bs, url)[k] == at_position(bs[i], k));
    }
}

/// Filtering keeps exactly a prefix when the predicate holds on it alone.
proof fn filter_keeps_prefix<A>(s: Seq<A>, p: spec_fn(A) -> bool, n: int)
    requires
        0 <= n <= s.len(),
        forall|i: int| 0 <= i < s.len() ==> (p(#[trigger] s[i]) <==> i < n),
    ensures
        s.filter(p) == s.take(n),
    decreases s.len(),
{
    broadcast use vstd::seq_lib::group_filter_ensures;

    if s.len() == 0 {
        assert(s.filter(p) =~= s.take(n));
    } else {
        let t = s.drop_last();
        let m = if n == s.len() { n - 1 } else { n };
        assert forall|i: int| 0 <= i < t.len() implies (p(#[trigger] t[i]) <==> i < m) by {
            assert(t[i] == s[i]);
        }
        filter_keeps_prefix(t, p, m);
        assert(s =~= t.push(s.last()));
        t.lemma_filter_push(s.last(), p);
        assert(p(s.last()) <==> s.len() - 1 < n);
        if n == s.len() {
            assert(t.take(m).push(s.last()) =~= s.take(n));
        } else {
            assert(t.take(m) =~= s.take(n));
        }
    }
}

/// Filtering keeps exactly a suffix when the predicate holds on it alone.
proof fn filter_keeps_suffix<A>(s: Seq<A>, p: spec_fn(A) -> bool, n: int)
    requires
        0 <= n <= s.len(),
        forall|i: int| 0 <= i < s.len() ==> (p(#[trigger] s[i]) <==> n <= i),
    ensures
        s.filter(p) == s.skip(n),
    decreases s.len(),
{
    broadcast use vstd::seq_lib::group_filter_ensures;

    if s.len() == 0 {
        assert(s.filter(p) =~= s.skip(n));
    } else {
        let t = s.drop_last();
        let m = if n == s.len() { n - 1 } else { n };
        assert forall|i: int| 0 <= i < t.len() implies (p(#[trigger] t[i]) <==> m <= i) by {
            assert(t[i] == s[i]);
        }
        filter_keeps_suffix(t, p, m);
        assert(s =~= t.push(s.last()));
        t.lemma_filter_push(s.last(), p);
        assert(p(s.last()) <==> n <= s.len() - 1);
        if n == s.len() {
            assert(t.skip(m) =~= s.skip(n));
        } else {
            assert(t.skip(m).push(s.last()) =~= s.skip(n));
        }
    }
}

/// Every browser of the list shown for a URL applies to it again.
proof fn listed_browsers_all_apply(bs: Seq<UIBrowserView>, url: Option<UrlPartsView>)
    ensures
        filtered_browsers(bs, url).filter(|b: UIBrowserView| browser_applies(b, url)) == filtered_browsers(bs, url),
{
    let l = filtered_browsers(bs, url);
    let app = |b: UIBrowserView| browser_applies(b, url);
    assert forall|k: int| 0 <= k < l.len() implies (app(#[trigger] l[k]) <==> k < l.len()) by {
        listed_browsers_apply(bs, url, k);
    }
    filter_keeps_prefix(l, app, l.len() as int);
    assert(l.take(l.len() as int) =~= l);
}

/// The list shown for a URL holds its restricted browsers, then the
/// others.
proof fn listed_browsers_split(bs: Seq<UIBrowserView>, url: Option<UrlPartsView>)
    ensures
        ({
            let l = filtered_browsers(bs, url);
            let n = bs.filter(|b: UIBrowserView| browser_applies(b, url)).filter(|b: UIBrowserView| has_priority(b)).len() as int;
            &&& 0 <= n <= l.len()
            &&& l.filter(|b: UIBrowserView| has_priority(b)) == l.take(n)
            &&& l.filter(|b: UIBrowserView| !has_priority(b)) == l.skip(n)
        }),
{
    let l = filtered_browsers(bs, url);
    let kept = bs.filter(|b: UIBrowserView| browser_applies(b, url));
    let first = kept.filter(|b: UIBrowserView| has_priority(b));
    let others = kept.filter(|b: UIBrowserView| !has_priority(b));
    let pri = |b: UIBrowserView| has_priority(b);
    let ord = |b: UIBrowserView| !has_priority(b);
    let n = first.len() as int;
    assert(l.len() == first.len() + others.len());
    assert forall|k: int| 0 <= k < l.len() implies (pri(#[trigger] l[k]) <==> k < n) by {
        listed_entry_from_kept(bs, url, k);
    }
    assert forall|k: int| 0 <= k < l.len() implies (ord(#[trigger] l[k]) <==> n <= k) by {
        listed_entry_from_kept(bs, url, k);
    }
    filter_keeps_prefix(l, pri, n);
    filter_keeps_suffix(l, ord, n);
}

/// Renumbering a renumbered list changes nothing.
proof fn reindexed_twice(s: Seq<UIBrowserView>)
    ensures
        reindexed(reindexed(s)) == reindexed(s),
{
    assert(reindexed(reindexed(s)) =~= reindexed(s));
}

/// Filtering the list shown for a URL again, for the same URL, gives the
/// same list.
pub proof fn filtering_again_changes_nothing(bs: Seq<UIBrowserView>, url: Option<UrlPartsView>)
    ensures
        filtered_browsers(filtered_browsers(bs, url), url) == filtered_browsers(bs, url),
{
    let app = |b: UIBrowserView| browser_applies(b, url);
    let pri = |b: UIBrowserView| has_priority(b);
    let ord = |b: UIBrowserView| !has_priority(b);
    let kept = bs.filter(app);
    let joined = kept.filter(pri) + kept.filter(ord);
    let l = filtered_browsers(bs, url);
    assert(l == reindexed(joined));
    listed_browsers_all_apply(bs, url);
    listed_browsers_split(bs, url);
    let n = kept.filter(pri).len() as int;
    assert(l.filter(app) == l);
    assert(l.filter(app).filter(pri) + l.filter(app).filter(ord) == l.take(n) + l.skip(n));
    assert(l.take(n) + l.skip(n) =~= l);
    reindexed_twice(joined);
    assert(filtered_browsers(l, url) == reindexed(l.filter(app).filter(pri) + l.filter(app).filter(ord)));
}

/// The view of an optional parsed URL.
pub open spec fn parts_view(url: Option<UrlParts>) -> Option<UrlPartsView> {
    match url {
        Some(u) => Some(u@),
        None => None,
    }
}

fn browser_applies_exec(b: &UIBrowser, url: &Option<UrlParts>) -> (r: bool)
    ensures
        r == browser_applies(b@, parts_view(*url)),
{
    if b.restricted_url_matchers.len() == 0 {
        return true;
    }
    match url {
        None => false,
        Some(u) => {
            let mut k: usize = 0;
            while k < b.restricted_url_matchers.len()
                invariant
                    k <= b.restricted_url_matchers@.len(),
                    parts_view(*url) == Some(u@),
                    forall|j: int|
                        0 <= j < k ==> !glob_matches(
                            #[trigger] b.restricted_url_matchers@[j].pattern@,
                            match_subject(u@),
                        ),
                decreases b.restricted_url_matchers.len() - k,
            {
                if b.restricted_url_matchers[k].url_matches(u) {
                    assert(glob_matches(
                        b.restricted_url_matchers@[k as int].pattern@,
                        match_subject(u@),
                    ));
                    assert(parts_view(*url)->0 == u@);
                    assert(b@.restricted_url_matchers[k as int] == b.restricted_url_matchers@[k as int]);
                    assert(glob_matches(
                        b@.restricted_url_matchers[k as int].pattern@,
                        match_subject(parts_view(*url)->0),
                    ));
                    return true;
                }
                k = k + 1;
            }
            false
        },
    }
}

/// The browsers shown for an already parsed URL (`None` when it did not
/// parse), in display order.
pub fn filter_browsers(url: &Option<UrlParts>, ui_browsers: &Vec<UIBrowser>) -> (r: Vec<UIBrowser>)
    ensures
        browser_views(r@) == filtered_browsers(browser_views(ui_browsers@), parts_view(*url)),
{
    let ghost u: Option<UrlPartsView> = parts_view(*url);
    let ghost all = browser_views(ui_browsers@);
    let ghost app = |b: UIBrowserView| browser_applies(b, u);
    let ghost pri = |b: UIBrowserView| has_priority(b);
    let ghost ord = |b: UIBrowserView| !has_priority(b);
    let mut first: Vec<UIBrowser> = Vec::new();
    let mut rest: Vec<UIBrowser> = Vec::new();
    let mut i: usize = 0;
    while i < ui_browsers.len()
        invariant
            i <= ui_browsers@.len(),
            all == browser_views(ui_browsers@),
            u == parts_view(*url),
            app == (|b: UIBrowserView| browser_applies(b, u)),
            pri == (|b: UIBrowserView| has_priority(b)),
            ord == (|b: UIBrowserView| !has_priority(b)),
            browser_views(first@) == all.take(i as int).filter(app).filter(pri),
            browser_views(rest@) == all.take(i as int).filter(app).filter(ord),
        decreases ui_browsers.len() - i,
    {
        let b = &ui_browsers[i];
        let ghost old_first = browser_views(first@);
        let ghost old_rest = browser_views(rest@);
        proof {
            assert(all.take(i + 1) =~= all.take(i as int).push(b@));
            all.take(i as int).lemma_filter_push(b@, app);
            all.take(i as int).filter(app).lemma_filter_push(b@, pri);
            all.take(i as int).filter(app).lemma_filter_push(b@, ord);
        }
        if browser_applies_exec(b, url) {
            assert(app(b@));
            assert(all.take(i + 1).filter(app) == all.take(i as int).filter(app).push(b@));
            if b.has_priority_ordering() {
                first.push(b.clone());
                assert(browser_views(first@) =~= old_first.push(b@));
                assert(browser_views(rest@) =~= old_rest);
            } else {
                rest.push(b.clone());
                assert(browser_views(rest@) =~= old_rest.push(b@));
                assert(browser_views(first@) =~= old_first);
            }
        } else {
            assert(!app(b@));
            assert(all.take(i + 1).filter(app) == all.take(i as int).filter(app));
        }
        i = i + 1;
    }
    assert(all.take(ui_browsers@.len() as int) =~= all);
    let ghost joined = all.filter(app).filter(pri) + all.filter(app).filter(ord);
    let mut r: Vec<UIBrowser> = Vec::new();
    let mut j: usize = 0;
    while j < first.len()
        invariant
            j <= first@.len(),
            joined == browser_views(first@) + browser_views(rest@),
            r@.len() == j,
            forall|k: int| 0 <= k < j ==> #[trigger] r@[k]@ == at_position(joined[k], k),
        decreases first.len() - j,
    {
        let mut b = first[j].clone();
        b.filtered_index = j;
        r.push(b);
        j = j + 1;
    }
    let mut m: usize = 0;
    while m < rest.len()
        invariant
            m <= rest@.len(),
            joined == browser_views(first@) + browser_views(rest@),
            r@.len() == first@.len() + m,
            forall|k: int| 0 <= k < r@.len() ==> #[trigger] r@[k]@ == at_position(joined[k], k),
        decreases rest.len() - m,
    {
        let mut b = rest[m].clone();
        b.filtered_index = r.len();
        r.push(b);
        m = m + 1;
    }
    assert(browser_views(r@) =~= reindexed(joined));
    r
}

/// The browsers shown for `url`, in display order: those that apply to it,
/// URL-restricted ones first, with display positions renumbered.
pub fn get_filtered_browsers(url: &str, ui_browsers: &Vec<UIBrowser>) -> (r: Vec<UIBrowser>)
    ensures
        browser_views(r@) == filtered_browsers(browser_views(ui_browsers@), url_parts(url@)),
{
    let parsed = parse_url(url);
    filter_browsers(&parsed, ui_browsers)
}

// ---------------------------------------------------------------------
// Settings values
// ---------------------------------------------------------------------

/// A chosen profile (by unique id) and whether it opens in private mode.
pub struct UIProfileAndIncognito {
    pub profile: String,
    pub incognito: bool,
}

impl UIProfileAndIncognito {
    /// The settings-view form of a configured profile choice.
    pub fn from(value: &ProfileAndOptions) -> (r: Self)
        ensures
            r.profile@ == value.profile@,
            r.incognito == value.incognito,
    {
        UIProfileAndIncognito { profile: value.profile.clone(), incognito: value.incognito }
    }
}

impl Clone for UIProfileAndIncognito {
    fn clone(&self) -> (r: Self)
        ensures
            r == *self,
    {
        UIProfileAndIncognito { profile: self.profile.clone(), incognito: self.incognito }
    }
}

/// The optional profile choice of the configuration, in settings-view form.
pub open spec fn opener_of(value: Option<ProfileAndOptions>) -> Option<(Seq<char>, bool)> {
    match value {
        Some(p) => Some((p.profile@, p.incognito)),
        None => None,
    }
}

/// The view of an optional settings-view profile choice.
pub open spec fn opener_view(value: Option<UIProfileAndIncognito>) -> Option<(Seq<char>, bool)> {
    match value {
        Some(p) => Some((p.profile@, p.incognito)),
        None => None,
    }
}

fn opener_from_config(value: &Option<ProfileAndOptions>) -> (r: Option<UIProfileAndIncognito>)
    ensures
        opener_view(r) == opener_of(*value),
{
    match value {
        Some(p) => Some(UIProfileAndIncognito::from(p)),
        None => None,
    }
}

/// The tabs of the settings view.
#[derive(Clone, Copy, Debug, PartialEq, Eq, Structural)]
pub enum SettingsTab {
    General,
    Rules,
    Advanced,
}

impl Default for SettingsTab {
    fn default() -> (r: Self)
        ensures
            r == SettingsTab::General,
    {
        SettingsTab::General
    }
}

impl SettingsTab {
    pub const GENERAL: SettingsTab = SettingsTab::General;
    pub const RULES: SettingsTab = SettingsTab::Rules;
    pub const ADVANCED: SettingsTab = SettingsTab::Advanced;

    /// The tab at a position of the tab bar: 1 is Rules, 2 is Advanced,
    /// every other position is General.
    pub fn from_index(index: usize) -> (r: Self)
        ensures
            r == (if index == 1 {
                SettingsTab::Rules
            } else if index == 2 {
                SettingsTab::Advanced
            } else {
                SettingsTab::General
            }),
    {
        match index {
            1 => SettingsTab::Rules,
            2 => SettingsTab::Advanced,
            _ => SettingsTab::General,
        }
    }
}

/// An opening rule as the settings view edits it.
pub struct UISettingsRule {
    pub index: usize,
    pub saved: bool,
    pub deleted: bool,
    pub source_app: String,
    pub url_pattern: String,
    pub opener: Option<UIProfileAndIncognito>,
}

impl Clone for UISettingsRule {
    fn clone(&self) -> (r: Self)
        ensures
            r == *self,
    {
        UISettingsRule {
            index: self.index,
            saved: self.saved,
            deleted: self.deleted,
            source_app: self.source_app.clone(),
            url_pattern: self.url_pattern.clone(),
            opener: match &self.opener {
                Some(o) => Some(o.clone()),
                None => None,
            },
        }
    }
}

/// An empty text means "not set".
pub open spec fn non_empty(s: Seq<char>) -> Option<Seq<char>> {
    if s.len() == 0 {
        None
    } else {
        Some(s)
    }
}

impl UISettingsRule {
    /// The source application, or `None` when it is empty.
    pub fn get_source_app(&self) -> (r: Option<String>)
        ensures
            opt_view(r) == non_empty(self.source_app@),
    {
        if self.source_app.as_str().unicode_len() == 0 {
            None
        } else {
            Some(self.source_app.clone())
        }
    }

    /// The URL pattern, or `None` when it is empty.
    pub fn get_url_pattern(&self) -> (r: Option<String>)
        ensures
            opt_view(r) == non_empty(self.url_pattern@),
    {
        if self.url_pattern.as_str().unicode_len() == 0 {
            None
        } else {
            Some(self.url_pattern.clone())
        }
    }
}

/// Appearance settings shown in the settings view.
#[derive(Clone, Copy, Debug, PartialEq, Eq, Structural)]
pub struct UIVisualSettings {
    pub show_hotkeys: bool,
    pub quit_on_lost_focus: bool,
    pub theme: ConfiguredTheme,
}

impl UIVisualSettings {
    /// The appearance settings of the configuration.
    pub fn from_config(config: &UIConfig) -> (r: Self)
        ensures
            r.show_hotkeys == config.show_hotkeys,
            r.quit_on_lost_focus == config.quit_on_lost_focus,
            r.theme == config.theme,
    {
        UIVisualSettings {
            show_hotkeys: config.show_hotkeys,
            quit_on_lost_focus: config.quit_on_lost_focus,
            theme: config.theme,
        }
    }
}

/// Link-handling settings shown in the settings view.
#[derive(Clone, Copy, Debug, PartialEq, Eq, Structural)]
pub struct UIBehavioralSettings {
    pub unwrap_urls: bool,
}

impl UIBehavioralSettings {
    /// The link-handling settings of the configuration.
    pub fn from_config(config: &BehavioralConfig) -> (r: Self)
        ensures
            r.unwrap_urls == config.unwrap_urls,
    {
        UIBehavioralSettings { unwrap_urls: config.unwrap_urls }
    }
}

/// The settings-view form of the `index`-th configured rule.
pub open spec fn settings_rule_of(rule: ConfigRule, index: int) -> (usize, bool, bool, Seq<char>, Seq<char>, Option<(Seq<char>, bool)>) {
    (
        index as usize,
        true,
        false,
        match rule.source_app { Some(s) => s@, None => Seq::empty() },
        match rule.url_pattern { Some(s) => s@, None => Seq::empty() },
        opener_of(rule.opener),
    )
}

/// The plain tuple form of a settings-view rule.
pub open spec fn rule_tuple(rule: UISettingsRule) -> (usize, bool, bool, Seq<char>, Seq<char>, Option<(Seq<char>, bool)>) {
    (rule.index, rule.saved, rule.deleted, rule.source_app@, rule.url_pattern@, opener_view(rule.opener))
}

/// Settings values exposed to the settings view.
pub struct UISettings {
    pub tab: SettingsTab,
    pub default_opener: Option<UIProfileAndIncognito>,
    pub rules: Vec<UISettingsRule>,
    pub visual_settings: UIVisualSettings,
    pub behavioral_settings: UIBehavioralSettings,
}

impl Clone for UISettings {
    fn clone(&self) -> (r: Self)
        ensures
            r.tab == self.tab,
            r.default_opener == self.default_opener,
            r.rules@ == self.rules@,
            r.visual_settings == self.visual_settings,
            r.behavioral_settings == self.behavioral_settings,
    {
        let mut rules: Vec<UISettingsRule> = Vec::new();
        let mut i: usize = 0;
        while i < self.rules.len()
            invariant
                i <= self.rules@.len(),
                rules@ == self.rules@.subrange(0, i as int),
            decreases self.rules.len() - i,
        {
            rules.push(self.rules[i].clone());
            i = i + 1;
            assert(rules@ =~= self.rules@.subrange(0, i as int));
        }
        assert(rules@ =~= self.rules@);
        UISettings {
            tab: self.tab,
            default_opener: match &self.default_opener {
                Some(o) => Some(o.clone()),
                None => None,
            },
            rules,
            visual_settings: self.visual_settings,
            behavioral_settings: self.behavioral_settings,
        }
    }
}

impl UISettings {
    /// The settings view's values for a configuration: the General tab,
    /// the default opener, every configured rule in order (saved, not
    /// deleted, numbered by position, unset texts empty), and the
    /// appearance and link-handling settings.
    pub fn from_config(config: &Config) -> (r: Self)
        ensures
            r.tab == SettingsTab::General,
            opener_view(r.default_opener) == opener_of(config.default_profile),
            r.rules@.len() == config.rules@.len(),
            forall|i: int| 0 <= i < r.rules@.len() ==>
                rule_tuple(#[trigger] r.rules@[i]) == settings_rule_of(config.rules@[i], i),
            r.visual_settings.show_hotkeys == config.ui.show_hotkeys,
            r.visual_settings.quit_on_lost_focus == config.ui.quit_on_lost_focus,
            r.visual_settings.theme == config.ui.theme,
            r.behavioral_settings.unwrap_urls == config.behavior.unwrap_urls,
    {
        let mut rules: Vec<UISettingsRule> = Vec::new();
        let mut i: usize = 0;
        while i < config.rules.len()
            invariant
                i <= config.rules@.len(),
                rules@.len() == i,
                forall|j: int| 0 <= j < i ==>
                    rule_tuple(#[trigger] rules@[j]) == settings_rule_of(config.rules@[j], j),
            decreases config.rules.len() - i,
        {
            let rule = &config.rules[i];
            let source_app = match rule.get_source_app() {
                Some(s) => s,
                None => String::new(),
            };
            let url_pattern = match rule.get_url_pattern() {
                Some(s) => s,
                None => String::new(),
            };
            rules.push(UISettingsRule {
                index: i,
                saved: true,
                deleted: false,
                source_app,
                url_pattern,
                opener: opener_from_config(&rule.opener),
            });
            i = i + 1;
        }
        UISettings {
            tab: SettingsTab::General,
            default_opener: opener_from_config(&config.default_profile),
            rules,
            visual_settings: UIVisualSettings::from_config(&config.ui),
            behavioral_settings: UIBehavioralSettings::from_config(&config.behavior),
        }
    }

    /// The same as [`UISettings::from_config`].
    pub fn config_to_ui_settings(config: &Config) -> (r: Self)
        ensures
            r.tab == SettingsTab::General,
            opener_view(r.default_opener) == opener_of(config.default_profile),
            r.rules@.len() == config.rules@.len(),
            forall|i: int| 0 <= i < r.rules@.len() ==>
                rule_tuple(#[trigger] r.rules@[i]) == settings_rule_of(config.rules@[i], i),
            r.visual_settings.show_hotkeys == config.ui.show_hotkeys,
            r.visual_settings.quit_on_lost_focus == config.ui.quit_on_lost_focus,
            r.visual_settings.theme == config.ui.theme,
            r.behavioral_settings.unwrap_urls == config.behavior.unwrap_urls,
    {
        Self::from_config(config)
    }

    /// Appends an empty, unsaved rule numbered by its position and returns it.
    pub fn add_empty_rule(&mut self) -> (r: &UISettingsRule)
        ensures
            final(self).tab == old(self).tab,
            final(self).default_opener == old(self).default_opener,
            final(self).visual_settings == old(self).visual_settings,
            final(self).behavioral_settings == old(self).behavioral_settings,
            final(self).rules@.len() == old(self).rules@.len() + 1,
            final(self).rules@.drop_last() == old(self).rules@,
            *r == final(self).rules@.last(),
            r.index == old(self).rules@.len(),
            !r.saved,
            !r.deleted,
            r.source_app@ == Seq::<char>::empty(),
            r.url_pattern@ == Seq::<char>::empty(),
            r.opener is None,
    {
        let index = self.rules.len();
        self.rules.push(UISettingsRule {
            index,
            saved: false,
            deleted: false,
            source_app: String::new(),
            url_pattern: String::new(),
            opener: None,
        });
        &self.rules[index]
    }

    /// Marks every rule that is not deleted as saved.
    pub fn mark_rules_as_saved(&mut self)
        ensures
            final(self).tab == old(self).tab,
            final(self).default_opener == old(self).default_opener,
            final(self).visual_settings == old(self).visual_settings,
            final(self).behavioral_settings == old(self).behavioral_settings,
            final(self).rules@.len() == old(self).rules@.len(),
            forall|i: int| 0 <= i < final(self).rules@.len() ==>
                #[trigger] final(self).rules@[i] == (if old(self).rules@[i].deleted {
                    old(self).rules@[i]
                } else {
                    UISettingsRule { saved: true, ..old(self).rules@[i] }
                }),
    {
        let ghost before = self.rules@;
        let mut i: usize = 0;
        while i < self.rules.len()
            invariant
                i <= self.rules@.len(),
                self.tab == old(self).tab,
                self.default_opener == old(self).default_opener,
                self.visual_settings == old(self).visual_settings,
                self.behavioral_settings == old(self).behavioral_settings,
                before == old(self).rules@,
                self.rules@.len() == before.len(),
                forall|j: int| 0 <= j < self.rules@.len() ==>
                    #[trigger] self.rules@[j] == (if j < i && !before[j].deleted {
                        UISettingsRule { saved: true, ..before[j] }
                    } else {
                        before[j]
                    }),
            decreases self.rules.len() - i,
        {
            if !self.rules[i].deleted {
                let mut rule = self.rules[i].clone();
                rule.saved = true;
                self.rules.set(i, rule);
            }
            i = i + 1;
        }
    }

    /// The rule at `index`, if there is one.
    pub fn rule(&self, index: usize) -> (r: Option<&UISettingsRule>)
        ensures
            r == (if index < self.rules@.len() { Some(&self.rules@[index as int]) } else { None }),
    {
        if index < self.rules.len() {
            Some(&self.rules[index])
        } else {
            None
        }
    }
}

// ---------------------------------------------------------------------
// The chooser's state
// ---------------------------------------------------------------------

/// The position of the first profile at or after `i` that is not
/// URL-restricted, or 0 when there is none.
pub open spec fn first_orderable_from(ps: Seq<CommonBrowserProfile>, i: int) -> int
    decreases ps.len() - i,
{
    if i < 0 || i >= ps.len() {
        0
    } else if !ps[i].spec_has_priority_ordering() {
        i
    } else {
        first_orderable_from(ps, i + 1)
    }
}

/// The chooser's form of the `index`-th of `count` discovered profiles,
/// where `first` is the position of the first profile that can be moved.
pub open spec fn ui_browser_of(p: CommonBrowserProfile, index: int, first: int, count: int) -> UIBrowserView {
    UIBrowserView {
        browser_profile_index: index as usize,
        is_first: index == first,
        is_last: index == count - 1,
        restricted_url_matchers: p.restricted_url_matchers@,
        browser_name: p.browser_name@,
        profile_name: p.profile_name@,
        profile_name_maybe: if p.has_real_profiles { Some(p.profile_name@) } else { None },
        supports_profiles: p.has_real_profiles,
        supports_incognito: p.supports_incognito,
        icon_path: p.browser_icon_path@,
        profile_icon_path: match p.profile_icon_path {
            Some(s) => s@,
            None => Seq::empty(),
        },
        unique_id: p.unique_id@,
        unique_app_id: p.unique_app_id@,
        filtered_index: index as usize,
    }
}

/// A request to open the chooser's URL in a profile.
pub struct OpenLinkRequest {
    pub unique_id: String,
    pub incognito: bool,
    pub url: String,
}

/// Mutable state owned by the main browser chooser view.
pub struct UIState {
    pub url: String,
    pub selected_browser: String,
    pub focused_index: Option<usize>,
    pub incognito_mode: bool,
    pub browsers: Vec<UIBrowser>,
    /// Browsers applicable to the URL, in display order.
    pub filtered_browsers: Vec<UIBrowser>,
    pub restorable_app_profiles: Vec<UIBrowser>,
    pub show_set_as_default: bool,
    pub ui_settings: UISettings,
    /// Whether an About/Settings dialog or context menu is open.
    pub has_non_main_window_open: bool,
}

/// A copy of browsers.
fn clone_browsers(bs: &Vec<UIBrowser>) -> (r: Vec<UIBrowser>)
    ensures
        browser_views(r@) == browser_views(bs@),
{
    let mut r: Vec<UIBrowser> = Vec::new();
    let mut i: usize = 0;
    while i < bs.len()
        invariant
            i <= bs@.len(),
            browser_views(r@) == browser_views(bs@.take(i as int)),
        decreases bs.len() - i,
    {
        let ghost before = r@;
        let b = bs[i].clone();
        r.push(b);
        assert(browser_views(r@) =~= browser_views(before).push(bs@[i as int]@));
        assert(browser_views(bs@.take(i + 1)) =~= browser_views(bs@.take(i as int)).push(bs@[i as int]@));
        i = i + 1;
    }
    assert(bs@.take(bs@.len() as int) =~= bs@);
    r
}

/// Newly discovered browsers reach the main view's state and, when a
/// picker window is open, the picker's state; each recomputes its visible
/// list for its own URL.
pub fn set_browsers_everywhere(main: &mut UIState, picker: &mut Option<UIState>, browsers: Vec<UIBrowser>)
    ensures
        *final(main) == (UIState {
            browsers: final(main).browsers,
            filtered_browsers: final(main).filtered_browsers,
            ..*old(main)
        }),
        final(main).browsers == browsers,
        final(main).list_is_current(),
        match *old(picker) {
            None => *final(picker) is None,
            Some(p) => *final(picker) matches Some(q) && q == (UIState {
                browsers: q.browsers,
                filtered_browsers: q.filtered_browsers,
                ..p
            }) && browser_views(q.browsers@) == browser_views(browsers@) && q.list_is_current(),
        },
{
    match picker {
        Some(p) => p.set_browsers(clone_browsers(&browsers)),
        None => {},
    }
    main.set_browsers(browsers);
}

impl UIState {
    /// The visible list is the list shown for the current URL and
    /// browsers: the browsers that apply to the URL, in display order.
    pub open spec fn list_is_current(self) -> bool {
        browser_views(self.filtered_browsers@) == filtered_browsers(browser_views(self.browsers@), url_parts(self.url@))
    }

    /// The state for a URL: nothing selected or focused, not in private
    /// mode, no other window open, and the browsers that apply to the URL
    /// listed in display order.
    pub fn new(
        url: String,
        browsers: Vec<UIBrowser>,
        restorable_app_profiles: Vec<UIBrowser>,
        show_set_as_default: bool,
        ui_settings: UISettings,
    ) -> (r: Self)
        ensures
            r.url == url,
            r.selected_browser@ == Seq::<char>::empty(),
            r.focused_index is None,
            !r.incognito_mode,
            r.browsers == browsers,
            browser_views(r.filtered_browsers@) == filtered_browsers(browser_views(browsers@), url_parts(url@)),
            r.restorable_app_profiles == restorable_app_profiles,
            r.show_set_as_default == show_set_as_default,
            r.ui_settings == ui_settings,
            !r.has_non_main_window_open,
            r.list_is_current(),
    {
        let filtered = get_filtered_browsers(url.as_str(), &browsers);
        UIState {
            url,
            selected_browser: String::new(),
            focused_index: None,
            incognito_mode: false,
            browsers,
            filtered_browsers: filtered,
            restorable_app_profiles,
            show_set_as_default,
            ui_settings,
            has_non_main_window_open: false,
        }
    }

    /// Replaces the URL, recomputes the visible browser list for it and
    /// clears the focus.
    pub fn set_url(&mut self, url: String)
        ensures
            final(self).url == url,
            final(self).focused_index is None,
            browser_views(final(self).filtered_browsers@) == filtered_browsers(
                browser_views(old(self).browsers@),
                url_parts(url@),
            ),
            *final(self) == (UIState {
                url: final(self).url,
                focused_index: None,
                filtered_browsers: final(self).filtered_browsers,
                ..*old(self)
            }),
            final(self).list_is_current(),
    {
        let filtered = get_filtered_browsers(url.as_str(), &self.browsers);
        self.url = url;
        self.filtered_browsers = filtered;
        self.focused_index = None;
    }

    /// Replaces the discovered browsers and recomputes the visible list for
    /// the current URL.
    pub fn set_browsers(&mut self, browsers: Vec<UIBrowser>)
        ensures
            final(self).browsers == browsers,
            browser_views(final(self).filtered_browsers@) == filtered_browsers(
                browser_views(browsers@),
                url_parts(old(self).url@),
            ),
            *final(self) == (UIState {
                browsers: final(self).browsers,
                filtered_browsers: final(self).filtered_browsers,
                ..*old(self)
            }),
            final(self).list_is_current(),
    {
        let filtered = get_filtered_browsers(self.url.as_str(), &browsers);
        self.browsers = browsers;
        self.filtered_browsers = filtered;
    }

    /// The unique id of the selected browser.
    pub fn selected_browser(&self) -> (r: &str)
        ensures
            r@ == self.selected_browser@,
    {
        self.selected_browser.as_str()
    }

    /// Selects a browser by unique id.
    pub fn set_selected_browser(&mut self, browser: String)
        ensures
            *final(self) == (UIState { selected_browser: browser, ..*old(self) }),
            old(self).list_is_current() ==> final(self).list_is_current(),
    {
        self.selected_browser = browser;
    }

    /// The visible browser at display position `index`, if there is one.
    pub fn browser(&self, index: usize) -> (r: Option<&UIBrowser>)
        ensures
            r == (if index < self.filtered_browsers@.len() {
                Some(&self.filtered_browsers@[index as int])
            } else {
                None
            }),
    {
        if index < self.filtered_browsers.len() {
            Some(&self.filtered_browsers[index])
        } else {
            None
        }
    }

    /// Turns private mode on or off.
    pub fn set_incognito_mode(&mut self, enabled: bool)
        ensures
            *final(self) == (UIState { incognito_mode: enabled, ..*old(self) }),
            old(self).list_is_current() ==> final(self).list_is_current(),
    {
        self.incognito_mode = enabled;
    }

    /// The request to open the URL in the visible browser at display
    /// position `filtered_index`: private only when private mode is on and
    /// the browser supports it; `None` when there is no such browser.
    pub fn open_link_request(&self, filtered_index: usize) -> (r: Option<OpenLinkRequest>)
        ensures
            filtered_index < self.filtered_browsers@.len() <==> r is Some,
            r matches Some(req) ==> {
                &&& req.unique_id@ == self.filtered_browsers@[filtered_index as int].unique_id@
                &&& req.incognito == (self.incognito_mode
                    && self.filtered_browsers@[filtered_index as int].supports_incognito)
                &&& req.url@ == self.url@
            },
    {
        if filtered_index < self.filtered_browsers.len() {
            let browser = &self.filtered_browsers[filtered_index];
            Some(OpenLinkRequest {
                unique_id: browser.unique_id.clone(),
                incognito: self.incognito_mode && browser.supports_incognito,
                url: self.url.clone(),
            })
        } else {
            None
        }
    }

    /// The chooser's form of the discovered profiles, in the same order:
    /// each numbered by its position, the first profile that is not
    /// URL-restricted marked first, the last marked last, and profile names
    /// kept for browsers with real profiles.
    pub fn real_to_ui_browsers(all_browser_profiles: &[CommonBrowserProfile]) -> (r: Vec<UIBrowser>)
        ensures
            r@.len() == all_browser_profiles@.len(),
            forall|i: int| 0 <= i < r@.len() ==> #[trigger] r@[i]@ == ui_browser_of(
                all_browser_profiles@[i],
                i,
                first_orderable_from(all_browser_profiles@, 0),
                all_browser_profiles@.len() as int,
            ),
    {
        let ghost ps = all_browser_profiles@;
        let profile_count = all_browser_profiles.len();
        if profile_count == 0 {
            return Vec::new();
        }
        let mut first_orderable: usize = 0;
        let mut k: usize = 0;
        let mut found = false;
        while k < profile_count
            invariant
                profile_count == ps.len(),
                ps == all_browser_profiles@,
                k <= profile_count,
                found ==> first_orderable == first_orderable_from(ps, 0),
                !found ==> first_orderable == 0 && first_orderable_from(ps, 0) == first_orderable_from(ps, k as int),
            decreases profile_count - k,
        {
            if !found && !all_browser_profiles[k].has_priority_ordering() {
                first_orderable = k;
                found = true;
            }
            k = k + 1;
        }
        let mut r: Vec<UIBrowser> = Vec::new();
        let mut index: usize = 0;
        while index < profile_count
            invariant
                profile_count == ps.len(),
                ps == all_browser_profiles@,
                first_orderable == first_orderable_from(ps, 0),
                index <= profile_count,
                r@.len() == index,
                forall|i: int| 0 <= i < index ==> #[trigger] r@[i]@ == ui_browser_of(
                    ps[i],
                    i,
                    first_orderable as int,
                    profile_count as int,
                ),
            decreases profile_count - index,
        {
            let profile = &all_browser_profiles[index];
            let profile_name_maybe = if profile.has_real_profiles {
                Some(profile.profile_name.clone())
            } else {
                None
            };
            let profile_icon_path = match &profile.profile_icon_path {
                Some(p) => p.clone(),
                None => String::new(),
            };
            r.push(UIBrowser {
                browser_profile_index: index,
                is_first: index == first_orderable,
                is_last: index == profile_count - 1,
                restricted_url_matchers: clone_matchers(&profile.restricted_url_matchers),
                browser_name: profile.browser_name.clone(),
                profile_name: profile.profile_name.clone(),
                profile_name_maybe,
                supports_profiles: profile.has_real_profiles,
                supports_incognito: profile.supports_incognito,
                icon_path: profile.browser_icon_path.clone(),
                profile_icon_path,
                unique_id: profile.unique_id.clone(),
                unique_app_id: profile.unique_app_id.clone(),
                filtered_index: index,
            });
            index = index + 1;
        }
        r
    }
}

} // verus!
