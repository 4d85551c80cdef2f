//! Deciding which file-system changes mean the browser profiles may have
//! changed, and debouncing bursts of such changes into one refresh.

use vstd::prelude::*;

verus! {

// ---------------------------------------------------------------------
// Paths
// ---------------------------------------------------------------------

/// One component of a file-system path.
pub enum PathComponent {
    /// A Windows path prefix such as `C:`.
    Prefix(String),
    RootDir,
    CurDir,
    ParentDir,
    Normal(String),
}

/// Plain view of [`PathComponent`].
pub enum PathComponentView {
    Prefix(Seq<char>),
    RootDir,
    CurDir,
    ParentDir,
    Normal(Seq<char>),
}

impl View for PathComponent {
    type V = PathComponentView;

    open spec fn view(&self) -> PathComponentView {
        match self {
            PathComponent::Prefix(p) => PathComponentView::Prefix(p@),
            PathComponent::RootDir => PathComponentView::RootDir,
            PathComponent::CurDir => PathComponentView::CurDir,
            PathComponent::ParentDir => PathComponentView::ParentDir,
            PathComponent::Normal(n) => PathComponentView::Normal(n@),
        }
    }
}

impl Clone for PathComponent {
    fn clone(&self) -> (r: Self)
        ensures
            r@ == self@,
    {
        match self {
            PathComponent::Prefix(p) => PathComponent::Prefix(p.clone()),
            PathComponent::RootDir => PathComponent::RootDir,
            PathComponent::CurDir => PathComponent::CurDir,
            PathComponent::ParentDir => PathComponent::ParentDir,
            PathComponent::Normal(n) => PathComponent::Normal(n.clone()),
        }
    }
}

/// A file-system path, as its components.
pub struct FsPath {
    pub components: Vec<PathComponent>,
}

impl View for FsPath {
    type V = Seq<PathComponentView>;

    open spec fn view(&self) -> Seq<PathComponentView> {
        self.components@.map_values(|c: PathComponent| c@)
    }
}

impl Clone for FsPath {
    fn clone(&self) -> (r: Self)
        ensures
            r@ == self@,
    {
        let mut components: Vec<PathComponent> = Vec::new();
        let mut i: usize = 0;
        while i < self.components.len()
            invariant
                i <= self.components@.len(),
                components@.len() == i,
                forall|j: int| 0 <= j < i ==> #[trigger] components@[j]@ == self.components@[j]@,
            decreases self.components.len() - i,
        {
            components.push(self.components[i].clone());
            i = i + 1;
        }
        let r = FsPath { components };
        assert(r@ =~= self@);
        r
    }
}

fn component_eq(a: &PathComponent, b: &PathComponent) -> (r: bool)
    ensures
        r == (a@ == b@),
{
    match (a, b) {
        (PathComponent::Prefix(x), PathComponent::Prefix(y)) => (*x) == (*y),
        (PathComponent::RootDir, PathComponent::RootDir) => true,
        (PathComponent::CurDir, PathComponent::CurDir) => true,
        (PathComponent::ParentDir, PathComponent::ParentDir) => true,
        (PathComponent::Normal(x), PathComponent::Normal(y)) => (*x) == (*y),
        _ => false,
    }
}

/// Whether `prefix` is a leading run of `path`'s components.
pub open spec fn starts_with(path: Seq<PathComponentView>, prefix: Seq<PathComponentView>) -> bool {
    prefix.len() <= path.len() && path.take(prefix.len() as int) == prefix
}

/// The final component of a path when it is a name.
pub open spec fn file_name(path: Seq<PathComponentView>) -> Option<Seq<char>> {
    if path.len() > 0 {
        match path.last() {
            PathComponentView::Normal(n) => Some(n),
            _ => None,
        }
    } else {
        None
    }
}

/// The path without its final component, unless it ends in a root or
/// prefix (or is empty).
pub open spec fn parent(path: Seq<PathComponentView>) -> Option<Seq<PathComponentView>> {
    if path.len() == 0 {
        None
    } else {
        match path.last() {
            PathComponentView::RootDir => None,
            PathComponentView::Prefix(_) => None,
            _ => Some(path.drop_last()),
        }
    }
}

impl FsPath {
    /// Whether the two paths have the same components.
    pub fn same_as(&self, other: &FsPath) -> (r: bool)
        ensures
            r == (self@ == other@),
    {
        if self.components.len() != other.components.len() {
            assert(self@.len() != other@.len());
            return false;
        }
        let mut i: usize = 0;
        while i < self.components.len()
            invariant
                self.components@.len() == other.components@.len(),
                i <= self.components@.len(),
                forall|j: int| 0 <= j < i ==> self@[j] == other@[j],
            decreases self.components.len() - i,
        {
            if !component_eq(&self.components[i], &other.components[i]) {
                assert(self@[i as int] != other@[i as int]);
                return false;
            }
            i = i + 1;
        }
        assert(self@ =~= other@);
        true
    }

    /// Whether `prefix` is a leading run of this path's components.
    pub fn starts_with(&self, prefix: &FsPath) -> (r: bool)
        ensures
            r == starts_with(self@, prefix@),
    {
        if prefix.components.len() > self.components.len() {
            return false;
        }
        let mut i: usize = 0;
        while i < prefix.components.len()
            invariant
                prefix.components@.len() <= self.components@.len(),
                i <= prefix.components@.len(),
                forall|j: int| 0 <= j < i ==> self@[j] == prefix@[j],
            decreases prefix.components.len() - i,
        {
            if !component_eq(&self.components[i], &prefix.components[i]) {
                assert(self@.take(prefix@.len() as int)[i as int] == self@[i as int]);
                return false;
            }
            i = i + 1;
        }
        assert(self@.take(prefix@.len() as int) =~= prefix@);
        true
    }

    /// The final component when it is a name.
    pub fn file_name(&self) -> (r: Option<&String>)
        ensures
            match r {
                Some(n) => file_name(self@) == Some(n@),
                None => file_name(self@) is None,
            },
    {
        let n = self.components.len();
        if n == 0 {
            return None;
        }
        match &self.components[n - 1] {
            PathComponent::Normal(name) => Some(name),
            _ => None,
        }
    }

    /// The path without its final component, unless it ends in a root or
    /// prefix (or is empty).
    pub fn parent(&self) -> (r: Option<FsPath>)
        ensures
            match r {
                Some(p) => parent(self@) == Some(p@),
                None => parent(self@) is None,
            },
    {
        let n = self.components.len();
        if n == 0 {
            return None;
        }
        match &self.components[n - 1] {
            PathComponent::RootDir => None,
            PathComponent::Prefix(_) => None,
            _ => {
                let mut components: Vec<PathComponent> = Vec::new();
                let mut i: usize = 0;
                while i < n - 1
                    invariant
                        n == self.components@.len(),
                        n > 0,
                        i <= n - 1,
                        components@.len() == i,
                        forall|j: int| 0 <= j < i ==> #[trigger] components@[j]@ == self.components@[j]@,
                    decreases n - 1 - i,
                {
                    components.push(self.components[i].clone());
                    i = i + 1;
                }
                let p = FsPath { components };
                assert(p@ =~= self@.drop_last());
                Some(p)
            },
        }
    }
}

// ---------------------------------------------------------------------
// Which changes matter
// ---------------------------------------------------------------------

/// `c` with ASCII capitals made small.
pub open spec fn ascii_lower(c: char) -> char {
    if 'A' <= c && c <= 'Z' {
        ((c as u32) + 32) as char
    } else {
        c
    }
}

/// `s` with ASCII capitals made small.
pub open spec fn ascii_lowercase(s: Seq<char>) -> Seq<char> {
    s.map_values(|c: char| ascii_lower(c))
}

/// The names of the files that browsers keep their profile lists in.
pub open spec fn is_profile_list_name(lowered: Seq<char>) -> bool {
    lowered == "local state"@ || lowered == "profiles.ini"@ || lowered == "extensions.json"@
        || lowered == "containers.json"@ || lowered == "root-state.json"@
}

/// A place to watch: a directory tree, or one file in a directory.
pub struct WatchTarget {
    pub root: FsPath,
    pub exact_file: Option<FsPath>,
}

/// Plain view of [`WatchTarget`].
pub struct WatchTargetView {
    pub root: Seq<PathComponentView>,
    pub exact_file: Option<Seq<PathComponentView>>,
}

impl View for WatchTarget {
    type V = WatchTargetView;

    open spec fn view(&self) -> WatchTargetView {
        WatchTargetView {
            root: self.root@,
            exact_file: match self.exact_file {
                Some(f) => Some(f@),
                None => None,
            },
        }
    }
}

/// The views of a sequence of targets.
pub open spec fn target_views(ts: Seq<WatchTarget>) -> Seq<WatchTargetView> {
    ts.map_values(|t: WatchTarget| t@)
}

/// Whether a change at `path` concerns a target: for a file target, the
/// path is that file; for a tree, the path is inside it and names a
/// profile-list file (in any ASCII case).
pub open spec fn concerns(path: Seq<PathComponentView>, t: WatchTargetView) -> bool {
    match t.exact_file {
        Some(f) => path == f,
        None => starts_with(path, t.root) && match file_name(path) {
            Some(n) => is_profile_list_name(ascii_lowercase(n)),
            None => false,
        },
    }
}

fn lower_matches(c: char, t: char) -> (r: bool)
    ensures
        r == (ascii_lower(c) == t),
{
    if 'A' <= c && c <= 'Z' {
        (c as u32) + 32 == (t as u32)
    } else {
        c == t
    }
}

fn lower_equals(name: &String, literal: &str) -> (r: bool)
    ensures
        r == (ascii_lowercase(name@) == literal@),
{
    let n = name.as_str().unicode_len();
    if n != literal.unicode_len() {
        return false;
    }
    let mut i: usize = 0;
    while i < n
        invariant
            n == name@.len(),
            n == literal@.len(),
            i <= n,
            forall|j: int| 0 <= j < i ==> ascii_lower(name@[j]) == literal@[j],
        decreases n - i,
    {
        if !lower_matches(name.as_str().get_char(i), literal.get_char(i)) {
            return false;
        }
        i = i + 1;
    }
    assert(ascii_lowercase(name@) =~= literal@);
    true
}

fn is_profile_list_file(name: &String) -> (r: bool)
    ensures
        r == is_profile_list_name(ascii_lowercase(name@)),
{
    lower_equals(name, "local state") || lower_equals(name, "profiles.ini")
        || lower_equals(name, "extensions.json") || lower_equals(name, "containers.json")
        || lower_equals(name, "root-state.json")
}

/// Whether a change at `path` concerns any of the targets.
pub fn relevant_path(path: &FsPath, targets: &[WatchTarget]) -> (r: bool)
    ensures
        r == exists|i: int| 0 <= i < targets@.len() && concerns(path@, #[trigger] targets@[i]@),
{
    let mut i: usize = 0;
    while i < targets.len()
        invariant
            i <= targets@.len(),
            forall|j: int| 0 <= j < i ==> !concerns(path@, #[trigger] targets@[j]@),
        decreases targets.len() - i,
    {
        let target = &targets[i];
        let hit = match &target.exact_file {
            Some(exact_file) => path.same_as(exact_file),
            None => path.starts_with(&target.root) && match path.file_name() {
                Some(name) => is_profile_list_file(name),
                None => false,
            },
        };
        if hit {
            assert(concerns(path@, targets@[i as int]@));
            return true;
        }
        i = i + 1;
    }
    false
}

// ---------------------------------------------------------------------
// Which places to watch
// ---------------------------------------------------------------------

/// Whether some target before position `i` has the same root as the one
/// at `i`.
pub open spec fn root_seen_before(ts: Seq<WatchTargetView>, i: int) -> bool {
    exists|j: int| 0 <= j < i && #[trigger] ts[j].root == ts[i].root
}

/// The targets without repeated roots: each root keeps its first target,
/// in order.
pub open spec fn first_per_root(ts: Seq<WatchTargetView>) -> Seq<WatchTargetView>
    decreases ts.len(),
{
    if ts.len() == 0 {
        ts
    } else if root_seen_before(ts, ts.len() - 1) {
        first_per_root(ts.drop_last())
    } else {
        first_per_root(ts.drop_last()).push(ts.last())
    }
}

/// The file target for a file: its directory, watching just the file
/// (none when the file's path has no directory part).
pub open spec fn file_target(file: Seq<PathComponentView>) -> Seq<WatchTargetView> {
    match parent(file) {
        Some(root) => seq![WatchTargetView { root, exact_file: Some(file) }],
        None => Seq::empty(),
    }
}

/// Every place to watch, before repeats are dropped: the configuration
/// file and the application repository file (each when it exists), then
/// the profile directories of the discovered browsers.
pub open spec fn all_watch_targets(
    config_file: Option<Seq<PathComponentView>>,
    repository_file: Option<Seq<PathComponentView>>,
    profile_roots: Seq<Seq<PathComponentView>>,
) -> Seq<WatchTargetView> {
    (match config_file { Some(f) => file_target(f), None => Seq::empty() })
        + (match repository_file { Some(f) => file_target(f), None => Seq::empty() })
        + profile_roots.map_values(|root: Seq<PathComponentView>| WatchTargetView { root, exact_file: None })
}

/// A target whose root no earlier target has is kept.
proof fn first_of_its_root_is_kept(ts: Seq<WatchTargetView>, i: int)
    requires
        0 <= i < ts.len(),
        !root_seen_before(ts, i),
    ensures
        first_per_root(ts).contains(ts[i]),
    decreases ts.len(),
{
    let rest = ts.drop_last();
    if i == ts.len() - 1 {
        assert(first_per_root(ts) == first_per_root(rest).push(ts.last()));
        assert(first_per_root(ts)[first_per_root(rest).len() as int] == ts[i]);
    } else {
        assert(rest[i] == ts[i]);
        assert(!root_seen_before(rest, i)) by {
            if root_seen_before(rest, i) {
                let j = choose|j: int| 0 <= j < i && #[trigger] rest[j].root == rest[i].root;
                assert(ts[j] == rest[j]);
            }
        }
        first_of_its_root_is_kept(rest, i);
        let k = choose|k: int| 0 <= k < first_per_root(rest).len() && first_per_root(rest)[k] == ts[i];
        if !root_seen_before(ts, ts.len() - 1) {
            assert(first_per_root(ts)[k] == first_per_root(rest)[k]);
        }
    }
}

/// Every root among the targets is the root of a kept target.
proof fn every_root_is_kept(ts: Seq<WatchTargetView>, i: int)
    requires
        0 <= i < ts.len(),
    ensures
        exists|k: int| 0 <= k < first_per_root(ts).len() && #[trigger] first_per_root(ts)[k].root == ts[i].root,
    decreases i,
{
    if root_seen_before(ts, i) {
        let j = choose|j: int| 0 <= j < i && #[trigger] ts[j].root == ts[i].root;
        every_root_is_kept(ts, j);
    } else {
        first_of_its_root_is_kept(ts, i);
        let k = choose|k: int| 0 <= k < first_per_root(ts).len() && first_per_root(ts)[k] == ts[i];
        assert(first_per_root(ts)[k].root == ts[i].root);
    }
}

/// Whether a file, when given and in a directory, is watched exactly.
pub open spec fn file_is_watched(watched: Seq<WatchTargetView>, file: Option<Seq<PathComponentView>>) -> bool {
    match file {
        Some(f) => match parent(f) {
            Some(r) => watched.contains(WatchTargetView { root: r, exact_file: Some(f) }),
            None => true,
        },
        None => true,
    }
}

/// Whether some watched place has this directory as its root.
pub open spec fn root_is_watched(watched: Seq<WatchTargetView>, root: Seq<PathComponentView>) -> bool {
    exists|k: int| 0 <= k < watched.len() && #[trigger] watched[k].root == root
}

/// Whether two given files are in the same directory.
pub open spec fn same_directory(a: Option<Seq<PathComponentView>>, b: Option<Seq<PathComponentView>>) -> bool {
    match (a, b) {
        (Some(x), Some(y)) => parent(x) is Some && parent(x) == parent(y),
        _ => false,
    }
}

/// What is watched for profile changes: the configuration file (when it
/// exists and has a directory), the application repository file likewise
/// (unless it shares the configuration file's directory, which is then
/// already watched for the configuration file), and every profile
/// directory, as the directory of some watched place.
pub proof fn existing_files_and_profile_roots_are_watched(
    config_file: Option<Seq<PathComponentView>>,
    repository_file: Option<Seq<PathComponentView>>,
    profile_roots: Seq<Seq<PathComponentView>>,
)
    ensures
        ({
            let watched = first_per_root(all_watch_targets(config_file, repository_file, profile_roots));
            &&& file_is_watched(watched, config_file)
            &&& !same_directory(config_file, repository_file) ==> file_is_watched(watched, repository_file)
            &&& forall|i: int| 0 <= i < profile_roots.len() ==> root_is_watched(watched, #[trigger] profile_roots[i])
        }),
{
    let head = match config_file { Some(f) => file_target(f), None => Seq::<WatchTargetView>::empty() };
    let second = match repository_file { Some(f) => file_target(f), None => Seq::<WatchTargetView>::empty() };
    let trees = profile_roots.map_values(|root: Seq<PathComponentView>| WatchTargetView { root, exact_file: None });
    let ts = all_watch_targets(config_file, repository_file, profile_roots);
    assert(ts == head + second + trees);
    assert(head.len() <= 1 && second.len() <= 1);
    if config_file is Some && parent(config_file->0) is Some {
        assert(ts[0] == head[0]);
        assert(!root_seen_before(ts, 0));
        first_of_its_root_is_kept(ts, 0);
    }
    if repository_file is Some && parent(repository_file->0) is Some
        && !same_directory(config_file, repository_file) {
        let i = head.len() as int;
        assert(ts[i] == second[0]);
        assert(!root_seen_before(ts, i)) by {
            if root_seen_before(ts, i) {
                let j = choose|j: int| 0 <= j < i && #[trigger] ts[j].root == ts[i].root;
                assert(ts[j] == head[j]);
            }
        }
        first_of_its_root_is_kept(ts, i);
    }
    let watched = first_per_root(ts);
    assert forall|i: int| 0 <= i < profile_roots.len() implies root_is_watched(watched, #[trigger] profile_roots[i]) by {
        let n = head.len() + second.len();
        assert(ts[n + i] == trees[i]);
        every_root_is_kept(ts, n + i);
    }
}

fn push_file_target(targets: &mut Vec<WatchTarget>, file: &Option<FsPath>)
    ensures
        target_views(final(targets)@) == target_views(old(targets)@) + match *file {
            Some(f) => file_target(f@),
            None => Seq::empty(),
        },
{
    let ghost before = target_views(targets@);
    match file {
        Some(f) => {
            match f.parent() {
                Some(root) => {
                    targets.push(WatchTarget { root, exact_file: Some(f.clone()) });
                    assert(target_views(targets@) =~= before + file_target(f@));
                },
                None => {
                    assert(target_views(targets@) =~= before + file_target(f@));
                },
            }
        },
        None => {
            assert(target_views(targets@) =~= before + Seq::<WatchTargetView>::empty());
        },
    }
}

/// The places to watch for profile changes: the configuration file and the
/// application repository file (pass them only when they exist as files),
/// then the discovered browsers' profile directories; a root already
/// watched is not added again.
pub fn watch_targets(
    config_file: &Option<FsPath>,
    repository_file: &Option<FsPath>,
    profile_roots: &Vec<FsPath>,
) -> (r: Vec<WatchTarget>)
    ensures
        target_views(r@) == first_per_root(all_watch_targets(
            match *config_file { Some(f) => Some(f@), None => None },
            match *repository_file { Some(f) => Some(f@), None => None },
            profile_roots@.map_values(|p: FsPath| p@),
        )),
{
    let mut targets: Vec<WatchTarget> = Vec::new();
    push_file_target(&mut targets, config_file);
    push_file_target(&mut targets, repository_file);
    let ghost head = target_views(targets@);
    let mut k: usize = 0;
    while k < profile_roots.len()
        invariant
            k <= profile_roots@.len(),
            target_views(targets@) == head + profile_roots@.take(k as int).map_values(
                |p: FsPath| WatchTargetView { root: p@, exact_file: None },
            ),
        decreases profile_roots.len() - k,
    {
        let ghost before = target_views(targets@);
        targets.push(WatchTarget { root: profile_roots[k].clone(), exact_file: None });
        assert(profile_roots@.take(k + 1).map_values(|p: FsPath| WatchTargetView { root: p@, exact_file: None })
            =~= profile_roots@.take(k as int).map_values(|p: FsPath| WatchTargetView { root: p@, exact_file: None })
                .push(WatchTargetView { root: profile_roots@[k as int]@, exact_file: None }));
        assert(target_views(targets@) =~= before.push(WatchTargetView { root: profile_roots@[k as int]@, exact_file: None }));
        k = k + 1;
    }
    let ghost all = target_views(targets@);
    proof {
        assert(profile_roots@.take(profile_roots@.len() as int) =~= profile_roots@);
        let roots = profile_roots@.map_values(|p: FsPath| p@);
        assert(roots.map_values(|root: Seq<PathComponentView>| WatchTargetView { root, exact_file: None })
            =~= profile_roots@.map_values(|p: FsPath| WatchTargetView { root: p@, exact_file: None }));
    }
    assert(all == all_watch_targets(
        match *config_file { Some(f) => Some(f@), None => None },
        match *repository_file { Some(f) => Some(f@), None => None },
        profile_roots@.map_values(|p: FsPath| p@),
    ));
    dedup_by_root(targets)
}

/// Keeps the first target of each root, in order.
pub fn dedup_by_root(targets: Vec<WatchTarget>) -> (r: Vec<WatchTarget>)
    ensures
        target_views(r@) == first_per_root(target_views(targets@)),
{
    let ghost ts = target_views(targets@);
    let mut kept: Vec<WatchTarget> = Vec::new();
    let mut i: usize = 0;
    while i < targets.len()
        invariant
            i <= targets@.len(),
            ts == target_views(targets@),
            target_views(kept@) == first_per_root(ts.take(i as int)),
        decreases targets.len() - i,
    {
        let t = &targets[i];
        assert(ts[i as int] == targets@[i as int]@);
        let mut seen = false;
        let mut k: usize = 0;
        while k < i
            invariant
                k <= i,
                i < targets@.len(),
                ts == target_views(targets@),
                t.root@ == ts[i as int].root,
                seen == exists|m: int| 0 <= m < k && #[trigger] ts[m].root == ts[i as int].root,
            decreases i - k,
        {
            assert(ts[k as int] == targets@[k as int]@);
            assert(ts[i as int] == targets@[i as int]@);
            if !seen && targets[k].root.same_as(&t.root) {
                seen = true;
                assert(ts[k as int].root == ts[i as int].root);
            } else if !seen {
                assert(ts[k as int].root != ts[i as int].root);
            }
            k = k + 1;
        }
        proof {
            let next = ts.take(i + 1);
            assert(next.drop_last() =~= ts.take(i as int));
            if seen {
                let m = choose|m: int| 0 <= m < i && #[trigger] ts[m].root == ts[i as int].root;
                assert(next[m] == ts[m]);
                assert(root_seen_before(next, next.len() - 1));
            } else if root_seen_before(next, next.len() - 1) {
                let m = choose|m: int| 0 <= m < next.len() - 1 && #[trigger] next[m].root == next[next.len() - 1].root;
                assert(next[m] == ts[m]);
                assert(false);
            }
        }
        if !seen {
            let ghost before = target_views(kept@);
            kept.push(WatchTarget {
                root: t.root.clone(),
                exact_file: match &t.exact_file {
                    Some(f) => Some(f.clone()),
                    None => None,
                },
            });
            assert(target_views(kept@) =~= before.push(ts[i as int]));
        }
        i = i + 1;
    }
    assert(ts.take(targets@.len() as int) =~= ts);
    kept
}

// ---------------------------------------------------------------------
// Debouncing
// ---------------------------------------------------------------------

/// How long changes must stay quiet before a refresh, in milliseconds.
pub const DEBOUNCE_MILLIS: u64 = 400;

/// Where the debouncer is.
#[derive(Clone, Copy, Debug, PartialEq, Eq, Structural)]
pub enum DebounceState {
    /// Waiting for a change.
    Idle,
    /// Changes arrived; waiting for them to stop.
    Settling,
    /// Asking for a refresh.
    Refreshing,
    /// Done for good.
    Stopped,
}

/// What happened while the debouncer waited.
#[derive(Clone, Copy, Debug, PartialEq, Eq, Structural)]
pub enum DebounceEvent {
    /// A relevant change arrived.
    Changed,
    /// The quiet period passed without a change.
    TimedOut,
    /// No more changes can arrive.
    Disconnected,
    /// The refresh request was delivered.
    Delivered,
    /// The refresh request could not be delivered.
    DeliveryFailed,
}

/// What the debouncer does next.
#[derive(Clone, Copy, Debug, PartialEq, Eq, Structural)]
pub enum DebounceAction {
    /// Wait for the next change, however long it takes.
    WaitForChange,
    /// Wait for the next change for at most the quiet period.
    WaitQuietPeriod,
    /// Ask for a refresh.
    SendRefresh,
    Stop,
}

/// One step of the debouncer.
pub open spec fn debounce_step(state: DebounceState, event: DebounceEvent) -> (DebounceState, DebounceAction) {
    match (state, event) {
        (DebounceState::Stopped, _) => (DebounceState::Stopped, DebounceAction::Stop),
        (_, DebounceEvent::Disconnected) => (DebounceState::Stopped, DebounceAction::Stop),
        (DebounceState::Idle, DebounceEvent::Changed) => (DebounceState::Settling, DebounceAction::WaitQuietPeriod),
        (DebounceState::Idle, _) => (DebounceState::Idle, DebounceAction::WaitForChange),
        (DebounceState::Settling, DebounceEvent::Changed) => (DebounceState::Settling, DebounceAction::WaitQuietPeriod),
        (DebounceState::Settling, DebounceEvent::TimedOut) => (DebounceState::Refreshing, DebounceAction::SendRefresh),
        (DebounceState::Settling, _) => (DebounceState::Settling, DebounceAction::WaitQuietPeriod),
        (DebounceState::Refreshing, DebounceEvent::Delivered) => (DebounceState::Idle, DebounceAction::WaitForChange),
        (DebounceState::Refreshing, DebounceEvent::DeliveryFailed) => (DebounceState::Stopped, DebounceAction::Stop),
        (DebounceState::Refreshing, _) => (DebounceState::Refreshing, DebounceAction::SendRefresh),
    }
}

impl DebounceState {
    /// Where the debouncer starts, and what it does first.
    pub fn start() -> (r: (DebounceState, DebounceAction))
        ensures
            r == (DebounceState::Idle, DebounceAction::WaitForChange),
    {
        (DebounceState::Idle, DebounceAction::WaitForChange)
    }

    /// The next state and action after an event: the first change starts
    /// a quiet period, each further change restarts it, the end of a quiet
    /// period asks for one refresh, and a closed channel or an undelivered
    /// refresh stops the debouncer.
    pub fn step(self, event: DebounceEvent) -> (r: (DebounceState, DebounceAction))
        ensures
            r == debounce_step(self, event),
    {
        match (self, event) {
            (DebounceState::Stopped, _) => (DebounceState::Stopped, DebounceAction::Stop),
            (_, DebounceEvent::Disconnected) => (DebounceState::Stopped, DebounceAction::Stop),
            (DebounceState::Idle, DebounceEvent::Changed) => (DebounceState::Settling, DebounceAction::WaitQuietPeriod),
            (DebounceState::Idle, _) => (DebounceState::Idle, DebounceAction::WaitForChange),
            (DebounceState::Settling, DebounceEvent::Changed) => (DebounceState::Settling, DebounceAction::WaitQuietPeriod),
            (DebounceState::Settling, DebounceEvent::TimedOut) => (DebounceState::Refreshing, DebounceAction::SendRefresh),
            (DebounceState::Settling, _) => (DebounceState::Settling, DebounceAction::WaitQuietPeriod),
            (DebounceState::Refreshing, DebounceEvent::Delivered) => (DebounceState::Idle, DebounceAction::WaitForChange),
            (DebounceState::Refreshing, DebounceEvent::DeliveryFailed) => (DebounceState::Stopped, DebounceAction::Stop),
            (DebounceState::Refreshing, _) => (DebounceState::Refreshing, DebounceAction::SendRefresh),
        }
    }
}

/// The state after a run of events, and how many refreshes it asked for.
pub open spec fn debounce_run(state: DebounceState, events: Seq<DebounceEvent>) -> (DebounceState, nat)
    decreases events.len(),
{
    if events.len() == 0 {
        (state, 0)
    } else {
        let (s, count) = debounce_run(state, events.drop_last());
        let (next, action) = debounce_step(s, events.last());
        (next, count + if action == DebounceAction::SendRefresh { 1nat } else { 0nat })
    }
}

/// A burst of changes while settling asks for nothing.
pub proof fn changes_while_settling_wait(n: nat)
    ensures
        debounce_run(DebounceState::Settling, Seq::new(n, |i: int| DebounceEvent::Changed))
            == (DebounceState::Settling, 0nat),
    decreases n,
{
    if n > 0 {
        changes_while_settling_wait((n - 1) as nat);
        assert(Seq::new(n, |i: int| DebounceEvent::Changed).drop_last()
            =~= Seq::new((n - 1) as nat, |i: int| DebounceEvent::Changed));
    }
}

/// A burst of changes followed by a quiet period asks for exactly one
/// refresh.
pub proof fn burst_gives_one_refresh(n: nat)
    requires
        n >= 1,
    ensures
        debounce_run(
            DebounceState::Idle,
            Seq::new(n, |i: int| DebounceEvent::Changed).push(DebounceEvent::TimedOut),
        ) == (DebounceState::Refreshing, 1nat),
    decreases n,
{
    let burst = Seq::new(n, |i: int| DebounceEvent::Changed);
    assert(burst.push(DebounceEvent::TimedOut).drop_last() =~= burst);
    bursts_settle(n);
}

/// A burst of changes from idle leaves the debouncer settling without any
/// refresh.
pub proof fn bursts_settle(n: nat)
    requires
        n >= 1,
    ensures
        debounce_run(DebounceState::Idle, Seq::new(n, |i: int| DebounceEvent::Changed))
            == (DebounceState::Settling, 0nat),
    decreases n,
{
    reveal_with_fuel(debounce_run, 2);
    if n > 1 {
        bursts_settle((n - 1) as nat);
    }
    assert(Seq::new(n, |i: int| DebounceEvent::Changed).drop_last()
        =~= Seq::new((n - 1) as nat, |i: int| DebounceEvent::Changed));
}

/// Once stopped, the debouncer stays stopped and asks for nothing.
pub proof fn stopped_stays_stopped(events: Seq<DebounceEvent>)
    ensures
        debounce_run(DebounceState::Stopped, events) == (DebounceState::Stopped, 0nat),
    decreases events.len(),
{
    if events.len() > 0 {
        stopped_stays_stopped(events.drop_last());
    }
}

} // verus!
