use browsers::profile_watcher::{
    dedup_by_root, relevant_path, watch_targets, DebounceAction, DebounceEvent, DebounceState,
    FsPath, PathComponent, WatchTarget, DEBOUNCE_MILLIS,
};

fn path(text: &str) -> FsPath {
    let mut components = Vec::new();
    if text.starts_with('/') {
        components.push(PathComponent::RootDir);
    }
    for part in text.split('/').filter(|p| !p.is_empty()) {
        components.push(PathComponent::Normal(part.to_string()));
    }
    FsPath { components }
}

fn names(p: &FsPath) -> Vec<String> {
    p.components
        .iter()
        .map(|c| match c {
            PathComponent::Normal(n) => n.clone(),
            PathComponent::RootDir => "/".to_string(),
            PathComponent::Prefix(p) => p.clone(),
            PathComponent::CurDir => ".".to_string(),
            PathComponent::ParentDir => "..".to_string(),
        })
        .collect()
}

fn tree(root: &str) -> WatchTarget {
    WatchTarget { root: path(root), exact_file: None }
}

fn file(root: &str, f: &str) -> WatchTarget {
    WatchTarget { root: path(root), exact_file: Some(path(f)) }
}

#[test]
fn exact_file_targets_match_only_that_file() {
    let targets = vec![file("/home/u/.config/browsers", "/home/u/.config/browsers/config.json")];
    assert!(relevant_path(&path("/home/u/.config/browsers/config.json"), &targets));
    assert!(!relevant_path(&path("/home/u/.config/browsers/other.json"), &targets));
    assert!(!relevant_path(&path("/home/u/.config/browsers/Local State"), &targets));
}

#[test]
fn tree_targets_match_profile_list_files_in_any_case() {
    let targets = vec![tree("/home/u/.mozilla/firefox")];
    assert!(relevant_path(&path("/home/u/.mozilla/firefox/profiles.ini"), &targets));
    assert!(relevant_path(&path("/home/u/.mozilla/firefox/abc.default/EXTENSIONS.JSON"), &targets));
    assert!(relevant_path(&path("/home/u/.mozilla/firefox/x/containers.json"), &targets));
    assert!(relevant_path(&path("/home/u/.mozilla/firefox/x/Root-State.json"), &targets));
    assert!(relevant_path(&path("/home/u/.mozilla/firefox/Local State"), &targets));
    assert!(!relevant_path(&path("/home/u/.mozilla/firefox/x/places.sqlite"), &targets));
    assert!(!relevant_path(&path("/home/u/.mozilla/profiles.ini"), &targets));
}

#[test]
fn nothing_is_relevant_without_targets() {
    assert!(!relevant_path(&path("/home/u/profiles.ini"), &[]));
}

#[test]
fn watch_targets_put_files_first_and_skip_repeated_roots() {
    let config = Some(path("/home/u/.config/browsers/config.json"));
    let repository = Some(path("/home/u/.config/browsers/repository.toml"));
    let roots = vec![path("/home/u/.mozilla/firefox"), path("/home/u/.config/browsers"), path("/home/u/.mozilla/firefox")];
    let targets = watch_targets(&config, &repository, &roots);
    assert_eq!(targets.len(), 2);
    assert_eq!(names(&targets[0].root), vec!["/", "home", "u", ".config", "browsers"]);
    assert_eq!(names(targets[0].exact_file.as_ref().unwrap()), vec!["/", "home", "u", ".config", "browsers", "config.json"]);
    assert_eq!(names(&targets[1].root), vec!["/", "home", "u", ".mozilla", "firefox"]);
    assert!(targets[1].exact_file.is_none());
}

#[test]
fn watch_targets_without_files_watch_the_roots() {
    let roots = vec![path("/a"), path("/b")];
    let targets = watch_targets(&None, &None, &roots);
    assert_eq!(targets.len(), 2);
    assert_eq!(names(&targets[1].root), vec!["/", "b"]);
}

#[test]
fn dedup_keeps_the_first_target_of_each_root() {
    let kept = dedup_by_root(vec![tree("/a"), file("/a", "/a/f"), tree("/b"), tree("/a")]);
    assert_eq!(kept.len(), 2);
    assert!(kept[0].exact_file.is_none());
    assert_eq!(names(&kept[1].root), vec!["/", "b"]);
}

#[test]
fn debouncer_waits_for_quiet_then_refreshes_once() {
    assert_eq!(DEBOUNCE_MILLIS, 400);
    let (mut state, action) = DebounceState::start();
    assert_eq!(action, DebounceAction::WaitForChange);
    let mut refreshes = 0;
    for event in [DebounceEvent::Changed, DebounceEvent::Changed, DebounceEvent::Changed, DebounceEvent::TimedOut] {
        let (next, action) = state.step(event);
        if action == DebounceAction::SendRefresh {
            refreshes += 1;
        }
        state = next;
    }
    assert_eq!(refreshes, 1);
    assert_eq!(state, DebounceState::Refreshing);
    assert_eq!(state.step(DebounceEvent::Delivered), (DebounceState::Idle, DebounceAction::WaitForChange));
}

#[test]
fn debouncer_stops_when_disconnected_or_undelivered() {
    assert_eq!(DebounceState::Idle.step(DebounceEvent::Disconnected), (DebounceState::Stopped, DebounceAction::Stop));
    assert_eq!(DebounceState::Settling.step(DebounceEvent::Disconnected), (DebounceState::Stopped, DebounceAction::Stop));
    assert_eq!(DebounceState::Refreshing.step(DebounceEvent::DeliveryFailed), (DebounceState::Stopped, DebounceAction::Stop));
    assert_eq!(DebounceState::Stopped.step(DebounceEvent::Changed), (DebounceState::Stopped, DebounceAction::Stop));
}

#[test]
fn idle_timeouts_keep_waiting() {
    assert_eq!(DebounceState::Idle.step(DebounceEvent::TimedOut), (DebounceState::Idle, DebounceAction::WaitForChange));
    assert_eq!(DebounceState::Settling.step(DebounceEvent::Changed), (DebounceState::Settling, DebounceAction::WaitQuietPeriod));
}
