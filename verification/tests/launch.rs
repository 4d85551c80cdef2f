use browsers::launch::{launch_action, launch_options, show_gui, start_url, LaunchAction};

fn args(list: &[&str]) -> Vec<String> {
    list.iter().map(|a| a.to_string()).collect()
}

#[test]
fn flags_and_first_url_are_read() {
    let o = launch_options(&args(&["browsers", "--reload", "ftp://x", "https://a.example", "http://b.example"]));
    assert!(o.reload && !o.daemon && !o.no_gui);
    assert_eq!(o.url, "https://a.example");
    let o = launch_options(&args(&["browsers", "--daemon", "--no-gui"]));
    assert!(o.daemon && o.no_gui);
    assert_eq!(o.url, "");
}

#[test]
fn wayland_starts_forward_to_the_daemon() {
    let o = launch_options(&args(&["browsers", "--reload", "https://a.example"]));
    match launch_action(&o, true, true) {
        LaunchAction::ForwardToDaemon(r) => {
            assert_eq!(r.url, "https://a.example");
            assert!(r.reload);
            assert!(r.activation_token.is_none());
        }
        _ => panic!("expected forwarding"),
    }
    assert!(matches!(launch_action(&o, true, false), LaunchAction::Start));
    assert!(matches!(launch_action(&o, false, true), LaunchAction::Start));
}

#[test]
fn daemons_need_linux_wayland() {
    let o = launch_options(&args(&["browsers", "--daemon", "https://a.example"]));
    assert!(matches!(launch_action(&o, true, false), LaunchAction::RefuseDaemon(m) if m == "Browsers daemon requires a Wayland session"));
    assert!(matches!(launch_action(&o, false, false), LaunchAction::RefuseDaemon(m) if m == "Browsers daemon is currently supported only on Linux Wayland"));
    assert!(matches!(launch_action(&o, true, true), LaunchAction::Start));
    assert_eq!(start_url(&o), "");
    assert!(show_gui(&o));
}

#[test]
fn no_gui_starts_without_a_window() {
    let o = launch_options(&args(&["browsers", "--no-gui", "https://a.example"]));
    assert!(matches!(launch_action(&o, true, true), LaunchAction::Start));
    assert!(!show_gui(&o));
    assert_eq!(start_url(&o), "https://a.example");
}
