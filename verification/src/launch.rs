//! What a start of the program asks for: its command-line flags and URL,
//! and whether it forwards the URL to a running daemon, refuses to start
//! a daemon, or starts the chooser itself.

use vstd::prelude::*;
use vstd::string::*;
use crate::communicate::DaemonRequest;
use crate::text::str_eq;

verus! {

/// The options of one start of the program.
pub struct LaunchOptions {
    /// `--daemon`: keep running in the background.
    pub daemon: bool,
    /// `--no-gui`: print the browsers instead of showing the chooser.
    pub no_gui: bool,
    /// `--reload`: rediscover the browsers first.
    pub reload: bool,
    /// The first argument that starts with `http`, or empty.
    pub url: String,
}

/// Whether one of the arguments is exactly `flag`.
pub open spec fn has_arg(args: Seq<Seq<char>>, flag: Seq<char>) -> bool {
    exists|i: int| 0 <= i < args.len() && #[trigger] args[i] == flag
}

/// Whether `s` starts with `http`.
pub open spec fn starts_with_http(s: Seq<char>) -> bool {
    s.len() >= 4 && s.take(4) == "http"@
}

/// The first argument at or after position `i` that starts with `http`,
/// or empty.
pub open spec fn first_url_from(args: Seq<Seq<char>>, i: int) -> Seq<char>
    decreases args.len() - i,
{
    if i < 0 || i >= args.len() {
        Seq::empty()
    } else if starts_with_http(args[i]) {
        args[i]
    } else {
        first_url_from(args, i + 1)
    }
}

/// The views of the arguments.
pub open spec fn arg_texts(args: Seq<String>) -> Seq<Seq<char>> {
    args.map_values(|a: String| a@)
}

fn is_flag(arg: &String, flag: &str) -> (r: bool)
    ensures
        r == (arg@ == flag@),
{
    str_eq(arg.as_str(), flag)
}

fn starts_http(arg: &String) -> (r: bool)
    ensures
        r == starts_with_http(arg@),
{
    let s = arg.as_str();
    proof {
        reveal_strlit("http");
    }
    if s.unicode_len() < 4 {
        return false;
    }
    let r = s.get_char(0) == 'h' && s.get_char(1) == 't' && s.get_char(2) == 't' && s.get_char(3) == 'p';
    proof {
        let head = s@.take(4);
        if head == "http"@ {
            assert(head[0] == "http"@[0] && head[1] == "http"@[1]);
            assert(head[2] == "http"@[2] && head[3] == "http"@[3]);
        }
        if r {
            assert(head =~= "http"@);
        }
    }
    r
}

fn first_url(args: &Vec<String>) -> (r: String)
    ensures
        r@ == first_url_from(arg_texts(args@), 0),
{
    let ghost texts = arg_texts(args@);
    let mut k: usize = 0;
    while k < args.len()
        invariant
            k <= args@.len(),
            texts == arg_texts(args@),
            first_url_from(texts, 0) == first_url_from(texts, k as int),
        decreases args.len() - k,
    {
        assert(texts[k as int] == args@[k as int]@);
        if starts_http(&args[k]) {
            return args[k].clone();
        }
        k = k + 1;
    }
    String::new()
}

/// The options given by the arguments (all of them, the program's own
/// name included).
pub fn launch_options(args: &Vec<String>) -> (r: LaunchOptions)
    ensures
        r.daemon == has_arg(arg_texts(args@), "--daemon"@),
        r.no_gui == has_arg(arg_texts(args@), "--no-gui"@),
        r.reload == has_arg(arg_texts(args@), "--reload"@),
        r.url@ == first_url_from(arg_texts(args@), 0),
{
    let ghost texts = arg_texts(args@);
    let mut daemon = false;
    let mut no_gui = false;
    let mut reload = false;
    let mut i: usize = 0;
    while i < args.len()
        invariant
            i <= args@.len(),
            texts == arg_texts(args@),
            daemon == exists|j: int| 0 <= j < i && #[trigger] texts[j] == "--daemon"@,
            no_gui == exists|j: int| 0 <= j < i && #[trigger] texts[j] == "--no-gui"@,
            reload == exists|j: int| 0 <= j < i && #[trigger] texts[j] == "--reload"@,
        decreases args.len() - i,
    {
        assert(texts[i as int] == args@[i as int]@);
        if is_flag(&args[i], "--daemon") {
            daemon = true;
        }
        if is_flag(&args[i], "--no-gui") {
            no_gui = true;
        }
        if is_flag(&args[i], "--reload") {
            reload = true;
        }
        i = i + 1;
    }
    LaunchOptions { daemon, no_gui, reload, url: first_url(args) }
}

/// What a start of the program does.
pub enum LaunchAction {
    /// Hand the request to a running daemon (starting the chooser itself
    /// when that fails).
    ForwardToDaemon(DaemonRequest),
    /// Refuse to start a daemon, with this message.
    RefuseDaemon(&'static str),
    /// Start the chooser itself.
    Start,
}

/// Whether the chooser shows its window: always for a daemon, else
/// unless `--no-gui` was given.
pub open spec fn shows_gui(o: LaunchOptions) -> bool {
    o.daemon || !o.no_gui
}

/// What a start does: on Linux in a Wayland session, a start that is
/// neither a daemon nor without a window forwards its URL (and reload
/// request) to the daemon; a daemon needs Linux with Wayland; all else
/// starts the chooser.
pub fn launch_action(options: &LaunchOptions, on_linux: bool, wayland: bool) -> (r: LaunchAction)
    ensures
        on_linux && !options.daemon && !options.no_gui && wayland ==> (r matches LaunchAction::ForwardToDaemon(req)
            && req.url@ == options.url@ && req.reload == options.reload && req.activation_token is None),
        on_linux && options.daemon && !wayland ==> (r matches LaunchAction::RefuseDaemon(m)
            && m@ == "Browsers daemon requires a Wayland session"@),
        !on_linux && options.daemon ==> (r matches LaunchAction::RefuseDaemon(m)
            && m@ == "Browsers daemon is currently supported only on Linux Wayland"@),
        !(on_linux && !options.daemon && !options.no_gui && wayland) && !(options.daemon && !(on_linux && wayland))
            ==> r is Start,
{
    if on_linux && !options.daemon && !options.no_gui && wayland {
        LaunchAction::ForwardToDaemon(DaemonRequest {
            url: options.url.clone(),
            reload: options.reload,
            activation_token: None,
        })
    } else if on_linux && options.daemon && !wayland {
        LaunchAction::RefuseDaemon("Browsers daemon requires a Wayland session")
    } else if !on_linux && options.daemon {
        LaunchAction::RefuseDaemon("Browsers daemon is currently supported only on Linux Wayland")
    } else {
        LaunchAction::Start
    }
}

/// The URL the chooser starts with: none for a daemon, else the one
/// given.
pub fn start_url(options: &LaunchOptions) -> (r: String)
    ensures
        r@ == (if options.daemon { Seq::empty() } else { options.url@ }),
{
    if options.daemon {
        String::new()
    } else {
        options.url.clone()
    }
}

/// Whether the chooser starts with its window.
pub fn show_gui(options: &LaunchOptions) -> (r: bool)
    ensures
        r == shows_gui(*options),
{
    options.daemon || !options.no_gui
}

} // verus!
