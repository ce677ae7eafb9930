//! macOS, Windows, Android, iOS and the script runtime; reading targets and
//! browser names; the entry points.

use webbrowser::macos::LSError;
use webbrowser::open;
use webbrowser::open_browser;
use webbrowser::open_browser_with_options;
use webbrowser::open_target;
use webbrowser::target::path_to_open;
use webbrowser::windows::ensure_cmd_quotes;
use webbrowser::windows::get_browser_cmd;
use webbrowser::Browser;
use webbrowser::BrowserOptions;
use webbrowser::CandidateCommand;
use webbrowser::Environment;
use webbrowser::Error;
use webbrowser::ErrorKind;
use webbrowser::Host;
use webbrowser::ParseBrowserError;
use webbrowser::Platform;
use webbrowser::Reply;
use webbrowser::Request;
use webbrowser::Step;
use webbrowser::Target;

fn host(env: Environment, replies: Vec<Reply>) -> Host {
    let mut h = Host::new(env);
    h.replies = replies;
    h
}

fn on(platform: Platform, replies: Vec<Reply>) -> Host {
    host(Environment::new(platform), replies)
}

fn done(output: &[u8]) -> Reply {
    Reply::Done { output: output.to_vec() }
}

fn failed(kind: ErrorKind) -> Reply {
    Reply::Failed { kind }
}

fn web() -> Target {
    Target::try_from("https://example.com/a?b=c", &Environment::new(Platform::Linux)).unwrap()
}

fn kind_of(step: Step<Result<(), Error>>) -> ErrorKind {
    match step {
        Step::Done(Err(e), _) => e.kind(),
        other => panic!("{:?}", other),
    }
}

fn dry() -> BrowserOptions {
    let mut options = BrowserOptions::new();
    options.with_dry_run(true);
    options
}

#[test]
fn test_unix_test_hardened_mode() {
    let mut env = Environment::new(Platform::Linux);
    env.hardened = true;
    let step = open("file:///etc/passwd", &host(env, vec![]));
    assert_eq!(kind_of(step), ErrorKind::InvalidInput);
}

#[test]
fn test_macos_test_hardened_mode() {
    let mut env = Environment::new(Platform::MacOs);
    env.hardened = true;
    let step = open("file:///etc/passwd", &host(env, vec![]));
    assert_eq!(kind_of(step), ErrorKind::InvalidInput);
}

#[test]
fn test_windows_test_hardened_mode() {
    let mut env = Environment::new(Platform::Windows);
    env.hardened = true;
    let step = open("file:///blah.html", &host(env, vec![]));
    assert_eq!(kind_of(step), ErrorKind::InvalidInput);
}

#[test]
fn open_non_existing_browser() {
    // Opera is not installed: the launch service says so.
    let h = on(Platform::MacOs, vec![Reply::Status { code: -10814 }]);
    let target = Target::try_from("https://github.com", &h.env).expect("failed to parse url");
    match open_target(Browser::Opera, &target, &BrowserOptions::default(), &h, 0) {
        Step::Done(Err(err), 1) => assert_eq!(err.kind(), ErrorKind::NotFound),
        _ => panic!("expected opening non-existing browser to fail"),
    }
}

#[test]
fn urls_are_normalised() {
    let env = Environment::new(Platform::Linux);
    let t = Target::try_from("HTTP://Example.COM:80/a b?q=1#f", &env).unwrap();
    assert_eq!(t.url, b"http://example.com/a%20b?q=1#f".to_vec());
    assert_eq!(t.scheme, b"http".to_vec());
    assert!(t.has_host);
    assert_eq!(t.path, b"/a%20b".to_vec());
    assert!(t.is_http());
    assert_eq!(t.get_http_url().unwrap(), t.url);

    let t = Target::try_from("file:///tmp/a%20b.html", &env).unwrap();
    assert_eq!(t.scheme, b"file".to_vec());
    assert!(!t.has_host);
    assert_eq!(t.path, b"/tmp/a%20b.html".to_vec());
    assert_eq!(t.file_path, Some(b"/tmp/a b.html".to_vec()));
    assert!(!t.is_http());
    assert_eq!(t.get_http_url().unwrap_err().kind(), ErrorKind::InvalidInput);

    let t = Target::try_from("mailto:someone@example.com", &env).unwrap();
    assert_eq!(t.scheme, b"mailto".to_vec());
    assert!(!t.has_host);
}

#[test]
fn paths_become_file_urls() {
    let mut env = Environment::new(Platform::Linux);
    let t = Target::try_from("/tmp/some file.html", &env).unwrap();
    assert_eq!(t.url, b"file:///tmp/some%20file.html".to_vec());
    assert_eq!(t.scheme, b"file".to_vec());
    assert_eq!(t.file_path, Some(b"/tmp/some file.html".to_vec()));

    let e = Target::try_from("docs/index.html", &env).unwrap_err();
    assert_eq!(e.kind(), ErrorKind::NotFound);
    env.current_dir = Some(b"/home/u/project".to_vec());
    let t = Target::try_from("docs/index.html", &env).unwrap();
    assert_eq!(t.url, b"file:///home/u/project/docs/index.html".to_vec());

    env.current_dir = Some(b"not/absolute".to_vec());
    let e = Target::try_from("docs/index.html", &env).unwrap_err();
    assert_eq!(e.kind(), ErrorKind::InvalidInput);
    assert_eq!(e.to_string(), "failed to convert path to url");
}

#[test]
fn script_runtime_reads_urls_only() {
    let env = Environment::new(Platform::Wasm);
    let e = Target::try_from("/tmp/a.html", &env).unwrap_err();
    assert_eq!(e.kind(), ErrorKind::InvalidInput);
    assert_eq!(e.to_string(), "invalid url for wasm");
    assert!(Target::try_from("https://example.com", &env).is_ok());
}

#[test]
fn file_paths_are_rooted_per_platform() {
    let mut env = Environment::new(Platform::Windows);
    env.current_dir = Some(b"C:\\work".to_vec());
    assert_eq!(path_to_open(b"C:\\a.html", &env).unwrap(), b"C:\\a.html".to_vec());
    assert_eq!(path_to_open(b"\\\\srv\\a.html", &env).unwrap(), b"\\\\srv\\a.html".to_vec());
    assert_eq!(path_to_open(b"a.html", &env).unwrap(), b"C:\\work\\a.html".to_vec());
    assert_eq!(path_to_open(b"/a.html", &env).unwrap(), b"C:\\work\\/a.html".to_vec());
    env.platform = Platform::Linux;
    env.current_dir = Some(b"/work/".to_vec());
    assert_eq!(path_to_open(b"/a.html", &env).unwrap(), b"/a.html".to_vec());
    assert_eq!(path_to_open(b"a.html", &env).unwrap(), b"/work/a.html".to_vec());
}

#[test]
fn entry_points_read_the_input_first() {
    let mut env = Environment::new(Platform::Linux);
    env.path = Some(b"/usr/bin".to_vec());
    let h = host(env, vec![]);
    match open("https://example.com", &h) {
        Step::Ask(Request::Probe { path }) => {
            assert_eq!(path, b"/usr/bin/xdg-settings".to_vec())
        }
        other => panic!("{:?}", other),
    }
    assert_eq!(kind_of(open_browser(Browser::Chrome, "https://example.com", &h)), ErrorKind::NotFound);
    assert_eq!(
        kind_of(open_browser_with_options(
            Browser::Default,
            "relative/path.html",
            &BrowserOptions::new(),
            &h
        )),
        ErrorKind::NotFound
    );
}

#[test]
fn macos_opens_with_the_default_application() {
    let target = web();
    let options = BrowserOptions::new();
    let h = on(Platform::MacOs, vec![]);
    match open_target(Browser::Default, &target, &options, &h, 0) {
        Step::Ask(Request::DefaultHandler) => {}
        other => panic!("{:?}", other),
    }
    let h = on(Platform::MacOs, vec![done(b"file:///Applications/Firefox.app/")]);
    match open_target(Browser::Default, &target, &options, &h, 0) {
        Step::Ask(Request::OpenWith { app, url }) => {
            assert_eq!(app, b"file:///Applications/Firefox.app/".to_vec());
            assert_eq!(url, target.url);
        }
        other => panic!("{:?}", other),
    }
    // Without an answer Safari is taken.
    let h = on(Platform::MacOs, vec![failed(ErrorKind::Other)]);
    match open_target(Browser::Default, &target, &options, &h, 0) {
        Step::Ask(Request::OpenWith { app, .. }) => {
            assert_eq!(app, b"file:///Applications/Safari.app/".to_vec())
        }
        other => panic!("{:?}", other),
    }
    let h = on(Platform::MacOs, vec![failed(ErrorKind::Other), Reply::Status { code: 0 }]);
    match open_target(Browser::Default, &target, &options, &h, 0) {
        Step::Done(Ok(()), 2) => {}
        other => panic!("{:?}", other),
    }
}

#[test]
fn macos_knows_its_browsers() {
    let target = web();
    let options = BrowserOptions::new();
    let h = on(Platform::MacOs, vec![]);
    let bundle = |browser| match open_target(browser, &target, &options, &h, 0) {
        Step::Ask(Request::OpenWith { app, .. }) => String::from_utf8(app).unwrap(),
        other => panic!("{:?}", other),
    };
    assert_eq!(bundle(Browser::Firefox), "file:///Applications/Firefox.app/");
    assert_eq!(bundle(Browser::Chrome), "file:///Applications/Google Chrome.app/");
    assert_eq!(bundle(Browser::Opera), "file:///Applications/Opera.app/");
    assert_eq!(bundle(Browser::Safari), "file:///Applications/Safari.app/");
    for browser in [Browser::InternetExplorer, Browser::WebPositive] {
        assert_eq!(kind_of(open_target(browser, &target, &options, &h, 0)), ErrorKind::NotFound);
    }
}

#[test]
fn macos_dry_run_looks_for_the_bundle() {
    let target = web();
    let h = on(Platform::MacOs, vec![]);
    match open_target(Browser::Chrome, &target, &dry(), &h, 0) {
        Step::Ask(Request::IsDir { path }) => {
            assert_eq!(path, b"file:///Applications/Google Chrome.app/".to_vec())
        }
        other => panic!("{:?}", other),
    }
    let h = on(Platform::MacOs, vec![failed(ErrorKind::NotFound)]);
    assert_eq!(kind_of(open_target(Browser::Chrome, &target, &dry(), &h, 0)), ErrorKind::NotFound);
    let h = on(Platform::MacOs, vec![failed(ErrorKind::Other)]);
    assert_eq!(kind_of(open_target(Browser::Chrome, &target, &dry(), &h, 0)), ErrorKind::Other);
}

#[test]
fn launch_service_status_is_read() {
    assert_eq!(LSError::from(-43), LSError::ApplicationNotFound);
    assert_eq!(LSError::from(-10814), LSError::ApplicationNotFound);
    assert_eq!(LSError::from(-10826), LSError::NoLaunchPermission);
    assert_eq!(LSError::from(-50), LSError::Unknown(-50));
    assert_eq!(LSError::from(-43).into_error().kind(), ErrorKind::NotFound);
    assert_eq!(LSError::from(-10826).into_error().kind(), ErrorKind::PermissionDenied);
    assert_eq!(LSError::from(7).into_error().kind(), ErrorKind::Other);
    assert_eq!(
        LSError::ApplicationNotFound.into_error().to_string(),
        "ls_error: application not found"
    );
    let target = web();
    let h = on(Platform::MacOs, vec![Reply::Status { code: -10826 }]);
    assert_eq!(
        kind_of(open_target(Browser::Safari, &target, &BrowserOptions::new(), &h, 0)),
        ErrorKind::PermissionDenied
    );
}

#[test]
fn windows_starts_the_registered_command() {
    let target = web();
    let options = BrowserOptions::new();
    let h = on(Platform::Windows, vec![]);
    match open_target(Browser::Default, &target, &options, &h, 0) {
        Step::Ask(Request::DefaultHandler) => {}
        other => panic!("{:?}", other),
    }
    let h = on(
        Platform::Windows,
        vec![done(b"\"C:\\Program Files\\Firefox\\firefox.exe\" -osint -url \"%1\"")],
    );
    match open_target(Browser::Default, &target, &options, &h, 0) {
        Step::Ask(Request::Launch { command, wait, quiet }) => {
            assert_eq!(
                command,
                CandidateCommand {
                    program: b"C:\\Program Files\\Firefox\\firefox.exe".to_vec(),
                    args: vec![b"-osint".to_vec(), b"-url".to_vec(), target.url.clone()],
                    dir: None,
                }
            );
            assert!(!wait);
            assert!(quiet);
        }
        other => panic!("{:?}", other),
    }
    let h = on(Platform::Windows, vec![failed(ErrorKind::NotFound)]);
    assert_eq!(
        kind_of(open_target(Browser::Default, &target, &options, &h, 0)),
        ErrorKind::Other
    );
    // A line of spaces holds no command; each space was asked about first.
    let no = failed(ErrorKind::NotFound);
    let h = on(Platform::Windows, vec![done(b"   "), no.clone(), no.clone(), no]);
    assert_eq!(
        kind_of(open_target(Browser::Default, &target, &options, &h, 0)),
        ErrorKind::NotFound
    );
    assert_eq!(
        kind_of(open_target(Browser::InternetExplorer, &target, &options, &h, 0)),
        ErrorKind::NotFound
    );
}

#[test]
fn unquoted_program_paths_are_mended() {
    let line = b"C:\\Program Files\\My Browser\\b.exe --url %1";
    let h = on(Platform::Windows, vec![]);
    match ensure_cmd_quotes(line, &h, 0) {
        Step::Ask(Request::Exists { path }) => assert_eq!(path, b"C:\\Program".to_vec()),
        other => panic!("{:?}", other),
    }
    let no = failed(ErrorKind::NotFound);
    let h = on(Platform::Windows, vec![no.clone()]);
    match ensure_cmd_quotes(line, &h, 0) {
        Step::Ask(Request::Exists { path }) => {
            assert_eq!(path, b"C:\\Program Files\\My".to_vec())
        }
        other => panic!("{:?}", other),
    }
    let h = on(Platform::Windows, vec![no.clone(), no.clone(), done(b"")]);
    match ensure_cmd_quotes(line, &h, 0) {
        Step::Done(quoted, 3) => assert_eq!(
            quoted,
            b"\"C:\\Program Files\\My Browser\\b.exe\" --url %1".to_vec()
        ),
        other => panic!("{:?}", other),
    }
    let h = on(Platform::Windows, vec![no.clone(), no.clone(), no.clone(), no.clone()]);
    match ensure_cmd_quotes(line, &h, 0) {
        Step::Done(same, 4) => assert_eq!(same, line.to_vec()),
        other => panic!("{:?}", other),
    }
    // A quoted line is left alone, and nothing is asked.
    let h = on(Platform::Windows, vec![]);
    match ensure_cmd_quotes(b"\"C:\\a b\\c.exe\" %1", &h, 0) {
        Step::Done(same, 0) => assert_eq!(same, b"\"C:\\a b\\c.exe\" %1".to_vec()),
        other => panic!("{:?}", other),
    }
    match ensure_cmd_quotes(b"browser.exe", &h, 0) {
        Step::Done(same, 0) => assert_eq!(same, b"browser.exe".to_vec()),
        other => panic!("{:?}", other),
    }
}

#[test]
fn registered_command_takes_the_url() {
    let cmd = get_browser_cmd(b"\"C:\\b.exe\" %0 -x %1", b"http://a/").unwrap();
    assert_eq!(cmd.program, b"C:\\b.exe".to_vec());
    assert_eq!(cmd.args, vec![b"http://a/".to_vec(), b"-x".to_vec(), b"http://a/".to_vec()]);
    let e = get_browser_cmd(b"", b"http://a/").unwrap_err();
    assert_eq!(e.kind(), ErrorKind::NotFound);
    assert_eq!(e.to_string(), "invalid command");
}

#[test]
fn android_views_web_pages() {
    let target = web();
    let options = BrowserOptions::new();
    let h = on(Platform::Android, vec![]);
    match open_target(Browser::Default, &target, &options, &h, 0) {
        Step::Ask(Request::OpenUrl { url, hint }) => {
            assert_eq!(url, target.url);
            assert!(hint.is_empty());
        }
        other => panic!("{:?}", other),
    }
    let h = on(Platform::Android, vec![done(b"")]);
    assert!(matches!(
        open_target(Browser::Default, &target, &options, &h, 0),
        Step::Done(Ok(()), 1)
    ));
    let h = on(Platform::Android, vec![failed(ErrorKind::NotFound)]);
    assert_eq!(
        kind_of(open_target(Browser::Default, &target, &options, &h, 0)),
        ErrorKind::NotFound
    );
    let file = Target::try_from("/tmp/a.html", &h.env).unwrap();
    assert_eq!(
        kind_of(open_target(Browser::Default, &file, &options, &h, 0)),
        ErrorKind::InvalidInput
    );
    assert_eq!(
        kind_of(open_target(Browser::Firefox, &file, &options, &h, 0)),
        ErrorKind::InvalidInput
    );
}

#[test]
fn termux_comes_first_on_android() {
    let target = web();
    let mut options = BrowserOptions::new();
    options.with_suppress_output(false);
    let mut env = Environment::new(Platform::Android);
    env.termux_version = true;
    match open_target(Browser::Default, &target, &options, &host(env.clone(), vec![]), 0) {
        Step::Ask(Request::Launch { command, wait, quiet }) => {
            assert_eq!(command.program, b"termux-open".to_vec());
            assert_eq!(command.args, vec![target.url.clone()]);
            assert!(wait);
            assert!(!quiet);
        }
        other => panic!("{:?}", other),
    }
    let h = host(env.clone(), vec![Reply::Status { code: 0 }]);
    assert!(matches!(
        open_target(Browser::Default, &target, &options, &h, 0),
        Step::Done(Ok(()), 1)
    ));
    let h = host(env, vec![Reply::Status { code: 1 }]);
    assert!(matches!(
        open_target(Browser::Default, &target, &options, &h, 0),
        Step::Ask(Request::OpenUrl { .. })
    ));
}

#[test]
fn ios_opens_web_pages_whatever_the_browser() {
    let target = web();
    let options = BrowserOptions::new();
    let h = on(Platform::Ios, vec![]);
    assert!(matches!(
        open_target(Browser::Opera, &target, &options, &h, 0),
        Step::Ask(Request::OpenUrl { .. })
    ));
    assert!(matches!(open_target(Browser::Opera, &target, &dry(), &h, 0), Step::Done(Ok(()), 0)));
    let h = on(Platform::Ios, vec![failed(ErrorKind::Other)]);
    assert_eq!(kind_of(open_target(Browser::Default, &target, &options, &h, 0)), ErrorKind::Other);
    let file = Target::try_from("/tmp/a.html", &h.env).unwrap();
    assert_eq!(
        kind_of(open_target(Browser::Default, &file, &dry(), &h, 0)),
        ErrorKind::InvalidInput
    );
}

#[test]
fn script_runtime_passes_the_hint() {
    let target = web();
    let mut options = BrowserOptions::new();
    let h = on(Platform::Wasm, vec![]);
    match open_target(Browser::Default, &target, &options, &h, 0) {
        Step::Ask(Request::OpenUrl { url, hint }) => {
            assert_eq!(url, target.url);
            assert_eq!(hint, b"_blank".to_vec());
        }
        other => panic!("{:?}", other),
    }
    options.with_target_hint("_self");
    match open_target(Browser::Default, &target, &options, &h, 0) {
        Step::Ask(Request::OpenUrl { hint, .. }) => assert_eq!(hint, b"_self".to_vec()),
        other => panic!("{:?}", other),
    }
    let h = on(Platform::Wasm, vec![failed(ErrorKind::PermissionDenied)]);
    match open_target(Browser::Default, &target, &options, &h, 0) {
        Step::Done(Err(e), 1) => {
            assert_eq!(e.kind(), ErrorKind::Other);
            assert_eq!(e.to_string(), "popup blocked? window detected, but open_url failed");
        }
        other => panic!("{:?}", other),
    }
}

#[test]
fn browsers_are_read_and_shown() {
    assert_eq!(Browser::parse("firefox"), Ok(Browser::Firefox));
    assert_eq!(Browser::parse("default"), Ok(Browser::Default));
    assert_eq!(Browser::parse("ie"), Ok(Browser::InternetExplorer));
    assert_eq!(Browser::parse("internet explorer"), Ok(Browser::InternetExplorer));
    assert_eq!(Browser::parse("internetexplorer"), Ok(Browser::InternetExplorer));
    assert_eq!(Browser::parse("chrome"), Ok(Browser::Chrome));
    assert_eq!(Browser::parse("opera"), Ok(Browser::Opera));
    assert_eq!(Browser::parse("safari"), Ok(Browser::Safari));
    assert_eq!(Browser::parse("webpositive"), Ok(Browser::WebPositive));
    assert_eq!(Browser::parse("Firefox"), Err(ParseBrowserError));
    assert_eq!(Browser::parse(""), Err(ParseBrowserError));
    assert_eq!("opera".parse::<Browser>(), Ok(Browser::Opera));
    assert_eq!(Browser::default(), Browser::Default);
    assert_eq!(Browser::InternetExplorer.to_string(), "Internet Explorer");
    assert_eq!(Browser::WebPositive.to_string(), "WebPositive");
    assert_eq!(ParseBrowserError.to_string(), "Invalid browser given");
    assert_eq!(ParseBrowserError.description(), "invalid browser");
}

#[test]
fn options_are_built_step_by_step() {
    let options = BrowserOptions::new();
    assert_eq!(options, BrowserOptions::default());
    assert!(options.suppress_output);
    assert!(!options.dry_run);
    assert_eq!(options.target_hint, "_blank");
    let mut options = BrowserOptions::new();
    options.with_suppress_output(false).with_target_hint("_top").with_dry_run(true);
    assert!(!options.suppress_output);
    assert!(options.dry_run);
    assert_eq!(options.target_hint, "_top");
    assert_eq!(
        options.to_string(),
        "BrowserOptions(supress_output=false, target_hint=_top, dry_run=true)"
    );
}
