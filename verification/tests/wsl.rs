//! The bridge from WSL to Windows.

use webbrowser::open_target;
use webbrowser::wsl::build_windows_command;
use webbrowser::wsl::get_wsl_win_config;
use webbrowser::wsl::is_system32;
use webbrowser::wsl::parse_distro_name;
use webbrowser::wsl::path_components;
use webbrowser::wsl::share_path;
use webbrowser::wsl::strip_root;
use webbrowser::wsl::wsl_get_filepath_from_url;
use webbrowser::wsl::wsl_path_lin2win;
use webbrowser::wsl::wsl_path_win2lin;
use webbrowser::wsl::WindowsConfig;
use webbrowser::Browser;
use webbrowser::BrowserOptions;
use webbrowser::CandidateCommand;
use webbrowser::Environment;
use webbrowser::ErrorKind;
use webbrowser::Host;
use webbrowser::Platform;
use webbrowser::Reply;
use webbrowser::Request;
use webbrowser::Script;
use webbrowser::Step;
use webbrowser::Target;

fn config() -> WindowsConfig {
    WindowsConfig {
        root: b"/mnt/c".to_vec(),
        cmd_path: b"/mnt/c/Windows/System32/cmd.exe".to_vec(),
        powershell_path: None,
    }
}

fn host(env: Environment, replies: Vec<Reply>) -> Host {
    let mut h = Host::new(env);
    h.replies = replies;
    h
}

fn wsl_env() -> Environment {
    let mut env = Environment::new(Platform::Linux);
    env.wsl_interop = Some(b"enabled".to_vec());
    env.path = Some(
        b"/usr/bin:/mnt/c/WINDOWS/system32/:/mnt/c/WINDOWS/System32/WindowsPowerShell/v1.0/:/mnt/d/tools"
            .to_vec(),
    );
    env
}

fn file_target(path: &str) -> Target {
    Target {
        url: format!("file://{}", path).into_bytes(),
        scheme: b"file".to_vec(),
        has_host: false,
        path: path.as_bytes().to_vec(),
        file_path: Some(path.as_bytes().to_vec()),
    }
}

fn done(output: &[u8]) -> Reply {
    Reply::Done { output: output.to_vec() }
}

fn no() -> Reply {
    Reply::Failed { kind: ErrorKind::NotFound }
}

#[test]
fn file_outside_windows_goes_through_the_share() {
    let mut env = Environment::new(Platform::Linux);
    env.wsl_distro_name = Some(b"Ubuntu".to_vec());
    let h = host(env, vec![]);
    match wsl_path_lin2win(&config(), b"/home/user/page one.html", &h, 0) {
        Step::Done(Ok(path), 0) => {
            assert_eq!(path, b"\\\\wsl$\\Ubuntu\\home\\user\\page one.html".to_vec())
        }
        other => panic!("{:?}", other),
    }
    assert_eq!(share_path(b"Debian", b"/a/b"), b"\\\\wsl$\\Debian\\a\\b".to_vec());
}

#[test]
fn file_on_the_windows_drive_is_named_by_the_drive() {
    let h = host(Environment::new(Platform::Linux), vec![]);
    match wsl_path_lin2win(&config(), b"/mnt/c/Users/me/a.html", &h, 0) {
        Step::Done(Ok(path), 0) => assert_eq!(path, b"C:\\Users\\me\\a.html".to_vec()),
        other => panic!("{:?}", other),
    }
    match wsl_path_lin2win(&config(), b"/mnt/c", &h, 0) {
        Step::Done(Ok(path), 0) => assert_eq!(path, b"C:\\".to_vec()),
        other => panic!("{:?}", other),
    }
}

#[test]
fn distro_name_is_asked_from_powershell_when_unset() {
    let mut wc = config();
    // Without PowerShell there is no way to learn it.
    let h = host(Environment::new(Platform::Linux), vec![]);
    match wsl_path_lin2win(&wc, b"/home/u/a.html", &h, 0) {
        Step::Done(Err(e), 0) => {
            assert_eq!(e.kind(), ErrorKind::Other);
            assert_eq!(e.to_string(), "unable to determine wsl distro name");
        }
        other => panic!("{:?}", other),
    }
    wc.powershell_path = Some(b"/mnt/c/ps/powershell.exe".to_vec());
    match wsl_path_lin2win(&wc, b"/home/u/a.html", &h, 0) {
        Step::Ask(Request::Capture { command, script }) => {
            assert_eq!(script, Script::Nothing);
            assert_eq!(command.program, b"/mnt/c/ps/powershell.exe".to_vec());
            assert_eq!(command.dir, Some(b"/".to_vec()));
            assert_eq!(command.args.len(), 5);
            assert_eq!(
                command.args[4],
                b"$loc = Get-Location\nWrite-Output $loc.Path".to_vec()
            );
        }
        other => panic!("{:?}", other),
    }
    let h = host(
        Environment::new(Platform::Linux),
        vec![done(b"Microsoft.PowerShell.Core\\FileSystem::\\\\wsl$\\Ubuntu-22.04\\")],
    );
    match wsl_path_lin2win(&wc, b"/home/u/a.html", &h, 0) {
        Step::Done(Ok(path), 1) => {
            assert_eq!(path, b"\\\\wsl$\\Ubuntu-22.04\\home\\u\\a.html".to_vec())
        }
        other => panic!("{:?}", other),
    }
}

#[test]
fn distro_name_is_read_out_of_the_location() {
    assert_eq!(
        parse_distro_name(b"Microsoft.PowerShell.Core\\FileSystem::\\\\wsl$\\Ubuntu\\"),
        Some(b"Ubuntu".to_vec())
    );
    assert_eq!(parse_distro_name(b"x::\\\\wsl$\\Debian \\\\"), Some(b"Debian".to_vec()));
    // Only backslashes at the very end are dropped.
    assert_eq!(parse_distro_name(b"x::\\\\wsl$\\Ubuntu\\\r\n"), Some(b"Ubuntu\\".to_vec()));
    assert_eq!(parse_distro_name(b"C:\\Users"), None);
    assert_eq!(parse_distro_name(b"::\\\\wsl"), None);
    assert_eq!(parse_distro_name(b""), None);
}

#[test]
fn windows_paths_map_below_the_root() {
    let wc = config();
    assert_eq!(
        wsl_path_win2lin(&wc, b"C:\\Program Files\\Mozilla Firefox\\firefox.exe").unwrap(),
        b"/mnt/c/Program Files/Mozilla Firefox/firefox.exe".to_vec()
    );
    assert_eq!(wsl_path_win2lin(&wc, b"c:\\a").unwrap(), b"/mnt/c/a".to_vec());
    for bad in ["D:\\a\\b.exe", "C:\\", "C:/a", "firefox.exe", ""] {
        let e = wsl_path_win2lin(&wc, bad.as_bytes()).unwrap_err();
        assert_eq!(e.kind(), ErrorKind::NotFound, "{}", bad);
        assert_eq!(e.to_string(), "invalid windows path");
    }
}

#[test]
fn registered_command_line_becomes_a_command() {
    let wc = config();
    let cmd = build_windows_command(
        &wc,
        b"\"C:\\Program Files\\Mozilla Firefox\\firefox.exe\" -osint -url \"%1\"",
        b"C:\\Users\\me\\a.html",
    )
    .unwrap();
    assert_eq!(
        cmd,
        CandidateCommand {
            program: b"/mnt/c/Program Files/Mozilla Firefox/firefox.exe".to_vec(),
            args: vec![b"-osint".to_vec(), b"-url".to_vec(), b"C:\\Users\\me\\a.html".to_vec()],
            dir: None,
        }
    );
    assert_eq!(
        build_windows_command(&wc, b"  ", b"x").unwrap_err().to_string(),
        "invalid command"
    );
    assert_eq!(
        build_windows_command(&wc, b"http=\"C:\\b.exe\" %1", b"x").unwrap_err().to_string(),
        "invalid windows path"
    );
}

#[test]
fn target_is_named_for_windows() {
    let wc = config();
    let h = host(Environment::new(Platform::Linux), vec![]);
    let mut t = file_target("/srv/a b.html");
    t.has_host = true;
    match wsl_get_filepath_from_url(&wc, &t, &h, 0) {
        Step::Done(Ok(p), 0) => assert_eq!(p, b"\\\\wsl$\\srv\\a b.html".to_vec()),
        other => panic!("{:?}", other),
    }
    let mut t = file_target("/srv/a.html");
    t.file_path = None;
    match wsl_get_filepath_from_url(&wc, &t, &h, 0) {
        Step::Done(Err(e), 0) => assert_eq!(e.to_string(), "invalid path"),
        other => panic!("{:?}", other),
    }
    let mut t = file_target("/srv/a.html");
    t.scheme = b"https".to_vec();
    t.url = b"https://example.com/".to_vec();
    match wsl_get_filepath_from_url(&wc, &t, &h, 0) {
        Step::Done(Ok(p), 0) => assert_eq!(p, b"https://example.com/".to_vec()),
        other => panic!("{:?}", other),
    }
}

#[test]
fn windows_is_found_on_the_search_path() {
    assert!(is_system32(b"/mnt/c/WINDOWS/System32//"));
    assert!(is_system32(b"/windows/system32"));
    assert!(!is_system32(b"/mnt/c/windows/system32/wbem"));
    assert!(!is_system32(b"windows/system32"));

    let env = wsl_env();
    match get_wsl_win_config(&host(env.clone(), vec![]), 0) {
        Step::Ask(Request::Canonicalize { path }) => {
            assert_eq!(path, b"/mnt/c/WINDOWS/system32/../..".to_vec())
        }
        other => panic!("{:?}", other),
    }
    match get_wsl_win_config(&host(env.clone(), vec![done(b"/mnt/c")]), 0) {
        Step::Ask(Request::IsFile { path }) => {
            assert_eq!(path, b"/mnt/c/WINDOWS/system32/powershell.exe".to_vec())
        }
        other => panic!("{:?}", other),
    }
    match get_wsl_win_config(&host(env.clone(), vec![done(b"/mnt/c"), no()]), 0) {
        Step::Ask(Request::IsFile { path }) => assert_eq!(
            path,
            b"/mnt/c/WINDOWS/System32/WindowsPowerShell/v1.0/powershell.exe".to_vec()
        ),
        other => panic!("{:?}", other),
    }
    match get_wsl_win_config(&host(env.clone(), vec![done(b"/mnt/c"), no(), done(b"")]), 0) {
        Step::Done(Ok(wc), 3) => assert_eq!(
            wc,
            WindowsConfig {
                root: b"/mnt/c".to_vec(),
                cmd_path: b"/mnt/c/WINDOWS/system32/cmd.exe".to_vec(),
                powershell_path: Some(
                    b"/mnt/c/WINDOWS/System32/WindowsPowerShell/v1.0/powershell.exe".to_vec()
                ),
            }
        ),
        other => panic!("{:?}", other),
    }
    let failed = Reply::Failed { kind: ErrorKind::PermissionDenied };
    match get_wsl_win_config(&host(env, vec![failed]), 0) {
        Step::Done(Err(e), 1) => assert_eq!(e.kind(), ErrorKind::PermissionDenied),
        other => panic!("{:?}", other),
    }
    let mut env = Environment::new(Platform::Linux);
    env.path = Some(b"/usr/bin:/bin".to_vec());
    match get_wsl_win_config(&host(env, vec![]), 0) {
        Step::Done(Err(e), 0) => {
            assert_eq!(e.kind(), ErrorKind::NotFound);
            assert_eq!(e.to_string(), "invalid windows config");
        }
        other => panic!("{:?}", other),
    }
}

#[test]
fn paths_are_taken_apart_by_components() {
    let parts = path_components(b"/mnt//c/./Users/../x/");
    assert_eq!(
        parts,
        vec![b"mnt".to_vec(), b"c".to_vec(), b"Users".to_vec(), b"..".to_vec(), b"x".to_vec()]
    );
    assert_eq!(strip_root(b"/mnt/c/Users/me", b"/mnt/c"), Some(b"Users/me".to_vec()));
    assert_eq!(strip_root(b"/mnt/c", b"/mnt/c/"), Some(b"".to_vec()));
    assert_eq!(strip_root(b"/mnt/cc/x", b"/mnt/c"), None);
    assert_eq!(strip_root(b"mnt/c/x", b"/mnt/c"), None);
    assert_eq!(strip_root(b"/mnt", b"/mnt/c"), None);
}

/// Plays Windows behind WSL: PowerShell knows the registered browser.
fn answer(request: &Request) -> Reply {
    match request {
        Request::Canonicalize { .. } => done(b"/mnt/c"),
        Request::IsFile { path } => {
            if path.ends_with(b"v1.0/powershell.exe") {
                done(b"")
            } else {
                no()
            }
        }
        Request::Capture { script: Script::DefaultBrowser, .. } => {
            done(b"\"C:\\Program Files\\Firefox\\firefox.exe\" -osint -url \"%1\"\r\n")
        }
        Request::Launch { .. } => Reply::Done { output: vec![] },
        _ => no(),
    }
}

#[test]
fn local_file_opens_in_the_browser_of_windows() {
    let mut env = wsl_env();
    env.wsl_distro_name = Some(b"Ubuntu".to_vec());
    let target = file_target("/home/u/a.html");
    let options = BrowserOptions::new();
    let mut h = Host::new(env);
    let mut asked = Vec::new();
    let outcome = loop {
        match open_target(Browser::Default, &target, &options, &h, 0) {
            Step::Ask(request) => {
                h.replies.push(answer(&request));
                asked.push(request);
            }
            Step::Done(outcome, _) => break outcome,
        }
    };
    assert!(outcome.is_ok());
    assert_eq!(
        asked.last(),
        Some(&Request::Launch {
            command: CandidateCommand {
                program: b"/mnt/c/Program Files/Firefox/firefox.exe".to_vec(),
                args: vec![
                    b"-osint".to_vec(),
                    b"-url".to_vec(),
                    b"\\\\wsl$\\Ubuntu\\home\\u\\a.html".to_vec(),
                ],
                dir: None,
            },
            wait: false,
            quiet: true,
        })
    );
    assert!(asked.iter().any(|r| matches!(
        r,
        Request::Capture { command, script: Script::DefaultBrowser }
            if command.args == vec![
                b"-NoLogo".to_vec(),
                b"-NoProfile".to_vec(),
                b"-NonInteractive".to_vec(),
                b"-Command".to_vec(),
                b"-".to_vec(),
            ]
    )));
}

#[test]
fn web_page_leaves_wsl_through_cmd() {
    let env = wsl_env();
    let target = Target {
        url: b"https://example.com/?a=1&b=^2".to_vec(),
        scheme: b"https".to_vec(),
        has_host: true,
        path: b"/".to_vec(),
        file_path: None,
    };
    let options = BrowserOptions::new();
    let mut h = Host::new(env);
    let mut launched = Vec::new();
    let outcome = loop {
        match open_target(Browser::Default, &target, &options, &h, 0) {
            Step::Ask(request) => {
                let reply = match &request {
                    Request::Probe { path } if path == b"/mnt/c/WINDOWS/system32/cmd.exe" => {
                        done(b"")
                    }
                    Request::Probe { path }
                        if path
                            == b"/mnt/c/WINDOWS/System32/WindowsPowerShell/v1.0/powershell.exe" =>
                    {
                        done(b"")
                    }
                    Request::Launch { command, .. } => {
                        launched.push(command.clone());
                        if command.program.ends_with(b"cmd.exe") {
                            Reply::Failed { kind: ErrorKind::Other }
                        } else {
                            done(b"")
                        }
                    }
                    _ => no(),
                };
                h.replies.push(reply);
            }
            Step::Done(outcome, _) => break outcome,
        }
    };
    assert!(outcome.is_ok());
    assert_eq!(launched.len(), 2);
    assert_eq!(
        launched[0].args,
        vec![b"/c".to_vec(), b"start".to_vec(), b"https://example.com/?a=1^&b=^^2".to_vec()]
    );
    assert_eq!(
        launched[1].args,
        vec![b"Start".to_vec(), b"https://example.com/?a=1\"&\"b=^2".to_vec()]
    );
}

#[test]
fn local_files_stay_in_wsl_where_the_bridge_is_off() {
    let mut env = wsl_env();
    env.wsl_files = false;
    let target = file_target("/home/u/a.html");
    let options = BrowserOptions::new();
    let mut h = Host::new(env);
    let outcome = loop {
        match open_target(Browser::Default, &target, &options, &h, 0) {
            Step::Ask(request) => {
                assert!(matches!(request, Request::Probe { .. }), "{:?}", request);
                h.replies.push(no());
            }
            Step::Done(outcome, _) => break outcome,
        }
    };
    assert_eq!(outcome.unwrap_err().kind(), ErrorKind::NotFound);
}
