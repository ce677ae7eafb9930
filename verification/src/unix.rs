//! Opening the default browser on Linux, the BSDs and Haiku.
//!
//! The strategies are tried in a fixed order, each only after the one before
//! it has failed:
//! 1. the commands named in the `BROWSER` environment variable;
//! 2. the `open` command, on Haiku;
//! 3. the browser that `xdg-settings` names, started by its desktop entry;
//! 4. the openers of the desktop environment, or the bridge out of a
//!    sandbox or of WSL;
//! 5. `x-www-browser`.

use crate::browser::Browser;
use crate::desktop_entry::entry_of;
use crate::desktop_entry::exec_arguments;
use crate::desktop_entry::fill_exec_arguments;
use crate::desktop_entry::parse_desktop_entry;
use crate::desktop_entry::DesktopEntryRecord;
use crate::desktop_entry::EntryView;
use crate::error::not_found;
use crate::error::other;
use crate::error::Error;
use crate::error::ErrorKind;
use crate::host::asks_to_start;
use crate::host::value;
use crate::host::CandidateCommand;
use crate::host::CommandView;
use crate::host::Environment;
use crate::host::Host;
use crate::host::Model;
use crate::host::Platform;
use crate::host::Reply;
use crate::host::Request;
use crate::host::RequestView;
use crate::host::Script;
use crate::host::Step;
use crate::host::Turn;
use crate::launch::candidates;
use crate::launch::for_matching_path;
use crate::launch::probing;
use crate::launch::run_command;
use crate::launch::running;
use crate::launch::try_browser;
use crate::launch::trying;
use crate::options::BrowserOptions;
use crate::target::Target;
use crate::template::command_line;
use crate::template::expand_template;
use crate::template::has_url_code;
use crate::text::contains;
use crate::text::contains_byte;
use crate::text::copy;
use crate::text::eq_ignore_ascii_case;
use crate::text::has_part;
use crate::text::is;
use crate::text::is_utf8;
use crate::text::join;
use crate::text::joined;
use crate::text::lit;
use crate::text::lowered;
use crate::text::no_texts;
use crate::text::pieces;
use crate::text::push_bytes;
use crate::text::push_text;
use crate::text::replace;
use crate::text::replaced;
use crate::text::rest_of;
use crate::text::split;
use crate::text::text;
use crate::text::texts;
use crate::text::to_ascii_lowercase;
use crate::text::trim;
use crate::text::trimmed;
use crate::text::words;
use crate::text::AMPERSAND;
use crate::text::CARET;
use crate::text::COLON;
use crate::text::DASH;
use crate::text::QUOTE;
use crate::text::SLASH;
use crate::token::for_each_token;
use crate::token::tokens;
use crate::wsl::absolute;
use crate::wsl::find_windows_browser;
use crate::wsl::windows_browser;
use vstd::prelude::*;
use vstd::utf8::valid_utf8;

verus! {

/// The desktop environments that are told apart.
#[derive(Clone, Copy, Debug, PartialEq, Eq, Hash, Structural)]
pub enum Desktop {
    Flatpak,
    Gnome,
    Kde,
    Mate,
    Xfce,
    Wsl,
    Unknown,
}

/// The value of a variable that names the desktop, in lower case, or
/// `unknown` where it is not set.
pub open spec fn desktop_name(v: Option<Vec<u8>>) -> Seq<u8> {
    match v {
        Some(x) => lowered(x@),
        None => lit("unknown"),
    }
}

/// Whether the process runs inside a Flatpak sandbox: the variable
/// `container` says `flatpak`, in any case of letters.
pub open spec fn flatpak(env: &Environment) -> bool {
    match env.container {
        Some(c) => lowered(c@) == lowered(lit("flatpak")),
        None => false,
    }
}

/// Whether the process runs inside WSL with the interoperability with
/// Windows tools enabled. Only Linux is looked at.
pub open spec fn wsl(env: &Environment) -> bool {
    env.platform == Platform::Linux && match env.wsl_interop {
        Some(s) => has_part(s@, lit("enabled")),
        None => false,
    }
}

/// The desktop environment that the environment speaks of. The sandbox
/// comes first; then GNOME and what derives from it, KDE, MATE, XFCE, and
/// WSL.
pub open spec fn desktop_of(env: &Environment) -> Desktop {
    let current = desktop_name(env.xdg_current_desktop);
    let session = desktop_name(env.desktop_session);
    if flatpak(env) {
        Desktop::Flatpak
    } else if has_part(current, lit("gnome")) || has_part(current, lit("cinnamon")) || has_part(
        session,
        lit("gnome"),
    ) {
        Desktop::Gnome
    } else if has_part(current, lit("kde")) || env.kde_full_session || env.kde_session_version {
        Desktop::Kde
    } else if has_part(current, lit("mate")) || has_part(session, lit("mate")) {
        Desktop::Mate
    } else if has_part(current, lit("xfce")) || has_part(session, lit("xfce")) {
        Desktop::Xfce
    } else if wsl(env) {
        Desktop::Wsl
    } else {
        Desktop::Unknown
    }
}

/// Check if we're running inside Flatpak.
pub fn is_flatpak(env: &Environment) -> (r: bool)
    ensures
        r == flatpak(env),
{
    match &env.container {
        Some(c) => {
            let name = text("flatpak");
            eq_ignore_ascii_case(c.as_slice(), name.as_slice())
        },
        None => false,
    }
}

/// Check if we are inside WSL on Windows, and interoperability with Windows
/// tools is enabled.
pub fn is_wsl(env: &Environment) -> (r: bool)
    ensures
        r == wsl(env),
{
    if env.platform != Platform::Linux {
        return false;
    }
    match &env.wsl_interop {
        Some(s) => {
            let word = text("enabled");
            contains(s.as_slice(), word.as_slice())
        },
        None => false,
    }
}

/// The value of a variable that names the desktop, in lower case.
fn desktop_variable(v: &Option<Vec<u8>>) -> (r: Vec<u8>)
    ensures
        r@ == desktop_name(*v),
{
    match v {
        Some(x) => to_ascii_lowercase(x.as_slice()),
        None => text("unknown"),
    }
}

/// Whether the string `word` stands in `s`.
fn mentions(s: &Vec<u8>, word: &str) -> (r: bool)
    ensures
        r == has_part(s@, lit(word)),
{
    let w = text(word);
    contains(s.as_slice(), w.as_slice())
}

/// Detect the desktop environment.
pub fn guess_desktop_env(env: &Environment) -> (r: Desktop)
    ensures
        r == desktop_of(env),
{
    let current = desktop_variable(&env.xdg_current_desktop);
    let session = desktop_variable(&env.desktop_session);
    if is_flatpak(env) {
        Desktop::Flatpak
    } else if mentions(&current, "gnome") || mentions(&current, "cinnamon") || mentions(
        &session,
        "gnome",
    ) {
        Desktop::Gnome
    } else if mentions(&current, "kde") || env.kde_full_session || env.kde_session_version {
        Desktop::Kde
    } else if mentions(&current, "mate") || mentions(&session, "mate") {
        Desktop::Mate
    } else if mentions(&current, "xfce") || mentions(&session, "xfce") {
        Desktop::Xfce
    } else if is_wsl(env) {
        Desktop::Wsl
    } else {
        Desktop::Unknown
    }
}

/// The directory for the data of the user: `XDG_DATA_HOME` where it is set
/// to an absolute path, else `.local/share` in the home directory.
pub open spec fn data_home(env: &Environment) -> Option<Seq<u8>> {
    if env.xdg_data_home is Some && absolute(env.xdg_data_home->0@) {
        Some(env.xdg_data_home->0@)
    } else {
        match env.home_dir {
            Some(home) => Some(joined(home@, lit(".local/share"))),
            None => None,
        }
    }
}

/// The directories for the data of the system: the entries of
/// `XDG_DATA_DIRS`, or `/usr/local/share` and `/usr/share`.
pub open spec fn data_dirs(env: &Environment) -> Seq<Seq<u8>> {
    match env.xdg_data_dirs {
        Some(dirs) => pieces(dirs@, COLON),
        None => seq![lit("/usr/local/share"), lit("/usr/share")],
    }
}

/// The directories in which a desktop entry is looked for, in order.
pub open spec fn xdg_dirs(env: &Environment) -> Seq<Seq<u8>> {
    match data_home(env) {
        Some(home) => seq![home] + data_dirs(env),
        None => data_dirs(env),
    }
}

/// Get the list of directories in which the desktop file needs to be
/// searched.
pub fn get_xdg_dirs(env: &Environment) -> (r: Vec<Vec<u8>>)
    ensures
        texts(r@) == xdg_dirs(env),
{
    let mut out = no_texts();
    let mut home_set = false;
    if let Some(h) = &env.xdg_data_home {
        if h.len() > 0 && h[0] == SLASH {
            push_bytes(&mut out, copy(h.as_slice()));
            home_set = true;
        }
    }
    if !home_set {
        if let Some(home) = &env.home_dir {
            let share = text(".local/share");
            push_bytes(&mut out, join(home.as_slice(), share.as_slice()));
        }
    }
    assert(texts(out@) == match data_home(env) {
        Some(home) => seq![home],
        None => Seq::<Seq<u8>>::empty(),
    });
    match &env.xdg_data_dirs {
        Some(dirs) => {
            let ds = split(dirs.as_slice(), COLON);
            let ghost before = texts(out@);
            let mut i: usize = 0;
            while i < ds.len()
                invariant
                    i <= ds@.len(),
                    texts(ds@) == pieces(dirs@, COLON),
                    texts(out@) == before + texts(ds@).take(i as int),
                decreases ds@.len() - i,
            {
                assert(texts(ds@).take(i + 1) == texts(ds@).take(i as int).push(ds@[i as int]@));
                push_bytes(&mut out, copy(ds[i].as_slice()));
                i += 1;
            }
            assert(texts(ds@).take(i as int) == texts(ds@));
        },
        None => {
            let ghost before = texts(out@);
            push_text(&mut out, "/usr/local/share");
            push_text(&mut out, "/usr/share");
            assert(texts(out@) == before + seq![lit("/usr/local/share"), lit("/usr/share")]);
        },
    }
    out
}

/// A command to try: its name and its arguments.
#[derive(Clone, Debug, PartialEq, Eq)]
pub struct Opener {
    pub name: Vec<u8>,
    pub args: Vec<Vec<u8>>,
}

/// The contents of an [`Opener`].
pub struct OpenerView {
    pub name: Seq<u8>,
    pub args: Seq<Seq<u8>>,
}

impl View for Opener {
    type V = OpenerView;

    open spec fn view(&self) -> OpenerView {
        OpenerView { name: self.name@, args: texts(self.args@) }
    }
}

/// The contents of a list of openers.
pub open spec fn opener_views(v: Seq<Opener>) -> Seq<OpenerView> {
    Seq::new(v.len(), |i: int| v[i]@)
}

/// The command `name` with `url` as its one argument.
pub open spec fn plain(name: &str, url: Seq<u8>) -> OpenerView {
    OpenerView { name: lit(name), args: seq![url] }
}

/// The command `name` with the arguments `verb` and `url`.
pub open spec fn with_verb(name: &str, verb: &str, url: Seq<u8>) -> OpenerView {
    OpenerView { name: lit(name), args: seq![lit(verb), url] }
}

/// The openers of a desktop environment, in the order in which they are
/// tried.
pub open spec fn openers(desktop: Desktop, url: Seq<u8>) -> Seq<OpenerView> {
    match desktop {
        Desktop::Kde => seq![
            plain("kde-open", url),
            plain("kde-open5", url),
            with_verb("kfmclient", "newTab", url),
        ],
        Desktop::Gnome => seq![
            with_verb("gio", "open", url),
            plain("gvfs-open", url),
            plain("gnome-open", url),
        ],
        Desktop::Mate => seq![
            with_verb("gio", "open", url),
            plain("gvfs-open", url),
            plain("mate-open", url),
        ],
        Desktop::Xfce => seq![
            plain("exo-open", url),
            with_verb("gio", "open", url),
            plain("gvfs-open", url),
        ],
        _ => seq![],
    }
}

/// `url` as `cmd.exe` wants it after `start`: each `^` and each `&`
/// escaped by a `^`.
pub open spec fn escaped_for_cmd(url: Seq<u8>) -> Seq<u8> {
    replaced(replaced(url, CARET, seq![CARET, CARET]), AMPERSAND, seq![CARET, AMPERSAND])
}

/// `url` as PowerShell wants it after `Start`: each `&` in double quotes.
pub open spec fn quoted_for_powershell(url: Seq<u8>) -> Seq<u8> {
    replaced(url, AMPERSAND, seq![QUOTE, AMPERSAND, QUOTE])
}

/// The ways out of WSL for a web page, in the order in which they are
/// tried: `cmd.exe /c start`, PowerShell's `Start`, and `wsl-open`.
pub open spec fn wsl_openers(url: Seq<u8>) -> Seq<OpenerView> {
    seq![
        OpenerView {
            name: lit("cmd.exe"),
            args: seq![lit("/c"), lit("start"), escaped_for_cmd(url)],
        },
        OpenerView { name: lit("powershell.exe"), args: seq![lit("Start"), quoted_for_powershell(url)] },
        plain("wsl-open", url),
    ]
}

/// The command `name` with `url` as its one argument.
fn plain_opener(name: &str, url: &[u8]) -> (r: Opener)
    ensures
        r@ == plain(name, url@),
{
    let mut args = no_texts();
    push_bytes(&mut args, copy(url));
    assert(texts(args@) == seq![url@]);
    Opener { name: text(name), args }
}

/// The command `name` with the arguments `verb` and `url`.
fn verb_opener(name: &str, verb: &str, url: &[u8]) -> (r: Opener)
    ensures
        r@ == with_verb(name, verb, url@),
{
    let mut args = no_texts();
    push_text(&mut args, verb);
    push_bytes(&mut args, copy(url));
    assert(texts(args@) == seq![lit(verb), url@]);
    Opener { name: text(name), args }
}

/// A list of three openers.
fn three(a: Opener, b: Opener, c: Opener) -> (r: Vec<Opener>)
    ensures
        opener_views(r@) == seq![a@, b@, c@],
{
    let mut v: Vec<Opener> = Vec::new();
    v.push(a);
    v.push(b);
    v.push(c);
    assert(opener_views(v@) == seq![a@, b@, c@]);
    v
}

/// The openers of a desktop environment.
pub fn desktop_openers(desktop: Desktop, url: &[u8]) -> (r: Vec<Opener>)
    ensures
        opener_views(r@) == openers(desktop, url@),
{
    match desktop {
        Desktop::Kde => three(
            plain_opener("kde-open", url),
            plain_opener("kde-open5", url),
            verb_opener("kfmclient", "newTab", url),
        ),
        Desktop::Gnome => three(
            verb_opener("gio", "open", url),
            plain_opener("gvfs-open", url),
            plain_opener("gnome-open", url),
        ),
        Desktop::Mate => three(
            verb_opener("gio", "open", url),
            plain_opener("gvfs-open", url),
            plain_opener("mate-open", url),
        ),
        Desktop::Xfce => three(
            plain_opener("exo-open", url),
            verb_opener("gio", "open", url),
            plain_opener("gvfs-open", url),
        ),
        _ => {
            let v: Vec<Opener> = Vec::new();
            assert(opener_views(v@) == Seq::<OpenerView>::empty());
            v
        },
    }
}

/// The ways out of WSL for a web page.
pub fn wsl_web_openers(url: &[u8]) -> (r: Vec<Opener>)
    ensures
        opener_views(r@) == wsl_openers(url@),
{
    let caret2: Vec<u8> = vec![CARET, CARET];
    let caret_amp: Vec<u8> = vec![CARET, AMPERSAND];
    let quoted: Vec<u8> = vec![QUOTE, AMPERSAND, QUOTE];
    assert(caret2@ == seq![CARET, CARET]);
    assert(caret_amp@ == seq![CARET, AMPERSAND]);
    assert(quoted@ == seq![QUOTE, AMPERSAND, QUOTE]);
    let step = replace(url, CARET, caret2.as_slice());
    let for_cmd = replace(step.as_slice(), AMPERSAND, caret_amp.as_slice());
    let for_ps = replace(url, AMPERSAND, quoted.as_slice());
    let mut cmd_args = no_texts();
    push_text(&mut cmd_args, "/c");
    push_text(&mut cmd_args, "start");
    push_bytes(&mut cmd_args, for_cmd);
    assert(texts(cmd_args@) == seq![lit("/c"), lit("start"), escaped_for_cmd(url@)]);
    let mut ps_args = no_texts();
    push_text(&mut ps_args, "Start");
    push_bytes(&mut ps_args, for_ps);
    assert(texts(ps_args@) == seq![lit("Start"), quoted_for_powershell(url@)]);
    three(
        Opener { name: text("cmd.exe"), args: cmd_args },
        Opener { name: text("powershell.exe"), args: ps_args },
        plain_opener("wsl-open", url),
    )
}

/// Trying commands one after the other until one is found and starts. The
/// failure of the last one is the failure of all.
pub open spec fn trying_each(
    list: Seq<OpenerView>,
    options: &BrowserOptions,
    env: &Environment,
    replies: Seq<Reply>,
    at: nat,
) -> Turn<Result<(), Error>>
    decreases list.len(),
{
    if list.len() == 0 {
        Turn::Done(Err(crate::launch::command_not_found()), at)
    } else {
        match trying(list[0].name, list[0].args, options, env, replies, at) {
            Turn::Ask(request) => Turn::Ask(request),
            Turn::Done(Ok(_), next) => Turn::Done(Ok(()), next),
            Turn::Done(Err(e), next) => if list.len() == 1 {
                Turn::Done(Err(e), next)
            } else {
                trying_each(list.skip(1), options, env, replies, next)
            },
        }
    }
}

/// Tries commands one after the other until one is found and starts.
pub fn try_each(list: &Vec<Opener>, options: &BrowserOptions, host: &Host, at: usize) -> (r: Step<
    Result<(), Error>,
>)
    ensures
        r@ == trying_each(opener_views(list@), options, &host.env, host.replies@, at as nat),
        options.dry_run ==> !asks_to_start(r@),
{
    let ghost all = opener_views(list@);
    if list.len() == 0 {
        return Step::Done(Err(Error::new(ErrorKind::NotFound, "command not found")), at);
    }
    let mut i: usize = 0;
    let mut pos: usize = at;
    assert(all.skip(0) == all);
    loop
        invariant
            i < list@.len(),
            all == opener_views(list@),
            trying_each(all, options, &host.env, host.replies@, at as nat) == trying_each(
                all.skip(i as int),
                options,
                &host.env,
                host.replies@,
                pos as nat,
            ),
        decreases list@.len() - i,
    {
        assert(all.skip(i as int)[0] == list@[i as int]@);
        assert(all.skip(i as int).skip(1) == all.skip(i + 1));
        assert(all.skip(i as int).len() == list@.len() - i);
        match try_browser(list[i].name.as_slice(), &list[i].args, options, host, pos) {
            Step::Ask(request) => {
                return Step::Ask(request);
            },
            Step::Done(Ok(_), next) => {
                return Step::Done(Ok(()), next);
            },
            Step::Done(Err(e), next) => {
                if i == list.len() - 1 {
                    return Step::Done(Err(e), next);
                }
                pos = next;
                i += 1;
            },
        }
    }
}

/// The failure of the `BROWSER` variable naming nothing that starts.
pub open spec fn no_browser_in_env() -> Error {
    not_found("No valid browser configured in BROWSER environment variable")
}

/// Trying the templates of the `BROWSER` variable from left to right. A
/// template without a word is passed over. The first command that is found
/// and starts ends the search.
pub open spec fn by_templates(
    templates: Seq<Seq<u8>>,
    url: Seq<u8>,
    options: &BrowserOptions,
    env: &Environment,
    replies: Seq<Reply>,
    at: nat,
) -> Turn<Result<(), Error>>
    decreases templates.len(),
{
    if templates.len() == 0 {
        Turn::Done(Err(no_browser_in_env()), at)
    } else if words(templates[0]).len() == 0 {
        by_templates(templates.skip(1), url, options, env, replies, at)
    } else {
        let line = command_line(templates[0], url);
        match trying(line[0], line.skip(1), options, env, replies, at) {
            Turn::Ask(request) => Turn::Ask(request),
            Turn::Done(Ok(_), next) => Turn::Done(Ok(()), next),
            Turn::Done(Err(_), next) => by_templates(
                templates.skip(1),
                url,
                options,
                env,
                replies,
                next,
            ),
        }
    }
}

/// The templates that the `BROWSER` variable holds.
pub open spec fn browser_templates(env: &Environment) -> Seq<Seq<u8>> {
    match env.browser {
        Some(b) => pieces(b@, COLON),
        None => pieces(seq![], COLON),
    }
}

/// The strategy of the `BROWSER` variable.
pub open spec fn by_browser_env(
    url: Seq<u8>,
    options: &BrowserOptions,
    env: &Environment,
    replies: Seq<Reply>,
    at: nat,
) -> Turn<Result<(), Error>> {
    by_templates(browser_templates(env), url, options, env, replies, at)
}

/// Tries the commands that the `BROWSER` environment variable names.
pub fn try_with_browser_env(url: &[u8], options: &BrowserOptions, host: &Host, at: usize) -> (r:
    Step<Result<(), Error>>)
    ensures
        r@ == by_browser_env(url@, options, &host.env, host.replies@, at as nat),
        options.dry_run ==> !asks_to_start(r@),
{
    let nothing: Vec<u8> = Vec::new();
    let templates = match &host.env.browser {
        Some(b) => split(b.as_slice(), COLON),
        None => split(nothing.as_slice(), COLON),
    };
    let ghost all = texts(templates@);
    assert(all == browser_templates(&host.env));
    let mut i: usize = 0;
    let mut pos: usize = at;
    assert(all.skip(0) == all);
    while i < templates.len()
        invariant
            i <= templates@.len(),
            all == texts(templates@),
            all == browser_templates(&host.env),
            by_templates(all, url@, options, &host.env, host.replies@, at as nat) == by_templates(
                all.skip(i as int),
                url@,
                options,
                &host.env,
                host.replies@,
                pos as nat,
            ),
        decreases templates@.len() - i,
    {
        assert(all.skip(i as int)[0] == templates@[i as int]@);
        assert(all.skip(i as int).skip(1) == all.skip(i + 1));
        let template = templates[i].as_slice();
        let line = expand_template(template, url);
        let named = has_url_code(template);
        if (named && line.len() > 0) || (!named && line.len() > 1) {
            assert(texts(line@)[0] == line@[0]@);
            let args = rest_of(&line);
            match try_browser(line[0].as_slice(), &args, options, host, pos) {
                Step::Ask(request) => {
                    return Step::Ask(request);
                },
                Step::Done(Ok(_), next) => {
                    return Step::Done(Ok(()), next);
                },
                Step::Done(Err(_), next) => {
                    pos = next;
                },
            }
        }
        i += 1;
    }
    Step::Done(
        Err(
            Error::new(
                ErrorKind::NotFound,
                "No valid browser configured in BROWSER environment variable",
            ),
        ),
        pos,
    )
}

/// The strategy of the `open` command, which only Haiku has in the sense
/// that is meant here.
pub open spec fn by_platform_open(
    url: Seq<u8>,
    options: &BrowserOptions,
    env: &Environment,
    replies: Seq<Reply>,
    at: nat,
) -> Turn<Result<(), Error>> {
    if env.platform == Platform::Haiku {
        trying(lit("open"), seq![url], options, env, replies, at)
    } else {
        Turn::Done(Err(not_found("Not on haiku")), at)
    }
}

/// Handle Haiku explicitly, as it uses an "open" command, similar to macos;
/// on other Unixes `open` stands for something else.
pub fn try_haiku(options: &BrowserOptions, url: &[u8], host: &Host, at: usize) -> (r: Step<
    Result<(), Error>,
>)
    ensures
        r@ == by_platform_open(url@, options, &host.env, host.replies@, at as nat),
        options.dry_run ==> !asks_to_start(r@),
{
    if host.env.platform == Platform::Haiku {
        let name = text("open");
        let mut args = no_texts();
        push_bytes(&mut args, copy(url));
        try_browser(name.as_slice(), &args, options, host, at)
    } else {
        Step::Done(Err(Error::new(ErrorKind::NotFound, "Not on haiku")), at)
    }
}

/// Starting the application that a desktop entry describes, with `url`.
///
/// A hidden entry counts as absent, whatever else it says. The `Exec` line
/// is split into tokens, with quotes; its first token is the program, which
/// is looked for like any command. The program runs in the foreground if
/// the entry asks for a terminal, else in the background.
pub open spec fn using_entry(
    entry: EntryView,
    url: Seq<u8>,
    options: &BrowserOptions,
    env: &Environment,
    replies: Seq<Reply>,
    at: nat,
) -> Turn<Result<(), Error>> {
    if entry.hidden {
        Turn::Done(Err(not_found("xdg config is hidden")), at)
    } else if entry.exec_template is None || tokens(entry.exec_template->0).len() == 0 {
        Turn::Done(Err(not_found("not a valid xdg config")), at)
    } else {
        let ts = tokens(entry.exec_template->0);
        match probing(candidates(ts[0], value(env.path)), replies, at) {
            Turn::Ask(request) => Turn::Ask(request),
            Turn::Done(Err(e), next) => Turn::Done(Err(e), next),
            Turn::Done(Ok(program), next) => running(
                CommandView { program, args: exec_arguments(ts, url), dir: None },
                !entry.requires_terminal,
                options,
                replies,
                next,
            ),
        }
    }
}

/// Starts the application that a desktop entry describes, with `url`.
pub fn open_using_desktop_entry(
    entry: &DesktopEntryRecord,
    options: &BrowserOptions,
    url: &[u8],
    host: &Host,
    at: usize,
) -> (r: Step<Result<(), Error>>)
    ensures
        r@ == using_entry(entry@, url@, options, &host.env, host.replies@, at as nat),
        options.dry_run ==> !asks_to_start(r@),
        entry.hidden ==> r@ == Turn::<Result<(), Error>>::Done(
            Err(not_found("xdg config is hidden")),
            at as nat,
        ),
{
    if entry.hidden {
        return Step::Done(Err(Error::new(ErrorKind::NotFound, "xdg config is hidden")), at);
    }
    let line = match &entry.exec_template {
        None => {
            return Step::Done(Err(Error::new(ErrorKind::NotFound, "not a valid xdg config")), at);
        },
        Some(line) => line,
    };
    let ts = for_each_token(line.as_slice());
    if ts.len() == 0 {
        return Step::Done(Err(Error::new(ErrorKind::NotFound, "not a valid xdg config")), at);
    }
    assert(texts(ts@)[0] == ts@[0]@);
    match for_matching_path(ts[0].as_slice(), host, at) {
        Step::Ask(request) => Step::Ask(request),
        Step::Done(Err(e), next) => Step::Done(Err(e), next),
        Step::Done(Ok(program), next) => {
            let args = fill_exec_arguments(&ts, url);
            run_command(
                CandidateCommand { program, args, dir: None },
                !entry.requires_terminal,
                options,
                host,
                next,
            )
        },
    }
}

/// Opening `url` by the desktop entry at `path`: the file is read, and the
/// application it describes is started.
pub open spec fn using_config(
    path: Seq<u8>,
    url: Seq<u8>,
    options: &BrowserOptions,
    env: &Environment,
    replies: Seq<Reply>,
    at: nat,
) -> Turn<Result<(), Error>> {
    if at >= replies.len() {
        Turn::Ask(RequestView::Read { path })
    } else {
        match replies[at as int].output() {
            None => Turn::Done(
                Err(
                    Error {
                        kind: replies[at as int].failure(),
                        message: "xdg config could not be read",
                    },
                ),
                at + 1,
            ),
            Some(contents) => using_entry(entry_of(contents), url, options, env, replies, at + 1),
        }
    }
}

/// Opens `url` using xdg configuration found in `config_path`.
pub fn open_using_xdg_config(
    config_path: &[u8],
    options: &BrowserOptions,
    url: &[u8],
    host: &Host,
    at: usize,
) -> (r: Step<Result<(), Error>>)
    ensures
        r@ == using_config(config_path@, url@, options, &host.env, host.replies@, at as nat),
        options.dry_run ==> !asks_to_start(r@),
{
    let reply = match host.reply(at) {
        None => {
            return Step::Ask(Request::Read { path: copy(config_path) });
        },
        Some(reply) => reply,
    };
    match reply.data() {
        None => Step::Done(Err(Error::new(reply.kind(), "xdg config could not be read")), at + 1),
        Some(contents) => {
            let entry = parse_desktop_entry(contents.as_slice());
            open_using_desktop_entry(&entry, options, url, host, at + 1)
        },
    }
}

/// The arguments that make `xdg-settings` print the default browser.
pub open spec fn xdg_settings_args() -> Seq<Seq<u8>> {
    seq![lit("get"), lit("default-web-browser")]
}

/// The failure of not learning the default browser.
pub open spec fn no_xdg_browser() -> Error {
    not_found("unable to determine xdg browser")
}

/// What the output of `xdg-settings` says: the name of a desktop entry,
/// without the whitespace around it. Output that is not UTF-8, or holds
/// nothing but whitespace, names none.
pub open spec fn xdg_browser_name(output: Seq<u8>) -> Result<Seq<u8>, Error> {
    if !valid_utf8(output) {
        Err(not_found("invalid default browser name"))
    } else if trimmed(output).len() == 0 {
        Err(not_found("no default xdg browser"))
    } else {
        Ok(trimmed(output))
    }
}

/// Reads the output of `xdg-settings`.
pub fn read_xdg_browser_name(output: &[u8]) -> (r: Result<Vec<u8>, Error>)
    ensures
        r.model() == xdg_browser_name(output@),
{
    if !is_utf8(output) {
        return Err(Error::new(ErrorKind::NotFound, "invalid default browser name"));
    }
    let name = trim(output);
    if name.len() == 0 {
        Err(Error::new(ErrorKind::NotFound, "no default xdg browser"))
    } else {
        Ok(name)
    }
}

/// Asking `xdg-settings` for the default browser.
pub open spec fn asking_xdg_settings(env: &Environment, replies: Seq<Reply>, at: nat) -> Turn<
    Result<Seq<u8>, Error>,
> {
    match probing(candidates(lit("xdg-settings"), value(env.path)), replies, at) {
        Turn::Ask(request) => Turn::Ask(request),
        Turn::Done(Err(_), next) => Turn::Done(Err(no_xdg_browser()), next),
        Turn::Done(Ok(program), next) => {
            if next >= replies.len() {
                Turn::Ask(
                    RequestView::Capture {
                        command: CommandView { program, args: xdg_settings_args(), dir: None },
                        script: Script::Nothing,
                    },
                )
            } else {
                match replies[next as int].output() {
                    None => Turn::Done(Err(no_xdg_browser()), next + 1),
                    Some(output) => Turn::Done(xdg_browser_name(output), next + 1),
                }
            }
        },
    }
}

/// Asks `xdg-settings` for the default browser.
pub fn ask_xdg_settings(host: &Host, at: usize) -> (r: Step<Result<Vec<u8>, Error>>)
    ensures
        r@ == asking_xdg_settings(&host.env, host.replies@, at as nat),
        !asks_to_start(r@),
{
    let name = text("xdg-settings");
    let (program, next) = match for_matching_path(name.as_slice(), host, at) {
        Step::Ask(request) => {
            return Step::Ask(request);
        },
        Step::Done(Err(_), next) => {
            return Step::Done(
                Err(Error::new(ErrorKind::NotFound, "unable to determine xdg browser")),
                next,
            );
        },
        Step::Done(Ok(program), next) => (program, next),
    };
    let reply = match host.reply(next) {
        None => {
            let mut args = no_texts();
            push_text(&mut args, "get");
            push_text(&mut args, "default-web-browser");
            assert(texts(args@) == xdg_settings_args());
            return Step::Ask(
                Request::Capture {
                    command: CandidateCommand { program, args, dir: None },
                    script: Script::Nothing,
                },
            );
        },
        Some(reply) => reply,
    };
    match reply.data() {
        None => Step::Done(
            Err(Error::new(ErrorKind::NotFound, "unable to determine xdg browser")),
            next + 1,
        ),
        Some(output) => Step::Done(read_xdg_browser_name(output.as_slice()), next + 1),
    }
}

/// The path of the desktop entry `name` under the data directory `dir`.
pub open spec fn entry_path(dir: Seq<u8>, name: Seq<u8>) -> Seq<u8> {
    joined(joined(dir, lit("applications")), name)
}

/// The path of a desktop entry under a data directory.
pub fn desktop_entry_path(dir: &[u8], name: &[u8]) -> (r: Vec<u8>)
    ensures
        r@ == entry_path(dir@, name@),
{
    let sub = text("applications");
    let apps = join(dir, sub.as_slice());
    join(apps.as_slice(), name)
}

/// Looking for the desktop entry `name` in one data directory: under its
/// name, and if there is nothing there and the name holds a `-`, with each
/// `-` read as a `/`.
pub open spec fn locating(dir: Seq<u8>, name: Seq<u8>, replies: Seq<Reply>, at: nat) -> Turn<
    Option<Seq<u8>>,
> {
    let first = entry_path(dir, name);
    if at >= replies.len() {
        Turn::Ask(RequestView::Exists { path: first })
    } else if replies[at as int].ok() {
        Turn::Done(Some(first), at + 1)
    } else if !name.contains(DASH) {
        Turn::Done(None, at + 1)
    } else {
        let second = entry_path(dir, replaced(name, DASH, seq![SLASH]));
        if at + 1 >= replies.len() {
            Turn::Ask(RequestView::Exists { path: second })
        } else if replies[at as int + 1].ok() {
            Turn::Done(Some(second), at + 2)
        } else {
            Turn::Done(None, at + 2)
        }
    }
}

/// Looks for the desktop entry `name` in one data directory.
pub fn locate_entry(dir: &[u8], name: &[u8], host: &Host, at: usize) -> (r: Step<Option<Vec<u8>>>)
    ensures
        r@ == locating(dir@, name@, host.replies@, at as nat),
        !asks_to_start(r@),
{
    let first = desktop_entry_path(dir, name);
    let reply = match host.reply(at) {
        None => {
            return Step::Ask(Request::Exists { path: first });
        },
        Some(reply) => reply,
    };
    if reply.is_ok() {
        return Step::Done(Some(first), at + 1);
    }
    if !contains_byte(name, DASH) {
        return Step::Done(None, at + 1);
    }
    let slash: Vec<u8> = vec![SLASH];
    assert(slash@ == seq![SLASH]);
    let child = replace(name, DASH, slash.as_slice());
    let second = desktop_entry_path(dir, child.as_slice());
    let reply = match host.reply(at + 1) {
        None => {
            return Step::Ask(Request::Exists { path: second });
        },
        Some(reply) => reply,
    };
    if reply.is_ok() {
        Step::Done(Some(second), at + 2)
    } else {
        Step::Done(None, at + 2)
    }
}

/// Going through the data directories for the desktop entry `name`.
///
/// An entry that opens the URL ends the search. One that fails for another
/// reason than that something was not found ends it too, with that
/// failure. Else the next directory is looked at; in the end the failure
/// says whether an entry was ever found.
pub open spec fn searching(
    dirs: Seq<Seq<u8>>,
    name: Seq<u8>,
    found: bool,
    url: Seq<u8>,
    options: &BrowserOptions,
    env: &Environment,
    replies: Seq<Reply>,
    at: nat,
) -> Turn<Result<(), Error>>
    decreases dirs.len(),
{
    if dirs.len() == 0 {
        Turn::Done(
            Err(
                if found {
                    other("xdg-open failed")
                } else {
                    not_found("no valid xdg config found")
                },
            ),
            at,
        )
    } else {
        match locating(dirs[0], name, replies, at) {
            Turn::Ask(request) => Turn::Ask(request),
            Turn::Done(None, next) => searching(
                dirs.skip(1),
                name,
                found,
                url,
                options,
                env,
                replies,
                next,
            ),
            Turn::Done(Some(path), next) => match using_config(
                path,
                url,
                options,
                env,
                replies,
                next,
            ) {
                Turn::Ask(request) => Turn::Ask(request),
                Turn::Done(Ok(_), last) => Turn::Done(Ok(()), last),
                Turn::Done(Err(e), last) => if e.kind != ErrorKind::NotFound {
                    Turn::Done(Err(e), last)
                } else {
                    searching(dirs.skip(1), name, true, url, options, env, replies, last)
                },
            },
        }
    }
}

/// The strategy of the XDG settings.
pub open spec fn by_xdg(
    url: Seq<u8>,
    options: &BrowserOptions,
    env: &Environment,
    replies: Seq<Reply>,
    at: nat,
) -> Turn<Result<(), Error>> {
    match asking_xdg_settings(env, replies, at) {
        Turn::Ask(request) => Turn::Ask(request),
        Turn::Done(Err(e), next) => Turn::Done(Err(e), next),
        Turn::Done(Ok(name), next) => searching(
            xdg_dirs(env),
            name,
            false,
            url,
            options,
            env,
            replies,
            next,
        ),
    }
}

/// Dig into XDG settings (if xdg is available) to force it to open the
/// browser, instead of the default application.
pub fn try_xdg(options: &BrowserOptions, url: &[u8], host: &Host, at: usize) -> (r: Step<
    Result<(), Error>,
>)
    ensures
        r@ == by_xdg(url@, options, &host.env, host.replies@, at as nat),
        options.dry_run ==> !asks_to_start(r@),
{
    let (name, start) = match ask_xdg_settings(host, at) {
        Step::Ask(request) => {
            return Step::Ask(request);
        },
        Step::Done(Err(e), next) => {
            return Step::Done(Err(e), next);
        },
        Step::Done(Ok(name), next) => (name, next),
    };
    let dirs = get_xdg_dirs(&host.env);
    let ghost all = texts(dirs@);
    let mut found = false;
    let mut i: usize = 0;
    let mut pos: usize = start;
    assert(all.skip(0) == all);
    while i < dirs.len()
        invariant
            i <= dirs@.len(),
            all == texts(dirs@),
            all == xdg_dirs(&host.env),
            asking_xdg_settings(&host.env, host.replies@, at as nat) == Turn::<
                Result<Seq<u8>, Error>,
            >::Done(Ok(name@), start as nat),
            searching(all, name@, false, url@, options, &host.env, host.replies@, start as nat)
                == searching(
                all.skip(i as int),
                name@,
                found,
                url@,
                options,
                &host.env,
                host.replies@,
                pos as nat,
            ),
        decreases dirs@.len() - i,
    {
        assert(all.skip(i as int)[0] == dirs@[i as int]@);
        assert(all.skip(i as int).skip(1) == all.skip(i + 1));
        match locate_entry(dirs[i].as_slice(), name.as_slice(), host, pos) {
            Step::Ask(request) => {
                return Step::Ask(request);
            },
            Step::Done(None, next) => {
                pos = next;
            },
            Step::Done(Some(path), next) => {
                match open_using_xdg_config(path.as_slice(), options, url, host, next) {
                    Step::Ask(request) => {
                        return Step::Ask(request);
                    },
                    Step::Done(Ok(_), last) => {
                        return Step::Done(Ok(()), last);
                    },
                    Step::Done(Err(e), last) => {
                        if e.kind() != ErrorKind::NotFound {
                            return Step::Done(Err(e), last);
                        }
                        found = true;
                        pos = last;
                    },
                }
            },
        }
        i += 1;
    }
    if found {
        Step::Done(Err(Error::new(ErrorKind::Other, "xdg-open failed")), pos)
    } else {
        Step::Done(Err(Error::new(ErrorKind::NotFound, "no valid xdg config found")), pos)
    }
}

/// Opening from inside a Flatpak sandbox: `xdg-open`, and only for web
/// pages.
pub open spec fn by_flatpak(
    target: &Target,
    options: &BrowserOptions,
    env: &Environment,
    replies: Seq<Reply>,
    at: nat,
) -> Turn<Result<(), Error>> {
    if target.web() {
        trying(lit("xdg-open"), seq![target.url@], options, env, replies, at)
    } else {
        Turn::Done(Err(not_found("only http urls supported")), at)
    }
}

/// Open browser in Flatpak environments.
pub fn try_flatpak(options: &BrowserOptions, target: &Target, host: &Host, at: usize) -> (r: Step<
    Result<(), Error>,
>)
    ensures
        r@ == by_flatpak(target, options, &host.env, host.replies@, at as nat),
        options.dry_run ==> !asks_to_start(r@),
{
    if target.is_http() {
        let name = text("xdg-open");
        let mut args = no_texts();
        push_bytes(&mut args, copy(target.url.as_slice()));
        try_browser(name.as_slice(), &args, options, host, at)
    } else {
        Step::Done(Err(Error::new(ErrorKind::NotFound, "only http urls supported")), at)
    }
}

/// Whether a local file may be handed over to Windows.
pub open spec fn hands_files_to_windows(env: &Environment) -> bool {
    env.platform == Platform::Linux && !env.hardened && env.wsl_files
}

/// Opening from inside WSL: a web page by one of the ways out, a local file
/// by the browser of Windows, started in the background.
pub open spec fn by_wsl(
    target: &Target,
    options: &BrowserOptions,
    env: &Environment,
    replies: Seq<Reply>,
    at: nat,
) -> Turn<Result<(), Error>> {
    if target.web() {
        trying_each(wsl_openers(target.url@), options, env, replies, at)
    } else if target.scheme@ == lit("file") && hands_files_to_windows(env) {
        match windows_browser(target, env, replies, at) {
            Turn::Ask(request) => Turn::Ask(request),
            Turn::Done(Err(e), next) => Turn::Done(Err(e), next),
            Turn::Done(Ok(command), next) => running(command, true, options, replies, next),
        }
    } else {
        Turn::Done(Err(not_found("invalid browser")), at)
    }
}

/// Open browser in WSL environments.
pub fn try_wsl(options: &BrowserOptions, target: &Target, host: &Host, at: usize) -> (r: Step<
    Result<(), Error>,
>)
    ensures
        r@ == by_wsl(target, options, &host.env, host.replies@, at as nat),
        options.dry_run ==> !asks_to_start(r@),
{
    if target.is_http() {
        let list = wsl_web_openers(target.url.as_slice());
        try_each(&list, options, host, at)
    } else if is(target.scheme.as_slice(), "file") && host.env.platform == Platform::Linux
        && !host.env.hardened && host.env.wsl_files {
        match find_windows_browser(target, host, at) {
            Step::Ask(request) => Step::Ask(request),
            Step::Done(Err(e), next) => Step::Done(Err(e), next),
            Step::Done(Ok(command), next) => run_command(command, true, options, host, next),
        }
    } else {
        Step::Done(Err(Error::new(ErrorKind::NotFound, "invalid browser")), at)
    }
}

/// The strategy of the desktop environment.
pub open spec fn by_desktop(
    target: &Target,
    options: &BrowserOptions,
    env: &Environment,
    replies: Seq<Reply>,
    at: nat,
) -> Turn<Result<(), Error>> {
    match desktop_of(env) {
        Desktop::Wsl => by_wsl(target, options, env, replies, at),
        Desktop::Flatpak => by_flatpak(target, options, env, replies, at),
        Desktop::Unknown => Turn::Done(Err(not_found("unknown desktop")), at),
        desktop => trying_each(openers(desktop, target.url@), options, env, replies, at),
    }
}

/// Tries what the desktop environment offers.
pub fn try_desktop(options: &BrowserOptions, target: &Target, host: &Host, at: usize) -> (r: Step<
    Result<(), Error>,
>)
    ensures
        r@ == by_desktop(target, options, &host.env, host.replies@, at as nat),
        options.dry_run ==> !asks_to_start(r@),
{
    let desktop = guess_desktop_env(&host.env);
    match desktop {
        Desktop::Wsl => try_wsl(options, target, host, at),
        Desktop::Flatpak => try_flatpak(options, target, host, at),
        Desktop::Unknown => Step::Done(Err(Error::new(ErrorKind::NotFound, "unknown desktop")), at),
        _ => {
            let list = desktop_openers(desktop, target.url.as_slice());
            try_each(&list, options, host, at)
        },
    }
}

/// One way of finding and starting a browser.
#[derive(Clone, Copy, Debug, PartialEq, Eq, Hash, Structural)]
pub enum Strategy {
    /// The commands named in the `BROWSER` environment variable.
    BrowserEnv,
    /// The `open` command of the platform.
    PlatformOpen,
    /// The browser named by the XDG settings.
    Xdg,
    /// What the desktop environment offers.
    Desktop,
    /// `x-www-browser`.
    Generic,
}

/// What a strategy comes to.
pub open spec fn attempt(
    strategy: Strategy,
    target: &Target,
    options: &BrowserOptions,
    env: &Environment,
    replies: Seq<Reply>,
    at: nat,
) -> Turn<Result<(), Error>> {
    match strategy {
        Strategy::BrowserEnv => by_browser_env(target.url@, options, env, replies, at),
        Strategy::PlatformOpen => by_platform_open(target.url@, options, env, replies, at),
        Strategy::Xdg => by_xdg(target.url@, options, env, replies, at),
        Strategy::Desktop => by_desktop(target, options, env, replies, at),
        Strategy::Generic => trying(
            lit("x-www-browser"),
            seq![target.url@],
            options,
            env,
            replies,
            at,
        ),
    }
}

/// Runs one strategy.
pub fn try_strategy(
    strategy: Strategy,
    target: &Target,
    options: &BrowserOptions,
    host: &Host,
    at: usize,
) -> (r: Step<Result<(), Error>>)
    ensures
        r@ == attempt(strategy, target, options, &host.env, host.replies@, at as nat),
        options.dry_run ==> !asks_to_start(r@),
{
    let url = target.url.as_slice();
    match strategy {
        Strategy::BrowserEnv => try_with_browser_env(url, options, host, at),
        Strategy::PlatformOpen => try_haiku(options, url, host, at),
        Strategy::Xdg => try_xdg(options, url, host, at),
        Strategy::Desktop => try_desktop(options, target, host, at),
        Strategy::Generic => {
            let name = text("x-www-browser");
            let mut args = no_texts();
            push_bytes(&mut args, copy(url));
            try_browser(name.as_slice(), &args, options, host, at)
        },
    }
}

/// The failure of every strategy.
pub open spec fn no_browser() -> Error {
    not_found("No valid browsers detected. You can specify one in BROWSER environment variable")
}

/// Running strategies in order. The first that succeeds ends the run, at
/// the reply at which it succeeded; a strategy is started only where all
/// before it have failed, and from the reply at which the one before it
/// gave up. Where all fail, the failure is the same whatever theirs were.
pub open spec fn chain(
    strategies: Seq<Strategy>,
    target: &Target,
    options: &BrowserOptions,
    env: &Environment,
    replies: Seq<Reply>,
    at: nat,
) -> Turn<Result<(), Error>>
    decreases strategies.len(),
{
    if strategies.len() == 0 {
        Turn::Done(Err(no_browser()), at)
    } else {
        match attempt(strategies[0], target, options, env, replies, at) {
            Turn::Ask(request) => Turn::Ask(request),
            Turn::Done(Ok(_), next) => Turn::Done(Ok(()), next),
            Turn::Done(Err(_), next) => chain(strategies.skip(1), target, options, env, replies, next),
        }
    }
}

/// The strategies for the default browser, in their order.
pub open spec fn default_strategies() -> Seq<Strategy> {
    seq![
        Strategy::BrowserEnv,
        Strategy::PlatformOpen,
        Strategy::Xdg,
        Strategy::Desktop,
        Strategy::Generic,
    ]
}

/// Once a strategy has succeeded no further strategy is attempted: whatever
/// strategies follow it, the run ends with its success and has used the
/// replies that it used, and no more.
pub proof fn lemma_first_success_ends_chain(
    first: Strategy,
    rest: Seq<Strategy>,
    target: &Target,
    options: &BrowserOptions,
    env: &Environment,
    replies: Seq<Reply>,
    at: nat,
)
    ensures
        attempt(first, target, options, env, replies, at) matches Turn::Done(Ok(_), next) ==> chain(
            seq![first] + rest,
            target,
            options,
            env,
            replies,
            at,
        ) == Turn::<Result<(), Error>>::Done(Ok(()), next),
{
}

/// A strategy that fails hands over to the strategies after it, at the
/// reply at which it gave up; and while it waits for a reply, so does the
/// run.
pub proof fn lemma_failure_passes_on(
    first: Strategy,
    rest: Seq<Strategy>,
    target: &Target,
    options: &BrowserOptions,
    env: &Environment,
    replies: Seq<Reply>,
    at: nat,
)
    ensures
        attempt(first, target, options, env, replies, at) matches Turn::Done(Err(_), next) ==> chain(
            seq![first] + rest,
            target,
            options,
            env,
            replies,
            at,
        ) == chain(rest, target, options, env, replies, next),
        attempt(first, target, options, env, replies, at) matches Turn::Ask(request) ==> chain(
            seq![first] + rest,
            target,
            options,
            env,
            replies,
            at,
        ) == Turn::<Result<(), Error>>::Ask(request),
{
    assert((seq![first] + rest).skip(1) == rest);
}

/// Runs strategies in order until one succeeds.
pub fn run_chain(
    strategies: &Vec<Strategy>,
    target: &Target,
    options: &BrowserOptions,
    host: &Host,
    at: usize,
) -> (r: Step<Result<(), Error>>)
    ensures
        r@ == chain(strategies@, target, options, &host.env, host.replies@, at as nat),
        options.dry_run ==> !asks_to_start(r@),
{
    let mut i: usize = 0;
    let mut pos: usize = at;
    assert(strategies@.skip(0) == strategies@);
    while i < strategies.len()
        invariant
            i <= strategies@.len(),
            chain(strategies@, target, options, &host.env, host.replies@, at as nat) == chain(
                strategies@.skip(i as int),
                target,
                options,
                &host.env,
                host.replies@,
                pos as nat,
            ),
        decreases strategies@.len() - i,
    {
        assert(strategies@.skip(i as int).skip(1) == strategies@.skip(i + 1));
        match try_strategy(strategies[i], target, options, host, pos) {
            Step::Ask(request) => {
                return Step::Ask(request);
            },
            Step::Done(Ok(_), next) => {
                return Step::Done(Ok(()), next);
            },
            Step::Done(Err(_), next) => {
                pos = next;
            },
        }
        i += 1;
    }
    Step::Done(
        Err(
            Error::new(
                ErrorKind::NotFound,
                "No valid browsers detected. You can specify one in BROWSER environment variable",
            ),
        ),
        pos,
    )
}

/// Opening the default browser.
pub open spec fn by_default(
    target: &Target,
    options: &BrowserOptions,
    env: &Environment,
    replies: Seq<Reply>,
    at: nat,
) -> Turn<Result<(), Error>> {
    chain(default_strategies(), target, options, env, replies, at)
}

/// Open the default browser.
pub fn open_browser_default(target: &Target, options: &BrowserOptions, host: &Host, at: usize) -> (r:
    Step<Result<(), Error>>)
    ensures
        r@ == by_default(target, options, &host.env, host.replies@, at as nat),
        options.dry_run ==> !asks_to_start(r@),
{
    let strategies: Vec<Strategy> = vec![
        Strategy::BrowserEnv,
        Strategy::PlatformOpen,
        Strategy::Xdg,
        Strategy::Desktop,
        Strategy::Generic,
    ];
    assert(strategies@ == default_strategies());
    run_chain(&strategies, target, options, host, at)
}

/// Opening a browser on Linux, the BSDs and Haiku: only the default browser
/// can be asked for.
pub open spec fn opening(
    browser: Browser,
    target: &Target,
    options: &BrowserOptions,
    env: &Environment,
    replies: Seq<Reply>,
    at: nat,
) -> Turn<Result<(), Error>> {
    if browser == Browser::Default {
        by_default(target, options, env, replies, at)
    } else {
        Turn::Done(Err(not_found("only default browser supported")), at)
    }
}

/// Deal with opening of browsers on Linux and *BSD - currently supports
/// only the default browser.
pub fn open_browser_internal(
    browser: Browser,
    target: &Target,
    options: &BrowserOptions,
    host: &Host,
    at: usize,
) -> (r: Step<Result<(), Error>>)
    ensures
        r@ == opening(browser, target, options, &host.env, host.replies@, at as nat),
        options.dry_run ==> !asks_to_start(r@),
{
    match browser {
        Browser::Default => open_browser_default(target, options, host, at),
        _ => Step::Done(Err(Error::new(ErrorKind::NotFound, "only default browser supported")), at),
    }
}

} // verus!
