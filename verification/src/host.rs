//! The machine on which a browser is to be opened.
//!
//! Nothing here touches the machine. What is known of it is handed in as a
//! [`Host`]: its environment, and the replies it has given so far to the
//! requests made of it. A function that needs to know more than the replies
//! tell returns the next [`Request`]; the caller carries it out, adds the
//! [`Reply`] to the host and calls again.

use crate::error::ErrorKind;
use crate::text::texts;
use vstd::prelude::*;

verus! {

/// The families of platform that are told apart.
#[derive(Clone, Copy, Debug, PartialEq, Eq, Hash, Structural)]
pub enum Platform {
    Linux,
    /// FreeBSD, NetBSD, OpenBSD.
    Bsd,
    Haiku,
    MacOs,
    Windows,
    Android,
    Ios,
    /// A script runtime inside a browser.
    Wasm,
}

/// What the surroundings of the process say: the platform, the policy it was
/// built with, and the environment variables that are consulted. A variable
/// that is unset, or whose value is not Unicode, is `None` (or `false` where
/// only its presence counts).
#[derive(Clone, Debug)]
pub struct Environment {
    pub platform: Platform,
    /// Only `http` and `https` targets are accepted.
    pub hardened: bool,
    /// Local files may be handed over to Windows from inside WSL.
    pub wsl_files: bool,
    /// `BROWSER`
    pub browser: Option<Vec<u8>>,
    /// `PATH`
    pub path: Option<Vec<u8>>,
    /// `XDG_CURRENT_DESKTOP`
    pub xdg_current_desktop: Option<Vec<u8>>,
    /// `DESKTOP_SESSION`
    pub desktop_session: Option<Vec<u8>>,
    /// Whether `KDE_FULL_SESSION` is set.
    pub kde_full_session: bool,
    /// Whether `KDE_SESSION_VERSION` is set.
    pub kde_session_version: bool,
    /// `container`, the marker of a sandbox.
    pub container: Option<Vec<u8>>,
    /// `XDG_DATA_HOME`
    pub xdg_data_home: Option<Vec<u8>>,
    /// `XDG_DATA_DIRS`
    pub xdg_data_dirs: Option<Vec<u8>>,
    /// The home directory of the user.
    pub home_dir: Option<Vec<u8>>,
    /// `WSL_DISTRO_NAME`
    pub wsl_distro_name: Option<Vec<u8>>,
    /// The contents of the kernel's WSL interoperability marker, where it
    /// could be read.
    pub wsl_interop: Option<Vec<u8>>,
    /// Whether `TERMUX_VERSION` is set.
    pub termux_version: bool,
    /// The working directory, where it could be determined.
    pub current_dir: Option<Vec<u8>>,
}

/// The contents of a borrowed value that may be missing.
pub open spec fn value_of(v: Option<&Vec<u8>>) -> Option<Seq<u8>> {
    match v {
        Some(x) => Some(x@),
        None => None,
    }
}

/// The contents of a value that may be missing.
pub open spec fn value(v: Option<Vec<u8>>) -> Option<Seq<u8>> {
    match v {
        Some(x) => Some(x@),
        None => None,
    }
}

impl Environment {
    /// An environment of the given platform in which nothing is set.
    pub fn new(platform: Platform) -> (r: Environment)
        ensures
            r.platform == platform,
            !r.hardened,
            r.wsl_files,
            r.browser is None,
            r.path is None,
            r.xdg_current_desktop is None,
            r.desktop_session is None,
            !r.kde_full_session,
            !r.kde_session_version,
            r.container is None,
            r.xdg_data_home is None,
            r.xdg_data_dirs is None,
            r.home_dir is None,
            r.wsl_distro_name is None,
            r.wsl_interop is None,
            !r.termux_version,
            r.current_dir is None,
    {
        Environment {
            platform,
            hardened: false,
            wsl_files: true,
            browser: None,
            path: None,
            xdg_current_desktop: None,
            desktop_session: None,
            kde_full_session: false,
            kde_session_version: false,
            container: None,
            xdg_data_home: None,
            xdg_data_dirs: None,
            home_dir: None,
            wsl_distro_name: None,
            wsl_interop: None,
            termux_version: false,
            current_dir: None,
        }
    }
}

/// A resolved invocation: the program, its arguments, and the directory to
/// run it in where that matters.
#[derive(Clone, Debug, PartialEq, Eq)]
pub struct CandidateCommand {
    pub program: Vec<u8>,
    pub args: Vec<Vec<u8>>,
    pub dir: Option<Vec<u8>>,
}

/// The contents of a [`CandidateCommand`].
pub struct CommandView {
    pub program: Seq<u8>,
    pub args: Seq<Seq<u8>>,
    pub dir: Option<Seq<u8>>,
}

impl View for CandidateCommand {
    type V = CommandView;

    open spec fn view(&self) -> CommandView {
        CommandView { program: self.program@, args: texts(self.args@), dir: value(self.dir) }
    }
}

/// What is fed to a command whose output is wanted. The host holds the text
/// of each script.
#[derive(Clone, Copy, Debug, PartialEq, Eq, Hash, Structural)]
pub enum Script {
    /// Nothing: the command reads no input.
    Nothing,
    /// A PowerShell script that prints the command line which Windows has
    /// registered for the `http` protocol.
    DefaultBrowser,
}

/// Something the host is asked to do or to tell.
#[derive(Clone, Debug, PartialEq, Eq)]
pub enum Request {
    /// Is `path` a regular file with an execute permission bit set?
    Probe { path: Vec<u8> },
    /// Is there anything at `path`?
    Exists { path: Vec<u8> },
    /// Is `path` a regular file?
    IsFile { path: Vec<u8> },
    /// Is `path` a directory?
    IsDir { path: Vec<u8> },
    /// The contents of the file at `path`.
    Read { path: Vec<u8> },
    /// The canonical, absolute form of `path`.
    Canonicalize { path: Vec<u8> },
    /// Run `command` to its end, feeding it `script` on its standard input,
    /// and hand back what it wrote to its standard output.
    Capture { command: CandidateCommand, script: Script },
    /// The platform's registered handler for web pages: on Windows the
    /// command line registered for `http`, on macOS the URL of the
    /// application that opens `https`.
    DefaultHandler,
    /// Start `command`. With `wait` the host waits for it to end and reports
    /// how it ended; without, it lets the process go. With `quiet` the
    /// process gets no input and its output is discarded.
    Launch { command: CandidateCommand, wait: bool, quiet: bool },
    /// Have the application at the URL `app` open `url` (macOS).
    OpenWith { app: Vec<u8>, url: Vec<u8> },
    /// Have the platform open `url`, in the place that `hint` names where the
    /// platform has such places.
    OpenUrl { url: Vec<u8>, hint: Vec<u8> },
}

/// The contents of a [`Request`].
pub enum RequestView {
    Probe { path: Seq<u8> },
    Exists { path: Seq<u8> },
    IsFile { path: Seq<u8> },
    IsDir { path: Seq<u8> },
    Read { path: Seq<u8> },
    Canonicalize { path: Seq<u8> },
    Capture { command: CommandView, script: Script },
    DefaultHandler,
    Launch { command: CommandView, wait: bool, quiet: bool },
    OpenWith { app: Seq<u8>, url: Seq<u8> },
    OpenUrl { url: Seq<u8>, hint: Seq<u8> },
}

impl RequestView {
    /// Whether carrying out this request starts a browser.
    pub open spec fn starts_browser(self) -> bool {
        self is Launch || self is OpenWith || self is OpenUrl
    }
}

impl View for Request {
    type V = RequestView;

    open spec fn view(&self) -> RequestView {
        match *self {
            Request::Probe { path } => RequestView::Probe { path: path@ },
            Request::Exists { path } => RequestView::Exists { path: path@ },
            Request::IsFile { path } => RequestView::IsFile { path: path@ },
            Request::IsDir { path } => RequestView::IsDir { path: path@ },
            Request::Read { path } => RequestView::Read { path: path@ },
            Request::Canonicalize { path } => RequestView::Canonicalize { path: path@ },
            Request::Capture { command, script } => RequestView::Capture { command: command@, script },
            Request::DefaultHandler => RequestView::DefaultHandler,
            Request::Launch { command, wait, quiet } => RequestView::Launch {
                command: command@,
                wait,
                quiet,
            },
            Request::OpenWith { app, url } => RequestView::OpenWith { app: app@, url: url@ },
            Request::OpenUrl { url, hint } => RequestView::OpenUrl { url: url@, hint: hint@ },
        }
    }
}

/// What the host answers to a request.
#[derive(Clone, Debug, PartialEq, Eq)]
pub enum Reply {
    /// It was done, or the answer is yes; `output` holds what was asked for,
    /// where something was.
    Done { output: Vec<u8> },
    /// It could not be done, or the answer is no.
    Failed { kind: ErrorKind },
    /// It was done and ended with this status; 0 stands for success.
    Status { code: i32 },
}

impl Reply {
    /// Whether the reply reports success.
    pub open spec fn ok(&self) -> bool {
        match *self {
            Reply::Done { .. } => true,
            Reply::Failed { .. } => false,
            Reply::Status { code } => code == 0,
        }
    }

    /// The class of failure that the reply reports, if it reports one.
    pub open spec fn failure(&self) -> ErrorKind {
        match *self {
            Reply::Failed { kind } => kind,
            _ => ErrorKind::Other,
        }
    }

    /// What came with the reply, if anything did.
    pub open spec fn output(&self) -> Option<Seq<u8>> {
        match *self {
            Reply::Done { output } => Some(output@),
            _ => None,
        }
    }

    /// What came with the reply, if anything did.
    pub fn data(&self) -> (r: Option<&Vec<u8>>)
        ensures
            value_of(r) == self.output(),
    {
        match self {
            Reply::Done { output } => Some(output),
            _ => None,
        }
    }

    /// Whether the reply reports success.
    pub fn is_ok(&self) -> (r: bool)
        ensures
            r == self.ok(),
    {
        match self {
            Reply::Done { .. } => true,
            Reply::Failed { .. } => false,
            Reply::Status { code } => *code == 0,
        }
    }

    /// The class of failure that the reply reports.
    pub fn kind(&self) -> (r: ErrorKind)
        ensures
            r == self.failure(),
    {
        match self {
            Reply::Failed { kind } => *kind,
            _ => ErrorKind::Other,
        }
    }
}

/// What is known of the machine: its environment and the replies it has
/// given, in the order of the requests.
#[derive(Clone, Debug)]
pub struct Host {
    pub env: Environment,
    pub replies: Vec<Reply>,
}

impl Host {
    /// A host that has not been asked anything yet.
    pub fn new(env: Environment) -> (r: Host)
        ensures
            r.env == env,
            r.replies@.len() == 0,
    {
        Host { env, replies: Vec::new() }
    }

    /// The reply at position `at`, if the host has given that many.
    pub fn reply(&self, at: usize) -> (r: Option<&Reply>)
        ensures
            r == (if at < self.replies@.len() {
                Some(&self.replies@[at as int])
            } else {
                None
            }),
            self.replies@.len() <= usize::MAX,
    {
        if at < self.replies.len() {
            Some(&self.replies[at])
        } else {
            None
        }
    }
}

/// Where a computation stands that talks to the host.
#[derive(Debug)]
pub enum Step<T> {
    /// The replies do not reach far enough: this has to be asked next.
    Ask(Request),
    /// The computation has ended with this value, having used the replies
    /// before this position.
    Done(T, usize),
}

/// The mathematical form of a [`Step`].
pub enum Turn<V> {
    Ask(RequestView),
    Done(V, nat),
}

/// Values that have a mathematical form.
pub trait Model {
    type M;

    spec fn model(&self) -> Self::M;
}

impl Model for () {
    type M = ();

    open spec fn model(&self) -> () {
        ()
    }
}

impl Model for bool {
    type M = bool;

    open spec fn model(&self) -> bool {
        *self
    }
}

impl Model for crate::error::Error {
    type M = crate::error::Error;

    open spec fn model(&self) -> crate::error::Error {
        *self
    }
}

impl Model for Vec<u8> {
    type M = Seq<u8>;

    open spec fn model(&self) -> Seq<u8> {
        self@
    }
}

impl Model for Vec<Vec<u8>> {
    type M = Seq<Seq<u8>>;

    open spec fn model(&self) -> Seq<Seq<u8>> {
        texts(self@)
    }
}

impl Model for CandidateCommand {
    type M = CommandView;

    open spec fn model(&self) -> CommandView {
        self@
    }
}

impl<T: Model> Model for Option<T> {
    type M = Option<T::M>;

    open spec fn model(&self) -> Option<T::M> {
        match *self {
            Some(x) => Some(x.model()),
            None => None,
        }
    }
}

impl<T: Model, E: Model> Model for Result<T, E> {
    type M = Result<T::M, E::M>;

    open spec fn model(&self) -> Result<T::M, E::M> {
        match *self {
            Ok(x) => Ok(x.model()),
            Err(e) => Err(e.model()),
        }
    }
}

/// Whether a computation stands at a request that starts a browser.
pub open spec fn asks_to_start<V>(turn: Turn<V>) -> bool {
    match turn {
        Turn::Ask(request) => request.starts_browser(),
        Turn::Done(..) => false,
    }
}

impl<T: Model> View for Step<T> {
    type V = Turn<T::M>;

    open spec fn view(&self) -> Turn<T::M> {
        match *self {
            Step::Ask(request) => Turn::Ask(request@),
            Step::Done(value, used) => Turn::Done(value.model(), used as nat),
        }
    }
}

} // verus!
