//! Opening a browser on macOS.
//!
//! A browser is an application bundle, named by its `file` URL. The host is
//! asked which bundle opens web pages by default, whether a bundle is there,
//! and to have a bundle open the target; what its launch service answers is
//! read here.

use crate::browser::Browser;
use crate::error::not_found;
use crate::error::Error;
use crate::error::ErrorKind;
use crate::host::asks_to_start;
use crate::host::Host;
use crate::host::Model;
use crate::host::Reply;
use crate::host::Request;
use crate::host::RequestView;
use crate::host::Step;
use crate::host::Turn;
use crate::options::BrowserOptions;
use crate::target::Target;
use crate::text::copy;
use crate::text::lit;
use crate::text::text;
use vstd::prelude::*;

verus! {

/// What the launch service reports when it does not start an application.
#[derive(Clone, Copy, Debug, PartialEq, Eq, Structural)]
pub enum LSError {
    /// A status that is not told apart.
    Unknown(i32),
    ApplicationNotFound,
    NoLaunchPermission,
}

impl LSError {
    /// The meaning of a status of the launch service: -43 (file not found)
    /// and -10814 say that the application is not there, -10826 that it may
    /// not be launched.
    pub open spec fn of(status: i32) -> LSError {
        if status == -43 || status == -10814 {
            LSError::ApplicationNotFound
        } else if status == -10826 {
            LSError::NoLaunchPermission
        } else {
            LSError::Unknown(status)
        }
    }

    /// The class of failure that the report belongs to.
    pub open spec fn class(self) -> ErrorKind {
        match self {
            LSError::Unknown(_) => ErrorKind::Other,
            LSError::ApplicationNotFound => ErrorKind::NotFound,
            LSError::NoLaunchPermission => ErrorKind::PermissionDenied,
        }
    }

    /// The description of the report.
    pub open spec fn text(self) -> &'static str {
        match self {
            LSError::Unknown(_) => "ls_error: unknown code",
            LSError::ApplicationNotFound => "ls_error: application not found",
            LSError::NoLaunchPermission => "ls_error: no launch permission",
        }
    }

    /// The failure that the report amounts to.
    pub open spec fn failure(self) -> Error {
        Error { kind: self.class(), message: self.text() }
    }

    /// Reads a status of the launch service.
    pub fn from(status: i32) -> (r: LSError)
        ensures
            r == LSError::of(status),
    {
        if status == -43 || status == -10814 {
            LSError::ApplicationNotFound
        } else if status == -10826 {
            LSError::NoLaunchPermission
        } else {
            LSError::Unknown(status)
        }
    }

    /// The failure that the report amounts to.
    pub fn into_error(self) -> (r: Error)
        ensures
            r == self.failure(),
    {
        match self {
            LSError::Unknown(_) => Error::new(ErrorKind::Other, "ls_error: unknown code"),
            LSError::ApplicationNotFound => Error::new(
                ErrorKind::NotFound,
                "ls_error: application not found",
            ),
            LSError::NoLaunchPermission => Error::new(
                ErrorKind::PermissionDenied,
                "ls_error: no launch permission",
            ),
        }
    }
}

/// The bundle that is taken for the default browser where the host names
/// none.
pub open spec fn fallback_bundle() -> Seq<u8> {
    lit("file:///Applications/Safari.app/")
}

/// The bundle of a browser that is asked for by name: Firefox, Chrome,
/// Opera and Safari have one.
pub open spec fn bundle_of(browser: Browser) -> Option<Seq<u8>> {
    match browser {
        Browser::Firefox => Some(lit("file:///Applications/Firefox.app/")),
        Browser::Chrome => Some(lit("file:///Applications/Google Chrome.app/")),
        Browser::Opera => Some(lit("file:///Applications/Opera.app/")),
        Browser::Safari => Some(lit("file:///Applications/Safari.app/")),
        _ => None,
    }
}

/// The bundle of a browser that is asked for by name.
pub fn named_bundle(browser: Browser) -> (r: Option<Vec<u8>>)
    ensures
        crate::host::value(r) == bundle_of(browser),
{
    match browser {
        Browser::Firefox => Some(text("file:///Applications/Firefox.app/")),
        Browser::Chrome => Some(text("file:///Applications/Google Chrome.app/")),
        Browser::Opera => Some(text("file:///Applications/Opera.app/")),
        Browser::Safari => Some(text("file:///Applications/Safari.app/")),
        _ => None,
    }
}

/// What a reply to an `OpenWith` request means.
pub open spec fn open_result(reply: Reply) -> Result<(), Error> {
    match reply {
        Reply::Done { .. } => Ok(()),
        Reply::Status { code } => if code == 0 {
            Ok(())
        } else {
            Err(LSError::of(code).failure())
        },
        Reply::Failed { kind } => Err(Error { kind, message: "failed to create CFURL" }),
    }
}

/// What a reply to an `OpenWith` request means.
pub fn read_open_reply(reply: &Reply) -> (r: Result<(), Error>)
    ensures
        r == open_result(*reply),
{
    match reply {
        Reply::Done { .. } => Ok(()),
        Reply::Status { code } => if *code == 0 {
            Ok(())
        } else {
            Err(LSError::from(*code).into_error())
        },
        Reply::Failed { kind } => Err(Error::new(*kind, "failed to create CFURL")),
    }
}

/// Opening the target with the application bundle `app`. On a dry run the
/// bundle is only looked for.
pub open spec fn opening_with(
    app: Seq<u8>,
    target: &Target,
    options: &BrowserOptions,
    replies: Seq<Reply>,
    at: nat,
) -> Turn<Result<(), Error>> {
    if options.dry_run {
        if at >= replies.len() {
            Turn::Ask(RequestView::IsDir { path: app })
        } else if replies[at as int].ok() {
            Turn::Done(Ok(()), at + 1)
        } else {
            Turn::Done(
                Err(Error { kind: replies[at as int].failure(), message: "browser not found" }),
                at + 1,
            )
        }
    } else if at >= replies.len() {
        Turn::Ask(RequestView::OpenWith { app, url: target.url@ })
    } else {
        Turn::Done(open_result(replies[at as int]), at + 1)
    }
}

/// Opens the target with the application bundle `app`.
pub fn open_with_bundle(
    app: Vec<u8>,
    target: &Target,
    options: &BrowserOptions,
    host: &Host,
    at: usize,
) -> (r: Step<Result<(), Error>>)
    ensures
        r@ == opening_with(app@, target, options, host.replies@, at as nat),
        options.dry_run ==> !asks_to_start(r@),
{
    match host.reply(at) {
        None => {
            if options.dry_run {
                Step::Ask(Request::IsDir { path: app })
            } else {
                Step::Ask(Request::OpenWith { app, url: copy(target.url.as_slice()) })
            }
        },
        Some(reply) => {
            if options.dry_run {
                if reply.is_ok() {
                    Step::Done(Ok(()), at + 1)
                } else {
                    Step::Done(Err(Error::new(reply.kind(), "browser not found")), at + 1)
                }
            } else {
                Step::Done(read_open_reply(reply), at + 1)
            }
        },
    }
}

/// Opening a browser on macOS: the default one is the bundle that the host
/// names, or Safari where it names none; a browser without a bundle cannot
/// be opened.
pub open spec fn opening(
    browser: Browser,
    target: &Target,
    options: &BrowserOptions,
    replies: Seq<Reply>,
    at: nat,
) -> Turn<Result<(), Error>> {
    if browser == Browser::Default {
        if at >= replies.len() {
            Turn::Ask(RequestView::DefaultHandler)
        } else {
            opening_with(
                match replies[at as int].output() {
                    Some(app) => app,
                    None => fallback_bundle(),
                },
                target,
                options,
                replies,
                at + 1,
            )
        }
    } else {
        match bundle_of(browser) {
            None => Turn::Done(Err(not_found("browser not supported on macos")), at),
            Some(app) => opening_with(app, target, options, replies, at),
        }
    }
}

/// Deal with opening of browsers on Mac OS X.
pub fn open_browser_internal(
    browser: Browser,
    target: &Target,
    options: &BrowserOptions,
    host: &Host,
    at: usize,
) -> (r: Step<Result<(), Error>>)
    ensures
        r@ == opening(browser, target, options, host.replies@, at as nat),
        options.dry_run ==> !asks_to_start(r@),
{
    match browser {
        Browser::Default => {
            let reply = match host.reply(at) {
                None => {
                    return Step::Ask(Request::DefaultHandler);
                },
                Some(reply) => reply,
            };
            let app = match reply.data() {
                Some(app) => copy(app.as_slice()),
                None => text("file:///Applications/Safari.app/"),
            };
            open_with_bundle(app, target, options, host, at + 1)
        },
        _ => match named_bundle(browser) {
            None => Step::Done(
                Err(Error::new(ErrorKind::NotFound, "browser not supported on macos")),
                at,
            ),
            Some(app) => open_with_bundle(app, target, options, host, at),
        },
    }
}

} // verus!
