//! Opening the default browser on Android.
//!
//! Only web pages are opened, and only by the default browser. Inside
//! Termux the `termux-open` command is tried first; else, or if that fails,
//! the platform is asked to view the URL.

use crate::browser::Browser;
use crate::error::invalid_input;
use crate::error::not_found;
use crate::error::Error;
use crate::error::ErrorKind;
use crate::host::asks_to_start;
use crate::host::CandidateCommand;
use crate::host::CommandView;
use crate::host::Environment;
use crate::host::Host;
use crate::host::Model;
use crate::host::Reply;
use crate::host::Request;
use crate::host::RequestView;
use crate::host::Step;
use crate::host::Turn;
use crate::options::BrowserOptions;
use crate::target::Target;
use crate::text::copy;
use crate::text::lit;
use crate::text::no_texts;
use crate::text::push_bytes;
use crate::text::text;
use vstd::prelude::*;

verus! {

/// The command that opens `url` inside Termux.
pub open spec fn termux_command(url: Seq<u8>) -> CommandView {
    CommandView { program: lit("termux-open"), args: seq![url], dir: None }
}

/// What a reply to the request to view a URL means.
pub open spec fn view_result(reply: Reply) -> Result<(), Error> {
    if reply.ok() {
        Ok(())
    } else {
        Err(Error { kind: reply.failure(), message: "Failed to start activity" })
    }
}

/// Asking the platform to view `url`.
pub open spec fn viewing(url: Seq<u8>, replies: Seq<Reply>, at: nat) -> Turn<Result<(), Error>> {
    if at >= replies.len() {
        Turn::Ask(RequestView::OpenUrl { url, hint: seq![] })
    } else {
        Turn::Done(view_result(replies[at as int]), at + 1)
    }
}

/// The failure of `termux-open` where there is no Termux.
pub open spec fn no_termux() -> Error {
    Error { kind: ErrorKind::Other, message: "Not a termux environment" }
}

/// What a reply to starting `termux-open` means.
pub open spec fn termux_result(reply: Reply) -> Result<(), Error> {
    if reply.ok() {
        Ok(())
    } else {
        Err(Error { kind: ErrorKind::Other, message: "command present but exited unsuccessfully" })
    }
}

/// Opening `url` with `termux-open`, which is there wherever Termux is:
/// the command is waited for, and its output discarded if the options say
/// so.
pub open spec fn by_termux(
    url: Seq<u8>,
    options: &BrowserOptions,
    env: &Environment,
    replies: Seq<Reply>,
    at: nat,
) -> Turn<Result<(), Error>> {
    if !env.termux_version {
        Turn::Done(Err(no_termux()), at)
    } else if options.dry_run {
        Turn::Done(Ok(()), at)
    } else if at >= replies.len() {
        Turn::Ask(
            RequestView::Launch {
                command: termux_command(url),
                wait: true,
                quiet: options.suppress_output,
            },
        )
    } else {
        Turn::Done(termux_result(replies[at as int]), at + 1)
    }
}

/// Opening `url` in the default browser: on a dry run there is nothing to
/// find and nothing is asked; else Termux is tried first, and the platform
/// is asked to view the URL where that fails.
pub open spec fn by_default(
    url: Seq<u8>,
    options: &BrowserOptions,
    env: &Environment,
    replies: Seq<Reply>,
    at: nat,
) -> Turn<Result<(), Error>> {
    if options.dry_run {
        Turn::Done(Ok(()), at)
    } else {
        match by_termux(url, options, env, replies, at) {
            Turn::Ask(request) => Turn::Ask(request),
            Turn::Done(Ok(_), next) => Turn::Done(Ok(()), next),
            Turn::Done(Err(_), next) => viewing(url, replies, next),
        }
    }
}

/// Asks the platform to view `url`.
fn view_url(url: &[u8], host: &Host, at: usize) -> (r: Step<Result<(), Error>>)
    ensures
        r@ == viewing(url@, host.replies@, at as nat),
{
    match host.reply(at) {
        None => Step::Ask(Request::OpenUrl { url: copy(url), hint: Vec::new() }),
        Some(reply) => {
            if reply.is_ok() {
                Step::Done(Ok(()), at + 1)
            } else {
                Step::Done(Err(Error::new(reply.kind(), "Failed to start activity")), at + 1)
            }
        },
    }
}

/// Attemps to open a browser assuming a termux environment.
pub fn try_for_termux(url: &[u8], options: &BrowserOptions, host: &Host, at: usize) -> (r: Step<
    Result<(), Error>,
>)
    ensures
        r@ == by_termux(url@, options, &host.env, host.replies@, at as nat),
        options.dry_run ==> !asks_to_start(r@),
{
    if !host.env.termux_version {
        return Step::Done(Err(Error::new(ErrorKind::Other, "Not a termux environment")), at);
    }
    if options.dry_run {
        return Step::Done(Ok(()), at);
    }
    match host.reply(at) {
        None => {
            let mut args = no_texts();
            push_bytes(&mut args, copy(url));
            assert(crate::text::texts(args@) == seq![url@]);
            Step::Ask(
                Request::Launch {
                    command: CandidateCommand { program: text("termux-open"), args, dir: None },
                    wait: true,
                    quiet: options.suppress_output,
                },
            )
        },
        Some(reply) => {
            if reply.is_ok() {
                Step::Done(Ok(()), at + 1)
            } else {
                Step::Done(
                    Err(Error::new(ErrorKind::Other, "command present but exited unsuccessfully")),
                    at + 1,
                )
            }
        },
    }
}

/// Open the default browser.
pub fn open_browser_default(url: &[u8], options: &BrowserOptions, host: &Host, at: usize) -> (r:
    Step<Result<(), Error>>)
    ensures
        r@ == by_default(url@, options, &host.env, host.replies@, at as nat),
        options.dry_run ==> !asks_to_start(r@),
{
    if options.dry_run {
        return Step::Done(Ok(()), at);
    }
    match try_for_termux(url, options, host, at) {
        Step::Ask(request) => Step::Ask(request),
        Step::Done(Ok(_), next) => Step::Done(Ok(()), next),
        Step::Done(Err(_), next) => view_url(url, host, next),
    }
}

/// Opening a browser on Android.
pub open spec fn opening(
    browser: Browser,
    target: &Target,
    options: &BrowserOptions,
    env: &Environment,
    replies: Seq<Reply>,
    at: nat,
) -> Turn<Result<(), Error>> {
    if !target.web() {
        Turn::Done(Err(invalid_input("not an http url")), at)
    } else if browser != Browser::Default {
        Turn::Done(Err(not_found("only default browser supported")), at)
    } else {
        by_default(target.url@, options, env, replies, at)
    }
}

/// Deal with opening of browsers on Android.
pub fn open_browser_internal(
    browser: Browser,
    target: &Target,
    options: &BrowserOptions,
    host: &Host,
    at: usize,
) -> (r: Step<Result<(), Error>>)
    ensures
        r@ == opening(browser, target, options, &host.env, host.replies@, at as nat),
        options.dry_run ==> !asks_to_start(r@),
{
    let url = match target.get_http_url() {
        Err(e) => {
            return Step::Done(Err(e), at);
        },
        Ok(url) => url,
    };
    match browser {
        Browser::Default => open_browser_default(url.as_slice(), options, host, at),
        _ => Step::Done(Err(Error::new(ErrorKind::NotFound, "only default browser supported")), at),
    }
}

} // verus!
