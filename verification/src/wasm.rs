//! Opening a web page from a script runtime inside a browser: the page
//! opens in that browser, in the place that the options hint at.

use crate::browser::Browser;
use crate::error::invalid_input;
use crate::error::other;
use crate::error::Error;
use crate::error::ErrorKind;
use crate::host::asks_to_start;
use crate::host::Host;
use crate::host::Model;
use crate::host::Reply;
use crate::host::Request;
use crate::host::RequestView;
use crate::host::Step;
use crate::host::Turn;
use crate::options::BrowserOptions;
use crate::target::Target;
use vstd::prelude::*;
use vstd::string::StringSliceAdditionalSpecFns;
use vstd::utf8::encode_utf8;

verus! {

/// The failure of a window that did not open.
pub open spec fn not_opened() -> Error {
    other("popup blocked? window detected, but open_url failed")
}

/// Opening a web page: anything else is refused, and on a dry run nothing
/// is asked.
pub open spec fn opening(
    target: &Target,
    options: &BrowserOptions,
    replies: Seq<Reply>,
    at: nat,
) -> Turn<Result<(), Error>> {
    if !target.web() {
        Turn::Done(Err(invalid_input("not an http url")), at)
    } else if options.dry_run {
        Turn::Done(Ok(()), at)
    } else if at >= replies.len() {
        Turn::Ask(
            RequestView::OpenUrl {
                url: target.url@,
                hint: encode_utf8(options.target_hint@),
            },
        )
    } else if replies[at as int].ok() {
        Turn::Done(Ok(()), at + 1)
    } else {
        Turn::Done(Err(not_opened()), at + 1)
    }
}

/// Deal with opening a URL in wasm32. The browser that is asked for plays
/// no part.
pub fn open_browser_internal(
    _browser: Browser,
    target: &Target,
    options: &BrowserOptions,
    host: &Host,
    at: usize,
) -> (r: Step<Result<(), Error>>)
    ensures
        r@ == opening(target, options, host.replies@, at as nat),
        options.dry_run ==> !asks_to_start(r@),
{
    let url = match target.get_http_url() {
        Err(e) => {
            return Step::Done(Err(e), at);
        },
        Ok(url) => url,
    };
    if options.dry_run {
        return Step::Done(Ok(()), at);
    }
    match host.reply(at) {
        None => Step::Ask(
            Request::OpenUrl { url, hint: crate::text::text(options.target_hint.as_str()) },
        ),
        Some(reply) => {
            if reply.is_ok() {
                Step::Done(Ok(()), at + 1)
            } else {
                Step::Done(
                    Err(
                        Error::new(
                            ErrorKind::Other,
                            "popup blocked? window detected, but open_url failed",
                        ),
                    ),
                    at + 1,
                )
            }
        },
    }
}

} // verus!
