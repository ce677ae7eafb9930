//! Opening a web page on iOS, tvOS and visionOS. Whatever browser is asked
//! for, the platform opens the page in the one it has.

use crate::browser::Browser;
use crate::error::invalid_input;
use crate::error::Error;
use crate::host::asks_to_start;
use crate::host::Host;
use crate::host::Model;
use crate::host::Reply;
use crate::host::Request;
use crate::host::RequestView;
use crate::host::Step;
use crate::host::Turn;
use crate::options::BrowserOptions;
use crate::target::Target;
use vstd::prelude::*;

verus! {

/// What a reply to the request to open a URL means.
pub open spec fn open_result(reply: Reply) -> Result<(), Error> {
    if reply.ok() {
        Ok(())
    } else {
        Err(Error { kind: reply.failure(), message: "the application could not open the url" })
    }
}

/// Opening a web page: anything else is refused, and on a dry run nothing
/// is asked.
pub open spec fn opening(
    target: &Target,
    options: &BrowserOptions,
    replies: Seq<Reply>,
    at: nat,
) -> Turn<Result<(), Error>> {
    if !target.web() {
        Turn::Done(Err(invalid_input("not an http url")), at)
    } else if options.dry_run {
        Turn::Done(Ok(()), at)
    } else if at >= replies.len() {
        Turn::Ask(RequestView::OpenUrl { url: target.url@, hint: seq![] })
    } else {
        Turn::Done(open_result(replies[at as int]), at + 1)
    }
}

/// Deal with opening of browsers on iOS/tvOS/visionOS.
pub fn open_browser_internal(
    _browser: Browser,
    target: &Target,
    options: &BrowserOptions,
    host: &Host,
    at: usize,
) -> (r: Step<Result<(), Error>>)
    ensures
        r@ == opening(target, options, host.replies@, at as nat),
        options.dry_run ==> !asks_to_start(r@),
{
    let url = match target.get_http_url() {
        Err(e) => {
            return Step::Done(Err(e), at);
        },
        Ok(url) => url,
    };
    if options.dry_run {
        return Step::Done(Ok(()), at);
    }
    match host.reply(at) {
        None => Step::Ask(Request::OpenUrl { url, hint: Vec::new() }),
        Some(reply) => {
            if reply.is_ok() {
                Step::Done(Ok(()), at + 1)
            } else {
                Step::Done(
                    Err(Error::new(reply.kind(), "the application could not open the url")),
                    at + 1,
                )
            }
        },
    }
}

} // verus!
