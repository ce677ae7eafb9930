//! Opening a URL or a local file: the entry points.
//!
//! Every function here takes what is known of the machine as a [`Host`] and
//! returns a [`Step`]: the request to carry out next, or the outcome. The
//! caller carries out the request, adds the reply to the host and calls
//! again with the same arguments.

use crate::browser::Browser;
use crate::error::invalid_input;
use crate::error::Error;
use crate::error::ErrorKind;
use crate::host::asks_to_start;
use crate::host::Environment;
use crate::host::Host;
use crate::host::Model;
use crate::host::Platform;
use crate::host::Reply;
use crate::host::Step;
use crate::host::Turn;
use crate::options::BrowserOptions;
use crate::target::resolution;
use crate::target::Target;
use vstd::prelude::*;
use vstd::string::StringExecFns;

verus! {

/// Opening a target that has been read: the policy is applied, and the
/// platform decides how a browser is found and started.
pub open spec fn opening_target(
    browser: Browser,
    target: &Target,
    options: &BrowserOptions,
    env: &Environment,
    replies: Seq<Reply>,
    at: nat,
) -> Turn<Result<(), Error>> {
    if env.hardened && !target.web() {
        Turn::Done(Err(invalid_input("only http/https urls allowed")), at)
    } else {
        match env.platform {
            Platform::Linux | Platform::Bsd | Platform::Haiku => crate::unix::opening(
                browser,
                target,
                options,
                env,
                replies,
                at,
            ),
            Platform::MacOs => crate::macos::opening(browser, target, options, replies, at),
            Platform::Windows => crate::windows::opening(browser, target, options, replies, at),
            Platform::Android => crate::android::opening(
                browser,
                target,
                options,
                env,
                replies,
                at,
            ),
            Platform::Ios => crate::ios::opening(target, options, replies, at),
            Platform::Wasm => crate::wasm::opening(target, options, replies, at),
        }
    }
}

/// Opens a target that has been read.
pub fn open_target(
    browser: Browser,
    target: &Target,
    options: &BrowserOptions,
    host: &Host,
    at: usize,
) -> (r: Step<Result<(), Error>>)
    ensures
        r@ == opening_target(browser, target, options, &host.env, host.replies@, at as nat),
        options.dry_run ==> !asks_to_start(r@),
{
    if host.env.hardened && !target.is_http() {
        return Step::Done(
            Err(Error::new(ErrorKind::InvalidInput, "only http/https urls allowed")),
            at,
        );
    }
    match host.env.platform {
        Platform::Linux | Platform::Bsd | Platform::Haiku => crate::unix::open_browser_internal(
            browser,
            target,
            options,
            host,
            at,
        ),
        Platform::MacOs => crate::macos::open_browser_internal(browser, target, options, host, at),
        Platform::Windows => crate::windows::open_browser_internal(
            browser,
            target,
            options,
            host,
            at,
        ),
        Platform::Android => crate::android::open_browser_internal(
            browser,
            target,
            options,
            host,
            at,
        ),
        Platform::Ios => crate::ios::open_browser_internal(browser, target, options, host, at),
        Platform::Wasm => crate::wasm::open_browser_internal(browser, target, options, host, at),
    }
}

/// Opening what came of reading the input: a failure to read it is the
/// outcome, and a target is opened.
pub open spec fn opening_resolved(
    browser: Browser,
    resolved: Result<Target, Error>,
    options: &BrowserOptions,
    env: &Environment,
    replies: Seq<Reply>,
) -> Turn<Result<(), Error>> {
    match resolved {
        Err(e) => Turn::Done(Err(e), 0),
        Ok(target) => opening_target(browser, &target, options, env, replies, 0),
    }
}

/// What opening `url` may come to: what opening comes to for one of the
/// ways in which the input may be read.
pub open spec fn opening_url(
    browser: Browser,
    url: &str,
    options: &BrowserOptions,
    env: &Environment,
    replies: Seq<Reply>,
    turn: Turn<Result<(), Error>>,
) -> bool {
    exists|resolved: Result<Target, Error>|
        resolution(url, env, resolved) && turn == #[trigger] opening_resolved(
            browser,
            resolved,
            options,
            env,
            replies,
        )
}

/// Opens the specified URL on the specific browser (if available)
/// requested, while overriding the default options.
///
/// On a dry run no request that starts a browser is ever made.
pub fn open_browser_with_options(
    browser: Browser,
    url: &str,
    options: &BrowserOptions,
    host: &Host,
) -> (r: Step<Result<(), Error>>)
    ensures
        opening_url(browser, url, options, &host.env, host.replies@, r@),
        options.dry_run ==> !asks_to_start(r@),
{
    let resolved = Target::try_from(url, &host.env);
    let r = match &resolved {
        Err(e) => Step::Done(Err(*e), 0),
        Ok(target) => open_target(browser, target, options, host, 0),
    };
    assert(r@ == opening_resolved(browser, resolved, options, &host.env, host.replies@));
    r
}

/// Opens the specified URL on the specific browser (if available)
/// requested, with the options that are in force unless changed.
pub fn open_browser(browser: Browser, url: &str, host: &Host) -> (r: Step<Result<(), Error>>)
    ensures
        exists|options: BrowserOptions|
            #![trigger options.dry_run]
            options.suppress_output && !options.dry_run && options.target_hint@ == "_blank"@
                && opening_url(browser, url, &options, &host.env, host.replies@, r@),
{
    let options = BrowserOptions::new();
    let r = open_browser_with_options(browser, url, &options, host);
    assert(!options.dry_run);
    r
}

/// Opens the URL on the default browser of this platform.
pub fn open(url: &str, host: &Host) -> (r: Step<Result<(), Error>>)
    ensures
        exists|options: BrowserOptions|
            #![trigger options.dry_run]
            options.suppress_output && !options.dry_run && options.target_hint@ == "_blank"@
                && opening_url(Browser::Default, url, &options, &host.env, host.replies@, r@),
{
    open_browser(Browser::Default, url, host)
}

/// Whether a run has ended in success.
pub open spec fn succeeded(turn: Turn<Result<(), Error>>) -> Turn<bool> {
    match turn {
        Turn::Ask(request) => Turn::Ask(request),
        Turn::Done(outcome, used) => Turn::Done(outcome is Ok, used),
    }
}

impl Browser {
    /// Returns true if this specific browser is detected in the system.
    ///
    /// The answer is that of a dry run of opening `https://rootnet.in`:
    /// nothing is started to find it.
    pub fn is_installed(&self, host: &Host) -> (r: Step<bool>)
        ensures
            !asks_to_start(r@),
            exists|options: BrowserOptions, turn: Turn<Result<(), Error>>|
                #![trigger succeeded(turn), options.dry_run]
                options.dry_run && opening_url(
                    *self,
                    "https://rootnet.in",
                    &options,
                    &host.env,
                    host.replies@,
                    turn,
                ) && r@ == succeeded(turn),
    {
        let mut options = BrowserOptions::new();
        options.dry_run = true;
        let step = open_browser_with_options(*self, "https://rootnet.in", &options, host);
        let r = match step {
            Step::Ask(request) => Step::Ask(request),
            Step::Done(outcome, used) => Step::Done(outcome.is_ok(), used),
        };
        assert(r@ == succeeded(step@));
        assert(options.dry_run);
        r
    }

    /// Returns true if there is likely a browser detected in the system.
    pub fn is_available(host: &Host) -> (r: Step<bool>)
        ensures
            !asks_to_start(r@),
            exists|options: BrowserOptions, turn: Turn<Result<(), Error>>|
                #![trigger succeeded(turn), options.dry_run]
                options.dry_run && opening_url(
                    Browser::Default,
                    "https://rootnet.in",
                    &options,
                    &host.env,
                    host.replies@,
                    turn,
                ) && r@ == succeeded(turn),
    {
        Browser::Default.is_installed(host)
    }
}

} // verus!
