//! Opening the default browser on Windows.
//!
//! The command line that Windows has registered for `http` is asked from
//! the host, mended where the path of the program holds spaces and was left
//! unquoted, and started with the target in place of `%0` and `%1`.

use crate::browser::Browser;
use crate::error::not_found;
use crate::error::other;
use crate::error::Error;
use crate::error::ErrorKind;
use crate::host::asks_to_start;
use crate::host::CandidateCommand;
use crate::host::CommandView;
use crate::host::Host;
use crate::host::Model;
use crate::host::Reply;
use crate::host::Request;
use crate::host::RequestView;
use crate::host::Step;
use crate::host::Turn;
use crate::launch::run_command;
use crate::launch::running;
use crate::options::BrowserOptions;
use crate::target::Target;
use crate::text::copy;
use crate::text::part;
use crate::text::rest_of;
use crate::text::scan;
use crate::text::span;
use crate::text::texts;
use crate::text::Stop;
use crate::text::QUOTE;
use crate::text::SPACE;
use crate::token::tokens;
use crate::wsl::fill_file_codes;
use crate::wsl::with_file;
use vstd::prelude::*;

verus! {

/// `cmdline` with its first `end` bytes put in double quotes.
pub open spec fn quoted_up_to(cmdline: Seq<u8>, end: int) -> Seq<u8> {
    seq![QUOTE] + cmdline.take(end) + seq![QUOTE] + cmdline.skip(end)
}

/// Looking, from position `from` on, for the first space of `cmdline` before
/// which a path stands that exists, and quoting what is before it. Each
/// space costs one `Exists` request. Where no such space is found, or it is
/// the first byte, the command line stays as it is.
pub open spec fn quoting_from(cmdline: Seq<u8>, from: nat, replies: Seq<Reply>, at: nat) -> Turn<
    Seq<u8>,
>
    decreases cmdline.len() - from,
{
    if from >= cmdline.len() {
        Turn::Done(cmdline, at)
    } else {
        let n = from + span(cmdline.skip(from as int), Stop::Byte(SPACE));
        if n >= cmdline.len() {
            Turn::Done(cmdline, at)
        } else if at >= replies.len() {
            Turn::Ask(RequestView::Exists { path: cmdline.take(n as int) })
        } else if replies[at as int].ok() {
            if n > 0 {
                Turn::Done(quoted_up_to(cmdline, n as int), at + 1)
            } else {
                Turn::Done(cmdline, at + 1)
            }
        } else {
            quoting_from(cmdline, n + 1, replies, at + 1)
        }
    }
}

/// Making sure that the program of a command line is quoted: one that
/// starts with a double quote is left alone.
pub open spec fn quoting(cmdline: Seq<u8>, replies: Seq<Reply>, at: nat) -> Turn<Seq<u8>> {
    if cmdline.len() > 0 && cmdline[0] == QUOTE {
        Turn::Done(cmdline, at)
    } else {
        quoting_from(cmdline, 0, replies, at)
    }
}

/// It seems that sometimes browser exe paths which have spaces are not
/// quoted, so we keep going over each token, until we encounter what looks
/// like a valid exe.
pub fn ensure_cmd_quotes(cmdline: &[u8], host: &Host, at: usize) -> (r: Step<Vec<u8>>)
    ensures
        r@ == quoting(cmdline@, host.replies@, at as nat),
        !asks_to_start(r@),
{
    if cmdline.len() > 0 && cmdline[0] == QUOTE {
        return Step::Done(copy(cmdline), at);
    }
    let mut from: usize = 0;
    let mut pos: usize = at;
    while from < cmdline.len()
        invariant
            from <= cmdline@.len(),
            !(cmdline@.len() > 0 && cmdline@[0] == QUOTE),
            quoting(cmdline@, host.replies@, at as nat) == quoting_from(
                cmdline@,
                from as nat,
                host.replies@,
                pos as nat,
            ),
        decreases cmdline@.len() - from,
    {
        let n = scan(cmdline, from, Stop::Byte(SPACE));
        if n >= cmdline.len() {
            return Step::Done(copy(cmdline), pos);
        }
        let reply = match host.reply(pos) {
            None => {
                let path = part(cmdline, 0, n);
                assert(path@ == cmdline@.take(n as int));
                return Step::Ask(Request::Exists { path });
            },
            Some(reply) => reply,
        };
        if reply.is_ok() {
            if n > 0 {
                let mut out: Vec<u8> = Vec::new();
                out.push(QUOTE);
                out.extend_from_slice(vstd::slice::slice_subrange(cmdline, 0, n));
                out.push(QUOTE);
                out.extend_from_slice(vstd::slice::slice_subrange(cmdline, n, cmdline.len()));
                assert(out@ == quoted_up_to(cmdline@, n as int));
                return Step::Done(out, pos + 1);
            }
            return Step::Done(copy(cmdline), pos + 1);
        }
        pos += 1;
        from = n + 1;
    }
    Step::Done(copy(cmdline), pos)
}

/// The command that a registered command line stands for: its tokens, with
/// `url` in place of `%0` and `%1`; the first is the program.
pub open spec fn browser_command(cmdline: Seq<u8>, url: Seq<u8>) -> Result<CommandView, Error> {
    let ts = with_file(tokens(cmdline), url);
    if ts.len() == 0 {
        Err(not_found("invalid command"))
    } else {
        Ok(CommandView { program: ts[0], args: ts.skip(1), dir: None })
    }
}

/// Given the configured command line `cmdline` in registry, and the given
/// `url`, return the appropriate command to invoke.
pub fn get_browser_cmd(cmdline: &[u8], url: &[u8]) -> (r: Result<CandidateCommand, Error>)
    ensures
        r.model() == browser_command(cmdline@, url@),
{
    let ts = fill_file_codes(cmdline, url);
    if ts.len() == 0 {
        return Err(Error::new(ErrorKind::NotFound, "invalid command"));
    }
    assert(texts(ts@)[0] == ts@[0]@);
    let args = rest_of(&ts);
    Ok(CandidateCommand { program: copy(ts[0].as_slice()), args, dir: None })
}

/// The failure of asking for another browser than the default one.
pub open spec fn only_default() -> Error {
    not_found("Only the default browser is supported on this platform right now")
}

/// Starting the browser that a registered command line names.
pub open spec fn starting_registered(
    cmdline: Seq<u8>,
    target: &Target,
    options: &BrowserOptions,
    replies: Seq<Reply>,
    at: nat,
) -> Turn<Result<(), Error>> {
    match quoting(cmdline, replies, at) {
        Turn::Ask(request) => Turn::Ask(request),
        Turn::Done(quoted, next) => match browser_command(quoted, target.url@) {
            Err(e) => Turn::Done(Err(e), next),
            Ok(command) => running(command, true, options, replies, next),
        },
    }
}

/// Starts the browser that a registered command line names.
pub fn open_registered(
    cmdline: &[u8],
    target: &Target,
    options: &BrowserOptions,
    host: &Host,
    at: usize,
) -> (r: Step<Result<(), Error>>)
    ensures
        r@ == starting_registered(cmdline@, target, options, host.replies@, at as nat),
        options.dry_run ==> !asks_to_start(r@),
{
    match ensure_cmd_quotes(cmdline, host, at) {
        Step::Ask(request) => Step::Ask(request),
        Step::Done(quoted, next) => match get_browser_cmd(
            quoted.as_slice(),
            target.url.as_slice(),
        ) {
            Err(e) => Step::Done(Err(e), next),
            Ok(command) => run_command(command, true, options, host, next),
        },
    }
}

/// Opening a browser on Windows. Only the default browser can be asked
/// for; on a dry run it is taken to exist.
pub open spec fn opening(
    browser: Browser,
    target: &Target,
    options: &BrowserOptions,
    replies: Seq<Reply>,
    at: nat,
) -> Turn<Result<(), Error>> {
    if browser != Browser::Default {
        Turn::Done(Err(only_default()), at)
    } else if options.dry_run {
        Turn::Done(Ok(()), at)
    } else if at >= replies.len() {
        Turn::Ask(RequestView::DefaultHandler)
    } else {
        match replies[at as int].output() {
            None => Turn::Done(Err(other("failed to get default browser")), at + 1),
            Some(cmdline) => starting_registered(cmdline, target, options, replies, at + 1),
        }
    }
}

/// Deal with opening of browsers on Windows.
pub fn open_browser_internal(
    browser: Browser,
    target: &Target,
    options: &BrowserOptions,
    host: &Host,
    at: usize,
) -> (r: Step<Result<(), Error>>)
    ensures
        r@ == opening(browser, target, options, host.replies@, at as nat),
        options.dry_run ==> !asks_to_start(r@),
{
    match browser {
        Browser::Default => {
            if options.dry_run {
                return Step::Done(Ok(()), at);
            }
            let reply = match host.reply(at) {
                None => {
                    return Step::Ask(Request::DefaultHandler);
                },
                Some(reply) => reply,
            };
            match reply.data() {
                None => Step::Done(
                    Err(Error::new(ErrorKind::Other, "failed to get default browser")),
                    at + 1,
                ),
                Some(cmdline) => open_registered(cmdline.as_slice(), target, options, host, at + 1),
            }
        },
        _ => Step::Done(
            Err(
                Error::new(
                    ErrorKind::NotFound,
                    "Only the default browser is supported on this platform right now",
                ),
            ),
            at,
        ),
    }
}

} // verus!
